//! The datagram commands exchanged with the peer: `on` and `off` as UTF-8 text.
use vstd::prelude::*;

verus! {

/// Whether a byte sequence is well-formed UTF-8, as `core::str::from_utf8` decides it.
pub uninterp spec fn utf8_valid(b: Seq<u8>) -> bool;

/// Relies on `core::str::from_utf8`: whether it returns `Ok` depends on the bytes alone.
#[verifier::external_body]
fn is_utf8(b: &[u8]) -> (r: bool)
    ensures
        r == utf8_valid(b@),
{
    core::str::from_utf8(b).is_ok()
}

/// The datagram text for a logical level: `"on"` or `"off"`.
pub open spec fn command_bytes(on: bool) -> Seq<u8> {
    if on {
        seq![0x6fu8, 0x6eu8]
    } else {
        seq![0x6fu8, 0x66u8, 0x66u8]
    }
}

/// What an inbound datagram asks for.
#[derive(Clone, Copy, Debug, PartialEq, Eq, Structural)]
pub enum Inbound {
    /// The text `on`.
    On,
    /// The text `off`.
    Off,
    /// Well-formed text that is neither command.
    Unknown,
    /// Bytes that are not UTF-8 text.
    Malformed,
}

/// Classification of a payload, given whether it is well-formed text.
pub open spec fn inbound_of(payload: Seq<u8>, text: bool) -> Inbound {
    if payload == command_bytes(true) {
        Inbound::On
    } else if payload == command_bytes(false) {
        Inbound::Off
    } else if text {
        Inbound::Unknown
    } else {
        Inbound::Malformed
    }
}

/// The level an inbound command leaves the output at, from its previous level.
pub open spec fn output_after(output: bool, cmd: Inbound) -> bool {
    match cmd {
        Inbound::On => true,
        Inbound::Off => false,
        _ => output,
    }
}

/// The payload sent for a logical level.
pub fn payload(on: bool) -> (r: &'static [u8])
    ensures
        r@ == command_bytes(on),
{
    let r: &'static [u8] = if on {
        &[0x6fu8, 0x6eu8]
    } else {
        &[0x6fu8, 0x66u8, 0x66u8]
    };
    assert(r@ =~= command_bytes(on));
    r
}

/// Classifies `payload`, where `text` tells whether it decoded as UTF-8.
pub fn classify(payload: &[u8], text: bool) -> (r: Inbound)
    ensures
        r == inbound_of(payload@, text),
{
    let n = payload.len();
    if n == 2 && payload[0] == 0x6fu8 && payload[1] == 0x6eu8 {
        assert(payload@ =~= command_bytes(true));
        Inbound::On
    } else if n == 3 && payload[0] == 0x6fu8 && payload[1] == 0x66u8 && payload[2] == 0x66u8 {
        assert(payload@ =~= command_bytes(false));
        Inbound::Off
    } else {
        assert(payload@ != command_bytes(true)) by {
            if payload@ == command_bytes(true) {
                assert(payload@[0] == 0x6fu8 && payload@[1] == 0x6eu8);
            }
        }
        assert(payload@ != command_bytes(false)) by {
            if payload@ == command_bytes(false) {
                assert(payload@[0] == 0x6fu8 && payload@[1] == 0x66u8 && payload@[2] == 0x66u8);
            }
        }
        if text {
            Inbound::Unknown
        } else {
            Inbound::Malformed
        }
    }
}

/// Decodes a received datagram.
pub fn decode(payload: &[u8]) -> (r: Inbound)
    ensures
        r == inbound_of(payload@, utf8_valid(payload@)),
{
    let text = is_utf8(payload);
    classify(payload, text)
}

/// The output level after applying a received datagram to an output at level
/// `output`: `on` and `off` set it, anything else leaves it as it was.
pub fn handle_datagram(output: bool, payload: &[u8]) -> (r: (Inbound, bool))
    ensures
        r.0 == inbound_of(payload@, utf8_valid(payload@)),
        r.1 == output_after(output, r.0),
        payload@ == command_bytes(true) ==> r.1,
        payload@ == command_bytes(false) ==> !r.1,
        payload@ != command_bytes(true) && payload@ != command_bytes(false) ==> r.1 == output,
{
    let cmd = decode(payload);
    let level = match cmd {
        Inbound::On => true,
        Inbound::Off => false,
        _ => output,
    };
    (cmd, level)
}

/// A payload built for a level decodes back to the command for that level.
pub proof fn lemma_payload_round_trip(on: bool)
    ensures
        inbound_of(command_bytes(on), utf8_valid(command_bytes(on)))
            == (if on { Inbound::On } else { Inbound::Off }),
{
    if !on {
        assert(command_bytes(false) != command_bytes(true)) by {
            assert(command_bytes(false).len() != command_bytes(true).len());
        }
    }
}

} // verus!
