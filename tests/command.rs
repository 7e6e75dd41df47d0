use pico_link::command::{classify, decode, handle_datagram, payload, Inbound};

#[test]
fn payload_text() {
    assert_eq!(payload(true).to_vec(), b"on".to_vec());
    assert_eq!(payload(false).to_vec(), b"off".to_vec());
}

#[test]
fn payload_round_trip() {
    assert_eq!(decode(payload(true)), Inbound::On);
    assert_eq!(decode(payload(false)), Inbound::Off);
}

#[test]
fn decode_commands() {
    assert_eq!(decode(b"on"), Inbound::On);
    assert_eq!(decode(b"off"), Inbound::Off);
    assert_eq!(decode(b"banana"), Inbound::Unknown);
    assert_eq!(decode(b""), Inbound::Unknown);
    assert_eq!(decode(b"On"), Inbound::Unknown);
    assert_eq!(decode(b"on\n"), Inbound::Unknown);
}

#[test]
fn decode_rejects_bytes_that_are_not_text() {
    assert_eq!(decode(&[0xff, 0xfe]), Inbound::Malformed);
    assert_eq!(decode(&[0xc3]), Inbound::Malformed);
    // well-formed multi-byte text is text
    assert_eq!(decode("é".as_bytes()), Inbound::Unknown);
}

#[test]
fn classify_follows_the_text_flag() {
    assert_eq!(classify(b"on", true), Inbound::On);
    assert_eq!(classify(b"xy", true), Inbound::Unknown);
    assert_eq!(classify(b"xy", false), Inbound::Malformed);
}

#[test]
fn peer_sends_on_banana_off() {
    let mut output = false;
    let mut seen = Vec::new();
    let mut unknown = 0;
    for msg in [&b"on"[..], &b"banana"[..], &b"off"[..]] {
        let (cmd, level) = handle_datagram(output, msg);
        if cmd == Inbound::Unknown {
            unknown += 1;
        }
        output = level;
        seen.push(output);
    }
    assert_eq!(seen, vec![true, true, false]);
    assert_eq!(unknown, 1);
}

#[test]
fn malformed_datagram_leaves_output() {
    assert_eq!(handle_datagram(true, &[0xff]), (Inbound::Malformed, true));
    assert_eq!(handle_datagram(false, &[0xff]), (Inbound::Malformed, false));
}
