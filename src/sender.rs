//! The outbound path: a debounced, edge-triggered sender that issues exactly one
//! send per settled input level, after reflecting that level on the output.
use vstd::prelude::*;

verus! {

/// Settling delay after an input edge before the level is sampled, in milliseconds.
pub const DEBOUNCE_MS: u64 = 100;

/// Longest wait for a datagram send before it is abandoned, in milliseconds.
pub const SEND_TIMEOUT_MS: u64 = 100;

/// Where the send cycle stands.
#[derive(Clone, Copy, Debug, PartialEq, Eq, Structural)]
pub enum Phase {
    /// About to compare the input with the last sent level.
    Compare,
    /// Input matches the last sent level: waiting for any edge.
    AwaitEdge,
    /// Waiting out the debounce delay before sampling.
    Debounce,
    /// A new level was sampled: the output is being set to it.
    Reflect,
    /// The datagram for the sampled level is being sent, racing the timeout.
    Sending,
}

/// How a send attempt ended.
#[derive(Clone, Copy, Debug, PartialEq, Eq, Structural)]
pub enum SendOutcome {
    /// The transport accepted the datagram.
    Delivered,
    /// The transport reported an error.
    Failed,
    /// The timeout elapsed first and the attempt was abandoned.
    TimedOut,
}

/// What the environment reports back to the sender.
#[derive(Clone, Copy, Debug, PartialEq, Eq, Structural)]
pub enum SenderEvent {
    /// The input was read: `true` when it is asserted (electrically low).
    Sampled(bool),
    /// An edge, rising or falling, occurred on the input.
    Edge,
    /// The output line has been written.
    OutputApplied,
    /// The send attempt ended.
    SendFinished(SendOutcome),
}

/// What the environment is asked to do next.
#[derive(Clone, Copy, Debug, PartialEq, Eq, Structural)]
pub enum SenderAction {
    /// Read the input level now.
    ReadLevel,
    /// Suspend until any edge occurs on the input.
    WaitForEdge,
    /// Wait the given number of milliseconds, then read the input level.
    SampleAfter(u64),
    /// Write the output line to the given level.
    SetOutput(bool),
    /// Send the datagram for `on`, abandoning it after `timeout_ms` milliseconds.
    Send { on: bool, timeout_ms: u64 },
}

/// The outbound side of the messenger: turns input edges into one send per
/// settled level.
#[derive(Clone, Copy, Debug, PartialEq, Eq, Structural)]
pub struct Sender {
    /// The last level sampled after debouncing (the level last sent).
    pub on: bool,
    pub phase: Phase,
    pub debounce_ms: u64,
    pub timeout_ms: u64,
}

/// The sender's state after `e`. An event that the current phase does not
/// wait for changes nothing.
pub open spec fn next(s: Sender, e: SenderEvent) -> Sender {
    match s.phase {
        Phase::Compare => match e {
            SenderEvent::Sampled(asserted) => if asserted == s.on {
                Sender { phase: Phase::AwaitEdge, ..s }
            } else {
                Sender { phase: Phase::Debounce, ..s }
            },
            _ => s,
        },
        Phase::AwaitEdge => match e {
            SenderEvent::Edge => Sender { phase: Phase::Debounce, ..s },
            _ => s,
        },
        Phase::Debounce => match e {
            SenderEvent::Sampled(asserted) => Sender { on: asserted, phase: Phase::Reflect, ..s },
            _ => s,
        },
        Phase::Reflect => match e {
            SenderEvent::OutputApplied => Sender { phase: Phase::Sending, ..s },
            _ => s,
        },
        Phase::Sending => match e {
            SenderEvent::SendFinished(_) => Sender { phase: Phase::Compare, ..s },
            _ => s,
        },
    }
}

/// The action that a sender in state `s` waits on.
pub open spec fn pending(s: Sender) -> SenderAction {
    match s.phase {
        Phase::Compare => SenderAction::ReadLevel,
        Phase::AwaitEdge => SenderAction::WaitForEdge,
        Phase::Debounce => SenderAction::SampleAfter(s.debounce_ms),
        Phase::Reflect => SenderAction::SetOutput(s.on),
        Phase::Sending => SenderAction::Send { on: s.on, timeout_ms: s.timeout_ms },
    }
}

/// The state after a sequence of events.
pub open spec fn run(s: Sender, events: Seq<SenderEvent>) -> Sender
    decreases events.len(),
{
    if events.len() == 0 {
        s
    } else {
        run(next(s, events[0]), events.drop_first())
    }
}

/// The levels sent over a sequence of events: one entry each time a send is issued.
pub open spec fn sends(s: Sender, events: Seq<SenderEvent>) -> Seq<bool>
    decreases events.len(),
{
    if events.len() == 0 {
        Seq::empty()
    } else {
        let t = next(s, events[0]);
        let here = if t.phase == Phase::Sending && s.phase != Phase::Sending {
            seq![t.on]
        } else {
            Seq::empty()
        };
        here + sends(t, events.drop_first())
    }
}

/// The events of one send cycle, starting from the compare phase of a sender
/// whose last level is `on`: the input reads `first`; when that matches `on`
/// an edge follows; after the debounce delay the input reads `settled`; the
/// output is written; the send ends with `outcome`.
pub open spec fn cycle_events(on: bool, first: bool, settled: bool, outcome: SendOutcome) -> Seq<
    SenderEvent,
> {
    if first == on {
        seq![
            SenderEvent::Sampled(first),
            SenderEvent::Edge,
            SenderEvent::Sampled(settled),
            SenderEvent::OutputApplied,
            SenderEvent::SendFinished(outcome),
        ]
    } else {
        seq![
            SenderEvent::Sampled(first),
            SenderEvent::Sampled(settled),
            SenderEvent::OutputApplied,
            SenderEvent::SendFinished(outcome),
        ]
    }
}

/// The events of consecutive send cycles, each given as (level read first,
/// level read after the debounce delay, outcome of the send).
pub open spec fn cycles_events(on: bool, cycles: Seq<(bool, bool, SendOutcome)>) -> Seq<SenderEvent>
    decreases cycles.len(),
{
    if cycles.len() == 0 {
        Seq::empty()
    } else {
        let c = cycles[0];
        cycle_events(on, c.0, c.1, c.2) + cycles_events(c.1, cycles.drop_first())
    }
}

/// The levels read after each debounce delay.
pub open spec fn settled_levels(cycles: Seq<(bool, bool, SendOutcome)>) -> Seq<bool> {
    cycles.map_values(|c: (bool, bool, SendOutcome)| c.1)
}

proof fn lemma_run_append(s: Sender, a: Seq<SenderEvent>, b: Seq<SenderEvent>)
    ensures
        run(s, a + b) == run(run(s, a), b),
        sends(s, a + b) == sends(s, a) + sends(run(s, a), b),
    decreases a.len(),
{
    if a.len() == 0 {
        assert(a + b =~= b);
        assert(sends(s, a) + sends(s, b) =~= sends(s, b));
    } else {
        assert((a + b).drop_first() =~= a.drop_first() + b);
        assert((a + b)[0] == a[0]);
        let t = next(s, a[0]);
        lemma_run_append(t, a.drop_first(), b);
        let here = if t.phase == Phase::Sending && s.phase != Phase::Sending {
            seq![t.on]
        } else {
            Seq::<bool>::empty()
        };
        assert(here + (sends(t, a.drop_first()) + sends(run(t, a.drop_first()), b)) =~= (here
            + sends(t, a.drop_first())) + sends(run(t, a.drop_first()), b));
    }
}

proof fn lemma_cycle(s: Sender, first: bool, settled: bool, outcome: SendOutcome)
    requires
        s.phase == Phase::Compare,
    ensures
        run(s, cycle_events(s.on, first, settled, outcome)) == (Sender {
            on: settled,
            phase: Phase::Compare,
            ..s
        }),
        sends(s, cycle_events(s.on, first, settled, outcome)) == seq![settled],
{
    let ev = cycle_events(s.on, first, settled, outcome);
    let tail = seq![SenderEvent::OutputApplied, SenderEvent::SendFinished(outcome)];
    let s3 = Sender { on: settled, phase: Phase::Reflect, ..s };
    let s4 = Sender { phase: Phase::Sending, ..s3 };
    let s5 = Sender { phase: Phase::Compare, ..s3 };
    let last = seq![SenderEvent::SendFinished(outcome)];
    assert(tail.drop_first() =~= last);
    assert(last.drop_first() =~= Seq::<SenderEvent>::empty());
    assert(run(s5, Seq::<SenderEvent>::empty()) == s5);
    assert(sends(s5, Seq::<SenderEvent>::empty()) == Seq::<bool>::empty());
    assert(run(s4, last) == s5);
    assert(run(s3, tail) == s5);
    assert(sends(s4, last) =~= Seq::<bool>::empty());
    assert(sends(s3, tail) =~= seq![settled]);
    let from_debounce = seq![SenderEvent::Sampled(settled)] + tail;
    let d = Sender { phase: Phase::Debounce, ..s };
    assert(from_debounce.drop_first() =~= tail);
    assert(run(d, from_debounce) == s5);
    assert(sends(d, from_debounce) =~= seq![settled]);
    if first == s.on {
        let w = Sender { phase: Phase::AwaitEdge, ..s };
        let from_wait = seq![SenderEvent::Edge] + from_debounce;
        assert(from_wait.drop_first() =~= from_debounce);
        assert(run(w, from_wait) == s5);
        assert(sends(w, from_wait) =~= seq![settled]);
        assert(ev =~= seq![SenderEvent::Sampled(first)] + from_wait);
        assert(ev.drop_first() =~= from_wait);
        assert(sends(s, ev) =~= seq![settled]);
    } else {
        assert(ev =~= seq![SenderEvent::Sampled(first)] + from_debounce);
        assert(ev.drop_first() =~= from_debounce);
        assert(sends(s, ev) =~= seq![settled]);
    }
}

/// Over any sequence of send cycles, exactly one datagram is sent per cycle,
/// carrying the level read after that cycle's debounce delay, and the sender
/// is back at the compare phase.
pub proof fn lemma_one_send_per_settled_level(s: Sender, cycles: Seq<(bool, bool, SendOutcome)>)
    requires
        s.phase == Phase::Compare,
    ensures
        sends(s, cycles_events(s.on, cycles)) == settled_levels(cycles),
        run(s, cycles_events(s.on, cycles)).phase == Phase::Compare,
    decreases cycles.len(),
{
    if cycles.len() == 0 {
        assert(settled_levels(cycles) =~= Seq::<bool>::empty());
    } else {
        let c = cycles[0];
        let first = cycle_events(s.on, c.0, c.1, c.2);
        let t = Sender { on: c.1, phase: Phase::Compare, ..s };
        let rest = cycles.drop_first();
        lemma_cycle(s, c.0, c.1, c.2);
        lemma_run_append(s, first, cycles_events(c.1, rest));
        lemma_one_send_per_settled_level(t, rest);
        assert(settled_levels(cycles) =~= seq![c.1] + settled_levels(rest));
    }
}

/// Levels seen before the debounce delay ends are never sent: two sequences of
/// cycles with the same settled levels send the same datagrams, whatever the
/// input read first and however the sends ended.
pub proof fn lemma_transients_coalesced(
    s: Sender,
    a: Seq<(bool, bool, SendOutcome)>,
    b: Seq<(bool, bool, SendOutcome)>,
)
    requires
        s.phase == Phase::Compare,
        settled_levels(a) == settled_levels(b),
    ensures
        sends(s, cycles_events(s.on, a)) == sends(s, cycles_events(s.on, b)),
{
    lemma_one_send_per_settled_level(s, a);
    lemma_one_send_per_settled_level(s, b);
}

/// The input level at time `t`, for an input at `init` that switches to
/// `edges[i].1` at time `edges[i].0`.
pub open spec fn level_at(init: bool, edges: Seq<(nat, bool)>, t: nat) -> bool
    decreases edges.len(),
{
    if edges.len() == 0 || t < edges[0].0 {
        init
    } else {
        level_at(edges[0].1, edges.drop_first(), t)
    }
}

/// Each edge comes more than `gap` after every earlier one.
pub open spec fn spaced(edges: Seq<(nat, bool)>, gap: nat) -> bool {
    forall|i: int, j: int| 0 <= i < j < edges.len() ==> edges[i].0 + gap < edges[j].0
}

/// The send cycles that a sender waiting on an input at `init` goes through
/// when the input reads as at time 0, then wakes at each edge, samples
/// `debounce` later, spends `took[i]` on the send and reads the input again.
pub open spec fn timed_cycles(
    init: bool,
    edges: Seq<(nat, bool)>,
    debounce: nat,
    took: Seq<nat>,
    outcomes: Seq<SendOutcome>,
) -> Seq<(bool, bool, SendOutcome)> {
    Seq::new(
        edges.len(),
        |i: int|
            (
                if i == 0 {
                    level_at(init, edges, 0)
                } else {
                    level_at(init, edges, edges[i - 1].0 + debounce + took[i - 1])
                },
                level_at(init, edges, edges[i].0 + debounce),
                outcomes[i],
            ),
    )
}

proof fn lemma_level_between(init: bool, edges: Seq<(nat, bool)>, i: int, t: nat)
    requires
        spaced(edges, 0),
        0 <= i < edges.len(),
        edges[i].0 <= t,
        i + 1 < edges.len() ==> t < edges[i + 1].0,
    ensures
        level_at(init, edges, t) == edges[i].1,
    decreases i,
{
    let rest = edges.drop_first();
    if i > 0 {
        assert(edges[0].0 + 0 < edges[i].0);
    }
    assert(level_at(init, edges, t) == level_at(edges[0].1, rest, t));
    if i == 0 {
        if rest.len() > 0 {
            assert(rest[0] == edges[1]);
        }
        assert(level_at(edges[0].1, rest, t) == edges[0].1);
    } else {
        assert(spaced(rest, 0)) by {
            assert forall|a: int, b: int| 0 <= a < b < rest.len() implies rest[a].0 + 0
                < rest[b].0 by {
                assert(rest[a] == edges[a + 1] && rest[b] == edges[b + 1]);
            }
        }
        assert(rest[i - 1] == edges[i]);
        if i < rest.len() {
            assert(rest[i] == edges[i + 1]);
        }
        lemma_level_between(edges[0].1, rest, i - 1, t);
    }
}

/// Edges spaced by more than the debounce delay plus the send timeout are each
/// sent exactly once, in order, with the level the edge switched to: every
/// cycle starts by waiting for its edge, and the sample after the delay reads
/// that edge's level.
pub proof fn lemma_spaced_edges_each_sent_once(
    s: Sender,
    edges: Seq<(nat, bool)>,
    took: Seq<nat>,
    outcomes: Seq<SendOutcome>,
)
    requires
        s.phase == Phase::Compare,
        edges.len() > 0 ==> edges[0].0 > 0,
        spaced(edges, (s.debounce_ms + s.timeout_ms) as nat),
        took.len() == edges.len(),
        outcomes.len() == edges.len(),
        forall|i: int| 0 <= i < took.len() ==> took[i] <= s.timeout_ms,
    ensures
        ({
            let cycles = timed_cycles(s.on, edges, s.debounce_ms as nat, took, outcomes);
            &&& forall|i: int|
                0 <= i < cycles.len() ==> cycles[i].0 == (if i == 0 {
                    s.on
                } else {
                    edges[i - 1].1
                })
            &&& sends(s, cycles_events(s.on, cycles)) == edges.map_values(
                |e: (nat, bool)| e.1,
            )
        }),
{
    let d = s.debounce_ms as nat;
    let cycles = timed_cycles(s.on, edges, d, took, outcomes);
    assert(spaced(edges, 0));
    assert forall|i: int| 0 <= i < cycles.len() implies cycles[i].0 == (if i == 0 {
        s.on
    } else {
        edges[i - 1].1
    }) && cycles[i].1 == edges[i].1 by {
        if i == 0 {
        } else {
            lemma_level_between(s.on, edges, i - 1, edges[i - 1].0 + d + took[i - 1]);
        }
        lemma_level_between(s.on, edges, i, edges[i].0 + d);
    }
    lemma_one_send_per_settled_level(s, cycles);
    assert(settled_levels(cycles) =~= edges.map_values(|e: (nat, bool)| e.1));
}

/// Edges that all come within one debounce delay of the first are coalesced:
/// a sender waiting on the input sends once, the level after the last edge.
pub proof fn lemma_burst_sends_final_level(
    s: Sender,
    edges: Seq<(nat, bool)>,
    outcome: SendOutcome,
)
    requires
        s.phase == Phase::Compare,
        edges.len() > 0,
        edges[0].0 > 0,
        spaced(edges, 0),
        edges.last().0 <= edges[0].0 + s.debounce_ms,
    ensures
        sends(
            s,
            cycles_events(
                s.on,
                seq![(s.on, level_at(s.on, edges, edges[0].0 + s.debounce_ms as nat), outcome)],
            ),
        ) == seq![edges.last().1],
{
    let c = (s.on, level_at(s.on, edges, edges[0].0 + s.debounce_ms as nat), outcome);
    lemma_level_between(s.on, edges, edges.len() - 1, edges[0].0 + s.debounce_ms as nat);
    lemma_one_send_per_settled_level(s, seq![c]);
    assert(settled_levels(seq![c]) =~= seq![edges.last().1]);
}

/// A send is issued only right after the output was written to the same level.
pub proof fn lemma_output_before_send(s: Sender, e: SenderEvent)
    requires
        s.phase != Phase::Sending,
        next(s, e).phase == Phase::Sending,
    ensures
        s.phase == Phase::Reflect,
        e == SenderEvent::OutputApplied,
        pending(s) == SenderAction::SetOutput(next(s, e).on),
{
}

/// Every send is raced against the configured timeout, and however it ends
/// (including by the timeout) the sender moves straight on: it reads the input
/// again, and a changed level is sampled after one debounce delay.
pub proof fn lemma_send_never_stalls(s: Sender, outcome: SendOutcome, asserted: bool)
    requires
        s.phase == Phase::Sending,
    ensures
        pending(s) == (SenderAction::Send { on: s.on, timeout_ms: s.timeout_ms }),
        next(s, SenderEvent::SendFinished(outcome)) == (Sender { phase: Phase::Compare, ..s }),
        pending(next(s, SenderEvent::SendFinished(outcome))) == SenderAction::ReadLevel,
        asserted != s.on ==> pending(
            next(next(s, SenderEvent::SendFinished(outcome)), SenderEvent::Sampled(asserted)),
        ) == SenderAction::SampleAfter(s.debounce_ms),
        asserted == s.on ==> pending(
            next(next(s, SenderEvent::SendFinished(outcome)), SenderEvent::Sampled(asserted)),
        ) == SenderAction::WaitForEdge,
{
}

impl Sender {
    /// A sender whose last level is "off", about to read the input.
    pub fn new(debounce_ms: u64, timeout_ms: u64) -> (r: Sender)
        ensures
            r == (Sender { on: false, phase: Phase::Compare, debounce_ms, timeout_ms }),
    {
        Sender { on: false, phase: Phase::Compare, debounce_ms, timeout_ms }
    }

    /// The action this sender waits on.
    pub fn action(&self) -> (r: SenderAction)
        ensures
            r == pending(*self),
    {
        match self.phase {
            Phase::Compare => SenderAction::ReadLevel,
            Phase::AwaitEdge => SenderAction::WaitForEdge,
            Phase::Debounce => SenderAction::SampleAfter(self.debounce_ms),
            Phase::Reflect => SenderAction::SetOutput(self.on),
            Phase::Sending => SenderAction::Send { on: self.on, timeout_ms: self.timeout_ms },
        }
    }

    /// Takes in an event and returns the next action.
    pub fn step(&mut self, e: SenderEvent) -> (r: SenderAction)
        ensures
            *final(self) == next(*old(self), e),
            r == pending(*final(self)),
    {
        match self.phase {
            Phase::Compare => {
                if let SenderEvent::Sampled(asserted) = e {
                    if asserted == self.on {
                        self.phase = Phase::AwaitEdge;
                    } else {
                        self.phase = Phase::Debounce;
                    }
                }
            },
            Phase::AwaitEdge => {
                if let SenderEvent::Edge = e {
                    self.phase = Phase::Debounce;
                }
            },
            Phase::Debounce => {
                if let SenderEvent::Sampled(asserted) = e {
                    self.on = asserted;
                    self.phase = Phase::Reflect;
                }
            },
            Phase::Reflect => {
                if let SenderEvent::OutputApplied = e {
                    self.phase = Phase::Sending;
                }
            },
            Phase::Sending => {
                if let SenderEvent::SendFinished(_) = e {
                    self.phase = Phase::Compare;
                }
            },
        }
        self.action()
    }
}

} // verus!
