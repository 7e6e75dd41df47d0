//! The association loop: join attempts repeated without bound until one succeeds.
use vstd::prelude::*;

verus! {

/// How one attempt to join the wireless network ended.
#[derive(Clone, Copy, Debug, PartialEq, Eq, Structural)]
pub enum JoinOutcome {
    Joined,
    NetworkNotFound,
    /// Joining failed with the coprocessor's status code.
    Failed(u8),
    AuthenticationFailed,
}

/// What the association loop asks for next.
#[derive(Clone, Copy, Debug, PartialEq, Eq, Structural)]
pub enum JoinAction {
    /// Attempt to join again, at once.
    Attempt,
    /// The network is joined: move on.
    Done,
}

/// The association loop: retries until a join succeeds, never giving up.
#[derive(Clone, Copy, Debug, PartialEq, Eq, Structural)]
pub struct Association {
    pub joined: bool,
    /// Failed attempts so far, saturating at the largest `u64`.
    pub failures: u64,
    /// The outcome of the latest failed attempt.
    pub last_failure: Option<JoinOutcome>,
}

/// The association state after one attempt; once joined it stays so.
pub open spec fn after_attempt(s: Association, o: JoinOutcome) -> Association {
    if s.joined {
        s
    } else if o == JoinOutcome::Joined {
        Association { joined: true, ..s }
    } else {
        Association {
            failures: if s.failures < u64::MAX { (s.failures + 1) as u64 } else { s.failures },
            last_failure: Some(o),
            ..s
        }
    }
}

/// The state after a sequence of attempts, in order.
pub open spec fn after_attempts(s: Association, outcomes: Seq<JoinOutcome>) -> Association
    decreases outcomes.len(),
{
    if outcomes.len() == 0 {
        s
    } else {
        after_attempt(after_attempts(s, outcomes.drop_last()), outcomes.last())
    }
}

/// The action for a state.
pub open spec fn join_action(s: Association) -> JoinAction {
    if s.joined {
        JoinAction::Done
    } else {
        JoinAction::Attempt
    }
}

impl Association {
    /// No attempt made yet.
    pub fn new() -> (r: Association)
        ensures
            r == (Association { joined: false, failures: 0, last_failure: None }),
    {
        Association { joined: false, failures: 0, last_failure: None }
    }

    /// The action due now.
    pub fn action(&self) -> (r: JoinAction)
        ensures
            r == join_action(*self),
    {
        if self.joined {
            JoinAction::Done
        } else {
            JoinAction::Attempt
        }
    }

    /// Records the outcome of an attempt and returns the action due next.
    pub fn record(&mut self, o: JoinOutcome) -> (r: JoinAction)
        ensures
            *final(self) == after_attempt(*old(self), o),
            r == join_action(*final(self)),
    {
        if !self.joined {
            if o == JoinOutcome::Joined {
                self.joined = true;
            } else {
                self.failures = self.failures.saturating_add(1);
                self.last_failure = Some(o);
            }
        }
        self.action()
    }
}

proof fn lemma_unjoined_before(s: Association, outcomes: Seq<JoinOutcome>, k: int)
    requires
        !s.joined,
        0 <= k <= outcomes.len(),
        forall|j: int| 0 <= j < k ==> outcomes[j] != JoinOutcome::Joined,
    ensures
        !after_attempts(s, outcomes.take(k)).joined,
    decreases k,
{
    if k > 0 {
        assert(outcomes.take(k).drop_last() =~= outcomes.take(k - 1));
        lemma_unjoined_before(s, outcomes, k - 1);
    }
}

/// Once an attempt succeeds the loop ends: with the first success at attempt
/// `k`, no earlier prefix of attempts is joined, the first `k + 1` attempts
/// are, and the loop then asks for nothing more.
pub proof fn lemma_joins_at_first_success(s: Association, outcomes: Seq<JoinOutcome>, k: int)
    requires
        !s.joined,
        0 <= k < outcomes.len(),
        outcomes[k] == JoinOutcome::Joined,
        forall|j: int| 0 <= j < k ==> outcomes[j] != JoinOutcome::Joined,
    ensures
        forall|j: int| 0 <= j <= k ==> !(#[trigger] after_attempts(s, outcomes.take(j))).joined,
        after_attempts(s, outcomes.take(k + 1)).joined,
        join_action(after_attempts(s, outcomes.take(k + 1))) == JoinAction::Done,
{
    assert forall|j: int| 0 <= j <= k implies !(#[trigger] after_attempts(
        s,
        outcomes.take(j),
    )).joined by {
        lemma_unjoined_before(s, outcomes, j);
    }
    assert(outcomes.take(k + 1).drop_last() =~= outcomes.take(k));
}

/// While every attempt fails the loop keeps asking for another attempt.
pub proof fn lemma_retries_while_failing(s: Association, outcomes: Seq<JoinOutcome>)
    requires
        !s.joined,
        forall|j: int| 0 <= j < outcomes.len() ==> outcomes[j] != JoinOutcome::Joined,
    ensures
        !after_attempts(s, outcomes).joined,
        join_action(after_attempts(s, outcomes)) == JoinAction::Attempt,
{
    lemma_unjoined_before(s, outcomes, outcomes.len() as int);
    assert(outcomes.take(outcomes.len() as int) =~= outcomes);
}

} // verus!
