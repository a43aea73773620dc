//! The race across devices: the per-attempt stage machine, and the overall
//! decision resolved from whichever attempts complete before the global
//! deadline.

use vstd::prelude::*;

use crate::protocol::Resolution;

verus! {

/// The stages of one attempt, from dispatch to its terminal resolution.
#[derive(Clone, Copy, Debug, PartialEq, Eq, Structural)]
pub enum Stage {
    Dispatched,
    Connecting,
    Sending,
    AwaitingResponse,
    Decrypting,
    Resolved(Resolution),
}

/// What the outside work of one attempt reports back to the stage machine.
#[derive(Clone, Copy, Debug, PartialEq, Eq, Structural)]
pub enum AttemptEvent {
    /// The attempt begins connecting.
    Start,
    /// The connection is established.
    Connected,
    /// The envelope was written in full.
    Sent,
    /// A response frame arrived.
    Received,
    /// The response was decrypted and parsed to this resolution.
    Outcome(Resolution),
    /// A soft failure at the current stage: unreachable device, malformed
    /// key, transmission or reception failure.
    SoftFailure,
}

/// The stage transition table. A resolved attempt never moves again; a soft
/// failure resolves the attempt as `Failed` from any unresolved stage; an
/// event out of order leaves the stage unchanged.
pub open spec fn spec_advance(s: Stage, e: AttemptEvent) -> Stage {
    match s {
        Stage::Resolved(r) => Stage::Resolved(r),
        _ => match (s, e) {
            (Stage::Dispatched, AttemptEvent::Start) => Stage::Connecting,
            (Stage::Connecting, AttemptEvent::Connected) => Stage::Sending,
            (Stage::Sending, AttemptEvent::Sent) => Stage::AwaitingResponse,
            (Stage::AwaitingResponse, AttemptEvent::Received) => Stage::Decrypting,
            (Stage::Decrypting, AttemptEvent::Outcome(r)) => Stage::Resolved(r),
            (_, AttemptEvent::SoftFailure) => Stage::Resolved(Resolution::Failed),
            (s2, _) => s2,
        },
    }
}

/// Advances one attempt's stage by one event.
pub fn advance(s: &Stage, e: &AttemptEvent) -> (t: Stage)
    ensures
        t == spec_advance(*s, *e),
{
    match s {
        Stage::Resolved(r) => Stage::Resolved(*r),
        _ => match (s, e) {
            (Stage::Dispatched, AttemptEvent::Start) => Stage::Connecting,
            (Stage::Connecting, AttemptEvent::Connected) => Stage::Sending,
            (Stage::Sending, AttemptEvent::Sent) => Stage::AwaitingResponse,
            (Stage::AwaitingResponse, AttemptEvent::Received) => Stage::Decrypting,
            (Stage::Decrypting, AttemptEvent::Outcome(r)) => Stage::Resolved(*r),
            (_, AttemptEvent::SoftFailure) => Stage::Resolved(Resolution::Failed),
            (s2, _) => *s2,
        },
    }
}

/// Resolution is terminal: no further event moves a resolved attempt.
pub proof fn lemma_resolved_terminal(r: Resolution, e: AttemptEvent)
    ensures
        spec_advance(Stage::Resolved(r), e) == Stage::Resolved(r),
{
}

/// A soft failure at any unresolved stage resolves that one attempt as
/// `Failed`; it touches no other attempt's stage, which is a value of its
/// own.
pub proof fn lemma_soft_failure_resolves(s: Stage)
    requires
        !(s is Resolved),
    ensures
        spec_advance(s, AttemptEvent::SoftFailure) == Stage::Resolved(Resolution::Failed),
{
}

/// Whether some resolution in the sequence is `Accepted`.
pub open spec fn any_accepted(s: Seq<Resolution>) -> bool {
    exists|i: int| 0 <= i < s.len() && s[i] is Accepted
}

proof fn lemma_any_accepted_contains(s: Seq<Resolution>)
    ensures
        any_accepted(s) == s.contains(Resolution::Accepted),
{
    if any_accepted(s) {
        let i = choose|i: int| 0 <= i < s.len() && s[i] is Accepted;
        assert(s[i] == Resolution::Accepted);
        assert(s.contains(Resolution::Accepted));
    }
    if s.contains(Resolution::Accepted) {
        let i = choose|i: int| 0 <= i < s.len() && s[i] == Resolution::Accepted;
        assert(0 <= i < s.len() && s[i] is Accepted);
    }
}

/// The overall decision does not depend on the order in which attempts
/// resolve: two resolution sequences with the same multiset of outcomes
/// decide alike.
pub proof fn lemma_decision_order_insensitive(a: Seq<Resolution>, b: Seq<Resolution>)
    requires
        a.to_multiset() == b.to_multiset(),
    ensures
        any_accepted(a) == any_accepted(b),
{
    broadcast use vstd::seq_lib::group_to_multiset_ensures;

    lemma_any_accepted_contains(a);
    lemma_any_accepted_contains(b);
    assert(a.contains(Resolution::Accepted) <==> a.to_multiset().count(Resolution::Accepted) > 0);
    assert(b.contains(Resolution::Accepted) <==> b.to_multiset().count(Resolution::Accepted) > 0);
}

/// The approval flag after feeding the resolutions one at a time, as
/// `RaceState::on_resolution` latches it: false at the start, and from then
/// on the running flag or the newest resolution's acceptance.
pub open spec fn approved_after(s: Seq<Resolution>) -> bool
    decreases s.len(),
{
    if s.len() == 0 {
        false
    } else {
        approved_after(s.drop_last()) || s.last() is Accepted
    }
}

/// Feeding resolutions one at a time latches approval exactly when some
/// resolution was `Accepted`: the incremental decision of the race agrees
/// with the decision over all resolved attempts, in whatever order they
/// arrived.
pub proof fn lemma_approved_after_is_any_accepted(s: Seq<Resolution>)
    ensures
        approved_after(s) == any_accepted(s),
    decreases s.len(),
{
    if s.len() > 0 {
        lemma_approved_after_is_any_accepted(s.drop_last());
        if any_accepted(s.drop_last()) {
            let i = choose|i: int|
                0 <= i < s.drop_last().len() && (#[trigger] s.drop_last()[i]) is Accepted;
            assert(s[i] is Accepted);
        }
        if s.last() is Accepted {
            assert(s[s.len() - 1] is Accepted);
        }
        if any_accepted(s) {
            let i = choose|i: int| 0 <= i < s.len() && (#[trigger] s[i]) is Accepted;
            if i < s.len() - 1 {
                assert(s.drop_last()[i] is Accepted);
            }
        }
    }
}

/// The overall decision over a set of resolved attempts: approved exactly
/// when some attempt resolved `Accepted`.
pub fn decide(outcomes: &Vec<Resolution>) -> (approved: bool)
    ensures
        approved == any_accepted(outcomes@),
{
    let mut i: usize = 0;
    while i < outcomes.len()
        invariant
            i <= outcomes@.len(),
            !any_accepted(outcomes@.take(i as int)),
        decreases outcomes@.len() - i,
    {
        if matches!(outcomes[i], Resolution::Accepted) {
            proof {
                assert(0 <= i < outcomes@.len() && outcomes@[i as int] is Accepted);
            }
            return true;
        }
        proof {
            assert(!any_accepted(outcomes@.take(i as int + 1))) by {
                let t = outcomes@.take(i as int + 1);
                if any_accepted(t) {
                    let j = choose|j: int| 0 <= j < t.len() && (#[trigger] t[j]) is Accepted;
                    if j < i {
                        assert(outcomes@.take(i as int)[j] is Accepted);
                    }
                }
            }
        }
        i = i + 1;
    }
    proof {
        assert(outcomes@.take(outcomes@.len() as int) =~= outcomes@);
    }
    false
}

/// The running state of the race: how many attempts are still outstanding,
/// and whether any attempt has resolved `Accepted` so far.
pub struct RaceState {
    /// Attempts dispatched and not yet resolved.
    pub pending: usize,
    /// Whether some resolved attempt was `Accepted`.
    pub approved: bool,
}

impl RaceState {
    /// Starts a race with one attempt per configured device.
    pub fn new(devices: usize) -> (r: RaceState)
        ensures
            r.pending == devices,
            !r.approved,
    {
        RaceState { pending: devices, approved: false }
    }

    /// Feeds one attempt's resolution into the race. Approval latches: once
    /// an attempt is accepted, later resolutions cannot revoke it.
    pub fn on_resolution(&mut self, r: &Resolution)
        requires
            old(self).pending > 0,
        ensures
            final(self).pending == old(self).pending - 1,
            final(self).approved == (old(self).approved || *r is Accepted),
    {
        self.pending = self.pending - 1;
        if matches!(r, Resolution::Accepted) {
            self.approved = true;
        }
    }

    /// Whether the race is over before the deadline: the instant an attempt
    /// is accepted, or when every attempt has resolved without acceptance.
    pub fn concluded(&self) -> (b: bool)
        ensures
            b == (self.approved || self.pending == 0),
    {
        self.approved || self.pending == 0
    }

    /// The overall decision so far: approved exactly when some resolved
    /// attempt was `Accepted`.
    pub fn is_approved(&self) -> (b: bool)
        ensures
            b == self.approved,
    {
        self.approved
    }
}

} // verus!
