//! The adaptive spin-then-block waiting policy.
//!
//! Whichever role currently waits busy-polls the state tag with growing
//! backoff.  Once the bounded spin budget is spent the role attempts exactly
//! one escalation: a compare-and-swap from its Spin tag to the paired Yield
//! tag, after which it sleeps on the condition variable.  Losing that swap
//! means the wait is already over, and a role that escalated but then sees
//! the tag moved proceeds without ever blocking — escalation is reversible.
//! In spin-only mode the role never escalates and busy-waits indefinitely.

use vstd::prelude::*;

use crate::state::CabinState;
use crate::state::protocol_next;

verus! {

/// One wait episode's policy state.  A fresh `Waiter` is made each time a
/// role starts waiting; the caller does the actual pausing (backoff, yielding
/// to the scheduler) between polls.
#[derive(Debug, Clone, Copy, PartialEq, Eq, Structural)]
pub struct Waiter {
    /// Never escalate: trade CPU for minimum latency.
    pub spin_only: bool,
    /// Polls made so far in this episode.
    pub spins: u32,
    /// The spin budget: polls before the policy reports saturation.
    pub limit: u32,
}

/// What a waiting role must do after one more look at the state tag.
#[derive(Debug, Clone, Copy, PartialEq, Eq, Structural)]
pub enum WaitVerdict {
    /// Still waiting, budget left: back off and poll again.
    SpinAgain,
    /// Still waiting, budget spent: attempt the one escalating
    /// compare-and-swap from the Spin tag to its Yield tag.  If it loses,
    /// the wait is already over.
    Escalate,
    /// The tag moved: the wait is over, continue the dispatch.
    Proceed,
}

/// The Yield tag paired with each Spin tag.
pub open spec fn yield_tag_spec(spin_tag: CabinState) -> CabinState {
    match spin_tag {
        CabinState::AcceptingSpin => CabinState::AcceptingYield,
        CabinState::WaitReqSpin => CabinState::WaitReqYield,
        CabinState::WaitRespSpin => CabinState::WaitRespYield,
        s => s,
    }
}

/// The Yield tag a saturated wait on `spin_tag` escalates to.
pub fn yield_tag(spin_tag: CabinState) -> (y: CabinState)
    ensures
        y == yield_tag_spec(spin_tag),
{
    match spin_tag {
        CabinState::AcceptingSpin => CabinState::AcceptingYield,
        CabinState::WaitReqSpin => CabinState::WaitReqYield,
        CabinState::WaitRespSpin => CabinState::WaitRespYield,
        s => s,
    }
}

/// Escalation only ever moves along the protocol cycle: each Spin tag swaps
/// to its own paired Yield tag.
pub proof fn lemma_escalation_follows_cycle(spin_tag: CabinState)
    requires
        spin_tag is AcceptingSpin || spin_tag is WaitReqSpin || spin_tag is WaitRespSpin,
    ensures
        protocol_next(spin_tag, yield_tag_spec(spin_tag)),
{
}

impl Waiter {
    /// A fresh episode with the given spin budget.
    pub fn new(spin_only: bool, limit: u32) -> (w: Waiter)
        ensures
            w == (Waiter { spin_only, spins: 0, limit }),
    {
        Waiter { spin_only, spins: 0, limit }
    }

    /// One poll of the wait loop, given the tag just observed and the Spin
    /// tag being waited on.  The verdict is `Proceed` as soon as the tag has
    /// moved — whether or not this role escalated beforehand, so a reversed
    /// escalation never blocks — and otherwise spins within the budget,
    /// escalating exactly once when saturation is reached, never in
    /// spin-only mode.
    pub fn poll(&mut self, observed: CabinState, spin_tag: CabinState) -> (v: WaitVerdict)
        ensures
            observed != spin_tag ==> v is Proceed && *final(self) == *old(self),
            observed == spin_tag && (old(self).spin_only || old(self).spins < old(self).limit)
                ==> v is SpinAgain
                    && *final(self) == (Waiter {
                        spins: if old(self).spins < u32::MAX {
                            (old(self).spins + 1) as u32
                        } else {
                            old(self).spins
                        },
                        ..*old(self)
                    }),
            observed == spin_tag && !old(self).spin_only && old(self).spins >= old(self).limit
                ==> v is Escalate && *final(self) == *old(self),
    {
        if observed != spin_tag {
            WaitVerdict::Proceed
        } else if self.spin_only || self.spins < self.limit {
            if self.spins < u32::MAX {
                self.spins = self.spins + 1;
            }
            WaitVerdict::SpinAgain
        } else {
            WaitVerdict::Escalate
        }
    }
}

/// Whether a role that escalated must (still) sleep: only while the tag
/// remains the Yield tag it swapped in.  Checked under the lock before every
/// wait on the condition variable, so a role that escalated but observes the
/// state already moved proceeds without blocking, and a wakeup between
/// checks is never lost.
pub fn should_wait(observed: CabinState, yield_tag: CabinState) -> (r: bool)
    ensures
        r <==> observed == yield_tag,
{
    observed == yield_tag
}

} // verus!
