//! The cancellation state that an interrupt sets and the handlers observe.

use vstd::prelude::*;

verus! {

/// Whether an abort has been requested. The state starts idle, is set by
/// the first interrupt and never goes back.
#[derive(Clone, Copy, Debug, PartialEq, Eq, Structural)]
pub enum CancellationState {
    Idle,
    Requested,
}

impl CancellationState {
    /// The state in which every invocation starts.
    pub fn new() -> (state: Self)
        ensures
            state == CancellationState::Idle,
    {
        CancellationState::Idle
    }

    pub open spec fn is_requested_spec(self) -> bool {
        self == CancellationState::Requested
    }

    /// Whether an abort has been requested.
    #[verifier::when_used_as_spec(is_requested_spec)]
    pub fn is_requested(self) -> (requested: bool)
        ensures
            requested == self.is_requested_spec(),
    {
        match self {
            CancellationState::Requested => true,
            CancellationState::Idle => false,
        }
    }

    /// The state after an interrupt.
    pub open spec fn interrupted(self) -> CancellationState {
        CancellationState::Requested
    }

    /// Records an interrupt. Afterwards an abort is requested, whatever the
    /// state was; the result says whether this interrupt was the one that
    /// requested it.
    pub fn interrupt(&mut self) -> (first: bool)
        ensures
            *final(self) == old(self).interrupted(),
            first == (*old(self) == CancellationState::Idle),
    {
        let first = match self {
            CancellationState::Idle => true,
            CancellationState::Requested => false,
        };
        *self = CancellationState::Requested;
        first
    }
}

/// The state after `count` interrupts.
pub open spec fn after_interrupts(state: CancellationState, count: nat) -> CancellationState
    decreases count,
{
    if count == 0 {
        state
    } else {
        after_interrupts(state, (count - 1) as nat).interrupted()
    }
}

/// Cancellation is requested by the first interrupt: after one or more
/// interrupts the state is `Requested`, whatever it was.
pub proof fn lemma_first_interrupt_requests(state: CancellationState, count: nat)
    requires
        count > 0,
    ensures
        after_interrupts(state, count) == CancellationState::Requested,
{
}

/// Cancellation is monotonic: once requested it stays requested, however
/// many interrupts follow.
pub proof fn lemma_cancellation_is_monotonic(state: CancellationState, count: nat, more: nat)
    requires
        after_interrupts(state, count).is_requested_spec(),
    ensures
        after_interrupts(state, count + more).is_requested_spec(),
{
    if count + more > 0 {
        lemma_first_interrupt_requests(state, count + more);
    }
}

} // verus!
