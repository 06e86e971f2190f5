//! The proposal lifecycle: states, the ordering they advance along, and the
//! transition relation every engine operation respects.

use vstd::prelude::*;

verus! {

/// Lifecycle state of a proposal.
#[derive(Clone, Copy, Debug, PartialEq, Eq, Structural)]
pub enum ProposalState {
    /// Being assembled: options, transactions and signatories may change.
    Draft,
    /// All signatories signed off; waiting for voting to open.
    SigningOff,
    /// The voting window is open.
    Voting,
    /// Voting decided in favour; transactions may be executed after hold-up.
    Succeeded,
    /// Voting decided against. Terminal.
    Defeated,
    /// Withdrawn by its owner before completion. Terminal.
    Cancelled,
    /// Overridden by the council during voting. Terminal.
    Vetoed,
    /// At least one attached transaction has been executed.
    Executing,
    /// Every transaction of every winning option was executed. Terminal.
    Completed,
    /// An attached transaction failed; recorded, never retried implicitly. Terminal.
    ExecutingWithErrors,
}

/// Position of a state in the lifecycle ordering
/// Draft < SigningOff < Voting < decided < Executing < finished.
/// All four decided states (Succeeded, Defeated, Cancelled, Vetoed) share one
/// rank, as do the two finished states.
pub open spec fn state_rank(s: ProposalState) -> int {
    match s {
        ProposalState::Draft => 0,
        ProposalState::SigningOff => 1,
        ProposalState::Voting => 2,
        ProposalState::Succeeded => 3,
        ProposalState::Defeated => 3,
        ProposalState::Cancelled => 3,
        ProposalState::Vetoed => 3,
        ProposalState::Executing => 4,
        ProposalState::Completed => 5,
        ProposalState::ExecutingWithErrors => 5,
    }
}

/// States from which no operation may move the proposal.
pub open spec fn spec_is_terminal(s: ProposalState) -> bool {
    match s {
        ProposalState::Defeated => true,
        ProposalState::Cancelled => true,
        ProposalState::Vetoed => true,
        ProposalState::Completed => true,
        ProposalState::ExecutingWithErrors => true,
        _ => false,
    }
}

/// Exactly the state changes some engine operation may perform.
pub open spec fn transition_allowed(from: ProposalState, to: ProposalState) -> bool {
    ||| (from == ProposalState::Draft && to == ProposalState::SigningOff)
    ||| (from == ProposalState::SigningOff && to == ProposalState::Voting)
    ||| (from == ProposalState::Voting && (to == ProposalState::Succeeded
            || to == ProposalState::Defeated || to == ProposalState::Vetoed))
    ||| ((from == ProposalState::Draft || from == ProposalState::SigningOff
            || from == ProposalState::Voting) && to == ProposalState::Cancelled)
    ||| (from == ProposalState::Succeeded && (to == ProposalState::Executing
            || to == ProposalState::Completed || to == ProposalState::ExecutingWithErrors))
    ||| (from == ProposalState::Executing && (to == ProposalState::Completed
            || to == ProposalState::ExecutingWithErrors))
}

/// A proposal's observed state sequence is monotonic: every allowed transition
/// strictly increases the lifecycle rank, so no sequence of valid operations
/// can move a proposal backward in the ordering.
pub proof fn lemma_transitions_monotonic(from: ProposalState, to: ProposalState)
    requires
        transition_allowed(from, to),
    ensures
        state_rank(from) < state_rank(to),
{
}

/// Terminal states are final: no transition leaves them.
pub proof fn lemma_terminal_states_are_final(from: ProposalState, to: ProposalState)
    requires
        spec_is_terminal(from),
    ensures
        !transition_allowed(from, to),
{
}

/// Runtime check for a terminal state, equal to `spec_is_terminal`.
pub fn is_terminal(s: ProposalState) -> (r: bool)
    ensures
        r == spec_is_terminal(s),
{
    match s {
        ProposalState::Defeated => true,
        ProposalState::Cancelled => true,
        ProposalState::Vetoed => true,
        ProposalState::Completed => true,
        ProposalState::ExecutingWithErrors => true,
        _ => false,
    }
}

} // verus!
