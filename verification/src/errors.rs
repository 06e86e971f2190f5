//! Error taxonomy: every rejected operation surfaces a specific kind to the
//! caller, and the operation's state changes are rolled into nothing — each
//! engine function guarantees the realm is unchanged whenever it errs.

use vstd::prelude::*;

verus! {

/// The reasons an instruction can be rejected.
///
/// Authorization errors: `NotAuthorized`, `AccountMismatch`,
/// `InvalidAttestation`, `InvalidGrant`.
/// State errors: `InvalidProposalState`, `VotingTimeNotOver`, `CoolOffNotOver`,
/// `VotingExpired`, `VoteAlreadyExists`, `VoteAlreadyRelinquished`,
/// `TransactionAlreadyExecuted`, `HoldUpTimeNotElapsed`, `OptionNotSucceeded`,
/// `TransactionsStillPending`, `DepositAlreadyRefunded`, `OutstandingVotes`,
/// `OutstandingProposals`.
/// Data errors: `InvalidAccountIndex`, `InvalidOptionIndex`,
/// `InvalidTransactionIndex`, `DuplicateSignatory`, `SignatoryNotFound`,
/// `InvalidOptions`, `InvalidConfig`.
/// Resource errors: `InsufficientVotingWeight`, `InsufficientDeposit`,
/// `VoteWeightExceedsSnapshot`, `ArithmeticOverflow`.
#[derive(Clone, Copy, Debug, PartialEq, Eq, Structural)]
pub enum GovernanceError {
    /// The supplied authority is not a recognized signer for the account.
    NotAuthorized,
    /// A supplied account does not match the entity expected for its role.
    AccountMismatch,
    /// A voter-weight attestation is bound to another owner or proposal, or is stale.
    InvalidAttestation,
    /// An execution grant does not name the governance being mutated.
    InvalidGrant,
    /// The operation is not allowed in the proposal's current state.
    InvalidProposalState,
    /// Finalize was attempted before the voting window elapsed.
    VotingTimeNotOver,
    /// A vote was cast during the post-sign-off cool-off period.
    CoolOffNotOver,
    /// A vote was cast after the voting window closed.
    VotingExpired,
    /// The voter already holds a vote record for this proposal.
    VoteAlreadyExists,
    /// The vote record was already relinquished.
    VoteAlreadyRelinquished,
    /// The transaction was already executed.
    TransactionAlreadyExecuted,
    /// The transaction's hold-up time has not elapsed yet.
    HoldUpTimeNotElapsed,
    /// The transaction's option did not succeed.
    OptionNotSucceeded,
    /// The proposal still has unexecuted transactions on succeeded options.
    TransactionsStillPending,
    /// The proposal's creation deposit was already refunded.
    DepositAlreadyRefunded,
    /// The owner still has unrelinquished votes.
    OutstandingVotes,
    /// The owner still has outstanding proposals.
    OutstandingProposals,
    /// A token owner record for this owner already exists.
    OwnerRecordAlreadyExists,
    /// An account index is out of range.
    InvalidAccountIndex,
    /// An option index is out of range.
    InvalidOptionIndex,
    /// A transaction index is out of range or not the next insertion slot.
    InvalidTransactionIndex,
    /// The signatory was already added to the proposal.
    DuplicateSignatory,
    /// No signatory record exists for the given signatory.
    SignatoryNotFound,
    /// The signatory has already signed off.
    AlreadySignedOff,
    /// The option list does not fit the proposal's vote type.
    InvalidOptions,
    /// A governance config fails validation.
    InvalidConfig,
    /// The owner's voting weight does not meet the required minimum.
    InsufficientVotingWeight,
    /// The owner's deposit is smaller than the amount being removed.
    InsufficientDeposit,
    /// Accepting the vote would push cast weight beyond the voting-start snapshot.
    VoteWeightExceedsSnapshot,
    /// A counter or balance would overflow its machine width.
    ArithmeticOverflow,
}

} // verus!
