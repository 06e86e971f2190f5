//! Proposals and what they own: options, attached transactions, signatory
//! records, the running tallies and the voting-window timestamps.

use vstd::prelude::*;
use crate::state::ProposalState;

verus! {

/// Whether a ballot selects exactly one option or any subset.
#[derive(Clone, Copy, Debug, PartialEq, Eq, Structural)]
pub enum VoteKind {
    /// Exactly one option; the proposal carries exactly one option.
    SingleChoice,
    /// Each option is evaluated independently against the threshold.
    MultiChoice,
}

/// Outcome recorded per option when the proposal is decided.
#[derive(Clone, Copy, Debug, PartialEq, Eq, Structural)]
pub enum OptionVoteResult {
    /// Voting has not been decided yet.
    Pending,
    /// The option passed the threshold (and outweighed deny, if present).
    Succeeded,
    /// The option failed the threshold or the deny comparison.
    Defeated,
}

/// One atomic instruction bundle attached to an option, executed at most once
/// and only after its hold-up time has elapsed.
#[derive(Clone, Debug, PartialEq, Eq)]
pub struct ProposalTransaction {
    /// Delay after `voting_completed_at` before the transaction is eligible.
    pub hold_up_time: u64,
    /// Whether the bundle has been executed; never cleared.
    pub executed: bool,
    /// Set by an explicit flag action when an execution attempt failed externally.
    pub error_flagged: bool,
    /// The opaque instruction bytes handed back to the caller at execution.
    pub payload: Vec<u8>,
}

/// One selectable outcome of a proposal.
#[derive(Clone, Debug, PartialEq, Eq)]
pub struct ProposalOption {
    /// Display label.
    pub label: String,
    /// Accumulated approve weight.
    pub vote_weight: u64,
    /// Outcome, recorded when the proposal is decided.
    pub result: OptionVoteResult,
    /// Transactions attached to the option; frozen once voting starts.
    pub transactions: Vec<ProposalTransaction>,
}

/// A required approver whose sign-off gates the proposal leaving Draft.
#[derive(Clone, Copy, Debug, PartialEq, Eq, Structural)]
pub struct SignatoryRecord {
    /// The approver's key.
    pub signatory: u64,
    /// Whether the approver has signed off.
    pub signed_off: bool,
}

/// One decision under vote.
#[derive(Clone, Debug, PartialEq, Eq)]
pub struct Proposal {
    /// This proposal's key.
    pub key: u64,
    /// The governance entity the proposal runs under.
    pub governance_key: u64,
    /// The token owner who created the proposal.
    pub owner: u64,
    /// Lifecycle state; only ever advances in the lifecycle ordering.
    pub state: ProposalState,
    /// Single- or multi-choice ballots.
    pub vote_kind: VoteKind,
    /// Whether a deny accumulator competes with the options.
    pub use_deny_option: bool,
    /// Display name.
    pub name: String,
    /// Link to the proposal's description.
    pub description_link: String,
    /// The selectable outcomes; frozen once voting starts.
    pub options: Vec<ProposalOption>,
    /// Accumulated deny weight.
    pub deny_vote_weight: u64,
    /// Total weight cast so far, each ballot counted once.
    pub total_cast_weight: u64,
    /// Maximum possible voting weight, snapshotted when voting starts and
    /// never mutated thereafter; the quorum and threshold denominator.
    pub max_voting_weight: u64,
    /// When the proposal was created.
    pub draft_at: u64,
    /// When voting opened; `None` until the begin-voting action.
    pub voting_starts_at: Option<u64>,
    /// When voting was decided; `None` until finalize or tip.
    pub voting_completed_at: Option<u64>,
    /// Required approvers and their sign-off flags.
    pub signatories: Vec<SignatoryRecord>,
    /// Who paid the creation deposit.
    pub deposit_payer: u64,
    /// The deposit owed back once the proposal is terminal.
    pub deposit_amount: u64,
    /// Whether the deposit has been reclaimed; set at most once.
    pub deposit_refunded: bool,
}

/// Structural soundness of one proposal: the option list fits the vote kind,
/// signatories are distinct, tallies never pass the snapshot while voting,
/// and the timestamps required by later phases are present.
pub open spec fn proposal_wf(p: Proposal) -> bool {
    &&& (p.vote_kind == VoteKind::SingleChoice ==> p.options@.len() == 1)
    &&& (forall|i: int, j: int|
        0 <= i < j < p.signatories@.len()
            ==> p.signatories@[i].signatory != p.signatories@[j].signatory)
    &&& (p.state == ProposalState::Voting ==> {
        &&& p.voting_starts_at is Some
        &&& p.total_cast_weight <= p.max_voting_weight
    })
    &&& ((p.state == ProposalState::Draft || p.state == ProposalState::SigningOff)
        ==> p.total_cast_weight == 0)
    &&& ((p.state == ProposalState::Succeeded || p.state == ProposalState::Executing
        || p.state == ProposalState::Completed
        || p.state == ProposalState::ExecutingWithErrors)
        ==> p.voting_completed_at is Some)
}

/// Every required approver has signed off (vacuously true with none).
pub open spec fn spec_all_signed_off(sigs: Seq<SignatoryRecord>) -> bool {
    forall|i: int| 0 <= i < sigs.len() ==> sigs[i].signed_off
}

/// Some record names this signatory.
pub open spec fn spec_has_signatory(sigs: Seq<SignatoryRecord>, key: u64) -> bool {
    exists|i: int| 0 <= i < sigs.len() && sigs[i].signatory == key
}

/// Every transaction of every succeeded option has been executed.
pub open spec fn spec_all_winning_executed(options: Seq<ProposalOption>) -> bool {
    forall|a: int, b: int|
        0 <= a < options.len() && options[a].result == OptionVoteResult::Succeeded
            && 0 <= b < options[a].transactions@.len()
            ==> options[a].transactions@[b].executed
}

/// Runtime check equal to `spec_all_signed_off`.
pub fn all_signed_off(sigs: &Vec<SignatoryRecord>) -> (r: bool)
    ensures
        r == spec_all_signed_off(sigs@),
{
    let mut i: usize = 0;
    while i < sigs.len()
        invariant
            i <= sigs@.len(),
            forall|j: int| 0 <= j < i ==> sigs@[j].signed_off,
        decreases sigs@.len() - i,
    {
        if !sigs[i].signed_off {
            return false;
        }
        i = i + 1;
    }
    true
}

/// Runtime lookup of a signatory's index; `None` exactly when no record
/// names the signatory.
pub fn find_signatory(sigs: &Vec<SignatoryRecord>, key: u64) -> (r: Option<usize>)
    ensures
        match r {
            Some(i) => i < sigs@.len() && sigs@[i as int].signatory == key,
            None => !spec_has_signatory(sigs@, key),
        },
{
    let mut i: usize = 0;
    while i < sigs.len()
        invariant
            i <= sigs@.len(),
            forall|j: int| 0 <= j < i ==> sigs@[j].signatory != key,
        decreases sigs@.len() - i,
    {
        if sigs[i].signatory == key {
            return Some(i);
        }
        i = i + 1;
    }
    None
}

/// Runtime check equal to `spec_all_winning_executed`.
pub fn all_winning_executed(options: &Vec<ProposalOption>) -> (r: bool)
    ensures
        r == spec_all_winning_executed(options@),
{
    let mut i: usize = 0;
    while i < options.len()
        invariant
            i <= options@.len(),
            forall|a: int, b: int|
                0 <= a < i && options@[a].result == OptionVoteResult::Succeeded
                    && 0 <= b < options@[a].transactions@.len()
                    ==> options@[a].transactions@[b].executed,
        decreases options@.len() - i,
    {
        if options[i].result == OptionVoteResult::Succeeded {
            let mut j: usize = 0;
            while j < options[i].transactions.len()
                invariant
                    i < options@.len(),
                    j <= options@[i as int].transactions@.len(),
                    options@[i as int].result == OptionVoteResult::Succeeded,
                    forall|b: int|
                        0 <= b < j ==> options@[i as int].transactions@[b].executed,
                decreases options@[i as int].transactions@.len() - j,
            {
                if !options[i].transactions[j].executed {
                    return false;
                }
                j = j + 1;
            }
        }
        i = i + 1;
    }
    true
}

} // verus!
