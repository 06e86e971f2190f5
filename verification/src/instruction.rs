//! The instruction set as a closed sum type and the processor as a total
//! function over it: every variant is handled, and the processor's contract
//! carries one clause per variant saying exactly when that instruction
//! succeeds and exactly what it did to the realm. The dispatch as a whole
//! preserves the realm invariant, only moves proposals along allowed
//! lifecycle transitions, and changes nothing when it errs.

use vstd::prelude::*;
use crate::config::GovernanceConfig;
use crate::errors::GovernanceError;
use crate::execution::ExecutionGrant;
use crate::proposal::VoteKind;
use crate::realm::{Realm, RealmAuthorityAction, GovernedResourceKind};
use crate::records::{BallotChoice, VoterWeightAttestation};

verus! {

/// One governance instruction. Account references are indices into the
/// realm's record lists — the caller names the accounts, and each operation
/// re-checks that they match the entities expected for their roles.
pub enum GovernanceInstruction {
    /// Register a participant.
    CreateTokenOwnerRecord { owner: u64 },
    /// Add deposited tokens to an owner's voting weight.
    DepositGoverningTokens { tor_index: usize, amount: u64 },
    /// Release an owner's whole deposit; blocked by outstanding votes.
    WithdrawGoverningTokens { tor_index: usize },
    /// Remove revocable membership weight; realm authority only.
    RevokeGoverningTokens { tor_index: usize, authority: u64, amount: u64 },
    /// Change who may vote on the owner's behalf.
    SetGovernanceDelegate { tor_index: usize, authority: u64, new_delegate: Option<u64> },
    /// Create a governance over one resource.
    CreateGovernance {
        authority: u64,
        creator_tor_index: Option<usize>,
        resource_kind: GovernedResourceKind,
        governed_resource: u64,
        config: GovernanceConfig,
    },
    /// Create a proposal in Draft.
    CreateProposal {
        gov_index: usize,
        tor_index: usize,
        authority: u64,
        payer: u64,
        name: String,
        description_link: String,
        vote_kind: VoteKind,
        option_labels: Vec<String>,
        use_deny_option: bool,
    },
    /// Append options to a multi-choice proposal in Draft.
    InsertProposalOptions {
        prop_index: usize,
        tor_index: usize,
        authority: u64,
        option_labels: Vec<String>,
    },
    /// Add a required approver.
    AddSignatory { prop_index: usize, tor_index: usize, authority: u64, signatory: u64 },
    /// Remove a required approver.
    RemoveSignatory { prop_index: usize, tor_index: usize, authority: u64, signatory: u64 },
    /// Record one signatory's sign-off.
    SignOffProposal { prop_index: usize, signatory: u64 },
    /// Open the voting window and snapshot the maximum voting weight.
    StartVoting { prop_index: usize, tor_index: usize, authority: u64 },
    /// Cast a ballot.
    CastVote {
        prop_index: usize,
        gov_index: usize,
        tor_index: usize,
        authority: u64,
        ballot: BallotChoice,
        attestation: Option<VoterWeightAttestation>,
    },
    /// Decide the vote after the window elapsed.
    FinalizeVote { prop_index: usize, gov_index: usize },
    /// Release a cast vote.
    RelinquishVote {
        prop_index: usize,
        tor_index: usize,
        record_index: usize,
        authority: u64,
    },
    /// Cancel a proposal from a pre-decided state.
    CancelProposal { prop_index: usize, tor_index: usize, authority: u64 },
    /// Council override of a proposal in voting.
    VetoProposal { prop_index: usize, authority: u64 },
    /// Attach an instruction bundle to an option.
    InsertTransaction {
        prop_index: usize,
        tor_index: usize,
        authority: u64,
        option_index: usize,
        index: usize,
        hold_up_time: u64,
        instructions: Vec<u8>,
    },
    /// Detach an instruction bundle before voting opens.
    RemoveTransaction {
        prop_index: usize,
        tor_index: usize,
        authority: u64,
        option_index: usize,
        index: usize,
    },
    /// Execute one attached transaction after its hold-up time.
    ExecuteTransaction {
        prop_index: usize,
        gov_index: usize,
        option_index: usize,
        tx_index: usize,
    },
    /// Record an external execution failure.
    FlagTransactionError {
        prop_index: usize,
        tor_index: usize,
        authority: u64,
        option_index: usize,
        tx_index: usize,
    },
    /// Replace a governance's config; needs a grant from an executed
    /// transaction of a winning proposal under that governance.
    SetGovernanceConfig { gov_index: usize, config: GovernanceConfig, grant: ExecutionGrant },
    /// Transfer or remove the realm authority.
    SetRealmAuthority { authority: u64, action: RealmAuthorityAction },
    /// Update the realm's mutable configuration.
    SetRealmConfig {
        authority: u64,
        council: Option<u64>,
        min_weight_to_create_governance: u64,
    },
    /// Reclaim the creation deposit of a terminal proposal.
    RefundProposalDeposit { prop_index: usize },
    /// Close a succeeded proposal whose winning transactions all executed.
    CompleteProposal { prop_index: usize, tor_index: usize, authority: u64 },
}

/// What a processed instruction hands back to the caller.
pub enum InstructionOutcome {
    /// The operation completed with nothing further to do.
    Done,
    /// A token owner record was created at this index.
    RecordCreated { index: usize },
    /// A governance was created under this key.
    GovernanceCreated { key: u64 },
    /// A proposal was created under this key.
    ProposalCreated { key: u64 },
    /// The caller must pay this amount back to the owner.
    TokensReleased { amount: u64 },
    /// The caller must pay this amount back to the deposit payer.
    DepositRefunded { amount: u64 },
    /// The caller must perform these instruction bytes, signing as the
    /// granted governance.
    Executed { grant: ExecutionGrant, instructions: Vec<u8> },
}

/// Processes one instruction against the realm at the given time. The match
/// is total over the closed instruction type, and the contract carries one
/// clause per variant: the call succeeds exactly when the dispatched
/// operation accepts its inputs, and on success the realm has undergone that
/// operation's exact state change and the outcome carries its results. The
/// dispatch as a whole preserves the realm invariant, only ever moves a
/// proposal along an allowed lifecycle transition, and leaves the realm
/// untouched whenever it returns an error.
#[verifier::rlimit(100)]
pub fn process_instruction(realm: &mut Realm, instruction: GovernanceInstruction, now: u64)
    -> (r: Result<InstructionOutcome, GovernanceError>)
    requires
        old(realm).wf(),
    ensures
        final(realm).wf(),
        Realm::proposals_monotonic(*old(realm), *final(realm)),
        r is Err ==> *final(realm) == *old(realm),
        instruction matches GovernanceInstruction::CreateTokenOwnerRecord { owner } ==> {
            &&& (r is Ok <==> Realm::create_token_owner_record_ok(*old(realm), owner))
            &&& match r {
                Result::Ok(o) => match o {
                    InstructionOutcome::RecordCreated { index } =>
                        Realm::create_token_owner_record_applied(*old(realm), *final(realm),
                            owner, index as int),
                    _ => false,
                },
                Result::Err(_) => true,
            }
        },
        instruction matches GovernanceInstruction::DepositGoverningTokens {
            tor_index,
            amount,
        } ==> {
            &&& (r is Ok <==> Realm::deposit_ok(*old(realm), tor_index as int, amount))
            &&& (r is Ok ==> Realm::deposit_applied(*old(realm), *final(realm),
                tor_index as int, amount))
        },
        instruction matches GovernanceInstruction::WithdrawGoverningTokens { tor_index }
            ==> {
            &&& (r is Ok <==> Realm::withdraw_ok(*old(realm), tor_index as int))
            &&& match r {
                Result::Ok(o) => match o {
                    InstructionOutcome::TokensReleased { amount } =>
                        Realm::withdraw_applied(*old(realm), *final(realm),
                            tor_index as int, amount),
                    _ => false,
                },
                Result::Err(_) => true,
            }
        },
        instruction matches GovernanceInstruction::RevokeGoverningTokens {
            tor_index,
            authority,
            amount,
        } ==> {
            &&& (r is Ok <==> Realm::revoke_ok(*old(realm), tor_index as int, authority,
                amount))
            &&& (r is Ok ==> Realm::revoke_applied(*old(realm), *final(realm),
                tor_index as int, amount))
        },
        instruction matches GovernanceInstruction::SetGovernanceDelegate {
            tor_index,
            authority,
            new_delegate,
        } ==> {
            &&& (r is Ok <==> Realm::set_delegate_ok(*old(realm), tor_index as int,
                authority))
            &&& (r is Ok ==> Realm::set_delegate_applied(*old(realm), *final(realm),
                tor_index as int, new_delegate))
        },
        instruction matches GovernanceInstruction::CreateGovernance {
            authority,
            creator_tor_index,
            resource_kind,
            governed_resource,
            config,
        } ==> {
            &&& (r is Ok <==> Realm::create_governance_ok(*old(realm), authority,
                creator_tor_index, config))
            &&& match r {
                Result::Ok(o) => match o {
                    InstructionOutcome::GovernanceCreated { key } =>
                        Realm::create_governance_applied(*old(realm), *final(realm),
                            resource_kind, governed_resource, config, key),
                    _ => false,
                },
                Result::Err(_) => true,
            }
        },
        instruction matches GovernanceInstruction::CreateProposal {
            gov_index,
            tor_index,
            authority,
            payer,
            name,
            description_link,
            vote_kind,
            option_labels,
            use_deny_option,
        } ==> {
            &&& (r is Ok <==> crate::proposal_ops::create_proposal_ok(*old(realm),
                gov_index as int, tor_index as int, authority, vote_kind,
                option_labels@.len() as int))
            &&& match r {
                Result::Ok(o) => match o {
                    InstructionOutcome::ProposalCreated { key } =>
                        crate::proposal_ops::create_proposal_applied(*old(realm),
                            *final(realm), gov_index as int, tor_index as int, payer, name,
                            description_link, vote_kind, option_labels@, use_deny_option,
                            now, key),
                    _ => false,
                },
                Result::Err(_) => true,
            }
        },
        instruction matches GovernanceInstruction::InsertProposalOptions {
            prop_index,
            tor_index,
            authority,
            option_labels,
        } ==> {
            &&& (r is Ok <==> crate::proposal_ops::insert_options_ok(*old(realm),
                prop_index as int, tor_index as int, authority))
            &&& (r is Ok ==> crate::proposal_ops::insert_options_applied(*old(realm),
                *final(realm), prop_index as int, option_labels@))
        },
        instruction matches GovernanceInstruction::AddSignatory {
            prop_index,
            tor_index,
            authority,
            signatory,
        } ==> {
            &&& (r is Ok <==> crate::proposal_ops::add_signatory_ok(*old(realm),
                prop_index as int, tor_index as int, authority, signatory))
            &&& (r is Ok ==> crate::proposal_ops::add_signatory_applied(*old(realm),
                *final(realm), prop_index as int, signatory))
        },
        instruction matches GovernanceInstruction::RemoveSignatory {
            prop_index,
            tor_index,
            authority,
            signatory,
        } ==> {
            &&& (r is Ok <==> crate::proposal_ops::remove_signatory_ok(*old(realm),
                prop_index as int, tor_index as int, authority, signatory))
            &&& (r is Ok ==> crate::proposal_ops::remove_signatory_applied(*old(realm),
                *final(realm), prop_index as int, signatory))
        },
        instruction matches GovernanceInstruction::SignOffProposal {
            prop_index,
            signatory,
        } ==> {
            &&& (r is Ok <==> crate::proposal_ops::sign_off_ok(*old(realm),
                prop_index as int, signatory))
            &&& (r is Ok ==> crate::proposal_ops::sign_off_applied(*old(realm),
                *final(realm), prop_index as int, signatory))
        },
        instruction matches GovernanceInstruction::StartVoting {
            prop_index,
            tor_index,
            authority,
        } ==> {
            &&& (r is Ok <==> crate::proposal_ops::start_voting_ok(*old(realm),
                prop_index as int, tor_index as int, authority))
            &&& (r is Ok ==> crate::proposal_ops::start_voting_applied(*old(realm),
                *final(realm), prop_index as int, tor_index as int, now))
        },
        instruction matches GovernanceInstruction::CastVote {
            prop_index,
            gov_index,
            tor_index,
            authority,
            ballot,
            attestation,
        } ==> {
            &&& (r is Ok <==> crate::voting::cast_vote_ok(*old(realm), prop_index as int,
                gov_index as int, tor_index as int, authority, ballot, attestation, now))
            &&& (r is Ok ==> crate::voting::cast_vote_applied(*old(realm), *final(realm),
                prop_index as int, gov_index as int, tor_index as int, ballot, attestation,
                now))
        },
        instruction matches GovernanceInstruction::FinalizeVote { prop_index, gov_index }
            ==> {
            &&& (r is Ok <==> crate::voting::finalize_ok(*old(realm), prop_index as int,
                gov_index as int, now))
            &&& (r is Ok ==> crate::voting::finalize_applied(*old(realm), *final(realm),
                prop_index as int, gov_index as int, now))
        },
        instruction matches GovernanceInstruction::RelinquishVote {
            prop_index,
            tor_index,
            record_index,
            authority,
        } ==> {
            &&& (r is Ok <==> crate::voting::relinquish_ok(*old(realm), prop_index as int,
                tor_index as int, record_index as int, authority))
            &&& (r is Ok ==> crate::voting::relinquish_applied(*old(realm), *final(realm),
                prop_index as int, tor_index as int, record_index as int))
        },
        instruction matches GovernanceInstruction::CancelProposal {
            prop_index,
            tor_index,
            authority,
        } ==> {
            &&& (r is Ok <==> crate::proposal_ops::cancel_ok(*old(realm), prop_index as int,
                tor_index as int, authority))
            &&& (r is Ok ==> crate::proposal_ops::cancel_applied(*old(realm), *final(realm),
                prop_index as int, tor_index as int))
        },
        instruction matches GovernanceInstruction::VetoProposal { prop_index, authority }
            ==> {
            &&& (r is Ok <==> crate::proposal_ops::veto_ok(*old(realm), prop_index as int,
                authority))
            &&& (r is Ok ==> crate::proposal_ops::veto_applied(*old(realm), *final(realm),
                prop_index as int, now))
        },
        instruction matches GovernanceInstruction::InsertTransaction {
            prop_index,
            tor_index,
            authority,
            option_index,
            index,
            hold_up_time,
            instructions,
        } ==> {
            &&& (r is Ok <==> crate::execution::insert_tx_ok(*old(realm), prop_index as int,
                tor_index as int, authority, option_index as int, index as int))
            &&& (r is Ok ==> crate::execution::insert_tx_applied(*old(realm), *final(realm),
                prop_index as int, option_index as int, hold_up_time, instructions))
        },
        instruction matches GovernanceInstruction::RemoveTransaction {
            prop_index,
            tor_index,
            authority,
            option_index,
            index,
        } ==> {
            &&& (r is Ok <==> crate::execution::remove_tx_ok(*old(realm), prop_index as int,
                tor_index as int, authority, option_index as int, index as int))
            &&& (r is Ok ==> crate::execution::remove_tx_applied(*old(realm), *final(realm),
                prop_index as int, option_index as int, index as int))
        },
        instruction matches GovernanceInstruction::ExecuteTransaction {
            prop_index,
            gov_index,
            option_index,
            tx_index,
        } ==> {
            &&& (r is Ok <==> crate::execution::execute_ok(*old(realm), prop_index as int,
                gov_index as int, option_index as int, tx_index as int, now))
            &&& match r {
                Result::Ok(o) => match o {
                    InstructionOutcome::Executed { grant, instructions } =>
                        crate::execution::execute_applied(*old(realm), *final(realm),
                            prop_index as int, gov_index as int, option_index as int,
                            tx_index as int, grant, instructions@),
                    _ => false,
                },
                Result::Err(_) => true,
            }
        },
        instruction matches GovernanceInstruction::FlagTransactionError {
            prop_index,
            tor_index,
            authority,
            option_index,
            tx_index,
        } ==> {
            &&& (r is Ok <==> crate::execution::flag_tx_ok(*old(realm), prop_index as int,
                tor_index as int, authority, option_index as int, tx_index as int))
            &&& (r is Ok ==> crate::execution::flag_tx_applied(*old(realm), *final(realm),
                prop_index as int, option_index as int, tx_index as int))
        },
        instruction matches GovernanceInstruction::SetGovernanceConfig {
            gov_index,
            config,
            grant,
        } ==> {
            &&& (r is Ok <==> crate::execution::set_governance_config_ok(*old(realm),
                gov_index as int, config, grant))
            &&& (r is Ok ==> crate::execution::set_governance_config_applied(*old(realm),
                *final(realm), gov_index as int, config))
        },
        instruction matches GovernanceInstruction::SetRealmAuthority { authority, action }
            ==> {
            &&& (r is Ok <==> Realm::set_realm_authority_ok(*old(realm), authority, action))
            &&& (r is Ok ==> Realm::set_realm_authority_applied(*old(realm), *final(realm),
                action))
        },
        instruction matches GovernanceInstruction::SetRealmConfig {
            authority,
            council,
            min_weight_to_create_governance,
        } ==> {
            &&& (r is Ok <==> Realm::set_realm_config_ok(*old(realm), authority))
            &&& (r is Ok ==> Realm::set_realm_config_applied(*old(realm), *final(realm),
                council, min_weight_to_create_governance))
        },
        instruction matches GovernanceInstruction::RefundProposalDeposit { prop_index }
            ==> {
            &&& (r is Ok <==> crate::execution::refund_ok(*old(realm), prop_index as int))
            &&& match r {
                Result::Ok(o) => match o {
                    InstructionOutcome::DepositRefunded { amount } =>
                        crate::execution::refund_applied(*old(realm), *final(realm),
                            prop_index as int, amount),
                    _ => false,
                },
                Result::Err(_) => true,
            }
        },
        instruction matches GovernanceInstruction::CompleteProposal {
            prop_index,
            tor_index,
            authority,
        } ==> {
            &&& (r is Ok <==> crate::execution::complete_ok(*old(realm), prop_index as int,
                tor_index as int, authority))
            &&& (r is Ok ==> crate::execution::complete_applied(*old(realm), *final(realm),
                prop_index as int))
        },
{
    match instruction {
        GovernanceInstruction::CreateTokenOwnerRecord { owner } => {
            let index = realm.create_token_owner_record(owner)?;
            Ok(InstructionOutcome::RecordCreated { index })
        },
        GovernanceInstruction::DepositGoverningTokens { tor_index, amount } => {
            realm.deposit_governing_tokens(tor_index, amount)?;
            Ok(InstructionOutcome::Done)
        },
        GovernanceInstruction::WithdrawGoverningTokens { tor_index } => {
            let amount = realm.withdraw_governing_tokens(tor_index)?;
            Ok(InstructionOutcome::TokensReleased { amount })
        },
        GovernanceInstruction::RevokeGoverningTokens { tor_index, authority, amount } => {
            realm.revoke_governing_tokens(tor_index, authority, amount)?;
            Ok(InstructionOutcome::Done)
        },
        GovernanceInstruction::SetGovernanceDelegate {
            tor_index,
            authority,
            new_delegate,
        } => {
            realm.set_governance_delegate(tor_index, authority, new_delegate)?;
            Ok(InstructionOutcome::Done)
        },
        GovernanceInstruction::CreateGovernance {
            authority,
            creator_tor_index,
            resource_kind,
            governed_resource,
            config,
        } => {
            let key = realm.create_governance(authority, creator_tor_index, resource_kind,
                governed_resource, config)?;
            Ok(InstructionOutcome::GovernanceCreated { key })
        },
        GovernanceInstruction::CreateProposal {
            gov_index,
            tor_index,
            authority,
            payer,
            name,
            description_link,
            vote_kind,
            option_labels,
            use_deny_option,
        } => {
            let key = realm.create_proposal(gov_index, tor_index, authority, payer, name,
                description_link, vote_kind, option_labels, use_deny_option, now)?;
            Ok(InstructionOutcome::ProposalCreated { key })
        },
        GovernanceInstruction::InsertProposalOptions {
            prop_index,
            tor_index,
            authority,
            option_labels,
        } => {
            realm.insert_proposal_options(prop_index, tor_index, authority, option_labels)?;
            Ok(InstructionOutcome::Done)
        },
        GovernanceInstruction::AddSignatory { prop_index, tor_index, authority, signatory } => {
            realm.add_signatory(prop_index, tor_index, authority, signatory)?;
            Ok(InstructionOutcome::Done)
        },
        GovernanceInstruction::RemoveSignatory {
            prop_index,
            tor_index,
            authority,
            signatory,
        } => {
            realm.remove_signatory(prop_index, tor_index, authority, signatory)?;
            Ok(InstructionOutcome::Done)
        },
        GovernanceInstruction::SignOffProposal { prop_index, signatory } => {
            realm.sign_off_proposal(prop_index, signatory)?;
            Ok(InstructionOutcome::Done)
        },
        GovernanceInstruction::StartVoting { prop_index, tor_index, authority } => {
            realm.start_voting(prop_index, tor_index, authority, now)?;
            Ok(InstructionOutcome::Done)
        },
        GovernanceInstruction::CastVote {
            prop_index,
            gov_index,
            tor_index,
            authority,
            ballot,
            attestation,
        } => {
            realm.cast_vote(prop_index, gov_index, tor_index, authority, ballot, attestation,
                now)?;
            Ok(InstructionOutcome::Done)
        },
        GovernanceInstruction::FinalizeVote { prop_index, gov_index } => {
            realm.finalize_vote(prop_index, gov_index, now)?;
            Ok(InstructionOutcome::Done)
        },
        GovernanceInstruction::RelinquishVote {
            prop_index,
            tor_index,
            record_index,
            authority,
        } => {
            realm.relinquish_vote(prop_index, tor_index, record_index, authority)?;
            Ok(InstructionOutcome::Done)
        },
        GovernanceInstruction::CancelProposal { prop_index, tor_index, authority } => {
            realm.cancel_proposal(prop_index, tor_index, authority)?;
            Ok(InstructionOutcome::Done)
        },
        GovernanceInstruction::VetoProposal { prop_index, authority } => {
            realm.veto_proposal(prop_index, authority, now)?;
            Ok(InstructionOutcome::Done)
        },
        GovernanceInstruction::InsertTransaction {
            prop_index,
            tor_index,
            authority,
            option_index,
            index,
            hold_up_time,
            instructions,
        } => {
            realm.insert_transaction(prop_index, tor_index, authority, option_index, index,
                hold_up_time, instructions)?;
            Ok(InstructionOutcome::Done)
        },
        GovernanceInstruction::RemoveTransaction {
            prop_index,
            tor_index,
            authority,
            option_index,
            index,
        } => {
            realm.remove_transaction(prop_index, tor_index, authority, option_index, index)?;
            Ok(InstructionOutcome::Done)
        },
        GovernanceInstruction::ExecuteTransaction {
            prop_index,
            gov_index,
            option_index,
            tx_index,
        } => {
            let (grant, instructions) = realm.execute_transaction(prop_index, gov_index,
                option_index, tx_index, now)?;
            Ok(InstructionOutcome::Executed { grant, instructions })
        },
        GovernanceInstruction::FlagTransactionError {
            prop_index,
            tor_index,
            authority,
            option_index,
            tx_index,
        } => {
            realm.flag_transaction_error(prop_index, tor_index, authority, option_index,
                tx_index)?;
            Ok(InstructionOutcome::Done)
        },
        GovernanceInstruction::SetGovernanceConfig { gov_index, config, grant } => {
            realm.set_governance_config(gov_index, config, &grant)?;
            Ok(InstructionOutcome::Done)
        },
        GovernanceInstruction::SetRealmAuthority { authority, action } => {
            realm.set_realm_authority(authority, action)?;
            Ok(InstructionOutcome::Done)
        },
        GovernanceInstruction::SetRealmConfig {
            authority,
            council,
            min_weight_to_create_governance,
        } => {
            realm.set_realm_config(authority, council, min_weight_to_create_governance)?;
            Ok(InstructionOutcome::Done)
        },
        GovernanceInstruction::RefundProposalDeposit { prop_index } => {
            let amount = realm.refund_proposal_deposit(prop_index)?;
            Ok(InstructionOutcome::DepositRefunded { amount })
        },
        GovernanceInstruction::CompleteProposal { prop_index, tor_index, authority } => {
            realm.complete_proposal(prop_index, tor_index, authority)?;
            Ok(InstructionOutcome::Done)
        },
    }
}

} // verus!
