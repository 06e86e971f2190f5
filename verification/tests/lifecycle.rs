use spl_governance::config::{GovernanceConfig, VoteTipping};
use spl_governance::errors::GovernanceError;
use spl_governance::proposal::{OptionVoteResult, VoteKind};
use spl_governance::realm::{GovernedResourceKind, Realm, RealmAuthorityAction};
use spl_governance::records::BallotChoice;
use spl_governance::state::ProposalState;

const REALM_AUTHORITY: u64 = 1000;
const COUNCIL: u64 = 2000;

fn config(threshold: u8, quorum: u64) -> GovernanceConfig {
    GovernanceConfig {
        vote_threshold_percentage: threshold,
        quorum_weight: quorum,
        min_voting_time: 0,
        max_voting_time: 1000,
        vote_tipping: VoteTipping::Disabled,
        cool_off_time: 0,
        proposal_deposit: 25,
        min_weight_to_create_proposal: 1,
    }
}

fn base_realm() -> Realm {
    let mut realm =
        Realm::new("dao".to_string(), 7, Some(COUNCIL), Some(REALM_AUTHORITY), 0);
    for (owner, amount) in [(1u64, 50u64), (2, 20), (3, 30)] {
        let i = realm.create_token_owner_record(owner).unwrap();
        realm.deposit_governing_tokens(i, amount).unwrap();
    }
    realm
        .create_governance(
            REALM_AUTHORITY,
            None,
            GovernedResourceKind::Program,
            42,
            config(10, 10),
        )
        .unwrap();
    realm
}

/// Multi-choice proposal with two options, a transaction on each: option A's
/// with no hold-up, option B's with a delay of 86400, decided at time 10.
fn executed_scenario() -> Realm {
    let mut realm = base_realm();
    realm
        .create_proposal(
            0,
            0,
            1,
            1,
            "spend".to_string(),
            "l".to_string(),
            VoteKind::MultiChoice,
            vec!["a".to_string(), "b".to_string()],
            false,
            0,
        )
        .unwrap();
    realm.insert_transaction(0, 0, 1, 0, 0, 0, vec![0xA0]).unwrap();
    realm.insert_transaction(0, 0, 1, 1, 0, 86400, vec![0xB0]).unwrap();
    realm.sign_off_proposal(0, 1).unwrap();
    realm.start_voting(0, 0, 1, 0).unwrap();
    realm
        .cast_vote(0, 0, 0, 1, BallotChoice::Approve(vec![true, true]), None, 1)
        .unwrap();
    realm.finalize_vote(0, 0, 1000).unwrap();
    assert_eq!(realm.proposals[0].state, ProposalState::Succeeded);
    assert_eq!(realm.proposals[0].options[0].result, OptionVoteResult::Succeeded);
    assert_eq!(realm.proposals[0].options[1].result, OptionVoteResult::Succeeded);
    realm
}

#[test]
fn states_advance_in_order_and_never_back() {
    let mut realm = base_realm();
    realm
        .create_proposal(
            0,
            0,
            1,
            1,
            "p".to_string(),
            "l".to_string(),
            VoteKind::SingleChoice,
            vec!["yes".to_string()],
            false,
            0,
        )
        .unwrap();
    assert_eq!(realm.proposals[0].state, ProposalState::Draft);
    realm.sign_off_proposal(0, 1).unwrap();
    assert_eq!(realm.proposals[0].state, ProposalState::SigningOff);
    // No way back: adding signatories or options is now refused.
    assert_eq!(realm.add_signatory(0, 0, 1, 77), Err(GovernanceError::InvalidProposalState));
    realm.start_voting(0, 0, 1, 0).unwrap();
    assert_eq!(realm.proposals[0].state, ProposalState::Voting);
    assert_eq!(realm.start_voting(0, 0, 1, 1), Err(GovernanceError::InvalidProposalState));
    realm
        .cast_vote(0, 0, 0, 1, BallotChoice::Approve(vec![true]), None, 1)
        .unwrap();
    realm.finalize_vote(0, 0, 1000).unwrap();
    assert_eq!(realm.proposals[0].state, ProposalState::Succeeded);
    assert_eq!(realm.finalize_vote(0, 0, 2000), Err(GovernanceError::InvalidProposalState));
}

#[test]
fn signatories_gate_leaving_draft() {
    let mut realm = base_realm();
    realm
        .create_proposal(
            0,
            0,
            1,
            1,
            "p".to_string(),
            "l".to_string(),
            VoteKind::SingleChoice,
            vec!["yes".to_string()],
            false,
            0,
        )
        .unwrap();
    realm.add_signatory(0, 0, 1, 501).unwrap();
    realm.add_signatory(0, 0, 1, 502).unwrap();
    assert_eq!(realm.add_signatory(0, 0, 1, 501), Err(GovernanceError::DuplicateSignatory));
    realm.sign_off_proposal(0, 501).unwrap();
    assert_eq!(realm.proposals[0].state, ProposalState::Draft);
    assert_eq!(realm.sign_off_proposal(0, 501), Err(GovernanceError::AlreadySignedOff));
    assert_eq!(realm.sign_off_proposal(0, 999), Err(GovernanceError::SignatoryNotFound));
    realm.sign_off_proposal(0, 502).unwrap();
    assert_eq!(realm.proposals[0].state, ProposalState::SigningOff);
}

#[test]
fn removed_signatory_no_longer_gates() {
    let mut realm = base_realm();
    realm
        .create_proposal(
            0,
            0,
            1,
            1,
            "p".to_string(),
            "l".to_string(),
            VoteKind::SingleChoice,
            vec!["yes".to_string()],
            false,
            0,
        )
        .unwrap();
    realm.add_signatory(0, 0, 1, 501).unwrap();
    realm.add_signatory(0, 0, 1, 502).unwrap();
    realm.remove_signatory(0, 0, 1, 502).unwrap();
    assert_eq!(realm.remove_signatory(0, 0, 1, 502), Err(GovernanceError::SignatoryNotFound));
    realm.sign_off_proposal(0, 501).unwrap();
    assert_eq!(realm.proposals[0].state, ProposalState::SigningOff);
}

#[test]
fn execute_respects_hold_up_per_transaction() {
    let mut realm = executed_scenario();
    // Option A's transaction has no hold-up: executable right away.
    let (_, bytes) = realm.execute_transaction(0, 0, 0, 0, 1000).unwrap();
    assert_eq!(bytes, vec![0xA0]);
    assert_eq!(realm.proposals[0].state, ProposalState::Executing);
    // Option B's transaction waits out its 86400 delay from completion.
    assert_eq!(
        realm.execute_transaction(0, 0, 1, 0, 1000),
        Err(GovernanceError::HoldUpTimeNotElapsed)
    );
    assert_eq!(
        realm.execute_transaction(0, 0, 1, 0, 1000 + 86399),
        Err(GovernanceError::HoldUpTimeNotElapsed)
    );
    let (_, bytes_b) = realm.execute_transaction(0, 0, 1, 0, 1000 + 86400).unwrap();
    assert_eq!(bytes_b, vec![0xB0]);
}

#[test]
fn execute_twice_fails_and_reapplies_nothing() {
    let mut realm = executed_scenario();
    realm.execute_transaction(0, 0, 0, 0, 1000).unwrap();
    assert!(realm.proposals[0].options[0].transactions[0].executed);
    let before = realm.clone();
    assert_eq!(
        realm.execute_transaction(0, 0, 0, 0, 2000),
        Err(GovernanceError::TransactionAlreadyExecuted)
    );
    assert_eq!(realm, before);
}

#[test]
fn deposit_refund_is_exactly_once() {
    let mut realm = executed_scenario();
    // Not yet terminal: Succeeded is not a refundable state.
    assert_eq!(realm.refund_proposal_deposit(0), Err(GovernanceError::InvalidProposalState));
    realm.execute_transaction(0, 0, 0, 0, 1000).unwrap();
    realm.execute_transaction(0, 0, 1, 0, 1000 + 86400).unwrap();
    realm.complete_proposal(0, 0, 1).unwrap();
    assert_eq!(realm.proposals[0].state, ProposalState::Completed);
    assert_eq!(realm.refund_proposal_deposit(0), Ok(25));
    assert!(realm.proposals[0].deposit_refunded);
    assert_eq!(realm.refund_proposal_deposit(0), Err(GovernanceError::DepositAlreadyRefunded));
    assert_eq!(realm.refund_proposal_deposit(0), Err(GovernanceError::DepositAlreadyRefunded));
}

#[test]
fn complete_waits_for_all_winning_transactions() {
    let mut realm = executed_scenario();
    assert_eq!(realm.complete_proposal(0, 0, 1), Err(GovernanceError::TransactionsStillPending));
    realm.execute_transaction(0, 0, 0, 0, 1000).unwrap();
    assert_eq!(realm.complete_proposal(0, 0, 1), Err(GovernanceError::TransactionsStillPending));
    realm.execute_transaction(0, 0, 1, 0, 1000 + 86400).unwrap();
    realm.complete_proposal(0, 0, 1).unwrap();
    assert_eq!(realm.proposals[0].state, ProposalState::Completed);
}

#[test]
fn flagging_an_error_degrades_but_does_not_block_siblings() {
    let mut realm = executed_scenario();
    realm.flag_transaction_error(0, 0, 1, 1, 0).unwrap();
    assert_eq!(realm.proposals[0].state, ProposalState::ExecutingWithErrors);
    assert!(realm.proposals[0].options[1].transactions[0].error_flagged);
    // The sibling on option A still executes.
    realm.execute_transaction(0, 0, 0, 0, 1000).unwrap();
    assert!(realm.proposals[0].options[0].transactions[0].executed);
}

#[test]
fn executed_transaction_cannot_be_flagged() {
    let mut realm = executed_scenario();
    realm.execute_transaction(0, 0, 0, 0, 1000).unwrap();
    assert_eq!(
        realm.flag_transaction_error(0, 0, 1, 0, 0),
        Err(GovernanceError::TransactionAlreadyExecuted)
    );
}

#[test]
fn transactions_frozen_once_voting_starts() {
    let mut realm = base_realm();
    realm
        .create_proposal(
            0,
            0,
            1,
            1,
            "p".to_string(),
            "l".to_string(),
            VoteKind::SingleChoice,
            vec!["yes".to_string()],
            false,
            0,
        )
        .unwrap();
    realm.insert_transaction(0, 0, 1, 0, 0, 0, vec![1]).unwrap();
    assert_eq!(
        realm.insert_transaction(0, 0, 1, 0, 5, 0, vec![2]),
        Err(GovernanceError::InvalidTransactionIndex)
    );
    assert_eq!(
        realm.insert_transaction(0, 0, 1, 9, 0, 0, vec![2]),
        Err(GovernanceError::InvalidOptionIndex)
    );
    realm.sign_off_proposal(0, 1).unwrap();
    realm.insert_transaction(0, 0, 1, 0, 1, 0, vec![2]).unwrap();
    realm.remove_transaction(0, 0, 1, 0, 1).unwrap();
    realm.start_voting(0, 0, 1, 0).unwrap();
    assert_eq!(
        realm.insert_transaction(0, 0, 1, 0, 1, 0, vec![3]),
        Err(GovernanceError::InvalidProposalState)
    );
    assert_eq!(
        realm.remove_transaction(0, 0, 1, 0, 0),
        Err(GovernanceError::InvalidProposalState)
    );
}

#[test]
fn execute_on_defeated_option_rejected() {
    let mut realm = base_realm();
    realm
        .create_proposal(
            0,
            0,
            1,
            1,
            "p".to_string(),
            "l".to_string(),
            VoteKind::MultiChoice,
            vec!["a".to_string(), "b".to_string()],
            false,
            0,
        )
        .unwrap();
    realm.insert_transaction(0, 0, 1, 1, 0, 0, vec![9]).unwrap();
    realm.sign_off_proposal(0, 1).unwrap();
    realm.start_voting(0, 0, 1, 0).unwrap();
    // Only option A gets weight; option B stays below the threshold.
    realm
        .cast_vote(0, 0, 0, 1, BallotChoice::Approve(vec![true, false]), None, 1)
        .unwrap();
    realm.finalize_vote(0, 0, 1000).unwrap();
    assert_eq!(realm.proposals[0].state, ProposalState::Succeeded);
    assert_eq!(realm.proposals[0].options[1].result, OptionVoteResult::Defeated);
    assert_eq!(
        realm.execute_transaction(0, 0, 1, 0, 1000),
        Err(GovernanceError::OptionNotSucceeded)
    );
}

#[test]
fn cancel_is_a_no_op_on_terminal_states() {
    let mut realm = base_realm();
    realm
        .create_proposal(
            0,
            0,
            1,
            1,
            "p".to_string(),
            "l".to_string(),
            VoteKind::SingleChoice,
            vec!["yes".to_string()],
            false,
            0,
        )
        .unwrap();
    realm.cancel_proposal(0, 0, 1).unwrap();
    assert_eq!(realm.proposals[0].state, ProposalState::Cancelled);
    // Cancelling again deterministically does nothing and still succeeds.
    let before = realm.clone();
    realm.cancel_proposal(0, 0, 1).unwrap();
    assert_eq!(realm, before);
}

#[test]
fn succeeded_proposal_cannot_be_cancelled() {
    let mut realm = executed_scenario();
    assert_eq!(realm.cancel_proposal(0, 0, 1), Err(GovernanceError::InvalidProposalState));
}

#[test]
fn council_veto_only_during_voting_and_only_by_council() {
    let mut realm = base_realm();
    realm
        .create_proposal(
            0,
            0,
            1,
            1,
            "p".to_string(),
            "l".to_string(),
            VoteKind::SingleChoice,
            vec!["yes".to_string()],
            false,
            0,
        )
        .unwrap();
    assert_eq!(realm.veto_proposal(0, COUNCIL, 1), Err(GovernanceError::InvalidProposalState));
    realm.sign_off_proposal(0, 1).unwrap();
    realm.start_voting(0, 0, 1, 0).unwrap();
    assert_eq!(realm.veto_proposal(0, 999, 1), Err(GovernanceError::NotAuthorized));
    realm.veto_proposal(0, COUNCIL, 5).unwrap();
    assert_eq!(realm.proposals[0].state, ProposalState::Vetoed);
    assert_eq!(realm.proposals[0].voting_completed_at, Some(5));
    // Vetoed is terminal: the deposit is refundable.
    assert_eq!(realm.refund_proposal_deposit(0), Ok(25));
}

#[test]
fn governance_config_changes_only_through_an_executed_proposal() {
    let mut realm = executed_scenario();
    // Add a second governance so a mismatched grant can be tried.
    realm
        .create_governance(
            REALM_AUTHORITY,
            None,
            GovernedResourceKind::Mint,
            43,
            config(10, 10),
        )
        .unwrap();
    let (grant, _) = realm.execute_transaction(0, 0, 0, 0, 1000).unwrap();
    let new_cfg = config(75, 40);
    // The grant names governance 0, not governance 1.
    assert_eq!(
        realm.set_governance_config(1, new_cfg, &grant),
        Err(GovernanceError::InvalidGrant)
    );
    realm.set_governance_config(0, new_cfg, &grant).unwrap();
    assert_eq!(realm.governances[0].config.vote_threshold_percentage, 75);
    let mut bad = new_cfg;
    bad.vote_threshold_percentage = 0;
    assert_eq!(
        realm.set_governance_config(0, bad, &grant),
        Err(GovernanceError::InvalidConfig)
    );
}

#[test]
fn realm_authority_transfer_checked_against_governances() {
    let mut realm = base_realm();
    assert_eq!(
        realm.set_realm_authority(999, RealmAuthorityAction::Remove),
        Err(GovernanceError::NotAuthorized)
    );
    assert_eq!(
        realm.set_realm_authority(REALM_AUTHORITY, RealmAuthorityAction::SetChecked(12345)),
        Err(GovernanceError::AccountMismatch)
    );
    let gov_key = realm.governances[0].key;
    realm
        .set_realm_authority(REALM_AUTHORITY, RealmAuthorityAction::SetChecked(gov_key))
        .unwrap();
    assert_eq!(realm.authority, Some(gov_key));
    realm.set_realm_authority(gov_key, RealmAuthorityAction::Remove).unwrap();
    assert_eq!(realm.authority, None);
}

#[test]
fn single_choice_proposal_needs_exactly_one_option() {
    let mut realm = base_realm();
    assert_eq!(
        realm.create_proposal(
            0,
            0,
            1,
            1,
            "p".to_string(),
            "l".to_string(),
            VoteKind::SingleChoice,
            vec!["a".to_string(), "b".to_string()],
            false,
            0,
        ),
        Err(GovernanceError::InvalidOptions)
    );
    assert_eq!(
        realm.create_governance(
            REALM_AUTHORITY,
            None,
            GovernedResourceKind::Treasury,
            9,
            GovernanceConfig { vote_threshold_percentage: 0, ..config(10, 10) },
        ),
        Err(GovernanceError::InvalidConfig)
    );
}
