use spl_governance::config::{GovernanceConfig, VoteTipping};
use spl_governance::errors::GovernanceError;
use spl_governance::instruction::{process_instruction, GovernanceInstruction,
    InstructionOutcome};
use spl_governance::proposal::VoteKind;
use spl_governance::realm::{GovernedResourceKind, Realm};
use spl_governance::records::BallotChoice;
use spl_governance::state::ProposalState;

const REALM_AUTHORITY: u64 = 1000;

fn config() -> GovernanceConfig {
    GovernanceConfig {
        vote_threshold_percentage: 60,
        quorum_weight: 10,
        min_voting_time: 0,
        max_voting_time: 1000,
        vote_tipping: VoteTipping::Disabled,
        cool_off_time: 0,
        proposal_deposit: 25,
        min_weight_to_create_proposal: 1,
    }
}

fn realm_with_two_owners() -> Realm {
    let mut realm = Realm::new("dao".to_string(), 7, None, Some(REALM_AUTHORITY), 0);
    for (owner, amount) in [(1u64, 60u64), (2, 40)] {
        let i = realm.create_token_owner_record(owner).unwrap();
        realm.deposit_governing_tokens(i, amount).unwrap();
    }
    realm
        .create_governance(REALM_AUTHORITY, None, GovernedResourceKind::Treasury, 42, config())
        .unwrap();
    realm
}

fn unrelinquished_records_of(realm: &Realm, owner: u64) -> u64 {
    let mut n = 0u64;
    for r in realm.vote_records.iter() {
        if r.voter == owner && !r.is_relinquished {
            n += 1;
        }
    }
    n
}

#[test]
fn vote_counter_always_matches_unrelinquished_records() {
    let mut realm = realm_with_two_owners();
    for p in 0..2usize {
        realm
            .create_proposal(
                0,
                0,
                1,
                1,
                format!("p{}", p),
                "l".to_string(),
                VoteKind::SingleChoice,
                vec!["yes".to_string()],
                false,
                0,
            )
            .unwrap();
        realm.sign_off_proposal(p, 1).unwrap();
        realm.start_voting(p, 0, 1, 0).unwrap();
    }
    assert_eq!(realm.token_owner_records[0].unrelinquished_votes_count, 0);
    realm
        .cast_vote(0, 0, 0, 1, BallotChoice::Approve(vec![true]), None, 1)
        .unwrap();
    realm
        .cast_vote(1, 0, 0, 1, BallotChoice::Approve(vec![true]), None, 1)
        .unwrap();
    realm.cast_vote(0, 0, 1, 2, BallotChoice::Approve(vec![true]), None, 1).unwrap();
    for owner in [1u64, 2] {
        let i = if owner == 1 { 0 } else { 1 };
        assert_eq!(
            realm.token_owner_records[i].unrelinquished_votes_count,
            unrelinquished_records_of(&realm, owner)
        );
    }
    realm.relinquish_vote(0, 0, 0, 1).unwrap();
    assert_eq!(realm.token_owner_records[0].unrelinquished_votes_count, 1);
    assert_eq!(unrelinquished_records_of(&realm, 1), 1);
    realm.finalize_vote(1, 0, 1000).unwrap();
    // Finalizing does not release weight by itself; relinquishing does.
    assert_eq!(realm.token_owner_records[0].unrelinquished_votes_count, 1);
    realm.relinquish_vote(1, 0, 1, 1).unwrap();
    assert_eq!(realm.token_owner_records[0].unrelinquished_votes_count, 0);
    assert_eq!(unrelinquished_records_of(&realm, 1), 0);
}

#[test]
fn withdrawal_blocked_until_votes_relinquished() {
    let mut realm = realm_with_two_owners();
    realm
        .create_proposal(
            0,
            0,
            1,
            1,
            "p".to_string(),
            "l".to_string(),
            VoteKind::SingleChoice,
            vec!["yes".to_string()],
            false,
            0,
        )
        .unwrap();
    // Owner 1 has an outstanding (pre-voting) proposal.
    assert_eq!(
        realm.withdraw_governing_tokens(0),
        Err(GovernanceError::OutstandingProposals)
    );
    realm.sign_off_proposal(0, 1).unwrap();
    realm.start_voting(0, 0, 1, 0).unwrap();
    realm
        .cast_vote(0, 0, 1, 2, BallotChoice::Approve(vec![true]), None, 1)
        .unwrap();
    assert_eq!(realm.withdraw_governing_tokens(1), Err(GovernanceError::OutstandingVotes));
    realm.relinquish_vote(0, 1, 0, 2).unwrap();
    assert_eq!(realm.withdraw_governing_tokens(1), Ok(40));
    assert_eq!(realm.token_owner_records[1].deposited_amount, 0);
    assert_eq!(realm.total_deposited, 60);
}

#[test]
fn delegate_may_vote_for_the_owner() {
    let mut realm = realm_with_two_owners();
    realm
        .create_proposal(
            0,
            0,
            1,
            1,
            "p".to_string(),
            "l".to_string(),
            VoteKind::SingleChoice,
            vec!["yes".to_string()],
            false,
            0,
        )
        .unwrap();
    realm.sign_off_proposal(0, 1).unwrap();
    realm.start_voting(0, 0, 1, 0).unwrap();
    // Owner 2 delegates to 77; a stranger still cannot vote.
    realm.set_governance_delegate(1, 2, Some(77)).unwrap();
    assert_eq!(
        realm.cast_vote(0, 0, 1, 88, BallotChoice::Approve(vec![true]), None, 1),
        Err(GovernanceError::NotAuthorized)
    );
    realm
        .cast_vote(0, 0, 1, 77, BallotChoice::Approve(vec![true]), None, 1)
        .unwrap();
    // The record belongs to the owner, not the delegate.
    assert_eq!(realm.vote_records[0].voter, 2);
    assert_eq!(realm.proposals[0].options[0].vote_weight, 40);
}

#[test]
fn revoke_requires_realm_authority_and_enough_deposit() {
    let mut realm = realm_with_two_owners();
    assert_eq!(
        realm.revoke_governing_tokens(0, 999, 10),
        Err(GovernanceError::NotAuthorized)
    );
    assert_eq!(
        realm.revoke_governing_tokens(0, REALM_AUTHORITY, 100),
        Err(GovernanceError::InsufficientDeposit)
    );
    realm.revoke_governing_tokens(0, REALM_AUTHORITY, 10).unwrap();
    assert_eq!(realm.token_owner_records[0].deposited_amount, 50);
    assert_eq!(realm.total_deposited, 90);
}

#[test]
fn one_record_per_owner() {
    let mut realm = realm_with_two_owners();
    assert_eq!(
        realm.create_token_owner_record(1),
        Err(GovernanceError::OwnerRecordAlreadyExists)
    );
    assert_eq!(
        realm.deposit_governing_tokens(9, 1),
        Err(GovernanceError::InvalidAccountIndex)
    );
}

#[test]
fn deposit_overflow_is_rejected_atomically() {
    let mut realm = Realm::new("dao".to_string(), 7, None, Some(REALM_AUTHORITY), 0);
    let i = realm.create_token_owner_record(1).unwrap();
    realm.deposit_governing_tokens(i, u64::MAX).unwrap();
    let before = realm.clone();
    assert_eq!(
        realm.deposit_governing_tokens(i, 1),
        Err(GovernanceError::ArithmeticOverflow)
    );
    assert_eq!(realm, before);
}

#[test]
fn dispatch_runs_a_whole_proposal_through() {
    let mut realm = Realm::new("dao".to_string(), 7, None, Some(REALM_AUTHORITY), 0);
    let outcome = process_instruction(
        &mut realm,
        GovernanceInstruction::CreateTokenOwnerRecord { owner: 1 },
        0,
    )
    .unwrap();
    assert!(matches!(outcome, InstructionOutcome::RecordCreated { index: 0 }));
    process_instruction(
        &mut realm,
        GovernanceInstruction::DepositGoverningTokens { tor_index: 0, amount: 100 },
        0,
    )
    .unwrap();
    process_instruction(
        &mut realm,
        GovernanceInstruction::CreateGovernance {
            authority: REALM_AUTHORITY,
            creator_tor_index: None,
            resource_kind: GovernedResourceKind::Treasury,
            governed_resource: 42,
            config: config(),
        },
        0,
    )
    .unwrap();
    process_instruction(
        &mut realm,
        GovernanceInstruction::CreateProposal {
            gov_index: 0,
            tor_index: 0,
            authority: 1,
            payer: 1,
            name: "p".to_string(),
            description_link: "l".to_string(),
            vote_kind: VoteKind::SingleChoice,
            option_labels: vec!["yes".to_string()],
            use_deny_option: false,
        },
        0,
    )
    .unwrap();
    process_instruction(
        &mut realm,
        GovernanceInstruction::InsertTransaction {
            prop_index: 0,
            tor_index: 0,
            authority: 1,
            option_index: 0,
            index: 0,
            hold_up_time: 0,
            instructions: vec![1, 2, 3],
        },
        0,
    )
    .unwrap();
    process_instruction(
        &mut realm,
        GovernanceInstruction::SignOffProposal { prop_index: 0, signatory: 1 },
        0,
    )
    .unwrap();
    process_instruction(
        &mut realm,
        GovernanceInstruction::StartVoting { prop_index: 0, tor_index: 0, authority: 1 },
        0,
    )
    .unwrap();
    process_instruction(
        &mut realm,
        GovernanceInstruction::CastVote {
            prop_index: 0,
            gov_index: 0,
            tor_index: 0,
            authority: 1,
            ballot: BallotChoice::Approve(vec![true]),
            attestation: None,
        },
        1,
    )
    .unwrap();
    process_instruction(
        &mut realm,
        GovernanceInstruction::FinalizeVote { prop_index: 0, gov_index: 0 },
        1000,
    )
    .unwrap();
    assert_eq!(realm.proposals[0].state, ProposalState::Succeeded);
    let executed = process_instruction(
        &mut realm,
        GovernanceInstruction::ExecuteTransaction {
            prop_index: 0,
            gov_index: 0,
            option_index: 0,
            tx_index: 0,
        },
        1001,
    )
    .unwrap();
    match executed {
        InstructionOutcome::Executed { grant, instructions } => {
            assert_eq!(instructions, vec![1, 2, 3]);
            assert_eq!(grant.governance_key(), realm.governances[0].key);
            process_instruction(
                &mut realm,
                GovernanceInstruction::SetGovernanceConfig {
                    gov_index: 0,
                    config: GovernanceConfig { quorum_weight: 99, ..config() },
                    grant,
                },
                1002,
            )
            .unwrap();
            assert_eq!(realm.governances[0].config.quorum_weight, 99);
        },
        _ => panic!("expected an executed transaction"),
    }
    process_instruction(
        &mut realm,
        GovernanceInstruction::CompleteProposal { prop_index: 0, tor_index: 0, authority: 1 },
        1003,
    )
    .unwrap();
    let refunded = process_instruction(
        &mut realm,
        GovernanceInstruction::RefundProposalDeposit { prop_index: 0 },
        1004,
    )
    .unwrap();
    assert!(matches!(refunded, InstructionOutcome::DepositRefunded { amount: 25 }));
    // A failing instruction leaves the realm untouched.
    let before = realm.clone();
    assert!(process_instruction(
        &mut realm,
        GovernanceInstruction::WithdrawGoverningTokens { tor_index: 9 },
        1005,
    )
    .is_err());
    assert_eq!(realm, before);
}
