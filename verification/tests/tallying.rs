use spl_governance::config::{GovernanceConfig, VoteTipping};
use spl_governance::errors::GovernanceError;
use spl_governance::proposal::{OptionVoteResult, VoteKind};
use spl_governance::realm::{GovernedResourceKind, Realm};
use spl_governance::records::{BallotChoice, VoterWeightAttestation};
use spl_governance::state::ProposalState;

const REALM_AUTHORITY: u64 = 1000;

fn config(threshold: u8, quorum: u64, tipping: VoteTipping) -> GovernanceConfig {
    GovernanceConfig {
        vote_threshold_percentage: threshold,
        quorum_weight: quorum,
        min_voting_time: 0,
        max_voting_time: 1000,
        vote_tipping: tipping,
        cool_off_time: 0,
        proposal_deposit: 25,
        min_weight_to_create_proposal: 1,
    }
}

/// Realm with three owners (keys 1, 2, 3) holding 50, 20 and 30, one
/// governance, and one single-choice proposal already in voting with a
/// max-weight snapshot of 100.
fn realm_in_voting(threshold: u8, quorum: u64, tipping: VoteTipping, use_deny: bool) -> Realm {
    let mut realm = Realm::new("dao".to_string(), 7, None, Some(REALM_AUTHORITY), 0);
    for (owner, amount) in [(1u64, 50u64), (2, 20), (3, 30)] {
        let i = realm.create_token_owner_record(owner).unwrap();
        realm.deposit_governing_tokens(i, amount).unwrap();
    }
    realm
        .create_governance(
            REALM_AUTHORITY,
            None,
            GovernedResourceKind::Treasury,
            42,
            config(threshold, quorum, tipping),
        )
        .unwrap();
    realm
        .create_proposal(
            0,
            0,
            1,
            1,
            "raise".to_string(),
            "link".to_string(),
            VoteKind::SingleChoice,
            vec!["yes".to_string()],
            use_deny,
            0,
        )
        .unwrap();
    realm.sign_off_proposal(0, 1).unwrap();
    realm.start_voting(0, 0, 1, 0).unwrap();
    assert_eq!(realm.proposals[0].max_voting_weight, 100);
    realm
}

#[test]
fn threshold_met_with_quorum_met_succeeds_at_finalize() {
    // Threshold 60% of max 100; votes 50 + 20 = 70 >= 60; quorum 50 met.
    let mut realm = realm_in_voting(60, 50, VoteTipping::Disabled, false);
    realm
        .cast_vote(0, 0, 0, 1, BallotChoice::Approve(vec![true]), None, 1)
        .unwrap();
    realm
        .cast_vote(0, 0, 1, 2, BallotChoice::Approve(vec![true]), None, 2)
        .unwrap();
    assert_eq!(realm.proposals[0].state, ProposalState::Voting);
    realm.finalize_vote(0, 0, 1000).unwrap();
    assert_eq!(realm.proposals[0].state, ProposalState::Succeeded);
    assert_eq!(realm.proposals[0].options[0].result, OptionVoteResult::Succeeded);
}

#[test]
fn quorum_uses_max_weight_not_turnout() {
    // Same votes, quorum 80: 70 cast < 80, Defeated despite passing 60%.
    let mut realm = realm_in_voting(60, 80, VoteTipping::Disabled, false);
    realm
        .cast_vote(0, 0, 0, 1, BallotChoice::Approve(vec![true]), None, 1)
        .unwrap();
    realm
        .cast_vote(0, 0, 1, 2, BallotChoice::Approve(vec![true]), None, 2)
        .unwrap();
    realm.finalize_vote(0, 0, 1000).unwrap();
    assert_eq!(realm.proposals[0].state, ProposalState::Defeated);
}

#[test]
fn threshold_counts_against_snapshot_not_cast_weight() {
    // 20 of 100 cast, all approving: 20 < 60% of 100, Defeated.
    let mut realm = realm_in_voting(60, 10, VoteTipping::Disabled, false);
    realm
        .cast_vote(0, 0, 1, 2, BallotChoice::Approve(vec![true]), None, 1)
        .unwrap();
    realm.finalize_vote(0, 0, 1000).unwrap();
    assert_eq!(realm.proposals[0].state, ProposalState::Defeated);
}

#[test]
fn tie_with_deny_is_defeated() {
    let mut realm = realm_in_voting(40, 10, VoteTipping::Disabled, true);
    realm
        .cast_vote(0, 0, 0, 1, BallotChoice::Approve(vec![true]), None, 1)
        .unwrap();
    // Owners 2 and 3 together deny 50: approve 50 == deny 50, a tie loses.
    realm.cast_vote(0, 0, 1, 2, BallotChoice::Deny, None, 2).unwrap();
    realm.cast_vote(0, 0, 2, 3, BallotChoice::Deny, None, 3).unwrap();
    realm.finalize_vote(0, 0, 1000).unwrap();
    assert_eq!(realm.proposals[0].state, ProposalState::Defeated);
}

#[test]
fn strict_tipping_decides_early_when_unbeatable() {
    // Threshold 60, quorum 50. Owner 1 (50) and owner 3 (30) approve: 80
    // cast, remaining 20 can never push deny past 80, so the vote tips.
    let mut realm = realm_in_voting(60, 50, VoteTipping::Strict, true);
    realm
        .cast_vote(0, 0, 0, 1, BallotChoice::Approve(vec![true]), None, 1)
        .unwrap();
    assert_eq!(realm.proposals[0].state, ProposalState::Voting);
    realm
        .cast_vote(0, 0, 2, 3, BallotChoice::Approve(vec![true]), None, 2)
        .unwrap();
    assert_eq!(realm.proposals[0].state, ProposalState::Succeeded);
    assert_eq!(realm.proposals[0].options[0].result, OptionVoteResult::Succeeded);
    assert_eq!(realm.proposals[0].voting_completed_at, Some(2));
}

#[test]
fn strict_tipping_waits_while_remaining_weight_could_overturn() {
    // 50 approve, 30 deny: the remaining 20 could lift deny to 50 == 50,
    // a tie, which defeats the option — so no early success.
    let mut realm = realm_in_voting(40, 10, VoteTipping::Strict, true);
    realm
        .cast_vote(0, 0, 0, 1, BallotChoice::Approve(vec![true]), None, 1)
        .unwrap();
    realm.cast_vote(0, 0, 2, 3, BallotChoice::Deny, None, 2).unwrap();
    assert_eq!(realm.proposals[0].state, ProposalState::Voting);
}

#[test]
fn early_tipping_defeats_when_threshold_is_unreachable() {
    // Threshold 90: even 30 + remaining 50 = 80 < 90 once 20 denied... use
    // deny 50 by owner 1: remaining 50 approving gives at most 50 < 90.
    let mut realm = realm_in_voting(90, 10, VoteTipping::Early, true);
    realm.cast_vote(0, 0, 0, 1, BallotChoice::Deny, None, 1).unwrap();
    assert_eq!(realm.proposals[0].state, ProposalState::Defeated);
    assert_eq!(realm.proposals[0].options[0].result, OptionVoteResult::Defeated);
}

#[test]
fn strict_mode_never_tips_to_defeated() {
    let mut realm = realm_in_voting(90, 10, VoteTipping::Strict, true);
    realm.cast_vote(0, 0, 0, 1, BallotChoice::Deny, None, 1).unwrap();
    assert_eq!(realm.proposals[0].state, ProposalState::Voting);
}

#[test]
fn cast_before_cool_off_rejected() {
    let mut realm = Realm::new("dao".to_string(), 7, None, Some(REALM_AUTHORITY), 0);
    let i = realm.create_token_owner_record(1).unwrap();
    realm.deposit_governing_tokens(i, 100).unwrap();
    let mut cfg = config(60, 10, VoteTipping::Disabled);
    cfg.cool_off_time = 100;
    realm
        .create_governance(REALM_AUTHORITY, None, GovernedResourceKind::Treasury, 42, cfg)
        .unwrap();
    realm
        .create_proposal(
            0,
            0,
            1,
            1,
            "p".to_string(),
            "l".to_string(),
            VoteKind::SingleChoice,
            vec!["yes".to_string()],
            false,
            0,
        )
        .unwrap();
    realm.sign_off_proposal(0, 1).unwrap();
    realm.start_voting(0, 0, 1, 0).unwrap();
    assert_eq!(
        realm.cast_vote(0, 0, 0, 1, BallotChoice::Approve(vec![true]), None, 50),
        Err(GovernanceError::CoolOffNotOver)
    );
    assert!(realm
        .cast_vote(0, 0, 0, 1, BallotChoice::Approve(vec![true]), None, 150)
        .is_ok());
}

#[test]
fn cast_after_window_rejected() {
    let mut realm = realm_in_voting(60, 50, VoteTipping::Disabled, false);
    assert_eq!(
        realm.cast_vote(0, 0, 0, 1, BallotChoice::Approve(vec![true]), None, 1000),
        Err(GovernanceError::VotingExpired)
    );
}

#[test]
fn finalize_before_window_elapsed_rejected() {
    let mut realm = realm_in_voting(60, 50, VoteTipping::Disabled, false);
    assert_eq!(realm.finalize_vote(0, 0, 999), Err(GovernanceError::VotingTimeNotOver));
    assert!(realm.finalize_vote(0, 0, 1000).is_ok());
}

#[test]
fn second_vote_by_same_owner_rejected() {
    let mut realm = realm_in_voting(60, 50, VoteTipping::Disabled, false);
    realm
        .cast_vote(0, 0, 0, 1, BallotChoice::Approve(vec![true]), None, 1)
        .unwrap();
    assert_eq!(
        realm.cast_vote(0, 0, 0, 1, BallotChoice::Approve(vec![true]), None, 2),
        Err(GovernanceError::VoteAlreadyExists)
    );
}

#[test]
fn fresh_attestation_overrides_deposit_weight() {
    let mut realm = realm_in_voting(60, 10, VoteTipping::Disabled, false);
    let key = realm.proposals[0].key;
    // Owner 2 holds 20 deposited but attests 45 for this proposal.
    let att = VoterWeightAttestation { owner: 2, proposal_key: key, weight: 45, expires_at: 10 };
    realm
        .cast_vote(0, 0, 1, 2, BallotChoice::Approve(vec![true]), Some(att), 5)
        .unwrap();
    assert_eq!(realm.proposals[0].options[0].vote_weight, 45);
}

#[test]
fn stale_or_misbound_attestation_rejected() {
    let mut realm = realm_in_voting(60, 10, VoteTipping::Disabled, false);
    let key = realm.proposals[0].key;
    let stale = VoterWeightAttestation { owner: 2, proposal_key: key, weight: 45, expires_at: 3 };
    assert_eq!(
        realm.cast_vote(0, 0, 1, 2, BallotChoice::Approve(vec![true]), Some(stale), 5),
        Err(GovernanceError::InvalidAttestation)
    );
    let wrong_owner =
        VoterWeightAttestation { owner: 9, proposal_key: key, weight: 45, expires_at: 10 };
    assert_eq!(
        realm.cast_vote(0, 0, 1, 2, BallotChoice::Approve(vec![true]), Some(wrong_owner), 5),
        Err(GovernanceError::InvalidAttestation)
    );
}

#[test]
fn deny_ballot_needs_deny_option() {
    let mut realm = realm_in_voting(60, 50, VoteTipping::Disabled, false);
    assert_eq!(
        realm.cast_vote(0, 0, 0, 1, BallotChoice::Deny, None, 1),
        Err(GovernanceError::InvalidOptions)
    );
}

#[test]
fn zero_weight_voter_rejected() {
    let mut realm = realm_in_voting(60, 50, VoteTipping::Disabled, false);
    let i = realm.create_token_owner_record(4).unwrap();
    assert_eq!(
        realm.cast_vote(0, 0, i, 4, BallotChoice::Approve(vec![true]), None, 1),
        Err(GovernanceError::InsufficientVotingWeight)
    );
}

#[test]
fn weight_beyond_snapshot_rejected() {
    let mut realm = realm_in_voting(60, 50, VoteTipping::Disabled, false);
    // A deposit made after the snapshot cannot be spent on this proposal.
    realm.deposit_governing_tokens(0, 100).unwrap();
    assert_eq!(
        realm.cast_vote(0, 0, 0, 1, BallotChoice::Approve(vec![true]), None, 1),
        Err(GovernanceError::VoteWeightExceedsSnapshot)
    );
}

#[test]
fn relinquish_during_voting_removes_weight() {
    let mut realm = realm_in_voting(60, 50, VoteTipping::Disabled, false);
    realm
        .cast_vote(0, 0, 0, 1, BallotChoice::Approve(vec![true]), None, 1)
        .unwrap();
    assert_eq!(realm.proposals[0].options[0].vote_weight, 50);
    assert_eq!(realm.proposals[0].total_cast_weight, 50);
    realm.relinquish_vote(0, 0, 0, 1).unwrap();
    assert_eq!(realm.proposals[0].options[0].vote_weight, 0);
    assert_eq!(realm.proposals[0].total_cast_weight, 0);
    assert!(realm.vote_records[0].is_relinquished);
}

#[test]
fn relinquish_after_completion_keeps_tallies() {
    let mut realm = realm_in_voting(60, 50, VoteTipping::Disabled, false);
    realm
        .cast_vote(0, 0, 0, 1, BallotChoice::Approve(vec![true]), None, 1)
        .unwrap();
    realm
        .cast_vote(0, 0, 1, 2, BallotChoice::Approve(vec![true]), None, 2)
        .unwrap();
    realm.finalize_vote(0, 0, 1000).unwrap();
    realm.relinquish_vote(0, 0, 0, 1).unwrap();
    assert_eq!(realm.proposals[0].options[0].vote_weight, 70);
    assert!(realm.vote_records[0].is_relinquished);
    assert_eq!(
        realm.relinquish_vote(0, 0, 0, 1),
        Err(GovernanceError::VoteAlreadyRelinquished)
    );
}
