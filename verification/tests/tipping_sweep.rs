//! Compares early tipping against full-duration tallying across a sweep of
//! weight distributions: whenever a vote tips early, a twin realm that never
//! tips receives the same ballots plus the worst-case fill of all remaining
//! weight, and must finalize to the very same outcome.

use spl_governance::config::{GovernanceConfig, VoteTipping};
use spl_governance::proposal::VoteKind;
use spl_governance::realm::{GovernedResourceKind, Realm};
use spl_governance::records::BallotChoice;
use spl_governance::state::ProposalState;

const REALM_AUTHORITY: u64 = 1000;

fn config(tipping: VoteTipping) -> GovernanceConfig {
    GovernanceConfig {
        vote_threshold_percentage: 60,
        quorum_weight: 30,
        min_voting_time: 0,
        max_voting_time: 1000,
        vote_tipping: tipping,
        cool_off_time: 0,
        proposal_deposit: 0,
        min_weight_to_create_proposal: 0,
    }
}

/// Owner 1 holds `approve`, owner 2 holds `deny`, owner 3 the rest of 100.
fn realm_in_voting(tipping: VoteTipping, approve: u64, deny: u64) -> Realm {
    let mut realm = Realm::new("dao".to_string(), 7, None, Some(REALM_AUTHORITY), 0);
    for (owner, amount) in [(1u64, approve), (2, deny), (3, 100 - approve - deny)] {
        let i = realm.create_token_owner_record(owner).unwrap();
        realm.deposit_governing_tokens(i, amount).unwrap();
    }
    realm
        .create_governance(
            REALM_AUTHORITY,
            None,
            GovernedResourceKind::Treasury,
            42,
            config(tipping),
        )
        .unwrap();
    realm
        .create_proposal(
            0,
            0,
            1,
            1,
            "p".to_string(),
            "l".to_string(),
            VoteKind::SingleChoice,
            vec!["yes".to_string()],
            true,
            0,
        )
        .unwrap();
    realm.sign_off_proposal(0, 1).unwrap();
    realm.start_voting(0, 0, 1, 0).unwrap();
    realm
}

fn cast_committed(realm: &mut Realm, approve: u64, deny: u64) {
    // A ballot may tip the vote; later ballots then stay uncast, exactly as
    // they would on chain once the proposal left the voting state.
    if approve > 0 && realm.proposals[0].state == ProposalState::Voting {
        realm
            .cast_vote(0, 0, 0, 1, BallotChoice::Approve(vec![true]), None, 1)
            .unwrap();
    }
    if deny > 0 && realm.proposals[0].state == ProposalState::Voting {
        realm.cast_vote(0, 0, 1, 2, BallotChoice::Deny, None, 1).unwrap();
    }
}

/// Full-duration outcome with the remaining weight filled in adversarially:
/// all of it votes deny when the leader tipped to Succeeded, all of it
/// approves when the vote tipped to Defeated.
fn adversarial_finalize(approve: u64, deny: u64, fill_approves: bool) -> ProposalState {
    let mut full = realm_in_voting(VoteTipping::Disabled, approve, deny);
    cast_committed(&mut full, approve, deny);
    let remaining = 100 - approve - deny;
    if remaining > 0 {
        let ballot = if fill_approves {
            BallotChoice::Approve(vec![true])
        } else {
            BallotChoice::Deny
        };
        full.cast_vote(0, 0, 2, 3, ballot, None, 2).unwrap();
    }
    full.finalize_vote(0, 0, 1000).unwrap();
    full.proposals[0].state
}

#[test]
fn early_tip_agrees_with_adversarial_full_tally() {
    let mut tipped_somewhere = false;
    for approve_step in 0..=10u64 {
        for deny_step in 0..=(10 - approve_step) {
            let approve = approve_step * 10;
            let deny = deny_step * 10;
            let mut early = realm_in_voting(VoteTipping::Early, approve, deny);
            cast_committed(&mut early, approve, deny);
            match early.proposals[0].state {
                ProposalState::Succeeded => {
                    tipped_somewhere = true;
                    assert_eq!(
                        adversarial_finalize(approve, deny, false),
                        ProposalState::Succeeded,
                        "tipped to Succeeded at approve={approve} deny={deny}, but a full \
                         window with all remaining weight denying would disagree"
                    );
                }
                ProposalState::Defeated => {
                    tipped_somewhere = true;
                    assert_eq!(
                        adversarial_finalize(approve, deny, true),
                        ProposalState::Defeated,
                        "tipped to Defeated at approve={approve} deny={deny}, but a full \
                         window with all remaining weight approving would disagree"
                    );
                }
                _ => {}
            }
        }
    }
    assert!(tipped_somewhere);
}

#[test]
fn tipped_and_untipped_realms_agree_when_everyone_has_voted() {
    // With no weight left over, tipping and finalizing see the same tallies.
    for approve_step in 0..=10u64 {
        let approve = approve_step * 10;
        let deny = 100 - approve;
        let mut early = realm_in_voting(VoteTipping::Early, approve, deny);
        cast_committed(&mut early, approve, deny);
        let mut full = realm_in_voting(VoteTipping::Disabled, approve, deny);
        cast_committed(&mut full, approve, deny);
        full.finalize_vote(0, 0, 1000).unwrap();
        // With all 100 committed the early realm always tips one way.
        assert_eq!(early.proposals[0].state, full.proposals[0].state,
            "divergence at approve={approve} deny={deny}");
    }
}
