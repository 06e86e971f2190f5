//! Casting, relinquishing and finalizing votes. Casting re-checks the voting
//! window lazily against the supplied clock, applies the ballot to the
//! running tallies, and — when the outcome is already mathematically fixed —
//! tips the proposal early; finalizing evaluates every option against the
//! threshold, deny and quorum rules.

use vstd::prelude::*;
use crate::config::{GovernanceConfig, VoteTipping};
use crate::errors::GovernanceError;
use crate::proposal::{Proposal, ProposalOption, OptionVoteResult, VoteKind};
use crate::realm::{Realm, owner_present, lemma_owner_present_update};
use crate::records::{
    TokenOwnerRecord, VoteRecord, BallotChoice, VoterWeightAttestation, active_vote_count,
    active_for, lemma_count_push, lemma_count_update, lemma_count_index_positive,
    lemma_sum_update, spec_owner_or_delegate, is_owner_or_delegate, spec_attestation_valid,
};
use crate::state::ProposalState;
use crate::tally::{
    option_wins, can_tip_succeeded, can_tip_defeated, exec_meets_threshold,
    exec_can_tip_succeeded, exec_can_tip_defeated,
};

verus! {

/// The weight a ballot carries: the attested weight when an attestation is
/// presented, the deposited amount otherwise.
pub open spec fn spec_cast_weight(
    tor: TokenOwnerRecord,
    attestation: Option<VoterWeightAttestation>,
) -> u64 {
    match attestation {
        Some(a) => a.weight,
        None => tor.deposited_amount,
    }
}

/// Some record in `s` is this voter's vote on this proposal.
pub open spec fn spec_has_vote_record(s: Seq<VoteRecord>, proposal_key: u64, voter: u64)
    -> bool {
    exists|i: int|
        0 <= i < s.len() && (#[trigger] s[i]).proposal_key == proposal_key
            && s[i].voter == voter
}

/// How many flags are set.
pub open spec fn count_trues(s: Seq<bool>) -> nat
    decreases s.len(),
{
    if s.len() == 0 {
        0
    } else {
        count_trues(s.drop_last()) + (if s.last() { 1nat } else { 0nat })
    }
}

/// A ballot fits the proposal: approvals carry one flag per option with at
/// least one set — exactly one for single-choice — and deny ballots require
/// the deny option.
pub open spec fn spec_ballot_valid(p: Proposal, ballot: BallotChoice) -> bool {
    match ballot {
        BallotChoice::Approve(choices) => {
            &&& choices@.len() == p.options@.len()
            &&& count_trues(choices@) >= 1
            &&& (p.vote_kind == VoteKind::SingleChoice ==> count_trues(choices@) == 1)
        },
        BallotChoice::Deny => p.use_deny_option,
    }
}

/// Option tallies after an approve ballot: the voter's full weight is added
/// to every selected option.
pub open spec fn spec_options_after_approve(
    pre: Seq<ProposalOption>,
    choices: Seq<bool>,
    weight: u64,
) -> Seq<ProposalOption> {
    Seq::new(pre.len(), |i: int| ProposalOption {
        vote_weight: (pre[i].vote_weight + (if choices[i] { weight as int } else { 0int }))
            as u64,
        ..pre[i]
    })
}

/// Every accumulator the ballot touches stays within its machine width.
pub open spec fn spec_additions_fit(p: Proposal, ballot: BallotChoice, weight: u64) -> bool {
    match ballot {
        BallotChoice::Approve(choices) => forall|k: int|
            0 <= k < p.options@.len() && choices@.len() == p.options@.len() && choices@[k]
                ==> (#[trigger] p.options@[k]).vote_weight + weight <= u64::MAX,
        BallotChoice::Deny => p.deny_vote_weight + weight <= u64::MAX,
    }
}

/// Whether a cast tips the proposal early, and to which outcome. Only
/// single-choice proposals tip; Strict mode tips only to Succeeded, Early
/// mode to either outcome, and both only when the outcome can no longer be
/// changed by the remaining uncommitted weight.
pub open spec fn spec_tip_result(
    kind: VoteKind,
    mode: VoteTipping,
    weight0: int,
    deny: int,
    total: int,
    max: int,
    pct: int,
    quorum: int,
    use_deny: bool,
) -> Option<ProposalState> {
    if kind != VoteKind::SingleChoice || mode == VoteTipping::Disabled {
        None
    } else if can_tip_succeeded(weight0, deny, total, max, pct, quorum, use_deny) {
        Some(ProposalState::Succeeded)
    } else if mode == VoteTipping::Early
        && can_tip_defeated(weight0, deny, total, max, pct, quorum, use_deny) {
        Some(ProposalState::Defeated)
    } else {
        None
    }
}

/// How one accepted ballot transforms a proposal: tallies move by the
/// ballot's weight, and the state either stays Voting or tips to the fixed
/// outcome, marking the sole option and the completion time.
pub open spec fn spec_cast_applied(
    op: Proposal,
    fp: Proposal,
    ballot: BallotChoice,
    weight: u64,
    cfg: GovernanceConfig,
    now: u64,
) -> bool {
    let tallied = match ballot {
        BallotChoice::Approve(choices) => spec_options_after_approve(op.options@, choices@,
            weight),
        BallotChoice::Deny => op.options@,
    };
    let new_deny = match ballot {
        BallotChoice::Approve(choices) => op.deny_vote_weight as int,
        BallotChoice::Deny => op.deny_vote_weight + weight,
    };
    let new_total = op.total_cast_weight + weight;
    let tip = spec_tip_result(op.vote_kind, cfg.vote_tipping,
        if tallied.len() > 0 { tallied[0].vote_weight as int } else { 0int },
        new_deny, new_total, op.max_voting_weight as int,
        cfg.vote_threshold_percentage as int, cfg.quorum_weight as int, op.use_deny_option);
    {
        &&& fp.total_cast_weight == new_total
        &&& fp.deny_vote_weight == new_deny
        &&& match tip {
            Some(outcome) => {
                &&& fp.state == outcome
                &&& fp.voting_completed_at == Some(now)
                &&& tallied.len() > 0
                &&& fp.options@ == tallied.update(0, ProposalOption {
                    result: if outcome == ProposalState::Succeeded {
                        OptionVoteResult::Succeeded
                    } else {
                        OptionVoteResult::Defeated
                    },
                    ..tallied[0]
                })
            },
            None => {
                &&& fp.state == op.state
                &&& fp.voting_completed_at == op.voting_completed_at
                &&& fp.options@ == tallied
            },
        }
        &&& (fp == (Proposal {
            state: fp.state,
            options: fp.options,
            deny_vote_weight: fp.deny_vote_weight,
            total_cast_weight: fp.total_cast_weight,
            voting_completed_at: fp.voting_completed_at,
            ..op
        }))
    }
}

/// All inputs `cast_vote` accepts.
pub open spec fn cast_vote_ok(
    realm: Realm,
    pi: int,
    gi: int,
    ti: int,
    authority: u64,
    ballot: BallotChoice,
    attestation: Option<VoterWeightAttestation>,
    now: u64,
) -> bool {
    &&& 0 <= pi < realm.proposals@.len()
    &&& 0 <= gi < realm.governances@.len()
    &&& 0 <= ti < realm.token_owner_records@.len()
    &&& realm.governances@[gi].key == realm.proposals@[pi].governance_key
    &&& spec_owner_or_delegate(realm.token_owner_records@[ti], authority)
    &&& realm.proposals@[pi].state == ProposalState::Voting
    &&& match realm.proposals@[pi].voting_starts_at {
        Some(vs) => vs + realm.governances@[gi].config.cool_off_time <= now
            && now < vs + realm.governances@[gi].config.max_voting_time,
        None => false,
    }
    &&& match attestation {
        Some(a) => spec_attestation_valid(a, realm.token_owner_records@[ti].owner,
            realm.proposals@[pi].key, now),
        None => true,
    }
    &&& spec_cast_weight(realm.token_owner_records@[ti], attestation) > 0
    &&& !spec_has_vote_record(realm.vote_records@, realm.proposals@[pi].key,
        realm.token_owner_records@[ti].owner)
    &&& spec_ballot_valid(realm.proposals@[pi], ballot)
    &&& spec_additions_fit(realm.proposals@[pi], ballot,
        spec_cast_weight(realm.token_owner_records@[ti], attestation))
    &&& realm.proposals@[pi].total_cast_weight
        + spec_cast_weight(realm.token_owner_records@[ti], attestation)
        <= realm.proposals@[pi].max_voting_weight
    &&& realm.token_owner_records@[ti].unrelinquished_votes_count + 1 <= u64::MAX
}


/// Exact state change of a successful `cast_vote`: the ballot applied to the
/// proposal (including any early tip), one vote record appended with
/// `is_relinquished` false, the voter's outstanding-vote counter one higher,
/// and nothing else in the realm.
pub open spec fn cast_vote_applied(
    pre: Realm,
    post: Realm,
    pi: int,
    gi: int,
    ti: int,
    ballot: BallotChoice,
    attestation: Option<VoterWeightAttestation>,
    now: u64,
) -> bool {
    let weight = spec_cast_weight(pre.token_owner_records@[ti], attestation);
    {
        &&& post.proposals@ == pre.proposals@.update(pi, post.proposals@[pi])
        &&& spec_cast_applied(pre.proposals@[pi], post.proposals@[pi], ballot, weight,
            pre.governances@[gi].config, now)
        &&& post.vote_records@ == pre.vote_records@.push(VoteRecord {
            proposal_key: pre.proposals@[pi].key,
            voter: pre.token_owner_records@[ti].owner,
            vote: ballot,
            weight,
            is_relinquished: false,
        })
        &&& post.token_owner_records@ == pre.token_owner_records@.update(ti,
            TokenOwnerRecord {
                unrelinquished_votes_count: (pre.token_owner_records@[ti]
                    .unrelinquished_votes_count + 1) as u64,
                ..pre.token_owner_records@[ti]
            })
        &&& (post == (Realm {
            proposals: post.proposals,
            vote_records: post.vote_records,
            token_owner_records: post.token_owner_records,
            ..pre
        }))
    }
}

impl Realm {
    /// Runtime lookup of a voter's record on a proposal; `None` exactly when
    /// the voter has not voted on it.
    pub fn find_vote_record(&self, proposal_key: u64, voter: u64) -> (r: Option<usize>)
        ensures
            match r {
                Some(i) => i < self.vote_records@.len()
                    && self.vote_records@[i as int].proposal_key == proposal_key
                    && self.vote_records@[i as int].voter == voter,
                None => !spec_has_vote_record(self.vote_records@, proposal_key, voter),
            },
    {
        let mut i: usize = 0;
        while i < self.vote_records.len()
            invariant
                i <= self.vote_records@.len(),
                forall|j: int|
                    0 <= j < i ==> !((#[trigger] self.vote_records@[j]).proposal_key
                        == proposal_key && self.vote_records@[j].voter == voter),
            decreases self.vote_records@.len() - i,
        {
            if self.vote_records[i].proposal_key == proposal_key
                && self.vote_records[i].voter == voter {
                return Some(i);
            }
            i = i + 1;
        }
        None
    }

    /// Casts a ballot on a proposal in voting. The signer must be the owner
    /// or delegate; the weight is the owner's deposit, or an attested weight
    /// bound to this owner and proposal and still fresh. The ballot's weight
    /// is added to the tallies, a vote record is created, the owner's
    /// outstanding-vote counter rises by one, and the proposal tips early
    /// exactly when the configured tipping mode allows it and the outcome is
    /// already unchangeable.
    #[verifier::loop_isolation(false)]
    #[verifier::rlimit(60)]
    pub fn cast_vote(
        &mut self,
        prop_index: usize,
        gov_index: usize,
        tor_index: usize,
        authority: u64,
        ballot: BallotChoice,
        attestation: Option<VoterWeightAttestation>,
        now: u64,
    ) -> (r: Result<(), GovernanceError>)
        requires
            old(self).wf(),
        ensures
            final(self).wf(),
            Realm::proposals_monotonic(*old(self), *final(self)),
            r is Ok <==> cast_vote_ok(*old(self), prop_index as int, gov_index as int,
                tor_index as int, authority, ballot, attestation, now),
            r is Err ==> *final(self) == *old(self),
            r is Ok ==> cast_vote_applied(*old(self), *final(self), prop_index as int,
                gov_index as int, tor_index as int, ballot, attestation, now),
    {
        if prop_index >= self.proposals.len() || gov_index >= self.governances.len()
            || tor_index >= self.token_owner_records.len() {
            return Err(GovernanceError::InvalidAccountIndex);
        }
        if self.governances[gov_index].key != self.proposals[prop_index].governance_key {
            return Err(GovernanceError::AccountMismatch);
        }
        let tor = self.token_owner_records[tor_index];
        if !is_owner_or_delegate(&tor, authority) {
            return Err(GovernanceError::NotAuthorized);
        }
        if !(self.proposals[prop_index].state == ProposalState::Voting) {
            return Err(GovernanceError::InvalidProposalState);
        }
        let cfg = self.governances[gov_index].config;
        let vs = match self.proposals[prop_index].voting_starts_at {
            Some(v) => v,
            None => {
                return Err(GovernanceError::InvalidProposalState);
            },
        };
        if (now as u128) < (vs as u128) + (cfg.cool_off_time as u128) {
            return Err(GovernanceError::CoolOffNotOver);
        }
        if (now as u128) >= (vs as u128) + (cfg.max_voting_time as u128) {
            return Err(GovernanceError::VotingExpired);
        }
        let proposal_key = self.proposals[prop_index].key;
        let weight = match attestation {
            Some(a) => {
                if !(a.owner == tor.owner && a.proposal_key == proposal_key
                    && a.expires_at >= now) {
                    return Err(GovernanceError::InvalidAttestation);
                }
                a.weight
            },
            None => tor.deposited_amount,
        };
        if weight == 0 {
            return Err(GovernanceError::InsufficientVotingWeight);
        }
        if let Some(_) = self.find_vote_record(proposal_key, tor.owner) {
            return Err(GovernanceError::VoteAlreadyExists);
        }
        let n_options = self.proposals[prop_index].options.len();
        let use_deny = self.proposals[prop_index].use_deny_option;
        let single = match self.proposals[prop_index].vote_kind {
            VoteKind::SingleChoice => true,
            VoteKind::MultiChoice => false,
        };
        match &ballot {
            BallotChoice::Approve(choices) => {
                if choices.len() != n_options {
                    return Err(GovernanceError::InvalidOptions);
                }
                let mut trues: u64 = 0;
                let mut k: usize = 0;
                while k < choices.len()
                    invariant
                        k <= choices@.len(),
                        trues == count_trues(choices@.take(k as int)),
                        trues <= k,
                        *self == *old(self),
                    decreases choices@.len() - k,
                {
                    proof {
                        assert(choices@.take(k + 1).drop_last() =~= choices@.take(k as int));
                        assert(choices@.take(k + 1).last() == choices@[k as int]);
                    }
                    if choices[k] {
                        trues = trues + 1;
                    }
                    k = k + 1;
                }
                proof {
                    assert(choices@.take(choices@.len() as int) =~= choices@);
                }
                if trues == 0 || (single && trues != 1) {
                    return Err(GovernanceError::InvalidOptions);
                }
                let mut k2: usize = 0;
                while k2 < n_options
                    invariant
                        k2 <= n_options,
                        *self == *old(self),
                        n_options == self.proposals@[prop_index as int].options@.len(),
                        n_options == choices@.len(),
                        prop_index < self.proposals@.len(),
                        forall|j: int|
                            0 <= j < k2 && choices@[j]
                                ==> (#[trigger] self.proposals@[prop_index as int]
                                    .options@[j]).vote_weight + weight <= u64::MAX,
                    decreases n_options - k2,
                {
                    if choices[k2] {
                        let w = self.proposals[prop_index].options[k2].vote_weight;
                        if w > u64::MAX - weight {
                            return Err(GovernanceError::ArithmeticOverflow);
                        }
                    }
                    k2 = k2 + 1;
                }
                proof {
                    assert(forall|j: int|
                        0 <= j < n_options && choices@[j]
                            ==> (#[trigger] old(self).proposals@[prop_index as int]
                                .options@[j]).vote_weight + weight <= u64::MAX);
                }
            },
            BallotChoice::Deny => {
                if !use_deny {
                    return Err(GovernanceError::InvalidOptions);
                }
                let d = self.proposals[prop_index].deny_vote_weight;
                if d > u64::MAX - weight {
                    return Err(GovernanceError::ArithmeticOverflow);
                }
            },
        }
        let total = self.proposals[prop_index].total_cast_weight;
        let max_weight = self.proposals[prop_index].max_voting_weight;
        if (total as u128) + (weight as u128) > (max_weight as u128) {
            return Err(GovernanceError::VoteWeightExceedsSnapshot);
        }
        if tor.unrelinquished_votes_count == u64::MAX {
            return Err(GovernanceError::ArithmeticOverflow);
        }
        // Apply the ballot to the tallies.
        match &ballot {
            BallotChoice::Approve(choices) => {
                let mut k: usize = 0;
                while k < n_options
                    invariant
                        k <= n_options,
                        prop_index < self.proposals@.len(),
                        n_options == self.proposals@[prop_index as int].options@.len(),
                        n_options == old(self).proposals@[prop_index as int].options@.len(),
                        n_options == choices@.len(),
                        self.proposals@ == old(self).proposals@.update(prop_index as int,
                            self.proposals@[prop_index as int]),
                        (self.proposals@[prop_index as int] == (Proposal {
                            options: self.proposals@[prop_index as int].options,
                            ..old(self).proposals@[prop_index as int]
                        })),
                        forall|j: int|
                            0 <= j < k ==> self.proposals@[prop_index as int].options@[j]
                                == (ProposalOption {
                                vote_weight: (old(self).proposals@[prop_index as int]
                                    .options@[j].vote_weight + (if choices@[j] {
                                    weight as int
                                } else {
                                    0int
                                })) as u64,
                                ..old(self).proposals@[prop_index as int].options@[j]
                            }),
                        forall|j: int|
                            k <= j < n_options
                                ==> self.proposals@[prop_index as int].options@[j]
                                    == old(self).proposals@[prop_index as int].options@[j],
                        (*self == (Realm { proposals: self.proposals, ..*old(self) })),
                    decreases n_options - k,
                {
                    if choices[k] {
                        proof {
                            assert(self.proposals@[prop_index as int].options@[k as int]
                                == old(self).proposals@[prop_index as int].options@[
                                k as int]);
                        }
                        let o = &mut self.proposals[prop_index].options[k];
                        o.vote_weight = o.vote_weight + weight;
                    }
                    proof {
                        assert(self.proposals@[prop_index as int] == (Proposal {
                            options: self.proposals@[prop_index as int].options,
                            ..old(self).proposals@[prop_index as int]
                        }));
                        assert(self.proposals@ =~= old(self).proposals@.update(
                            prop_index as int, self.proposals@[prop_index as int]));
                        assert((*self == (Realm { proposals: self.proposals, ..*old(self) })));
                    }
                    k = k + 1;
                }
                proof {
                    assert(self.proposals@[prop_index as int].options@
                        =~= spec_options_after_approve(
                        old(self).proposals@[prop_index as int].options@, choices@, weight));
                }
            },
            BallotChoice::Deny => {
                let p = &mut self.proposals[prop_index];
                p.deny_vote_weight = p.deny_vote_weight + weight;
            },
        }
        {
            let p = &mut self.proposals[prop_index];
            p.total_cast_weight = p.total_cast_weight + weight;
        }
        // Record the vote and raise the owner's outstanding-vote counter.
        let record = VoteRecord {
            proposal_key,
            voter: tor.owner,
            vote: ballot,
            weight,
            is_relinquished: false,
        };
        proof {
            lemma_sum_update(self.token_owner_records@, tor_index as int, TokenOwnerRecord {
                unrelinquished_votes_count: (tor.unrelinquished_votes_count + 1) as u64,
                ..tor
            });
            assert forall|j: int| 0 <= j < self.token_owner_records@.len()
                implies (#[trigger] self.token_owner_records@[j]).unrelinquished_votes_count
                    + (if j == tor_index as int { 1int } else { 0int })
                    == active_vote_count(self.vote_records@.push(record),
                        self.token_owner_records@[j].owner) by {
                let ow = self.token_owner_records@[j].owner;
                lemma_count_push(self.vote_records@, active_for(ow), record);
                if j != tor_index as int {
                    assert(record.voter != ow);
                }
            };
            assert forall|i: int| 0 <= i < self.vote_records@.push(record).len()
                implies owner_present(self.token_owner_records@.update(tor_index as int,
                    TokenOwnerRecord {
                        unrelinquished_votes_count: (tor.unrelinquished_votes_count + 1)
                            as u64,
                        ..tor
                    }), (#[trigger] self.vote_records@.push(record)[i]).voter) by {
                if i < self.vote_records@.len() {
                    lemma_owner_present_update(self.token_owner_records@, tor_index as int,
                        TokenOwnerRecord {
                            unrelinquished_votes_count: (tor.unrelinquished_votes_count + 1)
                                as u64,
                            ..tor
                        }, self.vote_records@[i].voter);
                } else {
                    assert(self.token_owner_records@.update(tor_index as int,
                        TokenOwnerRecord {
                            unrelinquished_votes_count: (tor.unrelinquished_votes_count + 1)
                                as u64,
                            ..tor
                        })[tor_index as int].owner == record.voter);
                }
            };
        }
        self.vote_records.push(record);
        self.token_owner_records[tor_index] = TokenOwnerRecord {
            unrelinquished_votes_count: tor.unrelinquished_votes_count + 1,
            ..tor
        };
        // Try to tip the vote early.
        if single && !(cfg.vote_tipping == VoteTipping::Disabled) && n_options > 0 {
            let w0 = self.proposals[prop_index].options[0].vote_weight;
            let deny_now = self.proposals[prop_index].deny_vote_weight;
            let total_now = self.proposals[prop_index].total_cast_weight;
            if exec_can_tip_succeeded(w0, deny_now, total_now, max_weight,
                cfg.vote_threshold_percentage, cfg.quorum_weight, use_deny) {
                let p = &mut self.proposals[prop_index];
                p.state = ProposalState::Succeeded;
                p.voting_completed_at = Some(now);
                let o = &mut p.options[0];
                o.result = OptionVoteResult::Succeeded;
            } else if cfg.vote_tipping == VoteTipping::Early
                && exec_can_tip_defeated(w0, deny_now, total_now, max_weight,
                cfg.vote_threshold_percentage, cfg.quorum_weight, use_deny) {
                let p = &mut self.proposals[prop_index];
                p.state = ProposalState::Defeated;
                p.voting_completed_at = Some(now);
                let o = &mut p.options[0];
                o.result = OptionVoteResult::Defeated;
            }
        }
        proof {
            assert(self.proposals@ =~= old(self).proposals@.update(prop_index as int,
                self.proposals@[prop_index as int]));
        }
        Ok(())
    }
}

/// Outcome recorded for one option at finalize time.
pub open spec fn spec_option_result(w: u64, deny: u64, use_deny: bool, max: u64, pct: u8)
    -> OptionVoteResult {
    if option_wins(w as int, deny as int, use_deny, max as int, pct as int) {
        OptionVoteResult::Succeeded
    } else {
        OptionVoteResult::Defeated
    }
}

/// Options with their finalize-time results filled in.
pub open spec fn spec_finalized_options(
    pre: Seq<ProposalOption>,
    deny: u64,
    use_deny: bool,
    max: u64,
    pct: u8,
) -> Seq<ProposalOption> {
    Seq::new(pre.len(), |i: int| ProposalOption {
        result: spec_option_result(pre[i].vote_weight, deny, use_deny, max, pct),
        ..pre[i]
    })
}

/// Some option wins under the threshold and deny rules.
pub open spec fn spec_any_wins(
    pre: Seq<ProposalOption>,
    deny: u64,
    use_deny: bool,
    max: u64,
    pct: u8,
) -> bool {
    exists|i: int|
        0 <= i < pre.len() && option_wins((#[trigger] pre[i]).vote_weight as int, deny as int,
            use_deny, max as int, pct as int)
}

/// The proposal-level outcome at finalize: Succeeded exactly when the quorum
/// is met and at least one option wins; Defeated otherwise — including ties,
/// which thresholds resolve against the proposal.
pub open spec fn spec_finalize_outcome(p: Proposal, cfg: GovernanceConfig) -> ProposalState {
    if p.total_cast_weight >= cfg.quorum_weight && spec_any_wins(p.options@,
        p.deny_vote_weight, p.use_deny_option, p.max_voting_weight,
        cfg.vote_threshold_percentage) {
        ProposalState::Succeeded
    } else {
        ProposalState::Defeated
    }
}

/// On a single-choice proposal, the finalize-time outcome is exactly the
/// single-option formula the early-tipping soundness lemmas speak about: so
/// a tipped outcome is the same outcome a full-duration finalize would
/// reach, whatever the remaining weight had done.
pub proof fn lemma_single_choice_finalize_outcome(p: Proposal, cfg: GovernanceConfig)
    requires
        p.options@.len() == 1,
    ensures
        spec_finalize_outcome(p, cfg) == crate::tally::single_choice_outcome(
            p.options@[0].vote_weight as int,
            p.deny_vote_weight as int,
            p.total_cast_weight as int,
            p.max_voting_weight as int,
            cfg.vote_threshold_percentage as int,
            cfg.quorum_weight as int,
            p.use_deny_option,
        ),
{
    if option_wins(p.options@[0].vote_weight as int, p.deny_vote_weight as int,
        p.use_deny_option, p.max_voting_weight as int,
        cfg.vote_threshold_percentage as int) {
        assert(spec_any_wins(p.options@, p.deny_vote_weight, p.use_deny_option,
            p.max_voting_weight, cfg.vote_threshold_percentage));
    }
}

/// All inputs `finalize_vote` accepts.
pub open spec fn finalize_ok(realm: Realm, pi: int, gi: int, now: u64) -> bool {
    &&& 0 <= pi < realm.proposals@.len()
    &&& 0 <= gi < realm.governances@.len()
    &&& realm.governances@[gi].key == realm.proposals@[pi].governance_key
    &&& realm.proposals@[pi].state == ProposalState::Voting
    &&& match realm.proposals@[pi].voting_starts_at {
        Some(vs) => now >= vs + realm.governances@[gi].config.max_voting_time,
        None => false,
    }
}

/// Exact state change of a successful `finalize_vote`: every option's result
/// recorded, the proposal moved to the outcome the threshold, deny and
/// quorum rules dictate, the completion time stamped, and nothing else.
pub open spec fn finalize_applied(pre: Realm, post: Realm, pi: int, gi: int, now: u64)
    -> bool {
    &&& post.proposals@ == pre.proposals@.update(pi, post.proposals@[pi])
    &&& post.proposals@[pi].options@ == spec_finalized_options(
        pre.proposals@[pi].options@,
        pre.proposals@[pi].deny_vote_weight,
        pre.proposals@[pi].use_deny_option,
        pre.proposals@[pi].max_voting_weight,
        pre.governances@[gi].config.vote_threshold_percentage,
    )
    &&& post.proposals@[pi].state == spec_finalize_outcome(pre.proposals@[pi],
        pre.governances@[gi].config)
    &&& post.proposals@[pi].voting_completed_at == Some(now)
    &&& (post.proposals@[pi] == (Proposal {
        state: post.proposals@[pi].state,
        options: post.proposals@[pi].options,
        voting_completed_at: Some(now),
        ..pre.proposals@[pi]
    }))
    &&& (post == (Realm { proposals: post.proposals, ..pre }))
}

/// The tallies a relinquished ballot would remove are all present.
pub open spec fn spec_subtract_fits(p: Proposal, r: VoteRecord) -> bool {
    match r.vote {
        BallotChoice::Approve(choices) => {
            &&& choices@.len() == p.options@.len()
            &&& forall|k: int|
                0 <= k < p.options@.len() && choices@[k]
                    ==> (#[trigger] p.options@[k]).vote_weight >= r.weight
            &&& p.total_cast_weight >= r.weight
        },
        BallotChoice::Deny => p.deny_vote_weight >= r.weight
            && p.total_cast_weight >= r.weight,
    }
}

/// Option tallies after a relinquished approve ballot: the record's weight
/// leaves every option it had selected.
pub open spec fn spec_options_after_subtract(
    pre: Seq<ProposalOption>,
    choices: Seq<bool>,
    weight: u64,
) -> Seq<ProposalOption> {
    Seq::new(pre.len(), |i: int| ProposalOption {
        vote_weight: (pre[i].vote_weight - (if choices[i] { weight as int } else { 0int }))
            as u64,
        ..pre[i]
    })
}

/// All inputs `relinquish_vote` accepts.
pub open spec fn relinquish_ok(realm: Realm, pi: int, ti: int, ri: int, authority: u64)
    -> bool {
    &&& 0 <= pi < realm.proposals@.len()
    &&& 0 <= ti < realm.token_owner_records@.len()
    &&& 0 <= ri < realm.vote_records@.len()
    &&& realm.vote_records@[ri].proposal_key == realm.proposals@[pi].key
    &&& realm.vote_records@[ri].voter == realm.token_owner_records@[ti].owner
    &&& spec_owner_or_delegate(realm.token_owner_records@[ti], authority)
    &&& !realm.vote_records@[ri].is_relinquished
    &&& (realm.proposals@[pi].state == ProposalState::Voting
        ==> spec_subtract_fits(realm.proposals@[pi], realm.vote_records@[ri]))
}

/// Exact state change of a successful `relinquish_vote`: the record marked
/// relinquished, the owner's outstanding-vote counter one lower, and — only
/// while the proposal was still in voting — the ballot's weight removed from
/// the tallies it had entered.
pub open spec fn relinquish_applied(pre: Realm, post: Realm, pi: int, ti: int, ri: int)
    -> bool {
    &&& post.vote_records@ == pre.vote_records@.update(ri, VoteRecord {
        is_relinquished: true,
        ..pre.vote_records@[ri]
    })
    &&& post.token_owner_records@ == pre.token_owner_records@.update(ti, TokenOwnerRecord {
        unrelinquished_votes_count: (pre.token_owner_records@[ti]
            .unrelinquished_votes_count - 1) as u64,
        ..pre.token_owner_records@[ti]
    })
    &&& if pre.proposals@[pi].state == ProposalState::Voting {
        &&& post.proposals@ == pre.proposals@.update(pi, post.proposals@[pi])
        &&& post.proposals@[pi].options@ == (match pre.vote_records@[ri].vote {
            BallotChoice::Approve(choices) => spec_options_after_subtract(
                pre.proposals@[pi].options@, choices@, pre.vote_records@[ri].weight),
            BallotChoice::Deny => pre.proposals@[pi].options@,
        })
        &&& post.proposals@[pi].deny_vote_weight == (match pre.vote_records@[ri].vote {
            BallotChoice::Approve(choices) => pre.proposals@[pi].deny_vote_weight as int,
            BallotChoice::Deny => pre.proposals@[pi].deny_vote_weight
                - pre.vote_records@[ri].weight,
        })
        &&& post.proposals@[pi].total_cast_weight == pre.proposals@[pi].total_cast_weight
            - pre.vote_records@[ri].weight
        &&& (post.proposals@[pi] == (Proposal {
            options: post.proposals@[pi].options,
            deny_vote_weight: post.proposals@[pi].deny_vote_weight,
            total_cast_weight: post.proposals@[pi].total_cast_weight,
            ..pre.proposals@[pi]
        }))
    } else {
        post.proposals@ == pre.proposals@
    }
    &&& (post == (Realm {
        proposals: post.proposals,
        vote_records: post.vote_records,
        token_owner_records: post.token_owner_records,
        ..pre
    }))
}

fn copy_bools(v: &Vec<bool>) -> (r: Vec<bool>)
    ensures
        r@ == v@,
{
    let mut r: Vec<bool> = Vec::new();
    let mut i: usize = 0;
    while i < v.len()
        invariant
            i <= v@.len(),
            r@ == v@.take(i as int),
        decreases v@.len() - i,
    {
        r.push(v[i]);
        proof {
            assert(v@.take(i + 1) =~= v@.take(i as int).push(v@[i as int]));
        }
        i = i + 1;
    }
    proof {
        assert(v@.take(v@.len() as int) =~= v@);
    }
    r
}

impl Realm {
    /// Finalizes a proposal after its voting window elapsed: records each
    /// option's result against the threshold and deny rules, and moves the
    /// proposal to Succeeded exactly when the quorum is met and some option
    /// wins, else to Defeated. Anyone may call it; time alone gates it.
    #[verifier::loop_isolation(false)]
    #[verifier::rlimit(60)]
    pub fn finalize_vote(&mut self, prop_index: usize, gov_index: usize, now: u64)
        -> (r: Result<(), GovernanceError>)
        requires
            old(self).wf(),
        ensures
            final(self).wf(),
            Realm::proposals_monotonic(*old(self), *final(self)),
            r is Ok <==> finalize_ok(*old(self), prop_index as int, gov_index as int,
                now),
            r is Err ==> *final(self) == *old(self),
            prop_index < old(self).proposals@.len() && gov_index < old(self).governances@.len()
                && old(self).governances@[gov_index as int].key
                    == old(self).proposals@[prop_index as int].governance_key
                && old(self).proposals@[prop_index as int].state == ProposalState::Voting
                && (match old(self).proposals@[prop_index as int].voting_starts_at {
                    Some(vs) => now
                        < vs + old(self).governances@[gov_index as int].config.max_voting_time,
                    None => false,
                }) ==> r == Result::<(), GovernanceError>::Err(
                GovernanceError::VotingTimeNotOver),
            r is Ok ==> finalize_applied(*old(self), *final(self), prop_index as int,
                gov_index as int, now),
    {
        if prop_index >= self.proposals.len() || gov_index >= self.governances.len() {
            return Err(GovernanceError::InvalidAccountIndex);
        }
        if self.governances[gov_index].key != self.proposals[prop_index].governance_key {
            return Err(GovernanceError::AccountMismatch);
        }
        if !(self.proposals[prop_index].state == ProposalState::Voting) {
            return Err(GovernanceError::InvalidProposalState);
        }
        let cfg = self.governances[gov_index].config;
        let vs = match self.proposals[prop_index].voting_starts_at {
            Some(v) => v,
            None => {
                return Err(GovernanceError::InvalidProposalState);
            },
        };
        if (now as u128) < (vs as u128) + (cfg.max_voting_time as u128) {
            return Err(GovernanceError::VotingTimeNotOver);
        }
        let n_options = self.proposals[prop_index].options.len();
        let deny = self.proposals[prop_index].deny_vote_weight;
        let use_deny = self.proposals[prop_index].use_deny_option;
        let max_weight = self.proposals[prop_index].max_voting_weight;
        let total = self.proposals[prop_index].total_cast_weight;
        let mut any_wins = false;
        let mut k: usize = 0;
        while k < n_options
            invariant
                k <= n_options,
                n_options == self.proposals@[prop_index as int].options@.len(),
                n_options == old(self).proposals@[prop_index as int].options@.len(),
                self.proposals@ == old(self).proposals@.update(prop_index as int,
                    self.proposals@[prop_index as int]),
                (self.proposals@[prop_index as int] == (Proposal {
                    options: self.proposals@[prop_index as int].options,
                    ..old(self).proposals@[prop_index as int]
                })),
                forall|j: int|
                    0 <= j < k ==> self.proposals@[prop_index as int].options@[j]
                        == (ProposalOption {
                        result: spec_option_result(old(self).proposals@[prop_index as int]
                            .options@[j].vote_weight, deny, use_deny, max_weight,
                            cfg.vote_threshold_percentage),
                        ..old(self).proposals@[prop_index as int].options@[j]
                    }),
                forall|j: int|
                    k <= j < n_options ==> self.proposals@[prop_index as int].options@[j]
                        == old(self).proposals@[prop_index as int].options@[j],
                any_wins <==> exists|j: int|
                    0 <= j < k && option_wins((#[trigger] old(self).proposals@[
                        prop_index as int].options@[j]).vote_weight as int, deny as int,
                        use_deny, max_weight as int,
                        cfg.vote_threshold_percentage as int),
                (*self == (Realm { proposals: self.proposals, ..*old(self) })),
            decreases n_options - k,
        {
            let w = self.proposals[prop_index].options[k].vote_weight;
            let wins = exec_meets_threshold(w, max_weight, cfg.vote_threshold_percentage)
                && (!use_deny || w > deny);
            let o = &mut self.proposals[prop_index].options[k];
            o.result = if wins {
                OptionVoteResult::Succeeded
            } else {
                OptionVoteResult::Defeated
            };
            if wins {
                any_wins = true;
            }
            proof {
                assert(self.proposals@[prop_index as int] == (Proposal {
                    options: self.proposals@[prop_index as int].options,
                    ..old(self).proposals@[prop_index as int]
                }));
                assert(self.proposals@ =~= old(self).proposals@.update(prop_index as int,
                    self.proposals@[prop_index as int]));
                assert((*self == (Realm { proposals: self.proposals, ..*old(self) })));
            }
            k = k + 1;
        }
        let outcome = if total >= cfg.quorum_weight && any_wins {
            ProposalState::Succeeded
        } else {
            ProposalState::Defeated
        };
        let p = &mut self.proposals[prop_index];
        p.state = outcome;
        p.voting_completed_at = Some(now);
        proof {
            assert(self.proposals@[prop_index as int].options@ =~= spec_finalized_options(
                old(self).proposals@[prop_index as int].options@, deny, use_deny, max_weight,
                cfg.vote_threshold_percentage));
            assert(self.proposals@ =~= old(self).proposals@.update(prop_index as int,
                self.proposals@[prop_index as int]));
        }
        Ok(())
    }

    /// Releases a cast vote. While the proposal is still in voting, the
    /// ballot's weight leaves the tallies (changing one's mind); afterwards
    /// the record is only marked relinquished as a receipt. Either way the
    /// owner's outstanding-vote counter falls by exactly one, so votes and
    /// the counter stay balanced and the deposit can eventually be withdrawn.
    #[verifier::loop_isolation(false)]
    #[verifier::rlimit(60)]
    pub fn relinquish_vote(
        &mut self,
        prop_index: usize,
        tor_index: usize,
        record_index: usize,
        authority: u64,
    ) -> (r: Result<(), GovernanceError>)
        requires
            old(self).wf(),
        ensures
            final(self).wf(),
            Realm::proposals_monotonic(*old(self), *final(self)),
            r is Ok <==> relinquish_ok(*old(self), prop_index as int, tor_index as int,
                record_index as int, authority),
            r is Err ==> *final(self) == *old(self),
            record_index < old(self).vote_records@.len()
                && prop_index < old(self).proposals@.len()
                && tor_index < old(self).token_owner_records@.len()
                && old(self).vote_records@[record_index as int].proposal_key
                    == old(self).proposals@[prop_index as int].key
                && old(self).vote_records@[record_index as int].voter
                    == old(self).token_owner_records@[tor_index as int].owner
                && spec_owner_or_delegate(old(self).token_owner_records@[tor_index as int],
                    authority)
                && old(self).vote_records@[record_index as int].is_relinquished
                ==> r == Result::<(), GovernanceError>::Err(
                GovernanceError::VoteAlreadyRelinquished),
            r is Ok ==> relinquish_applied(*old(self), *final(self), prop_index as int,
                tor_index as int, record_index as int),
    {
        if prop_index >= self.proposals.len() || tor_index >= self.token_owner_records.len()
            || record_index >= self.vote_records.len() {
            return Err(GovernanceError::InvalidAccountIndex);
        }
        if self.vote_records[record_index].proposal_key != self.proposals[prop_index].key {
            return Err(GovernanceError::AccountMismatch);
        }
        let tor = self.token_owner_records[tor_index];
        if self.vote_records[record_index].voter != tor.owner {
            return Err(GovernanceError::AccountMismatch);
        }
        if !is_owner_or_delegate(&tor, authority) {
            return Err(GovernanceError::NotAuthorized);
        }
        if self.vote_records[record_index].is_relinquished {
            return Err(GovernanceError::VoteAlreadyRelinquished);
        }
        let weight = self.vote_records[record_index].weight;
        let voting = self.proposals[prop_index].state == ProposalState::Voting;
        if voting {
            let n_options = self.proposals[prop_index].options.len();
            let is_deny = match &self.vote_records[record_index].vote {
                BallotChoice::Approve(_) => false,
                BallotChoice::Deny => true,
            };
            if is_deny {
                if self.proposals[prop_index].deny_vote_weight < weight
                    || self.proposals[prop_index].total_cast_weight < weight {
                    return Err(GovernanceError::ArithmeticOverflow);
                }
                let p = &mut self.proposals[prop_index];
                p.deny_vote_weight = p.deny_vote_weight - weight;
                p.total_cast_weight = p.total_cast_weight - weight;
            } else {
                let choices = match &self.vote_records[record_index].vote {
                    BallotChoice::Approve(ch) => copy_bools(ch),
                    BallotChoice::Deny => Vec::new(),
                };
                if choices.len() != n_options
                    || self.proposals[prop_index].total_cast_weight < weight {
                    return Err(GovernanceError::ArithmeticOverflow);
                }
                let mut k2: usize = 0;
                while k2 < n_options
                    invariant
                        k2 <= n_options,
                        *self == *old(self),
                        n_options == self.proposals@[prop_index as int].options@.len(),
                        n_options == choices@.len(),
                        forall|j: int|
                            0 <= j < k2 && choices@[j]
                                ==> (#[trigger] self.proposals@[prop_index as int]
                                    .options@[j]).vote_weight >= weight,
                    decreases n_options - k2,
                {
                    if choices[k2] {
                        if self.proposals[prop_index].options[k2].vote_weight < weight {
                            return Err(GovernanceError::ArithmeticOverflow);
                        }
                    }
                    k2 = k2 + 1;
                }
                let mut k: usize = 0;
                while k < n_options
                    invariant
                        k <= n_options,
                        n_options == self.proposals@[prop_index as int].options@.len(),
                        n_options == old(self).proposals@[prop_index as int].options@.len(),
                        n_options == choices@.len(),
                        self.proposals@ == old(self).proposals@.update(prop_index as int,
                            self.proposals@[prop_index as int]),
                        (self.proposals@[prop_index as int] == (Proposal {
                            options: self.proposals@[prop_index as int].options,
                            ..old(self).proposals@[prop_index as int]
                        })),
                        forall|j: int|
                            0 <= j < k ==> self.proposals@[prop_index as int].options@[j]
                                == (ProposalOption {
                                vote_weight: (old(self).proposals@[prop_index as int]
                                    .options@[j].vote_weight - (if choices@[j] {
                                    weight as int
                                } else {
                                    0int
                                })) as u64,
                                ..old(self).proposals@[prop_index as int].options@[j]
                            }),
                        forall|j: int|
                            k <= j < n_options
                                ==> self.proposals@[prop_index as int].options@[j]
                                    == old(self).proposals@[prop_index as int].options@[j],
                        (*self == (Realm { proposals: self.proposals, ..*old(self) })),
                    decreases n_options - k,
                {
                    if choices[k] {
                        let o = &mut self.proposals[prop_index].options[k];
                        o.vote_weight = o.vote_weight - weight;
                    }
                    proof {
                        assert(self.proposals@[prop_index as int] == (Proposal {
                            options: self.proposals@[prop_index as int].options,
                            ..old(self).proposals@[prop_index as int]
                        }));
                        assert(self.proposals@ =~= old(self).proposals@.update(
                            prop_index as int, self.proposals@[prop_index as int]));
                        assert((*self == (Realm { proposals: self.proposals, ..*old(self) })));
                    }
                    k = k + 1;
                }
                proof {
                    assert(self.proposals@[prop_index as int].options@
                        =~= spec_options_after_subtract(
                        old(self).proposals@[prop_index as int].options@, choices@, weight));
                }
                let p = &mut self.proposals[prop_index];
                p.total_cast_weight = p.total_cast_weight - weight;
            }
        }
        // Release the record and lower the owner's outstanding-vote counter.
        let new_record_relinquished = true;
        proof {
            lemma_count_index_positive(self.vote_records@, active_for(tor.owner),
                record_index as int);
        }
        let new_count = tor.unrelinquished_votes_count - 1;
        let ghost updated_tor = TokenOwnerRecord {
            unrelinquished_votes_count: new_count,
            ..tor
        };
        proof {
            lemma_sum_update(self.token_owner_records@, tor_index as int, updated_tor);
            let oldvr = self.vote_records@;
            let newrec = VoteRecord { is_relinquished: true, ..oldvr[record_index as int] };
            assert forall|j: int| 0 <= j < self.token_owner_records@.len()
                implies (#[trigger] self.token_owner_records@[j]).unrelinquished_votes_count
                    - (if j == tor_index as int { 1int } else { 0int })
                    == active_vote_count(oldvr.update(record_index as int, newrec),
                        self.token_owner_records@[j].owner) by {
                let ow = self.token_owner_records@[j].owner;
                lemma_count_update(oldvr, active_for(ow), record_index as int, newrec);
            };
            assert forall|i: int| 0 <= i < oldvr.update(record_index as int, newrec).len()
                implies owner_present(self.token_owner_records@.update(tor_index as int,
                    updated_tor), (#[trigger] oldvr.update(record_index as int,
                    newrec)[i]).voter) by {
                lemma_owner_present_update(self.token_owner_records@, tor_index as int,
                    updated_tor, oldvr.update(record_index as int, newrec)[i].voter);
                assert(oldvr.update(record_index as int, newrec)[i].voter
                    == oldvr[i].voter);
            };
        }
        {
            let rec = &mut self.vote_records[record_index];
            rec.is_relinquished = new_record_relinquished;
        }
        self.token_owner_records[tor_index] = TokenOwnerRecord {
            unrelinquished_votes_count: new_count,
            ..tor
        };
        proof {
            if old(self).proposals@[prop_index as int].state == ProposalState::Voting {
                assert(self.proposals@ =~= old(self).proposals@.update(prop_index as int,
                    self.proposals@[prop_index as int]));
            }
        }
        Ok(())
    }
}

} // verus!
