//! Proposal lifecycle operations: creation, option insertion, signatory
//! management, sign-off, the explicit begin-voting action, cancellation and
//! council veto. Every operation either performs its exact documented state
//! change or leaves the realm untouched.

use vstd::prelude::*;
use crate::errors::GovernanceError;
use crate::proposal::{
    Proposal, ProposalOption, OptionVoteResult, SignatoryRecord, VoteKind,
    spec_all_signed_off, spec_has_signatory, all_signed_off, find_signatory,
};
use crate::realm::{Realm, Governance};
use crate::records::{TokenOwnerRecord, spec_owner_or_delegate, is_owner_or_delegate};
use crate::state::{ProposalState, spec_is_terminal, is_terminal};

verus! {

/// Fresh options in creation state: given labels, zero weight, undecided,
/// no transactions.
pub open spec fn spec_fresh_options(opts: Seq<ProposalOption>, labels: Seq<String>) -> bool {
    &&& opts.len() == labels.len()
    &&& forall|j: int|
        0 <= j < labels.len() ==> {
            &&& (#[trigger] opts[j]).label == labels[j]
            &&& opts[j].vote_weight == 0
            &&& opts[j].result == OptionVoteResult::Pending
            &&& opts[j].transactions@.len() == 0
        }
}

fn build_options(labels: &Vec<String>) -> (r: Vec<ProposalOption>)
    ensures
        spec_fresh_options(r@, labels@),
{
    let mut r: Vec<ProposalOption> = Vec::new();
    let mut k: usize = 0;
    while k < labels.len()
        invariant
            k <= labels@.len(),
            r@.len() == k as int,
            forall|j: int|
                0 <= j < k ==> {
                    &&& (#[trigger] r@[j]).label == labels@[j]
                    &&& r@[j].vote_weight == 0
                    &&& r@[j].result == OptionVoteResult::Pending
                    &&& r@[j].transactions@.len() == 0
                },
        decreases labels@.len() - k,
    {
        r.push(ProposalOption {
            label: labels[k].clone(),
            vote_weight: 0,
            result: OptionVoteResult::Pending,
            transactions: Vec::new(),
        });
        k = k + 1;
    }
    r
}

/// The accounts and signature line up: both indices are in range, the token
/// owner record belongs to the proposal's owner, and the signer is that owner
/// or their delegate.
pub open spec fn proposal_owner_authorized(realm: Realm, pi: int, ti: int, authority: u64)
    -> bool {
    &&& 0 <= pi < realm.proposals@.len()
    &&& 0 <= ti < realm.token_owner_records@.len()
    &&& realm.token_owner_records@[ti].owner == realm.proposals@[pi].owner
    &&& spec_owner_or_delegate(realm.token_owner_records@[ti], authority)
}

/// Shape of a proposal as `create_proposal` leaves it.
pub open spec fn spec_created_proposal(
    p: Proposal,
    key: u64,
    governance_key: u64,
    owner: u64,
    payer: u64,
    name: String,
    description_link: String,
    vote_kind: VoteKind,
    labels: Seq<String>,
    use_deny_option: bool,
    deposit_amount: u64,
    now: u64,
) -> bool {
    &&& p.key == key
    &&& p.governance_key == governance_key
    &&& p.owner == owner
    &&& p.state == ProposalState::Draft
    &&& p.vote_kind == vote_kind
    &&& p.use_deny_option == use_deny_option
    &&& p.name == name
    &&& p.description_link == description_link
    &&& spec_fresh_options(p.options@, labels)
    &&& p.deny_vote_weight == 0
    &&& p.total_cast_weight == 0
    &&& p.max_voting_weight == 0
    &&& p.draft_at == now
    &&& p.voting_starts_at is None
    &&& p.voting_completed_at is None
    &&& p.signatories@.len() == 0
    &&& p.deposit_payer == payer
    &&& p.deposit_amount == deposit_amount
    &&& p.deposit_refunded == false
}

/// All inputs `create_proposal` accepts.
pub open spec fn create_proposal_ok(
    realm: Realm,
    gov_index: int,
    tor_index: int,
    authority: u64,
    vote_kind: VoteKind,
    n_options: int,
) -> bool {
    &&& 0 <= gov_index < realm.governances@.len()
    &&& 0 <= tor_index < realm.token_owner_records@.len()
    &&& spec_owner_or_delegate(realm.token_owner_records@[tor_index], authority)
    &&& realm.token_owner_records@[tor_index].deposited_amount
        >= realm.governances@[gov_index].config.min_weight_to_create_proposal
    &&& (vote_kind == VoteKind::SingleChoice ==> n_options == 1)
    &&& n_options >= 1
    &&& realm.governances@[gov_index].proposal_count + 1 <= u64::MAX
    &&& realm.token_owner_records@[tor_index].outstanding_proposal_count + 1 <= u64::MAX
    &&& realm.next_proposal_key + 1 <= u64::MAX
}


/// Exact state change of a successful `create_proposal`: the new proposal
/// appended in Draft, the governance's proposal count and the creator's
/// outstanding-proposal count each one higher, and nothing else.
pub open spec fn create_proposal_applied(
    pre: Realm,
    post: Realm,
    gov_index: int,
    tor_index: int,
    payer: u64,
    name: String,
    description_link: String,
    vote_kind: VoteKind,
    labels: Seq<String>,
    use_deny_option: bool,
    now: u64,
    key: u64,
) -> bool {
    &&& key == pre.next_proposal_key
    &&& post.next_proposal_key == pre.next_proposal_key + 1
    &&& post.proposals@.len() == pre.proposals@.len() + 1
    &&& forall|i: int| 0 <= i < pre.proposals@.len() ==> post.proposals@[i] == pre.proposals@[i]
    &&& spec_created_proposal(
        post.proposals@.last(),
        pre.next_proposal_key,
        pre.governances@[gov_index].key,
        pre.token_owner_records@[tor_index].owner,
        payer,
        name,
        description_link,
        vote_kind,
        labels,
        use_deny_option,
        pre.governances@[gov_index].config.proposal_deposit,
        now,
    )
    &&& post.governances@ == pre.governances@.update(gov_index, Governance {
        proposal_count: (pre.governances@[gov_index].proposal_count + 1) as u64,
        ..pre.governances@[gov_index]
    })
    &&& post.token_owner_records@ == pre.token_owner_records@.update(tor_index,
        TokenOwnerRecord {
            outstanding_proposal_count: (pre.token_owner_records@[tor_index]
                .outstanding_proposal_count + 1) as u64,
            ..pre.token_owner_records@[tor_index]
        })
    &&& post.vote_records@ == pre.vote_records@
    &&& post.total_deposited == pre.total_deposited
    &&& post.next_governance_key == pre.next_governance_key
    &&& post.authority == pre.authority
    &&& post.council == pre.council
    &&& post.name == pre.name
    &&& post.community_mint == pre.community_mint
    &&& post.min_weight_to_create_governance == pre.min_weight_to_create_governance
}

/// All inputs `insert_proposal_options` accepts.
pub open spec fn insert_options_ok(realm: Realm, pi: int, ti: int, authority: u64) -> bool {
    &&& proposal_owner_authorized(realm, pi, ti, authority)
    &&& realm.proposals@[pi].state == ProposalState::Draft
    &&& realm.proposals@[pi].vote_kind == VoteKind::MultiChoice
}

/// Exact state change of a successful `insert_proposal_options`.
pub open spec fn insert_options_applied(
    pre: Realm,
    post: Realm,
    pi: int,
    labels: Seq<String>,
) -> bool {
    &&& post.proposals@ == pre.proposals@.update(pi, post.proposals@[pi])
    &&& (post.proposals@[pi] == (Proposal {
        options: post.proposals@[pi].options,
        ..pre.proposals@[pi]
    }))
    &&& post.proposals@[pi].options@.len() == pre.proposals@[pi].options@.len() + labels.len()
    &&& forall|j: int|
        0 <= j < pre.proposals@[pi].options@.len()
            ==> post.proposals@[pi].options@[j] == pre.proposals@[pi].options@[j]
    &&& spec_fresh_options(post.proposals@[pi].options@.skip(
        pre.proposals@[pi].options@.len() as int), labels)
    &&& (post == (Realm { proposals: post.proposals, ..pre }))
}

/// All inputs `add_signatory` accepts.
pub open spec fn add_signatory_ok(realm: Realm, pi: int, ti: int, authority: u64,
    signatory: u64) -> bool {
    &&& proposal_owner_authorized(realm, pi, ti, authority)
    &&& realm.proposals@[pi].state == ProposalState::Draft
    &&& !spec_has_signatory(realm.proposals@[pi].signatories@, signatory)
}

/// Exact state change of a successful `add_signatory`.
pub open spec fn add_signatory_applied(pre: Realm, post: Realm, pi: int, signatory: u64)
    -> bool {
    &&& post.proposals@ == pre.proposals@.update(pi, post.proposals@[pi])
    &&& (post.proposals@[pi] == (Proposal {
        signatories: post.proposals@[pi].signatories,
        ..pre.proposals@[pi]
    }))
    &&& post.proposals@[pi].signatories@ == pre.proposals@[pi].signatories@.push(
        SignatoryRecord { signatory, signed_off: false })
    &&& (post == (Realm { proposals: post.proposals, ..pre }))
}

/// All inputs `remove_signatory` accepts.
pub open spec fn remove_signatory_ok(realm: Realm, pi: int, ti: int, authority: u64,
    signatory: u64) -> bool {
    &&& proposal_owner_authorized(realm, pi, ti, authority)
    &&& realm.proposals@[pi].state == ProposalState::Draft
    &&& spec_has_signatory(realm.proposals@[pi].signatories@, signatory)
}

/// Exact state change of a successful `remove_signatory`.
pub open spec fn remove_signatory_applied(pre: Realm, post: Realm, pi: int, signatory: u64)
    -> bool {
    &&& post.proposals@ == pre.proposals@.update(pi, post.proposals@[pi])
    &&& (post.proposals@[pi] == (Proposal {
        signatories: post.proposals@[pi].signatories,
        ..pre.proposals@[pi]
    }))
    &&& exists|si: int| {
        &&& 0 <= si < pre.proposals@[pi].signatories@.len()
        &&& pre.proposals@[pi].signatories@[si].signatory == signatory
        &&& post.proposals@[pi].signatories@ == pre.proposals@[pi].signatories@.remove(si)
    }
    &&& (post == (Realm { proposals: post.proposals, ..pre }))
}

/// All inputs `sign_off_proposal` accepts.
pub open spec fn sign_off_ok(realm: Realm, pi: int, signatory: u64) -> bool {
    &&& 0 <= pi < realm.proposals@.len()
    &&& realm.proposals@[pi].state == ProposalState::Draft
    &&& if realm.proposals@[pi].signatories@.len() == 0 {
        signatory == realm.proposals@[pi].owner
    } else {
        exists|i: int| {
            &&& 0 <= i < realm.proposals@[pi].signatories@.len()
            &&& (#[trigger] realm.proposals@[pi].signatories@[i]).signatory == signatory
            &&& !realm.proposals@[pi].signatories@[i].signed_off
        }
    }
}

/// Exact state change of a successful `sign_off_proposal`: the signatory's
/// record is marked, and the proposal leaves Draft exactly when every
/// required approver has now signed (or none were required).
pub open spec fn sign_off_applied(pre: Realm, post: Realm, pi: int, signatory: u64) -> bool {
    &&& post.proposals@ == pre.proposals@.update(pi, post.proposals@[pi])
    &&& (post.proposals@[pi] == (Proposal {
        state: post.proposals@[pi].state,
        signatories: post.proposals@[pi].signatories,
        ..pre.proposals@[pi]
    }))
    &&& post.proposals@[pi].state == (if spec_all_signed_off(post.proposals@[pi].signatories@) {
        ProposalState::SigningOff
    } else {
        ProposalState::Draft
    })
    &&& if pre.proposals@[pi].signatories@.len() == 0 {
        post.proposals@[pi].signatories@ == pre.proposals@[pi].signatories@
    } else {
        exists|si: int| {
            &&& 0 <= si < pre.proposals@[pi].signatories@.len()
            &&& (#[trigger] pre.proposals@[pi].signatories@[si]).signatory == signatory
            &&& !pre.proposals@[pi].signatories@[si].signed_off
            &&& post.proposals@[pi].signatories@ == pre.proposals@[pi].signatories@.update(
                si, SignatoryRecord { signatory, signed_off: true })
        }
    }
    &&& (post == (Realm { proposals: post.proposals, ..pre }))
}

/// All inputs `start_voting` accepts.
pub open spec fn start_voting_ok(realm: Realm, pi: int, ti: int, authority: u64) -> bool {
    &&& proposal_owner_authorized(realm, pi, ti, authority)
    &&& realm.proposals@[pi].state == ProposalState::SigningOff
}

/// Exact state change of a successful `start_voting`: the window opens at
/// `now`, the max-weight snapshot is taken from the realm's total deposits,
/// and the owner's outstanding-proposal count falls by one.
pub open spec fn start_voting_applied(pre: Realm, post: Realm, pi: int, ti: int, now: u64)
    -> bool {
    &&& post.proposals@ == pre.proposals@.update(pi, post.proposals@[pi])
    &&& (post.proposals@[pi] == (Proposal {
        state: ProposalState::Voting,
        voting_starts_at: Some(now),
        max_voting_weight: pre.total_deposited,
        ..pre.proposals@[pi]
    }))
    &&& post.token_owner_records@ == pre.token_owner_records@.update(ti, TokenOwnerRecord {
        outstanding_proposal_count: (if pre.token_owner_records@[ti]
            .outstanding_proposal_count > 0 {
            pre.token_owner_records@[ti].outstanding_proposal_count - 1
        } else {
            0
        }) as u64,
        ..pre.token_owner_records@[ti]
    })
    &&& (post == (Realm {
        proposals: post.proposals,
        token_owner_records: post.token_owner_records,
        ..pre
    }))
}

/// All inputs `cancel_proposal` accepts.
pub open spec fn cancel_ok(realm: Realm, pi: int, ti: int, authority: u64) -> bool {
    &&& proposal_owner_authorized(realm, pi, ti, authority)
    &&& realm.proposals@[pi].state != ProposalState::Succeeded
    &&& realm.proposals@[pi].state != ProposalState::Executing
}

/// Exact state change of a successful `cancel_proposal`: a deterministic
/// no-op on a proposal already terminal; otherwise the proposal becomes
/// Cancelled, and the owner's outstanding-proposal count falls by one when
/// the proposal had not yet entered voting.
pub open spec fn cancel_applied(pre: Realm, post: Realm, pi: int, ti: int) -> bool {
    if spec_is_terminal(pre.proposals@[pi].state) {
        post == pre
    } else {
        &&& post.proposals@ == pre.proposals@.update(pi, post.proposals@[pi])
        &&& (post.proposals@[pi] == (Proposal {
            state: ProposalState::Cancelled,
            ..pre.proposals@[pi]
        }))
        &&& post.token_owner_records@ == pre.token_owner_records@.update(ti,
            TokenOwnerRecord {
                outstanding_proposal_count: (if pre.proposals@[pi].state
                    != ProposalState::Voting
                    && pre.token_owner_records@[ti].outstanding_proposal_count > 0 {
                    pre.token_owner_records@[ti].outstanding_proposal_count - 1
                } else {
                    pre.token_owner_records@[ti].outstanding_proposal_count as int
                }) as u64,
                ..pre.token_owner_records@[ti]
            })
        &&& (post == (Realm {
            proposals: post.proposals,
            token_owner_records: post.token_owner_records,
            ..pre
        }))
    }
}

/// All inputs `veto_proposal` accepts.
pub open spec fn veto_ok(realm: Realm, pi: int, authority: u64) -> bool {
    &&& 0 <= pi < realm.proposals@.len()
    &&& realm.council == Some(authority)
    &&& realm.proposals@[pi].state == ProposalState::Voting
}

/// Exact state change of a successful `veto_proposal`.
pub open spec fn veto_applied(pre: Realm, post: Realm, pi: int, now: u64) -> bool {
    &&& post.proposals@ == pre.proposals@.update(pi, post.proposals@[pi])
    &&& (post.proposals@[pi] == (Proposal {
        state: ProposalState::Vetoed,
        voting_completed_at: Some(now),
        ..pre.proposals@[pi]
    }))
    &&& (post == (Realm { proposals: post.proposals, ..pre }))
}

impl Realm {
    pub(crate) fn check_proposal_owner_authority(
        &self,
        prop_index: usize,
        tor_index: usize,
        authority: u64,
    ) -> (r: Result<(), GovernanceError>)
        ensures
            r is Ok <==> proposal_owner_authorized(*self, prop_index as int, tor_index as int,
                authority),
    {
        if prop_index >= self.proposals.len() || tor_index >= self.token_owner_records.len() {
            return Err(GovernanceError::InvalidAccountIndex);
        }
        if self.token_owner_records[tor_index].owner != self.proposals[prop_index].owner {
            return Err(GovernanceError::AccountMismatch);
        }
        let tor = self.token_owner_records[tor_index];
        if !is_owner_or_delegate(&tor, authority) {
            return Err(GovernanceError::NotAuthorized);
        }
        Ok(())
    }

    /// Creates a proposal in Draft under one governance. The creator must be
    /// the token owner (or delegate) of a record meeting the governance's
    /// minimum creation weight; the deposit owed is fixed by the config.
    pub fn create_proposal(
        &mut self,
        gov_index: usize,
        tor_index: usize,
        authority: u64,
        payer: u64,
        name: String,
        description_link: String,
        vote_kind: VoteKind,
        option_labels: Vec<String>,
        use_deny_option: bool,
        now: u64,
    ) -> (r: Result<u64, GovernanceError>)
        requires
            old(self).wf(),
        ensures
            final(self).wf(),
            Realm::proposals_monotonic(*old(self), *final(self)),
            r is Ok <==> create_proposal_ok(*old(self), gov_index as int, tor_index as int,
                authority, vote_kind, option_labels@.len() as int),
            r is Err ==> *final(self) == *old(self),
            r matches Ok(key) ==> create_proposal_applied(*old(self), *final(self),
                gov_index as int, tor_index as int, payer, name, description_link,
                vote_kind, option_labels@, use_deny_option, now, key),
    {
        if gov_index >= self.governances.len() || tor_index >= self.token_owner_records.len() {
            return Err(GovernanceError::InvalidAccountIndex);
        }
        let governance = self.governances[gov_index];
        let tor = self.token_owner_records[tor_index];
        if !is_owner_or_delegate(&tor, authority) {
            return Err(GovernanceError::NotAuthorized);
        }
        if tor.deposited_amount < governance.config.min_weight_to_create_proposal {
            return Err(GovernanceError::InsufficientVotingWeight);
        }
        let n_options = option_labels.len();
        let options_ok = match vote_kind {
            VoteKind::SingleChoice => n_options == 1,
            VoteKind::MultiChoice => n_options >= 1,
        };
        if !options_ok {
            return Err(GovernanceError::InvalidOptions);
        }
        let new_proposal_count = match governance.proposal_count.checked_add(1) {
            Some(v) => v,
            None => {
                return Err(GovernanceError::ArithmeticOverflow);
            },
        };
        let new_outstanding = match tor.outstanding_proposal_count.checked_add(1) {
            Some(v) => v,
            None => {
                return Err(GovernanceError::ArithmeticOverflow);
            },
        };
        let key = self.next_proposal_key;
        let next_key = match self.next_proposal_key.checked_add(1) {
            Some(v) => v,
            None => {
                return Err(GovernanceError::ArithmeticOverflow);
            },
        };
        let options = build_options(&option_labels);
        let proposal = Proposal {
            key,
            governance_key: governance.key,
            owner: tor.owner,
            state: ProposalState::Draft,
            vote_kind,
            use_deny_option,
            name,
            description_link,
            options,
            deny_vote_weight: 0,
            total_cast_weight: 0,
            max_voting_weight: 0,
            draft_at: now,
            voting_starts_at: None,
            voting_completed_at: None,
            signatories: Vec::new(),
            deposit_payer: payer,
            deposit_amount: governance.config.proposal_deposit,
            deposit_refunded: false,
        };
        self.set_tor_same_counts(
            tor_index,
            TokenOwnerRecord { outstanding_proposal_count: new_outstanding, ..tor },
        );
        self.governances[gov_index] = Governance {
            proposal_count: new_proposal_count,
            ..governance
        };
        self.proposals.push(proposal);
        self.next_proposal_key = next_key;
        Ok(key)
    }

    /// Appends options to a multi-choice proposal still in Draft.
    pub fn insert_proposal_options(
        &mut self,
        prop_index: usize,
        tor_index: usize,
        authority: u64,
        option_labels: Vec<String>,
    ) -> (r: Result<(), GovernanceError>)
        requires
            old(self).wf(),
        ensures
            final(self).wf(),
            Realm::proposals_monotonic(*old(self), *final(self)),
            r is Ok <==> insert_options_ok(*old(self), prop_index as int, tor_index as int,
                authority),
            r is Err ==> *final(self) == *old(self),
            r is Ok ==> insert_options_applied(*old(self), *final(self), prop_index as int,
                option_labels@),
    {
        if let Err(e) = self.check_proposal_owner_authority(prop_index, tor_index, authority) {
            return Err(e);
        }
        if !(self.proposals[prop_index].state == ProposalState::Draft) {
            return Err(GovernanceError::InvalidProposalState);
        }
        if !(self.proposals[prop_index].vote_kind == VoteKind::MultiChoice) {
            return Err(GovernanceError::InvalidOptions);
        }
        let mut fresh = build_options(&option_labels);
        let ghost pre = self.proposals@[prop_index as int].options@;
        let p = &mut self.proposals[prop_index];
        p.options.append(&mut fresh);
        proof {
            let post = self.proposals@[prop_index as int].options@;
            assert(post.skip(pre.len() as int) =~= post.subrange(pre.len() as int,
                post.len() as int));
        }
        Ok(())
    }

    /// Adds a required approver to a proposal still in Draft.
    pub fn add_signatory(
        &mut self,
        prop_index: usize,
        tor_index: usize,
        authority: u64,
        signatory: u64,
    ) -> (r: Result<(), GovernanceError>)
        requires
            old(self).wf(),
        ensures
            final(self).wf(),
            Realm::proposals_monotonic(*old(self), *final(self)),
            r is Ok <==> add_signatory_ok(*old(self), prop_index as int, tor_index as int,
                authority, signatory),
            r is Err ==> *final(self) == *old(self),
            r is Ok ==> add_signatory_applied(*old(self), *final(self), prop_index as int,
                signatory),
    {
        if let Err(e) = self.check_proposal_owner_authority(prop_index, tor_index, authority) {
            return Err(e);
        }
        if !(self.proposals[prop_index].state == ProposalState::Draft) {
            return Err(GovernanceError::InvalidProposalState);
        }
        if let Some(_) = find_signatory(&self.proposals[prop_index].signatories, signatory) {
            return Err(GovernanceError::DuplicateSignatory);
        }
        let p = &mut self.proposals[prop_index];
        p.signatories.push(SignatoryRecord { signatory, signed_off: false });
        Ok(())
    }

    /// Removes a required approver from a proposal still in Draft.
    pub fn remove_signatory(
        &mut self,
        prop_index: usize,
        tor_index: usize,
        authority: u64,
        signatory: u64,
    ) -> (r: Result<(), GovernanceError>)
        requires
            old(self).wf(),
        ensures
            final(self).wf(),
            Realm::proposals_monotonic(*old(self), *final(self)),
            r is Ok <==> remove_signatory_ok(*old(self), prop_index as int,
                tor_index as int, authority, signatory),
            r is Err ==> *final(self) == *old(self),
            r is Ok ==> remove_signatory_applied(*old(self), *final(self), prop_index as int,
                signatory),
    {
        if let Err(e) = self.check_proposal_owner_authority(prop_index, tor_index, authority) {
            return Err(e);
        }
        if !(self.proposals[prop_index].state == ProposalState::Draft) {
            return Err(GovernanceError::InvalidProposalState);
        }
        let si = match find_signatory(&self.proposals[prop_index].signatories, signatory) {
            Some(i) => i,
            None => {
                return Err(GovernanceError::SignatoryNotFound);
            },
        };
        let ghost pre = self.proposals@[prop_index as int].signatories@;
        let p = &mut self.proposals[prop_index];
        p.signatories.remove(si);
        proof {
            let post = self.proposals@[prop_index as int].signatories@;
            assert forall|a: int, b: int| 0 <= a < b < post.len()
                implies post[a].signatory != post[b].signatory by {
                assert(post[a] == if a < si { pre[a] } else { pre[a + 1] });
                assert(post[b] == if b < si { pre[b] } else { pre[b + 1] });
            };
        }
        Ok(())
    }

    /// Records one signatory's sign-off; when the last required approver has
    /// signed (or none were required and the owner signs), the proposal moves
    /// from Draft to SigningOff.
    pub fn sign_off_proposal(&mut self, prop_index: usize, signatory: u64) -> (r: Result<
        (),
        GovernanceError,
    >)
        requires
            old(self).wf(),
        ensures
            final(self).wf(),
            Realm::proposals_monotonic(*old(self), *final(self)),
            r is Ok <==> sign_off_ok(*old(self), prop_index as int, signatory),
            r is Err ==> *final(self) == *old(self),
            r is Ok ==> sign_off_applied(*old(self), *final(self), prop_index as int,
                signatory),
    {
        if prop_index >= self.proposals.len() {
            return Err(GovernanceError::InvalidAccountIndex);
        }
        if !(self.proposals[prop_index].state == ProposalState::Draft) {
            return Err(GovernanceError::InvalidProposalState);
        }
        if self.proposals[prop_index].signatories.len() == 0 {
            if signatory != self.proposals[prop_index].owner {
                return Err(GovernanceError::NotAuthorized);
            }
            let p = &mut self.proposals[prop_index];
            p.state = ProposalState::SigningOff;
            return Ok(());
        }
        let si = match find_signatory(&self.proposals[prop_index].signatories, signatory) {
            Some(i) => i,
            None => {
                return Err(GovernanceError::SignatoryNotFound);
            },
        };
        if self.proposals[prop_index].signatories[si].signed_off {
            proof {
                let sigs = self.proposals@[prop_index as int].signatories@;
                assert forall|i: int|
                    0 <= i < sigs.len() && (#[trigger] sigs[i]).signatory == signatory
                    implies sigs[i].signed_off by {
                    if i != si as int {
                        assert(sigs[i].signatory != sigs[si as int].signatory);
                    }
                };
            }
            return Err(GovernanceError::AlreadySignedOff);
        }
        let p = &mut self.proposals[prop_index];
        p.signatories[si] = SignatoryRecord { signatory, signed_off: true };
        let all_signed = all_signed_off(&self.proposals[prop_index].signatories);
        if all_signed {
            let p2 = &mut self.proposals[prop_index];
            p2.state = ProposalState::SigningOff;
        }
        proof {
            assert(self.proposals@ =~= old(self).proposals@.update(prop_index as int,
                self.proposals@[prop_index as int]));
        }
        Ok(())
    }

    /// The explicit begin-voting action: opens the voting window, records its
    /// start and snapshots the maximum possible voting weight — the realm's
    /// total deposited amount — as the threshold and quorum denominator.
    pub fn start_voting(
        &mut self,
        prop_index: usize,
        tor_index: usize,
        authority: u64,
        now: u64,
    ) -> (r: Result<(), GovernanceError>)
        requires
            old(self).wf(),
        ensures
            final(self).wf(),
            Realm::proposals_monotonic(*old(self), *final(self)),
            r is Ok <==> start_voting_ok(*old(self), prop_index as int, tor_index as int,
                authority),
            r is Err ==> *final(self) == *old(self),
            proposal_owner_authorized(*old(self), prop_index as int, tor_index as int,
                authority)
                && old(self).proposals@[prop_index as int].state != ProposalState::SigningOff
                ==> r == Result::<(), GovernanceError>::Err(
                GovernanceError::InvalidProposalState),
            r is Ok ==> start_voting_applied(*old(self), *final(self), prop_index as int,
                tor_index as int, now),
    {
        if let Err(e) = self.check_proposal_owner_authority(prop_index, tor_index, authority) {
            return Err(e);
        }
        if !(self.proposals[prop_index].state == ProposalState::SigningOff) {
            return Err(GovernanceError::InvalidProposalState);
        }
        let tor = self.token_owner_records[tor_index];
        let dec = if tor.outstanding_proposal_count > 0 {
            tor.outstanding_proposal_count - 1
        } else {
            0
        };
        self.set_tor_same_counts(
            tor_index,
            TokenOwnerRecord { outstanding_proposal_count: dec, ..tor },
        );
        let snapshot = self.total_deposited;
        let p = &mut self.proposals[prop_index];
        p.state = ProposalState::Voting;
        p.voting_starts_at = Some(now);
        p.max_voting_weight = snapshot;
        Ok(())
    }

    /// Cancels a proposal from any pre-decided state; on a proposal already
    /// in a terminal state the call deterministically does nothing. Only a
    /// proposal in Succeeded or Executing cannot be cancelled.
    pub fn cancel_proposal(&mut self, prop_index: usize, tor_index: usize, authority: u64)
        -> (r: Result<(), GovernanceError>)
        requires
            old(self).wf(),
        ensures
            final(self).wf(),
            Realm::proposals_monotonic(*old(self), *final(self)),
            r is Ok <==> cancel_ok(*old(self), prop_index as int, tor_index as int,
                authority),
            r is Err ==> *final(self) == *old(self),
            r is Ok ==> cancel_applied(*old(self), *final(self), prop_index as int,
                tor_index as int),
    {
        if let Err(e) = self.check_proposal_owner_authority(prop_index, tor_index, authority) {
            return Err(e);
        }
        let state = self.proposals[prop_index].state;
        if state == ProposalState::Succeeded || state == ProposalState::Executing {
            return Err(GovernanceError::InvalidProposalState);
        }
        if is_terminal(state) {
            return Ok(());
        }
        let tor = self.token_owner_records[tor_index];
        let dec = if state != ProposalState::Voting && tor.outstanding_proposal_count > 0 {
            tor.outstanding_proposal_count - 1
        } else {
            tor.outstanding_proposal_count
        };
        self.set_tor_same_counts(
            tor_index,
            TokenOwnerRecord { outstanding_proposal_count: dec, ..tor },
        );
        let p = &mut self.proposals[prop_index];
        p.state = ProposalState::Cancelled;
        Ok(())
    }

    /// Council override: vetoes a proposal while it is in voting. Only the
    /// realm's council authority may do this.
    pub fn veto_proposal(&mut self, prop_index: usize, authority: u64, now: u64) -> (r: Result<
        (),
        GovernanceError,
    >)
        requires
            old(self).wf(),
        ensures
            final(self).wf(),
            Realm::proposals_monotonic(*old(self), *final(self)),
            r is Ok <==> veto_ok(*old(self), prop_index as int, authority),
            r is Err ==> *final(self) == *old(self),
            prop_index < old(self).proposals@.len() && old(self).council != Some(authority)
                ==> r == Result::<(), GovernanceError>::Err(GovernanceError::NotAuthorized),
            r is Ok ==> veto_applied(*old(self), *final(self), prop_index as int, now),
    {
        if prop_index >= self.proposals.len() {
            return Err(GovernanceError::InvalidAccountIndex);
        }
        let authorized = match self.council {
            Some(c) => c == authority,
            None => false,
        };
        if !authorized {
            return Err(GovernanceError::NotAuthorized);
        }
        if !(self.proposals[prop_index].state == ProposalState::Voting) {
            return Err(GovernanceError::InvalidProposalState);
        }
        let p = &mut self.proposals[prop_index];
        p.state = ProposalState::Vetoed;
        p.voting_completed_at = Some(now);
        Ok(())
    }
}

} // verus!
