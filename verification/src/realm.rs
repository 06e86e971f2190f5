//! The realm: the root container holding governances, token owner records,
//! proposals and vote records, with the cross-record invariants every
//! operation preserves — most importantly, that each owner's outstanding-vote
//! counter equals the number of their unrelinquished vote records.

use vstd::prelude::*;
use crate::config::{GovernanceConfig, spec_config_valid, validate_config};
use crate::errors::GovernanceError;
use crate::proposal::{Proposal, proposal_wf};
use crate::records::{
    TokenOwnerRecord, VoteRecord, active_vote_count, active_for,
    sum_deposits, lemma_sum_push, lemma_sum_update, lemma_sum_index_bound,
    lemma_count_zero, spec_owner_or_delegate, is_owner_or_delegate,
};
use crate::state::{state_rank, transition_allowed};

verus! {

/// What kind of external resource a governance entity signs for.
#[derive(Clone, Copy, Debug, PartialEq, Eq, Structural)]
pub enum GovernedResourceKind {
    /// An upgradeable program.
    Program,
    /// A token mint.
    Mint,
    /// A token account.
    TokenAccount,
    /// A generic treasury.
    Treasury,
}

/// A policy-bearing entity acting as programmatic signer over one resource.
#[derive(Clone, Copy, Debug, PartialEq, Eq, Structural)]
pub struct Governance {
    /// This governance's key.
    pub key: u64,
    /// The kind of resource governed.
    pub resource_kind: GovernedResourceKind,
    /// The governed resource's key.
    pub governed_resource: u64,
    /// Policy parameters; replaced only through an executed proposal.
    pub config: GovernanceConfig,
    /// Number of proposals ever created under this governance.
    pub proposal_count: u64,
}

/// How to change the realm's authority.
#[derive(Clone, Copy, Debug, PartialEq, Eq, Structural)]
pub enum RealmAuthorityAction {
    /// Set a new authority without further checks.
    SetUnchecked(u64),
    /// Set a new authority that must be one of the realm's governances.
    SetChecked(u64),
    /// Remove the authority.
    Remove,
}

/// Some token owner record belongs to `owner`.
pub open spec fn owner_present(s: Seq<TokenOwnerRecord>, owner: u64) -> bool {
    exists|j: int| 0 <= j < s.len() && s[j].owner == owner
}

/// An update that keeps a slot's owner keeps every owner present.
pub proof fn lemma_owner_present_update(
    s: Seq<TokenOwnerRecord>,
    i: int,
    v: TokenOwnerRecord,
    owner: u64,
)
    requires
        0 <= i < s.len(),
        v.owner == s[i].owner,
        owner_present(s, owner),
    ensures
        owner_present(s.update(i, v), owner),
{
    let j = choose|j: int| 0 <= j < s.len() && s[j].owner == owner;
    assert(s.update(i, v)[j].owner == owner);
}

/// Appending a record keeps every owner present.
pub proof fn lemma_owner_present_push(
    s: Seq<TokenOwnerRecord>,
    v: TokenOwnerRecord,
    owner: u64,
)
    requires
        owner_present(s, owner),
    ensures
        owner_present(s.push(v), owner),
{
    let j = choose|j: int| 0 <= j < s.len() && s[j].owner == owner;
    assert(s.push(v)[j].owner == owner);
}

/// In every well-formed realm — and every operation both requires and
/// re-establishes well-formedness — each owner's outstanding-vote counter
/// equals the number of their vote records not yet relinquished. No vote is
/// ever dropped without a matching decrement, so deposits can always be
/// unlocked by relinquishing.
pub proof fn lemma_vote_counter_balanced(realm: Realm, i: int)
    requires
        realm.wf(),
        0 <= i < realm.token_owner_records@.len(),
    ensures
        realm.token_owner_records@[i].unrelinquished_votes_count
            == active_vote_count(realm.vote_records@, realm.token_owner_records@[i].owner),
{
}

/// Root container for one organization's governance universe.
#[derive(Clone, Debug, PartialEq, Eq)]
pub struct Realm {
    /// Display name.
    pub name: String,
    /// The community token mint; immutable after creation.
    pub community_mint: u64,
    /// The council's authority key, if the realm has a council; the council
    /// may veto proposals while they are in voting.
    pub council: Option<u64>,
    /// The realm authority, if any.
    pub authority: Option<u64>,
    /// Minimum voting weight an owner needs to create a governance.
    pub min_weight_to_create_governance: u64,
    /// The governance entities of the realm.
    pub governances: Vec<Governance>,
    /// One record per participant.
    pub token_owner_records: Vec<TokenOwnerRecord>,
    /// All proposals, across all governances.
    pub proposals: Vec<Proposal>,
    /// All cast votes, kept as an audit trail after relinquishing.
    pub vote_records: Vec<VoteRecord>,
    /// Sum of all deposited amounts; the max-voting-weight snapshot source.
    pub total_deposited: u64,
    /// Key for the next governance.
    pub next_governance_key: u64,
    /// Key for the next proposal.
    pub next_proposal_key: u64,
}

impl Realm {
    /// No two token owner records share an owner.
    pub open spec fn owners_distinct(self) -> bool {
        forall|i: int, j: int|
            0 <= i < j < self.token_owner_records@.len()
                ==> #[trigger] self.token_owner_records@[i].owner
                    != #[trigger] self.token_owner_records@[j].owner
    }

    /// Governance keys are distinct, below the next key, and carry valid configs.
    pub open spec fn governances_wf(self) -> bool {
        &&& forall|i: int|
            0 <= i < self.governances@.len()
                ==> (#[trigger] self.governances@[i]).key < self.next_governance_key
                    && spec_config_valid(self.governances@[i].config)
        &&& forall|i: int, j: int|
            0 <= i < j < self.governances@.len()
                ==> #[trigger] self.governances@[i].key != #[trigger] self.governances@[j].key
    }

    /// Proposal keys are distinct and below the next key; each proposal is
    /// internally well-formed.
    pub open spec fn proposals_wf(self) -> bool {
        &&& forall|i: int|
            0 <= i < self.proposals@.len()
                ==> (#[trigger] self.proposals@[i]).key < self.next_proposal_key
                    && proposal_wf(self.proposals@[i])
        &&& forall|i: int, j: int|
            0 <= i < j < self.proposals@.len()
                ==> #[trigger] self.proposals@[i].key != #[trigger] self.proposals@[j].key
    }

    /// Every owner's outstanding-vote counter equals the number of their
    /// unrelinquished vote records.
    pub open spec fn vote_counts_consistent(self) -> bool {
        forall|i: int|
            0 <= i < self.token_owner_records@.len()
                ==> (#[trigger] self.token_owner_records@[i]).unrelinquished_votes_count
                    == active_vote_count(self.vote_records@,
                        self.token_owner_records@[i].owner)
    }

    /// At most one vote record per (proposal, voter) pair.
    pub open spec fn vote_records_unique(self) -> bool {
        forall|i: int, j: int|
            0 <= i < j < self.vote_records@.len()
                ==> !((#[trigger] self.vote_records@[i]).proposal_key
                    == (#[trigger] self.vote_records@[j]).proposal_key
                    && self.vote_records@[i].voter == self.vote_records@[j].voter)
    }

    /// Every vote record's voter has a token owner record.
    pub open spec fn vote_records_have_owners(self) -> bool {
        forall|i: int|
            0 <= i < self.vote_records@.len()
                ==> owner_present(self.token_owner_records@,
                    (#[trigger] self.vote_records@[i]).voter)
    }

    /// The running total equals the sum of all deposits.
    pub open spec fn total_matches_deposits(self) -> bool {
        self.total_deposited == sum_deposits(self.token_owner_records@)
    }

    /// The realm invariant every operation preserves.
    pub open spec fn wf(self) -> bool {
        &&& self.owners_distinct()
        &&& self.governances_wf()
        &&& self.proposals_wf()
        &&& self.vote_counts_consistent()
        &&& self.vote_records_unique()
        &&& self.vote_records_have_owners()
        &&& self.total_matches_deposits()
    }

    /// Fields outside the voting-power ledger are unchanged.
    pub open spec fn same_but_ledger(pre: Realm, post: Realm) -> bool {
        &&& post.name == pre.name
        &&& post.community_mint == pre.community_mint
        &&& post.council == pre.council
        &&& post.authority == pre.authority
        &&& post.min_weight_to_create_governance == pre.min_weight_to_create_governance
        &&& post.governances@ == pre.governances@
        &&& post.proposals@ == pre.proposals@
        &&& post.vote_records@ == pre.vote_records@
        &&& post.next_governance_key == pre.next_governance_key
        &&& post.next_proposal_key == pre.next_proposal_key
    }

    /// No proposal was replaced by another, and each proposal's state either
    /// stayed put or took one allowed lifecycle transition — so ranks never
    /// decrease, decided states are never traded for one another, and
    /// terminal states are never left.
    pub open spec fn proposals_monotonic(pre: Realm, post: Realm) -> bool {
        &&& post.proposals@.len() >= pre.proposals@.len()
        &&& forall|i: int|
            0 <= i < pre.proposals@.len() ==> {
                &&& (#[trigger] post.proposals@[i]).key == pre.proposals@[i].key
                &&& state_rank(post.proposals@[i].state)
                    >= state_rank(pre.proposals@[i].state)
                &&& (post.proposals@[i].state == pre.proposals@[i].state
                    || transition_allowed(pre.proposals@[i].state,
                        post.proposals@[i].state))
            }
    }

    /// All inputs `create_token_owner_record` accepts.
    pub open spec fn create_token_owner_record_ok(pre: Realm, owner: u64) -> bool {
        !owner_present(pre.token_owner_records@, owner)
    }

    /// Exact state change of a successful `create_token_owner_record`.
    pub open spec fn create_token_owner_record_applied(
        pre: Realm,
        post: Realm,
        owner: u64,
        index: int,
    ) -> bool {
        &&& Realm::same_but_ledger(pre, post)
        &&& post.total_deposited == pre.total_deposited
        &&& index == pre.token_owner_records@.len()
        &&& post.token_owner_records@ == pre.token_owner_records@.push(TokenOwnerRecord {
            owner,
            deposited_amount: 0,
            unrelinquished_votes_count: 0,
            outstanding_proposal_count: 0,
            delegate: None,
        })
    }

    /// All inputs `deposit_governing_tokens` accepts.
    pub open spec fn deposit_ok(pre: Realm, tor_index: int, amount: u64) -> bool {
        &&& 0 <= tor_index < pre.token_owner_records@.len()
        &&& pre.token_owner_records@[tor_index].deposited_amount + amount <= u64::MAX
        &&& pre.total_deposited + amount <= u64::MAX
    }

    /// Exact state change of a successful `deposit_governing_tokens`.
    pub open spec fn deposit_applied(pre: Realm, post: Realm, tor_index: int, amount: u64)
        -> bool {
        &&& Realm::same_but_ledger(pre, post)
        &&& post.total_deposited == pre.total_deposited + amount
        &&& post.token_owner_records@ == pre.token_owner_records@.update(tor_index,
            TokenOwnerRecord {
                deposited_amount: (pre.token_owner_records@[tor_index].deposited_amount
                    + amount) as u64,
                ..pre.token_owner_records@[tor_index]
            })
    }

    /// All inputs `withdraw_governing_tokens` accepts.
    pub open spec fn withdraw_ok(pre: Realm, tor_index: int) -> bool {
        &&& 0 <= tor_index < pre.token_owner_records@.len()
        &&& pre.token_owner_records@[tor_index].unrelinquished_votes_count == 0
        &&& pre.token_owner_records@[tor_index].outstanding_proposal_count == 0
    }

    /// Exact state change of a successful `withdraw_governing_tokens`.
    pub open spec fn withdraw_applied(pre: Realm, post: Realm, tor_index: int, amount: u64)
        -> bool {
        &&& Realm::same_but_ledger(pre, post)
        &&& amount == pre.token_owner_records@[tor_index].deposited_amount
        &&& post.total_deposited == pre.total_deposited - amount
        &&& post.token_owner_records@ == pre.token_owner_records@.update(tor_index,
            TokenOwnerRecord { deposited_amount: 0, ..pre.token_owner_records@[tor_index] })
    }

    /// All inputs `revoke_governing_tokens` accepts.
    pub open spec fn revoke_ok(pre: Realm, tor_index: int, authority: u64, amount: u64)
        -> bool {
        &&& pre.authority == Some(authority)
        &&& 0 <= tor_index < pre.token_owner_records@.len()
        &&& amount <= pre.token_owner_records@[tor_index].deposited_amount
    }

    /// Exact state change of a successful `revoke_governing_tokens`.
    pub open spec fn revoke_applied(pre: Realm, post: Realm, tor_index: int, amount: u64)
        -> bool {
        &&& Realm::same_but_ledger(pre, post)
        &&& post.total_deposited == pre.total_deposited - amount
        &&& post.token_owner_records@ == pre.token_owner_records@.update(tor_index,
            TokenOwnerRecord {
                deposited_amount: (pre.token_owner_records@[tor_index].deposited_amount
                    - amount) as u64,
                ..pre.token_owner_records@[tor_index]
            })
    }

    /// All inputs `set_governance_delegate` accepts.
    pub open spec fn set_delegate_ok(pre: Realm, tor_index: int, authority: u64) -> bool {
        &&& 0 <= tor_index < pre.token_owner_records@.len()
        &&& spec_owner_or_delegate(pre.token_owner_records@[tor_index], authority)
    }

    /// Exact state change of a successful `set_governance_delegate`.
    pub open spec fn set_delegate_applied(
        pre: Realm,
        post: Realm,
        tor_index: int,
        new_delegate: Option<u64>,
    ) -> bool {
        &&& Realm::same_but_ledger(pre, post)
        &&& post.total_deposited == pre.total_deposited
        &&& post.token_owner_records@ == pre.token_owner_records@.update(tor_index,
            TokenOwnerRecord {
                delegate: new_delegate,
                ..pre.token_owner_records@[tor_index]
            })
    }

    /// All inputs `create_governance` accepts: a valid config, and either the
    /// realm authority's signature or a creator record whose owner or
    /// delegate signs and whose deposit meets the realm's minimum.
    pub open spec fn create_governance_ok(
        pre: Realm,
        authority: u64,
        creator_tor_index: Option<usize>,
        config: GovernanceConfig,
    ) -> bool {
        &&& spec_config_valid(config)
        &&& (pre.authority == Some(authority) || match creator_tor_index {
            Some(ti) => {
                &&& ti < pre.token_owner_records@.len()
                &&& spec_owner_or_delegate(pre.token_owner_records@[ti as int], authority)
                &&& pre.token_owner_records@[ti as int].deposited_amount
                    >= pre.min_weight_to_create_governance
            },
            None => false,
        })
        &&& pre.next_governance_key + 1 <= u64::MAX
    }

    /// Exact state change of a successful `create_governance`: one governance
    /// appended under the next key, and nothing else — not the ledger, not
    /// the proposals, not the realm's own configuration.
    pub open spec fn create_governance_applied(
        pre: Realm,
        post: Realm,
        resource_kind: GovernedResourceKind,
        governed_resource: u64,
        config: GovernanceConfig,
        key: u64,
    ) -> bool {
        &&& key == pre.next_governance_key
        &&& post.governances@ == pre.governances@.push(Governance {
            key: pre.next_governance_key,
            resource_kind,
            governed_resource,
            config,
            proposal_count: 0,
        })
        &&& post.next_governance_key == pre.next_governance_key + 1
        &&& (post == (Realm {
            governances: post.governances,
            next_governance_key: post.next_governance_key,
            ..pre
        }))
    }

    /// All inputs `set_realm_authority` accepts: the current authority signs,
    /// and a checked transfer names one of the realm's governances.
    pub open spec fn set_realm_authority_ok(
        pre: Realm,
        authority: u64,
        action: RealmAuthorityAction,
    ) -> bool {
        &&& pre.authority == Some(authority)
        &&& match action {
            RealmAuthorityAction::SetChecked(a) => exists|i: int|
                0 <= i < pre.governances@.len() && pre.governances@[i].key == a,
            _ => true,
        }
    }

    /// Exact state change of a successful `set_realm_authority`.
    pub open spec fn set_realm_authority_applied(
        pre: Realm,
        post: Realm,
        action: RealmAuthorityAction,
    ) -> bool {
        &&& (post == (Realm { authority: post.authority, ..pre }))
        &&& post.authority == match action {
            RealmAuthorityAction::SetUnchecked(a) => Some(a),
            RealmAuthorityAction::SetChecked(a) => Some(a),
            RealmAuthorityAction::Remove => None::<u64>,
        }
    }

    /// All inputs `set_realm_config` accepts.
    pub open spec fn set_realm_config_ok(pre: Realm, authority: u64) -> bool {
        pre.authority == Some(authority)
    }

    /// Exact state change of a successful `set_realm_config`.
    pub open spec fn set_realm_config_applied(
        pre: Realm,
        post: Realm,
        council: Option<u64>,
        min_weight_to_create_governance: u64,
    ) -> bool {
        post == (Realm { council, min_weight_to_create_governance, ..pre })
    }

    /// Creates an empty realm: the community mint identity is fixed here and
    /// never changes afterwards.
    pub fn new(
        name: String,
        community_mint: u64,
        council: Option<u64>,
        authority: Option<u64>,
        min_weight_to_create_governance: u64,
    ) -> (r: Realm)
        ensures
            r.wf(),
            r.name == name,
            r.community_mint == community_mint,
            r.council == council,
            r.authority == authority,
            r.min_weight_to_create_governance == min_weight_to_create_governance,
            r.governances@.len() == 0,
            r.token_owner_records@.len() == 0,
            r.proposals@.len() == 0,
            r.vote_records@.len() == 0,
            r.total_deposited == 0,
    {
        Realm {
            name,
            community_mint,
            council,
            authority,
            min_weight_to_create_governance,
            governances: Vec::new(),
            token_owner_records: Vec::new(),
            proposals: Vec::new(),
            vote_records: Vec::new(),
            total_deposited: 0,
            next_governance_key: 0,
            next_proposal_key: 0,
        }
    }

    /// Runtime lookup of an owner's record index; `None` exactly when the
    /// owner has no record.
    pub fn find_token_owner_record(&self, owner: u64) -> (r: Option<usize>)
        ensures
            match r {
                Some(i) => i < self.token_owner_records@.len()
                    && self.token_owner_records@[i as int].owner == owner,
                None => !owner_present(self.token_owner_records@, owner),
            },
    {
        let mut i: usize = 0;
        while i < self.token_owner_records.len()
            invariant
                i <= self.token_owner_records@.len(),
                forall|j: int| 0 <= j < i ==> self.token_owner_records@[j].owner != owner,
            decreases self.token_owner_records@.len() - i,
        {
            if self.token_owner_records[i].owner == owner {
                return Some(i);
            }
            i = i + 1;
        }
        None
    }

    /// Registers a participant with an empty deposit. Fails exactly when a
    /// record for the owner already exists.
    pub fn create_token_owner_record(&mut self, owner: u64) -> (r: Result<
        usize,
        GovernanceError,
    >)
        requires
            old(self).wf(),
        ensures
            final(self).wf(),
            Realm::proposals_monotonic(*old(self), *final(self)),
            r is Ok <==> Realm::create_token_owner_record_ok(*old(self), owner),
            r is Err ==> *final(self) == *old(self)
                && r == Result::<usize, GovernanceError>::Err(
                GovernanceError::OwnerRecordAlreadyExists),
            r matches Ok(i) ==> Realm::create_token_owner_record_applied(*old(self),
                *final(self), owner, i as int),
    {
        if let Some(_) = self.find_token_owner_record(owner) {
            return Err(GovernanceError::OwnerRecordAlreadyExists);
        }
        let tor = TokenOwnerRecord {
            owner,
            deposited_amount: 0,
            unrelinquished_votes_count: 0,
            outstanding_proposal_count: 0,
            delegate: None,
        };
        let index = self.token_owner_records.len();
        proof {
            lemma_sum_push(self.token_owner_records@, tor);
            lemma_count_zero(self.vote_records@, active_for(owner));
            assert forall|i: int| 0 <= i < self.vote_records@.len()
                implies owner_present(self.token_owner_records@.push(tor),
                    (#[trigger] self.vote_records@[i]).voter) by {
                lemma_owner_present_push(self.token_owner_records@, tor,
                    self.vote_records@[i].voter);
            };
        }
        self.token_owner_records.push(tor);
        Ok(index)
    }

    /// Adds deposited tokens to an owner's voting weight. The token transfer
    /// itself is the surrounding program's business; the ledger records the
    /// resulting weight.
    pub fn deposit_governing_tokens(&mut self, tor_index: usize, amount: u64) -> (r: Result<
        (),
        GovernanceError,
    >)
        requires
            old(self).wf(),
        ensures
            final(self).wf(),
            Realm::proposals_monotonic(*old(self), *final(self)),
            r is Ok <==> Realm::deposit_ok(*old(self), tor_index as int, amount),
            r is Err ==> *final(self) == *old(self),
            !(tor_index < old(self).token_owner_records@.len()) ==> r
                == Result::<(), GovernanceError>::Err(GovernanceError::InvalidAccountIndex),
            r is Ok ==> Realm::deposit_applied(*old(self), *final(self), tor_index as int,
                amount),
    {
        if tor_index >= self.token_owner_records.len() {
            return Err(GovernanceError::InvalidAccountIndex);
        }
        let tor = self.token_owner_records[tor_index];
        let new_deposit = match tor.deposited_amount.checked_add(amount) {
            Some(v) => v,
            None => {
                return Err(GovernanceError::ArithmeticOverflow);
            },
        };
        let new_total = match self.total_deposited.checked_add(amount) {
            Some(v) => v,
            None => {
                return Err(GovernanceError::ArithmeticOverflow);
            },
        };
        let updated = TokenOwnerRecord { deposited_amount: new_deposit, ..tor };
        proof {
            lemma_sum_update(self.token_owner_records@, tor_index as int, updated);
            assert forall|i: int| 0 <= i < self.vote_records@.len()
                implies owner_present(self.token_owner_records@.update(tor_index as int,
                    updated), (#[trigger] self.vote_records@[i]).voter) by {
                lemma_owner_present_update(self.token_owner_records@, tor_index as int,
                    updated, self.vote_records@[i].voter);
            };
        }
        self.token_owner_records[tor_index] = updated;
        self.total_deposited = new_total;
        Ok(())
    }

    /// Releases an owner's whole deposit. Withdrawal is blocked while the
    /// owner has unrelinquished votes or outstanding proposals; the returned
    /// amount is what the surrounding program must pay back.
    pub fn withdraw_governing_tokens(&mut self, tor_index: usize) -> (r: Result<
        u64,
        GovernanceError,
    >)
        requires
            old(self).wf(),
        ensures
            final(self).wf(),
            Realm::proposals_monotonic(*old(self), *final(self)),
            r is Ok <==> Realm::withdraw_ok(*old(self), tor_index as int),
            r is Err ==> *final(self) == *old(self),
            tor_index < old(self).token_owner_records@.len()
                && old(self).token_owner_records@[tor_index as int]
                    .unrelinquished_votes_count != 0
                ==> r == Result::<u64, GovernanceError>::Err(GovernanceError::OutstandingVotes),
            r matches Ok(amount) ==> Realm::withdraw_applied(*old(self), *final(self),
                tor_index as int, amount),
    {
        if tor_index >= self.token_owner_records.len() {
            return Err(GovernanceError::InvalidAccountIndex);
        }
        let tor = self.token_owner_records[tor_index];
        if tor.unrelinquished_votes_count != 0 {
            return Err(GovernanceError::OutstandingVotes);
        }
        if tor.outstanding_proposal_count != 0 {
            return Err(GovernanceError::OutstandingProposals);
        }
        let amount = tor.deposited_amount;
        let updated = TokenOwnerRecord { deposited_amount: 0, ..tor };
        proof {
            lemma_sum_index_bound(self.token_owner_records@, tor_index as int);
            lemma_sum_update(self.token_owner_records@, tor_index as int, updated);
            assert forall|i: int| 0 <= i < self.vote_records@.len()
                implies owner_present(self.token_owner_records@.update(tor_index as int,
                    updated), (#[trigger] self.vote_records@[i]).voter) by {
                lemma_owner_present_update(self.token_owner_records@, tor_index as int,
                    updated, self.vote_records@[i].voter);
            };
        }
        self.token_owner_records[tor_index] = updated;
        self.total_deposited = self.total_deposited - amount;
        Ok(amount)
    }

    /// Removes revocable membership weight from an owner; only the realm
    /// authority may do this.
    pub fn revoke_governing_tokens(&mut self, tor_index: usize, authority: u64, amount: u64)
        -> (r: Result<(), GovernanceError>)
        requires
            old(self).wf(),
        ensures
            final(self).wf(),
            Realm::proposals_monotonic(*old(self), *final(self)),
            r is Ok <==> Realm::revoke_ok(*old(self), tor_index as int, authority, amount),
            r is Err ==> *final(self) == *old(self),
            old(self).authority != Some(authority) ==> r
                == Result::<(), GovernanceError>::Err(GovernanceError::NotAuthorized),
            r is Ok ==> Realm::revoke_applied(*old(self), *final(self), tor_index as int,
                amount),
    {
        let authorized = match self.authority {
            Some(a) => a == authority,
            None => false,
        };
        if !authorized {
            return Err(GovernanceError::NotAuthorized);
        }
        if tor_index >= self.token_owner_records.len() {
            return Err(GovernanceError::InvalidAccountIndex);
        }
        let tor = self.token_owner_records[tor_index];
        if amount > tor.deposited_amount {
            return Err(GovernanceError::InsufficientDeposit);
        }
        let updated = TokenOwnerRecord {
            deposited_amount: tor.deposited_amount - amount,
            ..tor
        };
        proof {
            lemma_sum_index_bound(self.token_owner_records@, tor_index as int);
            lemma_sum_update(self.token_owner_records@, tor_index as int, updated);
            assert forall|i: int| 0 <= i < self.vote_records@.len()
                implies owner_present(self.token_owner_records@.update(tor_index as int,
                    updated), (#[trigger] self.vote_records@[i]).voter) by {
                lemma_owner_present_update(self.token_owner_records@, tor_index as int,
                    updated, self.vote_records@[i].voter);
            };
        }
        self.token_owner_records[tor_index] = updated;
        self.total_deposited = self.total_deposited - amount;
        Ok(())
    }

    /// Changes who may vote on the owner's behalf; the owner or the current
    /// delegate must sign.
    pub fn set_governance_delegate(
        &mut self,
        tor_index: usize,
        authority: u64,
        new_delegate: Option<u64>,
    ) -> (r: Result<(), GovernanceError>)
        requires
            old(self).wf(),
        ensures
            final(self).wf(),
            Realm::proposals_monotonic(*old(self), *final(self)),
            r is Ok <==> Realm::set_delegate_ok(*old(self), tor_index as int, authority),
            r is Err ==> *final(self) == *old(self),
            r is Ok ==> Realm::set_delegate_applied(*old(self), *final(self),
                tor_index as int, new_delegate),
    {
        if tor_index >= self.token_owner_records.len() {
            return Err(GovernanceError::InvalidAccountIndex);
        }
        let tor = self.token_owner_records[tor_index];
        if !is_owner_or_delegate(&tor, authority) {
            return Err(GovernanceError::NotAuthorized);
        }
        let updated = TokenOwnerRecord { delegate: new_delegate, ..tor };
        proof {
            lemma_sum_update(self.token_owner_records@, tor_index as int, updated);
            assert forall|i: int| 0 <= i < self.vote_records@.len()
                implies owner_present(self.token_owner_records@.update(tor_index as int,
                    updated), (#[trigger] self.vote_records@[i]).voter) by {
                lemma_owner_present_update(self.token_owner_records@, tor_index as int,
                    updated, self.vote_records@[i].voter);
            };
        }
        self.token_owner_records[tor_index] = updated;
        Ok(())
    }

    /// Creates a governance over one resource. The realm authority may create
    /// one directly; otherwise the creator must control at least the realm's
    /// minimum weight.
    pub fn create_governance(
        &mut self,
        authority: u64,
        creator_tor_index: Option<usize>,
        resource_kind: GovernedResourceKind,
        governed_resource: u64,
        config: GovernanceConfig,
    ) -> (r: Result<u64, GovernanceError>)
        requires
            old(self).wf(),
        ensures
            final(self).wf(),
            Realm::proposals_monotonic(*old(self), *final(self)),
            r is Ok <==> Realm::create_governance_ok(*old(self), authority,
                creator_tor_index, config),
            r is Err ==> *final(self) == *old(self),
            !spec_config_valid(config) ==> r == Result::<u64, GovernanceError>::Err(
                GovernanceError::InvalidConfig),
            r matches Ok(key) ==> Realm::create_governance_applied(*old(self), *final(self),
                resource_kind, governed_resource, config, key),
    {
        if let Err(e) = validate_config(&config) {
            return Err(e);
        }
        let realm_authority_signs = match self.authority {
            Some(a) => a == authority,
            None => false,
        };
        let creator_allowed = if realm_authority_signs {
            true
        } else {
            match creator_tor_index {
                Some(ti) => {
                    if ti < self.token_owner_records.len() {
                        let tor = self.token_owner_records[ti];
                        is_owner_or_delegate(&tor, authority)
                            && tor.deposited_amount >= self.min_weight_to_create_governance
                    } else {
                        false
                    }
                },
                None => false,
            }
        };
        if !creator_allowed {
            return Err(GovernanceError::NotAuthorized);
        }
        let key = self.next_governance_key;
        let next = match self.next_governance_key.checked_add(1) {
            Some(v) => v,
            None => {
                return Err(GovernanceError::ArithmeticOverflow);
            },
        };
        let governance = Governance {
            key,
            resource_kind,
            governed_resource,
            config,
            proposal_count: 0,
        };
        self.governances.push(governance);
        self.next_governance_key = next;
        Ok(key)
    }

    /// Transfers or removes the realm authority; the current authority must
    /// sign, and a checked transfer must name one of the realm's governances.
    pub fn set_realm_authority(&mut self, authority: u64, action: RealmAuthorityAction)
        -> (r: Result<(), GovernanceError>)
        requires
            old(self).wf(),
        ensures
            final(self).wf(),
            Realm::proposals_monotonic(*old(self), *final(self)),
            r is Ok <==> Realm::set_realm_authority_ok(*old(self), authority, action),
            r is Err ==> *final(self) == *old(self),
            old(self).authority != Some(authority) ==> r
                == Result::<(), GovernanceError>::Err(GovernanceError::NotAuthorized),
            r is Ok ==> Realm::set_realm_authority_applied(*old(self), *final(self), action),
    {
        let authorized = match self.authority {
            Some(a) => a == authority,
            None => false,
        };
        if !authorized {
            return Err(GovernanceError::NotAuthorized);
        }
        match action {
            RealmAuthorityAction::SetUnchecked(a) => {
                self.authority = Some(a);
                Ok(())
            },
            RealmAuthorityAction::SetChecked(a) => {
                let mut i: usize = 0;
                let mut found = false;
                while i < self.governances.len()
                    invariant
                        i <= self.governances@.len(),
                        found ==> exists|j: int|
                            0 <= j < self.governances@.len()
                                && self.governances@[j].key == a,
                        !found ==> forall|j: int|
                            0 <= j < i ==> self.governances@[j].key != a,
                    decreases self.governances@.len() - i,
                {
                    if self.governances[i].key == a {
                        found = true;
                    }
                    i = i + 1;
                }
                if !found {
                    return Err(GovernanceError::AccountMismatch);
                }
                self.authority = Some(a);
                Ok(())
            },
            RealmAuthorityAction::Remove => {
                self.authority = None;
                Ok(())
            },
        }
    }

    /// Updates the realm's mutable configuration; the authority must sign.
    /// The community mint is immutable by construction: no operation touches it.
    pub fn set_realm_config(
        &mut self,
        authority: u64,
        council: Option<u64>,
        min_weight_to_create_governance: u64,
    ) -> (r: Result<(), GovernanceError>)
        requires
            old(self).wf(),
        ensures
            final(self).wf(),
            Realm::proposals_monotonic(*old(self), *final(self)),
            r is Ok <==> Realm::set_realm_config_ok(*old(self), authority),
            r is Err ==> *final(self) == *old(self)
                && r == Result::<(), GovernanceError>::Err(GovernanceError::NotAuthorized),
            r is Ok ==> Realm::set_realm_config_applied(*old(self), *final(self), council,
                min_weight_to_create_governance),
    {
        let authorized = match self.authority {
            Some(a) => a == authority,
            None => false,
        };
        if !authorized {
            return Err(GovernanceError::NotAuthorized);
        }
        self.council = council;
        self.min_weight_to_create_governance = min_weight_to_create_governance;
        Ok(())
    }

    /// Replaces a token owner record without touching its owner, deposit or
    /// vote counter, so every ledger invariant is preserved as-is.
    pub(crate) fn set_tor_same_counts(&mut self, i: usize, updated: TokenOwnerRecord)
        requires
            old(self).wf(),
            i < old(self).token_owner_records@.len(),
            updated.owner == old(self).token_owner_records@[i as int].owner,
            updated.deposited_amount
                == old(self).token_owner_records@[i as int].deposited_amount,
            updated.unrelinquished_votes_count
                == old(self).token_owner_records@[i as int].unrelinquished_votes_count,
        ensures
            final(self).wf(),
            Realm::same_but_ledger(*old(self), *final(self)),
            final(self).total_deposited == old(self).total_deposited,
            final(self).token_owner_records@
                == old(self).token_owner_records@.update(i as int, updated),
            (*final(self) == (Realm {
                token_owner_records: final(self).token_owner_records,
                ..*old(self)
            })),
    {
        proof {
            lemma_sum_update(self.token_owner_records@, i as int, updated);
            assert forall|k: int| 0 <= k < self.vote_records@.len()
                implies owner_present(self.token_owner_records@.update(i as int, updated),
                    (#[trigger] self.vote_records@[k]).voter) by {
                lemma_owner_present_update(self.token_owner_records@, i as int, updated,
                    self.vote_records@[k].voter);
            };
        }
        self.token_owner_records[i] = updated;
    }
}

} // verus!
