//! The transaction execution engine: attaching instruction bundles to
//! options before voting, executing them at most once after the hold-up
//! delay, recording external failures, completing proposals and refunding
//! the creation deposit. Executing a transaction mints an `ExecutionGrant`,
//! the only capability with which a governance's own config may be changed.

use vstd::prelude::*;
use crate::config::{GovernanceConfig, spec_config_valid, validate_config};
use crate::errors::GovernanceError;
use crate::proposal::{
    Proposal, ProposalOption, ProposalTransaction, OptionVoteResult,
    spec_all_winning_executed, all_winning_executed,
};
use crate::realm::{Realm, Governance};
use crate::state::{ProposalState, spec_is_terminal, is_terminal};

verus! {

/// Proof that a transaction of a succeeded proposal under a governance was
/// just executed. Only `execute_transaction` can mint one — the field is
/// private and no other constructor exists — so "sign as the governance" is
/// reachable only through a proposal that won its vote.
#[derive(Clone, Copy, Debug, PartialEq, Eq)]
pub struct ExecutionGrant {
    governance_key: u64,
}

impl ExecutionGrant {
    /// The governance this grant signs for.
    pub closed spec fn spec_governance_key(&self) -> u64 {
        self.governance_key
    }

    /// Runtime accessor for the governance the grant signs for.
    pub fn governance_key(&self) -> (r: u64)
        ensures
            r == self.spec_governance_key(),
    {
        self.governance_key
    }
}

/// States in which attached transactions may be executed.
pub open spec fn spec_executable_state(s: ProposalState) -> bool {
    s == ProposalState::Succeeded || s == ProposalState::Executing
        || s == ProposalState::ExecutingWithErrors
}

/// States in which the transaction list may still be edited: before voting
/// opens the set of transactions is not yet frozen.
pub open spec fn spec_editable_state(s: ProposalState) -> bool {
    s == ProposalState::Draft || s == ProposalState::SigningOff
}

/// All inputs `execute_transaction` accepts.
pub open spec fn execute_ok(
    realm: Realm,
    pi: int,
    gi: int,
    oi: int,
    ti: int,
    now: u64,
) -> bool {
    &&& 0 <= pi < realm.proposals@.len()
    &&& 0 <= gi < realm.governances@.len()
    &&& realm.governances@[gi].key == realm.proposals@[pi].governance_key
    &&& 0 <= oi < realm.proposals@[pi].options@.len()
    &&& 0 <= ti < realm.proposals@[pi].options@[oi].transactions@.len()
    &&& spec_executable_state(realm.proposals@[pi].state)
    &&& realm.proposals@[pi].options@[oi].result == OptionVoteResult::Succeeded
    &&& !realm.proposals@[pi].options@[oi].transactions@[ti].executed
    &&& match realm.proposals@[pi].voting_completed_at {
        Some(vc) => now
            >= vc + realm.proposals@[pi].options@[oi].transactions@[ti].hold_up_time,
        None => false,
    }
}

/// All inputs `insert_transaction` accepts.
pub open spec fn insert_tx_ok(
    realm: Realm,
    pi: int,
    ti: int,
    authority: u64,
    option_index: int,
    index: int,
) -> bool {
    &&& crate::proposal_ops::proposal_owner_authorized(realm, pi, ti, authority)
    &&& spec_editable_state(realm.proposals@[pi].state)
    &&& 0 <= option_index < realm.proposals@[pi].options@.len()
    &&& index == realm.proposals@[pi].options@[option_index].transactions@.len()
}

/// Exact state change of a successful `insert_transaction`.
pub open spec fn insert_tx_applied(
    pre: Realm,
    post: Realm,
    pi: int,
    option_index: int,
    hold_up_time: u64,
    payload: Vec<u8>,
) -> bool {
    &&& post.proposals@ == pre.proposals@.update(pi, post.proposals@[pi])
    &&& (post.proposals@[pi] == (Proposal {
        options: post.proposals@[pi].options,
        ..pre.proposals@[pi]
    }))
    &&& post.proposals@[pi].options@ == pre.proposals@[pi].options@.update(option_index,
        ProposalOption {
            transactions: post.proposals@[pi].options@[option_index].transactions,
            ..pre.proposals@[pi].options@[option_index]
        })
    &&& post.proposals@[pi].options@[option_index].transactions@
        == pre.proposals@[pi].options@[option_index].transactions@.push(
        ProposalTransaction { hold_up_time, executed: false, error_flagged: false, payload })
    &&& (post == (Realm { proposals: post.proposals, ..pre }))
}

/// All inputs `remove_transaction` accepts.
pub open spec fn remove_tx_ok(
    realm: Realm,
    pi: int,
    ti: int,
    authority: u64,
    option_index: int,
    index: int,
) -> bool {
    &&& crate::proposal_ops::proposal_owner_authorized(realm, pi, ti, authority)
    &&& spec_editable_state(realm.proposals@[pi].state)
    &&& 0 <= option_index < realm.proposals@[pi].options@.len()
    &&& 0 <= index < realm.proposals@[pi].options@[option_index].transactions@.len()
}

/// Exact state change of a successful `remove_transaction`.
pub open spec fn remove_tx_applied(
    pre: Realm,
    post: Realm,
    pi: int,
    option_index: int,
    index: int,
) -> bool {
    &&& post.proposals@ == pre.proposals@.update(pi, post.proposals@[pi])
    &&& (post.proposals@[pi] == (Proposal {
        options: post.proposals@[pi].options,
        ..pre.proposals@[pi]
    }))
    &&& post.proposals@[pi].options@ == pre.proposals@[pi].options@.update(option_index,
        ProposalOption {
            transactions: post.proposals@[pi].options@[option_index].transactions,
            ..pre.proposals@[pi].options@[option_index]
        })
    &&& post.proposals@[pi].options@[option_index].transactions@
        == pre.proposals@[pi].options@[option_index].transactions@.remove(index)
    &&& (post == (Realm { proposals: post.proposals, ..pre }))
}

/// Exact state change of a successful `execute_transaction`: the grant names
/// the proposal's governance, the returned bytes are the attached payload,
/// the transaction's executed flag is set, a Succeeded proposal moves to
/// Executing, and nothing else changes.
pub open spec fn execute_applied(
    pre: Realm,
    post: Realm,
    pi: int,
    gi: int,
    option_index: int,
    tx_index: int,
    grant: ExecutionGrant,
    instructions: Seq<u8>,
) -> bool {
    &&& grant.spec_governance_key() == pre.governances@[gi].key
    &&& instructions == pre.proposals@[pi].options@[option_index].transactions@[tx_index]
        .payload@
    &&& post.proposals@ == pre.proposals@.update(pi, post.proposals@[pi])
    &&& post.proposals@[pi].state == (if pre.proposals@[pi].state == ProposalState::Succeeded {
        ProposalState::Executing
    } else {
        pre.proposals@[pi].state
    })
    &&& (post.proposals@[pi] == (Proposal {
        state: post.proposals@[pi].state,
        options: post.proposals@[pi].options,
        ..pre.proposals@[pi]
    }))
    &&& post.proposals@[pi].options@ == pre.proposals@[pi].options@.update(option_index,
        ProposalOption {
            transactions: post.proposals@[pi].options@[option_index].transactions,
            ..pre.proposals@[pi].options@[option_index]
        })
    &&& post.proposals@[pi].options@[option_index].transactions@
        == pre.proposals@[pi].options@[option_index].transactions@.update(tx_index,
        ProposalTransaction {
            executed: true,
            ..pre.proposals@[pi].options@[option_index].transactions@[tx_index]
        })
    &&& (post == (Realm { proposals: post.proposals, ..pre }))
}

/// All inputs `flag_transaction_error` accepts.
pub open spec fn flag_tx_ok(
    realm: Realm,
    pi: int,
    ti: int,
    authority: u64,
    option_index: int,
    tx_index: int,
) -> bool {
    &&& crate::proposal_ops::proposal_owner_authorized(realm, pi, ti, authority)
    &&& spec_executable_state(realm.proposals@[pi].state)
    &&& 0 <= option_index < realm.proposals@[pi].options@.len()
    &&& 0 <= tx_index < realm.proposals@[pi].options@[option_index].transactions@.len()
    &&& !realm.proposals@[pi].options@[option_index].transactions@[tx_index].executed
}

/// Exact state change of a successful `flag_transaction_error`.
pub open spec fn flag_tx_applied(
    pre: Realm,
    post: Realm,
    pi: int,
    option_index: int,
    tx_index: int,
) -> bool {
    &&& post.proposals@ == pre.proposals@.update(pi, post.proposals@[pi])
    &&& post.proposals@[pi].state == ProposalState::ExecutingWithErrors
    &&& (post.proposals@[pi] == (Proposal {
        state: ProposalState::ExecutingWithErrors,
        options: post.proposals@[pi].options,
        ..pre.proposals@[pi]
    }))
    &&& post.proposals@[pi].options@ == pre.proposals@[pi].options@.update(option_index,
        ProposalOption {
            transactions: post.proposals@[pi].options@[option_index].transactions,
            ..pre.proposals@[pi].options@[option_index]
        })
    &&& post.proposals@[pi].options@[option_index].transactions@
        == pre.proposals@[pi].options@[option_index].transactions@.update(tx_index,
        ProposalTransaction {
            error_flagged: true,
            ..pre.proposals@[pi].options@[option_index].transactions@[tx_index]
        })
    &&& (post == (Realm { proposals: post.proposals, ..pre }))
}

/// All inputs `complete_proposal` accepts.
pub open spec fn complete_ok(realm: Realm, pi: int, ti: int, authority: u64) -> bool {
    &&& crate::proposal_ops::proposal_owner_authorized(realm, pi, ti, authority)
    &&& (realm.proposals@[pi].state == ProposalState::Succeeded
        || realm.proposals@[pi].state == ProposalState::Executing)
    &&& spec_all_winning_executed(realm.proposals@[pi].options@)
}

/// Exact state change of a successful `complete_proposal`.
pub open spec fn complete_applied(pre: Realm, post: Realm, pi: int) -> bool {
    &&& post.proposals@ == pre.proposals@.update(pi, post.proposals@[pi])
    &&& (post.proposals@[pi] == (Proposal {
        state: ProposalState::Completed,
        ..pre.proposals@[pi]
    }))
    &&& (post == (Realm { proposals: post.proposals, ..pre }))
}

/// All inputs `refund_proposal_deposit` accepts.
pub open spec fn refund_ok(realm: Realm, pi: int) -> bool {
    &&& 0 <= pi < realm.proposals@.len()
    &&& spec_is_terminal(realm.proposals@[pi].state)
    &&& !realm.proposals@[pi].deposit_refunded
}

/// Exact state change of a successful `refund_proposal_deposit`.
pub open spec fn refund_applied(pre: Realm, post: Realm, pi: int, amount: u64) -> bool {
    &&& amount == pre.proposals@[pi].deposit_amount
    &&& post.proposals@ == pre.proposals@.update(pi, post.proposals@[pi])
    &&& (post.proposals@[pi] == (Proposal {
        deposit_refunded: true,
        ..pre.proposals@[pi]
    }))
    &&& (post == (Realm { proposals: post.proposals, ..pre }))
}

/// All inputs `set_governance_config` accepts.
pub open spec fn set_governance_config_ok(
    realm: Realm,
    gi: int,
    new_config: GovernanceConfig,
    grant: ExecutionGrant,
) -> bool {
    &&& 0 <= gi < realm.governances@.len()
    &&& grant.spec_governance_key() == realm.governances@[gi].key
    &&& spec_config_valid(new_config)
}

/// Exact state change of a successful `set_governance_config`.
pub open spec fn set_governance_config_applied(
    pre: Realm,
    post: Realm,
    gi: int,
    new_config: GovernanceConfig,
) -> bool {
    &&& post.governances@ == pre.governances@.update(gi, Governance {
        config: new_config,
        ..pre.governances@[gi]
    })
    &&& (post == (Realm { governances: post.governances, ..pre }))
}

fn copy_bytes(v: &Vec<u8>) -> (r: Vec<u8>)
    ensures
        r@ == v@,
{
    let mut r: Vec<u8> = Vec::new();
    let mut i: usize = 0;
    while i < v.len()
        invariant
            i <= v@.len(),
            r@ == v@.take(i as int),
        decreases v@.len() - i,
    {
        r.push(v[i]);
        proof {
            assert(v@.take(i + 1) =~= v@.take(i as int).push(v@[i as int]));
        }
        i = i + 1;
    }
    proof {
        assert(v@.take(v@.len() as int) =~= v@);
    }
    r
}

impl Realm {
    /// Attaches an instruction bundle to an option at the next insertion
    /// slot. Transactions can only be edited before voting opens.
    pub fn insert_transaction(
        &mut self,
        prop_index: usize,
        tor_index: usize,
        authority: u64,
        option_index: usize,
        index: usize,
        hold_up_time: u64,
        payload: Vec<u8>,
    ) -> (r: Result<(), GovernanceError>)
        requires
            old(self).wf(),
        ensures
            final(self).wf(),
            Realm::proposals_monotonic(*old(self), *final(self)),
            r is Ok <==> insert_tx_ok(*old(self), prop_index as int, tor_index as int,
                authority, option_index as int, index as int),
            r is Err ==> *final(self) == *old(self),
            r is Ok ==> insert_tx_applied(*old(self), *final(self), prop_index as int,
                option_index as int, hold_up_time, payload),
    {
        if let Err(e) = self.check_proposal_owner_authority(prop_index, tor_index, authority) {
            return Err(e);
        }
        let state = self.proposals[prop_index].state;
        if !(state == ProposalState::Draft || state == ProposalState::SigningOff) {
            return Err(GovernanceError::InvalidProposalState);
        }
        if option_index >= self.proposals[prop_index].options.len() {
            return Err(GovernanceError::InvalidOptionIndex);
        }
        if index != self.proposals[prop_index].options[option_index].transactions.len() {
            return Err(GovernanceError::InvalidTransactionIndex);
        }
        let t = &mut self.proposals[prop_index].options[option_index];
        t.transactions.push(ProposalTransaction {
            hold_up_time,
            executed: false,
            error_flagged: false,
            payload,
        });
        Ok(())
    }

    /// Detaches an instruction bundle from an option before voting opens.
    pub fn remove_transaction(
        &mut self,
        prop_index: usize,
        tor_index: usize,
        authority: u64,
        option_index: usize,
        index: usize,
    ) -> (r: Result<(), GovernanceError>)
        requires
            old(self).wf(),
        ensures
            final(self).wf(),
            Realm::proposals_monotonic(*old(self), *final(self)),
            r is Ok <==> remove_tx_ok(*old(self), prop_index as int, tor_index as int,
                authority, option_index as int, index as int),
            r is Err ==> *final(self) == *old(self),
            r is Ok ==> remove_tx_applied(*old(self), *final(self), prop_index as int,
                option_index as int, index as int),
    {
        if let Err(e) = self.check_proposal_owner_authority(prop_index, tor_index, authority) {
            return Err(e);
        }
        let state = self.proposals[prop_index].state;
        if !(state == ProposalState::Draft || state == ProposalState::SigningOff) {
            return Err(GovernanceError::InvalidProposalState);
        }
        if option_index >= self.proposals[prop_index].options.len() {
            return Err(GovernanceError::InvalidOptionIndex);
        }
        if index >= self.proposals[prop_index].options[option_index].transactions.len() {
            return Err(GovernanceError::InvalidTransactionIndex);
        }
        let t = &mut self.proposals[prop_index].options[option_index];
        t.transactions.remove(index);
        Ok(())
    }

    /// Executes one attached transaction: permitted only once the proposal
    /// succeeded, only for a succeeded option, only once per transaction, and
    /// only after `voting_completed_at + hold_up_time`. Returns the
    /// governance-signing grant and the instruction bytes for the caller to
    /// perform; the executed flag is set before anything is handed out, so a
    /// second call fails with a state error and re-applies nothing.
    pub fn execute_transaction(
        &mut self,
        prop_index: usize,
        gov_index: usize,
        option_index: usize,
        tx_index: usize,
        now: u64,
    ) -> (r: Result<(ExecutionGrant, Vec<u8>), GovernanceError>)
        requires
            old(self).wf(),
        ensures
            final(self).wf(),
            Realm::proposals_monotonic(*old(self), *final(self)),
            r is Ok <==> execute_ok(*old(self), prop_index as int, gov_index as int,
                option_index as int, tx_index as int, now),
            r is Err ==> *final(self) == *old(self),
            prop_index < old(self).proposals@.len()
                && gov_index < old(self).governances@.len()
                && old(self).governances@[gov_index as int].key
                    == old(self).proposals@[prop_index as int].governance_key
                && option_index < old(self).proposals@[prop_index as int].options@.len()
                && tx_index < old(self).proposals@[prop_index as int].options@[
                    option_index as int].transactions@.len()
                && spec_executable_state(old(self).proposals@[prop_index as int].state)
                && old(self).proposals@[prop_index as int].options@[option_index as int]
                    .result == OptionVoteResult::Succeeded
                && old(self).proposals@[prop_index as int].options@[option_index as int]
                    .transactions@[tx_index as int].executed
                ==> r == Result::<(ExecutionGrant, Vec<u8>), GovernanceError>::Err(
                GovernanceError::TransactionAlreadyExecuted),
            r matches Ok((grant, payload)) ==> execute_applied(*old(self), *final(self),
                prop_index as int, gov_index as int, option_index as int, tx_index as int,
                grant, payload@),
    {
        if prop_index >= self.proposals.len() || gov_index >= self.governances.len() {
            return Err(GovernanceError::InvalidAccountIndex);
        }
        if self.governances[gov_index].key != self.proposals[prop_index].governance_key {
            return Err(GovernanceError::AccountMismatch);
        }
        if option_index >= self.proposals[prop_index].options.len() {
            return Err(GovernanceError::InvalidOptionIndex);
        }
        if tx_index >= self.proposals[prop_index].options[option_index].transactions.len() {
            return Err(GovernanceError::InvalidTransactionIndex);
        }
        let state = self.proposals[prop_index].state;
        if !(state == ProposalState::Succeeded || state == ProposalState::Executing
            || state == ProposalState::ExecutingWithErrors) {
            return Err(GovernanceError::InvalidProposalState);
        }
        if !(self.proposals[prop_index].options[option_index].result
            == OptionVoteResult::Succeeded) {
            return Err(GovernanceError::OptionNotSucceeded);
        }
        if self.proposals[prop_index].options[option_index].transactions[tx_index].executed {
            return Err(GovernanceError::TransactionAlreadyExecuted);
        }
        let vc = match self.proposals[prop_index].voting_completed_at {
            Some(v) => v,
            None => {
                return Err(GovernanceError::InvalidProposalState);
            },
        };
        let hold_up = self.proposals[prop_index].options[option_index].transactions[tx_index]
            .hold_up_time;
        if (now as u128) < (vc as u128) + (hold_up as u128) {
            return Err(GovernanceError::HoldUpTimeNotElapsed);
        }
        let payload = copy_bytes(
            &self.proposals[prop_index].options[option_index].transactions[tx_index].payload,
        );
        let governance_key = self.governances[gov_index].key;
        {
            let t = &mut self.proposals[prop_index].options[option_index]
                .transactions[tx_index];
            t.executed = true;
        }
        if state == ProposalState::Succeeded {
            let p = &mut self.proposals[prop_index];
            p.state = ProposalState::Executing;
        }
        proof {
            assert(self.proposals@ =~= old(self).proposals@.update(prop_index as int,
                self.proposals@[prop_index as int]));
            assert(self.proposals@[prop_index as int].options@
                =~= old(self).proposals@[prop_index as int].options@.update(
                option_index as int,
                self.proposals@[prop_index as int].options@[option_index as int]));
        }
        Ok((ExecutionGrant { governance_key }, payload))
    }

    /// Records that an execution attempt failed externally: the transaction
    /// is flagged and the proposal moves to the degraded terminal marker.
    /// Sibling transactions stay executable; nothing is retried implicitly.
    pub fn flag_transaction_error(
        &mut self,
        prop_index: usize,
        tor_index: usize,
        authority: u64,
        option_index: usize,
        tx_index: usize,
    ) -> (r: Result<(), GovernanceError>)
        requires
            old(self).wf(),
        ensures
            final(self).wf(),
            Realm::proposals_monotonic(*old(self), *final(self)),
            r is Ok <==> flag_tx_ok(*old(self), prop_index as int, tor_index as int,
                authority, option_index as int, tx_index as int),
            r is Err ==> *final(self) == *old(self),
            r is Ok ==> flag_tx_applied(*old(self), *final(self), prop_index as int,
                option_index as int, tx_index as int),
    {
        if let Err(e) = self.check_proposal_owner_authority(prop_index, tor_index, authority) {
            return Err(e);
        }
        let state = self.proposals[prop_index].state;
        if !(state == ProposalState::Succeeded || state == ProposalState::Executing
            || state == ProposalState::ExecutingWithErrors) {
            return Err(GovernanceError::InvalidProposalState);
        }
        if option_index >= self.proposals[prop_index].options.len() {
            return Err(GovernanceError::InvalidOptionIndex);
        }
        if tx_index >= self.proposals[prop_index].options[option_index].transactions.len() {
            return Err(GovernanceError::InvalidTransactionIndex);
        }
        if self.proposals[prop_index].options[option_index].transactions[tx_index].executed {
            return Err(GovernanceError::TransactionAlreadyExecuted);
        }
        {
            let t = &mut self.proposals[prop_index].options[option_index]
                .transactions[tx_index];
            t.error_flagged = true;
        }
        let p = &mut self.proposals[prop_index];
        p.state = ProposalState::ExecutingWithErrors;
        proof {
            assert(self.proposals@ =~= old(self).proposals@.update(prop_index as int,
                self.proposals@[prop_index as int]));
            assert(self.proposals@[prop_index as int].options@
                =~= old(self).proposals@[prop_index as int].options@.update(
                option_index as int,
                self.proposals@[prop_index as int].options@[option_index as int]));
        }
        Ok(())
    }

    /// Moves a succeeded proposal to Completed once every transaction of
    /// every winning option has been executed.
    pub fn complete_proposal(&mut self, prop_index: usize, tor_index: usize, authority: u64)
        -> (r: Result<(), GovernanceError>)
        requires
            old(self).wf(),
        ensures
            final(self).wf(),
            Realm::proposals_monotonic(*old(self), *final(self)),
            r is Ok <==> complete_ok(*old(self), prop_index as int, tor_index as int,
                authority),
            r is Err ==> *final(self) == *old(self),
            r is Ok ==> complete_applied(*old(self), *final(self), prop_index as int),
    {
        if let Err(e) = self.check_proposal_owner_authority(prop_index, tor_index, authority) {
            return Err(e);
        }
        let state = self.proposals[prop_index].state;
        if !(state == ProposalState::Succeeded || state == ProposalState::Executing) {
            return Err(GovernanceError::InvalidProposalState);
        }
        if !all_winning_executed(&self.proposals[prop_index].options) {
            return Err(GovernanceError::TransactionsStillPending);
        }
        let p = &mut self.proposals[prop_index];
        p.state = ProposalState::Completed;
        Ok(())
    }

    /// Refunds the proposal's creation deposit, exactly once, and only once
    /// the proposal is terminal. The returned amount is what the surrounding
    /// program must pay back to the deposit payer; every later call fails.
    pub fn refund_proposal_deposit(&mut self, prop_index: usize) -> (r: Result<
        u64,
        GovernanceError,
    >)
        requires
            old(self).wf(),
        ensures
            final(self).wf(),
            Realm::proposals_monotonic(*old(self), *final(self)),
            r is Ok <==> refund_ok(*old(self), prop_index as int),
            r is Err ==> *final(self) == *old(self),
            prop_index < old(self).proposals@.len()
                && spec_is_terminal(old(self).proposals@[prop_index as int].state)
                && old(self).proposals@[prop_index as int].deposit_refunded
                ==> r == Result::<u64, GovernanceError>::Err(
                GovernanceError::DepositAlreadyRefunded),
            prop_index < old(self).proposals@.len()
                && !spec_is_terminal(old(self).proposals@[prop_index as int].state)
                ==> r == Result::<u64, GovernanceError>::Err(
                GovernanceError::InvalidProposalState),
            r matches Ok(amount) ==> refund_applied(*old(self), *final(self),
                prop_index as int, amount),
    {
        if prop_index >= self.proposals.len() {
            return Err(GovernanceError::InvalidAccountIndex);
        }
        if !is_terminal(self.proposals[prop_index].state) {
            return Err(GovernanceError::InvalidProposalState);
        }
        if self.proposals[prop_index].deposit_refunded {
            return Err(GovernanceError::DepositAlreadyRefunded);
        }
        let amount = self.proposals[prop_index].deposit_amount;
        let p = &mut self.proposals[prop_index];
        p.deposit_refunded = true;
        Ok(amount)
    }

    /// Replaces a governance's config. The caller must present an execution
    /// grant for this very governance, so the rules of a governance evolve
    /// only through a proposal executed against it.
    pub fn set_governance_config(
        &mut self,
        gov_index: usize,
        new_config: GovernanceConfig,
        grant: &ExecutionGrant,
    ) -> (r: Result<(), GovernanceError>)
        requires
            old(self).wf(),
        ensures
            final(self).wf(),
            Realm::proposals_monotonic(*old(self), *final(self)),
            r is Ok <==> set_governance_config_ok(*old(self), gov_index as int, new_config,
                *grant),
            r is Err ==> *final(self) == *old(self),
            gov_index < old(self).governances@.len()
                && grant.spec_governance_key() != old(self).governances@[gov_index as int].key
                ==> r == Result::<(), GovernanceError>::Err(GovernanceError::InvalidGrant),
            r is Ok ==> set_governance_config_applied(*old(self), *final(self),
                gov_index as int, new_config),
    {
        if gov_index >= self.governances.len() {
            return Err(GovernanceError::InvalidAccountIndex);
        }
        if grant.governance_key() != self.governances[gov_index].key {
            return Err(GovernanceError::InvalidGrant);
        }
        if let Err(e) = validate_config(&new_config) {
            return Err(e);
        }
        let g = self.governances[gov_index];
        self.governances[gov_index] = Governance { config: new_config, ..g };
        Ok(())
    }
}

} // verus!
