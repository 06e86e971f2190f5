//! The voting-power ledger: token owner records, vote records, delegation and
//! attested external voter weights, together with the counting machinery that
//! ties an owner's outstanding-vote counter to their unrelinquished vote
//! records.

use vstd::prelude::*;

verus! {

/// One participant's deposited voting power within the realm.
#[derive(Clone, Copy, Debug, PartialEq, Eq, Structural)]
pub struct TokenOwnerRecord {
    /// The participant's key.
    pub owner: u64,
    /// Deposited amount; the owner's voting weight unless an attestation overrides it.
    pub deposited_amount: u64,
    /// Number of this owner's vote records not yet relinquished.
    pub unrelinquished_votes_count: u64,
    /// Number of proposals the owner created that have not yet entered
    /// voting or been cancelled (still in Draft or SigningOff).
    pub outstanding_proposal_count: u64,
    /// Who may vote on the owner's behalf besides the owner.
    pub delegate: Option<u64>,
}

/// The ballot a voter casts: approve a subset of the options, or add the full
/// weight to the deny side.
#[derive(Clone, Debug, PartialEq, Eq)]
pub enum BallotChoice {
    /// One flag per proposal option; the voter's full weight is added to every
    /// selected option. A single-choice proposal requires exactly one flag set.
    Approve(Vec<bool>),
    /// The voter's full weight is added to the deny accumulator.
    Deny,
}

/// One participant's cast vote on one proposal; persists after completion as
/// an audit trail and voting-power-release receipt.
#[derive(Clone, Debug, PartialEq, Eq)]
pub struct VoteRecord {
    /// The proposal voted on.
    pub proposal_key: u64,
    /// The owner of the voting weight (not the delegate who may have signed).
    pub voter: u64,
    /// The ballot as cast.
    pub vote: BallotChoice,
    /// Weight applied, fixed at cast time.
    pub weight: u64,
    /// Whether the weight has been released back to the owner.
    pub is_relinquished: bool,
}

/// A voter-weight statement from an external calculator, bound to one owner
/// and one proposal and only honoured while fresh.
#[derive(Clone, Copy, Debug, PartialEq, Eq, Structural)]
pub struct VoterWeightAttestation {
    /// The owner the weight belongs to.
    pub owner: u64,
    /// The proposal the weight was computed for.
    pub proposal_key: u64,
    /// The attested weight, overriding the deposited amount.
    pub weight: u64,
    /// Last time at which the attestation may be honoured.
    pub expires_at: u64,
}

/// The voters a token owner record recognizes: the owner and the delegate.
pub open spec fn spec_owner_or_delegate(tor: TokenOwnerRecord, authority: u64) -> bool {
    authority == tor.owner || tor.delegate == Some(authority)
}

/// Runtime check equal to `spec_owner_or_delegate`.
pub fn is_owner_or_delegate(tor: &TokenOwnerRecord, authority: u64) -> (r: bool)
    ensures
        r == spec_owner_or_delegate(*tor, authority),
{
    if authority == tor.owner {
        true
    } else {
        match tor.delegate {
            Some(d) => d == authority,
            None => false,
        }
    }
}

/// An attestation is honoured only when bound to the same owner and proposal
/// and not yet expired.
pub open spec fn spec_attestation_valid(
    a: VoterWeightAttestation,
    owner: u64,
    proposal_key: u64,
    now: u64,
) -> bool {
    a.owner == owner && a.proposal_key == proposal_key && a.expires_at >= now
}

/// Number of records in `s` satisfying `p`.
pub open spec fn count_where(s: Seq<VoteRecord>, p: spec_fn(VoteRecord) -> bool) -> nat
    decreases s.len(),
{
    if s.len() == 0 {
        0
    } else {
        count_where(s.drop_last(), p) + (if p(s.last()) { 1nat } else { 0nat })
    }
}

/// The predicate behind the outstanding-vote counter: a record of this owner
/// whose weight has not been released.
pub open spec fn active_for(owner: u64) -> spec_fn(VoteRecord) -> bool {
    |r: VoteRecord| r.voter == owner && !r.is_relinquished
}

/// How many unrelinquished vote records `owner` holds in `s`.
pub open spec fn active_vote_count(s: Seq<VoteRecord>, owner: u64) -> nat {
    count_where(s, active_for(owner))
}

/// Appending a record adds its predicate value to the count.
pub proof fn lemma_count_push(s: Seq<VoteRecord>, p: spec_fn(VoteRecord) -> bool, v: VoteRecord)
    ensures
        count_where(s.push(v), p) == count_where(s, p) + (if p(v) { 1nat } else { 0nat }),
{
    assert(s.push(v).drop_last() =~= s);
    assert(s.push(v).last() == v);
}

/// Replacing the record at `i` shifts the count by the difference of the two
/// predicate values.
pub proof fn lemma_count_update(
    s: Seq<VoteRecord>,
    p: spec_fn(VoteRecord) -> bool,
    i: int,
    v: VoteRecord,
)
    requires
        0 <= i < s.len(),
    ensures
        count_where(s.update(i, v), p) + (if p(s[i]) { 1nat } else { 0nat })
            == count_where(s, p) + (if p(v) { 1nat } else { 0nat }),
    decreases s.len(),
{
    if i == s.len() - 1 {
        assert(s.update(i, v).drop_last() =~= s.drop_last());
        assert(s.update(i, v).last() == v);
    } else {
        assert(s.update(i, v).drop_last() =~= s.drop_last().update(i, v));
        assert(s.update(i, v).last() == s.last());
        lemma_count_update(s.drop_last(), p, i, v);
    }
}

/// A record satisfying the predicate forces the count to be positive.
pub proof fn lemma_count_index_positive(
    s: Seq<VoteRecord>,
    p: spec_fn(VoteRecord) -> bool,
    i: int,
)
    requires
        0 <= i < s.len(),
        p(s[i]),
    ensures
        count_where(s, p) >= 1,
    decreases s.len(),
{
    if i == s.len() - 1 {
    } else {
        assert(s.drop_last()[i] == s[i]);
        lemma_count_index_positive(s.drop_last(), p, i);
    }
}

/// Total deposited amount across all token owner records.
pub open spec fn sum_deposits(s: Seq<TokenOwnerRecord>) -> int
    decreases s.len(),
{
    if s.len() == 0 {
        0
    } else {
        sum_deposits(s.drop_last()) + s.last().deposited_amount
    }
}

/// Appending a record adds its deposit to the total.
pub proof fn lemma_sum_push(s: Seq<TokenOwnerRecord>, v: TokenOwnerRecord)
    ensures
        sum_deposits(s.push(v)) == sum_deposits(s) + v.deposited_amount,
{
    assert(s.push(v).drop_last() =~= s);
    assert(s.push(v).last() == v);
}

/// Replacing the record at `i` shifts the total by the deposit difference.
pub proof fn lemma_sum_update(s: Seq<TokenOwnerRecord>, i: int, v: TokenOwnerRecord)
    requires
        0 <= i < s.len(),
    ensures
        sum_deposits(s.update(i, v)) == sum_deposits(s) - s[i].deposited_amount
            + v.deposited_amount,
    decreases s.len(),
{
    if i == s.len() - 1 {
        assert(s.update(i, v).drop_last() =~= s.drop_last());
        assert(s.update(i, v).last() == v);
    } else {
        assert(s.update(i, v).drop_last() =~= s.drop_last().update(i, v));
        assert(s.update(i, v).last() == s.last());
        lemma_sum_update(s.drop_last(), i, v);
    }
}

/// No single record's deposit exceeds the total.
pub proof fn lemma_sum_index_bound(s: Seq<TokenOwnerRecord>, i: int)
    requires
        0 <= i < s.len(),
    ensures
        sum_deposits(s) >= s[i].deposited_amount,
    decreases s.len(),
{
    lemma_sum_nonnegative(s.drop_last());
    if i == s.len() - 1 {
    } else {
        assert(s.drop_last()[i] == s[i]);
        lemma_sum_index_bound(s.drop_last(), i);
    }
}

/// Deposits are machine words, so the total is never negative.
pub proof fn lemma_sum_nonnegative(s: Seq<TokenOwnerRecord>)
    ensures
        sum_deposits(s) >= 0,
    decreases s.len(),
{
    if s.len() > 0 {
        lemma_sum_nonnegative(s.drop_last());
    }
}

/// If no record matches, the count is zero.
pub proof fn lemma_count_zero(s: Seq<VoteRecord>, p: spec_fn(VoteRecord) -> bool)
    requires
        forall|i: int| 0 <= i < s.len() ==> !p(s[i]),
    ensures
        count_where(s, p) == 0,
    decreases s.len(),
{
    if s.len() > 0 {
        assert(forall|i: int| 0 <= i < s.drop_last().len() ==> s.drop_last()[i] == s[i]);
        lemma_count_zero(s.drop_last(), p);
    }
}

} // verus!
