//! The vote-tallying rules: approval thresholds against the max-weight
//! snapshot, quorum, deny handling, and early tipping, together with the
//! proofs that tipping never contradicts what full-duration tallying would
//! decide.

use vstd::prelude::*;
use crate::state::ProposalState;

verus! {

/// The threshold rule: an option passes when its weight reaches the
/// configured percentage of the snapshot taken at voting start — of the
/// maximum possible weight, not of turnout.
pub open spec fn meets_threshold(weight: int, max_weight: int, threshold_pct: int) -> bool {
    weight * 100 >= threshold_pct * max_weight
}

/// An option wins when it passes the threshold and, where a deny option
/// exists, strictly outweighs the deny accumulator. A tie with deny loses:
/// thresholds, not plurality, decide the outcome.
pub open spec fn option_wins(
    weight: int,
    deny_weight: int,
    use_deny: bool,
    max_weight: int,
    threshold_pct: int,
) -> bool {
    meets_threshold(weight, max_weight, threshold_pct) && (!use_deny || weight > deny_weight)
}

/// Outcome of a single-choice proposal at finalize time: Succeeded when the
/// quorum is met and the sole option wins, Defeated otherwise.
pub open spec fn single_choice_outcome(
    weight: int,
    deny_weight: int,
    total_cast: int,
    max_weight: int,
    threshold_pct: int,
    quorum: int,
    use_deny: bool,
) -> ProposalState {
    if total_cast >= quorum && option_wins(weight, deny_weight, use_deny, max_weight,
        threshold_pct) {
        ProposalState::Succeeded
    } else {
        ProposalState::Defeated
    }
}

/// The outcome is already fixed in favour: the quorum and threshold are met,
/// and even if every remaining uncommitted weight voted deny, the option
/// would still strictly outweigh it.
pub open spec fn can_tip_succeeded(
    weight: int,
    deny_weight: int,
    total_cast: int,
    max_weight: int,
    threshold_pct: int,
    quorum: int,
    use_deny: bool,
) -> bool {
    &&& total_cast <= max_weight
    &&& total_cast >= quorum
    &&& meets_threshold(weight, max_weight, threshold_pct)
    &&& (use_deny ==> weight > deny_weight + (max_weight - total_cast))
}

/// The outcome is already fixed against: even if every remaining uncommitted
/// weight approved, the option could not pass the threshold, or could not
/// overcome the deny weight, or the quorum is unreachable outright.
pub open spec fn can_tip_defeated(
    weight: int,
    deny_weight: int,
    total_cast: int,
    max_weight: int,
    threshold_pct: int,
    quorum: int,
    use_deny: bool,
) -> bool {
    &&& total_cast <= max_weight
    &&& {
        ||| !meets_threshold(weight + (max_weight - total_cast), max_weight, threshold_pct)
        ||| (use_deny && deny_weight >= weight + (max_weight - total_cast))
        ||| quorum > max_weight
    }
}

/// Early tipping to Succeeded is sound: under the tip condition, any split of
/// the remaining uncommitted weight between approve and deny — including the
/// adversarial fill where all of it votes against the leader — still yields
/// Succeeded at full-duration finalize.
pub proof fn lemma_tip_succeeded_sound(
    weight: int,
    deny_weight: int,
    total_cast: int,
    max_weight: int,
    threshold_pct: int,
    quorum: int,
    use_deny: bool,
    extra_approve: int,
    extra_deny: int,
)
    requires
        0 <= weight,
        0 <= deny_weight,
        0 <= extra_approve,
        0 <= extra_deny,
        total_cast + extra_approve + extra_deny <= max_weight,
        can_tip_succeeded(weight, deny_weight, total_cast, max_weight, threshold_pct, quorum,
            use_deny),
    ensures
        single_choice_outcome(
            weight + extra_approve,
            deny_weight + extra_deny,
            total_cast + extra_approve + extra_deny,
            max_weight,
            threshold_pct,
            quorum,
            use_deny,
        ) == ProposalState::Succeeded,
{
    assert((weight + extra_approve) * 100 == weight * 100 + extra_approve * 100);
}

/// Early tipping to Defeated is sound: under the tip condition, any split of
/// the remaining uncommitted weight — including the fill where all of it
/// approves the option — still yields Defeated at full-duration finalize.
pub proof fn lemma_tip_defeated_sound(
    weight: int,
    deny_weight: int,
    total_cast: int,
    max_weight: int,
    threshold_pct: int,
    quorum: int,
    use_deny: bool,
    extra_approve: int,
    extra_deny: int,
)
    requires
        0 <= weight,
        0 <= deny_weight,
        0 <= extra_approve,
        0 <= extra_deny,
        total_cast + extra_approve + extra_deny <= max_weight,
        can_tip_defeated(weight, deny_weight, total_cast, max_weight, threshold_pct, quorum,
            use_deny),
    ensures
        single_choice_outcome(
            weight + extra_approve,
            deny_weight + extra_deny,
            total_cast + extra_approve + extra_deny,
            max_weight,
            threshold_pct,
            quorum,
            use_deny,
        ) == ProposalState::Defeated,
{
    if !meets_threshold(weight + (max_weight - total_cast), max_weight, threshold_pct) {
        assert((weight + extra_approve) * 100 <= (weight + (max_weight - total_cast)) * 100);
    }
}

/// Runtime threshold check, equal to `meets_threshold` on the same values.
pub fn exec_meets_threshold(weight: u64, max_weight: u64, threshold_pct: u8) -> (r: bool)
    ensures
        r == meets_threshold(weight as int, max_weight as int, threshold_pct as int),
{
    proof {
        assert((threshold_pct as u128) * (max_weight as u128) <= 255u128
            * 18446744073709551615u128) by (nonlinear_arith)
            requires
                threshold_pct as u128 <= 255u128,
                max_weight as u128 <= 18446744073709551615u128,
        ;
    }
    let lhs: u128 = (weight as u128) * 100;
    let rhs: u128 = (threshold_pct as u128) * (max_weight as u128);
    lhs >= rhs
}

/// Runtime threshold check for a weight given as a sum of two machine words,
/// equal to `meets_threshold(weight + extra, ..)`.
pub fn exec_meets_threshold_plus(weight: u64, extra: u64, max_weight: u64, threshold_pct: u8)
    -> (r: bool)
    ensures
        r == meets_threshold(weight as int + extra as int, max_weight as int,
            threshold_pct as int),
{
    proof {
        assert((threshold_pct as u128) * (max_weight as u128) <= 255u128
            * 18446744073709551615u128) by (nonlinear_arith)
            requires
                threshold_pct as u128 <= 255u128,
                max_weight as u128 <= 18446744073709551615u128,
        ;
    }
    let w: u128 = weight as u128 + extra as u128;
    let lhs: u128 = w * 100;
    let rhs: u128 = (threshold_pct as u128) * (max_weight as u128);
    lhs >= rhs
}

/// Runtime form of `can_tip_succeeded` on the proposal's running tallies.
pub fn exec_can_tip_succeeded(
    weight: u64,
    deny_weight: u64,
    total_cast: u64,
    max_weight: u64,
    threshold_pct: u8,
    quorum: u64,
    use_deny: bool,
) -> (r: bool)
    ensures
        r == can_tip_succeeded(weight as int, deny_weight as int, total_cast as int,
            max_weight as int, threshold_pct as int, quorum as int, use_deny),
{
    if total_cast > max_weight {
        return false;
    }
    if total_cast < quorum {
        return false;
    }
    if !exec_meets_threshold(weight, max_weight, threshold_pct) {
        return false;
    }
    if use_deny {
        let remaining: u64 = max_weight - total_cast;
        (weight as u128) > (deny_weight as u128) + (remaining as u128)
    } else {
        true
    }
}

/// Runtime form of `can_tip_defeated` on the proposal's running tallies.
pub fn exec_can_tip_defeated(
    weight: u64,
    deny_weight: u64,
    total_cast: u64,
    max_weight: u64,
    threshold_pct: u8,
    quorum: u64,
    use_deny: bool,
) -> (r: bool)
    ensures
        r == can_tip_defeated(weight as int, deny_weight as int, total_cast as int,
            max_weight as int, threshold_pct as int, quorum as int, use_deny),
{
    if total_cast > max_weight {
        return false;
    }
    let remaining: u64 = max_weight - total_cast;
    if !exec_meets_threshold_plus(weight, remaining, max_weight, threshold_pct) {
        return true;
    }
    if use_deny && (deny_weight as u128) >= (weight as u128) + (remaining as u128) {
        return true;
    }
    quorum > max_weight
}

} // verus!
