//! Per-governance policy: thresholds, voting window, tipping mode, deposits.
//! A config is pure data; it parameterizes the lifecycle, tallying and
//! execution engines and can only be replaced through a proposal executed
//! against the governance it belongs to.

use vstd::prelude::*;
use crate::errors::GovernanceError;

verus! {

/// When the engine may decide a vote before the window closes.
///
/// Early tipping is only ever applied when the outcome can no longer be
/// changed by the remaining uncommitted weight; the modes select how eagerly
/// that check is used.
#[derive(Clone, Copy, Debug, PartialEq, Eq, Structural)]
pub enum VoteTipping {
    /// Never tip early; every proposal waits out the full voting window.
    Disabled,
    /// Tip early only to Succeeded; defeats wait for an explicit finalize.
    Strict,
    /// Tip early to either outcome as soon as it is mathematically fixed.
    Early,
}

/// Policy parameters of one governance entity.
#[derive(Clone, Copy, Debug, PartialEq, Eq, Structural)]
pub struct GovernanceConfig {
    /// Approval threshold as a percentage (1..=100) of the max voting weight
    /// snapshot taken when voting starts.
    pub vote_threshold_percentage: u8,
    /// Minimum total cast weight (across options and deny) for the vote to count.
    pub quorum_weight: u64,
    /// Lower bound on the voting window; finalize also waits for `max_voting_time`.
    pub min_voting_time: u64,
    /// Length of the voting window, measured from `voting_starts_at`.
    pub max_voting_time: u64,
    /// Early-decision mode.
    pub vote_tipping: VoteTipping,
    /// Time after voting opens during which votes may not yet be cast.
    pub cool_off_time: u64,
    /// Deposit owed when creating a proposal under this governance.
    pub proposal_deposit: u64,
    /// Minimum voting weight an owner needs to create a proposal.
    pub min_weight_to_create_proposal: u64,
}

/// A config is valid when the threshold is a usable percentage, the window
/// bounds are ordered, and the cool-off fits inside the window.
pub open spec fn spec_config_valid(c: GovernanceConfig) -> bool {
    &&& 1 <= c.vote_threshold_percentage <= 100
    &&& c.min_voting_time <= c.max_voting_time
    &&& c.cool_off_time < c.max_voting_time
}

/// Runtime validation, equal to `spec_config_valid`; the error is always
/// `InvalidConfig`.
pub fn validate_config(c: &GovernanceConfig) -> (r: Result<(), GovernanceError>)
    ensures
        r is Ok <==> spec_config_valid(*c),
        r is Err ==> r == Result::<(), GovernanceError>::Err(GovernanceError::InvalidConfig),
{
    if c.vote_threshold_percentage >= 1 && c.vote_threshold_percentage <= 100
        && c.min_voting_time <= c.max_voting_time
        && c.cool_off_time < c.max_voting_time {
        Ok(())
    } else {
        Err(GovernanceError::InvalidConfig)
    }
}

} // verus!
