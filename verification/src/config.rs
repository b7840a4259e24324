//! The organization's parameters.

use vstd::prelude::*;
use crate::identity::Identity;

verus! {

/// The ruleset of one organization. Only `proposal_count` changes after
/// initialization.
#[derive(Clone, Copy, Debug, PartialEq, Eq)]
pub struct GovernanceConfig {
    /// The identity allowed to take privileged actions.
    pub admin: Identity,
    /// The id that the next proposal gets.
    pub proposal_count: u64,
    /// The fee asked for a submission.
    pub proposal_fee: u64,
    /// The asset whose balance is a voter's weight.
    pub governance_token_mint: Identity,
    /// The least total weight, yes and no together, for an outcome to count.
    pub min_quorum_votes: u64,
    /// The least percentage of yes weight in the total weight to pass.
    pub min_threshold_votes_percentage: u64,
    /// How many ticks a proposal stays open.
    pub voting_period_slots: u64,
}

impl GovernanceConfig {
    /// This configuration with the proposal counter set to `count`.
    pub open spec fn with_count(self, count: u64) -> GovernanceConfig {
        GovernanceConfig { proposal_count: count, ..self }
    }

    /// Two configurations that state the same rules, whatever their counters.
    pub open spec fn same_rules(self, other: GovernanceConfig) -> bool {
        self.with_count(0) == other.with_count(0)
    }
}

/// Creates the configuration of an organization, with no proposal submitted yet.
pub fn initialize_dao_state(
    admin: Identity,
    governance_token_mint: Identity,
    proposal_fee: u64,
    min_quorum_votes: u64,
    min_threshold_votes: u64,
    voting_period_slots: u64,
) -> (config: GovernanceConfig)
    ensures
        config == (GovernanceConfig {
            admin,
            proposal_count: 0,
            proposal_fee,
            governance_token_mint,
            min_quorum_votes,
            min_threshold_votes_percentage: min_threshold_votes,
            voting_period_slots,
        }),
{
    GovernanceConfig {
        admin,
        proposal_count: 0,
        proposal_fee,
        governance_token_mint,
        min_quorum_votes,
        min_threshold_votes_percentage: min_threshold_votes,
        voting_period_slots,
    }
}

} // verus!
