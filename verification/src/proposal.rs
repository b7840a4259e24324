//! Proposal records and their submission.

use vstd::prelude::*;
use crate::config::GovernanceConfig;
use crate::identity::Identity;
use crate::status::{ErrorCode, ProposalStatus, VoteOption};

verus! {

/// One proposal. Created by `submit_proposal`; after that only voting, the
/// tally and execution change it, and only its weights, status and
/// `executed` flag.
#[derive(Clone, Debug, PartialEq, Eq)]
pub struct Proposal {
    /// The sequence number, taken from the configuration's counter.
    pub id: u64,
    /// Who submitted it.
    pub proposer: Identity,
    pub title: String,
    pub description: String,
    /// Content address of the full document.
    pub ipfs_hash: String,
    /// The funding asked for. Informational: execution moves no funds.
    pub requested_amount: u64,
    /// Accumulated weight of the yes votes.
    pub yes_votes: u64,
    /// Accumulated weight of the no votes.
    pub no_votes: u64,
    /// The tick of submission.
    pub start_slot: u64,
    /// The last tick at which a vote is accepted.
    pub end_slot: u64,
    /// Set once, by execution.
    pub executed: bool,
    pub status: ProposalStatus,
}

impl Proposal {
    /// The record's invariant: the window is not reversed, and an executed
    /// proposal has the status `Executed`.
    pub open spec fn wf(self) -> bool {
        &&& self.start_slot <= self.end_slot
        &&& self.executed ==> self.status == ProposalStatus::Executed
    }

    /// The proposal as `submit_proposal` creates it.
    pub open spec fn fresh(
        id: u64,
        proposer: Identity,
        title: String,
        description: String,
        ipfs_hash: String,
        requested_amount: u64,
        start_slot: u64,
        end_slot: u64,
    ) -> Proposal {
        Proposal {
            id,
            proposer,
            title,
            description,
            ipfs_hash,
            requested_amount,
            yes_votes: 0,
            no_votes: 0,
            start_slot,
            end_slot,
            executed: false,
            status: ProposalStatus::Voting,
        }
    }

    /// The weight accumulated for one choice.
    pub open spec fn weight_of(self, choice: VoteOption) -> u64 {
        match choice {
            VoteOption::Yes => self.yes_votes,
            VoteOption::No => self.no_votes,
        }
    }

    /// This proposal with `weight` more on the side of `choice`.
    pub open spec fn with_vote(self, choice: VoteOption, weight: u64) -> Proposal
        recommends
            self.weight_of(choice) + weight <= u64::MAX,
    {
        match choice {
            VoteOption::Yes => Proposal { yes_votes: (self.yes_votes + weight) as u64, ..self },
            VoteOption::No => Proposal { no_votes: (self.no_votes + weight) as u64, ..self },
        }
    }

    /// This proposal with another status.
    pub open spec fn with_status(self, status: ProposalStatus) -> Proposal {
        Proposal { status, ..self }
    }

    /// This proposal after execution.
    pub open spec fn as_executed(self) -> Proposal {
        Proposal { executed: true, status: ProposalStatus::Executed, ..self }
    }
}

/// Whether a submission at tick `now` under `config` is accepted: the counter
/// and the end tick must both stay in range.
pub open spec fn submission_fits(config: GovernanceConfig, now: u64) -> bool {
    config.proposal_count < u64::MAX && now + config.voting_period_slots <= u64::MAX
}

/// The configuration after a submission was asked for at tick `now`: the
/// counter moved on by one if it was accepted, nothing changed if not.
pub open spec fn after_submission(config: GovernanceConfig, now: u64) -> GovernanceConfig {
    if submission_fits(config, now) {
        config.with_count((config.proposal_count + 1) as u64)
    } else {
        config
    }
}

/// Submits a proposal at tick `current_slot`.
///
/// The proposal gets the counter's value as its id, the counter moves on by
/// one, voting opens at once and ends `voting_period_slots` ticks later. If
/// the counter or the end tick would overflow, nothing changes and the call
/// fails with `ArithmeticOverflow`.
pub fn submit_proposal(
    config: &mut GovernanceConfig,
    proposer: Identity,
    title: String,
    description: String,
    ipfs_hash: String,
    requested_amount: u64,
    current_slot: u64,
) -> (res: Result<Proposal, ErrorCode>)
    ensures
        res is Ok <==> submission_fits(*old(config), current_slot),
        res is Ok ==> res->Ok_0 == Proposal::fresh(
            old(config).proposal_count,
            proposer,
            title,
            description,
            ipfs_hash,
            requested_amount,
            current_slot,
            (current_slot + old(config).voting_period_slots) as u64,
        ),
        res is Err ==> res->Err_0 == ErrorCode::ArithmeticOverflow,
        *final(config) == after_submission(*old(config), current_slot),
{
    let end_slot: u64 = match current_slot.checked_add(config.voting_period_slots) {
        Some(end) => end,
        None => {
            return Err(ErrorCode::ArithmeticOverflow);
        },
    };
    let next_count: u64 = match config.proposal_count.checked_add(1) {
        Some(next) => next,
        None => {
            return Err(ErrorCode::ArithmeticOverflow);
        },
    };
    let proposal = Proposal {
        id: config.proposal_count,
        proposer,
        title,
        description,
        ipfs_hash,
        requested_amount,
        yes_votes: 0,
        no_votes: 0,
        start_slot: current_slot,
        end_slot,
        executed: false,
        status: ProposalStatus::Voting,
    };
    config.proposal_count = next_count;
    Ok(proposal)
}

} // verus!
