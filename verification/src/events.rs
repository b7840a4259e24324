//! The events that the operations give to outside observers.

use vstd::prelude::*;
use crate::identity::Identity;
use crate::ledger::VoteRecord;
use crate::proposal::Proposal;
use crate::status::{ProposalStatus, VoteOption};

verus! {

/// A proposal was submitted.
#[derive(Clone, Debug, PartialEq, Eq)]
pub struct ProposalSubmitted {
    pub proposal_id: u64,
    pub proposer: Identity,
    pub title: String,
    pub end_slot: u64,
}

/// A vote was accepted.
#[derive(Clone, Copy, Debug, PartialEq, Eq)]
pub struct VoteCast {
    pub proposal_id: u64,
    pub voter: Identity,
    pub vote_option: VoteOption,
    pub vote_weight: u64,
}

/// A tally set a proposal's status.
#[derive(Clone, Copy, Debug, PartialEq, Eq)]
pub struct ProposalStatusChanged {
    pub proposal_id: u64,
    pub new_status: ProposalStatus,
    pub total_yes_votes: u64,
    pub total_no_votes: u64,
}

/// A proposal was executed.
#[derive(Clone, Copy, Debug, PartialEq, Eq)]
pub struct ProposalExecuted {
    pub proposal_id: u64,
    pub funding_amount: u64,
}

impl Proposal {
    /// The event of this proposal's submission.
    pub fn submission_event(&self) -> (event: ProposalSubmitted)
        ensures
            event == (ProposalSubmitted {
                proposal_id: self.id,
                proposer: self.proposer,
                title: self.title,
                end_slot: self.end_slot,
            }),
    {
        ProposalSubmitted {
            proposal_id: self.id,
            proposer: self.proposer,
            title: self.title.clone(),
            end_slot: self.end_slot,
        }
    }

    /// The event of a tally, with the status and the weights as they now are.
    pub fn status_event(&self) -> (event: ProposalStatusChanged)
        ensures
            event == (ProposalStatusChanged {
                proposal_id: self.id,
                new_status: self.status,
                total_yes_votes: self.yes_votes,
                total_no_votes: self.no_votes,
            }),
    {
        ProposalStatusChanged {
            proposal_id: self.id,
            new_status: self.status,
            total_yes_votes: self.yes_votes,
            total_no_votes: self.no_votes,
        }
    }

    /// The event of this proposal's execution.
    pub fn execution_event(&self) -> (event: ProposalExecuted)
        ensures
            event == (ProposalExecuted {
                proposal_id: self.id,
                funding_amount: self.requested_amount,
            }),
    {
        ProposalExecuted { proposal_id: self.id, funding_amount: self.requested_amount }
    }
}

impl VoteRecord {
    /// The event of the vote that this record holds.
    pub fn cast_event(&self) -> (event: VoteCast)
        ensures
            event == (VoteCast {
                proposal_id: self.proposal_id,
                voter: self.voter,
                vote_option: self.vote_option,
                vote_weight: self.vote_weight,
            }),
    {
        VoteCast {
            proposal_id: self.proposal_id,
            voter: self.voter,
            vote_option: self.vote_option,
            vote_weight: self.vote_weight,
        }
    }
}

} // verus!
