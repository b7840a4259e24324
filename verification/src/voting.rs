//! Casting a vote.

use vstd::prelude::*;
use crate::identity::Identity;
use crate::ledger::{has_record, VoteLedger, VoteRecord};
use crate::proposal::Proposal;
use crate::status::{ErrorCode, ProposalStatus, VoteOption};

verus! {

/// Why a vote is refused, if it is. The conditions are tested in this order
/// and the first that fails decides.
pub open spec fn vote_refusal(
    proposal: Proposal,
    records: Seq<VoteRecord>,
    proposal_id: u64,
    voter: Identity,
    balance: u64,
    choice: VoteOption,
    now: u64,
) -> Option<ErrorCode> {
    if proposal.id != proposal_id {
        Some(ErrorCode::ProposalNotFound)
    } else if proposal.status != ProposalStatus::Voting {
        Some(ErrorCode::ProposalNotActive)
    } else if now > proposal.end_slot {
        Some(ErrorCode::VotingPeriodEnded)
    } else if has_record(records, proposal.id, voter) {
        Some(ErrorCode::AlreadyVoted)
    } else if balance == 0 {
        Some(ErrorCode::InsufficientWeight)
    } else if proposal.weight_of(choice) + balance > u64::MAX {
        Some(ErrorCode::ArithmeticOverflow)
    } else {
        None
    }
}

/// The record that an accepted vote leaves.
pub open spec fn vote_record(
    proposal: Proposal,
    voter: Identity,
    balance: u64,
    choice: VoteOption,
) -> VoteRecord {
    VoteRecord { proposal_id: proposal.id, voter, vote_option: choice, vote_weight: balance }
}

/// The proposal and the ledger after a vote was asked for: both unchanged if
/// it was refused, else the weight added and the record appended.
pub open spec fn after_vote(
    proposal: Proposal,
    records: Seq<VoteRecord>,
    proposal_id: u64,
    voter: Identity,
    balance: u64,
    choice: VoteOption,
    now: u64,
) -> (Proposal, Seq<VoteRecord>) {
    if vote_refusal(proposal, records, proposal_id, voter, balance, choice, now) is Some {
        (proposal, records)
    } else {
        (
            proposal.with_vote(choice, balance),
            records.push(vote_record(proposal, voter, balance, choice)),
        )
    }
}

/// Casts the vote of `voter` on the proposal with the id `proposal_id`, with
/// the weight `voter_token_balance`, at tick `current_slot`.
///
/// An accepted vote adds the balance to the proposal's yes or no weight and
/// appends one record, which is returned. A refused vote changes nothing and
/// names the first condition that failed.
pub fn vote_for_proposal(
    proposal: &mut Proposal,
    ledger: &mut VoteLedger,
    proposal_id: u64,
    voter: Identity,
    voter_token_balance: u64,
    vote_option: VoteOption,
    current_slot: u64,
) -> (res: Result<VoteRecord, ErrorCode>)
    requires
        old(ledger).wf(),
    ensures
        final(ledger).wf(),
        (*final(proposal), final(ledger)@) == after_vote(
            *old(proposal),
            old(ledger)@,
            proposal_id,
            voter,
            voter_token_balance,
            vote_option,
            current_slot,
        ),
        match vote_refusal(
            *old(proposal),
            old(ledger)@,
            proposal_id,
            voter,
            voter_token_balance,
            vote_option,
            current_slot,
        ) {
            Some(error) => res == Err::<VoteRecord, ErrorCode>(error),
            None => res == Ok::<VoteRecord, ErrorCode>(
                vote_record(*old(proposal), voter, voter_token_balance, vote_option),
            ),
        },
{
    if proposal.id != proposal_id {
        return Err(ErrorCode::ProposalNotFound);
    }
    if !matches!(proposal.status, ProposalStatus::Voting) {
        return Err(ErrorCode::ProposalNotActive);
    }
    if current_slot > proposal.end_slot {
        return Err(ErrorCode::VotingPeriodEnded);
    }
    if ledger.has_voted(proposal.id, &voter) {
        return Err(ErrorCode::AlreadyVoted);
    }
    if voter_token_balance == 0 {
        return Err(ErrorCode::InsufficientWeight);
    }
    let record = VoteRecord {
        proposal_id: proposal.id,
        voter,
        vote_option,
        vote_weight: voter_token_balance,
    };
    match vote_option {
        VoteOption::Yes => {
            match proposal.yes_votes.checked_add(voter_token_balance) {
                Some(sum) => {
                    proposal.yes_votes = sum;
                },
                None => {
                    return Err(ErrorCode::ArithmeticOverflow);
                },
            }
        },
        VoteOption::No => {
            match proposal.no_votes.checked_add(voter_token_balance) {
                Some(sum) => {
                    proposal.no_votes = sum;
                },
                None => {
                    return Err(ErrorCode::ArithmeticOverflow);
                },
            }
        },
    }
    let recorded = ledger.record(record);
    assert(recorded is Ok);
    Ok(record)
}

} // verus!
