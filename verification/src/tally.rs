//! The tally: from the accumulated weights to an outcome.

use vstd::prelude::*;
use crate::config::GovernanceConfig;
use crate::proposal::Proposal;
use crate::status::{ErrorCode, ProposalStatus};

verus! {

/// The percentage of `yes` in `total`, rounded down; 0 where nothing was cast.
pub open spec fn yes_percentage(yes: nat, total: nat) -> nat {
    if total == 0 {
        0
    } else {
        (yes * 100) / total
    }
}

/// The outcome that the weights `yes` and `no` have under a quorum and a
/// threshold percentage.
///
/// Less total weight than the quorum gives `SucceededQuorumNotMet`. Else the
/// proposal passes if the yes percentage reaches the threshold (equal passes)
/// and is defeated otherwise. The total, and a hundred times the yes weight,
/// must fit in 64 bits: where one does not, there is no outcome.
pub open spec fn outcome(yes: u64, no: u64, quorum: u64, threshold: u64) -> Result<
    ProposalStatus,
    ErrorCode,
> {
    if yes + no > u64::MAX {
        Err(ErrorCode::ArithmeticOverflow)
    } else if yes + no < quorum {
        Ok(ProposalStatus::SucceededQuorumNotMet)
    } else if yes * 100 > u64::MAX {
        Err(ErrorCode::ArithmeticOverflow)
    } else if yes_percentage(yes as nat, (yes + no) as nat) >= threshold {
        Ok(ProposalStatus::SucceededAwaitingExecution)
    } else {
        Ok(ProposalStatus::Defeated)
    }
}

/// What a tally of `proposal`, asked for under the id `proposal_id` at tick
/// `now`, returns: the new status, or the first failure.
pub open spec fn tally_result(
    config: GovernanceConfig,
    proposal: Proposal,
    proposal_id: u64,
    now: u64,
) -> Result<ProposalStatus, ErrorCode> {
    if proposal.id != proposal_id {
        Err(ErrorCode::ProposalNotFound)
    } else if proposal.status != ProposalStatus::Voting {
        Err(ErrorCode::ProposalNotActive)
    } else if now <= proposal.end_slot {
        Err(ErrorCode::VotingPeriodNotEnded)
    } else {
        outcome(
            proposal.yes_votes,
            proposal.no_votes,
            config.min_quorum_votes,
            config.min_threshold_votes_percentage,
        )
    }
}

/// The proposal after a tally was asked for.
pub open spec fn after_tally(
    config: GovernanceConfig,
    proposal: Proposal,
    proposal_id: u64,
    now: u64,
) -> Proposal {
    match tally_result(config, proposal, proposal_id, now) {
        Ok(status) => proposal.with_status(status),
        Err(_) => proposal,
    }
}

/// Computes the outcome of the weights `yes` and `no`.
pub fn decide(yes: u64, no: u64, quorum: u64, threshold: u64) -> (res: Result<
    ProposalStatus,
    ErrorCode,
>)
    ensures
        res == outcome(yes, no, quorum, threshold),
{
    let total: u64 = match yes.checked_add(no) {
        Some(total) => total,
        None => {
            return Err(ErrorCode::ArithmeticOverflow);
        },
    };
    if total < quorum {
        return Ok(ProposalStatus::SucceededQuorumNotMet);
    }
    let yes_percentage: u64 = if total > 0 {
        match yes.checked_mul(100) {
            Some(scaled) => scaled / total,
            None => {
                return Err(ErrorCode::ArithmeticOverflow);
            },
        }
    } else {
        0
    };
    if yes_percentage >= threshold {
        Ok(ProposalStatus::SucceededAwaitingExecution)
    } else {
        Ok(ProposalStatus::Defeated)
    }
}

/// Closes the voting on the proposal with the id `proposal_id` at tick
/// `current_slot` and sets its outcome.
///
/// The proposal must have that id and be in `Voting`, and the tick must be
/// past its end tick. On
/// success only the status changes, to the outcome of the accumulated
/// weights, which is also returned. On failure the proposal stays as it was.
pub fn tally_votes_and_update_status(
    config: &GovernanceConfig,
    proposal: &mut Proposal,
    proposal_id: u64,
    current_slot: u64,
) -> (res: Result<ProposalStatus, ErrorCode>)
    ensures
        res == tally_result(*config, *old(proposal), proposal_id, current_slot),
        *final(proposal) == after_tally(*config, *old(proposal), proposal_id, current_slot),
        res is Ok ==> old(proposal).status.precedes(final(proposal).status),
{
    if proposal.id != proposal_id {
        return Err(ErrorCode::ProposalNotFound);
    }
    if !matches!(proposal.status, ProposalStatus::Voting) {
        return Err(ErrorCode::ProposalNotActive);
    }
    if current_slot <= proposal.end_slot {
        return Err(ErrorCode::VotingPeriodNotEnded);
    }
    let status = decide(
        proposal.yes_votes,
        proposal.no_votes,
        config.min_quorum_votes,
        config.min_threshold_votes_percentage,
    )?;
    proposal.status = status;
    Ok(status)
}

} // verus!
