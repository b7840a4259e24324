//! Execution of a proposal that passed.

use vstd::prelude::*;
use crate::proposal::Proposal;
use crate::status::{ErrorCode, ProposalStatus};

verus! {

/// Why an execution is refused, if it is. The conditions are tested in this
/// order and the first that fails decides.
pub open spec fn execution_refusal(proposal: Proposal, proposal_id: u64) -> Option<ErrorCode> {
    if proposal.id != proposal_id {
        Some(ErrorCode::ProposalNotFound)
    } else if proposal.executed {
        Some(ErrorCode::AlreadyExecuted)
    } else if proposal.status != ProposalStatus::SucceededAwaitingExecution {
        Some(ErrorCode::NotExecutable)
    } else {
        None
    }
}

/// The proposal after an execution was asked for.
pub open spec fn after_execution(proposal: Proposal, proposal_id: u64) -> Proposal {
    if execution_refusal(proposal, proposal_id) is Some {
        proposal
    } else {
        proposal.as_executed()
    }
}

/// Executes the proposal with the id `proposal_id`.
///
/// Only a proposal that awaits execution and was not executed before is
/// accepted: it becomes `Executed`, with its flag set. No funds move. A
/// refused call changes nothing.
pub fn execute_proposal(proposal: &mut Proposal, proposal_id: u64) -> (res: Result<(), ErrorCode>)
    ensures
        *final(proposal) == after_execution(*old(proposal), proposal_id),
        match execution_refusal(*old(proposal), proposal_id) {
            Some(error) => res == Err::<(), ErrorCode>(error),
            None => res is Ok,
        },
        res is Ok ==> old(proposal).status.precedes(final(proposal).status),
{
    if proposal.id != proposal_id {
        return Err(ErrorCode::ProposalNotFound);
    }
    if proposal.executed {
        return Err(ErrorCode::AlreadyExecuted);
    }
    if !matches!(proposal.status, ProposalStatus::SucceededAwaitingExecution) {
        return Err(ErrorCode::NotExecutable);
    }
    proposal.executed = true;
    proposal.status = ProposalStatus::Executed;
    Ok(())
}

} // verus!
