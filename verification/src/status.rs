//! The status of a proposal, the choice of a vote, and the named failures.

use vstd::prelude::*;

verus! {

/// Where a proposal stands in its lifecycle.
#[derive(Clone, Copy, Debug, PartialEq, Eq, Structural)]
pub enum ProposalStatus {
    /// Not yet open for voting.
    Pending,
    /// Open: votes are accepted until the end tick.
    Voting,
    /// Voting ended with less total weight than the quorum. Terminal.
    SucceededQuorumNotMet,
    /// Voting ended, quorum met, threshold reached.
    SucceededAwaitingExecution,
    /// Voting ended, quorum met, threshold missed. Terminal.
    Defeated,
    /// Executed. Terminal.
    Executed,
    /// Withdrawn before an outcome. Terminal.
    Cancelled,
}

/// The two ways to vote.
#[derive(Clone, Copy, Debug, PartialEq, Eq, Structural)]
pub enum VoteOption {
    Yes,
    No,
}

/// The named failures. Each aborts the operation with no record changed.
#[derive(Clone, Copy, Debug, PartialEq, Eq, Structural)]
pub enum ErrorCode {
    /// The proposal's id is not the one asked for.
    ProposalNotFound,
    /// The proposal is not in `Voting`.
    ProposalNotActive,
    /// The current tick is past the proposal's end tick.
    VotingPeriodEnded,
    /// A vote of this voter on this proposal is already recorded.
    AlreadyVoted,
    /// The voter's balance is zero.
    InsufficientWeight,
    /// The current tick is not yet past the proposal's end tick.
    VotingPeriodNotEnded,
    /// The proposal was executed before.
    AlreadyExecuted,
    /// The proposal did not succeed, or has no outcome yet.
    NotExecutable,
    /// A counter, a weight or a tick would leave the unsigned 64-bit range.
    ArithmeticOverflow,
    /// A title is longer than 128 bytes.
    TitleTooLong,
    /// A content address is not 46 bytes long or does not begin with `Qm`.
    InvalidIpfsHash,
    /// The acting identity is not the one allowed to act.
    Unauthorized,
}

impl ProposalStatus {
    /// The transition table: `next` may directly follow `self`.
    pub open spec fn precedes(self, next: ProposalStatus) -> bool {
        match self {
            ProposalStatus::Pending => next == ProposalStatus::Voting || next
                == ProposalStatus::Cancelled,
            ProposalStatus::Voting => next == ProposalStatus::SucceededQuorumNotMet || next
                == ProposalStatus::SucceededAwaitingExecution || next == ProposalStatus::Defeated
                || next == ProposalStatus::Cancelled,
            ProposalStatus::SucceededAwaitingExecution => next == ProposalStatus::Executed,
            _ => false,
        }
    }

    /// How far along the lifecycle a status is. Every transition of the table
    /// raises it.
    pub open spec fn stage(self) -> nat {
        match self {
            ProposalStatus::Pending => 0,
            ProposalStatus::Voting => 1,
            ProposalStatus::SucceededQuorumNotMet => 2,
            ProposalStatus::SucceededAwaitingExecution => 2,
            ProposalStatus::Defeated => 2,
            ProposalStatus::Cancelled => 2,
            ProposalStatus::Executed => 3,
        }
    }

    /// A status that nothing follows.
    pub open spec fn terminal(self) -> bool {
        forall|next: ProposalStatus| !self.precedes(next)
    }

    /// Whether the transition table allows `next` directly after `self`.
    pub fn can_transition_to(&self, next: &ProposalStatus) -> (r: bool)
        ensures
            r == self.precedes(*next),
    {
        match self {
            ProposalStatus::Pending => matches!(
                next,
                ProposalStatus::Voting | ProposalStatus::Cancelled
            ),
            ProposalStatus::Voting => matches!(
                next,
                ProposalStatus::SucceededQuorumNotMet
                    | ProposalStatus::SucceededAwaitingExecution
                    | ProposalStatus::Defeated
                    | ProposalStatus::Cancelled
            ),
            ProposalStatus::SucceededAwaitingExecution => matches!(next, ProposalStatus::Executed),
            _ => false,
        }
    }

    /// Whether nothing follows this status.
    pub fn is_terminal(&self) -> (r: bool)
        ensures
            r == self.terminal(),
    {
        match self {
            ProposalStatus::Pending => {
                assert(self.precedes(ProposalStatus::Voting));
                false
            },
            ProposalStatus::Voting => {
                assert(self.precedes(ProposalStatus::Defeated));
                false
            },
            ProposalStatus::SucceededAwaitingExecution => {
                assert(self.precedes(ProposalStatus::Executed));
                false
            },
            _ => true,
        }
    }
}

impl Default for ProposalStatus {
    /// A record that was never submitted is `Pending`.
    fn default() -> (status: ProposalStatus)
        ensures
            status == ProposalStatus::Pending,
    {
        ProposalStatus::Pending
    }
}

/// The lifecycle only moves forward: a transition of the table always leads to
/// a later stage, so no sequence of transitions returns to a status it left.
pub proof fn lemma_transitions_move_forward(from: ProposalStatus, to: ProposalStatus)
    requires
        from.precedes(to),
    ensures
        from.stage() < to.stage(),
{
}

} // verus!
