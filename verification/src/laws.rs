//! What holds of the lifecycle as a whole, proved from the definitions of the
//! single operations.

use vstd::prelude::*;
use crate::config::GovernanceConfig;
use crate::execution::{after_execution, execution_refusal};
use crate::identity::Identity;
use crate::ledger::{
    distinct_keys, has_record, lemma_nothing_recorded, lemma_recorded_total_splits,
    lemma_recorded_weight_push, recorded_total, recorded_weight, VoteRecord,
};
use crate::proposal::{after_submission, submission_fits, Proposal};
use crate::status::{ErrorCode, ProposalStatus, VoteOption};
use crate::tally::{after_tally, outcome, tally_result, yes_percentage};
use crate::voting::{after_vote, vote_record, vote_refusal};

verus! {

/// One request to vote: on which proposal, by whom, with what balance, for
/// which side, at what tick.
pub struct Ballot {
    pub proposal_id: u64,
    pub voter: Identity,
    pub balance: u64,
    pub choice: VoteOption,
    pub tick: u64,
}

impl Ballot {
    /// Why this request is refused in the given state, if it is.
    pub open spec fn refusal(self, proposal: Proposal, records: Seq<VoteRecord>) -> Option<
        ErrorCode,
    > {
        vote_refusal(
            proposal,
            records,
            self.proposal_id,
            self.voter,
            self.balance,
            self.choice,
            self.tick,
        )
    }

    /// The proposal and the ledger after this request was made.
    pub open spec fn applied(self, proposal: Proposal, records: Seq<VoteRecord>) -> (
        Proposal,
        Seq<VoteRecord>,
    ) {
        after_vote(
            proposal,
            records,
            self.proposal_id,
            self.voter,
            self.balance,
            self.choice,
            self.tick,
        )
    }
}

/// The proposal and the ledger after the requests of `ballots` were made one
/// after the other, each accepted or refused on its own.
pub open spec fn after_votes(
    proposal: Proposal,
    records: Seq<VoteRecord>,
    ballots: Seq<Ballot>,
) -> (Proposal, Seq<VoteRecord>)
    decreases ballots.len(),
{
    if ballots.len() == 0 {
        (proposal, records)
    } else {
        let before = after_votes(proposal, records, ballots.drop_last());
        ballots.last().applied(before.0, before.1)
    }
}

/// The proposal's two weights are what the ledger records on it.
pub open spec fn weights_match(proposal: Proposal, records: Seq<VoteRecord>) -> bool {
    &&& proposal.yes_votes == recorded_weight(records, proposal.id, VoteOption::Yes)
    &&& proposal.no_votes == recorded_weight(records, proposal.id, VoteOption::No)
}

/// `later` is `earlier` after some operations: what identifies the proposal
/// and its window is unchanged, no weight went down, an execution was not
/// undone, and the status is the same or further along the lifecycle.
pub open spec fn continues(earlier: Proposal, later: Proposal) -> bool {
    &&& later.id == earlier.id
    &&& later.proposer == earlier.proposer
    &&& later.title == earlier.title
    &&& later.description == earlier.description
    &&& later.ipfs_hash == earlier.ipfs_hash
    &&& later.requested_amount == earlier.requested_amount
    &&& later.start_slot == earlier.start_slot
    &&& later.end_slot == earlier.end_slot
    &&& later.yes_votes >= earlier.yes_votes
    &&& later.no_votes >= earlier.no_votes
    &&& earlier.executed ==> later.executed
    &&& later.status == earlier.status || earlier.status.stage() < later.status.stage()
}

/// The configuration after submissions were asked for at the ticks of
/// `ticks`, one after the other.
pub open spec fn after_submissions(config: GovernanceConfig, ticks: Seq<u64>) -> GovernanceConfig
    decreases ticks.len(),
{
    if ticks.len() == 0 {
        config
    } else {
        after_submission(after_submissions(config, ticks.drop_last()), ticks.last())
    }
}

/// Submissions change nothing of the configuration but the counter, and the
/// counter never goes back.
pub proof fn lemma_counter_only_grows(config: GovernanceConfig, ticks: Seq<u64>)
    ensures
        after_submissions(config, ticks).same_rules(config),
        after_submissions(config, ticks).proposal_count >= config.proposal_count,
    decreases ticks.len(),
{
    if ticks.len() > 0 {
        lemma_counter_only_grows(config, ticks.drop_last());
    }
}

/// An id is given out once: after an accepted submission, whatever is
/// submitted later gets a larger id.
pub proof fn lemma_ids_are_not_reused(config: GovernanceConfig, now: u64, ticks: Seq<u64>)
    requires
        submission_fits(config, now),
    ensures
        after_submissions(after_submission(config, now), ticks).proposal_count
            > config.proposal_count,
{
    lemma_counter_only_grows(after_submission(config, now), ticks);
}

/// A proposal as submission creates it satisfies the record's invariant, and
/// its weights match every ledger that holds no vote on its id yet.
pub proof fn lemma_submitted_proposal_starts_clean(
    config: GovernanceConfig,
    proposer: Identity,
    title: String,
    description: String,
    ipfs_hash: String,
    requested_amount: u64,
    now: u64,
    records: Seq<VoteRecord>,
)
    requires
        submission_fits(config, now),
        forall|i: int|
            0 <= i < records.len() ==> (#[trigger] records[i]).proposal_id != config.proposal_count,
    ensures
        ({
            let proposal = Proposal::fresh(
                config.proposal_count,
                proposer,
                title,
                description,
                ipfs_hash,
                requested_amount,
                now,
                (now + config.voting_period_slots) as u64,
            );
            &&& proposal.wf()
            &&& weights_match(proposal, records)
            &&& recorded_total(records, proposal.id) == 0
        }),
{
    lemma_nothing_recorded(records, config.proposal_count);
}

/// One vote, accepted or not, keeps the ledger free of double entries and the
/// proposal's weights equal to what the ledger records on it. The proposal's
/// invariant is kept, and the proposal only moves on.
pub proof fn lemma_vote_keeps_accounts(
    proposal: Proposal,
    records: Seq<VoteRecord>,
    proposal_id: u64,
    voter: Identity,
    balance: u64,
    choice: VoteOption,
    now: u64,
)
    ensures
        ({
            let after = after_vote(proposal, records, proposal_id, voter, balance, choice, now);
            &&& distinct_keys(records) ==> distinct_keys(after.1)
            &&& weights_match(proposal, records) ==> weights_match(after.0, after.1)
            &&& proposal.wf() ==> after.0.wf()
            &&& continues(proposal, after.0)
        }),
{
    let after = after_vote(proposal, records, proposal_id, voter, balance, choice, now);
    if vote_refusal(proposal, records, proposal_id, voter, balance, choice, now) is None {
        let record = vote_record(proposal, voter, balance, choice);
        lemma_recorded_weight_push(records, record, proposal.id, VoteOption::Yes);
        lemma_recorded_weight_push(records, record, proposal.id, VoteOption::No);
        if distinct_keys(records) {
            assert forall|i: int, j: int| 0 <= i < j < after.1.len() implies !((
            #[trigger] after.1[i]).proposal_id == (#[trigger] after.1[j]).proposal_id
                && after.1[i].voter == after.1[j].voter) by {
                if j == records.len() {
                    assert(after.1[i] == records[i]);
                } else {
                    assert(after.1[i] == records[i]);
                    assert(after.1[j] == records[j]);
                }
            }
        }
    }
}

/// For every sequence of requests to vote on one proposal: the yes and no
/// weights stay equal to the sums of the accepted votes for each side, so
/// their sum is the sum of all accepted weights on the proposal. Each weight
/// is an unsigned 64-bit number throughout: a vote that would take one out of
/// range is refused and adds nothing.
pub proof fn lemma_weights_are_sums_of_accepted_votes(
    proposal: Proposal,
    records: Seq<VoteRecord>,
    ballots: Seq<Ballot>,
)
    requires
        distinct_keys(records),
        weights_match(proposal, records),
    ensures
        ({
            let after = after_votes(proposal, records, ballots);
            &&& distinct_keys(after.1)
            &&& weights_match(after.0, after.1)
            &&& after.0.yes_votes + after.0.no_votes == recorded_total(after.1, proposal.id)
            &&& continues(proposal, after.0)
            &&& proposal.wf() ==> after.0.wf()
        }),
    decreases ballots.len(),
{
    if ballots.len() == 0 {
        lemma_recorded_total_splits(records, proposal.id);
    } else {
        let before = after_votes(proposal, records, ballots.drop_last());
        let ballot = ballots.last();
        lemma_weights_are_sums_of_accepted_votes(proposal, records, ballots.drop_last());
        lemma_vote_keeps_accounts(
            before.0,
            before.1,
            ballot.proposal_id,
            ballot.voter,
            ballot.balance,
            ballot.choice,
            ballot.tick,
        );
        let after = after_votes(proposal, records, ballots);
        lemma_recorded_total_splits(after.1, proposal.id);
    }
}

/// Of two votes of one voter on one proposal, each acceptable by itself,
/// whichever is cast first is accepted and the other then fails with
/// `AlreadyVoted`.
pub proof fn lemma_one_vote_per_voter(
    proposal: Proposal,
    records: Seq<VoteRecord>,
    first: Ballot,
    second: Ballot,
)
    requires
        first.voter == second.voter,
        first.refusal(proposal, records) is None,
        second.refusal(proposal, records) is None,
    ensures
        ({
            let mid = first.applied(proposal, records);
            second.refusal(mid.0, mid.1) == Some(ErrorCode::AlreadyVoted)
        }),
        ({
            let mid = second.applied(proposal, records);
            first.refusal(mid.0, mid.1) == Some(ErrorCode::AlreadyVoted)
        }),
{
    let one = first.applied(proposal, records);
    assert(one.1[records.len() as int] == vote_record(
        proposal,
        first.voter,
        first.balance,
        first.choice,
    ));
    let two = second.applied(proposal, records);
    assert(two.1[records.len() as int] == vote_record(
        proposal,
        second.voter,
        second.balance,
        second.choice,
    ));
}

/// Once a voter's vote on a proposal is recorded, no later request of that
/// voter on that proposal is accepted, whatever was cast in between.
pub proof fn lemma_recorded_voter_is_refused(
    proposal: Proposal,
    records: Seq<VoteRecord>,
    ballots: Seq<Ballot>,
    late: Ballot,
)
    requires
        has_record(records, proposal.id, late.voter),
    ensures
        ({
            let after = after_votes(proposal, records, ballots);
            &&& has_record(after.1, proposal.id, late.voter)
            &&& after.0.id == proposal.id
            &&& late.refusal(after.0, after.1) is Some
        }),
    decreases ballots.len(),
{
    if ballots.len() > 0 {
        let before = after_votes(proposal, records, ballots.drop_last());
        lemma_recorded_voter_is_refused(proposal, records, ballots.drop_last(), late);
        let after = after_votes(proposal, records, ballots);
        let i = choose|i: int|
            0 <= i < before.1.len() && (#[trigger] before.1[i]).proposal_id == proposal.id
                && before.1[i].voter == late.voter;
        assert(after.1[i] == before.1[i]);
    }
}

/// The tally's decision depends on the two weights, the quorum and the
/// threshold alone: two proposals with the same weights, tallied after their
/// windows under the same rules, get the same result.
pub proof fn lemma_tally_is_function_of_weights(
    config: GovernanceConfig,
    proposal: Proposal,
    now: u64,
    other_config: GovernanceConfig,
    other: Proposal,
    other_now: u64,
)
    requires
        proposal.status == ProposalStatus::Voting,
        other.status == ProposalStatus::Voting,
        now > proposal.end_slot,
        other_now > other.end_slot,
        proposal.yes_votes == other.yes_votes,
        proposal.no_votes == other.no_votes,
        config.min_quorum_votes == other_config.min_quorum_votes,
        config.min_threshold_votes_percentage == other_config.min_threshold_votes_percentage,
    ensures
        tally_result(config, proposal, proposal.id, now) == tally_result(
            other_config,
            other,
            other.id,
            other_now,
        ),
        tally_result(config, proposal, proposal.id, now) == outcome(
            proposal.yes_votes,
            proposal.no_votes,
            config.min_quorum_votes,
            config.min_threshold_votes_percentage,
        ),
{
}

/// A tally that succeeded is not repeated: the status it set is an outcome,
/// and a second tally fails with `ProposalNotActive` and changes nothing.
pub proof fn lemma_tally_happens_once(
    config: GovernanceConfig,
    proposal: Proposal,
    now: u64,
    later: u64,
)
    requires
        tally_result(config, proposal, proposal.id, now) is Ok,
    ensures
        ({
            let tallied = after_tally(config, proposal, proposal.id, now);
            &&& proposal.status.precedes(tallied.status)
            &&& tally_result(config, tallied, proposal.id, later) == Err::<
                ProposalStatus,
                ErrorCode,
            >(ErrorCode::ProposalNotActive)
            &&& after_tally(config, tallied, proposal.id, later) == tallied
            &&& continues(proposal, tallied)
            &&& proposal.wf() ==> tallied.wf()
        }),
{
}

/// An accepted tally changes nothing but the status, and closes the voting:
/// no vote is accepted afterwards, nor would one have been at that tick or
/// later without the tally.
pub proof fn lemma_tally_closes_voting(
    config: GovernanceConfig,
    proposal: Proposal,
    now: u64,
    records: Seq<VoteRecord>,
    ballot: Ballot,
)
    requires
        tally_result(config, proposal, proposal.id, now) is Ok,
    ensures
        ({
            let tallied = after_tally(config, proposal, proposal.id, now);
            &&& tallied == proposal.with_status(tallied.status)
            &&& ballot.refusal(tallied, records) is Some
            &&& ballot.proposal_id == proposal.id ==> ballot.refusal(tallied, records) == Some(
                ErrorCode::ProposalNotActive,
            )
            &&& ballot.proposal_id == proposal.id && now <= ballot.tick ==> ballot.refusal(
                proposal,
                records,
            ) == Some(ErrorCode::VotingPeriodEnded)
        }),
{
}

/// At the threshold a proposal passes, one percent below it fails: with the
/// quorum met and the arithmetic in range, the outcome is
/// `SucceededAwaitingExecution` exactly if the yes percentage is at least the
/// threshold, and `Defeated` otherwise.
pub proof fn lemma_threshold_boundary(yes: u64, no: u64, quorum: u64, threshold: u64)
    requires
        yes + no <= u64::MAX,
        yes * 100 <= u64::MAX,
        yes + no >= quorum,
    ensures
        yes_percentage(yes as nat, (yes + no) as nat) == threshold ==> outcome(
            yes,
            no,
            quorum,
            threshold,
        ) == Ok::<ProposalStatus, ErrorCode>(ProposalStatus::SucceededAwaitingExecution),
        yes_percentage(yes as nat, (yes + no) as nat) + 1 == threshold ==> outcome(
            yes,
            no,
            quorum,
            threshold,
        ) == Ok::<ProposalStatus, ErrorCode>(ProposalStatus::Defeated),
        outcome(yes, no, quorum, threshold) == Ok::<ProposalStatus, ErrorCode>(
            if yes_percentage(yes as nat, (yes + no) as nat) >= threshold {
                ProposalStatus::SucceededAwaitingExecution
            } else {
                ProposalStatus::Defeated
            },
        ),
{
}

/// The quorum counts the total weight: a total below it gives
/// `SucceededQuorumNotMet` whatever the split, and a total that reaches it
/// never does.
pub proof fn lemma_quorum_boundary(yes: u64, no: u64, quorum: u64, threshold: u64)
    requires
        yes + no <= u64::MAX,
    ensures
        yes + no < quorum <==> outcome(yes, no, quorum, threshold) == Ok::<
            ProposalStatus,
            ErrorCode,
        >(ProposalStatus::SucceededQuorumNotMet),
{
}

/// The yes percentage is the largest whole number `p` with
/// `p * total <= yes * 100`, and never more than a hundred.
pub proof fn lemma_yes_percentage_rounds_down(yes: nat, no: nat)
    requires
        yes + no > 0,
    ensures
        yes_percentage(yes, yes + no) * (yes + no) <= yes * 100,
        yes * 100 < (yes_percentage(yes, yes + no) + 1) * (yes + no),
        yes_percentage(yes, yes + no) <= 100,
{
    let total = yes + no;
    let scaled = yes * 100;
    let p = yes_percentage(yes, total);
    assert(p == scaled / total);
    assert(p * total <= scaled && scaled < (p + 1) * total) by (nonlinear_arith)
        requires
            total > 0,
            p == scaled / total,
    ;
    assert(p <= 100) by (nonlinear_arith)
        requires
            total > 0,
            p * total <= scaled,
            scaled == yes * 100,
            yes <= total,
    ;
}

/// Execution changes a proposal only if it awaited execution and was not
/// executed before; every other proposal is left exactly as it was. An
/// accepted execution keeps the proposal's invariant.
pub proof fn lemma_execution_needs_success(proposal: Proposal, proposal_id: u64)
    ensures
        ({
            let after = after_execution(proposal, proposal_id);
            &&& (proposal.status != ProposalStatus::SucceededAwaitingExecution || proposal.executed)
                ==> after == proposal
            &&& after != proposal ==> after.status == ProposalStatus::Executed && after.executed
                && proposal.status == ProposalStatus::SucceededAwaitingExecution
            &&& continues(proposal, after)
            &&& proposal.wf() ==> after.wf()
        }),
{
}

/// A proposal is executed at most once: after an accepted execution every
/// further one is refused, with `AlreadyExecuted` where the id is right, and
/// changes nothing.
pub proof fn lemma_execution_happens_once(proposal: Proposal, proposal_id: u64, again: u64)
    requires
        execution_refusal(proposal, proposal_id) is None,
    ensures
        ({
            let after = after_execution(proposal, proposal_id);
            &&& execution_refusal(after, again) is Some
            &&& execution_refusal(after, proposal_id) == Some(ErrorCode::AlreadyExecuted)
            &&& after_execution(after, again) == after
        }),
{
}

} // verus!
