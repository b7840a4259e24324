use baseroot_contract::config::{initialize_dao_state, GovernanceConfig};
use baseroot_contract::execution::execute_proposal;
use baseroot_contract::identity::Identity;
use baseroot_contract::ledger::{VoteLedger, VoteRecord};
use baseroot_contract::proposal::{submit_proposal, Proposal};
use baseroot_contract::status::{ErrorCode, ProposalStatus, VoteOption};
use baseroot_contract::tally::{decide, tally_votes_and_update_status};
use baseroot_contract::voting::vote_for_proposal;

fn actor(tag: u8) -> Identity {
    let mut bytes = [0u8; 32];
    bytes[0] = tag;
    bytes[31] = 0xA5;
    Identity::new(bytes)
}

fn config(quorum: u64, threshold: u64, period: u64) -> GovernanceConfig {
    initialize_dao_state(actor(1), actor(2), 10, quorum, threshold, period)
}

fn open_proposal(config: &mut GovernanceConfig, now: u64) -> Proposal {
    submit_proposal(
        config,
        actor(3),
        String::from("Fund the seed bank"),
        String::from("Buy shelving and a freezer"),
        String::from("QmSeedBank"),
        5_000,
        now,
    )
    .unwrap()
}

fn with_weights(yes: u64, no: u64, end_slot: u64) -> Proposal {
    Proposal {
        id: 0,
        proposer: actor(3),
        title: String::from("t"),
        description: String::from("d"),
        ipfs_hash: String::from("h"),
        requested_amount: 1,
        yes_votes: yes,
        no_votes: no,
        start_slot: 0,
        end_slot,
        executed: false,
        status: ProposalStatus::Voting,
    }
}

#[test]
fn initialization_stores_every_parameter() {
    let c = initialize_dao_state(actor(1), actor(2), 10, 100, 51, 1000);
    assert_eq!(c.admin, actor(1));
    assert_eq!(c.governance_token_mint, actor(2));
    assert_eq!(c.proposal_count, 0);
    assert_eq!(c.proposal_fee, 10);
    assert_eq!(c.min_quorum_votes, 100);
    assert_eq!(c.min_threshold_votes_percentage, 51);
    assert_eq!(c.voting_period_slots, 1000);
}

#[test]
fn submission_assigns_id_and_window() {
    let mut c = config(100, 51, 1000);
    let p = open_proposal(&mut c, 40);
    assert_eq!(p.id, 0);
    assert_eq!(p.proposer, actor(3));
    assert_eq!(p.title, "Fund the seed bank");
    assert_eq!(p.description, "Buy shelving and a freezer");
    assert_eq!(p.ipfs_hash, "QmSeedBank");
    assert_eq!(p.requested_amount, 5_000);
    assert_eq!(p.yes_votes, 0);
    assert_eq!(p.no_votes, 0);
    assert_eq!(p.start_slot, 40);
    assert_eq!(p.end_slot, 1040);
    assert!(!p.executed);
    assert_eq!(p.status, ProposalStatus::Voting);
    assert_eq!(c.proposal_count, 1);
}

#[test]
fn submission_ids_are_consecutive() {
    let mut c = config(100, 51, 1000);
    let a = open_proposal(&mut c, 0);
    let b = open_proposal(&mut c, 7);
    let d = open_proposal(&mut c, 7);
    assert_eq!((a.id, b.id, d.id), (0, 1, 2));
    assert_eq!(c.proposal_count, 3);
}

#[test]
fn submission_changes_only_the_counter() {
    let mut c = config(100, 51, 1000);
    let before = c;
    open_proposal(&mut c, 0);
    assert_eq!(c, GovernanceConfig { proposal_count: 1, ..before });
}

#[test]
fn submission_fails_when_counter_is_exhausted() {
    let mut c = config(100, 51, 1000);
    c.proposal_count = u64::MAX;
    let before = c;
    let res = submit_proposal(
        &mut c,
        actor(3),
        String::from("a"),
        String::from("b"),
        String::from("c"),
        1,
        0,
    );
    assert_eq!(res, Err(ErrorCode::ArithmeticOverflow));
    assert_eq!(c, before);
}

#[test]
fn submission_fails_when_end_tick_overflows() {
    let mut c = config(100, 51, 1000);
    let before = c;
    let res = submit_proposal(
        &mut c,
        actor(3),
        String::from("a"),
        String::from("b"),
        String::from("c"),
        1,
        u64::MAX - 999,
    );
    assert_eq!(res, Err(ErrorCode::ArithmeticOverflow));
    assert_eq!(c, before);
    let last = submit_proposal(
        &mut c,
        actor(3),
        String::from("a"),
        String::from("b"),
        String::from("c"),
        1,
        u64::MAX - 1000,
    )
    .unwrap();
    assert_eq!(last.end_slot, u64::MAX);
}

#[test]
fn vote_adds_weight_and_returns_record() {
    let mut c = config(100, 51, 1000);
    let mut p = open_proposal(&mut c, 0);
    let mut ledger = VoteLedger::new();
    let yes = vote_for_proposal(&mut p, &mut ledger, 0, actor(10), 30, VoteOption::Yes, 1).unwrap();
    assert_eq!(
        yes,
        VoteRecord { proposal_id: 0, voter: actor(10), vote_option: VoteOption::Yes, vote_weight: 30 }
    );
    let no = vote_for_proposal(&mut p, &mut ledger, 0, actor(11), 12, VoteOption::No, 2).unwrap();
    assert_eq!(
        no,
        VoteRecord { proposal_id: 0, voter: actor(11), vote_option: VoteOption::No, vote_weight: 12 }
    );
    assert_eq!((p.yes_votes, p.no_votes), (30, 12));
    assert_eq!(ledger.len(), 2);
    assert_eq!(ledger.get(0), Some(yes));
    assert_eq!(ledger.get(1), Some(no));
    assert_eq!(ledger.get(2), None);
    assert_eq!(p.status, ProposalStatus::Voting);
}

#[test]
fn vote_is_accepted_at_the_end_tick_and_refused_after() {
    let mut c = config(100, 51, 1000);
    let mut p = open_proposal(&mut c, 0);
    let mut ledger = VoteLedger::new();
    assert!(vote_for_proposal(&mut p, &mut ledger, 0, actor(10), 5, VoteOption::Yes, 1000).is_ok());
    let before = p.clone();
    assert_eq!(
        vote_for_proposal(&mut p, &mut ledger, 0, actor(11), 5, VoteOption::Yes, 1001),
        Err(ErrorCode::VotingPeriodEnded)
    );
    assert_eq!(p, before);
    assert_eq!(ledger.len(), 1);
}

#[test]
fn vote_on_inactive_proposal_is_refused() {
    let mut ledger = VoteLedger::new();
    for status in [
        ProposalStatus::Pending,
        ProposalStatus::SucceededQuorumNotMet,
        ProposalStatus::SucceededAwaitingExecution,
        ProposalStatus::Defeated,
        ProposalStatus::Executed,
        ProposalStatus::Cancelled,
    ] {
        let mut p = with_weights(0, 0, 1000);
        p.status = status;
        assert_eq!(
            vote_for_proposal(&mut p, &mut ledger, 0, actor(10), 5, VoteOption::Yes, 1),
            Err(ErrorCode::ProposalNotActive)
        );
        assert_eq!((p.yes_votes, p.no_votes), (0, 0));
    }
    assert_eq!(ledger.len(), 0);
}

#[test]
fn vote_with_zero_balance_is_refused() {
    let mut p = with_weights(0, 0, 1000);
    let mut ledger = VoteLedger::new();
    assert_eq!(
        vote_for_proposal(&mut p, &mut ledger, 0, actor(10), 0, VoteOption::No, 1),
        Err(ErrorCode::InsufficientWeight)
    );
    assert_eq!(ledger.len(), 0);
    assert!(!ledger.has_voted(0, &actor(10)));
}

#[test]
fn second_vote_of_a_voter_is_refused_in_either_order() {
    for (first, second) in [(VoteOption::Yes, VoteOption::No), (VoteOption::No, VoteOption::Yes)] {
        let mut p = with_weights(0, 0, 1000);
        let mut ledger = VoteLedger::new();
        assert!(vote_for_proposal(&mut p, &mut ledger, 0, actor(10), 8, first, 1).is_ok());
        let before = p.clone();
        assert_eq!(
            vote_for_proposal(&mut p, &mut ledger, 0, actor(10), 9, second, 2),
            Err(ErrorCode::AlreadyVoted)
        );
        assert_eq!(p, before);
        assert_eq!(ledger.len(), 1);
        assert_eq!(p.yes_votes + p.no_votes, 8);
    }
}

#[test]
fn same_voter_may_vote_on_another_proposal() {
    let mut c = config(100, 51, 1000);
    let mut a = open_proposal(&mut c, 0);
    let mut b = open_proposal(&mut c, 0);
    let mut ledger = VoteLedger::new();
    assert!(vote_for_proposal(&mut a, &mut ledger, 0, actor(10), 8, VoteOption::Yes, 1).is_ok());
    assert!(vote_for_proposal(&mut b, &mut ledger, 1, actor(10), 8, VoteOption::No, 1).is_ok());
    assert!(ledger.has_voted(0, &actor(10)));
    assert!(ledger.has_voted(1, &actor(10)));
    assert!(!ledger.has_voted(2, &actor(10)));
    assert!(!ledger.has_voted(0, &actor(11)));
    assert_eq!(ledger.find(1, &actor(10)).unwrap().vote_option, VoteOption::No);
    assert_eq!(ledger.find(1, &actor(11)), None);
}

#[test]
fn refusals_come_in_the_stated_order() {
    let mut ledger = VoteLedger::new();
    let mut p = with_weights(0, 0, 1000);
    vote_for_proposal(&mut p, &mut ledger, 0, actor(10), 8, VoteOption::Yes, 1).unwrap();
    // Already voted and zero balance: the existing record decides.
    assert_eq!(
        vote_for_proposal(&mut p, &mut ledger, 0, actor(10), 0, VoteOption::Yes, 1),
        Err(ErrorCode::AlreadyVoted)
    );
    // Window over and already voted: the window decides.
    assert_eq!(
        vote_for_proposal(&mut p, &mut ledger, 0, actor(10), 0, VoteOption::Yes, 1001),
        Err(ErrorCode::VotingPeriodEnded)
    );
    // Inactive and window over: the status decides.
    p.status = ProposalStatus::Defeated;
    assert_eq!(
        vote_for_proposal(&mut p, &mut ledger, 0, actor(10), 0, VoteOption::Yes, 1001),
        Err(ErrorCode::ProposalNotActive)
    );
}

#[test]
fn vote_that_overflows_a_weight_is_refused() {
    let mut p = with_weights(u64::MAX - 5, 3, 1000);
    let mut ledger = VoteLedger::new();
    let before = p.clone();
    assert_eq!(
        vote_for_proposal(&mut p, &mut ledger, 0, actor(10), 6, VoteOption::Yes, 1),
        Err(ErrorCode::ArithmeticOverflow)
    );
    assert_eq!(p, before);
    assert_eq!(ledger.len(), 0);
    assert!(vote_for_proposal(&mut p, &mut ledger, 0, actor(10), 5, VoteOption::Yes, 1).is_ok());
    assert_eq!(p.yes_votes, u64::MAX);
    assert!(vote_for_proposal(&mut p, &mut ledger, 0, actor(11), 6, VoteOption::No, 1).is_ok());
    assert_eq!(p.no_votes, 9);
}

#[test]
fn weights_equal_the_sum_of_accepted_votes() {
    let mut c = config(100, 51, 1000);
    let mut p = open_proposal(&mut c, 0);
    let mut ledger = VoteLedger::new();
    let requests: [(u8, u64, VoteOption, u64); 7] = [
        (10, 30, VoteOption::Yes, 1),
        (11, 0, VoteOption::Yes, 2),
        (12, 45, VoteOption::No, 3),
        (10, 99, VoteOption::No, 4),
        (13, 7, VoteOption::Yes, 1000),
        (14, 1000, VoteOption::Yes, 1001),
        (11, 4, VoteOption::No, 5),
    ];
    let mut accepted: u128 = 0;
    for (tag, balance, choice, tick) in requests {
        if vote_for_proposal(&mut p, &mut ledger, 0, actor(tag), balance, choice, tick).is_ok() {
            accepted += balance as u128;
        }
    }
    assert_eq!(accepted, 86);
    assert_eq!(p.yes_votes, 37);
    assert_eq!(p.no_votes, 49);
    assert_eq!(p.yes_votes as u128 + p.no_votes as u128, accepted);
    let mut recorded: u128 = 0;
    for i in 0..ledger.len() {
        recorded += ledger.get(i).unwrap().vote_weight as u128;
    }
    assert_eq!(recorded, accepted);
    assert_eq!(ledger.len(), 4);
}

#[test]
fn ledger_refuses_a_second_record_for_the_same_pair() {
    let mut ledger = VoteLedger::new();
    let first =
        VoteRecord { proposal_id: 4, voter: actor(10), vote_option: VoteOption::Yes, vote_weight: 3 };
    let second =
        VoteRecord { proposal_id: 4, voter: actor(10), vote_option: VoteOption::No, vote_weight: 9 };
    assert_eq!(ledger.record(first), Ok(()));
    assert_eq!(ledger.record(second), Err(ErrorCode::AlreadyVoted));
    assert_eq!(ledger.len(), 1);
    assert_eq!(ledger.find(4, &actor(10)), Some(first));
}

#[test]
fn threshold_boundary() {
    assert_eq!(decide(51, 49, 100, 51), Ok(ProposalStatus::SucceededAwaitingExecution));
    assert_eq!(decide(50, 50, 100, 51), Ok(ProposalStatus::Defeated));
    assert_eq!(decide(50, 50, 100, 50), Ok(ProposalStatus::SucceededAwaitingExecution));
}

#[test]
fn quorum_boundary() {
    assert_eq!(decide(40, 59, 100, 51), Ok(ProposalStatus::SucceededQuorumNotMet));
    assert_eq!(decide(40, 60, 100, 51), Ok(ProposalStatus::Defeated));
    assert_eq!(decide(40, 60, 100, 40), Ok(ProposalStatus::SucceededAwaitingExecution));
    assert_eq!(decide(99, 0, 100, 0), Ok(ProposalStatus::SucceededQuorumNotMet));
}

#[test]
fn percentage_rounds_down() {
    // 2 of 3 is 66.67 percent, which counts as 66.
    assert_eq!(decide(2, 1, 1, 66), Ok(ProposalStatus::SucceededAwaitingExecution));
    assert_eq!(decide(2, 1, 1, 67), Ok(ProposalStatus::Defeated));
    // 1 of 3 is 33.33 percent, which counts as 33.
    assert_eq!(decide(1, 2, 1, 33), Ok(ProposalStatus::SucceededAwaitingExecution));
    assert_eq!(decide(1, 2, 1, 34), Ok(ProposalStatus::Defeated));
    assert_eq!(decide(7, 0, 1, 100), Ok(ProposalStatus::SucceededAwaitingExecution));
    assert_eq!(decide(7, 0, 1, 101), Ok(ProposalStatus::Defeated));
}

#[test]
fn nothing_cast_counts_as_zero_percent() {
    assert_eq!(decide(0, 0, 0, 0), Ok(ProposalStatus::SucceededAwaitingExecution));
    assert_eq!(decide(0, 0, 0, 1), Ok(ProposalStatus::Defeated));
    assert_eq!(decide(0, 0, 1, 0), Ok(ProposalStatus::SucceededQuorumNotMet));
}

#[test]
fn tally_arithmetic_out_of_range_fails() {
    assert_eq!(decide(u64::MAX, 1, 0, 0), Err(ErrorCode::ArithmeticOverflow));
    assert_eq!(decide(1, u64::MAX, 0, 0), Err(ErrorCode::ArithmeticOverflow));
    let largest = u64::MAX / 100;
    assert_eq!(decide(largest, 0, 0, 100), Ok(ProposalStatus::SucceededAwaitingExecution));
    assert_eq!(decide(largest + 1, 0, 0, 100), Err(ErrorCode::ArithmeticOverflow));
    // Below the quorum the percentage is never computed.
    assert_eq!(decide(largest + 1, 0, u64::MAX, 100), Ok(ProposalStatus::SucceededQuorumNotMet));
}

#[test]
fn tally_needs_the_window_to_be_over() {
    let c = config(100, 51, 1000);
    let mut p = with_weights(60, 40, 1000);
    let before = p.clone();
    assert_eq!(
        tally_votes_and_update_status(&c, &mut p, 0, 1000),
        Err(ErrorCode::VotingPeriodNotEnded)
    );
    assert_eq!(p, before);
    assert_eq!(
        tally_votes_and_update_status(&c, &mut p, 0, 1001),
        Ok(ProposalStatus::SucceededAwaitingExecution)
    );
    assert_eq!(p, Proposal { status: ProposalStatus::SucceededAwaitingExecution, ..before });
}

#[test]
fn tally_twice_gives_one_decision() {
    let c = config(100, 51, 1000);
    let mut a = with_weights(30, 80, 10);
    let mut b = with_weights(30, 80, 9999);
    b.id = 17;
    let first = tally_votes_and_update_status(&c, &mut a, 0, 11);
    let other = tally_votes_and_update_status(&c, &mut b, 17, 10_000);
    assert_eq!(first, Ok(ProposalStatus::Defeated));
    assert_eq!(first, other);
    let settled = a.clone();
    assert_eq!(tally_votes_and_update_status(&c, &mut a, 0, 12), Err(ErrorCode::ProposalNotActive));
    assert_eq!(a, settled);
}

#[test]
fn tally_that_overflows_leaves_the_proposal_open() {
    let c = config(100, 51, 1000);
    let mut p = with_weights(u64::MAX, 1, 10);
    let before = p.clone();
    assert_eq!(tally_votes_and_update_status(&c, &mut p, 0, 11), Err(ErrorCode::ArithmeticOverflow));
    assert_eq!(p, before);
}

#[test]
fn no_vote_after_a_tally() {
    let c = config(1, 51, 1000);
    let mut p = with_weights(1, 0, 10);
    let mut ledger = VoteLedger::new();
    tally_votes_and_update_status(&c, &mut p, 0, 11).unwrap();
    assert_eq!(
        vote_for_proposal(&mut p, &mut ledger, 0, actor(10), 5, VoteOption::Yes, 5),
        Err(ErrorCode::ProposalNotActive)
    );
}

#[test]
fn execute_succeeds_once() {
    let mut p = with_weights(60, 40, 10);
    p.status = ProposalStatus::SucceededAwaitingExecution;
    let before = p.clone();
    assert_eq!(execute_proposal(&mut p, 0), Ok(()));
    assert_eq!(p, Proposal { executed: true, status: ProposalStatus::Executed, ..before });
    let done = p.clone();
    assert_eq!(execute_proposal(&mut p, 0), Err(ErrorCode::AlreadyExecuted));
    assert_eq!(p, done);
}

#[test]
fn execute_refuses_every_other_status() {
    for status in [
        ProposalStatus::Pending,
        ProposalStatus::Voting,
        ProposalStatus::SucceededQuorumNotMet,
        ProposalStatus::Defeated,
        ProposalStatus::Executed,
        ProposalStatus::Cancelled,
    ] {
        let mut p = with_weights(60, 40, 10);
        p.status = status;
        let before = p.clone();
        assert_eq!(execute_proposal(&mut p, 0), Err(ErrorCode::NotExecutable));
        assert_eq!(p, before);
    }
}

#[test]
fn execute_checks_the_id_first() {
    let mut p = with_weights(60, 40, 10);
    p.status = ProposalStatus::Executed;
    p.executed = true;
    let before = p.clone();
    assert_eq!(execute_proposal(&mut p, 1), Err(ErrorCode::ProposalNotFound));
    assert_eq!(execute_proposal(&mut p, 0), Err(ErrorCode::AlreadyExecuted));
    assert_eq!(p, before);
}

#[test]
fn end_to_end_success() {
    let mut c = config(100, 51, 1000);
    let mut p = open_proposal(&mut c, 0);
    let mut ledger = VoteLedger::new();
    assert_eq!(p.end_slot, 1000);
    assert!(vote_for_proposal(&mut p, &mut ledger, 0, actor(10), 70, VoteOption::Yes, 500).is_ok());
    assert!(vote_for_proposal(&mut p, &mut ledger, 0, actor(11), 50, VoteOption::No, 500).is_ok());
    assert_eq!(
        tally_votes_and_update_status(&c, &mut p, 0, 999),
        Err(ErrorCode::VotingPeriodNotEnded)
    );
    assert_eq!(execute_proposal(&mut p, 0), Err(ErrorCode::NotExecutable));
    assert_eq!(
        tally_votes_and_update_status(&c, &mut p, 0, 1001),
        Ok(ProposalStatus::SucceededAwaitingExecution)
    );
    assert_eq!(p.status, ProposalStatus::SucceededAwaitingExecution);
    assert_eq!(execute_proposal(&mut p, 0), Ok(()));
    assert!(p.executed);
    assert_eq!(p.status, ProposalStatus::Executed);
    assert_eq!((p.yes_votes, p.no_votes), (70, 50));
}

#[test]
fn end_to_end_defeat_is_not_executable() {
    let mut c = config(100, 51, 1000);
    let mut p = open_proposal(&mut c, 0);
    let mut ledger = VoteLedger::new();
    assert!(vote_for_proposal(&mut p, &mut ledger, 0, actor(10), 50, VoteOption::Yes, 500).is_ok());
    assert!(vote_for_proposal(&mut p, &mut ledger, 0, actor(11), 70, VoteOption::No, 500).is_ok());
    assert_eq!(tally_votes_and_update_status(&c, &mut p, 0, 1001), Ok(ProposalStatus::Defeated));
    assert_eq!(execute_proposal(&mut p, 0), Err(ErrorCode::NotExecutable));
    assert!(!p.executed);
    assert_eq!(p.status, ProposalStatus::Defeated);
}

#[test]
fn end_to_end_quorum_not_met_is_terminal() {
    let mut c = config(100, 51, 1000);
    let mut p = open_proposal(&mut c, 0);
    let mut ledger = VoteLedger::new();
    assert!(vote_for_proposal(&mut p, &mut ledger, 0, actor(10), 99, VoteOption::Yes, 500).is_ok());
    assert_eq!(
        tally_votes_and_update_status(&c, &mut p, 0, 1001),
        Ok(ProposalStatus::SucceededQuorumNotMet)
    );
    assert_eq!(execute_proposal(&mut p, 0), Err(ErrorCode::NotExecutable));
    assert_eq!(tally_votes_and_update_status(&c, &mut p, 0, 2000), Err(ErrorCode::ProposalNotActive));
    assert!(ProposalStatus::SucceededQuorumNotMet.is_terminal());
}

#[test]
fn transition_table() {
    let all = [
        ProposalStatus::Pending,
        ProposalStatus::Voting,
        ProposalStatus::SucceededQuorumNotMet,
        ProposalStatus::SucceededAwaitingExecution,
        ProposalStatus::Defeated,
        ProposalStatus::Executed,
        ProposalStatus::Cancelled,
    ];
    let allowed = [
        (ProposalStatus::Pending, ProposalStatus::Voting),
        (ProposalStatus::Pending, ProposalStatus::Cancelled),
        (ProposalStatus::Voting, ProposalStatus::SucceededQuorumNotMet),
        (ProposalStatus::Voting, ProposalStatus::SucceededAwaitingExecution),
        (ProposalStatus::Voting, ProposalStatus::Defeated),
        (ProposalStatus::Voting, ProposalStatus::Cancelled),
        (ProposalStatus::SucceededAwaitingExecution, ProposalStatus::Executed),
    ];
    for from in all {
        for to in all {
            assert_eq!(from.can_transition_to(&to), allowed.contains(&(from, to)));
        }
        assert_eq!(from.is_terminal(), !allowed.iter().any(|(a, _)| *a == from));
    }
    assert_eq!(ProposalStatus::default(), ProposalStatus::Pending);
}

#[test]
fn identities_compare_by_their_bytes() {
    let a = actor(1);
    let mut bytes = a.bytes;
    assert!(a.same(&Identity::new(bytes)));
    bytes[31] = 0;
    assert!(!a.same(&Identity::new(bytes)));
    bytes[0] = 0;
    assert!(Identity::new(bytes).is_default());
    assert!(Identity::unset().is_default());
    assert!(Identity::default().same(&Identity::unset()));
    assert!(!a.is_default());
    assert_eq!(Identity::unset().bytes, [0u8; 32]);
}

#[test]
fn events_carry_the_fields_after_the_change() {
    let mut c = config(1, 51, 1000);
    let mut p = open_proposal(&mut c, 3);
    let submitted = p.submission_event();
    assert_eq!(submitted.proposal_id, 0);
    assert_eq!(submitted.proposer, actor(3));
    assert_eq!(submitted.title, "Fund the seed bank");
    assert_eq!(submitted.end_slot, 1003);
    let mut ledger = VoteLedger::new();
    let record = vote_for_proposal(&mut p, &mut ledger, 0, actor(10), 9, VoteOption::Yes, 4).unwrap();
    let cast = record.cast_event();
    assert_eq!(
        (cast.proposal_id, cast.voter, cast.vote_option, cast.vote_weight),
        (0, actor(10), VoteOption::Yes, 9)
    );
    tally_votes_and_update_status(&c, &mut p, 0, 1004).unwrap();
    let changed = p.status_event();
    assert_eq!(changed.proposal_id, 0);
    assert_eq!(changed.new_status, ProposalStatus::SucceededAwaitingExecution);
    assert_eq!((changed.total_yes_votes, changed.total_no_votes), (9, 0));
    execute_proposal(&mut p, 0).unwrap();
    let executed = p.execution_event();
    assert_eq!((executed.proposal_id, executed.funding_amount), (0, 5_000));
}

#[test]
fn ledger_from_a_stored_slot() {
    let unset = VoteRecord {
        proposal_id: 0,
        voter: Identity::unset(),
        vote_option: VoteOption::Yes,
        vote_weight: 0,
    };
    let empty = VoteLedger::from_slot(&unset);
    assert_eq!(empty.len(), 0);
    let written =
        VoteRecord { proposal_id: 3, voter: actor(10), vote_option: VoteOption::No, vote_weight: 5 };
    let mut ledger = VoteLedger::from_slot(&written);
    assert_eq!(ledger.len(), 1);
    assert_eq!(ledger.get(0), Some(written));
    assert!(ledger.has_voted(3, &actor(10)));
    let mut p = with_weights(0, 5, 1000);
    p.id = 3;
    assert_eq!(
        vote_for_proposal(&mut p, &mut ledger, 3, actor(10), 5, VoteOption::Yes, 1),
        Err(ErrorCode::AlreadyVoted)
    );
}

#[test]
fn vote_and_tally_check_the_id_first() {
    let c = config(1, 51, 1000);
    let mut p = with_weights(5, 0, 10);
    p.status = ProposalStatus::Defeated;
    let before = p.clone();
    let mut ledger = VoteLedger::new();
    assert_eq!(
        vote_for_proposal(&mut p, &mut ledger, 9, actor(10), 0, VoteOption::Yes, 11),
        Err(ErrorCode::ProposalNotFound)
    );
    assert_eq!(
        tally_votes_and_update_status(&c, &mut p, 9, 5),
        Err(ErrorCode::ProposalNotFound)
    );
    assert_eq!(p, before);
    assert_eq!(ledger.len(), 0);
}
