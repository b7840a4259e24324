//! The vote ledger: one record per proposal and voter, created once.

use vstd::prelude::*;
use crate::identity::Identity;
use crate::status::{ErrorCode, VoteOption};

verus! {

/// The record of one accepted vote. Its weight is the voter's balance at the
/// moment of the vote; nothing changes a record afterwards.
#[derive(Clone, Copy, Debug, PartialEq, Eq)]
pub struct VoteRecord {
    pub proposal_id: u64,
    pub voter: Identity,
    pub vote_option: VoteOption,
    pub vote_weight: u64,
}

/// Whether `records` holds a vote of `voter` on the proposal `proposal_id`.
pub open spec fn has_record(records: Seq<VoteRecord>, proposal_id: u64, voter: Identity) -> bool {
    exists|i: int|
        0 <= i < records.len() && (#[trigger] records[i]).proposal_id == proposal_id
            && records[i].voter == voter
}

/// No two records are of the same voter on the same proposal.
pub open spec fn distinct_keys(records: Seq<VoteRecord>) -> bool {
    forall|i: int, j: int|
        0 <= i < j < records.len() ==> !((#[trigger] records[i]).proposal_id == (
        #[trigger] records[j]).proposal_id && records[i].voter == records[j].voter)
}

/// The sum of the weights recorded for `choice` on the proposal `proposal_id`.
pub open spec fn recorded_weight(
    records: Seq<VoteRecord>,
    proposal_id: u64,
    choice: VoteOption,
) -> nat
    decreases records.len(),
{
    if records.len() == 0 {
        0
    } else {
        let last = records.last();
        let rest = recorded_weight(records.drop_last(), proposal_id, choice);
        if last.proposal_id == proposal_id && last.vote_option == choice {
            rest + last.vote_weight as nat
        } else {
            rest
        }
    }
}

/// The sum of all weights recorded on the proposal `proposal_id`.
pub open spec fn recorded_total(records: Seq<VoteRecord>, proposal_id: u64) -> nat
    decreases records.len(),
{
    if records.len() == 0 {
        0
    } else {
        let last = records.last();
        let rest = recorded_total(records.drop_last(), proposal_id);
        if last.proposal_id == proposal_id {
            rest + last.vote_weight as nat
        } else {
            rest
        }
    }
}

/// Appending a record adds its weight to the sum of its own proposal and
/// choice, and to no other.
pub proof fn lemma_recorded_weight_push(
    records: Seq<VoteRecord>,
    record: VoteRecord,
    proposal_id: u64,
    choice: VoteOption,
)
    ensures
        recorded_weight(records.push(record), proposal_id, choice) == recorded_weight(
            records,
            proposal_id,
            choice,
        ) + (if record.proposal_id == proposal_id && record.vote_option == choice {
            record.vote_weight as nat
        } else {
            0
        }),
        recorded_total(records.push(record), proposal_id) == recorded_total(records, proposal_id)
            + (if record.proposal_id == proposal_id {
            record.vote_weight as nat
        } else {
            0
        }),
{
    assert(records.push(record).drop_last() =~= records);
}

/// The total recorded on a proposal is what was recorded for yes plus what was
/// recorded for no.
pub proof fn lemma_recorded_total_splits(records: Seq<VoteRecord>, proposal_id: u64)
    ensures
        recorded_total(records, proposal_id) == recorded_weight(
            records,
            proposal_id,
            VoteOption::Yes,
        ) + recorded_weight(records, proposal_id, VoteOption::No),
    decreases records.len(),
{
    if records.len() > 0 {
        lemma_recorded_total_splits(records.drop_last(), proposal_id);
    }
}

/// A ledger without a record on a proposal has no weight recorded on it.
pub proof fn lemma_nothing_recorded(records: Seq<VoteRecord>, proposal_id: u64)
    requires
        forall|i: int|
            0 <= i < records.len() ==> (#[trigger] records[i]).proposal_id != proposal_id,
    ensures
        recorded_total(records, proposal_id) == 0,
        recorded_weight(records, proposal_id, VoteOption::Yes) == 0,
        recorded_weight(records, proposal_id, VoteOption::No) == 0,
    decreases records.len(),
{
    if records.len() > 0 {
        let rest = records.drop_last();
        assert forall|i: int| 0 <= i < rest.len() implies (#[trigger] rest[i]).proposal_id
            != proposal_id by {
            assert(rest[i] == records[i]);
        }
        lemma_nothing_recorded(rest, proposal_id);
    }
}

/// The accepted votes, in the order in which they were cast.
#[derive(Debug)]
pub struct VoteLedger {
    records: Vec<VoteRecord>,
}

impl View for VoteLedger {
    type V = Seq<VoteRecord>;

    closed spec fn view(&self) -> Seq<VoteRecord> {
        self.records@
    }
}

impl VoteLedger {
    /// The ledger's invariant: at most one record per proposal and voter.
    pub open spec fn wf(&self) -> bool {
        distinct_keys(self@)
    }

    /// A ledger with no record.
    pub fn new() -> (ledger: VoteLedger)
        ensures
            ledger@ == Seq::<VoteRecord>::empty(),
            ledger.wf(),
    {
        VoteLedger { records: Vec::new() }
    }

    /// The ledger that one stored slot stands for: a slot whose voter is unset
    /// was never written and holds no vote; any other slot holds its record.
    pub fn from_slot(slot: &VoteRecord) -> (ledger: VoteLedger)
        ensures
            ledger.wf(),
            ledger@ == if slot.voter.is_unset() {
                Seq::<VoteRecord>::empty()
            } else {
                Seq::<VoteRecord>::empty().push(*slot)
            },
    {
        let mut records: Vec<VoteRecord> = Vec::new();
        if !slot.voter.is_default() {
            records.push(*slot);
        }
        VoteLedger { records }
    }

    /// The number of records.
    pub fn len(&self) -> (n: usize)
        ensures
            n == self@.len(),
    {
        self.records.len()
    }

    /// The record at position `index`, if there is one.
    pub fn get(&self, index: usize) -> (record: Option<VoteRecord>)
        ensures
            record == if index < self@.len() {
                Some(self@[index as int])
            } else {
                None
            },
    {
        if index < self.records.len() {
            Some(self.records[index])
        } else {
            None
        }
    }

    /// The vote of `voter` on the proposal `proposal_id`, if one is recorded.
    pub fn find(&self, proposal_id: u64, voter: &Identity) -> (found: Option<VoteRecord>)
        ensures
            found is Some <==> has_record(self@, proposal_id, *voter),
            found is Some ==> self@.contains(found->Some_0) && found->Some_0.proposal_id
                == proposal_id && found->Some_0.voter == *voter,
    {
        let mut i: usize = 0;
        while i < self.records.len()
            invariant
                0 <= i <= self.records.len(),
                forall|j: int|
                    0 <= j < i ==> !((#[trigger] self.records@[j]).proposal_id == proposal_id
                        && self.records@[j].voter == *voter),
            decreases self.records.len() - i,
        {
            let record = self.records[i];
            if record.proposal_id == proposal_id && record.voter.same(voter) {
                return Some(record);
            }
            i += 1;
        }
        None
    }

    /// Whether `voter` has a recorded vote on the proposal `proposal_id`.
    pub fn has_voted(&self, proposal_id: u64, voter: &Identity) -> (r: bool)
        ensures
            r == has_record(self@, proposal_id, *voter),
    {
        self.find(proposal_id, voter).is_some()
    }

    /// Adds a record if its voter has none yet on its proposal. A second record
    /// for the same pair is refused with `AlreadyVoted`, and the ledger stays
    /// as it was.
    pub fn record(&mut self, record: VoteRecord) -> (res: Result<(), ErrorCode>)
        requires
            old(self).wf(),
        ensures
            final(self).wf(),
            res is Ok <==> !has_record(old(self)@, record.proposal_id, record.voter),
            res is Ok ==> final(self)@ == old(self)@.push(record),
            res is Err ==> res == Err::<(), ErrorCode>(ErrorCode::AlreadyVoted) && final(self)@
                == old(self)@,
    {
        if self.has_voted(record.proposal_id, &record.voter) {
            return Err(ErrorCode::AlreadyVoted);
        }
        self.records.push(record);
        Ok(())
    }
}

} // verus!
