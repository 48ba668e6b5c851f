//! The append-only history ledger.
//!
//! One ledger exists per historized attribute kind (name, sex designation,
//! alias, guardian). Appending is the only mutating operation: a record,
//! once written, is never changed or removed. History identifiers are
//! assigned monotonically, and a well-formed ledger's records stand in
//! ascending (start_date, history_id) order, so the current value for a
//! person is the value of that person's last record.

use vstd::prelude::*;
use crate::date::{Date, date_le};

verus! {

/// The historized payload: text for name, sex designation and alias, a
/// person identity for guardian.
#[derive(Clone, Debug, PartialEq, Eq)]
pub enum AttrValue {
    Text(String),
    Id(i32),
}

/// One immutable history entry: which person, what value, and the date
/// the value became effective. Validity ends implicitly when the next
/// record for the same person and kind starts.
#[derive(Clone, Debug, PartialEq, Eq)]
pub struct HistoryRecord {
    pub history_id: u64,
    pub person_id: i32,
    pub value: AttrValue,
    pub start_date: Date,
}

/// An append-only ledger of history records for one attribute kind.
#[derive(Debug)]
pub struct Ledger {
    pub records: Vec<HistoryRecord>,
    pub next_id: u64,
}

/// The current value of the attribute for `pid`: the value of the record
/// with the greatest (start_date, history_id) among `pid`'s records. In a
/// well-formed ledger the records stand in that order, so it is the value
/// of `pid`'s last record, or `None` where `pid` has none.
pub open spec fn current_of(rs: Seq<HistoryRecord>, pid: i32) -> Option<AttrValue>
    decreases rs.len(),
{
    if rs.len() == 0 {
        None
    } else if rs.last().person_id == pid {
        Some(rs.last().value)
    } else {
        current_of(rs.drop_last(), pid)
    }
}

impl Ledger {
    /// Well-formed: history identifiers ascend strictly (all below the
    /// next to be assigned) and start dates ascend weakly, so the record
    /// order is the (start_date, history_id) order.
    pub open spec fn wf(self) -> bool {
        &&& forall|i: int|
            0 <= i < self.records@.len() ==> #[trigger] self.records@[i].history_id < self.next_id
        &&& forall|i: int, j: int|
            0 <= i < j < self.records@.len() ==> #[trigger] self.records@[i].history_id
                < #[trigger] self.records@[j].history_id
        &&& forall|i: int, j: int|
            0 <= i < j < self.records@.len() ==> date_le(
                #[trigger] self.records@[i].start_date,
                #[trigger] self.records@[j].start_date,
            )
    }

    /// Every record's start date is on or before `d`.
    pub open spec fn dates_bounded_by(self, d: Date) -> bool {
        forall|i: int|
            0 <= i < self.records@.len() ==> date_le(#[trigger] self.records@[i].start_date, d)
    }

    /// Every record belongs to a person identity below `bound`.
    pub open spec fn pids_below(self, bound: i32) -> bool {
        forall|i: int|
            0 <= i < self.records@.len() ==> #[trigger] self.records@[i].person_id < bound
    }

    /// An empty ledger.
    pub fn new() -> (r: Ledger)
        ensures
            r.wf(),
            r.records@ =~= Seq::<HistoryRecord>::empty(),
            r.next_id == 1,
    {
        Ledger { records: Vec::new(), next_id: 1 }
    }

    /// Appends one immutable record and returns its history identifier.
    /// No prior record is changed or removed: the old records are exactly
    /// the prefix of the new ones.
    pub fn append(&mut self, person_id: i32, value: AttrValue, start_date: Date) -> (id: u64)
        requires
            old(self).wf(),
            old(self).next_id < u64::MAX,
            old(self).dates_bounded_by(start_date),
        ensures
            final (self).wf(),
            id == old(self).next_id,
            final (self).next_id == old(self).next_id + 1,
            final (self).records@ == old(self).records@.push(
                HistoryRecord { history_id: id, person_id, value, start_date },
            ),
            final (self).dates_bounded_by(start_date),
    {
        let id = self.next_id;
        self.records.push(HistoryRecord { history_id: id, person_id, value, start_date });
        self.next_id = self.next_id + 1;
        id
    }

    /// The records, in ascending (start_date, history_id) order.
    pub fn entries(&self) -> (r: &Vec<HistoryRecord>)
        ensures
            r@ == self.records@,
    {
        &self.records
    }

    /// Number of records in the ledger.
    pub fn len(&self) -> (r: usize)
        ensures
            r == self.records@.len(),
    {
        self.records.len()
    }
}

/// Appending to the ledger never mutates or removes a prior record, and
/// the listed records always stand in non-decreasing start_date order.
pub proof fn lemma_append_only(l: Ledger, person_id: i32, value: AttrValue, start_date: Date)
    requires
        l.wf(),
        l.next_id < u64::MAX,
        l.dates_bounded_by(start_date),
    ensures
        forall|after: Ledger|
            after.records@ == l.records@.push(
                HistoryRecord { history_id: l.next_id, person_id, value, start_date },
            ) ==> {
                &&& after.records@.len() == l.records@.len() + 1
                &&& forall|i: int|
                    0 <= i < l.records@.len() ==> #[trigger] after.records@[i] == l.records@[i]
                &&& forall|i: int, j: int|
                    0 <= i < j < after.records@.len() ==> date_le(
                        #[trigger] after.records@[i].start_date,
                        #[trigger] after.records@[j].start_date,
                    )
            },
{
}

/// In a well-formed ledger the records stand in non-decreasing
/// start_date order, with history identifiers ascending within it: the
/// listing order is the ascending (start_date, history_id) order.
pub proof fn lemma_entries_date_ordered(l: Ledger)
    requires
        l.wf(),
    ensures
        forall|i: int, j: int|
            0 <= i <= j < l.records@.len() ==> date_le(
                #[trigger] l.records@[i].start_date,
                #[trigger] l.records@[j].start_date,
            ),
        forall|i: int, j: int|
            0 <= i < j < l.records@.len() ==> #[trigger] l.records@[i].history_id
                < #[trigger] l.records@[j].history_id,
{
    assert forall|i: int, j: int| 0 <= i <= j < l.records@.len() implies date_le(
        l.records@[i].start_date,
        l.records@[j].start_date,
    ) by {
        if i == j {
            crate::date::lemma_date_le_refl(l.records@[i].start_date);
        }
    }
}

/// Appending a record for one person leaves every other person's current
/// value untouched, and makes the new value current for that person.
pub proof fn lemma_current_push(rs: Seq<HistoryRecord>, r: HistoryRecord, pid: i32)
    ensures
        current_of(rs.push(r), pid) == if r.person_id == pid {
            Some(r.value)
        } else {
            current_of(rs, pid)
        },
{
    assert(rs.push(r).last() == r);
    assert(rs.push(r).drop_last() =~= rs);
}

/// A date bound on every record carries over to any later date.
pub proof fn lemma_bound_widens(l: Ledger, c: Date, t: Date)
    requires
        l.dates_bounded_by(c),
        date_le(c, t),
    ensures
        l.dates_bounded_by(t),
{
    assert forall|i: int| 0 <= i < l.records@.len() implies date_le(
        #[trigger] l.records@[i].start_date,
        t,
    ) by {
        crate::date::lemma_date_le_trans(l.records@[i].start_date, c, t);
    }
}

/// A person with no record in the ledger has no current value.
pub proof fn lemma_current_absent(rs: Seq<HistoryRecord>, pid: i32)
    requires
        forall|i: int| 0 <= i < rs.len() ==> #[trigger] rs[i].person_id != pid,
    ensures
        current_of(rs, pid) is None,
    decreases rs.len(),
{
    if rs.len() > 0 {
        assert(rs.last().person_id != pid);
        lemma_current_absent(rs.drop_last(), pid);
    }
}

} // verus!
