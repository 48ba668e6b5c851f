//! The mutation orchestrator: the one component that sequences the person
//! store, the four history ledgers and the parentage linker into one
//! logical operation per request.
//!
//! Every operation validates its input before touching any state, so a
//! request either applies completely or leaves the registry unchanged:
//! no partial multi-step state is ever observable. The well-formedness
//! predicate `wf` carries the consistency contract: each person's
//! denormalized `current_*` fields equal the value derivable from the
//! corresponding ledger, and a parentage row exists exactly for persons
//! created with a first parent.
//!
//! Appends stamp the caller-supplied effective date; operations require
//! it not to precede any date already written, which keeps each ledger in
//! ascending (start_date, history_id) order. Deleting a person removes
//! only the projection row: history and parentage are retained as an
//! audit trail.

use vstd::prelude::*;
use crate::Error;
use crate::builder::{UpdatePatch, apply_patch_spec, patch_is_empty};
use crate::date::{Date, date_le};
use crate::ledger::{AttrValue, HistoryRecord, Ledger, current_of, lemma_bound_widens,
    lemma_current_absent, lemma_current_push};
use crate::parentage::{BirthParents, ParentageLinker, has_parentage, lemma_has_parentage_push};
use crate::person::{CreateRequest, Person, clone_opt_string, person_of};
use crate::store::{PersonStore, contains_pid};

verus! {

/// An optional text value as an optional historized payload.
pub open spec fn opt_text(o: Option<String>) -> Option<AttrValue> {
    match o {
        Option::Some(s) => Some(AttrValue::Text(s)),
        Option::None => None,
    }
}

/// An optional identity value as an optional historized payload.
pub open spec fn opt_id(o: Option<i32>) -> Option<AttrValue> {
    match o {
        Option::Some(i) => Some(AttrValue::Id(i)),
        Option::None => None,
    }
}

/// The records one operation appends to a ledger for person `pid`:
/// one record if the attribute was supplied, none otherwise.
pub open spec fn seed_of(v: Option<AttrValue>, pid: i32, d: Date, hid: u64) -> Seq<HistoryRecord> {
    match v {
        Option::Some(value) => seq![HistoryRecord { history_id: hid, person_id: pid, value, start_date: d }],
        Option::None => Seq::empty(),
    }
}

/// The parentage rows creation writes: one if a first parent was
/// supplied, none otherwise.
pub open spec fn parent_seed(req: CreateRequest, pid: i32) -> Seq<BirthParents> {
    match req.first_parent_id {
        Option::Some(fp) => seq![
            BirthParents {
                person_id: pid,
                first_parent_id: fp,
                first_parent_relationship: req.first_parent_relationship,
                second_parent_id: req.second_parent_id,
                second_parent_relationship: req.second_parent_relationship,
            },
        ],
        Option::None => Seq::empty(),
    }
}

/// A creation payload is consistent when each parent identity and its
/// relationship label are supplied together.
pub open spec fn create_valid(req: CreateRequest) -> bool {
    &&& (req.first_parent_id is Some <==> req.first_parent_relationship is Some)
    &&& (req.second_parent_id is Some <==> req.second_parent_relationship is Some)
}

/// Whether a creation payload is consistent: each parent identity and
/// its relationship label supplied together.
pub fn create_request_valid(req: &CreateRequest) -> (r: bool)
    ensures
        r == create_valid(*req),
{
    (req.first_parent_id.is_some() == req.first_parent_relationship.is_some()) && (
    req.second_parent_id.is_some() == req.second_parent_relationship.is_some())
}

/// The registry: current projection, four history ledgers, parentage,
/// and the latest effective date written.
#[derive(Debug)]
pub struct Registry {
    pub store: PersonStore,
    pub names: Ledger,
    pub sexes: Ledger,
    pub aliases: Ledger,
    pub guardians: Ledger,
    pub parentage: ParentageLinker,
    pub clock: Date,
}

impl Registry {
    /// The person's denormalized current fields equal the value derived
    /// from each ledger: the value of the greatest
    /// (start_date, history_id) record for that person and kind.
    pub open spec fn synced(self, p: Person) -> bool {
        &&& current_of(self.names.records@, p.person_id) == opt_text(p.first_name)
        &&& current_of(self.sexes.records@, p.person_id) == opt_text(p.current_sex)
        &&& current_of(self.aliases.records@, p.person_id) == opt_text(p.current_alias)
        &&& current_of(self.guardians.records@, p.person_id) == opt_id(p.guardian_id)
    }

    /// Every ledger is well-formed, dated no later than the clock, and
    /// speaks only of identities the store has assigned.
    pub open spec fn ledgers_wf(self) -> bool {
        &&& self.names.wf() && self.sexes.wf() && self.aliases.wf() && self.guardians.wf()
        &&& self.names.dates_bounded_by(self.clock) && self.sexes.dates_bounded_by(self.clock)
            && self.aliases.dates_bounded_by(self.clock) && self.guardians.dates_bounded_by(
            self.clock,
        )
        &&& self.names.pids_below(self.store.next_id) && self.sexes.pids_below(self.store.next_id)
            && self.aliases.pids_below(self.store.next_id) && self.guardians.pids_below(
            self.store.next_id,
        )
    }

    /// The registry's consistency contract, preserved by every operation.
    pub open spec fn wf(self) -> bool {
        &&& self.store.wf()
        &&& self.ledgers_wf()
        &&& self.parentage.wf()
        &&& self.parentage.pids_below(self.store.next_id)
        &&& forall|i: int|
            0 <= i < self.store.people@.len() ==> self.synced(#[trigger] self.store.people@[i])
        &&& forall|i: int|
            0 <= i < self.store.people@.len() ==> ((#[trigger] self.store.people@[i]).first_parent_id
                is Some <==> has_parentage(self.parentage.rows@, self.store.people@[i].person_id))
    }

    /// Room to assign one more history identifier in each ledger.
    pub open spec fn can_assign_history_ids(self) -> bool {
        &&& self.names.next_id < u64::MAX
        &&& self.sexes.next_id < u64::MAX
        &&& self.aliases.next_id < u64::MAX
        &&& self.guardians.next_id < u64::MAX
    }

    /// Room to assign one more person and history identifier.
    pub open spec fn can_assign_ids(self) -> bool {
        &&& self.store.next_id < i32::MAX
        &&& self.can_assign_history_ids()
    }

    /// An empty registry.
    pub fn new() -> (r: Registry)
        ensures
            r.wf(),
            r.can_assign_ids(),
            r.store.people@ =~= Seq::<Person>::empty(),
            r.names.records@ =~= Seq::<HistoryRecord>::empty(),
            r.sexes.records@ =~= Seq::<HistoryRecord>::empty(),
            r.aliases.records@ =~= Seq::<HistoryRecord>::empty(),
            r.guardians.records@ =~= Seq::<HistoryRecord>::empty(),
            r.parentage.rows@ =~= Seq::<BirthParents>::empty(),
            r.clock == (Date { year: 0, month: 1, day: 1 }),
    {
        Registry {
            store: PersonStore::new(),
            names: Ledger::new(),
            sexes: Ledger::new(),
            aliases: Ledger::new(),
            guardians: Ledger::new(),
            parentage: ParentageLinker::new(),
            clock: Date { year: 0, month: 1, day: 1 },
        }
    }

    /// Whether one more operation can assign its identifiers.
    pub fn ids_available(&self) -> (r: bool)
        ensures
            r == self.can_assign_ids(),
    {
        self.store.next_id < i32::MAX && self.names.next_id < u64::MAX && self.sexes.next_id
            < u64::MAX && self.aliases.next_id < u64::MAX && self.guardians.next_id < u64::MAX
    }

    /// The latest effective date written to any ledger.
    pub fn last_effective_date(&self) -> (r: Date)
        ensures
            r == self.clock,
    {
        self.clock
    }
}

/// Growing a ledger by the seed of one operation: every other person's
/// current value is untouched; the seeded person's current value becomes
/// the supplied value, or stays as it was when nothing was supplied.
proof fn lemma_ledger_grow(l0: Ledger, l1: Ledger, v: Option<AttrValue>, pid: i32, d: Date, q: i32)
    requires
        l1.records@ == l0.records@ + seed_of(v, pid, d, l0.next_id),
    ensures
        q != pid ==> current_of(l1.records@, q) == current_of(l0.records@, q),
        q == pid && v is Some ==> current_of(l1.records@, q) == v,
        v is None ==> current_of(l1.records@, q) == current_of(l0.records@, q),
        q == pid && v is None && l0.pids_below(q) ==> current_of(l1.records@, q) is None,
        forall|b: i32| l0.pids_below(b) && pid < b ==> l1.pids_below(b),
{
    match v {
        Option::Some(value) => {
            let r = HistoryRecord { history_id: l0.next_id, person_id: pid, value, start_date: d };
            assert(l1.records@ =~= l0.records@.push(r));
            lemma_current_push(l0.records@, r, q);
            assert forall|b: i32| l0.pids_below(b) && pid < b implies l1.pids_below(b) by {
                assert forall|i: int| 0 <= i < l1.records@.len() implies (
                #[trigger] l1.records@[i].person_id) < b by {
                    if i < l0.records@.len() {
                        assert(l0.records@[i].person_id < b);
                    } else {
                        assert(l1.records@[i] == r);
                    }
                }
            }
        },
        Option::None => {
            assert(l1.records@ =~= l0.records@);
            if q == pid && l0.pids_below(q) {
                assert forall|i: int| 0 <= i < l0.records@.len() implies (
                #[trigger] l0.records@[i].person_id) != q by {
                    assert(l0.records@[i].person_id < q);
                }
                lemma_current_absent(l0.records@, q);
            }
        },
    }
}

impl Registry {
    /// Creates a person: one projection row under a fresh identity, one
    /// seeded history record per supplied historized attribute (name, sex
    /// designation, alias, guardian) dated `today`, and one parentage row
    /// if a first parent was supplied — all as one atomic unit. An
    /// inconsistent parent pairing is rejected before anything is
    /// written; success is owed on every consistent payload.
    pub fn create(&mut self, req: &CreateRequest, today: Date) -> (r: Result<i32, Error>)
        requires
            old(self).wf(),
            old(self).can_assign_ids(),
            date_le(old(self).clock, today),
        ensures
            final (self).wf(),
            r is Ok <==> create_valid(*req),
            r is Err ==> *final (self) == *old(self) && r == Err::<i32, Error>(Error::Validation),
            r is Ok ==> r == Ok::<i32, Error>(old(self).store.next_id),
            r is Ok ==> final (self).store.people@ == old(self).store.people@.push(
                person_of(*req, old(self).store.next_id),
            ) && final (self).store.next_id == old(self).store.next_id + 1,
            r is Ok ==> final (self).names.records@ == old(self).names.records@ + seed_of(
                opt_text(req.first_name),
                old(self).store.next_id,
                today,
                old(self).names.next_id,
            ),
            r is Ok ==> final (self).sexes.records@ == old(self).sexes.records@ + seed_of(
                opt_text(req.current_sex),
                old(self).store.next_id,
                today,
                old(self).sexes.next_id,
            ),
            r is Ok ==> final (self).aliases.records@ == old(self).aliases.records@ + seed_of(
                opt_text(req.current_alias),
                old(self).store.next_id,
                today,
                old(self).aliases.next_id,
            ),
            r is Ok ==> final (self).guardians.records@ == old(self).guardians.records@ + seed_of(
                opt_id(req.guardian_id),
                old(self).store.next_id,
                today,
                old(self).guardians.next_id,
            ),
            r is Ok ==> final (self).parentage.rows@ == old(self).parentage.rows@ + parent_seed(
                *req,
                old(self).store.next_id,
            ),
            r is Ok ==> final (self).clock == today,
    {
        if !create_request_valid(req) {
            return Err(Error::Validation);
        }
        proof {
            lemma_bound_widens(old(self).names, old(self).clock, today);
            lemma_bound_widens(old(self).sexes, old(self).clock, today);
            lemma_bound_widens(old(self).aliases, old(self).clock, today);
            lemma_bound_widens(old(self).guardians, old(self).clock, today);
        }
        let id = self.store.create(req);
        if let Some(s) = &req.first_name {
            self.names.append(id, AttrValue::Text(s.clone()), today);
        }
        assert(self.names.records@ =~= old(self).names.records@ + seed_of(
            opt_text(req.first_name),
            id,
            today,
            old(self).names.next_id,
        ));
        if let Some(s) = &req.current_sex {
            self.sexes.append(id, AttrValue::Text(s.clone()), today);
        }
        assert(self.sexes.records@ =~= old(self).sexes.records@ + seed_of(
            opt_text(req.current_sex),
            id,
            today,
            old(self).sexes.next_id,
        ));
        if let Some(s) = &req.current_alias {
            self.aliases.append(id, AttrValue::Text(s.clone()), today);
        }
        assert(self.aliases.records@ =~= old(self).aliases.records@ + seed_of(
            opt_text(req.current_alias),
            id,
            today,
            old(self).aliases.next_id,
        ));
        if let Some(g) = &req.guardian_id {
            self.guardians.append(id, AttrValue::Id(*g), today);
        }
        assert(self.guardians.records@ =~= old(self).guardians.records@ + seed_of(
            opt_id(req.guardian_id),
            id,
            today,
            old(self).guardians.next_id,
        ));
        if let Some(fp) = &req.first_parent_id {
            let res = self.parentage.link_once(
                id,
                *fp,
                clone_opt_string(&req.first_parent_relationship),
                req.second_parent_id,
                clone_opt_string(&req.second_parent_relationship),
            );
            proof {
                assert forall|i: int| 0 <= i < old(self).parentage.rows@.len() implies (
                #[trigger] old(self).parentage.rows@[i].person_id) != id by {
                    assert(old(self).parentage.rows@[i].person_id < id);
                }
            }
            match res {
                Ok(()) => {},
                Err(e) => {
                    // The payload was validated and the identity is fresh,
                    // so the link cannot fail: creation stays atomic.
                    proof {
                        assert(false);
                    }
                    return Err(e);
                },
            }
        }
        assert(self.parentage.rows@ =~= old(self).parentage.rows@ + parent_seed(*req, id));
        self.clock = today;
        proof {
            let oldp = old(self).store.people@;
            let newp = self.store.people@;
            assert forall|i: int| 0 <= i < newp.len() implies self.synced(#[trigger] newp[i]) by {
                let p = newp[i];
                let q = p.person_id;
                lemma_ledger_grow(
                    old(self).names,
                    self.names,
                    opt_text(req.first_name),
                    id,
                    today,
                    q,
                );
                lemma_ledger_grow(
                    old(self).sexes,
                    self.sexes,
                    opt_text(req.current_sex),
                    id,
                    today,
                    q,
                );
                lemma_ledger_grow(
                    old(self).aliases,
                    self.aliases,
                    opt_text(req.current_alias),
                    id,
                    today,
                    q,
                );
                lemma_ledger_grow(
                    old(self).guardians,
                    self.guardians,
                    opt_id(req.guardian_id),
                    id,
                    today,
                    q,
                );
                if i < oldp.len() {
                    assert(p == oldp[i]);
                    assert(old(self).synced(p));
                    assert(q < id);
                } else {
                    assert(p == person_of(*req, id));
                }
            }
            assert forall|i: int| 0 <= i < newp.len() implies ((#[trigger] newp[i]).first_parent_id
                is Some <==> has_parentage(self.parentage.rows@, newp[i].person_id)) by {
                let p = newp[i];
                if req.first_parent_id is Some {
                    let row = parent_seed(*req, id)[0];
                    assert(self.parentage.rows@ =~= old(self).parentage.rows@.push(row));
                    lemma_has_parentage_push(old(self).parentage.rows@, row, p.person_id);
                } else {
                    assert(self.parentage.rows@ =~= old(self).parentage.rows@);
                }
                if i < oldp.len() {
                    assert(p == oldp[i]);
                    assert(p.person_id < id);
                } else {
                    assert(p == person_of(*req, id));
                    if req.first_parent_id is None && has_parentage(
                        old(self).parentage.rows@,
                        id,
                    ) {
                        let j = choose|j: int|
                            0 <= j < old(self).parentage.rows@.len() && (#[trigger] old(
                                self,
                            ).parentage.rows@[j].person_id) == id;
                        assert(old(self).parentage.rows@[j].person_id < id);
                    }
                }
            }
            assert forall|b: i32|
                old(self).parentage.pids_below(b) && id < b implies self.parentage.pids_below(
                b,
            ) by {
                assert forall|i: int| 0 <= i < self.parentage.rows@.len() implies (
                #[trigger] self.parentage.rows@[i].person_id) < b by {
                    if i < old(self).parentage.rows@.len() {
                        assert(old(self).parentage.rows@[i].person_id < b);
                    } else {
                        assert(self.parentage.rows@[i].person_id == id);
                    }
                }
            }
        }
        Ok(id)
    }

    /// Applies a sparse patch to the person: exactly the supplied fields
    /// change on the projection, and one history record dated `today` is
    /// appended for each supplied historized attribute — even when the new
    /// value equals the prior current value (append-on-presence). An empty
    /// patch is a no-op that leaves the registry unchanged and succeeds.
    /// A missing identity is `NotFound`, with nothing changed.
    pub fn update(&mut self, person_id: i32, patch: &UpdatePatch, today: Date) -> (r: Result<
        (),
        Error,
    >)
        requires
            old(self).wf(),
            old(self).can_assign_history_ids(),
            date_le(old(self).clock, today),
        ensures
            final (self).wf(),
            patch_is_empty(*patch) ==> r is Ok && *final (self) == *old(self),
            !patch_is_empty(*patch) ==> (r is Ok <==> contains_pid(
                old(self).store.people@,
                person_id,
            )),
            r is Err ==> *final (self) == *old(self) && r == Err::<(), Error>(Error::NotFound),
            !patch_is_empty(*patch) && r is Ok ==> exists|idx: int|
                {
                    &&& 0 <= idx < old(self).store.people@.len()
                    &&& (#[trigger] old(self).store.people@[idx]).person_id == person_id
                    &&& final (self).store.people@ == old(self).store.people@.update(
                        idx,
                        apply_patch_spec(old(self).store.people@[idx], *patch),
                    )
                },
            !patch_is_empty(*patch) && r is Ok ==> final (self).names.records@ == old(
                self,
            ).names.records@ + seed_of(
                opt_text(patch.first_name),
                person_id,
                today,
                old(self).names.next_id,
            ),
            !patch_is_empty(*patch) && r is Ok ==> final (self).sexes.records@ == old(
                self,
            ).sexes.records@ + seed_of(
                opt_text(patch.current_sex),
                person_id,
                today,
                old(self).sexes.next_id,
            ),
            !patch_is_empty(*patch) && r is Ok ==> final (self).aliases.records@ == old(
                self,
            ).aliases.records@ + seed_of(
                opt_text(patch.current_alias),
                person_id,
                today,
                old(self).aliases.next_id,
            ),
            !patch_is_empty(*patch) && r is Ok ==> final (self).guardians.records@ == old(
                self,
            ).guardians.records@ + seed_of(
                opt_id(patch.guardian_id),
                person_id,
                today,
                old(self).guardians.next_id,
            ),
            r is Ok ==> final (self).parentage == old(self).parentage && final (self).store.next_id
                == old(self).store.next_id,
            !patch_is_empty(*patch) && r is Ok ==> final (self).clock == today,
    {
        if patch.is_empty() {
            return Ok(());
        }
        match self.store.update(person_id, patch) {
            Err(e) => {
                return Err(e);
            },
            Ok(()) => {},
        }
        proof {
            lemma_bound_widens(old(self).names, old(self).clock, today);
            lemma_bound_widens(old(self).sexes, old(self).clock, today);
            lemma_bound_widens(old(self).aliases, old(self).clock, today);
            lemma_bound_widens(old(self).guardians, old(self).clock, today);
        }
        if let Some(s) = &patch.first_name {
            self.names.append(person_id, AttrValue::Text(s.clone()), today);
        }
        assert(self.names.records@ =~= old(self).names.records@ + seed_of(
            opt_text(patch.first_name),
            person_id,
            today,
            old(self).names.next_id,
        ));
        if let Some(s) = &patch.current_sex {
            self.sexes.append(person_id, AttrValue::Text(s.clone()), today);
        }
        assert(self.sexes.records@ =~= old(self).sexes.records@ + seed_of(
            opt_text(patch.current_sex),
            person_id,
            today,
            old(self).sexes.next_id,
        ));
        if let Some(s) = &patch.current_alias {
            self.aliases.append(person_id, AttrValue::Text(s.clone()), today);
        }
        assert(self.aliases.records@ =~= old(self).aliases.records@ + seed_of(
            opt_text(patch.current_alias),
            person_id,
            today,
            old(self).aliases.next_id,
        ));
        if let Some(g) = &patch.guardian_id {
            self.guardians.append(person_id, AttrValue::Id(*g), today);
        }
        assert(self.guardians.records@ =~= old(self).guardians.records@ + seed_of(
            opt_id(patch.guardian_id),
            person_id,
            today,
            old(self).guardians.next_id,
        ));
        self.clock = today;
        proof {
            let oldp = old(self).store.people@;
            let newp = self.store.people@;
            let idx = choose|idx: int|
                {
                    &&& 0 <= idx < oldp.len()
                    &&& (#[trigger] oldp[idx]).person_id == person_id
                    &&& newp == oldp.update(idx, apply_patch_spec(oldp[idx], *patch))
                };
            assert forall|i: int| 0 <= i < newp.len() implies self.synced(#[trigger] newp[i]) by {
                let p = newp[i];
                let q = p.person_id;
                lemma_ledger_grow(
                    old(self).names,
                    self.names,
                    opt_text(patch.first_name),
                    person_id,
                    today,
                    q,
                );
                lemma_ledger_grow(
                    old(self).sexes,
                    self.sexes,
                    opt_text(patch.current_sex),
                    person_id,
                    today,
                    q,
                );
                lemma_ledger_grow(
                    old(self).aliases,
                    self.aliases,
                    opt_text(patch.current_alias),
                    person_id,
                    today,
                    q,
                );
                lemma_ledger_grow(
                    old(self).guardians,
                    self.guardians,
                    opt_id(patch.guardian_id),
                    person_id,
                    today,
                    q,
                );
                if i == idx {
                    assert(p == apply_patch_spec(oldp[idx], *patch));
                    assert(old(self).synced(oldp[idx]));
                    assert(q == person_id);
                } else {
                    assert(p == oldp[i]);
                    assert(old(self).synced(p));
                    if i < idx {
                        assert(oldp[i].person_id < oldp[idx].person_id);
                    } else {
                        assert(oldp[idx].person_id < oldp[i].person_id);
                    }
                    assert(q != person_id);
                }
            }
            assert forall|b: i32|
                old(self).names.pids_below(b) && person_id < b implies self.names.pids_below(
                b,
            ) by {
                lemma_ledger_grow(
                    old(self).names,
                    self.names,
                    opt_text(patch.first_name),
                    person_id,
                    today,
                    person_id,
                );
            }
            assert(person_id < self.store.next_id);
            assert forall|i: int| 0 <= i < newp.len() implies ((#[trigger] newp[i]).first_parent_id
                is Some <==> has_parentage(self.parentage.rows@, newp[i].person_id)) by {
                if i == idx {
                    assert(newp[i].first_parent_id == oldp[idx].first_parent_id);
                    assert(newp[i].person_id == oldp[idx].person_id);
                } else {
                    assert(newp[i] == oldp[i]);
                }
            }
        }
        Ok(())
    }

    /// Removes the person's projection row, if present; the result says
    /// whether a row went away (removing a missing identity is not an
    /// error). History and parentage rows are retained as an audit trail.
    pub fn delete(&mut self, person_id: i32) -> (removed: bool)
        requires
            old(self).wf(),
        ensures
            final (self).wf(),
            removed <==> contains_pid(old(self).store.people@, person_id),
            !removed ==> *final (self) == *old(self),
            removed ==> exists|idx: int|
                {
                    &&& 0 <= idx < old(self).store.people@.len()
                    &&& (#[trigger] old(self).store.people@[idx]).person_id == person_id
                    &&& final (self).store.people@ == old(self).store.people@.remove(idx)
                },
            final (self).names == old(self).names,
            final (self).sexes == old(self).sexes,
            final (self).aliases == old(self).aliases,
            final (self).guardians == old(self).guardians,
            final (self).parentage == old(self).parentage,
            final (self).clock == old(self).clock,
            final (self).store.next_id == old(self).store.next_id,
    {
        let removed = self.store.delete(person_id);
        proof {
            if removed {
                let oldp = old(self).store.people@;
                let newp = self.store.people@;
                let idx = choose|idx: int|
                    {
                        &&& 0 <= idx < oldp.len()
                        &&& (#[trigger] oldp[idx]).person_id == person_id
                        &&& newp == oldp.remove(idx)
                    };
                assert forall|i: int| 0 <= i < newp.len() implies self.synced(#[trigger] newp[i])
                    && ((#[trigger] newp[i]).first_parent_id is Some <==> has_parentage(
                    self.parentage.rows@,
                    newp[i].person_id,
                )) by {
                    if i < idx {
                        assert(newp[i] == oldp[i]);
                    } else {
                        assert(newp[i] == oldp[i + 1]);
                    }
                }
            }
        }
        removed
    }

    /// The projection rows, in ascending identity order.
    pub fn people(&self) -> (r: &Vec<Person>)
        requires
            self.wf(),
        ensures
            r@ == self.store.people@,
            forall|i: int, j: int|
                0 <= i < j < r@.len() ==> #[trigger] r@[i].person_id < #[trigger] r@[j].person_id,
    {
        self.store.list()
    }

    /// The name history, in ascending (start_date, history_id) order.
    pub fn name_history(&self) -> (r: &Vec<HistoryRecord>)
        ensures
            r@ == self.names.records@,
    {
        self.names.entries()
    }

    /// The sex-designation history, in ascending (start_date, history_id)
    /// order.
    pub fn sex_history(&self) -> (r: &Vec<HistoryRecord>)
        ensures
            r@ == self.sexes.records@,
    {
        self.sexes.entries()
    }

    /// The alias history, in ascending (start_date, history_id) order.
    pub fn alias_history(&self) -> (r: &Vec<HistoryRecord>)
        ensures
            r@ == self.aliases.records@,
    {
        self.aliases.entries()
    }

    /// The guardian history, in ascending (start_date, history_id) order.
    pub fn guardian_history(&self) -> (r: &Vec<HistoryRecord>)
        ensures
            r@ == self.guardians.records@,
    {
        self.guardians.entries()
    }

    /// The parentage rows.
    pub fn parentage_rows(&self) -> (r: &Vec<BirthParents>)
        ensures
            r@ == self.parentage.rows@,
    {
        self.parentage.entries()
    }

    /// The row with identity `person_id`, if any.
    pub fn find(&self, person_id: i32) -> (r: Option<&Person>)
        ensures
            r matches Some(p) ==> p.person_id == person_id && exists|i: int|
                0 <= i < self.store.people@.len() && #[trigger] self.store.people@[i] == *p,
            r is None ==> !contains_pid(self.store.people@, person_id),
    {
        self.store.find(person_id)
    }
}

/// After any sequence of operations, every person's `current_*` fields
/// equal the value of the record with the greatest (start_date,
/// history_id) among that person's records in the matching ledger — the
/// registry's projection is never out of step with its history.
pub proof fn lemma_projection_matches_history(r: Registry, i: int)
    requires
        r.wf(),
        0 <= i < r.store.people@.len(),
    ensures
        current_of(r.names.records@, r.store.people@[i].person_id) == opt_text(
            r.store.people@[i].first_name,
        ),
        current_of(r.sexes.records@, r.store.people@[i].person_id) == opt_text(
            r.store.people@[i].current_sex,
        ),
        current_of(r.aliases.records@, r.store.people@[i].person_id) == opt_text(
            r.store.people@[i].current_alias,
        ),
        current_of(r.guardians.records@, r.store.people@[i].person_id) == opt_id(
            r.store.people@[i].guardian_id,
        ),
{
}

/// A person created with a first parent has exactly one parentage row:
/// creation writes it, no two rows ever share a person, and a second
/// attempt to link the same person is rejected.
pub proof fn lemma_parentage_written_once(r: Registry, i: int, j: int, pid: i32)
    requires
        r.wf(),
        0 <= i < r.parentage.rows@.len(),
        0 <= j < r.parentage.rows@.len(),
        r.parentage.rows@[i].person_id == pid,
        r.parentage.rows@[j].person_id == pid,
    ensures
        i == j,
{
}

} // verus!
