//! The person store: owner of the current-projection rows.
//!
//! Identities are assigned at creation, ascend strictly, and are never
//! reused, so the rows always stand in ascending identity order. Partial
//! updates go through the update builder, which applies exactly the
//! supplied fields. Updating a missing identity is a not-found error;
//! deleting a missing identity is indistinguishable from success (the
//! result says whether a row went away).

use vstd::prelude::*;
use vstd::pervasive::VecAdditionalExecFns;
use crate::Error;
use crate::builder::{UpdatePatch, apply_patch, apply_patch_spec};
use crate::person::{CreateRequest, Person, person_of};

verus! {

/// Whether some row in `s` belongs to identity `pid`.
pub open spec fn contains_pid(s: Seq<Person>, pid: i32) -> bool {
    exists|i: int| 0 <= i < s.len() && #[trigger] s[i].person_id == pid
}

/// The current-projection table.
#[derive(Debug)]
pub struct PersonStore {
    pub people: Vec<Person>,
    pub next_id: i32,
}

impl PersonStore {
    /// Well-formed: identities are at least 1, below the next to be
    /// assigned, and strictly ascending along the rows.
    pub open spec fn wf(self) -> bool {
        &&& 1 <= self.next_id
        &&& forall|i: int|
            0 <= i < self.people@.len() ==> 1 <= #[trigger] self.people@[i].person_id
                < self.next_id
        &&& forall|i: int, j: int|
            0 <= i < j < self.people@.len() ==> #[trigger] self.people@[i].person_id
                < #[trigger] self.people@[j].person_id
    }

    /// An empty store.
    pub fn new() -> (r: PersonStore)
        ensures
            r.wf(),
            r.people@ =~= Seq::<Person>::empty(),
            r.next_id == 1,
    {
        PersonStore { people: Vec::new(), next_id: 1 }
    }

    /// Creates a person from the full initial field set and returns the
    /// assigned identity. No history side effects: those belong to the
    /// registry.
    pub fn create(&mut self, req: &CreateRequest) -> (id: i32)
        requires
            old(self).wf(),
            old(self).next_id < i32::MAX,
        ensures
            final (self).wf(),
            id == old(self).next_id,
            final (self).next_id == old(self).next_id + 1,
            final (self).people@ == old(self).people@.push(person_of(*req, id)),
    {
        let id = self.next_id;
        let p = Person::from_request(req, id);
        self.people.push(p);
        self.next_id = self.next_id + 1;
        id
    }

    /// Applies a patch to the row with identity `person_id` through the
    /// update builder. An empty patch is a documented no-op. A missing
    /// identity (zero rows affected) is surfaced as `NotFound`.
    pub fn update(&mut self, person_id: i32, patch: &UpdatePatch) -> (r: Result<(), Error>)
        requires
            old(self).wf(),
        ensures
            final (self).wf(),
            final (self).next_id == old(self).next_id,
            r is Ok <==> contains_pid(old(self).people@, person_id),
            r is Err ==> *final (self) == *old(self) && r == Err::<(), Error>(Error::NotFound),
            r is Ok ==> exists|idx: int|
                {
                    &&& 0 <= idx < old(self).people@.len()
                    &&& (#[trigger] old(self).people@[idx]).person_id == person_id
                    &&& final (self).people@ == old(self).people@.update(
                        idx,
                        apply_patch_spec(old(self).people@[idx], *patch),
                    )
                },
    {
        let n = self.people.len();
        let mut k: usize = 0;
        while k < n
            invariant
                old(self).wf(),
                *self == *old(self),
                n == self.people@.len(),
                0 <= k <= n,
                forall|i: int| 0 <= i < k ==> #[trigger] self.people@[i].person_id != person_id,
            decreases n - k,
        {
            if self.people[k].person_id == person_id {
                let mut row = self.people[k].duplicate();
                apply_patch(&mut row, patch);
                self.people.set(k, row);
                proof {
                    let newp = self.people@;
                    let oldp = old(self).people@;
                    assert forall|i: int, j: int| 0 <= i < j < newp.len() implies (
                    #[trigger] newp[i].person_id) < (#[trigger] newp[j].person_id) by {
                        assert(oldp[i].person_id < oldp[j].person_id);
                    }
                    assert forall|i: int| 0 <= i < newp.len() implies 1 <= (
                    #[trigger] newp[i].person_id) < self.next_id by {
                        assert(1 <= oldp[i].person_id < old(self).next_id);
                    }
                }
                return Ok(());
            }
            k = k + 1;
        }
        Err(Error::NotFound)
    }

    /// Removes the row with identity `person_id`, if present; the result
    /// says whether a row went away.
    pub fn delete(&mut self, person_id: i32) -> (removed: bool)
        requires
            old(self).wf(),
        ensures
            final (self).wf(),
            final (self).next_id == old(self).next_id,
            removed <==> contains_pid(old(self).people@, person_id),
            !removed ==> *final (self) == *old(self),
            removed ==> exists|idx: int|
                {
                    &&& 0 <= idx < old(self).people@.len()
                    &&& (#[trigger] old(self).people@[idx]).person_id == person_id
                    &&& final (self).people@ == old(self).people@.remove(idx)
                },
    {
        let n = self.people.len();
        let mut k: usize = 0;
        while k < n
            invariant
                old(self).wf(),
                *self == *old(self),
                n == self.people@.len(),
                0 <= k <= n,
                forall|i: int| 0 <= i < k ==> #[trigger] self.people@[i].person_id != person_id,
            decreases n - k,
        {
            if self.people[k].person_id == person_id {
                self.people.remove(k);
                proof {
                    let newp = self.people@;
                    let oldp = old(self).people@;
                    assert forall|i: int, j: int| 0 <= i < j < newp.len() implies (
                    #[trigger] newp[i].person_id) < (#[trigger] newp[j].person_id) by {
                        if j < k {
                            assert(oldp[i].person_id < oldp[j].person_id);
                        } else if i < k {
                            assert(oldp[i].person_id < oldp[j + 1].person_id);
                        } else {
                            assert(oldp[i + 1].person_id < oldp[j + 1].person_id);
                        }
                    }
                    assert forall|i: int| 0 <= i < newp.len() implies 1 <= (
                    #[trigger] newp[i].person_id) < self.next_id by {
                        if i < k {
                            assert(1 <= oldp[i].person_id < old(self).next_id);
                        } else {
                            assert(1 <= oldp[i + 1].person_id < old(self).next_id);
                        }
                    }
                }
                return true;
            }
            k = k + 1;
        }
        false
    }

    /// The rows, in ascending identity order.
    pub fn list(&self) -> (r: &Vec<Person>)
        requires
            self.wf(),
        ensures
            r@ == self.people@,
            forall|i: int, j: int|
                0 <= i < j < r@.len() ==> #[trigger] r@[i].person_id < #[trigger] r@[j].person_id,
    {
        &self.people
    }

    /// The row with identity `person_id`, if any.
    pub fn find(&self, person_id: i32) -> (r: Option<&Person>)
        ensures
            r matches Some(p) ==> p.person_id == person_id && exists|i: int|
                0 <= i < self.people@.len() && #[trigger] self.people@[i] == *p,
            r is None ==> !contains_pid(self.people@, person_id),
    {
        let n = self.people.len();
        let mut k: usize = 0;
        while k < n
            invariant
                n == self.people@.len(),
                0 <= k <= n,
                forall|i: int| 0 <= i < k ==> #[trigger] self.people@[i].person_id != person_id,
            decreases n - k,
        {
            if self.people[k].person_id == person_id {
                return Some(&self.people[k]);
            }
            k = k + 1;
        }
        None
    }
}

} // verus!
