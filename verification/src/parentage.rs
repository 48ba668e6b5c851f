//! The one-time biological-parentage link.
//!
//! Parentage is recorded at most once per person and never amended: the
//! linker rejects a second attempt for the same identity. A relationship
//! label without its parent identity, or a parent identity without its
//! label, is an inconsistent input and is rejected before anything is
//! written.

use vstd::prelude::*;

verus! {

/// One immutable parentage row. The second parent is optional.
#[derive(Clone, Debug, PartialEq, Eq)]
pub struct BirthParents {
    pub person_id: i32,
    pub first_parent_id: i32,
    pub first_parent_relationship: Option<String>,
    pub second_parent_id: Option<i32>,
    pub second_parent_relationship: Option<String>,
}

/// Whether some row in `rows` belongs to `pid`.
pub open spec fn has_parentage(rows: Seq<BirthParents>, pid: i32) -> bool {
    exists|i: int| 0 <= i < rows.len() && #[trigger] rows[i].person_id == pid
}

/// A parent identity and its relationship label must be supplied
/// together: a label without its parent, or a parent without its label,
/// is inconsistent.
pub open spec fn pairing_ok(
    first_relationship: Option<String>,
    second_parent_id: Option<i32>,
    second_relationship: Option<String>,
) -> bool {
    &&& first_relationship is Some
    &&& (second_parent_id is Some <==> second_relationship is Some)
}

/// Writer and reader of the immutable parentage relation.
#[derive(Debug)]
pub struct ParentageLinker {
    pub rows: Vec<BirthParents>,
}

impl ParentageLinker {
    /// Well-formed: at most one row per person identity.
    pub open spec fn wf(self) -> bool {
        forall|i: int, j: int|
            0 <= i < j < self.rows@.len() ==> #[trigger] self.rows@[i].person_id
                != #[trigger] self.rows@[j].person_id
    }

    /// Every row belongs to a person identity below `bound`.
    pub open spec fn pids_below(self, bound: i32) -> bool {
        forall|i: int| 0 <= i < self.rows@.len() ==> #[trigger] self.rows@[i].person_id < bound
    }

    /// An empty relation.
    pub fn new() -> (r: ParentageLinker)
        ensures
            r.wf(),
            r.rows@ =~= Seq::<BirthParents>::empty(),
    {
        ParentageLinker { rows: Vec::new() }
    }

    /// Whether parentage has been recorded for `pid`.
    pub fn is_linked(&self, pid: i32) -> (r: bool)
        ensures
            r == has_parentage(self.rows@, pid),
    {
        let mut k: usize = 0;
        while k < self.rows.len()
            invariant
                0 <= k <= self.rows@.len(),
                forall|i: int| 0 <= i < k ==> #[trigger] self.rows@[i].person_id != pid,
            decreases self.rows@.len() - k,
        {
            if self.rows[k].person_id == pid {
                return true;
            }
            k = k + 1;
        }
        false
    }

    /// Records parentage for `person_id`, exactly once. Succeeds if and
    /// only if the labels pair with their parent identities and no row
    /// for `person_id` exists yet; on failure nothing changes.
    pub fn link_once(
        &mut self,
        person_id: i32,
        first_parent_id: i32,
        first_parent_relationship: Option<String>,
        second_parent_id: Option<i32>,
        second_parent_relationship: Option<String>,
    ) -> (r: Result<(), crate::Error>)
        requires
            old(self).wf(),
        ensures
            final (self).wf(),
            r is Ok <==> pairing_ok(
                first_parent_relationship,
                second_parent_id,
                second_parent_relationship,
            ) && !has_parentage(old(self).rows@, person_id),
            r is Ok ==> final (self).rows@ == old(self).rows@.push(
                BirthParents {
                    person_id,
                    first_parent_id,
                    first_parent_relationship,
                    second_parent_id,
                    second_parent_relationship,
                },
            ),
            r is Err ==> *final (self) == *old(self) && r == Err::<(), crate::Error>(
                crate::Error::Validation,
            ),
    {
        let ok = first_parent_relationship.is_some() && (second_parent_id.is_some()
            == second_parent_relationship.is_some());
        if !ok {
            return Err(crate::Error::Validation);
        }
        if self.is_linked(person_id) {
            return Err(crate::Error::Validation);
        }
        self.rows.push(
            BirthParents {
                person_id,
                first_parent_id,
                first_parent_relationship,
                second_parent_id,
                second_parent_relationship,
            },
        );
        Ok(())
    }

    /// The recorded rows.
    pub fn entries(&self) -> (r: &Vec<BirthParents>)
        ensures
            r@ == self.rows@,
    {
        &self.rows
    }
}

/// Appending a row changes which persons have parentage only for that
/// row's person.
pub proof fn lemma_has_parentage_push(rows: Seq<BirthParents>, r: BirthParents, pid: i32)
    ensures
        has_parentage(rows.push(r), pid) == (r.person_id == pid || has_parentage(rows, pid)),
{
    if r.person_id == pid {
        assert(rows.push(r)[rows.len() as int].person_id == pid);
    } else if has_parentage(rows, pid) {
        let i = choose|i: int| 0 <= i < rows.len() && #[trigger] rows[i].person_id == pid;
        assert(rows.push(r)[i].person_id == pid);
    } else if has_parentage(rows.push(r), pid) {
        let i = choose|i: int|
            0 <= i < rows.push(r).len() && #[trigger] rows.push(r)[i].person_id == pid;
        assert(rows[i].person_id == pid);
    }
}

} // verus!
