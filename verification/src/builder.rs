//! The partial-update builder.
//!
//! A patch is a sparse set of optional new field values. The builder turns
//! it into an ordered list of assignments, each holding a field name from
//! the closed `Field` enumeration together with its bound value: clause
//! and binding are built as one atomic pair, so the clause order and the
//! binding order can never drift apart. An empty patch yields an empty
//! list, which callers treat as a documented no-op.

use vstd::prelude::*;
use crate::date::Date;
use crate::person::Person;

verus! {

/// The closed enumeration of updatable projection fields. Field names
/// never come from external input.
#[derive(Clone, Copy, Debug, PartialEq, Eq, Structural)]
pub enum Field {
    FirstName,
    LastName,
    BirthDate,
    IsAlive,
    CurrentSex,
    CurrentAlias,
    GuardianId,
}

/// A value bound to an update clause.
#[derive(Clone, Debug, PartialEq, Eq)]
pub enum FieldValue {
    Text(String),
    Day(Date),
    Flag(bool),
    Id(i32),
}

/// One update clause paired with its bound value.
#[derive(Clone, Debug, PartialEq, Eq)]
pub struct Assignment {
    pub field: Field,
    pub value: FieldValue,
}

/// A sparse partial update: a field that is `None` is left untouched.
#[derive(Clone, Debug, PartialEq, Eq, Default)]
pub struct UpdatePatch {
    pub first_name: Option<String>,
    pub last_name: Option<String>,
    pub birth_date: Option<Date>,
    pub is_alive: Option<bool>,
    pub current_sex: Option<String>,
    pub current_alias: Option<String>,
    pub guardian_id: Option<i32>,
}

/// A patch that supplies no field at all.
pub open spec fn patch_is_empty(q: UpdatePatch) -> bool {
    &&& q.first_name is None
    &&& q.last_name is None
    &&& q.birth_date is None
    &&& q.is_alive is None
    &&& q.current_sex is None
    &&& q.current_alias is None
    &&& q.guardian_id is None
}

pub open spec fn opt_text_pair(f: Field, o: Option<String>) -> Seq<Assignment> {
    match o {
        Option::Some(s) => seq![Assignment { field: f, value: FieldValue::Text(s) }],
        Option::None => Seq::empty(),
    }
}

pub open spec fn opt_date_pair(f: Field, o: Option<Date>) -> Seq<Assignment> {
    match o {
        Option::Some(d) => seq![Assignment { field: f, value: FieldValue::Day(d) }],
        Option::None => Seq::empty(),
    }
}

pub open spec fn opt_flag_pair(f: Field, o: Option<bool>) -> Seq<Assignment> {
    match o {
        Option::Some(b) => seq![Assignment { field: f, value: FieldValue::Flag(b) }],
        Option::None => Seq::empty(),
    }
}

pub open spec fn opt_id_pair(f: Field, o: Option<i32>) -> Seq<Assignment> {
    match o {
        Option::Some(i) => seq![Assignment { field: f, value: FieldValue::Id(i) }],
        Option::None => Seq::empty(),
    }
}

/// The assignment list a patch denotes: exactly the supplied fields, in
/// the stable clause order of the `Field` enumeration.
pub open spec fn spec_pairs(q: UpdatePatch) -> Seq<Assignment> {
    opt_text_pair(Field::FirstName, q.first_name) + opt_text_pair(Field::LastName, q.last_name)
        + opt_date_pair(Field::BirthDate, q.birth_date) + opt_flag_pair(Field::IsAlive, q.is_alive)
        + opt_text_pair(Field::CurrentSex, q.current_sex) + opt_text_pair(
        Field::CurrentAlias,
        q.current_alias,
    ) + opt_id_pair(Field::GuardianId, q.guardian_id)
}

/// The effect of one assignment on a projection row. An assignment whose
/// value does not fit its field (never produced by the builder) leaves the
/// row unchanged.
pub open spec fn spec_apply_assignment(p: Person, a: Assignment) -> Person {
    match a.field {
        Field::FirstName => match a.value {
            FieldValue::Text(t) => Person { first_name: Some(t), ..p },
            _ => p,
        },
        Field::LastName => match a.value {
            FieldValue::Text(t) => Person { last_name: Some(t), ..p },
            _ => p,
        },
        Field::BirthDate => match a.value {
            FieldValue::Day(d) => Person { birth_date: Some(d), ..p },
            _ => p,
        },
        Field::IsAlive => match a.value {
            FieldValue::Flag(b) => Person { is_alive: b, ..p },
            _ => p,
        },
        Field::CurrentSex => match a.value {
            FieldValue::Text(t) => Person { current_sex: Some(t), ..p },
            _ => p,
        },
        Field::CurrentAlias => match a.value {
            FieldValue::Text(t) => Person { current_alias: Some(t), ..p },
            _ => p,
        },
        Field::GuardianId => match a.value {
            FieldValue::Id(i) => Person { guardian_id: Some(i), ..p },
            _ => p,
        },
    }
}

/// The effect of a list of assignments, applied left to right.
pub open spec fn spec_apply_pairs(p: Person, s: Seq<Assignment>) -> Person
    decreases s.len(),
{
    if s.len() == 0 {
        p
    } else {
        spec_apply_assignment(spec_apply_pairs(p, s.drop_last()), s.last())
    }
}

/// The effect of a whole patch on a projection row: each supplied field
/// takes its new value, every other field is untouched, and the identity
/// never changes.
pub open spec fn apply_patch_spec(p: Person, q: UpdatePatch) -> Person {
    Person {
        person_id: p.person_id,
        first_name: if q.first_name is Some {
            q.first_name
        } else {
            p.first_name
        },
        last_name: if q.last_name is Some {
            q.last_name
        } else {
            p.last_name
        },
        birth_date: if q.birth_date is Some {
            q.birth_date
        } else {
            p.birth_date
        },
        is_alive: if q.is_alive is Some {
            q.is_alive->Some_0
        } else {
            p.is_alive
        },
        current_sex: if q.current_sex is Some {
            q.current_sex
        } else {
            p.current_sex
        },
        current_alias: if q.current_alias is Some {
            q.current_alias
        } else {
            p.current_alias
        },
        first_parent_id: p.first_parent_id,
        first_parent_relationship: p.first_parent_relationship,
        second_parent_id: p.second_parent_id,
        second_parent_relationship: p.second_parent_relationship,
        guardian_id: if q.guardian_id is Some {
            q.guardian_id
        } else {
            p.guardian_id
        },
    }
}

impl UpdatePatch {
    /// The patch that supplies no field.
    pub fn empty() -> (r: UpdatePatch)
        ensures
            patch_is_empty(r),
    {
        UpdatePatch {
            first_name: None,
            last_name: None,
            birth_date: None,
            is_alive: None,
            current_sex: None,
            current_alias: None,
            guardian_id: None,
        }
    }

    /// Whether this patch supplies no field at all.
    pub fn is_empty(&self) -> (r: bool)
        ensures
            r == patch_is_empty(*self),
    {
        self.first_name.is_none() && self.last_name.is_none() && self.birth_date.is_none()
            && self.is_alive.is_none() && self.current_sex.is_none()
            && self.current_alias.is_none() && self.guardian_id.is_none()
    }
}

/// Builds the assignment list for a patch: exactly the supplied fields,
/// in stable clause order, each clause paired with its bound value.
pub fn build_update_pairs(patch: &UpdatePatch) -> (r: Vec<Assignment>)
    ensures
        r@ == spec_pairs(*patch),
        r@.len() == 0 <==> patch_is_empty(*patch),
{
    let ghost s1 = opt_text_pair(Field::FirstName, patch.first_name);
    let ghost s2 = opt_text_pair(Field::LastName, patch.last_name);
    let ghost s3 = opt_date_pair(Field::BirthDate, patch.birth_date);
    let ghost s4 = opt_flag_pair(Field::IsAlive, patch.is_alive);
    let ghost s5 = opt_text_pair(Field::CurrentSex, patch.current_sex);
    let ghost s6 = opt_text_pair(Field::CurrentAlias, patch.current_alias);
    let ghost s7 = opt_id_pair(Field::GuardianId, patch.guardian_id);
    let mut r: Vec<Assignment> = Vec::new();
    if let Some(s) = &patch.first_name {
        r.push(Assignment { field: Field::FirstName, value: FieldValue::Text(s.clone()) });
    }
    assert(r@ =~= s1);
    if let Some(s) = &patch.last_name {
        r.push(Assignment { field: Field::LastName, value: FieldValue::Text(s.clone()) });
    }
    assert(r@ =~= s1 + s2);
    if let Some(d) = &patch.birth_date {
        r.push(Assignment { field: Field::BirthDate, value: FieldValue::Day(*d) });
    }
    assert(r@ =~= s1 + s2 + s3);
    if let Some(b) = &patch.is_alive {
        r.push(Assignment { field: Field::IsAlive, value: FieldValue::Flag(*b) });
    }
    assert(r@ =~= s1 + s2 + s3 + s4);
    if let Some(s) = &patch.current_sex {
        r.push(Assignment { field: Field::CurrentSex, value: FieldValue::Text(s.clone()) });
    }
    assert(r@ =~= s1 + s2 + s3 + s4 + s5);
    if let Some(s) = &patch.current_alias {
        r.push(Assignment { field: Field::CurrentAlias, value: FieldValue::Text(s.clone()) });
    }
    assert(r@ =~= s1 + s2 + s3 + s4 + s5 + s6);
    if let Some(i) = &patch.guardian_id {
        r.push(Assignment { field: Field::GuardianId, value: FieldValue::Id(*i) });
    }
    assert(r@ =~= s1 + s2 + s3 + s4 + s5 + s6 + s7);
    r
}

/// Applies one assignment to a projection row.
pub fn apply_assignment(p: &mut Person, a: &Assignment)
    ensures
        *final (p) == spec_apply_assignment(*old(p), *a),
{
    match (&a.field, &a.value) {
        (Field::FirstName, FieldValue::Text(t)) => {
            p.first_name = Some(t.clone());
        },
        (Field::LastName, FieldValue::Text(t)) => {
            p.last_name = Some(t.clone());
        },
        (Field::BirthDate, FieldValue::Day(d)) => {
            p.birth_date = Some(*d);
        },
        (Field::IsAlive, FieldValue::Flag(b)) => {
            p.is_alive = *b;
        },
        (Field::CurrentSex, FieldValue::Text(t)) => {
            p.current_sex = Some(t.clone());
        },
        (Field::CurrentAlias, FieldValue::Text(t)) => {
            p.current_alias = Some(t.clone());
        },
        (Field::GuardianId, FieldValue::Id(i)) => {
            p.guardian_id = Some(*i);
        },
        _ => {},
    }
}

/// Applies a patch to a projection row by building the assignment list
/// and applying each pair in clause order.
pub fn apply_patch(p: &mut Person, patch: &UpdatePatch)
    ensures
        *final (p) == apply_patch_spec(*old(p), *patch),
{
    let pairs = build_update_pairs(patch);
    let ghost all = spec_pairs(*patch);
    let mut k: usize = 0;
    while k < pairs.len()
        invariant
            pairs@ == all,
            0 <= k <= pairs@.len(),
            *p == spec_apply_pairs(*old(p), all.take(k as int)),
        decreases pairs@.len() - k,
    {
        apply_assignment(p, &pairs[k]);
        proof {
            assert(all.take(k + 1 as int).drop_last() =~= all.take(k as int));
            assert(all.take(k + 1 as int).last() == all[k as int]);
        }
        k = k + 1;
    }
    proof {
        assert(all.take(pairs@.len() as int) =~= all);
        lemma_pairs_apply(*old(p), *patch);
    }
}

/// Applying a list of assignments distributes over concatenation.
proof fn lemma_apply_concat(p: Person, a: Seq<Assignment>, b: Seq<Assignment>)
    ensures
        spec_apply_pairs(p, a + b) == spec_apply_pairs(spec_apply_pairs(p, a), b),
    decreases b.len(),
{
    if b.len() == 0 {
        assert(a + b =~= a);
    } else {
        assert((a + b).drop_last() =~= a + b.drop_last());
        lemma_apply_concat(p, a, b.drop_last());
    }
}

/// Applying a list of at most one assignment.
proof fn lemma_apply_small(p: Person, s: Seq<Assignment>)
    requires
        s.len() <= 1,
    ensures
        spec_apply_pairs(p, s) == if s.len() == 0 {
            p
        } else {
            spec_apply_assignment(p, s[0])
        },
{
    if s.len() == 1 {
        assert(s.drop_last() =~= Seq::<Assignment>::empty());
        assert(spec_apply_pairs(p, s.drop_last()) == p);
        assert(s.last() == s[0]);
    }
}

/// The assignment list of a patch has exactly the patch's effect: the
/// builder loses no supplied field, invents none, and keeps each clause
/// paired with its own value.
pub proof fn lemma_pairs_apply(p: Person, q: UpdatePatch)
    ensures
        spec_apply_pairs(p, spec_pairs(q)) == apply_patch_spec(p, q),
{
    let s1 = opt_text_pair(Field::FirstName, q.first_name);
    let s2 = opt_text_pair(Field::LastName, q.last_name);
    let s3 = opt_date_pair(Field::BirthDate, q.birth_date);
    let s4 = opt_flag_pair(Field::IsAlive, q.is_alive);
    let s5 = opt_text_pair(Field::CurrentSex, q.current_sex);
    let s6 = opt_text_pair(Field::CurrentAlias, q.current_alias);
    let s7 = opt_id_pair(Field::GuardianId, q.guardian_id);
    lemma_apply_concat(p, s1 + s2 + s3 + s4 + s5 + s6, s7);
    lemma_apply_concat(p, s1 + s2 + s3 + s4 + s5, s6);
    lemma_apply_concat(p, s1 + s2 + s3 + s4, s5);
    lemma_apply_concat(p, s1 + s2 + s3, s4);
    lemma_apply_concat(p, s1 + s2, s3);
    lemma_apply_concat(p, s1, s2);
    lemma_apply_small(p, s1);
    let p1 = spec_apply_pairs(p, s1);
    lemma_apply_small(p1, s2);
    let p2 = spec_apply_pairs(p1, s2);
    lemma_apply_small(p2, s3);
    let p3 = spec_apply_pairs(p2, s3);
    lemma_apply_small(p3, s4);
    let p4 = spec_apply_pairs(p3, s4);
    lemma_apply_small(p4, s5);
    let p5 = spec_apply_pairs(p4, s5);
    lemma_apply_small(p5, s6);
    let p6 = spec_apply_pairs(p5, s6);
    lemma_apply_small(p6, s7);
}

/// No field is supplied by both patches.
pub open spec fn patches_disjoint(a: UpdatePatch, b: UpdatePatch) -> bool {
    &&& !(a.first_name is Some && b.first_name is Some)
    &&& !(a.last_name is Some && b.last_name is Some)
    &&& !(a.birth_date is Some && b.birth_date is Some)
    &&& !(a.is_alive is Some && b.is_alive is Some)
    &&& !(a.current_sex is Some && b.current_sex is Some)
    &&& !(a.current_alias is Some && b.current_alias is Some)
    &&& !(a.guardian_id is Some && b.guardian_id is Some)
}

/// The patch that supplies `a`'s fields where present and `b`'s otherwise.
pub open spec fn patch_union(a: UpdatePatch, b: UpdatePatch) -> UpdatePatch {
    UpdatePatch {
        first_name: if a.first_name is Some {
            a.first_name
        } else {
            b.first_name
        },
        last_name: if a.last_name is Some {
            a.last_name
        } else {
            b.last_name
        },
        birth_date: if a.birth_date is Some {
            a.birth_date
        } else {
            b.birth_date
        },
        is_alive: if a.is_alive is Some {
            a.is_alive
        } else {
            b.is_alive
        },
        current_sex: if a.current_sex is Some {
            a.current_sex
        } else {
            b.current_sex
        },
        current_alias: if a.current_alias is Some {
            a.current_alias
        } else {
            b.current_alias
        },
        guardian_id: if a.guardian_id is Some {
            a.guardian_id
        } else {
            b.guardian_id
        },
    }
}

/// Two patches that set disjoint fields never lose each other's update:
/// applying them in sequence, in either order, applies both sets of
/// fields.
pub proof fn lemma_disjoint_patches(p: Person, a: UpdatePatch, b: UpdatePatch)
    requires
        patches_disjoint(a, b),
    ensures
        apply_patch_spec(apply_patch_spec(p, a), b) == apply_patch_spec(p, patch_union(a, b)),
        apply_patch_spec(apply_patch_spec(p, a), b) == apply_patch_spec(apply_patch_spec(p, b), a),
{
}

} // verus!
