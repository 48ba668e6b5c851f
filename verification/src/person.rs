//! The current projection: one mutable row per person identity.

use vstd::prelude::*;
use crate::date::Date;

verus! {

/// The "current projection" row for one identity. `person_id` is assigned
/// at creation and never changes. `current_sex`, `current_alias` and the
/// name are denormalized caches of the latest value in the corresponding
/// history ledger; `guardian_id` likewise. The parent fields describe
/// biological parentage and are fixed at creation.
#[derive(Clone, Debug, PartialEq, Eq)]
pub struct Person {
    pub person_id: i32,
    pub first_name: Option<String>,
    pub last_name: Option<String>,
    pub birth_date: Option<Date>,
    pub is_alive: bool,
    pub current_sex: Option<String>,
    pub current_alias: Option<String>,
    pub first_parent_id: Option<i32>,
    pub first_parent_relationship: Option<String>,
    pub second_parent_id: Option<i32>,
    pub second_parent_relationship: Option<String>,
    pub guardian_id: Option<i32>,
}

/// The full initial field set for creating a person: every projection
/// field except the identity, which the store assigns.
#[derive(Clone, Debug, PartialEq, Eq)]
pub struct CreateRequest {
    pub first_name: Option<String>,
    pub last_name: Option<String>,
    pub birth_date: Option<Date>,
    pub is_alive: bool,
    pub current_sex: Option<String>,
    pub current_alias: Option<String>,
    pub first_parent_id: Option<i32>,
    pub first_parent_relationship: Option<String>,
    pub second_parent_id: Option<i32>,
    pub second_parent_relationship: Option<String>,
    pub guardian_id: Option<i32>,
}

/// The person row that creating from `req` under identity `id` yields.
pub open spec fn person_of(req: CreateRequest, id: i32) -> Person {
    Person {
        person_id: id,
        first_name: req.first_name,
        last_name: req.last_name,
        birth_date: req.birth_date,
        is_alive: req.is_alive,
        current_sex: req.current_sex,
        current_alias: req.current_alias,
        first_parent_id: req.first_parent_id,
        first_parent_relationship: req.first_parent_relationship,
        second_parent_id: req.second_parent_id,
        second_parent_relationship: req.second_parent_relationship,
        guardian_id: req.guardian_id,
    }
}

/// Clones an optional text value; the copy equals the original.
pub fn clone_opt_string(o: &Option<String>) -> (r: Option<String>)
    ensures
        r == *o,
{
    match o {
        Option::None => Option::None,
        Option::Some(s) => Option::Some(s.clone()),
    }
}

impl Person {
    /// Materializes the person row for `req` under identity `id`.
    pub fn from_request(req: &CreateRequest, id: i32) -> (r: Person)
        ensures
            r == person_of(*req, id),
    {
        Person {
            person_id: id,
            first_name: clone_opt_string(&req.first_name),
            last_name: clone_opt_string(&req.last_name),
            birth_date: req.birth_date,
            is_alive: req.is_alive,
            current_sex: clone_opt_string(&req.current_sex),
            current_alias: clone_opt_string(&req.current_alias),
            first_parent_id: req.first_parent_id,
            first_parent_relationship: clone_opt_string(&req.first_parent_relationship),
            second_parent_id: req.second_parent_id,
            second_parent_relationship: clone_opt_string(&req.second_parent_relationship),
            guardian_id: req.guardian_id,
        }
    }

    /// Copies the row; the copy equals the original.
    pub fn duplicate(&self) -> (r: Person)
        ensures
            r == *self,
    {
        Person {
            person_id: self.person_id,
            first_name: clone_opt_string(&self.first_name),
            last_name: clone_opt_string(&self.last_name),
            birth_date: self.birth_date,
            is_alive: self.is_alive,
            current_sex: clone_opt_string(&self.current_sex),
            current_alias: clone_opt_string(&self.current_alias),
            first_parent_id: self.first_parent_id,
            first_parent_relationship: clone_opt_string(&self.first_parent_relationship),
            second_parent_id: self.second_parent_id,
            second_parent_relationship: clone_opt_string(&self.second_parent_relationship),
            guardian_id: self.guardian_id,
        }
    }
}

} // verus!
