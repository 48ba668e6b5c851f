//! A person registry with an append-only attribute history engine.
//!
//! The registry keeps a mutable "current projection" row per person and,
//! for each historized attribute (name, sex designation, alias, guardian),
//! an append-only ledger of every value the attribute has held. Sparse
//! partial updates are applied through a builder that pairs each update
//! clause with its bound value, so clause order and binding order can
//! never drift apart.

use vstd::prelude::*;

pub mod builder;
pub mod date;
pub mod ledger;
pub mod parentage;
pub mod person;
pub mod registry;
pub mod store;

verus! {

/// The error taxonomy of the registry.
///
/// `NotFound` is returned when an operation targets a person identity that
/// does not exist; `Validation` when an input is inconsistent (a parent
/// relationship label without its parent identity, or a repeated attempt
/// to link parentage).
#[derive(Clone, Copy, Debug, PartialEq, Eq, Structural)]
pub enum Error {
    NotFound,
    Validation,
}

} // verus!
