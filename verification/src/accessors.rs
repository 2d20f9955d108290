//! What the two emitted accessors decide, written out as functions.
//!
//! The request guard and the startup check that [`crate::emit`] writes
//! make the same lookup in the managed state of an application and differ
//! only in what they make of its result. The two functions here are those
//! two decisions on the result of the lookup, so that how they relate can
//! be stated and proved. The emitted code states them in the types of the
//! framework it is compiled against.

use vstd::prelude::*;

verus! {

/// The status that a failed request guard carries.
#[derive(Clone, Copy, Debug, PartialEq, Eq, Structural)]
pub enum Status {
    InternalServerError,
}

/// What the request guard yields.
#[derive(Debug)]
pub enum Outcome<T> {
    /// What the lookup found.
    Success(T),
    /// The status, and an error that says nothing more.
    Failure((Status, ())),
}

/// What the request guard makes of the result of the lookup.
pub open spec fn outcome_of<T>(found: Option<T>) -> Outcome<T> {
    match found {
        Some(db) => Outcome::Success(db),
        None => Outcome::Failure((Status::InternalServerError, ())),
    }
}

/// Whether the startup check aborts on the result of the lookup.
pub open spec fn aborts<T>(found: Option<T>) -> bool {
    found is None
}

/// Decides as the request guard does: success with what was found, and
/// where nothing was found a failure with an internal server error.
pub fn fetch_outcome<T>(found: Option<T>) -> (out: Outcome<T>)
    ensures
        out == outcome_of(found),
{
    match found {
        Some(db) => Outcome::Success(db),
        None => Outcome::Failure((Status::InternalServerError, ())),
    }
}

/// Decides as the startup check does: abort exactly where nothing was
/// found.
pub fn sentinel_abort<T>(found: &Option<T>) -> (abort: bool)
    ensures
        abort == aborts(*found),
{
    found.is_none()
}

/// On one result of the lookup, the startup check aborts exactly where
/// the request guard fails. So where the check has let the application
/// start, no guard fails for want of the pool.
pub proof fn lemma_sentinel_complements_guard<T>(found: Option<T>)
    ensures
        aborts(found) <==> outcome_of(found) is Failure,
        !aborts(found) <==> outcome_of(found) is Success,
{
}

} // verus!
