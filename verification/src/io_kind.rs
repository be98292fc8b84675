//! The kind of an I/O error, as the standard library classifies it.
//!
//! Async runtimes such as tokio and smol hand out `std::io::Error` under
//! their own paths, so what is said here of `std::io::Error` holds of theirs.
use crate::ordering::int_order;
use std::cmp::Ordering;
use std::io::{Error, ErrorKind};
use vstd::prelude::*;

verus! {

/// The standard library's I/O error. Nothing inside it is read here but its
/// kind, through [`kind_of`].
#[verifier::external_type_specification]
#[verifier::external_body]
pub struct ExError(std::io::Error);

/// The standard library's classification of I/O errors, carried as it is.
#[verifier::external_type_specification]
#[verifier::external_body]
pub struct ExErrorKind(std::io::ErrorKind);

/// The kind that an I/O error reports of itself, whatever else it holds.
pub uninterp spec fn io_error_kind(e: Error) -> ErrorKind;

/// The place of a kind in the order that `ErrorKind` gives itself.
pub uninterp spec fn io_kind_rank(k: ErrorKind) -> int;

/// Asks an I/O error for its kind with `std::io::Error::kind`. The contract
/// only names the outcome.
#[verifier::external_body]
pub(crate) fn kind_of(e: &Error) -> (k: ErrorKind)
    ensures
        k == io_error_kind(*e),
{
    e.kind()
}

/// Compares two kinds with `ErrorKind`'s own `Ord::cmp`. The contract claims
/// what `Ord` asks of every implementation: that `cmp` is a total order, here
/// written as the order of the places that [`io_kind_rank`] names.
#[verifier::external_body]
pub(crate) fn compare_kinds(a: &ErrorKind, b: &ErrorKind) -> (o: Ordering)
    ensures
        o == int_order(io_kind_rank(*a), io_kind_rank(*b)),
{
    a.cmp(b)
}

} // verus!
