//! The ways in which an operation of the directory fails.

use vstd::prelude::*;

verus! {

/// Why an operation failed.
#[derive(Debug, PartialEq, Eq)]
pub enum DomainError {
    /// A fetch of one row found none.
    NotFound,
    /// The database failed; with what it reported.
    DatabaseError(String),
    /// The credentials were refused; with the reason given.
    AuthenticationError(String),
}

/// The row of a fetch of one row: a fetch that found none is the error
/// `NotFound`, and no other.
pub fn one_row<T>(row: Option<T>) -> (found: Result<T, DomainError>)
    ensures
        found == match row {
            Some(item) => Ok::<T, DomainError>(item),
            None => Err::<T, DomainError>(DomainError::NotFound),
        },
{
    match row {
        Some(item) => Ok(item),
        None => Err(DomainError::NotFound),
    }
}

} // verus!
