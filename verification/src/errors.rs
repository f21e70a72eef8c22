//! The two error families of the tracker: storage errors from the underlying
//! store (or from file work around it), and state errors for operations that
//! were invoked on a value lacking a required precondition.  Both propagate
//! unchanged to the caller; nothing here retries or recovers.

use vstd::prelude::*;

verus! {

// The error type of the sqlite bindings; its values pass through this crate
// opaquely inside `DbError::SqliteError`.
#[verifier::external_type_specification]
#[verifier::external_body]
pub struct ExRusqliteError(rusqlite::Error);

// std::io errors can be handed in by callers that do their own file work
// around the store.
#[verifier::external_type_specification]
#[verifier::external_body]
pub struct ExIoError(std::io::Error);

pub type DbResult<T> = Result<T, DbError>;

/// An error surfaced by the persistence layer or by a misused operation.
#[derive(Debug)]
pub enum DbError {
    /// The underlying store rejected or failed a read or a write.
    SqliteError(rusqlite::Error),
    /// A file operation around the store failed.
    IoError(std::io::Error),
    /// The operation needs a precondition the value does not meet, such as
    /// persisting a comment against a document that has no stored id yet.
    InvalidState,
}

impl From<rusqlite::Error> for DbError {
    fn from(err: rusqlite::Error) -> (r: Self) {
        DbError::SqliteError(err)
    }
}

impl vstd::std_specs::convert::FromSpecImpl<rusqlite::Error> for DbError {
    open spec fn obeys_from_spec() -> bool {
        true
    }

    open spec fn from_spec(err: rusqlite::Error) -> Self {
        DbError::SqliteError(err)
    }
}

impl From<std::io::Error> for DbError {
    fn from(err: std::io::Error) -> (r: Self) {
        DbError::IoError(err)
    }
}

impl vstd::std_specs::convert::FromSpecImpl<std::io::Error> for DbError {
    open spec fn obeys_from_spec() -> bool {
        true
    }

    open spec fn from_spec(err: std::io::Error) -> Self {
        DbError::IoError(err)
    }
}

} // verus!
