//! The library's error type.
use vstd::prelude::*;

verus! {

/// The failures this library reports; each carries a message.
#[derive(Debug, PartialEq, Eq)]
pub enum OrmError {
    /// The driver cannot be reached or opened.
    Connection(String),
    /// The driver rejected or failed a statement.
    Query(String),
    /// A row's shape or types do not match what was expected of it.
    Decode(String),
    /// Absence signalled as an error.
    NotFound(String),
    /// A malformed timestamp or an unreadable migration source.
    Migration(String),
    /// An operation this configuration does not support.
    Configuration(String),
    /// A request that breaks the library's preconditions (a zero page size, a
    /// table without a primary key).
    Validation(String),
}

} // verus!
