//! Error surface of the storage layer.
//!
//! Any native-engine failure (open failure, I/O, corruption, missing column
//! family) is wrapped into the single opaque [`DatabaseError::Other`]
//! variant: callers cannot distinguish engine-internal causes beyond that
//! wrapper. This narrow surface is deliberate.

use vstd::prelude::*;
use vstd::string::StringExecFns;

verus! {

/// An opaque storage-backend failure.
#[derive(Debug)]
pub enum DatabaseError {
    /// Any error originating in the backing engine, carrying only a
    /// human-readable description.
    Other(String),
}

/// Result type of every storage operation.
pub type DatabaseResult<T> = Result<T, DatabaseError>;

impl DatabaseError {
    /// Wrap a backend failure description.
    pub fn other(msg: &str) -> (r: DatabaseError)
        ensures
            r matches DatabaseError::Other(m) && m@ == msg@,
    {
        DatabaseError::Other(String::from_str(msg))
    }

    /// The human-readable description of the failure.
    pub fn message(&self) -> (r: &str)
        ensures
            self matches DatabaseError::Other(m) && m@ == r@,
    {
        match self {
            DatabaseError::Other(m) => m.as_str(),
        }
    }
}

} // verus!
