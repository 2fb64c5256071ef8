//! Error kinds surfaced by the pool initializer, the batch executor and the
//! read helpers. Each kind carries a message method so that callers can
//! report the failure with its context, including the zero-based statement
//! position where one applies.

use vstd::prelude::*;

verus! {

/// A configuration value was absent or malformed; fatal to initialization.
#[derive(Clone, Copy, Debug, PartialEq, Eq, Structural)]
pub enum ConfigError {
    /// The required endpoint connection string was not set.
    MissingDatabaseUrl,
    /// The maximum-connection-count value could not be read as text.
    UnreadableMaxConnections,
    /// The maximum-connection-count value did not parse as a `u32`.
    InvalidMaxConnections,
    /// The maximum-connection-count value parsed but was zero.
    ZeroMaxConnections,
}

impl ConfigError {
    /// A human-readable description of the configuration failure.
    pub fn message(&self) -> String {
        match self {
            ConfigError::MissingDatabaseUrl => "DATABASE_URL must be set".to_string(),
            ConfigError::UnreadableMaxConnections => "Failed to read CONNECTION_POOL".to_string(),
            ConfigError::InvalidMaxConnections => "CONNECTION_POOL must be a valid u32".to_string(),
            ConfigError::ZeroMaxConnections => "CONNECTION_POOL must be greater than 0".to_string(),
        }
    }
}

/// How a transactional batch execution failed.
#[derive(Clone, Copy, Debug, PartialEq, Eq, Structural)]
pub enum ExecError {
    /// No connection became available within the acquisition timeout. The
    /// caller may retry; nothing is retried internally.
    Acquire,
    /// A connection was available but the unit of work could not be
    /// opened.
    Begin,
    /// The statement at this zero-based position failed; the unit of work
    /// was rolled back.
    Statement(usize),
    /// The statement at this zero-based position failed and the subsequent
    /// rollback also failed: the outcome of the unit of work is unknown.
    Rollback(usize),
    /// Every statement succeeded but the commit failed; the unit of work
    /// must be treated as not applied.
    Commit,
}

impl ExecError {
    /// A human-readable description of the execution failure.
    pub fn message(&self) -> String {
        match self {
            ExecError::Acquire => "Timed out acquiring a database connection".to_string(),
            ExecError::Begin => "Failed to start database transaction".to_string(),
            ExecError::Statement(_) => {
                "Failed to execute query in transaction at index".to_string()
            },
            ExecError::Rollback(_) => "Failed to rollback transaction".to_string(),
            ExecError::Commit => "Failed to commit transaction".to_string(),
        }
    }
}

/// Which read operation failed.
#[derive(Clone, Copy, Debug, PartialEq, Eq, Structural)]
pub enum QueryOp {
    /// Fetching at most one row.
    FetchOptionalRow,
    /// Fetching every row.
    FetchAllRows,
}

impl QueryOp {
    /// A human-readable description of the failed read operation.
    pub fn message(&self) -> String {
        match self {
            QueryOp::FetchOptionalRow => "Failed to fetch optional row".to_string(),
            QueryOp::FetchAllRows => "Failed to fetch rows".to_string(),
        }
    }
}

/// A read helper failed: the underlying execution or decode failure,
/// tagged with the operation that failed.
#[derive(Debug)]
pub struct QueryError<E> {
    /// The operation that failed.
    pub op: QueryOp,
    /// The underlying failure.
    pub cause: E,
}

} // verus!
