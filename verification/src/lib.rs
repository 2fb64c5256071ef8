//! A minimal model of a pooled database client: lazy shared-pool
//! initialization, transactional batch execution with rollback on the first
//! failing statement, and read helpers that decode fetched rows.
//!
//! The decision logic lives here, verified; the asynchronous driver calls
//! (connecting, executing SQL, committing) are performed by the surrounding
//! application, which drives the state machines in this crate.

pub mod batch;
pub mod config;
pub mod errors;
pub mod init;
pub mod rows;
