//! Runs a raw query against a remote SQL source through a driver and hands the
//! result on as a lazily pulled sequence of record batches with a normalised
//! schema.
//!
//! - [`error`] folds the driver's error domains into the one external error
//!   that the host engine observes.
//! - [`schema`] rewrites the field names of a schema to lowercase.
//! - [`stream`] is the pulled sequence of batches: the batch that was fetched
//!   when the query started, then what the session gives.
//! - [`executor`] makes executors from connection descriptors and starts
//!   streams on the sessions that the driver opens.
//!
//! The library never goes to the remote source itself. Its caller asks the
//! driver to open a session for a query and hands the answer to
//! [`executor::CXExecutor::execute`].

pub mod error;
pub mod executor;
pub mod schema;
pub mod stream;
