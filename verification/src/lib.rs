//! Connection management for ADBC databases behind a connection pool.
//!
//! The crate holds the rules by which a pool obtains and checks ADBC
//! connections: which creation capability of the database is used, which
//! options are handed to it, and how a driver error is reported to the pool.

pub mod error;
pub mod laws;
pub mod manager;
pub mod options;

pub use error::AdbcError;
pub use manager::{AdbcConnectionManager, ConnectRequest};
