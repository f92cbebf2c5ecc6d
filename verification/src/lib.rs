//! Typed client core for a document/graph database that speaks an HTTP+JSON
//! protocol: record identifier codec, statement and parameter binding,
//! operation descriptors for each server endpoint, and the transaction
//! session state machine. The HTTP round trip itself is left to the caller;
//! everything here is plain data with proved contracts.

pub mod client;
pub mod command;
pub mod db;
pub mod error;
pub mod options;
pub mod protocol;
pub mod rid;
pub mod transaction;
pub mod transport;

pub use client::ArcadeDB;
pub use command::Language;
pub use db::Database;
pub use error::{ArcadeDBError, ErrorResponse};
pub use options::Auth;
pub use rid::{RecordID, RecordIDError};
pub use transaction::Transaction;
