//! Ships log records to a remote backend without making the caller wait.
//!
//! A logging call only builds a record and offers it to a channel. A
//! dispatcher on the other end gathers records into batches and hands each
//! batch to a delivery client; its decisions are the state machine in
//! [`dispatch`].
/// Errors
pub mod error;
/// Log records
pub mod record;
/// The batching policy shared by every dispatcher
pub mod dispatch;
/// Log levels
pub mod level;
/// Logger configuration
pub mod config;
/// The producer-facing logger
pub mod logger;
