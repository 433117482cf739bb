//! Transport abstraction for a peer-to-peer overlay: channels, listeners
//! and single-exchange requests, written as state machines that an
//! asynchronous driver runs against a concrete transport.

pub mod error;
pub mod read;
pub mod write;
pub mod request;
pub mod queue;
pub mod listener;
pub mod bin_types;
pub mod test_util;
pub mod database_path;
pub mod cell;
