//! Poll-driven building blocks for a readiness-notification socket toolkit.
//!
//! The toolkit itself performs connection establishment, accept queues and
//! byte transport; this crate owns the decision logic layered on top of it:
//! how a one-shot connect or accept outcome is turned into a connection, how
//! the two half-streams of a connection are composed and driven, and how the
//! incoming-connection sequence manages its single in-flight accept slot
//! across repeated polls, errors and cancellation.

pub mod addr;
pub mod client;
pub mod error;
pub mod incoming;
pub mod listener;
pub mod connection;
pub mod stream;
