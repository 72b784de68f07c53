//! Sans-I/O core of a TCP client stack for WiFi radio modules that are driven
//! by AT commands.
//!
//! The module offers no real sockets to its host, only a command and response
//! exchange and notifications that arrive at any time. This crate holds the
//! protocol logic that turns both into a non-blocking stack with several
//! sockets: the pool of socket slots, the reconciliation of notifications, the
//! chunked and confirmed transmission and the buffered reception.
//!
//! No function here performs I/O. Every operation of [`adapter::Adapter`] is a
//! step function: it takes the [`commands::Event`] that answers the request it
//! made last and returns either the next [`commands::Action`] for the driver
//! to perform or the operation's result.
pub mod adapter;
pub mod address;
pub mod buffer;
pub mod commands;
pub mod error;
pub mod invariants;
pub mod receive;
pub mod stack;
pub mod transmit;
pub mod urc;
