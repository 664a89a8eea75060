//! A client for the HTTP API of a platform that publishes media, without
//! the network.
//!
//! The library plans and judges; it never sends. A call or a chain of calls
//! is a state machine that hands out one [`exchange::Turn`] at a time: the
//! records to observe, the seconds to sleep, and the request to send or the
//! result. The caller sends the request and hands the reply back.
//!
//! - [`retry`]: one call with its budget of attempts.
//! - [`poll`]: a status watched until it is terminal.
//! - [`apis`]: the calls of the platform, from a single read to the upload
//!   of a reel in many phases.
//! - [`batch_request`]: many operations in one call, and one result for
//!   each.

pub mod api;
pub mod apis;
pub mod batch_request;
pub mod codec;
pub mod error;
pub mod exchange;
pub mod flow;
pub mod json;
pub mod poll;
pub mod retry;
pub mod sign;
pub mod text;

pub use crate::api::Fbapi;
pub use crate::exchange::LogParams;
