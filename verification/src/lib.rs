//! Request/response adapter layer between a message broker's raw request
//! stream and typed application handlers.
//!
//! The crate holds the decisions of that layer as verified state machines:
//!
//! - [`handler`]: the decode-compute-encode-respond pipeline that turns one
//!   request into exactly one reply;
//! - [`endpoint`]: the per-endpoint adapter that admits one computation at a
//!   time and emits outcomes in arrival order;
//! - [`multiplex`]: the registry that runs many adapters side by side;
//! - [`session`]: what holds of an endpoint when adapter and pipeline work
//!   together;
//! - [`services`]: the handlers of the "add" and "weather" endpoints.
//!
//! None of them suspends. A driver performs the suspending work (polling the
//! broker, awaiting a computation, sending the reply), reports what happened
//! as an event and is told what to do next.

pub mod endpoint;
pub mod error;
pub mod handler;
pub mod multiplex;
pub mod payload;
pub mod services;
pub mod session;
