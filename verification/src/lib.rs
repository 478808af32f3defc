//! A serializing forwarding dispatcher.
//!
//! One inbound call at a time is forwarded to an ordered set of upstream
//! endpoints. Calls are spaced by a minimum interval, transient upstream
//! failures fail over to the next endpoint, and every other upstream answer
//! is handed back to the caller unchanged.
//!
//! The library decides and never waits: [`dispatcher::Dispatch`] is a state
//! machine that is told what happened and says what is to be done next. The
//! program around it owns the sockets, the clock and the sleeping.
//!
//! - [`outcome`]: what an attempt yields and the classification table.
//! - [`rate_limiter`]: the minimum spacing between dispatch starts.
//! - [`gate`]: the single slot, handed over in arrival order.
//! - [`endpoint`], [`config`]: the endpoint set and the fixed settings.
//! - [`wire`], [`json`]: the request that is posted to an endpoint.
//! - [`dispatcher`]: the dispatch sequence.
//! - [`response`]: the answer to the caller.
//! - [`failover`], [`exclusion`]: what holds of whole sequences and of all
//!   sequences together.

pub mod config;
pub mod dispatcher;
pub mod endpoint;
pub mod exclusion;
pub mod failover;
pub mod gate;
pub mod json;
pub mod outcome;
pub mod rate_limiter;
pub mod response;
pub mod wire;
