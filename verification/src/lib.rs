//! Locate, inside a bounded time window, the most recent instant at which a
//! boolean diagnostic query against a point-in-time-readable database flips
//! from true to false.
//!
//! The library holds the verified core: probe-outcome classification, bound
//! validation, the bisection state machine and the iteration-budget
//! computation. Timestamps are modelled as nanoseconds since the Unix epoch.
//! The surrounding program performs the actual database reads and drives the
//! state machine, feeding each probe's classified outcome back in.
pub mod budget;
pub mod convert;
pub mod engine;
pub mod errors;
pub mod laws;
pub mod model;
pub mod outcome;
pub mod text;
