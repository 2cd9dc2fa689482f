//! Core logic of a transparent TCP forwarding proxy.
//!
//! The proxy accepts inbound connections, dials a fixed target for each one,
//! and relays bytes in both directions until either side closes or errors.
//! This crate holds the decision logic of that service, verified: the
//! exponential-backoff retry policy around accept, the per-connection relay
//! model with half-close propagation, and the lifecycle machine that drives
//! graceful shutdown. The surrounding runtime (sockets, tasks, timers) feeds
//! events into these functions and carries out the actions they return.

pub mod backoff;
pub mod proxy;
pub mod relay;
