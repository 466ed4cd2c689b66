//! Deterministic lockstep input synchronisation.
//!
//! Every participant of a lockstep simulation advances one tick at a time,
//! and only once the input of every registered player for that tick is
//! known. This crate holds the tick clock, the queue of pending inputs, the
//! barrier that decides whether a tick may run, and the snapshot and advance
//! protocol around one step.

pub mod tick;
pub mod step;
pub mod queue;
pub mod action;
pub mod config;
pub mod snapshot;
pub mod barrier;
pub mod session;
pub mod laws;
