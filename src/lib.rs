//! A locally observable view of a distributed simulation clock.
//!
//! Remote participants broadcast control messages (lifecycle state, a
//! simulation-time anchor and a speed multiplier). The library turns each
//! accepted message into a fresh clock anchor and extrapolates the current
//! simulation time from that anchor.

pub mod clock;
pub mod datetime;
pub mod ingest;
pub mod messages;
pub mod settings;
pub mod time_state;
