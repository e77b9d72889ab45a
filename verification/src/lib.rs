//! A lossy bridge between a beat detector and a frame loop.
//!
//! A producer counts detected beats in one wrapping 8-bit counter; a consumer,
//! called once per frame, advances a second counter by at most one step per
//! call until it has caught up with the first. No queue is involved: the two
//! counters are the whole protocol.

pub mod bridge;
pub mod convergence;
pub mod counter;
pub mod interleaving;
pub mod resources;
pub mod systems;
