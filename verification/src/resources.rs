//! The state that the producer's thread and the frame loop share.

use std::sync::atomic::AtomicU8;
use std::sync::Arc;
use vstd::prelude::*;

verus! {

/// The two counters of the bridge, each in an atomic cell of its own.
///
/// Each cell has one writer: the producer writes `detect_count`, the consumer
/// writes `react_count`. Either side may read both. The verifier knows nothing
/// of what a cell holds at any moment: every load may return any value.
pub struct Beats {
    /// Beats detected, modulo 256.
    pub detect_count: Arc<AtomicU8>,
    /// Beats reacted to, modulo 256.
    pub react_count: Arc<AtomicU8>,
}

impl Beats {
    /// A fresh pair of counters, both at zero.
    pub fn new() -> Beats {
        Beats { detect_count: Arc::new(AtomicU8::new(0)), react_count: Arc::new(AtomicU8::new(0)) }
    }
}

} // verus!
