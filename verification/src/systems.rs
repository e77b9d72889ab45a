//! The two ends of the bridge, on the shared counters.
//!
//! Every function here loads, decides by a function of [`crate::bridge`] or
//! [`crate::counter`], and stores. All loads and stores are relaxed: the
//! counters carry the only data that crosses between the threads.
//!
//! A load may return any value as far as the verifier knows, and a store
//! leaves it nothing to speak of. So the functions that decide or store hand
//! back what they loaded beside what they made of it, and their contracts
//! relate the two.
//! A step is a load and a store, not one atomic operation: it counts right as
//! long as each counter has one writer.

use std::sync::atomic::AtomicU8;
use std::sync::atomic::Ordering;
use vstd::prelude::*;
use crate::bridge::BeatCounts;
use crate::counter::{next_count, spec_next_count};
use crate::resources::Beats;

verus! {

/// One step of a counter, as the function that took it saw it.
#[derive(Clone, Copy, Debug, PartialEq, Eq, Structural)]
pub struct Advance {
    /// The count that was loaded.
    pub seen: u8,
    /// The count that was stored in its place.
    pub stored: u8,
}

/// One frame of the consumer, as it saw it.
#[derive(Clone, Copy, Debug, PartialEq, Eq, Structural)]
pub struct Frame {
    /// The counts that were loaded.
    pub before: BeatCounts,
    /// The counts as the frame leaves them, should no beat arrive meanwhile:
    /// its `reacted` is what was stored, where anything was.
    pub after: BeatCounts,
    /// Whether the caller owes one reaction.
    pub fired: bool,
}

/// Loads a counter and stores its successor.
fn advance(counter: &AtomicU8) -> (step: Advance)
    ensures
        step.stored == spec_next_count(step.seen),
{
    let seen: u8 = counter.load(Ordering::Relaxed);
    let stored: u8 = next_count(seen);
    counter.store(stored, Ordering::Relaxed);
    Advance { seen, stored }
}

/// Loads both counters, `detect_count` first.
pub fn observe(beats: &Beats) -> BeatCounts {
    let detected: u8 = beats.detect_count.load(Ordering::Relaxed);
    let reacted: u8 = beats.react_count.load(Ordering::Relaxed);
    BeatCounts { detected, reacted }
}

/// Loads both counters and tests them: the counts that were loaded, and
/// whether a beat is waiting among them. Nothing is stored.
pub fn check_beat(beats: &Beats) -> (seen: (BeatCounts, bool))
    ensures
        seen.1 == seen.0.pending(),
{
    let counts = observe(beats);
    let pending = counts.is_pending();
    (counts, pending)
}

/// Moves `react_count` on by one, modulo 256, whether or not a beat is
/// waiting. This is the consumer's to call, and no one else's.
pub fn increment_react_count(beats: &Beats) -> (step: Advance)
    ensures
        step.stored == spec_next_count(step.seen),
{
    advance(&beats.react_count)
}

/// The producer's step for one beat: moves `detect_count` on by one, modulo
/// 256. This is the producer's to call, and no one else's.
pub fn record_beat(detect_count: &AtomicU8) -> (step: Advance)
    ensures
        step.stored == spec_next_count(step.seen),
{
    advance(detect_count)
}

/// The producer's step for one line of the tracker's output. A line that was
/// read is one beat, whatever it says; a line that could not be read is passed
/// over.
pub fn on_line<T, E>(detect_count: &AtomicU8, line: &Result<T, E>) -> (step: Option<Advance>)
    ensures
        step is Some <==> line is Ok,
        step matches Some(s) ==> s.stored == spec_next_count(s.seen),
{
    if line.is_ok() {
        Some(record_beat(detect_count))
    } else {
        None
    }
}

/// The consumer's step for one frame. Where the counters differ it moves
/// `react_count` on by one and asks for one reaction; where they agree it
/// stores nothing and asks for none.
pub fn take_beat(beats: &Beats) -> (frame: Frame)
    ensures
        frame.fired == frame.before.pending(),
        frame.after == frame.before.after_frame(),
{
    let before = observe(beats);
    let (after, fired) = before.on_frame();
    if fired {
        beats.react_count.store(after.reacted, Ordering::Relaxed);
    }
    Frame { before, after, fired }
}

/// One frame of the consumer with the reaction handed in. The reaction runs
/// once where [`take_beat`] asks for one, after `react_count` has moved on, and
/// its result comes back; where none is asked for it is dropped unrun. It is
/// taken by value, so that no frame can run it twice.
pub fn react_on_beat<R, F: FnOnce() -> R>(beats: &Beats, reaction: F) -> (out: (Frame, Option<R>))
    requires
        call_requires(reaction, ()),
    ensures
        out.0.fired == out.0.before.pending(),
        out.0.after == out.0.before.after_frame(),
        out.1 is Some <==> out.0.fired,
        out.1 matches Some(result) ==> call_ensures(reaction, (), result),
{
    let frame = take_beat(beats);
    if frame.fired {
        let result = reaction();
        (frame, Some(result))
    } else {
        (frame, None)
    }
}

} // verus!
