//! The protocol of the bridge on plain values.
//!
//! [`BeatCounts`] is what the two shared counters hold at one instant. The
//! producer's step and the consumer's step are functions on it, so that what
//! the bridge does can be said, and proved, without any thread in sight.

use vstd::prelude::*;
use crate::counter::{beat_pending, next_count, spec_distance, spec_next_count};

verus! {

/// The two counts of the bridge: beats detected so far and beats reacted to so
/// far, each modulo 256.
#[derive(Clone, Copy, Debug, PartialEq, Eq, Structural)]
pub struct BeatCounts {
    /// Advanced by the producer, once per beat.
    pub detected: u8,
    /// Advanced by the consumer, at most once per frame.
    pub reacted: u8,
}

impl BeatCounts {
    /// A beat is waiting for its reaction.
    pub open spec fn pending(self) -> bool {
        self.detected != self.reacted
    }

    /// The number of frames the consumer needs to catch up if no further beat
    /// arrives. Beats that went by in whole rounds of 256 are not in it.
    pub open spec fn backlog(self) -> nat {
        spec_distance(self.reacted, self.detected)
    }

    /// The counts after the producer has seen one beat.
    pub open spec fn after_beat(self) -> BeatCounts {
        BeatCounts { detected: spec_next_count(self.detected), reacted: self.reacted }
    }

    /// The counts after the producer has seen `beats` beats in a row.
    pub open spec fn after_beats(self, beats: nat) -> BeatCounts
        decreases beats,
    {
        if beats == 0 {
            self
        } else {
            self.after_beats((beats - 1) as nat).after_beat()
        }
    }

    /// The counts after the consumer has run for one frame.
    pub open spec fn after_frame(self) -> BeatCounts {
        if self.pending() {
            BeatCounts { detected: self.detected, reacted: spec_next_count(self.reacted) }
        } else {
            self
        }
    }

    /// The counts after the consumer has run for `frames` frames in a row.
    pub open spec fn after_frames(self, frames: nat) -> BeatCounts
        decreases frames,
    {
        if frames == 0 {
            self
        } else {
            self.after_frames((frames - 1) as nat).after_frame()
        }
    }

    /// The number of reactions one frame gives rise to.
    pub open spec fn reactions_in_frame(self) -> nat {
        if self.pending() {
            1
        } else {
            0
        }
    }

    /// The number of reactions that `frames` frames in a row give rise to.
    pub open spec fn reactions_in(self, frames: nat) -> nat
        decreases frames,
    {
        if frames == 0 {
            0
        } else {
            self.reactions_in((frames - 1) as nat) + self.after_frames(
                (frames - 1) as nat,
            ).reactions_in_frame()
        }
    }

    /// The counts at startup: nothing detected, nothing reacted to.
    pub fn new() -> (counts: BeatCounts)
        ensures
            counts.detected == 0,
            counts.reacted == 0,
            !counts.pending(),
    {
        BeatCounts { detected: 0, reacted: 0 }
    }

    /// Whether a beat is waiting for its reaction.
    pub fn is_pending(&self) -> (pending: bool)
        ensures
            pending == self.pending(),
            pending == (self.backlog() != 0),
    {
        beat_pending(self.detected, self.reacted)
    }

    /// The producer's step: one beat was detected.
    pub fn on_beat(self) -> (after: BeatCounts)
        ensures
            after == self.after_beat(),
            after.reacted == self.reacted,
            after.backlog() == (self.backlog() + 1) % 256,
    {
        BeatCounts { detected: next_count(self.detected), reacted: self.reacted }
    }

    /// The consumer's step: one frame. Where a beat is waiting, `reacted` moves
    /// on by one and the flag asks for one reaction, however many beats are
    /// waiting; where none is, nothing changes and the flag is `false`.
    pub fn on_frame(self) -> (out: (BeatCounts, bool))
        ensures
            out.0 == self.after_frame(),
            out.1 == self.pending(),
            out.0.detected == self.detected,
            self.pending() ==> out.0.backlog() == self.backlog() - 1,
            !self.pending() ==> out.0 == self,
    {
        if self.is_pending() {
            (BeatCounts { detected: self.detected, reacted: next_count(self.reacted) }, true)
        } else {
            (self, false)
        }
    }
}

} // verus!
