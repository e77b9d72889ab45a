//! Beats and frames in any order.
//!
//! The producer and the consumer run on threads of their own, so beats and
//! frames come interleaved. Each counter has one writer, so the order changes
//! nothing for the producer: no frame can lose a beat or count one twice.

use vstd::prelude::*;
use crate::bridge::BeatCounts;
use crate::counter::lemma_step_modulo;

verus! {

/// What can happen to the bridge.
pub enum Event {
    /// The producer read a line: one beat.
    Beat,
    /// The consumer ran for one frame.
    Frame,
}

/// The counts after one event.
pub open spec fn after_event(counts: BeatCounts, event: Event) -> BeatCounts {
    match event {
        Event::Beat => counts.after_beat(),
        Event::Frame => counts.after_frame(),
    }
}

/// The counts after a run of events, the first of them first.
pub open spec fn after_events(counts: BeatCounts, events: Seq<Event>) -> BeatCounts
    decreases events.len(),
{
    if events.len() == 0 {
        counts
    } else {
        after_event(after_events(counts, events.drop_last()), events.last())
    }
}

/// The number of beats in a run of events.
pub open spec fn beats_in(events: Seq<Event>) -> nat
    decreases events.len(),
{
    if events.len() == 0 {
        0
    } else {
        beats_in(events.drop_last()) + if events.last() is Beat {
            1nat
        } else {
            0nat
        }
    }
}

/// The number of frames in a run of events.
pub open spec fn frames_in(events: Seq<Event>) -> nat
    decreases events.len(),
{
    if events.len() == 0 {
        0
    } else {
        frames_in(events.drop_last()) + if events.last() is Frame {
            1nat
        } else {
            0nat
        }
    }
}

/// The number of reactions that a run of events gives rise to: one for each
/// frame that finds a beat waiting.
pub open spec fn reactions_during(counts: BeatCounts, events: Seq<Event>) -> nat
    decreases events.len(),
{
    if events.len() == 0 {
        0
    } else {
        reactions_during(counts, events.drop_last()) + if events.last() is Frame {
            after_events(counts, events.drop_last()).reactions_in_frame()
        } else {
            0nat
        }
    }
}

/// Whatever frames run in between, `detected` moves on by the number of
/// beats, modulo 256: none is lost and none is counted twice.
pub proof fn every_beat_is_counted(counts: BeatCounts, events: Seq<Event>)
    ensures
        after_events(counts, events).detected == (counts.detected + beats_in(events)) % 256,
    decreases events.len(),
{
    if events.len() > 0 {
        every_beat_is_counted(counts, events.drop_last());
        lemma_step_modulo(counts.detected + beats_in(events.drop_last()));
    }
}

/// Whatever beats arrive in between, `reacted` moves on by the number of
/// reactions, modulo 256. There is at most one reaction for each frame, and
/// there are at most as many as beats were waiting at the start or arrived
/// since: no frame reacts to a beat that was never detected.
pub proof fn every_reaction_has_its_frame_and_its_beat(counts: BeatCounts, events: Seq<Event>)
    ensures
        after_events(counts, events).reacted == (counts.reacted + reactions_during(
            counts,
            events,
        )) % 256,
        reactions_during(counts, events) <= frames_in(events),
        reactions_during(counts, events) + after_events(counts, events).backlog()
            <= counts.backlog() + beats_in(events),
    decreases events.len(),
{
    if events.len() > 0 {
        every_reaction_has_its_frame_and_its_beat(counts, events.drop_last());
        lemma_step_modulo(counts.reacted + reactions_during(counts, events.drop_last()));
    }
}

} // verus!
