//! How the consumer converges on the producer.
//!
//! The consumer takes one step per frame, so a backlog of `n` beats takes `n`
//! frames to clear and gives `n` reactions, none of which tells how many beats
//! stood behind it. A counter returns to where it was after 256 beats: such
//! rounds leave no trace, and the beats in them are never reacted to.

use vstd::prelude::*;
use crate::bridge::BeatCounts;
use crate::counter::lemma_step_modulo;

verus! {

/// The smaller of two numbers.
pub open spec fn at_most(n: nat, bound: nat) -> nat {
    if n <= bound {
        n
    } else {
        bound
    }
}

/// One beat moves `detected` on by one, modulo 256, and the backlog with it.
proof fn lemma_after_beat(counts: BeatCounts)
    ensures
        counts.after_beat().reacted == counts.reacted,
        counts.after_beat().detected == (counts.detected + 1) % 256,
        counts.after_beat().backlog() == (counts.backlog() + 1) % 256,
{
}

/// One frame with a beat waiting moves `reacted` on by one, modulo 256, and
/// takes one off the backlog; one with none waiting changes nothing.
proof fn lemma_after_frame(counts: BeatCounts)
    ensures
        counts.after_frame().detected == counts.detected,
        counts.pending() <==> counts.backlog() > 0,
        counts.pending() ==> counts.after_frame().reacted == (counts.reacted + 1) % 256,
        counts.pending() ==> counts.after_frame().backlog() == counts.backlog() - 1,
        !counts.pending() ==> counts.after_frame() == counts,
{
}

/// Beats move `detected` on by their number, modulo 256, and never touch
/// `reacted`.
pub proof fn lemma_after_beats(counts: BeatCounts, beats: nat)
    ensures
        counts.after_beats(beats).reacted == counts.reacted,
        counts.after_beats(beats).detected == (counts.detected + beats) % 256,
        counts.after_beats(beats).backlog() == (counts.backlog() + beats) % 256,
    decreases beats,
{
    if beats > 0 {
        let before = counts.after_beats((beats - 1) as nat);
        lemma_after_beats(counts, (beats - 1) as nat);
        lemma_after_beat(before);
        lemma_step_modulo(counts.detected + beats - 1);
        lemma_step_modulo(counts.backlog() + beats - 1);
    }
}

/// Frames never touch `detected`. They move `reacted` on by their number or by
/// the backlog, whichever is smaller, and give that many reactions.
pub proof fn lemma_after_frames(counts: BeatCounts, frames: nat)
    ensures
        counts.after_frames(frames).detected == counts.detected,
        counts.after_frames(frames).reacted == (counts.reacted + at_most(
            frames,
            counts.backlog(),
        )) % 256,
        counts.after_frames(frames).backlog() == counts.backlog() - at_most(
            frames,
            counts.backlog(),
        ),
        counts.reactions_in(frames) == at_most(frames, counts.backlog()),
    decreases frames,
{
    if frames > 0 {
        let before = counts.after_frames((frames - 1) as nat);
        lemma_after_frames(counts, (frames - 1) as nat);
        lemma_after_frame(before);
        lemma_step_modulo(counts.reacted + frames - 1);
    }
}

/// While no beat is waiting, frames change neither counter and give no
/// reaction, however many of them go by.
pub proof fn idle_frames_change_nothing(counts: BeatCounts, frames: nat)
    requires
        !counts.pending(),
    ensures
        counts.after_frames(frames) == counts,
        counts.reactions_in(frames) == 0,
{
    lemma_after_frames(counts, frames);
}

/// One frame gives one reaction where a beat is waiting and none where none
/// is, whatever the distance between the counters; `frames` frames give at
/// most `frames` reactions.
pub proof fn a_frame_reacts_at_most_once(counts: BeatCounts, frames: nat)
    ensures
        counts.reactions_in_frame() <= 1,
        counts.reactions_in_frame() == 1 <==> counts.pending(),
        counts.reactions_in(1) == counts.reactions_in_frame(),
        counts.reactions_in(frames) <= frames,
        counts.reactions_in(frames) <= counts.backlog(),
{
    lemma_after_frames(counts, frames);
    lemma_after_frames(counts, 1);
}

/// A backlog is cleared in as many frames as it counts, and in no fewer: a
/// beat is still waiting after each smaller number of frames, none after that
/// number, and each of those frames gives one reaction.
pub proof fn backlog_clears_one_frame_at_a_time(counts: BeatCounts)
    ensures
        forall|frames: nat|
            frames < counts.backlog() ==> (#[trigger] counts.after_frames(frames)).pending(),
        forall|frames: nat|
            frames <= counts.backlog() ==> #[trigger] counts.reactions_in(frames) == frames,
        !counts.after_frames(counts.backlog()).pending(),
        counts.after_frames(counts.backlog()).reacted == counts.detected,
{
    assert forall|frames: nat| frames <= counts.backlog() implies #[trigger] counts.reactions_in(
        frames,
    ) == frames by {
        lemma_after_frames(counts, frames);
    }
    assert forall|frames: nat| frames < counts.backlog() implies (#[trigger] counts.after_frames(
        frames,
    )).pending() by {
        lemma_after_frames(counts, frames);
    }
    lemma_after_frames(counts, counts.backlog());
}

/// Where the consumer has caught up and fewer than 256 beats then arrive
/// before its next frame, it needs one frame for each of them: the backlog is
/// their number, a beat is still waiting after each smaller number of frames,
/// none after that number, and the frames give one reaction each.
pub proof fn catching_up_takes_a_frame_per_beat(counts: BeatCounts, beats: nat)
    requires
        !counts.pending(),
        beats < 256,
    ensures
        counts.after_beats(beats).backlog() == beats,
        forall|frames: nat|
            frames < beats ==> (#[trigger] counts.after_beats(beats).after_frames(
                frames,
            )).pending(),
        forall|frames: nat|
            frames <= beats ==> #[trigger] counts.after_beats(beats).reactions_in(frames)
                == frames,
        !counts.after_beats(beats).after_frames(beats).pending(),
{
    lemma_after_beats(counts, beats);
    backlog_clears_one_frame_at_a_time(counts.after_beats(beats));
}

/// A round of 256 beats brings `detected` back to where it was: the consumer
/// cannot tell `beats + 256` beats from `beats`.
pub proof fn a_full_round_leaves_no_trace(counts: BeatCounts, beats: nat)
    ensures
        counts.after_beats(beats + 256) == counts.after_beats(beats),
        counts.after_beats(256) == counts,
{
    lemma_after_beats(counts, beats + 256);
    lemma_after_beats(counts, beats);
    lemma_after_beats(counts, 256);
}

} // verus!
