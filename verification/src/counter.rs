//! The wrapping 8-bit counter both sides of the bridge count with.

use vstd::prelude::*;

verus! {

/// The count that follows `count`: 0 after 255, one more after any other.
pub open spec fn spec_next_count(count: u8) -> u8 {
    if count == 255 {
        0
    } else {
        (count + 1) as u8
    }
}

/// How many steps `from` has to take to arrive at `to`, going round through
/// zero where `to` is the smaller of the two.
pub open spec fn spec_distance(from: u8, to: u8) -> nat {
    if from <= to {
        (to - from) as nat
    } else {
        (to - from + 256) as nat
    }
}

/// Counting on is adding one modulo 256: after 255 comes 0, after any other
/// count the next number. The distance is the difference modulo 256, and a
/// step of the count that runs ahead adds one to it, modulo 256.
pub proof fn counting_is_modular(from: u8, to: u8)
    ensures
        from == 255 ==> spec_next_count(from) == 0,
        from != 255 ==> spec_next_count(from) == from + 1,
        spec_next_count(from) == (from + 1) % 256,
        spec_distance(from, to) == (to - from) % 256,
        spec_distance(from, to) < 256,
        spec_distance(from, to) == 0 <==> from == to,
        spec_distance(from, spec_next_count(to)) == (spec_distance(from, to) + 1) % 256,
{
}

/// Taking the remainder before a step or after it comes to the same.
pub proof fn lemma_step_modulo(n: int)
    ensures
        ((n % 256) + 1) % 256 == (n + 1) % 256,
{
}

/// Advances a count by one. After 255 comes 0; the step is taken by an
/// explicit test, never by letting the addition overflow.
pub fn next_count(count: u8) -> (next: u8)
    ensures
        next == spec_next_count(count),
        next == (count + 1) % 256,
{
    if count == 255 {
        0
    } else {
        count + 1
    }
}

/// Whether a beat is waiting: the two counts differ. This is a test for
/// inequality only; it does not say how far apart the counts are.
pub fn beat_pending(detected: u8, reacted: u8) -> (pending: bool)
    ensures
        pending == (detected != reacted),
        pending == (spec_distance(reacted, detected) != 0),
{
    detected != reacted
}

} // verus!
