use beat_bridge::bridge::BeatCounts;
use beat_bridge::resources::Beats;
use beat_bridge::systems::{
    check_beat, increment_react_count, observe, on_line, react_on_beat, record_beat, take_beat,
    Advance, Frame,
};
use std::cell::Cell;
use std::sync::atomic::{AtomicU8, Ordering};
use std::sync::Arc;

fn beats_at(detected: u8, reacted: u8) -> Beats {
    Beats {
        detect_count: Arc::new(AtomicU8::new(detected)),
        react_count: Arc::new(AtomicU8::new(reacted)),
    }
}

fn counts(detected: u8, reacted: u8) -> BeatCounts {
    BeatCounts { detected, reacted }
}

fn idle(level: u8) -> Frame {
    Frame { before: counts(level, level), after: counts(level, level), fired: false }
}

fn fired(before: BeatCounts, after: BeatCounts) -> Frame {
    Frame { before, after, fired: true }
}

#[test]
fn new_beats_hold_zero_twice() {
    let beats = Beats::new();
    assert_eq!(beats.detect_count.load(Ordering::Relaxed), 0);
    assert_eq!(beats.react_count.load(Ordering::Relaxed), 0);
    assert_eq!(observe(&beats), counts(0, 0));
    assert_eq!(check_beat(&beats), (counts(0, 0), false));
}

#[test]
fn frame_with_nothing_detected_stores_nothing() {
    let beats = beats_at(0, 0);
    let frame = take_beat(&beats);
    assert_eq!(frame, idle(0));
    assert_eq!(observe(&beats), counts(0, 0));
}

#[test]
fn one_beat_gives_one_reaction() {
    let beats = beats_at(1, 0);
    let first = take_beat(&beats);
    assert_eq!(first, fired(counts(1, 0), counts(1, 1)));
    assert_eq!(observe(&beats), counts(1, 1));
    let second = take_beat(&beats);
    assert_eq!(second, idle(1));
    assert_eq!(observe(&beats), counts(1, 1));
}

#[test]
fn both_counters_wrap_after_255() {
    let beats = beats_at(255, 254);
    let first = take_beat(&beats);
    assert_eq!(first, fired(counts(255, 254), counts(255, 255)));
    assert_eq!(observe(&beats), counts(255, 255));
    let step = record_beat(&beats.detect_count);
    assert_eq!(step, Advance { seen: 255, stored: 0 });
    assert_eq!(observe(&beats), counts(0, 255));
    assert_eq!(check_beat(&beats), (counts(0, 255), true));
    let second = take_beat(&beats);
    assert_eq!(second, fired(counts(0, 255), counts(0, 0)));
    assert_eq!(observe(&beats), counts(0, 0));
}

#[test]
fn five_lines_give_five_beats() {
    let beats = Beats::new();
    let lines = ["0.51", "1.02", "1.53", "2.04", "2.55"];
    for (index, text) in lines.iter().enumerate() {
        let line: Result<String, std::io::Error> = Ok(text.to_string());
        let step = on_line(&beats.detect_count, &line);
        assert_eq!(step, Some(Advance { seen: index as u8, stored: index as u8 + 1 }));
        assert_eq!(observe(&beats).detected, index as u8 + 1);
        assert_eq!(check_beat(&beats), (counts(index as u8 + 1, 0), true));
    }
    assert_eq!(observe(&beats), counts(5, 0));
}

#[test]
fn unreadable_line_is_passed_over() {
    let beats = beats_at(4, 4);
    let line: Result<String, std::io::Error> =
        Err(std::io::Error::new(std::io::ErrorKind::InvalidData, "not utf-8"));
    assert_eq!(on_line(&beats.detect_count, &line), None);
    assert_eq!(observe(&beats), counts(4, 4));
    let next: Result<String, std::io::Error> = Ok(String::new());
    assert_eq!(on_line(&beats.detect_count, &next), Some(Advance { seen: 4, stored: 5 }));
    assert_eq!(observe(&beats), counts(5, 4));
}

#[test]
fn line_content_does_not_matter() {
    let beats = Beats::new();
    let empty: Result<&str, ()> = Ok("");
    let words: Result<&str, ()> = Ok("no number in here");
    assert!(on_line(&beats.detect_count, &empty).is_some());
    assert!(on_line(&beats.detect_count, &words).is_some());
    assert_eq!(observe(&beats), counts(2, 0));
}

#[test]
fn record_beat_counts_through_a_whole_round() {
    let beats = Beats::new();
    for expected in 0u16..256u16 {
        let step = record_beat(&beats.detect_count);
        assert_eq!(step.seen as u16, expected);
        assert_eq!(step.stored as u16, (expected + 1) % 256);
    }
    assert_eq!(observe(&beats), counts(0, 0));
    assert_eq!(check_beat(&beats), (counts(0, 0), false));
}

#[test]
fn increment_react_count_wraps() {
    let beats = beats_at(0, 254);
    assert_eq!(increment_react_count(&beats), Advance { seen: 254, stored: 255 });
    assert_eq!(increment_react_count(&beats), Advance { seen: 255, stored: 0 });
    assert_eq!(increment_react_count(&beats), Advance { seen: 0, stored: 1 });
    assert_eq!(observe(&beats), counts(0, 1));
}

#[test]
fn check_beat_changes_nothing() {
    let beats = beats_at(9, 3);
    for _ in 0..10 {
        assert_eq!(check_beat(&beats), (counts(9, 3), true));
    }
    assert_eq!(observe(&beats), counts(9, 3));
}

#[test]
fn idle_consumer_never_fires() {
    let beats = beats_at(77, 77);
    for _ in 0..1000 {
        assert_eq!(take_beat(&beats), idle(77));
    }
    assert_eq!(observe(&beats), counts(77, 77));
}

#[test]
fn four_missed_beats_take_four_frames() {
    let beats = Beats::new();
    for _ in 0..4 {
        record_beat(&beats.detect_count);
    }
    let mut reactions: u32 = 0;
    for done in 0u8..4u8 {
        let step = take_beat(&beats);
        assert_eq!(step, fired(counts(4, done), counts(4, done + 1)));
        reactions += 1;
    }
    assert_eq!(reactions, 4);
    assert_eq!(observe(&beats), counts(4, 4));
    assert!(!take_beat(&beats).fired);
}

#[test]
fn consumer_reads_between_lines_lose_no_beat() {
    let beats = Beats::new();
    let mut reactions: u32 = 0;
    for beat in 1u8..=5u8 {
        let line: Result<String, std::io::Error> = Ok(format!("{}", beat));
        assert!(on_line(&beats.detect_count, &line).is_some());
        assert_eq!(check_beat(&beats), (counts(beat, beat - 1), true));
        assert_eq!(observe(&beats).detected, beat);
        if take_beat(&beats).fired {
            reactions += 1;
        }
        assert_eq!(observe(&beats).detected, beat);
    }
    assert_eq!(observe(&beats), counts(5, 5));
    assert_eq!(reactions, 5);
}

#[test]
fn producer_handle_shares_the_counter() {
    let beats = Beats::new();
    let handle = beats.detect_count.clone();
    record_beat(&handle);
    record_beat(&handle);
    assert_eq!(observe(&beats), counts(2, 0));
    assert!(take_beat(&beats).fired);
    assert_eq!(observe(&beats), counts(2, 1));
}

#[test]
fn reaction_runs_once_for_a_waiting_beat() {
    let beats = beats_at(1, 0);
    let calls: Cell<u32> = Cell::new(0);
    let (frame, result) = react_on_beat(&beats, || {
        calls.set(calls.get() + 1);
        "reacted"
    });
    assert_eq!(frame, fired(counts(1, 0), counts(1, 1)));
    assert_eq!(result, Some("reacted"));
    assert_eq!(calls.get(), 1);
    assert_eq!(observe(&beats), counts(1, 1));
}

#[test]
fn reaction_does_not_run_without_a_beat() {
    let beats = beats_at(0, 0);
    let calls: Cell<u32> = Cell::new(0);
    for _ in 0..50 {
        let (frame, result) = react_on_beat(&beats, || calls.set(calls.get() + 1));
        assert!(!frame.fired);
        assert_eq!(result, None);
    }
    assert_eq!(calls.get(), 0);
    assert_eq!(observe(&beats), counts(0, 0));
}

#[test]
fn reaction_runs_once_however_wide_the_gap() {
    let beats = beats_at(200, 3);
    let calls: Cell<u32> = Cell::new(0);
    let (frame, result) = react_on_beat(&beats, || calls.set(calls.get() + 1));
    assert_eq!(frame, fired(counts(200, 3), counts(200, 4)));
    assert_eq!(result, Some(()));
    assert_eq!(calls.get(), 1);
    assert_eq!(observe(&beats), counts(200, 4));
}

#[test]
fn reaction_sees_the_counter_already_moved() {
    let beats = beats_at(8, 7);
    let (_, seen_inside) = react_on_beat(&beats, || observe(&beats));
    assert_eq!(seen_inside, Some(counts(8, 8)));
}

#[test]
fn reactions_add_up_to_the_missed_beats() {
    let beats = Beats::new();
    for _ in 0..6 {
        record_beat(&beats.detect_count);
    }
    let calls: Cell<u32> = Cell::new(0);
    let mut frames: u32 = 0;
    while check_beat(&beats).1 {
        react_on_beat(&beats, || calls.set(calls.get() + 1));
        frames += 1;
        assert_eq!(calls.get(), frames);
    }
    assert_eq!(frames, 6);
    assert_eq!(calls.get(), 6);
}

#[test]
fn check_beat_hands_back_what_it_loaded() {
    assert_eq!(check_beat(&beats_at(0, 0)), (counts(0, 0), false));
    assert_eq!(check_beat(&beats_at(1, 0)), (counts(1, 0), true));
    assert_eq!(check_beat(&beats_at(0, 1)), (counts(0, 1), true));
    assert_eq!(check_beat(&beats_at(255, 254)), (counts(255, 254), true));
    assert_eq!(check_beat(&beats_at(0, 255)), (counts(0, 255), true));
    assert_eq!(check_beat(&beats_at(255, 255)), (counts(255, 255), false));
}

#[test]
fn check_beat_sees_each_step_of_the_consumer() {
    let beats = beats_at(2, 0);
    assert_eq!(check_beat(&beats), (counts(2, 0), true));
    increment_react_count(&beats);
    assert_eq!(check_beat(&beats), (counts(2, 1), true));
    increment_react_count(&beats);
    assert_eq!(check_beat(&beats), (counts(2, 2), false));
}
