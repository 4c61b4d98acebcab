use astro_bevy::timer::{Timer, NANOS_PER_SECOND};
use std::time::Duration;

#[test]
fn a_new_timer_has_not_started() {
    let t = Timer::new(5, true);
    assert_eq!(t.duration(), 5);
    assert_eq!(t.elapsed(), 0);
    assert!(t.repeating());
    assert!(!t.finished());
    assert!(!t.just_finished());
    assert_eq!(NANOS_PER_SECOND, 1_000_000_000);
}

#[test]
fn a_tick_short_of_the_duration_only_adds() {
    let mut t = Timer::new(1_000, false);
    t.tick(400);
    t.tick(599);
    assert_eq!(t.elapsed(), 999);
    assert!(!t.finished());
    assert!(!t.just_finished());
}

#[test]
fn the_boundary_counts_as_reached() {
    let mut t = Timer::new(1_000, false);
    t.tick(1_000);
    assert!(t.finished());
    assert!(t.just_finished());
    assert_eq!(t.elapsed(), 1_000);
    let mut r = Timer::new(1_000, true);
    r.tick(1_000);
    assert!(r.finished());
    assert!(r.just_finished());
    assert_eq!(r.elapsed(), 0);
    assert_eq!(r.times_finished_this_tick, 1);
}

#[test]
fn a_timer_that_does_not_repeat_stops_at_its_duration() {
    let mut t = Timer::new(1_000, false);
    t.tick(1_500);
    assert_eq!(t.elapsed(), 1_000);
    assert!(t.finished() && t.just_finished());
    t.tick(500);
    assert_eq!(t.elapsed(), 1_000);
    assert!(t.finished());
    assert!(!t.just_finished());
}

#[test]
fn a_repeating_timer_wraps_around() {
    let mut t = Timer::new(1_000, true);
    t.tick(1_500);
    assert_eq!(t.elapsed(), 500);
    assert!(t.finished() && t.just_finished());
    assert_eq!(t.times_finished_this_tick, 1);
    t.tick(100);
    assert_eq!(t.elapsed(), 600);
    assert!(!t.finished() && !t.just_finished());
    t.tick(3_400);
    assert_eq!(t.elapsed(), 0);
    assert_eq!(t.times_finished_this_tick, 4);
}

#[test]
fn reset_starts_over_and_keeps_the_duration() {
    let mut t = Timer::new(1_000, false);
    t.tick(2_000);
    t.reset();
    assert_eq!(t, Timer::new(1_000, false));
}

#[test]
fn set_duration_changes_nothing_else() {
    let mut t = Timer::new(1_000, true);
    t.tick(700);
    t.set_duration(500);
    assert_eq!(t.duration(), 500);
    assert_eq!(t.elapsed(), 700);
    assert!(!t.finished());
    t.tick(0);
    assert!(t.finished());
    assert_eq!(t.elapsed(), 200);
}

#[test]
fn a_timer_that_does_not_repeat_can_always_be_ticked() {
    for duration in [0, 1, 1_000, u64::MAX] {
        for delta in [0, 1, 1_000, u64::MAX] {
            assert!(Timer::new(duration, false).is_tickable(delta));
        }
    }
    let mut t = Timer::new(0, false);
    t.tick(0);
    assert!(t.finished() && t.just_finished());
    assert_eq!(t.elapsed(), 0);
    t.tick(17);
    assert!(t.finished() && !t.just_finished());
}

#[test]
fn a_repeating_timer_needs_a_duration_to_count_by() {
    assert!(!Timer::new(0, true).is_tickable(0));
    assert!(!Timer::new(0, true).is_tickable(17));
    assert!(Timer::new(1, true).is_tickable(0));
    assert!(Timer::new(1, true).is_tickable(17));
}

#[test]
fn the_count_of_a_repeating_timer_must_fit() {
    let max = u32::MAX as u64;
    assert!(Timer::new(1, true).is_tickable(max));
    assert!(!Timer::new(1, true).is_tickable(max + 1));
    assert!(!Timer::new(1, true).is_tickable(u64::MAX));
    assert!(Timer::new(10, true).is_tickable(10 * max + 9));
    assert!(!Timer::new(10, true).is_tickable(10 * max + 10));
    let mut t = Timer::new(10, true);
    t.tick(9);
    assert!(t.is_tickable(10 * max));
    assert!(!t.is_tickable(10 * max + 1));
    t.tick(10 * max);
    assert_eq!(t.times_finished_this_tick, u32::MAX);
    assert_eq!(t.elapsed(), 9);
}

#[test]
fn a_tick_cannot_overflow() {
    let mut t = Timer::new(u64::MAX, true);
    t.tick(u64::MAX - 1);
    assert!(!t.finished());
    t.tick(u64::MAX);
    assert!(t.finished());
    assert_eq!(t.elapsed(), u64::MAX - 1);
    assert_eq!(t.times_finished_this_tick, 1);
}

fn same_state(ours: &Timer, theirs: &bevy::time::Timer) {
    assert_eq!(ours.finished(), theirs.finished());
    assert_eq!(ours.just_finished(), theirs.just_finished());
    assert_eq!(ours.elapsed() as u128, theirs.elapsed().as_nanos());
    assert_eq!(ours.duration() as u128, theirs.duration().as_nanos());
    assert_eq!(ours.times_finished_this_tick, theirs.times_finished_this_tick());
}

#[test]
fn a_finished_timer_stays_finished_through_the_engine() {
    let mut t = Timer::new(1_000, false);
    t.tick(1_000);
    for _ in 0..3 {
        t.tick(400);
        assert!(t.finished());
        assert!(!t.just_finished());
        assert_eq!(t.elapsed(), 1_000);
    }
    let rested = Timer { elapsed: 3, finished: true, ..Timer::new(1_000, false) };
    let mut t = rested;
    t.tick(5_000);
    assert_eq!(t, rested);
}

#[test]
fn ticks_agree_with_the_engine_timer() {
    let deltas: [u64; 12] = [0, 1, 16_666_667, 100, 999, 1_000, 1_001, 250_000_000, 7, 3_000, 1, 0];
    for repeating in [false, true] {
        for duration in [1u64, 5, 1_000, 300_000_000, 1_000_000_000] {
            let mut ours = Timer::new(duration, repeating);
            let mut theirs = bevy::time::Timer::new(Duration::from_nanos(duration), repeating);
            same_state(&ours, &theirs);
            for round in 0..4 {
                for delta in deltas {
                    ours.tick(delta);
                    theirs.tick(Duration::from_nanos(delta));
                    same_state(&ours, &theirs);
                }
                if round == 1 {
                    ours.reset();
                    theirs.reset();
                    same_state(&ours, &theirs);
                }
                if round == 2 {
                    ours.set_duration(duration / 2 + 1);
                    theirs.set_duration(Duration::from_nanos(duration / 2 + 1));
                    same_state(&ours, &theirs);
                }
            }
        }
    }
}
