use platformer_core::timer::RepeatingTimer;

#[test]
fn new_timer_starts_empty() {
    let t = RepeatingTimer::new(2_000);
    assert_eq!(t.duration_ms, 2_000);
    assert_eq!(t.elapsed_ms, 0);
}

#[test]
fn ticks_accumulate_until_the_duration() {
    let mut t = RepeatingTimer::new(2_000);
    assert!(!t.tick(500));
    assert_eq!(t.elapsed_ms, 500);
    assert!(!t.tick(1_499));
    assert_eq!(t.elapsed_ms, 1_999);
    assert!(t.tick(1));
    assert_eq!(t.elapsed_ms, 0);
}

#[test]
fn excess_time_rolls_into_the_next_lap() {
    let mut t = RepeatingTimer::new(2_000);
    assert!(t.tick(2_500));
    assert_eq!(t.elapsed_ms, 500);
}

#[test]
fn a_tick_spanning_laps_keeps_only_the_remainder() {
    let mut t = RepeatingTimer::new(2_000);
    assert!(t.tick(4_500));
    assert_eq!(t.elapsed_ms, 500);
}

#[test]
fn finishing_exactly_on_the_duration() {
    let mut t = RepeatingTimer::new(2_000);
    assert!(t.tick(2_000));
    assert_eq!(t.elapsed_ms, 0);
}
