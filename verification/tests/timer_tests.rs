use arcade_core::timer::{Timer, TimerMode};

#[test]
fn once_timer_crosses_duration_exactly_once() {
    let mut t = Timer::new(160, TimerMode::Once);
    assert!(!t.finished());
    assert!(!t.just_finished());

    t.tick(100);
    assert!(!t.finished());
    assert!(!t.just_finished());
    assert_eq!(t.elapsed_ms, 100);

    t.tick(60);
    assert!(t.finished());
    assert!(t.just_finished());
    assert_eq!(t.elapsed_ms, 160);

    t.tick(10);
    assert!(t.finished());
    assert!(!t.just_finished());
    assert_eq!(t.elapsed_ms, 160);
}

#[test]
fn once_timer_overshoot_clamps() {
    let mut t = Timer::new(160, TimerMode::Once);
    t.tick(1000);
    assert!(t.finished());
    assert!(t.just_finished());
    assert_eq!(t.elapsed_ms, 160);
}

#[test]
fn repeating_timer_wraps_and_counts_cycles() {
    let mut t = Timer::new(500, TimerMode::Repeating);

    t.tick(1200);
    assert_eq!(t.cycles_this_tick, 2);
    assert!(t.just_finished());
    assert!(t.finished());
    assert_eq!(t.elapsed_ms, 200);

    t.tick(300);
    assert_eq!(t.cycles_this_tick, 1);
    assert!(t.just_finished());
    assert_eq!(t.elapsed_ms, 0);

    t.tick(499);
    assert_eq!(t.cycles_this_tick, 0);
    assert!(!t.just_finished());
    assert!(!t.finished());
    assert_eq!(t.elapsed_ms, 499);
}

#[test]
fn zero_delta_raises_no_edge() {
    let mut t = Timer::new(160, TimerMode::Once);
    t.tick(0);
    assert!(!t.finished());
    assert!(!t.just_finished());

    let mut r = Timer::new(500, TimerMode::Repeating);
    r.tick(0);
    assert!(!r.just_finished());
}

#[test]
fn reset_rewinds_the_timer() {
    let mut t = Timer::new(500, TimerMode::Repeating);
    t.tick(700);
    assert!(t.just_finished());
    t.reset();
    assert_eq!(t.elapsed_ms, 0);
    assert!(!t.just_finished());
    assert_eq!(t.duration_ms, 500);
    assert_eq!(t.mode, TimerMode::Repeating);
}
