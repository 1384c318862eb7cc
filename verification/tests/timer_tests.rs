use survivor_core::timer::{Timer, TimerMode};

#[test]
fn once_timer_fires_exactly_once_per_reset() {
    let mut t = Timer::new(1000, TimerMode::Once);
    t.advance(400);
    assert!(!t.just_finished());
    t.advance(400);
    assert!(!t.just_finished());
    t.advance(400);
    assert!(t.just_finished());
    t.advance(400);
    assert!(!t.just_finished());
    t.advance(5000);
    assert!(!t.just_finished());
    t.reset();
    t.advance(1000);
    assert!(t.just_finished());
    t.advance(1);
    assert!(!t.just_finished());
}

#[test]
fn once_timer_elapsed_caps_at_duration() {
    let mut t = Timer::new(250, TimerMode::Once);
    t.advance(100);
    assert_eq!(t.elapsed_ms(), 100);
    t.advance(400);
    assert_eq!(t.elapsed_ms(), 250);
}

#[test]
fn repeating_timer_fires_at_every_multiple() {
    let mut t = Timer::new(300, TimerMode::Repeating);
    let mut fired_at: Vec<u64> = Vec::new();
    let mut now: u64 = 0;
    for _ in 0..30 {
        t.advance(100);
        now += 100;
        if t.just_finished() {
            fired_at.push(now);
        }
    }
    assert_eq!(fired_at, vec![300, 600, 900, 1200, 1500, 1800, 2100, 2400, 2700, 3000]);
}

#[test]
fn repeating_timer_never_skips_for_dt_equal_duration() {
    let mut t = Timer::new(500, TimerMode::Repeating);
    for _ in 0..10 {
        t.advance(500);
        assert!(t.just_finished());
    }
}

#[test]
fn repeating_timer_wraps_elapsed_modulo_duration() {
    let mut t = Timer::new(300, TimerMode::Repeating);
    t.advance(250);
    assert_eq!(t.elapsed_ms(), 250);
    t.advance(100);
    assert!(t.just_finished());
    assert_eq!(t.elapsed_ms(), 50);
}
