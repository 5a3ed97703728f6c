use sysview::pacing::{PacingState, INITIAL_TICK_MS, MAX_TICK_MS, MIN_TICK_MS};

#[test]
fn slow_frames_climb_to_ceiling() {
    let mut p = PacingState::new();
    assert_eq!(p.interval_ms(), INITIAL_TICK_MS);
    p.adjust(44);
    assert_eq!(p.interval_ms(), 60);
    for _ in 0..100 {
        p.adjust(80);
        assert!(p.interval_ms() <= MAX_TICK_MS);
    }
    assert_eq!(p.interval_ms(), MAX_TICK_MS);
}

#[test]
fn fast_frames_fall_to_floor() {
    let mut p = PacingState::new();
    p.adjust(27);
    assert_eq!(p.interval_ms(), 45);
    for _ in 0..100 {
        p.adjust(1);
        assert!(p.interval_ms() >= MIN_TICK_MS);
    }
    assert_eq!(p.interval_ms(), MIN_TICK_MS);
}

#[test]
fn frames_near_target_leave_interval() {
    let mut p = PacingState::new();
    for f in [28, 33, 43] {
        p.adjust(f);
        assert_eq!(p.interval_ms(), INITIAL_TICK_MS);
    }
}

#[test]
fn wait_and_tick_due() {
    let p = PacingState::new();
    assert_eq!(p.wait_ms(0), 50);
    assert_eq!(p.wait_ms(20), 30);
    assert_eq!(p.wait_ms(70), 0);
    assert!(!p.tick_due(49));
    assert!(p.tick_due(50));
}
