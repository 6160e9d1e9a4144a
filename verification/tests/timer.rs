use pomodoro::timer::{PomodoroTimer, Segment, WakePolicy, phase_total_duration};

#[test]
fn initial_state() {
    let t = PomodoroTimer::new();
    assert_eq!(t.remaining_secs(), 1500);
    assert!(!t.is_break());
    assert_eq!(t.completed_count(), 0);
    assert!(!t.is_running());
    assert_eq!(t.indicator_count(), 0);
}

#[test]
fn default_matches_new() {
    let t = PomodoroTimer::default();
    assert_eq!(t.remaining_secs(), 1500);
    assert!(!t.is_break());
    assert_eq!(t.completed_count(), 0);
    assert!(!t.is_running());
}

#[test]
fn phase_totals() {
    assert_eq!(phase_total_duration(false), 25 * 60);
    assert_eq!(phase_total_duration(true), 5 * 60);
}

#[test]
fn start_then_tick_same_instant_keeps_remaining() {
    let mut t = PomodoroTimer::new();
    t.start(42);
    let w = t.tick(42);
    assert_eq!(t.remaining_secs(), 1500);
    assert!(t.is_running());
    assert!(!t.is_break());
    assert_eq!(w, WakePolicy::RepaintNow);
}

#[test]
fn scenario_work_expiry() {
    let mut t = PomodoroTimer::new();
    assert_eq!(t.remaining_secs(), 1500);
    t.start(0);
    t.tick(1500);
    assert!(t.is_break());
    assert_eq!(t.remaining_secs(), 300);
    assert_eq!(t.completed_count(), 1);
    assert!(!t.is_running());
}

#[test]
fn scenario_short_tick() {
    let mut t = PomodoroTimer::new();
    t.start(0);
    t.tick(10);
    assert_eq!(t.remaining_secs(), 1490);
    assert!(t.is_running());
    assert!(!t.is_break());
}

#[test]
fn scenario_pause_then_reset() {
    let mut t = PomodoroTimer::new();
    t.start(0);
    t.tick(10);
    assert_eq!(t.remaining_secs(), 1490);
    t.pause();
    assert!(!t.is_running());
    assert_eq!(t.remaining_secs(), 1490);
    t.reset();
    assert_eq!(t.remaining_secs(), 1500);
    assert!(!t.is_running());
    assert!(!t.is_break());
}

#[test]
fn scenario_four_full_cycles() {
    let mut t = PomodoroTimer::new();
    let mut now: u64 = 0;
    for _ in 0..4 {
        // Full work phase.
        t.start(now);
        now += 1500;
        t.tick(now);
        assert!(t.is_break());
        // Full break phase.
        t.start(now);
        now += 300;
        t.tick(now);
        assert!(!t.is_break());
    }
    assert_eq!(t.completed_count(), 4);
    assert_eq!(t.indicator_count(), 0);
}

#[test]
fn ticks_after_expiry_change_nothing() {
    let mut t = PomodoroTimer::new();
    t.start(0);
    t.tick(1500);
    assert!(t.is_break());
    assert_eq!(t.completed_count(), 1);
    for step in 1..5u64 {
        let w = t.tick(1500 + step * 100);
        assert_eq!(w, WakePolicy::Idle);
        assert!(t.is_break());
        assert_eq!(t.completed_count(), 1);
        assert_eq!(t.remaining_secs(), 300);
        assert!(!t.is_running());
    }
}

#[test]
fn break_expiry_does_not_increment() {
    let mut t = PomodoroTimer::new();
    t.start(0);
    t.tick(1500);
    assert_eq!(t.completed_count(), 1);
    t.start(1500);
    t.tick(1800);
    assert!(!t.is_break());
    assert_eq!(t.remaining_secs(), 1500);
    assert_eq!(t.completed_count(), 1);
    assert!(!t.is_running());
}

#[test]
fn indicator_cycles_over_eight_phases() {
    let mut t = PomodoroTimer::new();
    let mut now: u64 = 0;
    let expected: [u32; 8] = [1, 2, 3, 0, 1, 2, 3, 0];
    for (i, want) in expected.iter().enumerate() {
        t.start(now);
        now += 1500;
        t.tick(now);
        assert_eq!(t.completed_count(), i as u32 + 1);
        assert_eq!(t.indicator_count(), *want);
        t.start(now);
        now += 300;
        t.tick(now);
    }
}

#[test]
fn reset_during_break_stays_in_break() {
    let mut t = PomodoroTimer::new();
    t.start(0);
    t.tick(1500);
    assert!(t.is_break());
    t.start(1500);
    t.tick(1510);
    assert_eq!(t.remaining_secs(), 290);
    t.reset();
    assert!(t.is_break());
    assert_eq!(t.remaining_secs(), 300);
    assert!(!t.is_running());
    assert_eq!(t.completed_count(), 1);
}

#[test]
fn reset_while_running_stops() {
    let mut t = PomodoroTimer::new();
    t.start(0);
    t.tick(700);
    assert!(t.is_running());
    t.reset();
    assert!(!t.is_running());
    assert_eq!(t.remaining_secs(), 1500);
}

#[test]
fn tick_while_idle_is_a_noop() {
    let mut t = PomodoroTimer::new();
    let w = t.tick(12345);
    assert_eq!(w, WakePolicy::Idle);
    assert_eq!(t.remaining_secs(), 1500);
    assert!(!t.is_running());
    assert!(!t.is_break());
    assert_eq!(t.completed_count(), 0);
}

#[test]
fn clock_sample_before_start_counts_as_no_time() {
    let mut t = PomodoroTimer::new();
    t.start(100);
    let w = t.tick(50);
    assert_eq!(t.remaining_secs(), 1500);
    assert!(t.is_running());
    assert_eq!(w, WakePolicy::RepaintNow);
}

#[test]
fn progress_ratio_bounds() {
    let mut t = PomodoroTimer::new();
    let (num, den) = t.progress_ratio();
    assert_eq!(num, 1500);
    assert_eq!(den, 1500);
    t.start(0);
    t.tick(600);
    let (num, den) = t.progress_ratio();
    assert_eq!(num, 900);
    assert_eq!(den, 1500);
    t.tick(1500);
    let (num, den) = t.progress_ratio();
    assert_eq!(num, 300);
    assert_eq!(den, 300);
}

#[test]
fn resume_after_pause_keeps_partial_remaining() {
    let mut t = PomodoroTimer::new();
    t.start(0);
    t.tick(1000);
    t.pause();
    assert_eq!(t.remaining_secs(), 500);
    t.start(2000);
    t.tick(2400);
    assert_eq!(t.remaining_secs(), 100);
    t.tick(2500);
    assert!(t.is_break());
    assert_eq!(t.completed_count(), 1);
}

#[test]
fn segment_captures_start_state() {
    let mut t = PomodoroTimer::new();
    t.start(0);
    t.tick(700);
    t.pause();
    t.start(900);
    let seg: Segment = t.segment.unwrap();
    assert_eq!(seg.started_at, 900);
    assert_eq!(seg.duration, 800);
}
