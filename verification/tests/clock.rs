use doing_now::clock::{saturate_nanos, Clock};
use doing_now::debounce::{Action, DebounceState, Mode};

#[test]
fn small_counts_are_kept() {
    assert_eq!(saturate_nanos(0), 0);
    assert_eq!(saturate_nanos(1), 1);
    assert_eq!(saturate_nanos(300_000_000), 300_000_000);
    assert_eq!(saturate_nanos(u64::MAX as u128), u64::MAX);
}

#[test]
fn large_counts_saturate() {
    assert_eq!(saturate_nanos(u64::MAX as u128 + 1), u64::MAX);
    assert_eq!(saturate_nanos(1u128 << 100), u64::MAX);
    assert_eq!(saturate_nanos(u128::MAX), u64::MAX);
}

#[test]
fn clock_does_not_run_backwards() {
    let clock = Clock::start();
    let mut last = clock.now();
    let mut i = 0;
    while i < 1000 {
        let now = clock.now();
        assert!(last <= now);
        last = now;
        i += 1;
    }
}

#[test]
fn clock_follows_real_time() {
    let clock = Clock::start();
    let reference = std::time::Instant::now();
    let before = clock.now();
    while reference.elapsed() < std::time::Duration::from_millis(20) {}
    let after = clock.now();
    assert!(after - before >= 19_000_000);
    assert!(after < 15_000_000_000);
}

#[test]
fn two_quick_presses_on_the_clock_are_a_double_press() {
    let clock = Clock::start();
    let mut state = DebounceState::new();
    let (t1, first) = state.on_press_now(&clock);
    assert_eq!(first, Action::ScheduleCheck { token: 1, delay_ms: 300 });
    assert_eq!(state.last_pressed_at(), Some(t1));
    let (t2, second) = state.on_press_now(&clock);
    assert!(t1 <= t2);
    assert_eq!(second, Action::Resolve { mode: Mode::Edit, token: 2 });
    assert_eq!(state.last_pressed_at(), None);
    assert_eq!(state.sequence(), 2);
}

#[test]
fn slow_presses_on_the_clock_are_single_presses() {
    let clock = Clock::start();
    let mut state = DebounceState::new();
    let (t1, first) = state.on_press_now(&clock);
    assert_eq!(first, Action::ScheduleCheck { token: 1, delay_ms: 300 });
    while clock.now() <= t1 + 320_000_000 {}
    let (t2, second) = state.on_press_now(&clock);
    assert_eq!(second, Action::ScheduleCheck { token: 2, delay_ms: 300 });
    assert_eq!(state.last_pressed_at(), Some(t2));
    assert_eq!(state.deferred_check(1), Action::Ignore);
    assert_eq!(
        state.deferred_check(2),
        Action::Resolve { mode: Mode::Emphasis, token: 2 }
    );
}
