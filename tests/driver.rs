use systick_driver::clock::{compare_value, period_for, ticks};
use systick_driver::{AlarmState, SystickDriver, CLOCK_DIVIDER, NO_DEADLINE};

fn driver_with_period(period: u64) -> SystickDriver<u32> {
    let mut d = SystickDriver::new();
    d.configure(period * CLOCK_DIVIDER * 1000, 1000);
    assert_eq!(d.period(), period);
    d
}

#[test]
fn new_driver_is_disarmed_with_placeholder_period() {
    let d: SystickDriver<u32> = SystickDriver::new();
    assert_eq!(d.period(), 1);
    assert_eq!(d.deadline(), NO_DEADLINE);
    assert_eq!(d.now(1234), 1234);
}

#[test]
fn alarm_state_starts_disarmed() {
    assert_eq!(AlarmState::new().timestamp, u64::MAX);
}

#[test]
fn period_divides_by_eight_then_by_tick_rate() {
    assert_eq!(period_for(8_000_000, 1000), 1000);
    assert_eq!(period_for(144_000_000, 1_000_000), 18);
    assert_eq!(period_for(7_999_999, 1_000_000), 0);
    assert_eq!(period_for(15, 1), 1);
}

#[test]
fn init_uses_runtime_tick_rate() {
    let mut d: SystickDriver<u32> = SystickDriver::new();
    assert!(d.init(48_000_000));
    assert_eq!(d.period(), 48_000_000 / 8 / embassy_time_driver::TICK_HZ);
    assert!(d.period() > 0);
}

#[test]
fn init_with_too_slow_clock_keeps_placeholder() {
    let mut d: SystickDriver<u32> = SystickDriver::new();
    assert!(!d.init(7));
    assert_eq!(d.period(), 1);
}

#[test]
fn now_truncates() {
    let d = driver_with_period(1000);
    assert_eq!(d.now(0), 0);
    assert_eq!(d.now(999), 0);
    assert_eq!(d.now(1000), 1);
    assert_eq!(d.now(5999), 5);
    assert_eq!(ticks(2500, 1000), 2);
}

#[test]
fn now_never_decreases() {
    let d = driver_with_period(7);
    let mut last = 0;
    for raw in (0u64..10_000).step_by(3) {
        let t = d.now(raw);
        assert!(t >= last);
        last = t;
    }
}

#[test]
fn compare_value_picks_the_sooner() {
    assert_eq!(compare_value(5, 1000, 500), 1501);
    assert_eq!(compare_value(1, 1000, 500), 1001);
    assert_eq!(compare_value(NO_DEADLINE, 1000, 500), 1501);
    assert_eq!(compare_value(u64::MAX / 2, 3, 10), 14);
    assert_eq!(compare_value(0, 1000, 42), 1);
}

#[test]
fn compare_value_never_exceeds_one_period_ahead() {
    for raw in [0u64, 1, 999, 123_456, u64::MAX / 2] {
        for target in [0u64, 1, 2, 500, 1 << 40, u64::MAX] {
            assert!(compare_value(target, 1000, raw) <= raw + 1000 + 1);
        }
    }
}

#[test]
fn scenario_period_thousand_deadline_five() {
    let mut d = driver_with_period(1000);
    let cmp = d.schedule_wake(5, 11, 500);
    assert_eq!(cmp, 1501);
    assert_eq!(d.deadline(), 5);

    let mut raw = cmp;
    let mut woken = Vec::new();
    while raw < 8000 {
        let action = d.on_interrupt(raw);
        assert!(action.compare <= raw + 1000 + 1);
        if let Some(w) = action.wake {
            woken.push((w, raw));
        }
        raw = action.compare;
    }
    assert_eq!(woken.len(), 1);
    assert_eq!(woken[0].0, 11);
    assert!(woken[0].1 <= 5000);
    assert!(d.now(woken[0].1) + 1 >= 5);
    assert_eq!(d.deadline(), NO_DEADLINE);
}

#[test]
fn not_due_interrupt_keeps_deadline() {
    let mut d = driver_with_period(1000);
    d.schedule_wake(5, 11, 500);
    let action = d.on_interrupt(3503);
    assert_eq!(action.wake, None);
    assert_eq!(action.compare, 4504);
    assert_eq!(d.deadline(), 5);
    let action = d.on_interrupt(4504);
    assert_eq!(action.wake, Some(11));
    assert_eq!(action.compare, 5505);
    assert_eq!(d.deadline(), NO_DEADLINE);
}

#[test]
fn back_to_back_schedule_only_second_wakes() {
    let mut d = driver_with_period(1000);
    d.schedule_wake(10, 1, 0);
    let cmp = d.schedule_wake(3, 2, 100);
    assert_eq!(cmp, 1101);
    assert_eq!(d.deadline(), 3);
    let mut woken = Vec::new();
    let mut raw = cmp;
    while raw < 20_000 {
        let action = d.on_interrupt(raw);
        if let Some(w) = action.wake {
            woken.push(w);
        }
        raw = action.compare;
    }
    assert_eq!(woken, vec![2]);
}

#[test]
fn past_deadline_is_due_at_next_interrupt() {
    let mut d = driver_with_period(100);
    d.schedule_wake(2, 9, 10_000);
    let action = d.on_interrupt(10_001);
    assert_eq!(action.wake, Some(9));
    assert_eq!(action.compare, 10_102);
}

#[test]
fn idle_interrupt_rearms_one_period_ahead() {
    let mut d = driver_with_period(250);
    let action = d.on_interrupt(1000);
    assert_eq!(action.wake, None);
    assert_eq!(action.compare, 1251);
    assert_eq!(d.deadline(), NO_DEADLINE);
}

#[test]
fn waker_fires_only_once() {
    let mut d = driver_with_period(10);
    d.schedule_wake(1, 5, 0);
    assert_eq!(d.on_interrupt(0).wake, Some(5));
    assert_eq!(d.on_interrupt(11).wake, None);
    assert_eq!(d.on_interrupt(1_000_000).wake, None);
}

#[test]
fn deadline_one_tick_ahead_is_due() {
    let mut d = driver_with_period(10);
    d.schedule_wake(6, 3, 0);
    assert_eq!(d.on_interrupt(49).wake, None);
    assert_eq!(d.on_interrupt(50).wake, Some(3));
}
