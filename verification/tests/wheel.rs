use volume_scroller::wheel::{
    is_wheel_message, wheel_delta, wheel_steps, WheelAccumulator, PRECISION_WHEEL_DELTA,
    WHEEL_DELTA, WM_MOUSEHWHEEL, WM_MOUSEWHEEL,
};

fn steps_from(remainder: i32, delta: i16) -> (i32, i32) {
    let mut pending = remainder;
    let steps = wheel_steps(&mut pending, delta);
    (steps, pending)
}

#[test]
fn one_notch_from_rest_is_one_step() {
    assert_eq!(steps_from(0, 120), (1, 0));
    assert_eq!(steps_from(0, -120), (-1, 0));
}

#[test]
fn whole_notches_from_rest_make_that_many_steps() {
    assert_eq!(steps_from(0, 240), (2, 0));
    assert_eq!(steps_from(0, -360), (-3, 0));
    assert_eq!(steps_from(0, 120 * 273), (273, 0));
}

#[test]
fn precision_deltas_accumulate_until_a_step() {
    assert_eq!(steps_from(0, 20), (0, 20));
    assert_eq!(steps_from(20, 20), (1, 10));
    assert_eq!(steps_from(0, 30), (1, 0));
    assert_eq!(steps_from(0, 119), (3, 29));
}

#[test]
fn negative_remainders_round_towards_zero() {
    assert_eq!(steps_from(10, -20), (0, -10));
    assert_eq!(steps_from(-25, -20), (-1, -15));
    assert_eq!(steps_from(-100, 30), (-2, -10));
}

#[test]
fn threshold_follows_the_new_delta() {
    assert_eq!(steps_from(100, 120), (1, 100));
    assert_eq!(steps_from(100, 30), (4, 10));
    assert_eq!(WHEEL_DELTA, 120);
    assert_eq!(PRECISION_WHEEL_DELTA, 30);
}

#[test]
fn extreme_deltas_and_remainders() {
    assert_eq!(steps_from(0, i16::MIN), (-273, -8));
    assert_eq!(steps_from(0, i16::MAX), (273, 7));
    assert_eq!(steps_from(i32::MAX - 10, 10), (71582788, 7));
}

#[test]
fn steps_conserve_the_delta() {
    for remainder in [-119, -45, -1, 0, 1, 29, 31, 119] {
        for delta in [-32768i16, -240, -121, -120, -119, -30, -1, 0, 1, 29, 30, 120, 500, 32767] {
            let (steps, pending) = steps_from(remainder, delta);
            let threshold = if (delta as i32).abs() >= 120 { 120 } else { 30 };
            assert_eq!(steps * threshold + pending, remainder + delta as i32);
            assert!(pending.abs() < threshold);
            assert!(pending == 0 || pending.signum() == (remainder + delta as i32).signum());
        }
    }
}

#[test]
fn wheel_delta_reads_the_high_word() {
    assert_eq!(wheel_delta(0x0078_0000), 120);
    assert_eq!(wheel_delta(0xFF88_0000), -120);
    assert_eq!(wheel_delta(0x8000_1234), i16::MIN);
    assert_eq!(wheel_delta(0x7FFF_FFFF), i16::MAX);
    assert_eq!(wheel_delta(0x0000_FFFF), 0);
}

#[test]
fn only_wheel_messages_with_a_valid_code_are_handled() {
    assert!(is_wheel_message(0, WM_MOUSEWHEEL));
    assert!(is_wheel_message(3, WM_MOUSEHWHEEL));
    assert!(!is_wheel_message(-1, WM_MOUSEWHEEL));
    assert!(!is_wheel_message(0, 0x0200));
    assert_eq!(WM_MOUSEWHEEL, 0x020A);
    assert_eq!(WM_MOUSEHWHEEL, 0x020E);
}

#[test]
fn accumulator_starts_at_rest() {
    let acc = WheelAccumulator::new();
    assert_eq!(acc.vertical_remainder(), 0);
    assert_eq!(acc.horizontal_remainder(), 0);
}

#[test]
fn dispatch_sends_one_event_per_step() {
    let mut acc = WheelAccumulator::new();
    let events = acc.dispatch(WM_MOUSEWHEEL, 240, 5, 6);
    assert_eq!(events.len(), 2);
    for event in &events {
        assert_eq!((event.direction, event.point_x, event.point_y), (1, 5, 6));
    }
    assert_eq!(acc.vertical_remainder(), 0);
    assert_eq!(acc.horizontal_remainder(), 0);
}

#[test]
fn dispatch_keeps_the_wheels_apart() {
    let mut acc = WheelAccumulator::new();
    let events = acc.dispatch(WM_MOUSEWHEEL, 20, 1, 2);
    assert!(events.is_empty());
    assert_eq!(acc.vertical_remainder(), 20);

    let events = acc.dispatch(WM_MOUSEHWHEEL, -40, 7, 8);
    assert_eq!(events.len(), 1);
    assert_eq!((events[0].direction, events[0].point_x, events[0].point_y), (-1, 7, 8));
    assert_eq!(acc.horizontal_remainder(), -10);
    assert_eq!(acc.vertical_remainder(), 20);

    let events = acc.dispatch(WM_MOUSEWHEEL, 20, 3, 4);
    assert_eq!(events.len(), 1);
    assert_eq!(events[0].direction, 1);
    assert_eq!(acc.vertical_remainder(), 10);
    assert_eq!(acc.horizontal_remainder(), -10);
}

#[test]
fn dispatch_of_a_large_negative_turn() {
    let mut acc = WheelAccumulator::new();
    let events = acc.dispatch(WM_MOUSEWHEEL, i16::MIN, 0, 0);
    assert_eq!(events.len(), 273);
    assert!(events.iter().all(|e| e.direction == -1));
    assert_eq!(acc.vertical_remainder(), -8);
}
