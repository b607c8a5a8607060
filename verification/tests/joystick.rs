use control_panel::joystick::{build_report, JoystickRunner, CYCLE_PERIOD_MS};

#[test]
fn end_to_end_sample_cycle() {
    // analog vx=2048, vy=0, vz=4095; s1 active, s2 idle
    let r = build_report(Some(2048), Some(0), Some(4095), true, false);
    assert_eq!(r.x, 0);
    assert_eq!(r.y, -128);
    assert_eq!(r.x2, -127);
    assert_eq!(r.y2, 0);
    assert_eq!(r.s1, 0);
    assert_eq!(r.s2, 255);
}

#[test]
fn failed_samples_read_as_zero() {
    let r = build_report(None, None, None, false, false);
    // a zero sample centers to -128; the inverted channels saturate at 127
    assert_eq!(r.x, 127);
    assert_eq!(r.y, -128);
    assert_eq!(r.x2, 127);
    assert_eq!(r.s1, 255);
    assert_eq!(r.s2, 255);
}

#[test]
fn step_advances_counter_and_drives_indicators() {
    let mut j = JoystickRunner::new();
    let (_, leds) = j.step(Some(2048), Some(2048), Some(2048), false, false);
    assert_eq!(j.counter, 1);
    assert_eq!(leds, vec![false; 6]);
    j.step(None, None, None, false, false);
    j.step(None, None, None, false, false);
    let (_, leds) = j.step(None, None, None, false, false);
    assert_eq!(j.counter, 4);
    assert_eq!(leds, vec![true, false, false, false, false, false]);
}

#[test]
fn counter_wraps_without_stopping() {
    let mut j = JoystickRunner { counter: u16::MAX };
    let (_, leds) = j.step(Some(0), Some(0), Some(0), true, true);
    assert_eq!(j.counter, 0);
    assert_eq!(leds, vec![false; 6]);
}

#[test]
fn cycle_period_is_one_millisecond() {
    assert_eq!(CYCLE_PERIOD_MS, 1);
}
