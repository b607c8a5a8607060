use control_panel::sampling::Polarity;
use control_panel::sampling::{axis_value, switch_value};

#[test]
fn axis_center_maps_to_zero() {
    assert_eq!(axis_value(2048, Polarity::Direct), 0);
    assert_eq!(axis_value(2048, Polarity::Inverted), 0);
}

#[test]
fn axis_full_scale() {
    assert_eq!(axis_value(4095, Polarity::Direct), 127);
    assert_eq!(axis_value(4095, Polarity::Inverted), -127);
}

#[test]
fn axis_zero_sample() {
    assert_eq!(axis_value(0, Polarity::Direct), -128);
    // the lower boundary of an inverted axis saturates instead of wrapping
    assert_eq!(axis_value(0, Polarity::Inverted), 127);
}

#[test]
fn axis_low_inverted_band_saturates() {
    // every sample below 16 centers to -128; inverted it saturates at 127
    assert_eq!(axis_value(15, Polarity::Inverted), 127);
    assert_eq!(axis_value(16, Polarity::Inverted), 127);
    assert_eq!(axis_value(32, Polarity::Inverted), 126);
}

#[test]
fn axis_oversized_sample_saturates() {
    assert_eq!(axis_value(u16::MAX, Polarity::Direct), 127);
    assert_eq!(axis_value(u16::MAX, Polarity::Inverted), -128);
}

#[test]
fn switch_levels() {
    assert_eq!(switch_value(true), 0);
    assert_eq!(switch_value(false), 255);
}
