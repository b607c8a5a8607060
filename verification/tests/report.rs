use control_panel::report::{encode_i8, ControlPanelReport};

#[test]
fn serialize_is_six_bytes_in_field_order() {
    let r = ControlPanelReport { x: 1, y: -1, x2: -128, y2: 127, s1: 0, s2: 255 };
    assert_eq!(r.serialize(), vec![1, 255, 128, 127, 0, 255]);
}

#[test]
fn serialize_zero_report() {
    let r = ControlPanelReport { x: 0, y: 0, x2: 0, y2: 0, s1: 0, s2: 0 };
    assert_eq!(r.serialize(), vec![0, 0, 0, 0, 0, 0]);
}

#[test]
fn signed_fields_use_twos_complement() {
    assert_eq!(encode_i8(0), 0);
    assert_eq!(encode_i8(127), 0x7F);
    assert_eq!(encode_i8(-1), 0xFF);
    assert_eq!(encode_i8(-128), 0x80);
}
