use control_panel::hid::{HidReportId, MyRequestHandler, SetReportResponse};

#[test]
fn get_report_answers_no_data_and_leaves_the_buffer() {
    let mut h = MyRequestHandler {};
    let mut buf = vec![7u8, 7, 7, 7];
    assert_eq!(h.get_report(HidReportId::Input(1), &mut buf), None);
    assert_eq!(h.get_report(HidReportId::Feature(0), &mut buf), None);
    assert_eq!(buf, vec![7u8, 7, 7, 7]);
}

#[test]
fn set_report_accepts_any_payload() {
    let mut h = MyRequestHandler {};
    assert_eq!(
        h.set_report(HidReportId::Output(0), &[]),
        SetReportResponse::Accepted
    );
    assert_eq!(
        h.set_report(HidReportId::Feature(3), &[1, 2, 3, 255]),
        SetReportResponse::Accepted
    );
}

#[test]
fn idle_rate_is_never_persisted() {
    let mut h = MyRequestHandler {};
    h.set_idle_ms(Some(HidReportId::Input(1)), 500);
    assert_eq!(h.get_idle_ms(Some(HidReportId::Input(1))), None);
    assert_eq!(h.get_idle_ms(None), None);
}
