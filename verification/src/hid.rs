//! The HID control-request handler.
//!
//! The joystick function must answer four standard control transfers to
//! satisfy host enumeration. This device maintains no readable report cache
//! and no idle rate, so the handler is a minimal compliant stub: every
//! query is answered with the safe default and every SET_REPORT payload is
//! accepted and discarded. That is a deliberate simplification for hosts
//! that never rely on GET_REPORT or idle-rate behaviour, not a defect.

use vstd::prelude::*;

verus! {

/// Identifier of a HID report inside a control transfer, as the host names
/// it: report number and direction.
#[derive(Clone, Copy, PartialEq, Eq, Structural, Debug)]
pub enum HidReportId {
    Input(u8),
    Output(u8),
    Feature(u8),
}

/// The device's answer to a SET_REPORT transfer.
#[derive(Clone, Copy, PartialEq, Eq, Structural, Debug)]
pub enum SetReportResponse {
    Accepted,
    Rejected,
}

/// The always-safe-default control-request handler. It holds no state:
/// nothing a request carries is ever persisted.
#[derive(Clone, Copy, PartialEq, Eq, Structural, Debug)]
pub struct MyRequestHandler {}

impl MyRequestHandler {
    /// GET_REPORT: the device keeps no report cache, so the answer is
    /// always "no data", whatever the report id; the host's buffer is left
    /// untouched.
    pub fn get_report(&mut self, id: HidReportId, buf: &mut Vec<u8>) -> (r: Option<usize>)
        ensures
            r is None,
            *final(self) == *old(self),
            *final(buf) == *old(buf),
    {
        None
    }

    /// SET_REPORT: accepted unconditionally, whatever the report id and
    /// payload; the payload is discarded.
    pub fn set_report(&mut self, id: HidReportId, data: &[u8]) -> (r: SetReportResponse)
        ensures
            r is Accepted,
            *final(self) == *old(self),
    {
        SetReportResponse::Accepted
    }

    /// SET_IDLE: no idle rate is persisted or enforced.
    pub fn set_idle_ms(&mut self, id: Option<HidReportId>, duration_ms: u32)
        ensures
            *final(self) == *old(self),
    {
    }

    /// GET_IDLE: the idle rate is always "unspecified", whatever the
    /// report id.
    pub fn get_idle_ms(&mut self, id: Option<HidReportId>) -> (r: Option<u32>)
        ensures
            r is None,
            *final(self) == *old(self),
    {
        None
    }
}

} // verus!
