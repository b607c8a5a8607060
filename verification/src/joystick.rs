//! The sampling and report loop's per-cycle computation.
//!
//! Once per short fixed period the loop samples three analog channels and
//! two digital inputs, maps them into one report, hands the report to the
//! transmit path, advances the cycle counter and drives the indicators
//! from it. Sampling, transmitting and waiting are suspension points that
//! live outside this crate; the whole of one cycle's computation stands
//! here. A failed sample or a failed transmit is skipped — the next
//! cycle's fresh data supersedes it — and the loop never terminates.

use crate::indicators::advance_counter;
use crate::indicators::indicator_on;
use crate::indicators::indicator_states;
use crate::indicators::next_counter;
use crate::indicators::INDICATOR_COUNT;
use crate::report::ControlPanelReport;
use crate::sampling::axis_spec;
use crate::sampling::axis_value;
use crate::sampling::switch_spec;
use crate::sampling::switch_value;
use crate::sampling::Polarity;
use vstd::prelude::*;

verus! {

/// Milliseconds between cycles: short enough for input latency, long
/// enough for the endpoint's bandwidth.
pub const CYCLE_PERIOD_MS: u64 = 1;

/// A failed analog sample is replaced by the converter's zero value and
/// the cycle goes on.
pub open spec fn sample_or_default(s: Option<u16>) -> u16 {
    match s {
        Some(v) => v,
        None => 0,
    }
}

/// The report one cycle produces from its samples, with the polarities
/// this device declares: x and x2 inverted, y direct, y2 constant zero,
/// and the two switches in the fixed active-is-zero convention.
pub open spec fn report_of_samples(
    vx: Option<u16>,
    vy: Option<u16>,
    vz: Option<u16>,
    s1_active: bool,
    s2_active: bool,
) -> ControlPanelReport {
    ControlPanelReport {
        x: axis_spec(sample_or_default(vx), Polarity::Inverted) as i8,
        y: axis_spec(sample_or_default(vy), Polarity::Direct) as i8,
        x2: axis_spec(sample_or_default(vz), Polarity::Inverted) as i8,
        y2: 0,
        s1: switch_spec(s1_active),
        s2: switch_spec(s2_active),
    }
}

/// Builds one cycle's report from its samples.
pub fn build_report(
    vx: Option<u16>,
    vy: Option<u16>,
    vz: Option<u16>,
    s1_active: bool,
    s2_active: bool,
) -> (r: ControlPanelReport)
    ensures
        r == report_of_samples(vx, vy, vz, s1_active, s2_active),
{
    let rx: u16 = match vx {
        Some(v) => v,
        None => 0,
    };
    let ry: u16 = match vy {
        Some(v) => v,
        None => 0,
    };
    let rz: u16 = match vz {
        Some(v) => v,
        None => 0,
    };
    ControlPanelReport {
        x: axis_value(rx, Polarity::Inverted),
        y: axis_value(ry, Polarity::Direct),
        x2: axis_value(rz, Polarity::Inverted),
        y2: 0,
        s1: switch_value(s1_active),
        s2: switch_value(s2_active),
    }
}

/// The state the sampling loop carries between cycles: the wrapping cycle
/// counter the indicators are driven from.
pub struct JoystickRunner {
    pub counter: u16,
}

impl JoystickRunner {
    /// A fresh loop state, counter at zero.
    pub fn new() -> (j: JoystickRunner)
        ensures
            j.counter == 0,
    {
        JoystickRunner { counter: 0 }
    }

    /// One cycle's computation, in the loop's fixed order: the report from
    /// this cycle's samples, then the counter advanced by one, then the
    /// six indicator levels for the advanced counter.
    pub fn step(
        &mut self,
        vx: Option<u16>,
        vy: Option<u16>,
        vz: Option<u16>,
        s1_active: bool,
        s2_active: bool,
    ) -> (r: (ControlPanelReport, Vec<bool>))
        ensures
            r.0 == report_of_samples(vx, vy, vz, s1_active, s2_active),
            final(self).counter == next_counter(old(self).counter),
            r.1@.len() == INDICATOR_COUNT,
            forall|k: int|
                0 <= k < INDICATOR_COUNT ==> r.1@[k] == indicator_on(final(self).counter, k),
    {
        let report = build_report(vx, vy, vz, s1_active, s2_active);
        self.counter = advance_counter(self.counter);
        let leds = indicator_states(self.counter);
        (report, leds)
    }
}

} // verus!
