//! The latched alarm and its threshold policy.

use vstd::prelude::*;

use crate::pressure::Pressure;
use crate::sensor::PressureSensor;

verus! {

/// The low end of the safe range, in thousandths of a PSI (17 PSI).
pub const LOW_PRESSURE_THRESHOLD_MILLI_PSI: i64 = 17000;

/// The high end of the safe range, in thousandths of a PSI (21 PSI).
pub const HIGH_PRESSURE_THRESHOLD_MILLI_PSI: i64 = 21000;

/// Holds when a reading raises the alarm: strictly below the low threshold or
/// strictly above the high one. The thresholds themselves are safe.
pub open spec fn pressure_out_of_safe_range(reading: Pressure) -> bool {
    ||| reading@ < LOW_PRESSURE_THRESHOLD_MILLI_PSI as int
    ||| reading@ > HIGH_PRESSURE_THRESHOLD_MILLI_PSI as int
}

/// A reading exactly at either threshold is inside the safe range, so it
/// never raises the alarm.
pub proof fn lemma_boundary_readings_are_safe(reading: Pressure)
    requires
        reading@ == LOW_PRESSURE_THRESHOLD_MILLI_PSI as int
            || reading@ == HIGH_PRESSURE_THRESHOLD_MILLI_PSI as int,
    ensures
        !pressure_out_of_safe_range(reading),
{
}

/// The latched tire-pressure alarm.
///
/// On every [`check`](Alarm::check) it pulls exactly one reading from its
/// sensor and raises the flag if that reading lies strictly outside the safe
/// range `[17, 21]` PSI. The flag is sticky: no later in-range reading, and
/// no operation of this type, ever clears it.
pub struct Alarm<S: PressureSensor> {
    low_pressure_threshold: Pressure,
    high_pressure_threshold: Pressure,
    sensor: S,
    alarm_on: bool,
}

impl<S: PressureSensor> Alarm<S> {
    /// Well-formedness: the thresholds hold their fixed values, 17 and 21
    /// PSI. The constructor establishes it and every operation keeps it.
    pub closed spec fn wf(&self) -> bool {
        &&& self.low_pressure_threshold@ == LOW_PRESSURE_THRESHOLD_MILLI_PSI as int
        &&& self.high_pressure_threshold@ == HIGH_PRESSURE_THRESHOLD_MILLI_PSI as int
    }

    /// Whether the alarm flag is raised.
    pub closed spec fn spec_alarm_on(&self) -> bool {
        self.alarm_on
    }

    /// The sensor the alarm pulls readings from.
    pub closed spec fn spec_sensor(&self) -> S {
        self.sensor
    }

    /// The low threshold, in thousandths of a PSI.
    pub closed spec fn spec_low_threshold(&self) -> int {
        self.low_pressure_threshold@
    }

    /// The high threshold, in thousandths of a PSI.
    pub closed spec fn spec_high_threshold(&self) -> int {
        self.high_pressure_threshold@
    }

    /// Builds an alarm around the given sensor, with the fixed thresholds of
    /// 17 and 21 PSI and the flag down.
    pub fn new(sensor: S) -> (alarm: Alarm<S>)
        ensures
            alarm.wf(),
            !alarm.spec_alarm_on(),
            alarm.spec_sensor() == sensor,
            alarm.spec_low_threshold() == LOW_PRESSURE_THRESHOLD_MILLI_PSI as int,
            alarm.spec_high_threshold() == HIGH_PRESSURE_THRESHOLD_MILLI_PSI as int,
    {
        Alarm {
            low_pressure_threshold: Pressure::from_milli_psi(LOW_PRESSURE_THRESHOLD_MILLI_PSI),
            high_pressure_threshold: Pressure::from_milli_psi(HIGH_PRESSURE_THRESHOLD_MILLI_PSI),
            sensor,
            alarm_on: false,
        }
    }

    /// Pulls exactly one reading from the sensor and raises the flag if that
    /// reading is strictly outside the safe range.
    ///
    /// The last clause is the whole decision rule: for the one reading the
    /// sensor handed out, the flag afterwards is up iff it was already up or
    /// that reading was out of range. With the flag already up, the new
    /// reading cannot matter: the alarm latches.
    pub fn check(&mut self)
        requires
            old(self).wf(),
        ensures
            final(self).wf(),
            old(self).spec_alarm_on() ==> final(self).spec_alarm_on(),
            final(self).spec_low_threshold() == old(self).spec_low_threshold(),
            final(self).spec_high_threshold() == old(self).spec_high_threshold(),
            exists|reading: Pressure|
                #[trigger] old(self).spec_sensor().may_pop(reading, final(self).spec_sensor())
                    && final(self).spec_alarm_on() == (old(self).spec_alarm_on()
                    || pressure_out_of_safe_range(reading)),
    {
        let psi_pressure_value = self.sensor.pop_next_pressure_psi_value();

        if psi_pressure_value.milli_psi() < self.low_pressure_threshold.milli_psi()
            || psi_pressure_value.milli_psi() > self.high_pressure_threshold.milli_psi()
        {
            self.alarm_on = true;
        }
        proof {
            assert(old(self).spec_sensor().may_pop(psi_pressure_value, self.spec_sensor()));
        }
    }

    /// Whether the alarm has latched. A pure read: nothing changes.
    pub fn is_alarm_on(&self) -> (alarm_on: bool)
        ensures
            alarm_on == self.spec_alarm_on(),
    {
        self.alarm_on
    }
}

} // verus!
