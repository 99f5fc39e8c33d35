//! The sensor capability that the alarm pulls readings from, with two
//! conforming implementations: a pseudo-random demonstration sensor and a
//! scripted sensor that replays a fixed list of readings.

use vstd::prelude::*;

use crate::pressure::Pressure;

verus! {

/// The fixed offset of the random sensor, in thousandths of a PSI (16 PSI).
pub const RANDOM_SENSOR_OFFSET_MILLI_PSI: i64 = 16000;

/// The half-open width of the random sensor's output range, in thousandths of
/// a PSI (6 PSI): a sample always lands in `[offset, offset + span)`.
pub const RANDOM_SENSOR_SPAN_MILLI_PSI: i64 = 6000;

/// A source of pressure readings.
///
/// Anything that can hand out "the next reading" on demand satisfies this
/// capability. `may_pop` is the implementation's model: it says which readings
/// a sensor in a given state may hand out, and which state it is in
/// afterwards. A scripted sensor pins the reading exactly; the random sensor
/// only bounds it.
pub trait PressureSensor: Sized {
    /// Holds when a sensor in state `self` may hand out `reading` and be left
    /// in state `next`.
    spec fn may_pop(self, reading: Pressure, next: Self) -> bool;

    /// Produces the next pressure reading, advancing whatever internal state
    /// the implementation uses to decide what comes next.
    fn pop_next_pressure_psi_value(&mut self) -> (reading: Pressure)
        ensures
            old(self).may_pop(reading, *final(self)),
    ;
}

/// Relies on `rand::random::<u32>`: draws one sample of the uniform
/// `StandardUniform` distribution from the thread-local generator. Nothing is
/// promised of which value comes back.
#[verifier::external_body]
fn random_u32() -> u32 {
    rand::random::<u32>()
}

/// The reference demonstration sensor: each reading is the fixed offset plus
/// a random span in `[0, 6)` PSI, the product of two independent uniform
/// samples of `[0, 1)` scaled by 6 PSI, so readings skew toward the low end
/// of `[16, 22)` PSI.
pub struct RandomPressureSensor {
    offset: Pressure,
}

impl RandomPressureSensor {
    #[verifier::type_invariant]
    spec fn offset_is_fixed(&self) -> bool {
        self.offset@ == RANDOM_SENSOR_OFFSET_MILLI_PSI as int
    }

    /// The sensor's fixed offset, in thousandths of a PSI.
    pub closed spec fn spec_offset(&self) -> int {
        self.offset@
    }

    /// Builds the sensor with its fixed offset of 16 PSI.
    pub fn new() -> (sensor: RandomPressureSensor)
        ensures
            sensor.spec_offset() == RANDOM_SENSOR_OFFSET_MILLI_PSI as int,
    {
        RandomPressureSensor { offset: Pressure::from_milli_psi(RANDOM_SENSOR_OFFSET_MILLI_PSI) }
    }

    /// Draws the random span above the offset: the product of two independent
    /// uniform samples of `[0, 1)`, scaled to thousandths of 6 PSI and
    /// rounded down.
    fn sample_pressure() -> (span: i64)
        ensures
            0 <= span < RANDOM_SENSOR_SPAN_MILLI_PSI as int,
    {
        let first: u128 = random_u32() as u128;
        let second: u128 = random_u32() as u128;
        proof {
            assert(first * second < 0x1_0000_0000_0000_0000u128) by (nonlinear_arith)
                requires
                    first < 0x1_0000_0000u128,
                    second < 0x1_0000_0000u128,
            ;
        }
        let numerator: u128 = 6000 * (first * second);
        let scaled: u128 = numerator / 0x1_0000_0000_0000_0000u128;
        proof {
            assert(scaled < 6000) by (nonlinear_arith)
                requires
                    scaled == numerator / 0x1_0000_0000_0000_0000u128,
                    numerator < 6000 * 0x1_0000_0000_0000_0000u128,
            ;
        }
        scaled as i64
    }
}

impl PressureSensor for RandomPressureSensor {
    /// The random sensor promises only a range: the reading lands in the
    /// half-open span of 6 PSI above the fixed offset, and the sensor itself
    /// is unchanged.
    open spec fn may_pop(self, reading: Pressure, next: Self) -> bool {
        &&& next == self
        &&& self.spec_offset() <= reading@
        &&& reading@ < self.spec_offset() + RANDOM_SENSOR_SPAN_MILLI_PSI as int
    }

    fn pop_next_pressure_psi_value(&mut self) -> (reading: Pressure) {
        proof {
            use_type_invariant(&*self);
        }
        let pressure_telemetry_value = Self::sample_pressure();
        Pressure::from_milli_psi(self.offset.milli_psi() + pressure_telemetry_value)
    }
}

/// A sensor that replays a fixed, non-empty list of readings in order and
/// then keeps handing out the last one. A one-element script is a sensor
/// fixed to a single value, the shape the alarm's scenario tests use.
pub struct ScriptedPressureSensor {
    readings: Vec<Pressure>,
    position: usize,
}

impl View for ScriptedPressureSensor {
    type V = Seq<Pressure>;

    /// The readings still to come, never empty: once the script is used up,
    /// the last reading stays as the one remaining element.
    closed spec fn view(&self) -> Seq<Pressure> {
        if self.position < self.readings@.len() {
            self.readings@.skip(self.position as int)
        } else {
            self.readings@.skip(self.readings@.len() - 1)
        }
    }
}

impl ScriptedPressureSensor {
    #[verifier::type_invariant]
    spec fn script_in_bounds(&self) -> bool {
        &&& self.readings@.len() >= 1
        &&& self.position <= self.readings@.len()
    }

    /// Builds the sensor over its script of readings, to be handed out first
    /// to last.
    pub fn new(readings: Vec<Pressure>) -> (sensor: ScriptedPressureSensor)
        requires
            readings@.len() >= 1,
        ensures
            sensor@ == readings@,
    {
        ScriptedPressureSensor { readings, position: 0 }
    }
}

impl PressureSensor for ScriptedPressureSensor {
    /// The scripted sensor pins the reading exactly: it hands out the first
    /// reading still to come, and afterwards only drops that reading from the
    /// front — except for the last one, which repeats forever.
    open spec fn may_pop(self, reading: Pressure, next: Self) -> bool {
        &&& self@.len() >= 1
        &&& reading == self@[0]
        &&& next@ == (if self@.len() > 1 {
            self@.skip(1)
        } else {
            self@
        })
    }

    fn pop_next_pressure_psi_value(&mut self) -> (reading: Pressure) {
        proof {
            use_type_invariant(&*self);
        }
        let index = if self.position < self.readings.len() {
            self.position
        } else {
            self.readings.len() - 1
        };
        let reading = self.readings[index];
        if self.position < self.readings.len() {
            self.position = self.position + 1;
        }
        proof {
            let script = old(self).readings@;
            let count = script.len() as int;
            let start = old(self).position as int;
            if start < count {
                assert(reading == script.skip(start)[0]);
                if start + 1 < count {
                    assert(old(self)@.skip(1) =~= script.skip(start + 1));
                }
            } else {
                assert(reading == script.skip(count - 1)[0]);
            }
        }
        reading
    }
}

} // verus!
