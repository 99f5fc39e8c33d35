//! The pressure value type that all readings are carried in.

use vstd::prelude::*;

verus! {

/// One PSI, counted in the thousandths of a PSI that a [`Pressure`] holds.
pub const MILLI_PSI_PER_PSI: i64 = 1000;

/// A tire pressure reading.
///
/// A reading is held as a whole number of thousandths of a PSI, so every
/// comparison against the alarm thresholds is exact. The mathematical view of
/// a reading is that count as an unbounded integer.
#[derive(Clone, Copy)]
pub struct Pressure {
    milli_psi: i64,
}

impl View for Pressure {
    type V = int;

    closed spec fn view(&self) -> int {
        self.milli_psi as int
    }
}

impl Pressure {
    /// Builds the reading of exactly `milli_psi` thousandths of a PSI.
    pub fn from_milli_psi(milli_psi: i64) -> (reading: Pressure)
        ensures
            reading@ == milli_psi as int,
    {
        Pressure { milli_psi }
    }

    /// The reading, in thousandths of a PSI.
    pub fn milli_psi(&self) -> (milli_psi: i64)
        ensures
            milli_psi as int == self@,
    {
        self.milli_psi
    }
}

} // verus!
