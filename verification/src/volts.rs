//! Voltage levels in fixed point.
//!
//! A level is a whole number of units, 40960 to the volt. That step is fine
//! enough to hold, without rounding, every quantity the limiter works with:
//! a raw code read against the 3.3 V reference (33 units per code), the
//! same code scaled to the output range (220 units per code), the half-volt
//! step of a setpoint (20480 units) and one actuation code (200 units).

use vstd::prelude::*;

verus! {

/// Units in one volt.
pub const UNITS_PER_VOLT: u32 = 40960;

/// Units in half a volt, the step by which a setpoint moves.
pub const UNITS_PER_STEP: u32 = 20480;

/// A non-negative voltage level, counted in units of 1/40960 V.
#[derive(Clone, Copy, Debug, PartialEq, Eq, Structural)]
pub struct Volts {
    pub units: u32,
}

impl View for Volts {
    type V = int;

    /// The level as a count of units.
    open spec fn view(&self) -> int {
        self.units as int
    }
}

impl Volts {
    /// The level of `n` half volts.
    pub open spec fn half_volts(n: int) -> int {
        n * UNITS_PER_STEP
    }

    /// The level zero.
    pub fn zero() -> (v: Volts)
        ensures
            v@ == 0,
    {
        Volts { units: 0 }
    }

    /// The level of `units` units.
    pub fn from_units(units: u32) -> (v: Volts)
        ensures
            v@ == units,
    {
        Volts { units }
    }

    /// The level of `n` half volts: `from_half_volts(3)` is 1.5 V.
    pub fn from_half_volts(n: u16) -> (v: Volts)
        ensures
            v@ == Self::half_volts(n as int),
    {
        Volts { units: (n as u32) * UNITS_PER_STEP }
    }

    /// The count of units in this level.
    pub fn units(&self) -> (units: u32)
        ensures
            units == self@,
    {
        self.units
    }
}

impl Default for Volts {
    fn default() -> (v: Volts)
        ensures
            v@ == 0,
    {
        Volts { units: 0 }
    }
}

} // verus!
