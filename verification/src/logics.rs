//! The limiter: from two raw samples and two setpoints to two safe outputs.
//!
//! Each side's output is capped by what the opposite side measures. While the
//! opposite input idles below one volt the setpoint passes through; while it
//! lies between one volt and the setpoint it becomes the output; once it
//! reaches the setpoint the output is cut to zero.

use crate::state::{InputValues, OutputValues};
use crate::volts::{Volts, UNITS_PER_VOLT};
use vstd::prelude::*;

verus! {

/// The number of codes in the nominal range of a sample and of an actuation
/// code: full scale is 4096.
pub const RESOLUTION: u16 = 4096;

/// The reference voltage of the input converter, in millivolts.
pub const REFERENCE_MILLIVOLTS: u32 = 3300;

/// The voltage at the input pin that stands for the whole output range, in
/// millivolts.
pub const FULL_SCALE_MILLIVOLTS: u32 = 3000;

/// The output range, in volts.
pub const OUTPUT_RANGE_VOLTS: u32 = 20;

/// The largest setpoint, 20 V, in units.
pub const MAX_OUTPUT_UNITS: u32 = 819200;

/// Units of level in one raw code read against the reference.
pub const UNITS_PER_CODE_MEASURED: u32 = 33;

/// Units of level in one raw code after scaling to the output range.
pub const UNITS_PER_CODE_SCALED: u32 = 220;

/// Units of level in one actuation code.
pub const UNITS_PER_CODE_OUT: u32 = 200;

/// One channel at one control cycle.
#[derive(Clone, Copy, Debug, PartialEq, Eq, Structural)]
pub struct Side {
    /// What this side measures, scaled to the output range.
    pub input: Volts,
    /// What the user asks this side to put out.
    pub desired_output: Volts,
    /// What this side is allowed to put out.
    pub real_output: Volts,
}

/// Both channels at one control cycle.
#[derive(Clone, Copy, Debug, PartialEq, Eq, Structural)]
pub struct State {
    pub left: Side,
    pub right: Side,
}

/// The setpoint store: the level the user asks of each output.
#[derive(Clone, Copy, Debug, PartialEq, Eq, Structural)]
pub struct DesiredOutput {
    pub dac0: Volts,
    pub dac1: Volts,
}

/// The voltage at the input pin that a raw code stands for: that fraction of
/// the reference which the code is of the resolution.
pub open spec fn measured_level(raw: u16) -> int {
    raw * REFERENCE_MILLIVOLTS * UNITS_PER_VOLT / (1000 * RESOLUTION)
}

/// The level on the output scale that a raw code stands for: the voltage at
/// the pin, taken as a fraction of the full-scale input, of the output range.
pub open spec fn scaled_level(raw: u16) -> int {
    raw * REFERENCE_MILLIVOLTS * OUTPUT_RANGE_VOLTS * UNITS_PER_VOLT / (FULL_SCALE_MILLIVOLTS
        * RESOLUTION)
}

/// The output a side may give when the opposite side measures
/// `opposite_input` and the side itself is asked for `desired`.
pub open spec fn limited_level(opposite_input: int, desired: int) -> int {
    if opposite_input < UNITS_PER_VOLT {
        desired
    } else if opposite_input < desired {
        opposite_input
    } else {
        0
    }
}

/// Whether the opposite input leaves the side any output at all.
pub open spec fn output_allowed(opposite_input: int, desired: int) -> bool {
    opposite_input < UNITS_PER_VOLT || opposite_input < desired
}

/// The actuation code for a level: that fraction of the resolution which
/// the level is of the output range, in whole codes, the rest dropped, and
/// held at the largest code the type can carry.
pub open spec fn code_of_level(level: int) -> int {
    let whole = level * RESOLUTION / (OUTPUT_RANGE_VOLTS * UNITS_PER_VOLT);
    if whole > u16::MAX {
        u16::MAX as int
    } else {
        whole
    }
}

/// In units, a raw code is worth 33 at the pin and 220 on the output scale,
/// both without rounding, and an actuation code takes 200.
pub proof fn lemma_levels_in_units(raw: u16, level: int)
    requires
        0 <= level,
    ensures
        measured_level(raw) == raw * UNITS_PER_CODE_MEASURED,
        scaled_level(raw) == raw * UNITS_PER_CODE_SCALED,
        level * RESOLUTION / (OUTPUT_RANGE_VOLTS * UNITS_PER_VOLT) == level / (
        UNITS_PER_CODE_OUT as int),
{
    assert(raw * REFERENCE_MILLIVOLTS * UNITS_PER_VOLT == (raw * 33) * 4096000);
    assert(raw * REFERENCE_MILLIVOLTS * OUTPUT_RANGE_VOLTS * UNITS_PER_VOLT == (raw * 220)
        * 12288000);
    assert(FULL_SCALE_MILLIVOLTS * RESOLUTION == 12288000);
    assert(OUTPUT_RANGE_VOLTS * UNITS_PER_VOLT == 819200);
}

impl Side {
    /// The output that `want` may give while this side measures `self.input`,
    /// and whether that leaves `want` any output.
    pub fn output_for(&self, want: &Side) -> (out: (Volts, bool))
        ensures
            self.input@ < UNITS_PER_VOLT ==> out.0 == want.desired_output && out.1,
            UNITS_PER_VOLT <= self.input@ < want.desired_output@ ==> out.0 == self.input && out.1,
            self.input@ >= UNITS_PER_VOLT && self.input@ >= want.desired_output@ ==> out.0@ == 0
                && !out.1,
            out.0@ == limited_level(self.input@, want.desired_output@),
            out.1 == output_allowed(self.input@, want.desired_output@),
    {
        if self.input.units < UNITS_PER_VOLT {
            (want.desired_output, true)
        } else if self.input.units < want.desired_output.units {
            (self.input, true)
        } else {
            (Volts::zero(), false)
        }
    }
}

impl State {
    /// What one control cycle makes of the stores.
    pub open spec fn spec_from(input: InputValues, desired_out: DesiredOutput) -> State {
        let left_in = scaled_level(input.raw_adc_a0);
        let right_in = scaled_level(input.raw_adc_a1);
        State {
            left: Side {
                input: Volts { units: left_in as u32 },
                desired_output: desired_out.dac0,
                real_output: Volts {
                    units: limited_level(right_in, desired_out.dac0@) as u32,
                },
            },
            right: Side {
                input: Volts { units: right_in as u32 },
                desired_output: desired_out.dac1,
                real_output: Volts {
                    units: limited_level(left_in, desired_out.dac1@) as u32,
                },
            },
        }
    }

    /// The codes that put this state's real outputs on the actuator. The right
    /// side drives output 0 and the left side output 1.
    pub open spec fn spec_output_level(self) -> OutputValues {
        OutputValues {
            dac0: code_of_level(self.right.real_output@) as u16,
            dac1: code_of_level(self.left.real_output@) as u16,
        }
    }

    /// One control cycle: scale both samples, take over both setpoints, and
    /// limit each side by the other side's input.
    pub fn from(input: &InputValues, desired_out: &DesiredOutput) -> (s: State)
        ensures
            s == Self::spec_from(*input, *desired_out),
            s.left.input@ == scaled_level(input.raw_adc_a0),
            s.right.input@ == scaled_level(input.raw_adc_a1),
            s.left.desired_output == desired_out.dac0,
            s.right.desired_output == desired_out.dac1,
            s.left.real_output@ == limited_level(s.right.input@, desired_out.dac0@),
            s.right.real_output@ == limited_level(s.left.input@, desired_out.dac1@),
    {
        let mut s = State {
            left: Side {
                input: Self::adc_convert(input.raw_adc_a0).1,
                desired_output: desired_out.dac0,
                real_output: Volts::zero(),
            },
            right: Side {
                input: Self::adc_convert(input.raw_adc_a1).1,
                desired_output: desired_out.dac1,
                real_output: Volts::zero(),
            },
        };
        s.right.real_output = s.left.output_for(&s.right).0;
        s.left.real_output = s.right.output_for(&s.left).0;
        s
    }

    /// The actuation codes for this state.
    pub fn get_output_level(&self) -> (out: OutputValues)
        ensures
            out == self.spec_output_level(),
            out.dac0 == code_of_level(self.right.real_output@),
            out.dac1 == code_of_level(self.left.real_output@),
    {
        OutputValues {
            dac0: Self::dac_convert(self.right.real_output),
            dac1: Self::dac_convert(self.left.real_output),
        }
    }

    /// A raw code as the voltage at the pin and as a level on the output scale.
    pub fn adc_convert(raw: u16) -> (out: (Volts, Volts))
        ensures
            out.0@ == measured_level(raw),
            out.1@ == scaled_level(raw),
    {
        proof {
            lemma_levels_in_units(raw, 0);
        }
        let volt = Volts { units: (raw as u32) * UNITS_PER_CODE_MEASURED };
        let scaled = Volts { units: (raw as u32) * UNITS_PER_CODE_SCALED };
        (volt, scaled)
    }

    /// A level as an actuation code, the fraction of a code dropped.
    pub fn dac_convert(out_voltage: Volts) -> (code: u16)
        ensures
            code == code_of_level(out_voltage@),
    {
        proof {
            lemma_levels_in_units(0, out_voltage@);
        }
        let whole: u32 = out_voltage.units / UNITS_PER_CODE_OUT;
        if whole > 65535 {
            65535
        } else {
            whole as u16
        }
    }
}

/// While the opposite input idles below one volt the output is the setpoint,
/// whatever the setpoint is.
pub proof fn law_idle_opposite_input_passes_setpoint(opposite_input: int, desired: int)
    requires
        opposite_input < UNITS_PER_VOLT,
    ensures
        limited_level(opposite_input, desired) == desired,
        output_allowed(opposite_input, desired),
{
}

/// An opposite input of one volt or more that stays below the setpoint is
/// itself the output.
pub proof fn law_opposite_input_below_setpoint_is_output(opposite_input: int, desired: int)
    requires
        UNITS_PER_VOLT <= opposite_input < desired,
    ensures
        limited_level(opposite_input, desired) == opposite_input,
        output_allowed(opposite_input, desired),
{
}

/// An opposite input of one volt or more that reaches the setpoint cuts the
/// output off.
pub proof fn law_opposite_input_at_setpoint_cuts_off(opposite_input: int, desired: int)
    requires
        opposite_input >= UNITS_PER_VOLT,
        opposite_input >= desired,
    ensures
        limited_level(opposite_input, desired) == 0,
        !output_allowed(opposite_input, desired),
{
}

/// The output never exceeds the setpoint, and with setpoints of at most 20 V
/// no actuation code of a control cycle exceeds the code of 20 V.
pub proof fn law_output_never_exceeds_setpoint(input: InputValues, desired_out: DesiredOutput)
    ensures
        State::spec_from(input, desired_out).left.real_output@ <= desired_out.dac0@,
        State::spec_from(input, desired_out).right.real_output@ <= desired_out.dac1@,
        desired_out.dac0@ <= MAX_OUTPUT_UNITS ==> State::spec_from(
            input,
            desired_out,
        ).spec_output_level().dac1 <= RESOLUTION,
        desired_out.dac1@ <= MAX_OUTPUT_UNITS ==> State::spec_from(
            input,
            desired_out,
        ).spec_output_level().dac0 <= RESOLUTION,
{
}

/// A raw code that is scaled and then converted to an actuation code comes
/// back multiplied by 3.3 / 3, the fraction dropped: the scaling takes 3 V at
/// the pin for full scale, the reference is 3.3 V. So a code of the nominal
/// range comes back within one code of itself exactly when it is below 20.
pub proof fn law_round_trip(raw: u16)
    ensures
        raw * 11 / 10 <= u16::MAX ==> code_of_level(scaled_level(raw)) == raw * 11 / 10,
        raw * 11 / 10 > u16::MAX ==> code_of_level(scaled_level(raw)) == u16::MAX,
        raw <= code_of_level(scaled_level(raw)),
        raw <= RESOLUTION ==> (code_of_level(scaled_level(raw)) <= raw + 1 <==> raw < 20),
{
    lemma_levels_in_units(raw, scaled_level(raw));
}

/// A raw code below 20 comes back from scaling and conversion within one
/// code of itself.
pub proof fn law_round_trip_within_one_code(raw: u16)
    requires
        raw < 20,
    ensures
        raw <= code_of_level(scaled_level(raw)) <= raw + 1,
{
    lemma_levels_in_units(raw, scaled_level(raw));
}

impl Default for Side {
    fn default() -> (s: Side)
        ensures
            s.input@ == 0,
            s.desired_output@ == 0,
            s.real_output@ == 0,
    {
        Side { input: Volts::zero(), desired_output: Volts::zero(), real_output: Volts::zero() }
    }
}

impl Default for State {
    fn default() -> (s: State)
        ensures
            s.left.input@ == 0,
            s.left.desired_output@ == 0,
            s.left.real_output@ == 0,
            s.right.input@ == 0,
            s.right.desired_output@ == 0,
            s.right.real_output@ == 0,
    {
        State { left: Side::default(), right: Side::default() }
    }
}

impl Default for DesiredOutput {
    fn default() -> (d: DesiredOutput)
        ensures
            d.dac0@ == 0,
            d.dac1@ == 0,
    {
        DesiredOutput { dac0: Volts::zero(), dac1: Volts::zero() }
    }
}

} // verus!
