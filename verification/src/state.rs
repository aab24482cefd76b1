//! The sample store and the output store: the latest raw readings and the
//! latest actuation codes.

use vstd::prelude::*;

verus! {

/// The most recent raw reading of each input channel.
#[derive(Clone, Copy, Debug, PartialEq, Eq, Structural)]
pub struct InputValues {
    pub raw_adc_a0: u16,
    pub raw_adc_a1: u16,
}

/// The actuation codes last computed, one per output channel.
#[derive(Clone, Copy, Debug, PartialEq, Eq, Structural)]
pub struct OutputValues {
    pub dac0: u16,
    pub dac1: u16,
}

impl Default for InputValues {
    fn default() -> (v: InputValues)
        ensures
            v.raw_adc_a0 == 0,
            v.raw_adc_a1 == 0,
    {
        InputValues { raw_adc_a0: 0, raw_adc_a1: 0 }
    }
}

impl Default for OutputValues {
    fn default() -> (v: OutputValues)
        ensures
            v.dac0 == 0,
            v.dac1 == 0,
    {
        OutputValues { dac0: 0, dac1: 0 }
    }
}

} // verus!
