//! The pair of codes held for the output converter between a control cycle
//! and the next actuation.

use crate::state::OutputValues;
use vstd::prelude::*;

verus! {

/// The codes that the next actuation will commit, one per output channel.
#[derive(Clone, Copy, Debug, PartialEq, Eq, Structural)]
pub struct Dac {
    dac0_value: u16,
    dac1_value: u16,
}

impl View for Dac {
    type V = (u16, u16);

    /// The codes held, channel 0 first.
    closed spec fn view(&self) -> (u16, u16) {
        (self.dac0_value, self.dac1_value)
    }
}

impl Dac {
    /// A converter that holds code zero for both channels.
    pub fn new() -> (dac: Dac)
        ensures
            dac@ == (0u16, 0u16),
    {
        Dac { dac0_value: 0, dac1_value: 0 }
    }

    /// The codes to write to the data registers of channel 0 and channel 1.
    pub fn update(&self) -> (codes: (u16, u16))
        ensures
            codes == self@,
    {
        (self.dac0_value, self.dac1_value)
    }

    /// Replaces the code of channel 0.
    pub fn set_adc0_desired(&mut self, value: u16)
        ensures
            final(self)@ == (value, old(self)@.1),
    {
        self.dac0_value = value;
    }

    /// Replaces the code of channel 1.
    pub fn set_adc1_desired(&mut self, value: u16)
        ensures
            final(self)@ == (old(self)@.0, value),
    {
        self.dac1_value = value;
    }

    /// Replaces both codes.
    pub fn set(&mut self, dac0: u16, dac1: u16)
        ensures
            final(self)@ == (dac0, dac1),
    {
        self.dac0_value = dac0;
        self.dac1_value = dac1;
    }

    /// Takes both codes over from the output store.
    pub fn set_output(&mut self, output: &OutputValues)
        ensures
            final(self)@ == (output.dac0, output.dac1),
    {
        self.dac0_value = output.dac0;
        self.dac1_value = output.dac1;
    }
}

} // verus!
