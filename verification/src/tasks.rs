//! The bodies of the scheduled tasks and of the interrupt routines.
//!
//! Each function takes the stores it works on one by one, and by exclusive
//! reference only the store that it writes. The sample store is written by
//! the two sample routines, each its own field; the setpoint store by the
//! button task; the output store and the state snapshot by the control task.
//! Everything else is read.

use crate::buttons::{after_event, Button, ButtonEvent};
use crate::dac::Dac;
use crate::diagnostics::{diagnostics_text, fmt};
use crate::logics::{DesiredOutput, State, MAX_OUTPUT_UNITS};
use crate::state::{InputValues, OutputValues};
use crate::terminal::{Position, Submission};
use crate::text::{event_debug_text, lemma_bytes_of_concatenation, TextBuffer, CAPACITY};
use crate::volts::{UNITS_PER_STEP, UNITS_PER_VOLT};
use vstd::prelude::*;
use vstd::utf8::{encode_utf8, is_ascii_chars_encode_utf8};

verus! {

/// Milliseconds from one run of the control task to the next.
pub const CONTROL_PERIOD_MS: u64 = 10;

/// Milliseconds from one run of the actuation task to the next.
pub const ACTUATION_PERIOD_MS: u64 = 10;

/// Milliseconds from one run of the diagnostics task to the next.
pub const DIAGNOSTICS_PERIOD_MS: u64 = 200;

/// Milliseconds from one toggle of the status light to the next.
pub const HEARTBEAT_PERIOD_MS: u64 = 200;

/// The sample store after the routine of channel 0 has run with `sample`.
pub open spec fn after_adc0(inputs: InputValues, sample: Option<u16>) -> InputValues {
    match sample {
        Some(code) => InputValues { raw_adc_a0: code, raw_adc_a1: inputs.raw_adc_a1 },
        None => inputs,
    }
}

/// The sample store after the routine of channel 1 has run with `sample`.
pub open spec fn after_adc1(inputs: InputValues, sample: Option<u16>) -> InputValues {
    match sample {
        Some(code) => InputValues { raw_adc_a0: inputs.raw_adc_a0, raw_adc_a1: code },
        None => inputs,
    }
}

/// The line that tells the display of a button event.
pub open spec fn event_message(event: ButtonEvent) -> Seq<char> {
    "Btn "@ + event_debug_text(event.button, event.down) + "\n"@
}

/// The control task: limits from the samples and setpoints as they stand,
/// and stores the new state and its actuation codes.
pub fn sync(
    inputs: &InputValues,
    desired_out: &DesiredOutput,
    outputs: &mut OutputValues,
    state: &mut State,
)
    ensures
        *final(state) == State::spec_from(*inputs, *desired_out),
        *final(outputs) == State::spec_from(*inputs, *desired_out).spec_output_level(),
{
    let fresh = State::from(inputs, desired_out);
    *outputs = fresh.get_output_level();
    *state = fresh;
}

/// The actuation task: takes the output store over into the converter and
/// gives the codes to commit to channel 0 and channel 1.
pub fn dac_update(dac: &mut Dac, outputs: &OutputValues) -> (codes: (u16, u16))
    ensures
        final(dac)@ == (outputs.dac0, outputs.dac1),
        codes == (outputs.dac0, outputs.dac1),
{
    dac.set_output(outputs);
    dac.update()
}

/// The button task: moves the setpoint that the event names, if any.
pub fn button(desired_out: &mut DesiredOutput, event: &ButtonEvent)
    ensures
        *final(desired_out) == after_event(*old(desired_out), *event),
{
    if !event.down {
        return ;
    }
    match event.button {
        Button::TopLeft => {
            if desired_out.dac0.units > UNITS_PER_VOLT {
                desired_out.dac0.units = desired_out.dac0.units - UNITS_PER_STEP;
            }
        },
        Button::TopMiddle => {
            if desired_out.dac0.units < MAX_OUTPUT_UNITS {
                desired_out.dac0.units = desired_out.dac0.units + UNITS_PER_STEP;
            }
        },
        Button::Down => {
            if desired_out.dac1.units > UNITS_PER_VOLT {
                desired_out.dac1.units = desired_out.dac1.units - UNITS_PER_STEP;
            }
        },
        Button::Up => {
            if desired_out.dac1.units < MAX_OUTPUT_UNITS {
                desired_out.dac1.units = desired_out.dac1.units + UNITS_PER_STEP;
            }
        },
        _ => {},
    }
}

/// The line that tells the display of a button event, and where it goes;
/// nothing if the line does not fit a message buffer.
pub fn button_message(event: &ButtonEvent) -> (message: Option<Submission>)
    ensures
        message is Some <==> encode_utf8(event_message(*event)).len() <= CAPACITY,
        message matches Some(m) ==> m.text@ == event_message(*event) && m.position == (Position {
            x: 5,
            y: 35,
        }),
{
    let ghost name = event_debug_text(event.button, event.down);
    proof {
        reveal_strlit("Btn ");
        reveal_strlit("\n");
        assert("\n"@ == seq!['\n']);
        is_ascii_chars_encode_utf8("Btn "@);
        is_ascii_chars_encode_utf8("\n"@);
        lemma_bytes_of_concatenation("Btn "@, name);
        lemma_bytes_of_concatenation("Btn "@ + name, "\n"@);
    }
    let mut text = TextBuffer::new();
    if !text.try_put_str("Btn ") {
        return None;
    }
    if !text.try_put_event(event) {
        return None;
    }
    if !text.try_put('\n') {
        return None;
    }
    Some(Submission { text, position: Position { x: 5, y: 35 } })
}

/// The sample routine of channel 0: stores the sample if one was ready.
pub fn adc0_rdy(inputs: &mut InputValues, sample: Option<u16>)
    ensures
        *final(inputs) == after_adc0(*old(inputs), sample),
{
    let Some(code) = sample else {
        return ;
    };
    inputs.raw_adc_a0 = code;
}

/// The sample routine of channel 1: stores the sample if one was ready.
pub fn adc1_rdy(inputs: &mut InputValues, sample: Option<u16>)
    ensures
        *final(inputs) == after_adc1(*old(inputs), sample),
{
    let Some(code) = sample else {
        return ;
    };
    inputs.raw_adc_a1 = code;
}

/// The diagnostics task: the text of each channel and the place on the screen
/// where it belongs. The left channel shows input 0 and the code of output
/// 1, the right channel input 1 and the code of output 0.
pub fn print_state(state: &State, inputs: &InputValues, outputs: &OutputValues) -> (out: (
    Submission,
    Submission,
))
    ensures
        out.0.text@ == diagnostics_text(
            0,
            state.left,
            inputs.raw_adc_a0,
            outputs.dac1,
            "Left to Right"@,
        ),
        out.0.position == (Position { x: 5, y: 30 }),
        out.1.text@ == diagnostics_text(
            1,
            state.right,
            inputs.raw_adc_a1,
            outputs.dac0,
            "Right to Left"@,
        ),
        out.1.position == (Position { x: 160, y: 30 }),
{
    proof {
        reveal_strlit("Left to Right");
        reveal_strlit("Right to Left");
        is_ascii_chars_encode_utf8("Left to Right"@);
        is_ascii_chars_encode_utf8("Right to Left"@);
    }
    let left = fmt(0, &state.left, inputs.raw_adc_a0, outputs.dac1, "Left to Right");
    let right = fmt(1, &state.right, inputs.raw_adc_a1, outputs.dac0, "Right to Left");
    (
        Submission { text: left, position: Position { x: 5, y: 30 } },
        Submission { text: right, position: Position { x: 160, y: 30 } },
    )
}

/// The two sample routines never write the same field: run in either order
/// they leave the same store, in which each channel holds its own routine's
/// sample.
pub proof fn law_sample_routines_do_not_interfere(
    inputs: InputValues,
    sample0: Option<u16>,
    sample1: Option<u16>,
)
    ensures
        after_adc1(after_adc0(inputs, sample0), sample1) == after_adc0(
            after_adc1(inputs, sample1),
            sample0,
        ),
        after_adc0(inputs, sample0).raw_adc_a1 == inputs.raw_adc_a1,
        after_adc1(inputs, sample1).raw_adc_a0 == inputs.raw_adc_a0,
        sample0 matches Some(code) ==> after_adc1(after_adc0(inputs, sample0), sample1).raw_adc_a0
            == code,
        sample1 matches Some(code) ==> after_adc0(after_adc1(inputs, sample1), sample0).raw_adc_a1
            == code,
{
}

} // verus!
