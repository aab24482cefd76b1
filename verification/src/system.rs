//! The stores taken together, and what any run of the tasks and routines
//! makes of them.
//!
//! Every task and routine runs to completion before the next one starts, so
//! a run of the system is a sequence of whole steps, in any order. What holds
//! after every such sequence holds at every moment at which a store can be
//! read.

use crate::buttons::{after_event, on_grid, ButtonEvent};
use crate::logics::{DesiredOutput, Side, State, RESOLUTION};
use crate::state::{InputValues, OutputValues};
use crate::tasks::{after_adc0, after_adc1};
use crate::volts::Volts;
use vstd::prelude::*;

verus! {

/// The sample store, the setpoint store, the output store and the state
/// snapshot.
pub struct Stores {
    pub inputs: InputValues,
    pub outputs: OutputValues,
    pub desired_out: DesiredOutput,
    pub state: State,
}

/// One step of the system that can write to a store.
pub enum Event {
    /// The sample routine of channel 0 ran, with a sample or without one.
    Sample0(Option<u16>),
    /// The sample routine of channel 1 ran, with a sample or without one.
    Sample1(Option<u16>),
    /// The button task ran on a button event.
    Button(ButtonEvent),
    /// The control task ran.
    Control,
}

/// The stores at startup: everything zero.
pub open spec fn startup() -> Stores {
    let zero = Volts { units: 0 };
    let side = Side { input: zero, desired_output: zero, real_output: zero };
    Stores {
        inputs: InputValues { raw_adc_a0: 0, raw_adc_a1: 0 },
        outputs: OutputValues { dac0: 0, dac1: 0 },
        desired_out: DesiredOutput { dac0: zero, dac1: zero },
        state: State { left: side, right: side },
    }
}

/// The stores after one step.
pub open spec fn after(stores: Stores, event: Event) -> Stores {
    match event {
        Event::Sample0(sample) => Stores { inputs: after_adc0(stores.inputs, sample), ..stores },
        Event::Sample1(sample) => Stores { inputs: after_adc1(stores.inputs, sample), ..stores },
        Event::Button(button) => Stores {
            desired_out: after_event(stores.desired_out, button),
            ..stores
        },
        Event::Control => Stores {
            state: State::spec_from(stores.inputs, stores.desired_out),
            outputs: State::spec_from(stores.inputs, stores.desired_out).spec_output_level(),
            ..stores
        },
    }
}

/// The stores after a run of steps, first to last.
pub open spec fn after_all(stores: Stores, events: Seq<Event>) -> Stores
    decreases events.len(),
{
    if events.len() == 0 {
        stores
    } else {
        after(after_all(stores, events.drop_last()), events.last())
    }
}

/// What holds of the stores at every moment of every run.
pub open spec fn consistent(stores: Stores) -> bool {
    &&& stores.desired_out.in_range()
    &&& on_grid(stores.state.left.desired_output@)
    &&& on_grid(stores.state.right.desired_output@)
    &&& stores.state.left.real_output@ <= stores.state.left.desired_output@
    &&& stores.state.right.real_output@ <= stores.state.right.desired_output@
    &&& stores.outputs == stores.state.spec_output_level()
    &&& stores.outputs.dac0 <= RESOLUTION
    &&& stores.outputs.dac1 <= RESOLUTION
}

/// Every field has one writer: the first sample only the routine of channel
/// 0, the second only the routine of channel 1, the setpoints only the button
/// task, the outputs and the state only the control task.
pub proof fn law_each_field_has_one_writer(stores: Stores, event: Event)
    ensures
        !(event is Sample0) ==> after(stores, event).inputs.raw_adc_a0 == stores.inputs.raw_adc_a0,
        !(event is Sample1) ==> after(stores, event).inputs.raw_adc_a1 == stores.inputs.raw_adc_a1,
        !(event is Button) ==> after(stores, event).desired_out == stores.desired_out,
        !(event is Control) ==> after(stores, event).outputs == stores.outputs,
        !(event is Control) ==> after(stores, event).state == stores.state,
{
}

/// A sample that was ready is what its field holds after the routine, whole,
/// and a control cycle takes samples and setpoints as they stand at that
/// moment.
pub proof fn law_writes_are_whole(stores: Stores, code: u16)
    ensures
        after(stores, Event::Sample0(Some(code))).inputs.raw_adc_a0 == code,
        after(stores, Event::Sample1(Some(code))).inputs.raw_adc_a1 == code,
        after(stores, Event::Sample0(None)) == stores,
        after(stores, Event::Sample1(None)) == stores,
        after(stores, Event::Control).state == State::spec_from(stores.inputs, stores.desired_out),
        after(stores, Event::Control).outputs == after(
            stores,
            Event::Control,
        ).state.spec_output_level(),
{
}

/// One step keeps consistent stores consistent.
pub proof fn law_step_keeps_consistency(stores: Stores, event: Event)
    requires
        consistent(stores),
    ensures
        consistent(after(stores, event)),
{
}

/// In every run from startup, at every moment: the setpoints are whole half
/// volts of at most 20 V, no real output exceeds its setpoint, and the output
/// store holds the codes of the state snapshot, none above the code of 20 V.
pub proof fn law_runs_stay_consistent(events: Seq<Event>)
    ensures
        consistent(after_all(startup(), events)),
    decreases events.len(),
{
    if events.len() > 0 {
        law_runs_stay_consistent(events.drop_last());
        law_step_keeps_consistency(after_all(startup(), events.drop_last()), events.last());
    }
}

} // verus!
