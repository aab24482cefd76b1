//! Button events and what they do to the setpoints.
//!
//! Four presses are recognised, two per channel: one lowers the channel's
//! setpoint by half a volt while it is above 1 V, the other raises it by half
//! a volt while it is below 20 V. Releases and the other buttons change
//! nothing.

use crate::logics::{DesiredOutput, MAX_OUTPUT_UNITS};
use crate::volts::{Volts, UNITS_PER_STEP, UNITS_PER_VOLT};
use vstd::prelude::*;

verus! {

/// The buttons of the board, by where they sit.
#[derive(Clone, Copy, Debug, PartialEq, Eq, Structural)]
pub enum Button {
    TopLeft,
    TopMiddle,
    Down,
    Up,
    Left,
    Right,
    Click,
}

/// One edge on one button: `down` is true for a press, false for a release.
#[derive(Clone, Copy, Debug, PartialEq, Eq, Structural)]
pub struct ButtonEvent {
    pub button: Button,
    pub down: bool,
}

/// A setpoint after one press of its "lower" button.
pub open spec fn lowered(level: int) -> int {
    if level > UNITS_PER_VOLT {
        level - UNITS_PER_STEP
    } else {
        level
    }
}

/// A setpoint after one press of its "raise" button.
pub open spec fn raised(level: int) -> int {
    if level < MAX_OUTPUT_UNITS {
        level + UNITS_PER_STEP
    } else {
        level
    }
}

/// A whole number of half volts.
pub open spec fn whole_steps(level: int) -> bool {
    level % (UNITS_PER_STEP as int) == 0
}

/// A level that presses can lead to from the start at zero: a whole number of
/// half volts, at most 20 V.
pub open spec fn on_grid(level: int) -> bool {
    &&& 0 <= level <= MAX_OUTPUT_UNITS
    &&& whole_steps(level)
}

/// A setpoint after `n` presses of its "lower" button.
pub open spec fn lowered_times(level: int, n: nat) -> int
    decreases n,
{
    if n == 0 {
        level
    } else {
        lowered(lowered_times(level, (n - 1) as nat))
    }
}

/// A setpoint after `n` presses of its "raise" button.
pub open spec fn raised_times(level: int, n: nat) -> int
    decreases n,
{
    if n == 0 {
        level
    } else {
        raised(raised_times(level, (n - 1) as nat))
    }
}

/// The setpoints after one event.
pub open spec fn after_event(desired: DesiredOutput, event: ButtonEvent) -> DesiredOutput {
    if !event.down {
        desired
    } else {
        match event.button {
            Button::TopLeft => DesiredOutput {
                dac0: Volts { units: lowered(desired.dac0@) as u32 },
                dac1: desired.dac1,
            },
            Button::TopMiddle => DesiredOutput {
                dac0: Volts { units: raised(desired.dac0@) as u32 },
                dac1: desired.dac1,
            },
            Button::Down => DesiredOutput {
                dac0: desired.dac0,
                dac1: Volts { units: lowered(desired.dac1@) as u32 },
            },
            Button::Up => DesiredOutput {
                dac0: desired.dac0,
                dac1: Volts { units: raised(desired.dac1@) as u32 },
            },
            _ => desired,
        }
    }
}

/// The setpoints after a run of events, first to last.
pub open spec fn after_events(desired: DesiredOutput, events: Seq<ButtonEvent>) -> DesiredOutput
    decreases events.len(),
{
    if events.len() == 0 {
        desired
    } else {
        after_event(after_events(desired, events.drop_last()), events.last())
    }
}

impl DesiredOutput {
    /// Both setpoints are levels that presses can lead to.
    pub open spec fn in_range(self) -> bool {
        on_grid(self.dac0@) && on_grid(self.dac1@)
    }
}

/// A press away from the bounds moves the setpoint by exactly half a volt,
/// and a press at a bound leaves it where it is.
pub proof fn law_step_is_half_a_volt(level: int)
    ensures
        level > UNITS_PER_VOLT ==> lowered(level) == level - UNITS_PER_STEP,
        level <= UNITS_PER_VOLT ==> lowered(level) == level,
        level < MAX_OUTPUT_UNITS ==> raised(level) == level + UNITS_PER_STEP,
        level >= MAX_OUTPUT_UNITS ==> raised(level) == level,
{
}

/// Raising a setpoint any number of times never takes it above 20 V, if it
/// starts a whole number of half volts; from in between it would step over
/// the bound. It never takes it down nor off the half volts either.
pub proof fn law_raising_stays_at_or_below_max(level: int, n: nat)
    requires
        whole_steps(level) || level >= MAX_OUTPUT_UNITS,
    ensures
        level <= MAX_OUTPUT_UNITS ==> raised_times(level, n) <= MAX_OUTPUT_UNITS,
        level >= MAX_OUTPUT_UNITS ==> raised_times(level, n) == level,
        raised_times(level, n) >= level,
        whole_steps(level) ==> whole_steps(raised_times(level, n)),
    decreases n,
{
    if n > 0 {
        law_raising_stays_at_or_below_max(level, (n - 1) as nat);
    }
}

/// Lowering a setpoint any number of times never takes it from 1 V or above
/// to below 1 V, if it starts a whole number of half volts; from in between
/// it would step under the bound. It never takes it up nor off the half volts
/// either.
pub proof fn law_lowering_stays_at_or_above_min(level: int, n: nat)
    requires
        whole_steps(level) || level <= UNITS_PER_VOLT,
    ensures
        level >= UNITS_PER_VOLT ==> lowered_times(level, n) >= UNITS_PER_VOLT,
        level <= UNITS_PER_VOLT ==> lowered_times(level, n) == level,
        lowered_times(level, n) <= level,
        whole_steps(level) ==> whole_steps(lowered_times(level, n)),
    decreases n,
{
    if n > 0 {
        law_lowering_stays_at_or_above_min(level, (n - 1) as nat);
    }
}

/// Whatever events arrive, setpoints that started on the grid stay on it, so
/// never above 20 V, and one that has reached 1 V never falls below it again.
pub proof fn law_setpoints_stay_in_range(desired: DesiredOutput, events: Seq<ButtonEvent>)
    requires
        desired.in_range(),
    ensures
        after_events(desired, events).in_range(),
        desired.dac0@ >= UNITS_PER_VOLT ==> after_events(desired, events).dac0@ >= UNITS_PER_VOLT,
        desired.dac1@ >= UNITS_PER_VOLT ==> after_events(desired, events).dac1@ >= UNITS_PER_VOLT,
    decreases events.len(),
{
    if events.len() > 0 {
        law_setpoints_stay_in_range(desired, events.drop_last());
    }
}

} // verus!
