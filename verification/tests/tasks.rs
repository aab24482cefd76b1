use limiter::dac::Dac;
use limiter::delay::{cycle_delay_ms, cycle_delay_us, us_to_cycle};
use limiter::logics::{DesiredOutput, State};
use limiter::state::{InputValues, OutputValues};
use limiter::buttons::{Button, ButtonEvent};
use limiter::tasks::{
    adc0_rdy, adc1_rdy, button, dac_update, sync, ACTUATION_PERIOD_MS, CONTROL_PERIOD_MS,
    DIAGNOSTICS_PERIOD_MS, HEARTBEAT_PERIOD_MS,
};
use limiter::volts::Volts;

#[test]
fn stores_start_at_zero() {
    assert_eq!(InputValues::default(), InputValues { raw_adc_a0: 0, raw_adc_a1: 0 });
    assert_eq!(OutputValues::default(), OutputValues { dac0: 0, dac1: 0 });
    assert_eq!(Dac::new().update(), (0, 0));
}

#[test]
fn sample_routine_overwrites_only_its_own_field() {
    let mut inputs = InputValues { raw_adc_a0: 11, raw_adc_a1: 22 };
    adc0_rdy(&mut inputs, Some(333));
    assert_eq!(inputs, InputValues { raw_adc_a0: 333, raw_adc_a1: 22 });
    adc1_rdy(&mut inputs, Some(4444));
    assert_eq!(inputs, InputValues { raw_adc_a0: 333, raw_adc_a1: 4444 });
    adc0_rdy(&mut inputs, Some(65535));
    assert_eq!(inputs, InputValues { raw_adc_a0: 65535, raw_adc_a1: 4444 });
}

#[test]
fn sample_routine_without_a_sample_changes_nothing() {
    let mut inputs = InputValues { raw_adc_a0: 11, raw_adc_a1: 22 };
    adc0_rdy(&mut inputs, None);
    adc1_rdy(&mut inputs, None);
    assert_eq!(inputs, InputValues { raw_adc_a0: 11, raw_adc_a1: 22 });
}

#[test]
fn sample_routines_in_any_order_leave_each_channel_its_last_sample() {
    let mut seed: u32 = 7;
    let mut inputs = InputValues::default();
    let mut last = (0u16, 0u16);
    for _ in 0..10_000 {
        seed = seed.wrapping_mul(1_103_515_245).wrapping_add(12345);
        let sample = (seed >> 8) as u16;
        let ready = (seed >> 30) & 1 == 1;
        if (seed >> 31) == 0 {
            adc0_rdy(&mut inputs, if ready { Some(sample) } else { None });
            if ready {
                last.0 = sample;
            }
        } else {
            adc1_rdy(&mut inputs, if ready { Some(sample) } else { None });
            if ready {
                last.1 = sample;
            }
        }
        assert_eq!((inputs.raw_adc_a0, inputs.raw_adc_a1), last);
    }
}

#[test]
fn control_task_stores_state_and_codes() {
    let inputs = InputValues { raw_adc_a0: 931, raw_adc_a1: 0 };
    let desired = DesiredOutput { dac0: Volts::from_half_volts(20), dac1: Volts::from_half_volts(20) };
    let mut outputs = OutputValues { dac0: 9, dac1: 9 };
    let mut state = State::default();
    sync(&inputs, &desired, &mut outputs, &mut state);
    assert_eq!(state, State::from(&inputs, &desired));
    assert_eq!(state.left.real_output, Volts::from_half_volts(20));
    assert_eq!(state.right.real_output.units(), 204820);
    assert_eq!(outputs, OutputValues { dac0: 1024, dac1: 2048 });
}

#[test]
fn control_task_sees_the_stores_as_they_stand() {
    let mut inputs = InputValues::default();
    let desired = DesiredOutput { dac0: Volts::from_half_volts(10), dac1: Volts::from_half_volts(10) };
    let mut outputs = OutputValues::default();
    let mut state = State::default();
    sync(&inputs, &desired, &mut outputs, &mut state);
    assert_eq!(outputs, OutputValues { dac0: 1024, dac1: 1024 });
    adc0_rdy(&mut inputs, Some(4095));
    assert_eq!(outputs, OutputValues { dac0: 1024, dac1: 1024 });
    sync(&inputs, &desired, &mut outputs, &mut state);
    assert_eq!(outputs, OutputValues { dac0: 0, dac1: 1024 });
}

#[test]
fn actuation_task_commits_the_output_store() {
    let mut dac = Dac::new();
    let codes = dac_update(&mut dac, &OutputValues { dac0: 1024, dac1: 2048 });
    assert_eq!(codes, (1024, 2048));
    assert_eq!(dac.update(), (1024, 2048));
}

#[test]
fn converter_setters_replace_the_named_code() {
    let mut dac = Dac::new();
    dac.set_adc0_desired(5);
    assert_eq!(dac.update(), (5, 0));
    dac.set_adc1_desired(6);
    assert_eq!(dac.update(), (5, 6));
    dac.set(7, 8);
    assert_eq!(dac.update(), (7, 8));
    dac.set_output(&OutputValues { dac0: 4096, dac1: 65535 });
    assert_eq!(dac.update(), (4096, 65535));
}

#[test]
fn a_microsecond_takes_a_hundred_cycles() {
    assert_eq!(us_to_cycle(0), 0);
    assert_eq!(us_to_cycle(1), 100);
    assert_eq!(us_to_cycle(250), 25_000);
    assert_eq!(cycle_delay_us(1), 100);
    assert_eq!(cycle_delay_us(4_294_967), 429_496_700);
}

#[test]
fn a_millisecond_takes_a_hundred_thousand_cycles() {
    assert_eq!(cycle_delay_ms(0), 0);
    assert_eq!(cycle_delay_ms(1), 100_000);
    assert_eq!(cycle_delay_ms(200), 20_000_000);
    assert_eq!(cycle_delay_ms(4_294), 429_400_000);
}

#[test]
fn control_and_actuation_run_every_ten_milliseconds() {
    assert_eq!(CONTROL_PERIOD_MS, 10);
    assert_eq!(ACTUATION_PERIOD_MS, 10);
    assert_eq!(DIAGNOSTICS_PERIOD_MS, 200);
    assert_eq!(HEARTBEAT_PERIOD_MS, 200);
}

#[test]
fn any_run_of_steps_keeps_the_stores_consistent() {
    let buttons = [Button::TopLeft, Button::TopMiddle, Button::Down, Button::Up, Button::Right];
    let mut inputs = InputValues::default();
    let mut outputs = OutputValues::default();
    let mut desired = DesiredOutput::default();
    let mut state = State::default();
    let mut seed: u32 = 2024;
    for _ in 0..50_000 {
        seed = seed.wrapping_mul(1_103_515_245).wrapping_add(12345);
        let sample = (seed >> 4) as u16 % 4096;
        match (seed >> 28) % 4 {
            0 => adc0_rdy(&mut inputs, Some(sample)),
            1 => adc1_rdy(&mut inputs, Some(sample)),
            2 => {
                let b = buttons[(seed >> 16) as usize % buttons.len()];
                button(&mut desired, &ButtonEvent { button: b, down: true });
            }
            _ => {
                let (seen_inputs, seen_desired) = (inputs, desired);
                sync(&inputs, &desired, &mut outputs, &mut state);
                assert_eq!(state, State::from(&seen_inputs, &seen_desired));
            }
        }
        assert_eq!(outputs, state.get_output_level());
        assert!(outputs.dac0 <= 4096 && outputs.dac1 <= 4096);
        assert!(state.left.real_output.units() <= state.left.desired_output.units());
        assert!(state.right.real_output.units() <= state.right.desired_output.units());
        assert!(desired.dac0.units() <= 819200 && desired.dac0.units() % 20480 == 0);
        assert!(desired.dac1.units() <= 819200 && desired.dac1.units() % 20480 == 0);
    }
}
