use limiter::diagnostics::{fmt, to_voltage};
use limiter::logics::{DesiredOutput, Side, State};
use limiter::state::InputValues;
use limiter::tasks::print_state;
use limiter::terminal::Position;
use limiter::text::TextBuffer;
use limiter::volts::Volts;

fn texts(raw_a0: u16, raw_a1: u16, dac0: u16, dac1: u16) -> (String, String) {
    let inputs = InputValues { raw_adc_a0: raw_a0, raw_adc_a1: raw_a1 };
    let desired = DesiredOutput {
        dac0: Volts::from_half_volts(dac0),
        dac1: Volts::from_half_volts(dac1),
    };
    let state = State::from(&inputs, &desired);
    let outputs = state.get_output_level();
    let (left, right) = print_state(&state, &inputs, &outputs);
    (left.text.as_str().to_string(), right.text.as_str().to_string())
}

// The same layout written with single-precision floating point, for
// comparison.
fn text_f32(num: usize, input: f32, desired: f32, real: f32, adc: u16, dac: u16, title: &str) -> String {
    let millivolts = |raw: u16| (raw as f32) / 4096.0 * 3300f32;
    format!(
        "ADC{}:\n Raw:\n   {:>9}\n   {:>7.2}mV\n Converted:\n   {:>08.4}V\n{}:\n  Desired Output:\n    {:>05.1}V\n  Raw:\n    {:>9}\n    {:>7.2}mV\n  Real:\n    {:>05.1}V\n",
        num,
        adc,
        millivolts(adc),
        input,
        title,
        desired,
        dac,
        millivolts(dac),
        real
    )
}

fn scaled_f32(raw: u16) -> f32 {
    let ratio: f32 = 3f32 / 3.3;
    ((raw as f32 / 4096f32) / ratio) * 20.0
}

#[test]
fn empty_buffer_holds_no_text() {
    assert_eq!(TextBuffer::new().as_str(), "");
}

#[test]
fn diagnostics_go_to_fixed_places() {
    let state = State::default();
    let inputs = InputValues::default();
    let (left, right) = print_state(&state, &inputs, &state.get_output_level());
    assert_eq!(left.position, Position { x: 5, y: 30 });
    assert_eq!(right.position, Position { x: 160, y: 30 });
}

#[test]
fn diagnostics_of_a_limited_right_side() {
    let (left, right) = texts(931, 0, 20, 20);
    assert_eq!(
        left,
        "ADC0:\n Raw:\n         931\n    750.07mV\n Converted:\n   005.0005V\nLeft to Right:\n  Desired Output:\n    010.0V\n  Raw:\n         2048\n    1650.00mV\n  Real:\n    010.0V\n"
    );
    assert_eq!(
        right,
        "ADC1:\n Raw:\n           0\n      0.00mV\n Converted:\n   000.0000V\nRight to Left:\n  Desired Output:\n    010.0V\n  Raw:\n         1024\n     825.00mV\n  Real:\n    005.0V\n"
    );
}

#[test]
fn diagnostics_at_startup() {
    let (left, right) = texts(0, 0, 0, 0);
    assert_eq!(
        left,
        "ADC0:\n Raw:\n           0\n      0.00mV\n Converted:\n   000.0000V\nLeft to Right:\n  Desired Output:\n    000.0V\n  Raw:\n            0\n       0.00mV\n  Real:\n    000.0V\n"
    );
    assert_eq!(
        right,
        "ADC1:\n Raw:\n           0\n      0.00mV\n Converted:\n   000.0000V\nRight to Left:\n  Desired Output:\n    000.0V\n  Raw:\n            0\n       0.00mV\n  Real:\n    000.0V\n"
    );
}

#[test]
fn diagnostics_of_both_sides_cut_off() {
    let (left, right) = texts(2793, 4095, 40, 20);
    assert_eq!(
        left,
        "ADC0:\n Raw:\n        2793\n   2250.22mV\n Converted:\n   015.0015V\nLeft to Right:\n  Desired Output:\n    020.0V\n  Raw:\n            0\n       0.00mV\n  Real:\n    000.0V\n"
    );
    assert_eq!(
        right,
        "ADC1:\n Raw:\n        4095\n   3299.19mV\n Converted:\n   021.9946V\nRight to Left:\n  Desired Output:\n    010.0V\n  Raw:\n            0\n       0.00mV\n  Real:\n    000.0V\n"
    );
}

#[test]
fn diagnostics_of_a_code_beyond_the_nominal_range() {
    let (left, right) = texts(65535, 512, 3, 40);
    assert_eq!(
        left,
        "ADC0:\n Raw:\n       65535\n   52799.19mV\n Converted:\n   351.9946V\nLeft to Right:\n  Desired Output:\n    001.5V\n  Raw:\n            0\n       0.00mV\n  Real:\n    000.0V\n"
    );
    assert_eq!(
        right,
        "ADC1:\n Raw:\n         512\n    412.50mV\n Converted:\n   002.7500V\nRight to Left:\n  Desired Output:\n    020.0V\n  Raw:\n            0\n       0.00mV\n  Real:\n    000.0V\n"
    );
}

#[test]
fn a_level_halfway_between_two_decimals_goes_to_the_even_one() {
    // Code 1088 scales to 5.84375 V exactly, and 5.8438 ends on an even digit;
    // as a real output it is 5.84375 V again, nearest to 5.8.
    let (left, right) = texts(1088, 128, 11, 12);
    assert_eq!(
        left,
        "ADC0:\n Raw:\n        1088\n    876.56mV\n Converted:\n   005.8438V\nLeft to Right:\n  Desired Output:\n    005.5V\n  Raw:\n         1126\n     907.18mV\n  Real:\n    005.5V\n"
    );
    assert_eq!(
        right,
        "ADC1:\n Raw:\n         128\n    103.12mV\n Converted:\n   000.6875V\nRight to Left:\n  Desired Output:\n    006.0V\n  Raw:\n         1196\n     963.57mV\n  Real:\n    005.8V\n"
    );
    // Code 512 scales to 2.75 V exactly: one decimal gives 2.8, the even one.
    let side = Side {
        input: Volts::zero(),
        desired_output: Volts::from_units(512 * 220),
        real_output: Volts::from_units(2 * 40960 + 40960 / 4),
    };
    let text = fmt(0, &side, 0, 0, "");
    assert!(text.as_str().contains("Desired Output:\n    002.8V\n"));
    assert!(text.as_str().ends_with("Real:\n    002.2V\n"));
}

#[test]
fn widest_numbers_fit_the_buffer() {
    let side = Side {
        input: Volts::from_units(u32::MAX),
        desired_output: Volts::from_units(u32::MAX),
        real_output: Volts::from_units(u32::MAX),
    };
    let title = "x".repeat(78);
    let text = fmt(usize::MAX, &side, 65535, 65535, &title);
    let expected = format!(
        "ADC{}:\n Raw:\n       65535\n   52799.19mV\n Converted:\n   104857.6000V\n{}:\n  Desired Output:\n    104857.6V\n  Raw:\n        65535\n    52799.19mV\n  Real:\n    104857.6V\n",
        usize::MAX,
        title
    );
    assert_eq!(text.as_str(), expected);
    assert!(text.as_str().len() <= 256);
}

#[test]
fn to_voltage_counts_33_units_per_code() {
    assert_eq!(to_voltage(0), Volts::zero());
    assert_eq!(to_voltage(1).units(), 33);
    assert_eq!(to_voltage(4096).units(), 135168);
    assert_eq!(to_voltage(65535).units(), 2_162_655);
}

#[test]
fn millivolts_agree_with_single_precision_on_the_nominal_range() {
    let side = Side::default();
    for code in 0u16..=4096 {
        let text = fmt(0, &side, code, code, "t");
        let expected = text_f32(0, 0.0, 0.0, 0.0, code, code, "t");
        assert_eq!(text.as_str(), expected, "code {code}");
    }
}

#[test]
fn levels_agree_with_single_precision_on_chosen_codes() {
    for raw in [0u16, 1, 186, 187, 500, 931, 1000, 2048, 2793, 3000, 3723, 4095] {
        for desired in [0u16, 1, 2, 11, 20, 33, 40] {
            let (left, right) = texts(raw, 0, desired, desired);
            let input = scaled_f32(raw);
            let setpoint = desired as f32 * 0.5;
            let real = if input < 1.0 {
                setpoint
            } else if input < setpoint {
                input
            } else {
                0.0
            };
            let dac0 = ((real / 20.0) * 4096.0) as u16;
            let dac1 = ((setpoint / 20.0) * 4096.0) as u16;
            assert_eq!(left, text_f32(0, input, setpoint, setpoint, raw, dac1, "Left to Right"));
            assert_eq!(right, text_f32(1, 0.0, setpoint, real, 0, dac0, "Right to Left"));
        }
    }
}

#[test]
fn a_title_may_hold_any_characters() {
    let text = fmt(7, &Side::default(), 1, 2, "Links \u{2192} Rechts");
    assert_eq!(
        text.as_str(),
        "ADC7:\n Raw:\n           1\n      0.81mV\n Converted:\n   000.0000V\nLinks \u{2192} Rechts:\n  Desired Output:\n    000.0V\n  Raw:\n            2\n       1.61mV\n  Real:\n    000.0V\n"
    );
}
