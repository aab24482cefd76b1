use limiter::buttons::{Button, ButtonEvent};
use limiter::logics::DesiredOutput;
use limiter::tasks::{button, button_message};
use limiter::terminal::Position;
use limiter::volts::Volts;

fn press(b: Button) -> ButtonEvent {
    ButtonEvent { button: b, down: true }
}

fn release(b: Button) -> ButtonEvent {
    ButtonEvent { button: b, down: false }
}

fn at(dac0: u16, dac1: u16) -> DesiredOutput {
    DesiredOutput { dac0: Volts::from_half_volts(dac0), dac1: Volts::from_half_volts(dac1) }
}

#[test]
fn top_middle_raises_output_0_by_half_a_volt() {
    let mut d = at(20, 20);
    button(&mut d, &press(Button::TopMiddle));
    assert_eq!(d, at(21, 20));
    assert_eq!(d.dac0.units(), 10 * 40960 + 20480);
}

#[test]
fn top_left_lowers_output_0_by_half_a_volt() {
    let mut d = at(20, 20);
    button(&mut d, &press(Button::TopLeft));
    assert_eq!(d, at(19, 20));
}

#[test]
fn up_raises_output_1_by_half_a_volt() {
    let mut d = at(20, 20);
    button(&mut d, &press(Button::Up));
    assert_eq!(d, at(20, 21));
}

#[test]
fn down_lowers_output_1_by_half_a_volt() {
    let mut d = at(20, 20);
    button(&mut d, &press(Button::Down));
    assert_eq!(d, at(20, 19));
}

#[test]
fn repeated_raising_stops_at_twenty_volts() {
    let mut d = DesiredOutput::default();
    for step in 1u16..=40 {
        button(&mut d, &press(Button::TopMiddle));
        button(&mut d, &press(Button::Up));
        assert_eq!(d, at(step, step));
    }
    for _ in 0..100 {
        button(&mut d, &press(Button::TopMiddle));
        button(&mut d, &press(Button::Up));
        assert_eq!(d, at(40, 40));
    }
}

#[test]
fn repeated_lowering_stops_at_one_volt() {
    let mut d = at(40, 40);
    for step in 1u16..=38 {
        button(&mut d, &press(Button::TopLeft));
        button(&mut d, &press(Button::Down));
        assert_eq!(d, at(40 - step, 40 - step));
    }
    for _ in 0..100 {
        button(&mut d, &press(Button::TopLeft));
        button(&mut d, &press(Button::Down));
        assert_eq!(d, at(2, 2));
    }
}

#[test]
fn setpoint_below_one_volt_is_not_lowered() {
    let mut d = DesiredOutput::default();
    button(&mut d, &press(Button::TopLeft));
    button(&mut d, &press(Button::Down));
    assert_eq!(d, at(0, 0));
    let mut d = at(1, 1);
    button(&mut d, &press(Button::TopLeft));
    button(&mut d, &press(Button::Down));
    assert_eq!(d, at(1, 1));
}

#[test]
fn releases_and_other_buttons_change_nothing() {
    let all = [
        Button::TopLeft,
        Button::TopMiddle,
        Button::Down,
        Button::Up,
        Button::Left,
        Button::Right,
        Button::Click,
    ];
    for b in all {
        let mut d = at(20, 20);
        button(&mut d, &release(b));
        assert_eq!(d, at(20, 20));
    }
    for b in [Button::Left, Button::Right, Button::Click] {
        let mut d = at(20, 20);
        button(&mut d, &press(b));
        assert_eq!(d, at(20, 20));
    }
}

#[test]
fn setpoints_off_the_half_volt_grid_move_by_the_same_rule() {
    let mut d = DesiredOutput {
        dac0: Volts::from_units(40961),
        dac1: Volts::from_units(819199),
    };
    button(&mut d, &press(Button::TopLeft));
    button(&mut d, &press(Button::Up));
    assert_eq!(d.dac0.units(), 20481);
    assert_eq!(d.dac1.units(), 839679);
}

#[test]
fn any_run_of_presses_keeps_setpoints_within_bounds() {
    let buttons = [Button::TopLeft, Button::TopMiddle, Button::Down, Button::Up, Button::Click];
    let mut d = at(2, 40);
    let mut seed: u32 = 12345;
    for _ in 0..10_000 {
        seed = seed.wrapping_mul(1_103_515_245).wrapping_add(12345);
        let b = buttons[(seed >> 16) as usize % buttons.len()];
        let before = d;
        button(&mut d, &ButtonEvent { button: b, down: (seed >> 8) & 1 == 1 });
        for (old, new) in [(before.dac0, d.dac0), (before.dac1, d.dac1)] {
            assert!(new.units() >= 40960 && new.units() <= 819200);
            assert_eq!(new.units() % 20480, 0);
            let moved = new.units().abs_diff(old.units());
            assert!(moved == 0 || moved == 20480);
        }
    }
}

#[test]
fn a_button_event_is_told_in_one_line() {
    let message = button_message(&press(Button::TopLeft)).unwrap();
    assert_eq!(message.text.as_str(), "Btn ButtonEvent { button: TopLeft, down: true }\n");
    assert_eq!(message.position, Position { x: 5, y: 35 });
    let message = button_message(&release(Button::Click)).unwrap();
    assert_eq!(message.text.as_str(), "Btn ButtonEvent { button: Click, down: false }\n");
}

#[test]
fn every_button_event_has_its_own_line() {
    let names = [
        (Button::TopLeft, "TopLeft"),
        (Button::TopMiddle, "TopMiddle"),
        (Button::Down, "Down"),
        (Button::Up, "Up"),
        (Button::Left, "Left"),
        (Button::Right, "Right"),
        (Button::Click, "Click"),
    ];
    for (b, name) in names {
        for down in [true, false] {
            let message = button_message(&ButtonEvent { button: b, down }).unwrap();
            let expected = format!("Btn ButtonEvent {{ button: {}, down: {} }}\n", name, down);
            assert_eq!(message.text.as_str(), expected);
        }
    }
}
