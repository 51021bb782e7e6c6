use b0xx_viewer::controllers::pad::AxisReading;
use b0xx_viewer::controllers::pad::AxisValue;
use b0xx_viewer::controllers::pad::ButtonReading;
use b0xx_viewer::controllers::pad::GamepadState;
use b0xx_viewer::controllers::ControllerState;
use b0xx_viewer::controllers::ControllerType;
use b0xx_viewer::error::ViewerError;

fn value(v: i32) -> AxisValue {
    AxisValue { negative: v < 0, whole: v.unsigned_abs().min(65535) as u16, fraction: false }
}

fn half() -> AxisValue {
    AxisValue { negative: false, whole: 0, fraction: true }
}

fn axis(code: u32, v: i32) -> AxisReading {
    AxisReading { code, value: value(v) }
}

fn button(code: u32, pressed: bool) -> ButtonReading {
    ButtonReading { code, pressed }
}

fn pad(axes: Vec<AxisReading>, buttons: Vec<ButtonReading>) -> GamepadState {
    GamepadState { axes, buttons }
}

fn named(names: &[&str]) -> ControllerState {
    let mut state = ControllerState::default();
    for name in names {
        match *name {
            "start" => state.start = true,
            "y" => state.y = true,
            "x" => state.x = true,
            "b" => state.b = true,
            "a" => state.a = true,
            "l" => state.l = true,
            "r" => state.r = true,
            "z" => state.z = true,
            "up" => state.up = true,
            "down" => state.down = true,
            "right" => state.right = true,
            "left" => state.left = true,
            "mod_x" => state.mod_x = true,
            "mod_y" => state.mod_y = true,
            "c_left" => state.c_left = true,
            "c_right" => state.c_right = true,
            "c_up" => state.c_up = true,
            "c_down" => state.c_down = true,
            "mod_ls" => state.mod_ls = true,
            "mod_ms" => state.mod_ms = true,
            other => panic!("no control named {}", other),
        }
    }
    state
}

#[test]
fn axis_value_comparisons() {
    assert!(value(5).is_positive());
    assert!(!value(5).is_negative());
    assert!(value(-5).is_negative());
    assert!(!value(0).is_positive() && !value(0).is_negative());
    assert!(half().is_positive());
    let minus_zero = AxisValue { negative: true, whole: 0, fraction: false };
    assert!(!minus_zero.is_positive() && !minus_zero.is_negative());
    assert!(value(24001).exceeds(24000));
    assert!(!value(24000).exceeds(24000));
    assert!(AxisValue { negative: false, whole: 24000, fraction: true }.exceeds(24000));
    assert!(!AxisValue { negative: true, whole: 30000, fraction: false }.exceeds(24000));
    assert!(value(7000).magnitude_within(1, 7000));
    assert!(!value(7001).magnitude_within(1, 7000));
    assert!(value(-7000).magnitude_within(1, 7000));
    assert!(!half().magnitude_within(1, 7000));
}

#[test]
fn empty_pad_is_resting_state() {
    let empty = pad(vec![], vec![]);
    assert_eq!(ControllerState::from_b0xx_gilrs(&empty), ControllerState::default());
    assert_eq!(ControllerState::from_frame1_gilrs(&empty), ControllerState::default());
}

#[test]
fn b0xx_stick_axes_set_directions_and_modifiers() {
    let state = ControllerState::from_b0xx_gilrs(&pad(vec![axis(0, 5000)], vec![]));
    assert_eq!(state, named(&["right", "mod_y"]));
    let state = ControllerState::from_b0xx_gilrs(&pad(vec![axis(0, -9000)], vec![]));
    assert_eq!(state, named(&["left", "mod_x"]));
    let state = ControllerState::from_b0xx_gilrs(&pad(vec![axis(0, 20000)], vec![]));
    assert_eq!(state, named(&["right"]));
    let state = ControllerState::from_b0xx_gilrs(&pad(vec![axis(1, 12000)], vec![]));
    assert_eq!(state, named(&["up", "mod_x"]));
    let state = ControllerState::from_b0xx_gilrs(&pad(vec![axis(1, -12001)], vec![]));
    assert_eq!(state, named(&["down", "mod_y"]));
    let state = ControllerState::from_b0xx_gilrs(&pad(vec![axis(1, -16001)], vec![]));
    assert_eq!(state, named(&["down"]));
    let state = ControllerState::from_b0xx_gilrs(&pad(
        vec![AxisReading { code: 0, value: half() }],
        vec![],
    ));
    assert_eq!(state, named(&["right"]));
}

#[test]
fn b0xx_thresholds_are_inclusive_where_stated() {
    let limits = [
        (0, 1, "mod_y"),
        (0, 7000, "mod_y"),
        (0, 7001, "mod_x"),
        (0, 14000, "mod_x"),
        (1, 1, "mod_x"),
        (1, 12000, "mod_x"),
        (1, 12001, "mod_y"),
        (1, 16000, "mod_y"),
    ];
    for (code, deflection, modifier) in limits {
        let state = ControllerState::from_b0xx_gilrs(&pad(vec![axis(code, deflection)], vec![]));
        let direction = if code == 0 { "right" } else { "up" };
        assert_eq!(state, named(&[direction, modifier]), "axis {} at {}", code, deflection);
    }
    let state = ControllerState::from_b0xx_gilrs(&pad(vec![axis(0, 14001)], vec![]));
    assert_eq!(state, named(&["right"]));
    let state = ControllerState::from_b0xx_gilrs(&pad(vec![axis(1, 16001)], vec![]));
    assert_eq!(state, named(&["up"]));
}

#[test]
fn b0xx_c_stick_and_trigger_axes() {
    let state = ControllerState::from_b0xx_gilrs(&pad(vec![axis(2, 1), axis(3, -1)], vec![]));
    assert_eq!(state, named(&["c_right", "c_down"]));
    let state = ControllerState::from_b0xx_gilrs(&pad(vec![axis(2, -1), axis(3, 1)], vec![]));
    assert_eq!(state, named(&["c_left", "c_up"]));
    let state = ControllerState::from_b0xx_gilrs(&pad(vec![axis(4, 12000)], vec![]));
    assert_eq!(state, named(&[]));
    let state = ControllerState::from_b0xx_gilrs(&pad(vec![axis(4, 12001)], vec![]));
    assert_eq!(state, named(&["mod_ls"]));
    let state = ControllerState::from_b0xx_gilrs(&pad(vec![axis(4, 24000)], vec![]));
    assert_eq!(state, named(&["mod_ls"]));
    let state = ControllerState::from_b0xx_gilrs(&pad(vec![axis(4, 24001)], vec![]));
    assert_eq!(state, named(&["mod_ms"]));
    let state = ControllerState::from_b0xx_gilrs(&pad(vec![axis(4, -30000)], vec![]));
    assert_eq!(state, named(&[]));
}

#[test]
fn b0xx_buttons_map_one_to_one() {
    let table = [
        (0, "a"),
        (1, "b"),
        (2, "x"),
        (3, "y"),
        (4, "z"),
        (5, "l"),
        (6, "r"),
        (7, "start"),
    ];
    for (code, name) in table {
        let state = ControllerState::from_b0xx_gilrs(&pad(vec![], vec![button(code, true)]));
        assert_eq!(state, named(&[name]));
        let state = ControllerState::from_b0xx_gilrs(&pad(vec![], vec![button(code, false)]));
        assert_eq!(state, named(&[]));
    }
    let chords = [(8, "c_left"), (9, "c_up"), (10, "c_right"), (11, "c_down")];
    for (code, name) in chords {
        let state = ControllerState::from_b0xx_gilrs(&pad(vec![], vec![button(code, true)]));
        assert_eq!(state, named(&["mod_x", "mod_y", name]));
        let state = ControllerState::from_b0xx_gilrs(&pad(vec![], vec![button(code, false)]));
        assert_eq!(state, named(&[]));
    }
}

#[test]
fn codes_out_of_range_are_not_read() {
    let readings = pad(vec![axis(5, 30000), axis(77, -1)], vec![button(12, true), button(400, true)]);
    assert_eq!(ControllerState::from_b0xx_gilrs(&readings), ControllerState::default());
    assert_eq!(ControllerState::from_frame1_gilrs(&readings), ControllerState::default());
}

#[test]
fn last_reading_of_a_button_wins() {
    let state = ControllerState::from_b0xx_gilrs(&pad(
        vec![],
        vec![button(0, true), button(0, false), button(1, false), button(1, true)],
    ));
    assert_eq!(state, named(&["b"]));
}

#[test]
fn raised_flags_stay_raised() {
    let state = ControllerState::from_b0xx_gilrs(&pad(
        vec![axis(0, 5), axis(0, 0), axis(0, -5)],
        vec![button(8, true), button(8, false)],
    ));
    assert_eq!(state, named(&["right", "left", "mod_x", "mod_y", "c_left"]));
}

#[test]
fn frame1_axes_and_buttons() {
    let state = ControllerState::from_frame1_gilrs(&pad(
        vec![axis(0, -3), axis(1, 3), axis(2, 1), axis(3, -1), axis(4, 46)],
        vec![button(0, true), button(4, true), button(9, true)],
    ));
    assert_eq!(
        state,
        named(&["left", "up", "c_up", "c_left", "mod_ms", "a", "start", "mod_x", "mod_y", "c_right"])
    );
    let state = ControllerState::from_frame1_gilrs(&pad(vec![axis(4, 45)], vec![]));
    assert_eq!(state, named(&["mod_ls"]));
    let state = ControllerState::from_frame1_gilrs(&pad(vec![axis(4, 10)], vec![]));
    assert_eq!(state, named(&[]));
    let state = ControllerState::from_frame1_gilrs(&pad(vec![axis(4, 11)], vec![]));
    assert_eq!(state, named(&["mod_ls"]));
    let state = ControllerState::from_frame1_gilrs(&pad(vec![axis(0, 9000)], vec![]));
    assert_eq!(state, named(&["right"]));
}

#[test]
fn frame1_buttons_map_one_to_one() {
    let table = [(0, "a"), (1, "b"), (2, "x"), (3, "y"), (4, "start")];
    for (code, name) in table {
        let state = ControllerState::from_frame1_gilrs(&pad(vec![], vec![button(code, true)]));
        assert_eq!(state, named(&[name]));
    }
    let chords = [(8, "c_left"), (9, "c_right"), (10, "c_down"), (11, "c_up")];
    for (code, name) in chords {
        let state = ControllerState::from_frame1_gilrs(&pad(vec![], vec![button(code, true)]));
        assert_eq!(state, named(&["mod_x", "mod_y", name]));
    }
    for code in [5, 6, 7, 12, 13, 14] {
        let state = ControllerState::from_frame1_gilrs(&pad(vec![], vec![button(code, true)]));
        assert_eq!(state, named(&[]));
    }
}

#[test]
fn family_selects_the_mapping() {
    let readings = pad(vec![axis(2, 1), axis(0, 9000)], vec![button(4, true)]);
    assert_eq!(
        ControllerType::B0XX.controller_state_from_report(&readings),
        named(&["c_right", "right", "mod_x", "z"])
    );
    assert_eq!(
        ControllerType::DIYB0XX.controller_state_from_report(&readings),
        ControllerState::from_b0xx_gilrs(&readings)
    );
    assert_eq!(
        ControllerType::Frame1.controller_state_from_report(&readings),
        named(&["c_up", "right", "start"])
    );
}

#[test]
fn device_names() {
    assert_eq!(ControllerType::B0XX.device_name(), "Arduino Leonardo");
    assert_eq!(ControllerType::Frame1.device_name(), "Frame1");
    assert_eq!(ControllerType::DIYB0XX.device_name(), "Arduino");
}

#[test]
fn family_from_pad_name() {
    assert_eq!(ControllerType::from_str("Arduino Leonardo"), Ok(ControllerType::B0XX));
    assert_eq!(ControllerType::from_str("Arduino LLC Arduino Leonardo"), Ok(ControllerType::B0XX));
    assert_eq!(ControllerType::from_str("my Frame1 pad"), Ok(ControllerType::Frame1));
    assert_eq!(ControllerType::from_str("Arduino Micro"), Ok(ControllerType::DIYB0XX));
    assert_eq!(ControllerType::from_str("Frame1 on Arduino"), Ok(ControllerType::Frame1));
    assert_eq!(ControllerType::from_str("arduino leonardo"), Err(ViewerError::ControllerNotFound));
    assert_eq!(ControllerType::from_str(""), Err(ViewerError::ControllerNotFound));
    assert_eq!("Xbox pad".parse::<ControllerType>(), Err(ViewerError::ControllerNotFound));
    assert_eq!("Frame1".parse::<ControllerType>(), Ok(ControllerType::Frame1));
}
