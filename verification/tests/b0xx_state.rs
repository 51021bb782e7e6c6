use b0xx_viewer::b0xx_state::B0xxReport;
use b0xx_viewer::b0xx_state::B0xxState;
use b0xx_viewer::error::ViewerError;
use rand::rngs::SmallRng;
use rand::SeedableRng;

fn flags_of(state: &B0xxState) -> [bool; 20] {
    [
        state.start,
        state.y,
        state.x,
        state.b,
        state.a,
        state.l,
        state.r,
        state.z,
        state.up,
        state.down,
        state.right,
        state.left,
        state.mod_x,
        state.mod_y,
        state.c_left,
        state.c_right,
        state.c_up,
        state.c_down,
        state.mod_ls,
        state.mod_ms,
    ]
}

#[test]
fn b0xx_state_symbols_follow_the_wire_alphabet() {
    assert_eq!(B0xxReport::from(b'0'), B0xxReport::Off);
    assert_eq!(B0xxReport::from(b'1'), B0xxReport::On);
    assert_eq!(B0xxReport::from(b'\n'), B0xxReport::End);
    assert_eq!(B0xxReport::from(b'x'), B0xxReport::Invalid);
    assert_eq!(B0xxReport::from(0), B0xxReport::Invalid);
    assert_eq!(B0xxReport::default(), B0xxReport::Invalid);
    assert!(bool::from(B0xxReport::On));
    assert!(!bool::from(B0xxReport::Off));
}

#[test]
fn b0xx_state_state_decodes_by_position() {
    for position in 0..20 {
        let mut window = vec![B0xxReport::Off; 20];
        window[position] = B0xxReport::On;
        let mut expected = [false; 20];
        expected[position] = true;
        let state = B0xxState::try_from(window.as_slice()).unwrap();
        assert_eq!(flags_of(&state), expected);
        let mut array = [B0xxReport::Off; 20];
        array[position] = B0xxReport::On;
        assert_eq!(B0xxState::from(array), state);
        let mut frame = [B0xxReport::On; 25];
        frame[..20].copy_from_slice(&array);
        assert_eq!(B0xxState::from(frame), state);
    }
}

#[test]
fn b0xx_state_state_rejects_short_windows() {
    let window = vec![B0xxReport::On; 19];
    assert_eq!(B0xxState::try_from(window.as_slice()), Err(ViewerError::MalformedSerialReport));
    assert_eq!(B0xxState::try_from(&[][..]), Err(ViewerError::MalformedSerialReport));
}

#[test]
fn b0xx_state_state_default_is_all_released() {
    assert_eq!(flags_of(&B0xxState::default()), [false; 20]);
}

#[test]
fn b0xx_state_state_from_bytes_holds_where_the_byte_is_one() {
    let mut bytes = [0u8; 20];
    bytes[0] = 1;
    bytes[5] = 2;
    bytes[6] = 255;
    bytes[19] = 1;
    let state = B0xxState::from_bytes(bytes);
    let mut expected = [false; 20];
    expected[0] = true;
    expected[19] = true;
    assert_eq!(flags_of(&state), expected);
}

#[test]
fn b0xx_state_random_state_is_drawn_from_the_generator() {
    let mut first = SmallRng::seed_from_u64(7);
    let mut second = SmallRng::seed_from_u64(7);
    let mut seen_held = false;
    for _ in 0..4000 {
        let state = B0xxState::random(&mut first);
        assert_eq!(state, B0xxState::random(&mut second));
        seen_held |= flags_of(&state).iter().any(|held| *held);
    }
    assert!(seen_held);
}
