use waydraw::protocol::{
    FromBytes, IntoBytes, MouseButton, MouseClick, MouseMove, MouseState, ServerInformation,
};

#[test]
fn server_information_into_bytes() {
    let info = ServerInformation { width: 1920, height: 1080 };
    assert_eq!(info.into_bytes(), vec![0x00, 0, 0, 0x07, 0x80, 0, 0, 0x04, 0x38]);
}

#[test]
fn server_information_from_bytes() {
    let info = ServerInformation::from_bytes(&[0, 0, 0x0a, 0x00, 0, 0, 0x05, 0xa0]);
    assert_eq!(info.width, 2560);
    assert_eq!(info.height, 1440);
}

#[test]
fn mouse_move_into_bytes() {
    let m = MouseMove { x: 0x0102_0304, y: 5 };
    assert_eq!(m.into_bytes(), vec![0x10, 1, 2, 3, 4, 0, 0, 0, 5]);
}

#[test]
fn mouse_move_from_bytes_ignores_extra_bytes() {
    let m = MouseMove::from_bytes(&[0xff, 0xff, 0xff, 0xff, 0, 0, 0x01, 0x00, 9, 9]);
    assert_eq!(m.x, u32::MAX);
    assert_eq!(m.y, 256);
}

#[test]
fn mouse_click_into_bytes_all_combinations() {
    let cases = [
        (MouseButton::Left, MouseState::Released, 0u8),
        (MouseButton::Left, MouseState::Pressed, 1u8),
        (MouseButton::Right, MouseState::Released, 2u8),
        (MouseButton::Right, MouseState::Pressed, 3u8),
    ];
    for (button, state, arg) in cases {
        assert_eq!(MouseClick { button, state }.into_bytes(), vec![0x11, arg]);
    }
}

#[test]
fn mouse_click_from_bytes_reads_low_bits_only() {
    let c = MouseClick::from_bytes(&[0xfe]);
    assert_eq!(c.button, MouseButton::Right);
    assert_eq!(c.state, MouseState::Released);
    let c = MouseClick::from_bytes(&[0x01]);
    assert_eq!(c.button, MouseButton::Left);
    assert_eq!(c.state, MouseState::Pressed);
}

#[test]
fn buttons_and_states_as_bytes() {
    assert_eq!(u8::from(MouseButton::Left), 0);
    assert_eq!(u8::from(MouseButton::Right), 1);
    assert_eq!(u8::from(MouseState::Released), 0);
    assert_eq!(u8::from(MouseState::Pressed), 1);
}

#[test]
fn buttons_and_states_from_bytes() {
    assert_eq!(MouseButton::try_from(0u8), Ok(MouseButton::Left));
    assert_eq!(MouseButton::try_from(1u8), Ok(MouseButton::Right));
    assert_eq!(MouseButton::try_from(2u8), Err("Invalid u8".to_string()));
    assert_eq!(MouseState::try_from(0u8), Ok(MouseState::Released));
    assert_eq!(MouseState::try_from(1u8), Ok(MouseState::Pressed));
    assert_eq!(MouseState::try_from(255u8), Err("Invalid u8".to_string()));
}

#[test]
fn parse_server_information() {
    match FromBytes::parse(&[0x00, 0, 0, 0x03, 0x20, 0, 0, 0x02, 0x58]) {
        FromBytes::ServerInformation(info) => {
            assert_eq!(info.width, 800);
            assert_eq!(info.height, 600);
        }
        _ => panic!("expected server information"),
    }
}

#[test]
fn parse_mouse_move() {
    match FromBytes::parse(&[0x10, 0, 0, 0, 10, 0, 0, 0, 20]) {
        FromBytes::MouseMove(m) => {
            assert_eq!(m.x, 10);
            assert_eq!(m.y, 20);
        }
        _ => panic!("expected a move"),
    }
}

#[test]
fn parse_mouse_click() {
    match FromBytes::parse(&[0x11, 0x03]) {
        FromBytes::MouseClick(c) => {
            assert_eq!(c.button, MouseButton::Right);
            assert_eq!(c.state, MouseState::Pressed);
        }
        _ => panic!("expected a click"),
    }
}

#[test]
fn parse_unknown_instruction_keeps_all_bytes() {
    match FromBytes::parse(&[0x42, 1, 2]) {
        FromBytes::UnknownInstruction(bytes) => assert_eq!(bytes, vec![0x42, 1, 2]),
        _ => panic!("expected an unknown instruction"),
    }
    match FromBytes::parse(&[0x12]) {
        FromBytes::UnknownInstruction(bytes) => assert_eq!(bytes, vec![0x12]),
        _ => panic!("expected an unknown instruction"),
    }
}

#[test]
fn written_messages_parse_back() {
    for (x, y) in [(0u32, 0u32), (1, u32::MAX), (0xdead_beef, 42)] {
        let m = MouseMove { x, y };
        match FromBytes::parse(&m.into_bytes()) {
            FromBytes::MouseMove(back) => assert_eq!(back, m),
            _ => panic!("expected a move"),
        }
        let info = ServerInformation { width: x, height: y };
        match FromBytes::parse(&info.into_bytes()) {
            FromBytes::ServerInformation(back) => assert_eq!(back, info),
            _ => panic!("expected server information"),
        }
    }
    for button in [MouseButton::Left, MouseButton::Right] {
        for state in [MouseState::Released, MouseState::Pressed] {
            let c = MouseClick { button, state };
            match FromBytes::parse(&c.into_bytes()) {
                FromBytes::MouseClick(back) => assert_eq!(back, c),
                _ => panic!("expected a click"),
            }
        }
    }
}

#[test]
fn arguments_read_and_written_again_are_canonical() {
    let args = [7u8, 6, 5, 4, 3, 2, 1, 0, 99];
    let mut expected = vec![0x10];
    expected.extend_from_slice(&args[..8]);
    assert_eq!(MouseMove::from_bytes(&args).into_bytes(), expected);
    assert_eq!(MouseClick::from_bytes(&[0xfd]).into_bytes(), vec![0x11, 0xfd % 4]);
}
