use waydraw::protocol::{MouseButton, MouseState, ServerInformation};
use waydraw::window::{mouse_command, MouseCommand, WindowAction, WindowEvent, WindowState, WindowView};

fn booted() -> WindowState {
    WindowState::boot(ServerInformation { width: 1280, height: 720 })
}

fn form(w: &WindowState) -> (String, String, String, String) {
    match w.display() {
        WindowView::Form { pin, key, wait_reason, error } => (pin, key, wait_reason, error),
        WindowView::Connected => panic!("expected the form"),
    }
}

#[test]
fn boot_shows_empty_form() {
    let w = booted();
    assert!(!w.mouse_loop_running);
    assert_eq!(form(&w), ("None".into(), "None".into(), "".into(), "".into()));
}

#[test]
fn register_waits_and_asks_for_registration() {
    let mut w = booted();
    assert!(matches!(w.update(WindowEvent::Register), WindowAction::Register));
    assert_eq!(w.wait_reason, "Registering...");
}

#[test]
fn successful_registration_shows_pin_and_key() {
    let mut w = booted();
    w.update(WindowEvent::Register);
    let action = w.update(WindowEvent::AwaitClient(Ok(("key-1".into(), "0042".into()))));
    assert!(matches!(action, WindowAction::AwaitConnection));
    assert_eq!(
        form(&w),
        ("0042".into(), "key-1".into(), "Waiting for connection".into(), "".into())
    );
}

#[test]
fn failed_registration_shows_error() {
    let mut w = booted();
    w.update(WindowEvent::Register);
    let action = w.update(WindowEvent::AwaitClient(Err("Timeout".into())));
    assert!(matches!(action, WindowAction::Nothing));
    assert_eq!(form(&w), ("None".into(), "None".into(), "".into(), "Timeout".into()));
}

#[test]
fn connection_starts_mouse_loop_with_server_information() {
    let mut w = booted();
    match w.update(WindowEvent::ConnectionEstablished(Ok(()))) {
        WindowAction::StartMouseLoop(bytes) => {
            assert_eq!(bytes, vec![0x00, 0, 0, 0x05, 0x00, 0, 0, 0x02, 0xd0])
        }
        _ => panic!("expected the mouse loop to start"),
    }
    assert!(w.mouse_loop_running);
    assert_eq!(w.wait_reason, "Connection Established");
    assert!(matches!(w.display(), WindowView::Connected));
    let mut w2 = booted();
    assert!(matches!(
        w2.update(WindowEvent::ConnectionEstablished(Err("send failed".into()))),
        WindowAction::StartMouseLoop(_)
    ));
}

#[test]
fn disconnect_resets_the_window() {
    let mut w = booted();
    w.update(WindowEvent::AwaitClient(Ok(("k".into(), "p".into()))));
    w.update(WindowEvent::ConnectionEstablished(Ok(())));
    assert!(matches!(w.update(WindowEvent::Disconnect), WindowAction::CloseConnection));
    assert!(!w.mouse_loop_running);
    assert_eq!(form(&w), ("None".into(), "None".into(), "".into(), "".into()));
    assert_eq!(w.server_info, ServerInformation { width: 1280, height: 720 });
}

#[test]
fn drop_and_null_change_nothing() {
    let mut w = booted();
    w.update(WindowEvent::AwaitClient(Ok(("k".into(), "p".into()))));
    assert!(matches!(w.update(WindowEvent::Drop), WindowAction::Nothing));
    assert!(matches!(w.update(WindowEvent::Null), WindowAction::Nothing));
    assert_eq!(form(&w), ("p".into(), "k".into(), "Waiting for connection".into(), "".into()));
}

#[test]
fn mouse_commands_from_messages() {
    assert_eq!(
        mouse_command(&[0x10, 0, 0, 0, 3, 0, 0, 0, 4]),
        MouseCommand::Move { x: 3, y: 4 }
    );
    assert_eq!(
        mouse_command(&[0x11, 0x02]),
        MouseCommand::Click { button: MouseButton::Right, state: MouseState::Released }
    );
    assert_eq!(mouse_command(&[0x00, 0, 0, 0, 1, 0, 0, 0, 1]), MouseCommand::Ignore);
    assert_eq!(mouse_command(&[0x77]), MouseCommand::Ignore);
}
