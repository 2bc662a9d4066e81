use browser_shell::dispatch::{dispatch_control, ControlCommand, WindowOp, WindowStatus};

fn plain() -> WindowStatus {
    WindowStatus { minimized: false, maximized: false }
}

#[test]
fn close_on_a_vanished_window_is_a_silent_success() {
    assert_eq!(dispatch_control(ControlCommand::Close, None), None);
}

#[test]
fn every_command_on_a_vanished_window_is_a_silent_success() {
    let cmds = [
        ControlCommand::Show,
        ControlCommand::Hide,
        ControlCommand::Close,
        ControlCommand::Minimize,
        ControlCommand::ToggleMaximize,
        ControlCommand::StartDrag,
    ];
    for cmd in cmds {
        assert_eq!(dispatch_control(cmd, None), None);
    }
}

#[test]
fn minimize_inverts_the_minimized_state() {
    assert_eq!(
        dispatch_control(ControlCommand::Minimize, Some(plain())),
        Some(WindowOp::Minimize)
    );
    assert_eq!(
        dispatch_control(
            ControlCommand::Minimize,
            Some(WindowStatus { minimized: true, maximized: false })
        ),
        Some(WindowOp::Unminimize)
    );
}

#[test]
fn toggle_maximize_inverts_the_maximized_state() {
    assert_eq!(
        dispatch_control(ControlCommand::ToggleMaximize, Some(plain())),
        Some(WindowOp::Maximize)
    );
    assert_eq!(
        dispatch_control(
            ControlCommand::ToggleMaximize,
            Some(WindowStatus { minimized: false, maximized: true })
        ),
        Some(WindowOp::Unmaximize)
    );
}

#[test]
fn plain_commands_map_to_their_operations() {
    assert_eq!(dispatch_control(ControlCommand::Show, Some(plain())), Some(WindowOp::Show));
    assert_eq!(dispatch_control(ControlCommand::Hide, Some(plain())), Some(WindowOp::Hide));
    assert_eq!(dispatch_control(ControlCommand::Close, Some(plain())), Some(WindowOp::Close));
    assert_eq!(
        dispatch_control(ControlCommand::StartDrag, Some(plain())),
        Some(WindowOp::StartDrag)
    );
}
