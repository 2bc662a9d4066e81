//! Control dispatch: a show/hide/close/minimize/toggle-maximize/drag
//! command aimed at any label of a window group is applied to the owning
//! window. The label is resolved through the label scheme; deciding the
//! concrete operation against the window's current state happens here.

use vstd::prelude::*;

verus! {

/// A window-control command from the shell UI.
#[derive(Clone, Copy, PartialEq, Eq, Structural, Debug)]
pub enum ControlCommand {
    Show,
    Hide,
    Close,
    Minimize,
    ToggleMaximize,
    StartDrag,
}

/// What the resolved window currently reports of itself.
#[derive(Clone, Copy, PartialEq, Eq, Structural, Debug)]
pub struct WindowStatus {
    pub minimized: bool,
    pub maximized: bool,
}

/// The operation to apply to the resolved window.
#[derive(Clone, Copy, PartialEq, Eq, Structural, Debug)]
pub enum WindowOp {
    Show,
    Hide,
    Close,
    Minimize,
    Unminimize,
    Maximize,
    Unmaximize,
    StartDrag,
}

pub open spec fn control_op_spec(cmd: ControlCommand, st: WindowStatus) -> WindowOp {
    match cmd {
        ControlCommand::Show => WindowOp::Show,
        ControlCommand::Hide => WindowOp::Hide,
        ControlCommand::Close => WindowOp::Close,
        ControlCommand::Minimize => if st.minimized {
            WindowOp::Unminimize
        } else {
            WindowOp::Minimize
        },
        ControlCommand::ToggleMaximize => if st.maximized {
            WindowOp::Unmaximize
        } else {
            WindowOp::Maximize
        },
        ControlCommand::StartDrag => WindowOp::StartDrag,
    }
}

/// Decides the operation for a control command against the window its
/// label resolved to. A vanished window (`None`) is a silent no-op — the
/// command still succeeds, since the common cause is a benign race with
/// the window being closed. Minimize and toggle-maximize invert the
/// window's current state.
pub fn dispatch_control(cmd: ControlCommand, target: Option<WindowStatus>) -> (r: Option<
    WindowOp,
>)
    ensures
        target is None ==> r is None,
        target matches Some(st) ==> r == Some(control_op_spec(cmd, st)),
{
    match target {
        None => None,
        Some(st) => Some(
            match cmd {
                ControlCommand::Show => WindowOp::Show,
                ControlCommand::Hide => WindowOp::Hide,
                ControlCommand::Close => WindowOp::Close,
                ControlCommand::Minimize => if st.minimized {
                    WindowOp::Unminimize
                } else {
                    WindowOp::Minimize
                },
                ControlCommand::ToggleMaximize => if st.maximized {
                    WindowOp::Unmaximize
                } else {
                    WindowOp::Maximize
                },
                ControlCommand::StartDrag => WindowOp::StartDrag,
            },
        ),
    }
}

} // verus!
