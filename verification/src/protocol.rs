//! The conversation between the engine and the window system.
//!
//! The engine never touches a window itself. Each operation is a task that
//! names one request at a time; whoever drives the task carries the request
//! out and hands the reply back, until the task names its outcome.

use vstd::prelude::*;
use crate::geometry::{Placement, Point, Rect};
use crate::handle::WindowHandle;
use crate::style::WindowStyle;
use crate::window::WindowInfo;

verus! {

/// Message by which the shell root is told to create the anchor.
pub const SPAWN_WORKER_MESSAGE: u32 = 0x052C;

/// Message by which a window is asked to close.
pub const CLOSE_MESSAGE: u32 = 0x0010;

/// Show command that activates a window in its current size and position.
pub const SHOW_COMMAND: i32 = 5;

pub const SWP_NOSIZE: u32 = 0x0001;
pub const SWP_NOMOVE: u32 = 0x0002;
pub const SWP_NOZORDER: u32 = 0x0004;
pub const SWP_FRAMECHANGED: u32 = 0x0020;
pub const SWP_NOOWNERZORDER: u32 = 0x0200;

/// Positioning flags that make the window system apply a changed frame
/// style without moving, resizing or restacking the window.
pub const FRAME_REFRESH_FLAGS: u32 = SWP_FRAMECHANGED | SWP_NOMOVE | SWP_NOSIZE | SWP_NOZORDER
    | SWP_NOOWNERZORDER;

/// Positioning flags of a plain move and resize.
pub const MOVE_FLAGS: u32 = 0;

/// One call that the engine asks of the window system.
#[derive(Clone, Copy, Debug, PartialEq, Eq)]
pub enum Request {
    /// Find the top-level window of the given class.
    FindWindowByClass { class: &'static str },
    /// Enumerate all top-level windows.
    EnumerateWindows,
    /// Enumerate all descendants of a window.
    EnumerateDescendants { of: WindowHandle },
    /// Send a message to a window and wait until it is handled.
    SendMessage { to: WindowHandle, message: u32, wparam: u64, lparam: i64 },
    /// Read the class name of a window.
    ClassName { of: WindowHandle },
    /// Name the direct parent of a window.
    Parent { of: WindowHandle },
    /// Read both style bitfields of a window, with the error code the reads
    /// left behind.
    ReadStyle { of: WindowHandle },
    /// Write both style bitfields of a window.
    WriteStyle { of: WindowHandle, style: WindowStyle },
    /// Read the rectangle of a window in screen coordinates.
    WindowRect { of: WindowHandle },
    /// Convert a rectangle from screen coordinates into the coordinate space
    /// of a window.
    MapToWindow { to: WindowHandle, rect: Rect },
    /// Give a window a new parent.
    SetParent { child: WindowHandle, parent: WindowHandle },
    /// Name the desktop window, the parent of all top-level windows.
    DesktopWindow,
    /// Show a window.
    Show { window: WindowHandle, command: i32 },
    /// Position a window.
    SetWindowPos { window: WindowHandle, placement: Placement, flags: u32 },
    /// Mark the whole area of a window for repainting; the null handle
    /// stands for every window.
    Invalidate { window: WindowHandle },
    /// Find the monitor nearest to a point on the screen.
    NearestMonitor { point: Point },
    /// Read the full rectangle of a monitor.
    MonitorRect { monitor: u64 },
    /// Start the command that the caller holds.
    Spawn,
    /// Let the given time pass.
    Sleep { millis: u64 },
}

/// What the window system answered.
#[derive(Clone, Debug, PartialEq, Eq)]
pub enum Reply {
    /// The call was made; it has no result, or none that matters.
    Done,
    /// A window, or the null handle.
    Handle(WindowHandle),
    Flag(bool),
    Text(String),
    /// Both style bitfields as the call returned them, with the error code
    /// pending after the call.
    Style { style: WindowStyle, last_error: u32 },
    /// A rectangle, or `None` where it could not be had.
    Area(Option<Rect>),
    /// A monitor, or zero.
    Monitor(u64),
    /// The id of a started process.
    Process(u32),
    /// A snapshot in enumeration order.
    Windows(Vec<WindowInfo>),
}

/// What a task wants next.
#[derive(Clone, Copy, Debug, PartialEq, Eq)]
pub enum Step<T> {
    /// The request to carry out; its reply resumes the task.
    Call(Request),
    /// The task has ended with this outcome.
    Done(T),
}

/// An operation of the engine, suspended at a request.
pub trait Task: Sized {
    type Outcome;

    /// The state and the step that follow when the pending request is
    /// answered with `reply`.
    spec fn after(self, reply: Reply) -> (Self, Step<Self::Outcome>);

    /// Takes the reply to the pending request and moves on.
    fn resume(self, reply: &Reply) -> (next: (Self, Step<Self::Outcome>))
        ensures
            next == self.after(*reply),
    ;
}

} // verus!
