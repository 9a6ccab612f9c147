//! A model of the window system, against which the tasks of the engine are
//! run in proofs.
//!
//! The model is a desktop of windows that answers each request as the
//! window system is documented to: it finds a window by the first record
//! that carries its handle, changes that record, and reports what was there
//! before. It covers the requests by which windows are inspected, restyled,
//! moved and reparented. What it answers to a request on a window that it
//! does not hold is the failure that the window system reports.

use vstd::prelude::*;
use crate::geometry::{Placement, Point, Rect};
use crate::handle::WindowHandle;
use crate::protocol::{
    Reply, Request, Step, Task, CLOSE_MESSAGE, FRAME_REFRESH_FLAGS, MOVE_FLAGS,
};
use crate::style::WindowStyle;
use crate::window::{first_index, has_handle, WindowInfo};

verus! {

/// Error code that the window system leaves behind when a handle names no
/// window.
pub const INVALID_WINDOW_HANDLE: u32 = 1400;

/// The windows and monitors of a desktop at one moment.
pub struct Desktop {
    /// One record per window, in enumeration order.
    pub windows: Seq<WindowInfo>,
    /// The desktop window, parent of every top-level window. It has no
    /// record of its own.
    pub root: WindowHandle,
    /// The full rectangle of each monitor.
    pub monitors: Map<u64, Rect>,
    /// The monitor nearest to a point, for the points that have one.
    pub nearest: Map<Point, u64>,
}

/// The rectangle moved by `(dx, dy)`, if its edges stay within 32 bits.
pub open spec fn shifted(rect: Rect, dx: int, dy: int) -> Option<Rect> {
    if i32::MIN <= rect.left + dx <= i32::MAX && i32::MIN <= rect.right + dx <= i32::MAX
        && i32::MIN <= rect.top + dy <= i32::MAX && i32::MIN <= rect.bottom + dy <= i32::MAX {
        Some(
            Rect {
                left: (rect.left + dx) as i32,
                top: (rect.top + dy) as i32,
                right: (rect.right + dx) as i32,
                bottom: (rect.bottom + dy) as i32,
            },
        )
    } else {
        None
    }
}

/// The edges of a placement, as a rectangle.
pub open spec fn edges(placement: Placement) -> Option<Rect> {
    if i32::MIN <= placement.x + placement.width <= i32::MAX && i32::MIN <= placement.y
        + placement.height <= i32::MAX {
        Some(
            Rect {
                left: placement.x,
                top: placement.y,
                right: (placement.x + placement.width) as i32,
                bottom: (placement.y + placement.height) as i32,
            },
        )
    } else {
        None
    }
}

impl Desktop {
    /// Whether the records are those of a desktop: no handle is null, no
    /// window is without a parent, no two records carry one handle, and
    /// none carries that of the desktop window.
    pub open spec fn wf(self) -> bool {
        &&& !self.root.spec_is_null()
        &&& forall|i: int|
            0 <= i < self.windows.len() ==> {
                &&& !(#[trigger] self.windows[i]).handle.spec_is_null()
                &&& !self.windows[i].parent.spec_is_null()
                &&& self.windows[i].handle != self.root
            }
        &&& forall|i: int, j: int|
            0 <= i < self.windows.len() && 0 <= j < self.windows.len() && i != j ==> (
            #[trigger] self.windows[i]).handle != (#[trigger] self.windows[j]).handle
    }

    /// Position of the record of window `h`.
    pub open spec fn index_of(self, h: WindowHandle) -> Option<int> {
        first_index(self.windows, has_handle(h))
    }

    /// Whether the desktop holds the window `h`.
    pub open spec fn holds(self, h: WindowHandle) -> bool {
        self.index_of(h).is_some()
    }

    /// The record of window `h`, which the desktop holds.
    pub open spec fn record(self, h: WindowHandle) -> WindowInfo
        recommends
            self.holds(h),
    {
        self.windows[self.index_of(h).unwrap()]
    }

    /// This desktop with record `i` replaced.
    pub open spec fn with_window(self, i: int, w: WindowInfo) -> Desktop {
        Desktop { windows: self.windows.update(i, w), ..self }
    }

    /// This desktop without record `i`.
    pub open spec fn without_window(self, i: int) -> Desktop {
        Desktop { windows: self.windows.remove(i), ..self }
    }

    /// Screen position of the point from which the children of `parent`
    /// count their coordinates: the corner of the parent, and the corner of
    /// the screen for top-level windows.
    pub open spec fn origin_of(self, parent: WindowHandle) -> (int, int) {
        match self.index_of(parent) {
            Some(p) => (self.windows[p].rect.left as int, self.windows[p].rect.top as int),
            None => (0, 0),
        }
    }

    /// The desktop after the request, and the reply to it. `None` for a
    /// request that the model does not cover.
    pub open spec fn respond(self, request: Request) -> Option<(Desktop, Reply)> {
        match request {
            Request::ClassName { of } => match self.index_of(of) {
                Some(i) => Some((self, Reply::Text(self.windows[i].class_name))),
                None => None,
            },
            Request::Parent { of } => match self.index_of(of) {
                Some(i) => Some((self, Reply::Handle(self.windows[i].parent))),
                None => Some((self, Reply::Handle(WindowHandle { raw: 0 }))),
            },
            Request::ReadStyle { of } => match self.index_of(of) {
                Some(i) => Some(
                    (self, Reply::Style { style: self.windows[i].style, last_error: 0 }),
                ),
                None => Some((self, spec_no_style())),
            },
            Request::WriteStyle { of, style } => match self.index_of(of) {
                Some(i) => Some(
                    (
                        self.with_window(i, WindowInfo { style, ..self.windows[i] }),
                        Reply::Style { style: self.windows[i].style, last_error: 0 },
                    ),
                ),
                None => Some((self, spec_no_style())),
            },
            Request::WindowRect { of } => match self.index_of(of) {
                Some(i) => Some((self, Reply::Area(Some(self.windows[i].rect)))),
                None => Some((self, Reply::Area(None))),
            },
            Request::MapToWindow { to, rect } => if self.holds(to) {
                Some(
                    (
                        self,
                        Reply::Area(shifted(rect, -self.origin_of(to).0, -self.origin_of(to).1)),
                    ),
                )
            } else {
                Some((self, Reply::Area(None)))
            },
            Request::SetParent { child, parent } => match self.index_of(child) {
                Some(i) => if parent == self.root || self.holds(parent) {
                    Some(
                        (
                            self.with_window(i, WindowInfo { parent, ..self.windows[i] }),
                            Reply::Handle(self.windows[i].parent),
                        ),
                    )
                } else {
                    Some((self, Reply::Handle(WindowHandle { raw: 0 })))
                },
                None => Some((self, Reply::Handle(WindowHandle { raw: 0 }))),
            },
            Request::DesktopWindow => Some((self, Reply::Handle(self.root))),
            Request::Show { window, command } => match self.index_of(window) {
                Some(i) => Some(
                    (
                        self.with_window(i, WindowInfo { visible: true, ..self.windows[i] }),
                        Reply::Done,
                    ),
                ),
                None => Some((self, Reply::Done)),
            },
            Request::SetWindowPos { window, placement, flags } => match self.index_of(window) {
                Some(i) => if flags == FRAME_REFRESH_FLAGS {
                    Some((self, Reply::Flag(true)))
                } else if flags == MOVE_FLAGS {
                    let origin = self.origin_of(self.windows[i].parent);
                    match edges(placement) {
                        Some(local) => match shifted(local, origin.0, origin.1) {
                            Some(rect) => Some(
                                (
                                    self.with_window(i, WindowInfo { rect, ..self.windows[i] }),
                                    Reply::Flag(true),
                                ),
                            ),
                            None => Some((self, Reply::Flag(false))),
                        },
                        None => Some((self, Reply::Flag(false))),
                    }
                } else {
                    None
                },
                None => Some((self, Reply::Flag(false))),
            },
            Request::Invalidate { window } => Some((self, Reply::Done)),
            Request::NearestMonitor { point } => Some(
                (
                    self,
                    Reply::Monitor(
                        if self.nearest.dom().contains(point) {
                            self.nearest[point]
                        } else {
                            0
                        },
                    ),
                ),
            ),
            Request::MonitorRect { monitor } => Some(
                (
                    self,
                    Reply::Area(
                        if self.monitors.dom().contains(monitor) {
                            Some(self.monitors[monitor])
                        } else {
                            None
                        },
                    ),
                ),
            ),
            Request::SendMessage { to, message, wparam, lparam } => if message == CLOSE_MESSAGE {
                match self.index_of(to) {
                    Some(i) => Some((self.without_window(i), Reply::Done)),
                    None => Some((self, Reply::Done)),
                }
            } else {
                None
            },
            Request::Sleep { millis } => Some((self, Reply::Done)),
            Request::FindWindowByClass { class } => None,
            Request::EnumerateWindows => None,
            Request::EnumerateDescendants { of } => None,
            Request::Spawn => None,
        }
    }
}

/// The reply to a style call on a window that does not exist.
pub open spec fn spec_no_style() -> Reply {
    Reply::Style {
        style: WindowStyle { style: 0, ex_style: 0 },
        last_error: INVALID_WINDOW_HANDLE,
    }
}

/// The desktop and the outcome with which a task ends when each of its
/// requests, starting from `step`, is answered by the desktop. `None` when
/// the task comes to a request that the model does not cover, or has not
/// ended after `fuel` requests.
pub open spec fn run<T: Task>(desktop: Desktop, task: T, step: Step<T::Outcome>, fuel: nat)
    -> Option<(Desktop, T::Outcome)>
    decreases fuel,
{
    match step {
        Step::Done(outcome) => Some((desktop, outcome)),
        Step::Call(request) => if fuel == 0 {
            None
        } else {
            match desktop.respond(request) {
                Some((answered, reply)) => run(
                    answered,
                    task.after(reply).0,
                    task.after(reply).1,
                    (fuel - 1) as nat,
                ),
                None => None,
            }
        },
    }
}

/// A task that has ended within some number of requests has ended within
/// any greater number, in the same way.
pub proof fn lemma_run_spare_fuel<T: Task>(
    desktop: Desktop,
    task: T,
    step: Step<T::Outcome>,
    fuel: nat,
    spare: nat,
)
    requires
        run(desktop, task, step, fuel).is_some(),
    ensures
        run(desktop, task, step, fuel + spare) == run(desktop, task, step, fuel),
    decreases fuel,
{
    match step {
        Step::Done(outcome) => {},
        Step::Call(request) => {
            let (answered, reply) = desktop.respond(request).unwrap();
            lemma_run_spare_fuel(
                answered,
                task.after(reply).0,
                task.after(reply).1,
                (fuel - 1) as nat,
                spare,
            );
        },
    }
}

/// What a task has come to when its requests, starting from `step`, were
/// answered with `replies` in turn, and the requests that were answered.
/// Replies that are left when the task has ended are not looked at.
pub open spec fn feed<T: Task>(task: T, step: Step<T::Outcome>, replies: Seq<Reply>) -> (
    Step<T::Outcome>,
    Seq<Request>,
)
    decreases replies.len(),
{
    match step {
        Step::Done(outcome) => (step, Seq::empty()),
        Step::Call(request) => if replies.len() == 0 {
            (step, Seq::empty())
        } else {
            let rest = feed(
                task.after(replies[0]).0,
                task.after(replies[0]).1,
                replies.drop_first(),
            );
            (rest.0, seq![request] + rest.1)
        },
    }
}

} // verus!
