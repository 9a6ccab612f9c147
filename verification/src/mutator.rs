//! Changing what a window looks like and where it lives: style rewrites,
//! embedding under the anchor, removal from it, and full-monitor placement.

use vstd::prelude::*;
use crate::error::EngineError;
use crate::geometry::{Placement, Rect};
use crate::handle::WindowHandle;
use crate::protocol::{Reply, Request, Step, Task, FRAME_REFRESH_FLAGS, MOVE_FLAGS, SHOW_COMMAND};
use crate::style::{
    embed_update, restore_update, spec_embed_update, spec_restore_update, style_call_failed,
    spec_style_call_failed, StyleUpdate,
};
use crate::window::{is_class, SHELL_TRAY_CLASS};

verus! {

/// Rewriting both style bitfields of one window: read them, then write
/// them back changed.
#[derive(Clone, Copy, Debug, PartialEq, Eq)]
pub struct StyleRewrite {
    pub window: WindowHandle,
    pub update: StyleUpdate,
    /// Whether the styles have been read and the write is pending.
    pub writing: bool,
}

/// The rewrite of the styles of `wnd`, at its first request.
pub open spec fn spec_update_window_styles(wnd: WindowHandle, update: StyleUpdate) -> (
    StyleRewrite,
    Step<Result<(), EngineError>>,
) {
    (
        StyleRewrite { window: wnd, update, writing: false },
        Step::Call(Request::ReadStyle { of: wnd }),
    )
}

/// Starts the rewrite of the styles of `wnd`.
pub fn update_window_styles(wnd: WindowHandle, update: StyleUpdate) -> (start: (
    StyleRewrite,
    Step<Result<(), EngineError>>,
))
    ensures
        start == spec_update_window_styles(wnd, update),
{
    (
        StyleRewrite { window: wnd, update, writing: false },
        Step::Call(Request::ReadStyle { of: wnd }),
    )
}

impl Task for StyleRewrite {
    type Outcome = Result<(), EngineError>;

    open spec fn after(self, reply: Reply) -> (Self, Step<Result<(), EngineError>>) {
        match reply {
            Reply::Style { style, last_error } => {
                if !self.writing {
                    if spec_style_call_failed(style, last_error) {
                        (self, Step::Done(Err(EngineError::StyleReadFailed)))
                    } else {
                        (
                            StyleRewrite { writing: true, ..self },
                            Step::Call(
                                Request::WriteStyle {
                                    of: self.window,
                                    style: self.update.spec_apply(style),
                                },
                            ),
                        )
                    }
                } else if spec_style_call_failed(style, last_error) {
                    (self, Step::Done(Err(EngineError::StyleWriteFailed)))
                } else {
                    (self, Step::Done(Ok(())))
                }
            },
            _ => (self, Step::Done(Err(EngineError::UnexpectedReply))),
        }
    }

    fn resume(self, reply: &Reply) -> (next: (Self, Step<Result<(), EngineError>>)) {
        match reply {
            Reply::Style { style, last_error } => {
                if !self.writing {
                    if style_call_failed(*style, *last_error) {
                        (self, Step::Done(Err(EngineError::StyleReadFailed)))
                    } else {
                        let written = self.update.apply(*style);
                        (
                            StyleRewrite { writing: true, ..self },
                            Step::Call(Request::WriteStyle { of: self.window, style: written }),
                        )
                    }
                } else if style_call_failed(*style, *last_error) {
                    (self, Step::Done(Err(EngineError::StyleWriteFailed)))
                } else {
                    (self, Step::Done(Ok(())))
                }
            },
            _ => (self, Step::Done(Err(EngineError::UnexpectedReply))),
        }
    }
}


/// How far an embedding has come.
#[derive(Clone, Copy, Debug, PartialEq, Eq)]
pub enum EmbedStage {
    /// The class name of the window is awaited.
    Class,
    /// The present parent of the window is awaited.
    Kinship,
    /// The styles are being rewritten.
    Restyle(StyleRewrite),
    /// The screen rectangle of the window is awaited.
    Rect,
    /// The rectangle in the anchor's coordinates is awaited.
    Mapped,
    /// The outcome of giving the window its new parent is awaited.
    Reparent,
    /// The window is being shown.
    Shown,
    Finished,
}

/// Embedding one window under the anchor.
#[derive(Clone, Copy, Debug, PartialEq, Eq)]
pub struct Embedding {
    pub wallpaper: WindowHandle,
    pub wnd: WindowHandle,
    pub stage: EmbedStage,
}

/// The embedding of `wnd` under `wallpaper`, at its first step. The anchor
/// itself is turned away before anything is asked of the window system.
pub open spec fn spec_add_window_as_wallpaper(wallpaper: WindowHandle, wnd: WindowHandle) -> (
    Embedding,
    Step<Result<(), EngineError>>,
) {
    if wallpaper == wnd {
        (
            Embedding { wallpaper, wnd, stage: EmbedStage::Finished },
            Step::Done(Err(EngineError::IneligibleTarget)),
        )
    } else {
        (
            Embedding { wallpaper, wnd, stage: EmbedStage::Class },
            Step::Call(Request::ClassName { of: wnd }),
        )
    }
}

/// Starts the embedding of `wnd` under `wallpaper`.
pub fn add_window_as_wallpaper(wallpaper: WindowHandle, wnd: WindowHandle) -> (start: (
    Embedding,
    Step<Result<(), EngineError>>,
))
    ensures
        start == spec_add_window_as_wallpaper(wallpaper, wnd),
{
    if wallpaper == wnd {
        (
            Embedding { wallpaper, wnd, stage: EmbedStage::Finished },
            Step::Done(Err(EngineError::IneligibleTarget)),
        )
    } else {
        (
            Embedding { wallpaper, wnd, stage: EmbedStage::Class },
            Step::Call(Request::ClassName { of: wnd }),
        )
    }
}

impl Embedding {
    /// This embedding at another stage.
    pub open spec fn spec_at(self, stage: EmbedStage) -> Embedding {
        Embedding { stage, ..self }
    }

    /// This embedding, ended with the given failure.
    pub open spec fn spec_failed(self, error: EngineError) -> (
        Embedding,
        Step<Result<(), EngineError>>,
    ) {
        (self.spec_at(EmbedStage::Finished), Step::Done(Err(error)))
    }

    #[verifier::when_used_as_spec(spec_at)]
    fn at(self, stage: EmbedStage) -> (e: Embedding)
        ensures
            e == self.spec_at(stage),
    {
        Embedding { stage, ..self }
    }

    #[verifier::when_used_as_spec(spec_failed)]
    fn failed(self, error: EngineError) -> (r: (Embedding, Step<Result<(), EngineError>>))
        ensures
            r == self.spec_failed(error),
    {
        (self.at(EmbedStage::Finished), Step::Done(Err(error)))
    }
}

impl Task for Embedding {
    type Outcome = Result<(), EngineError>;

    open spec fn after(self, reply: Reply) -> (Self, Step<Result<(), EngineError>>) {
        match self.stage {
            EmbedStage::Class => match reply {
                Reply::Text(name) => if name@ == SHELL_TRAY_CLASS@ {
                    self.spec_failed(EngineError::IneligibleTarget)
                } else {
                    (
                        self.spec_at(EmbedStage::Kinship),
                        Step::Call(Request::Parent { of: self.wnd }),
                    )
                },
                _ => self.spec_failed(EngineError::UnexpectedReply),
            },
            EmbedStage::Kinship => match reply {
                Reply::Handle(parent) => if parent == self.wallpaper {
                    self.spec_failed(EngineError::AlreadyEmbedded)
                } else {
                    let (rewrite, step) = spec_update_window_styles(self.wnd, spec_embed_update());
                    (self.spec_at(EmbedStage::Restyle(rewrite)), step)
                },
                _ => self.spec_failed(EngineError::UnexpectedReply),
            },
            EmbedStage::Restyle(rewrite) => match rewrite.after(reply) {
                (rewrite, Step::Call(request)) => (
                    self.spec_at(EmbedStage::Restyle(rewrite)),
                    Step::Call(request),
                ),
                (_, Step::Done(Err(error))) => self.spec_failed(error),
                (_, Step::Done(Ok(_))) => (
                    self.spec_at(EmbedStage::Rect),
                    Step::Call(Request::WindowRect { of: self.wnd }),
                ),
            },
            EmbedStage::Rect => match reply {
                Reply::Area(Some(rect)) => (
                    self.spec_at(EmbedStage::Mapped),
                    Step::Call(Request::MapToWindow { to: self.wallpaper, rect }),
                ),
                Reply::Area(None) => self.spec_failed(EngineError::GeometryQueryFailed),
                _ => self.spec_failed(EngineError::UnexpectedReply),
            },
            EmbedStage::Mapped => (
                self.spec_at(EmbedStage::Reparent),
                Step::Call(Request::SetParent { child: self.wnd, parent: self.wallpaper }),
            ),
            EmbedStage::Reparent => match reply {
                Reply::Handle(previous) => if previous.spec_is_null() {
                    self.spec_failed(EngineError::ReparentFailed)
                } else {
                    (
                        self.spec_at(EmbedStage::Shown),
                        Step::Call(Request::Show { window: self.wnd, command: SHOW_COMMAND }),
                    )
                },
                _ => self.spec_failed(EngineError::UnexpectedReply),
            },
            EmbedStage::Shown => (self.spec_at(EmbedStage::Finished), Step::Done(Ok(()))),
            EmbedStage::Finished => self.spec_failed(EngineError::UnexpectedReply),
        }
    }

    fn resume(self, reply: &Reply) -> (next: (Self, Step<Result<(), EngineError>>)) {
        match self.stage {
            EmbedStage::Class => match reply {
                Reply::Text(name) => if is_class(name, SHELL_TRAY_CLASS) {
                    self.failed(EngineError::IneligibleTarget)
                } else {
                    (
                        self.at(EmbedStage::Kinship),
                        Step::Call(Request::Parent { of: self.wnd }),
                    )
                },
                _ => self.failed(EngineError::UnexpectedReply),
            },
            EmbedStage::Kinship => match reply {
                Reply::Handle(parent) => if *parent == self.wallpaper {
                    self.failed(EngineError::AlreadyEmbedded)
                } else {
                    let (rewrite, step) = update_window_styles(self.wnd, embed_update());
                    (self.at(EmbedStage::Restyle(rewrite)), step)
                },
                _ => self.failed(EngineError::UnexpectedReply),
            },
            EmbedStage::Restyle(rewrite) => match rewrite.resume(reply) {
                (rewrite, Step::Call(request)) => (
                    self.at(EmbedStage::Restyle(rewrite)),
                    Step::Call(request),
                ),
                (_, Step::Done(Err(error))) => self.failed(error),
                (_, Step::Done(Ok(_))) => (
                    self.at(EmbedStage::Rect),
                    Step::Call(Request::WindowRect { of: self.wnd }),
                ),
            },
            EmbedStage::Rect => match reply {
                Reply::Area(Some(rect)) => (
                    self.at(EmbedStage::Mapped),
                    Step::Call(Request::MapToWindow { to: self.wallpaper, rect: *rect }),
                ),
                Reply::Area(None) => self.failed(EngineError::GeometryQueryFailed),
                _ => self.failed(EngineError::UnexpectedReply),
            },
            EmbedStage::Mapped => (
                self.at(EmbedStage::Reparent),
                Step::Call(Request::SetParent { child: self.wnd, parent: self.wallpaper }),
            ),
            EmbedStage::Reparent => match reply {
                Reply::Handle(previous) => if previous.is_null() {
                    self.failed(EngineError::ReparentFailed)
                } else {
                    (
                        self.at(EmbedStage::Shown),
                        Step::Call(Request::Show { window: self.wnd, command: SHOW_COMMAND }),
                    )
                },
                _ => self.failed(EngineError::UnexpectedReply),
            },
            EmbedStage::Shown => (self.at(EmbedStage::Finished), Step::Done(Ok(()))),
            EmbedStage::Finished => self.failed(EngineError::UnexpectedReply),
        }
    }
}


/// How far a removal has come.
#[derive(Clone, Copy, Debug, PartialEq, Eq)]
pub enum RemovalStage {
    /// The desktop window is being asked for.
    Desktop,
    /// The outcome of handing the window back to the desktop is awaited.
    Reparent,
    /// The styles are being rewritten.
    Restyle(StyleRewrite),
    /// The frame of the window is being refreshed.
    Refresh,
    /// The anchor is being marked for repainting.
    Repaint,
    Finished,
}

/// Taking one window out of the anchor.
#[derive(Clone, Copy, Debug, PartialEq, Eq)]
pub struct Removal {
    pub wallpaper: WindowHandle,
    pub wnd: WindowHandle,
    pub stage: RemovalStage,
}

/// The removal of `wnd` from `wallpaper`, at its first request.
pub open spec fn spec_remove_window_from_wallpaper(wallpaper: WindowHandle, wnd: WindowHandle)
    -> (Removal, Step<Result<(), EngineError>>) {
    (
        Removal { wallpaper, wnd, stage: RemovalStage::Desktop },
        Step::Call(Request::DesktopWindow),
    )
}

/// Starts the removal of `wnd` from `wallpaper`.
pub fn remove_window_from_wallpaper(wallpaper: WindowHandle, wnd: WindowHandle) -> (start: (
    Removal,
    Step<Result<(), EngineError>>,
))
    ensures
        start == spec_remove_window_from_wallpaper(wallpaper, wnd),
{
    (
        Removal { wallpaper, wnd, stage: RemovalStage::Desktop },
        Step::Call(Request::DesktopWindow),
    )
}

impl Removal {
    /// This removal at another stage.
    pub open spec fn spec_at(self, stage: RemovalStage) -> Removal {
        Removal { stage, ..self }
    }

    /// This removal, ended with the given failure.
    pub open spec fn spec_failed(self, error: EngineError) -> (
        Removal,
        Step<Result<(), EngineError>>,
    ) {
        (self.spec_at(RemovalStage::Finished), Step::Done(Err(error)))
    }

    #[verifier::when_used_as_spec(spec_at)]
    fn at(self, stage: RemovalStage) -> (r: Removal)
        ensures
            r == self.spec_at(stage),
    {
        Removal { stage, ..self }
    }

    #[verifier::when_used_as_spec(spec_failed)]
    fn failed(self, error: EngineError) -> (r: (Removal, Step<Result<(), EngineError>>))
        ensures
            r == self.spec_failed(error),
    {
        (self.at(RemovalStage::Finished), Step::Done(Err(error)))
    }
}

/// The placement of a frame refresh, which moves and resizes nothing.
pub open spec fn spec_unmoved() -> Placement {
    Placement { x: 0, y: 0, width: 0, height: 0 }
}

impl Task for Removal {
    type Outcome = Result<(), EngineError>;

    open spec fn after(self, reply: Reply) -> (Self, Step<Result<(), EngineError>>) {
        match self.stage {
            RemovalStage::Desktop => match reply {
                Reply::Handle(desktop) => (
                    self.spec_at(RemovalStage::Reparent),
                    Step::Call(Request::SetParent { child: self.wnd, parent: desktop }),
                ),
                _ => self.spec_failed(EngineError::UnexpectedReply),
            },
            RemovalStage::Reparent => match reply {
                Reply::Handle(previous) => if previous.spec_is_null() {
                    self.spec_failed(EngineError::ReparentFailed)
                } else {
                    let (rewrite, step) = spec_update_window_styles(
                        self.wnd,
                        spec_restore_update(),
                    );
                    (self.spec_at(RemovalStage::Restyle(rewrite)), step)
                },
                _ => self.spec_failed(EngineError::UnexpectedReply),
            },
            RemovalStage::Restyle(rewrite) => match rewrite.after(reply) {
                (rewrite, Step::Call(request)) => (
                    self.spec_at(RemovalStage::Restyle(rewrite)),
                    Step::Call(request),
                ),
                (_, Step::Done(Err(error))) => self.spec_failed(error),
                (_, Step::Done(Ok(_))) => (
                    self.spec_at(RemovalStage::Refresh),
                    Step::Call(
                        Request::SetWindowPos {
                            window: self.wnd,
                            placement: spec_unmoved(),
                            flags: FRAME_REFRESH_FLAGS,
                        },
                    ),
                ),
            },
            RemovalStage::Refresh => (
                self.spec_at(RemovalStage::Repaint),
                Step::Call(Request::Invalidate { window: self.wallpaper }),
            ),
            RemovalStage::Repaint => (self.spec_at(RemovalStage::Finished), Step::Done(Ok(()))),
            RemovalStage::Finished => self.spec_failed(EngineError::UnexpectedReply),
        }
    }

    fn resume(self, reply: &Reply) -> (next: (Self, Step<Result<(), EngineError>>)) {
        match self.stage {
            RemovalStage::Desktop => match reply {
                Reply::Handle(desktop) => (
                    self.at(RemovalStage::Reparent),
                    Step::Call(Request::SetParent { child: self.wnd, parent: *desktop }),
                ),
                _ => self.failed(EngineError::UnexpectedReply),
            },
            RemovalStage::Reparent => match reply {
                Reply::Handle(previous) => if previous.is_null() {
                    self.failed(EngineError::ReparentFailed)
                } else {
                    let (rewrite, step) = update_window_styles(self.wnd, restore_update());
                    (self.at(RemovalStage::Restyle(rewrite)), step)
                },
                _ => self.failed(EngineError::UnexpectedReply),
            },
            RemovalStage::Restyle(rewrite) => match rewrite.resume(reply) {
                (rewrite, Step::Call(request)) => (
                    self.at(RemovalStage::Restyle(rewrite)),
                    Step::Call(request),
                ),
                (_, Step::Done(Err(error))) => self.failed(error),
                (_, Step::Done(Ok(_))) => (
                    self.at(RemovalStage::Refresh),
                    Step::Call(
                        Request::SetWindowPos {
                            window: self.wnd,
                            placement: Placement { x: 0, y: 0, width: 0, height: 0 },
                            flags: FRAME_REFRESH_FLAGS,
                        },
                    ),
                ),
            },
            RemovalStage::Refresh => (
                self.at(RemovalStage::Repaint),
                Step::Call(Request::Invalidate { window: self.wallpaper }),
            ),
            RemovalStage::Repaint => (self.at(RemovalStage::Finished), Step::Done(Ok(()))),
            RemovalStage::Finished => self.failed(EngineError::UnexpectedReply),
        }
    }
}

/// How far a full-monitor placement has come.
#[derive(Clone, Copy, Debug, PartialEq, Eq)]
pub enum FullscreenStage {
    /// The screen rectangle of the window is awaited.
    Rect,
    /// The monitor nearest to the window's corner is awaited.
    Monitor,
    /// The rectangle of that monitor is awaited.
    MonitorRect,
    /// The monitor's rectangle in the anchor's coordinates is awaited.
    Mapped,
    /// The window is being moved.
    Move,
    Finished,
}

/// Making one window cover the monitor it is on.
#[derive(Clone, Copy, Debug, PartialEq, Eq)]
pub struct Fullscreen {
    pub wallpaper: WindowHandle,
    pub wnd: WindowHandle,
    pub stage: FullscreenStage,
}

/// The full-monitor placement of `wnd` under `wallpaper`, at its first
/// request.
pub open spec fn spec_set_fullscreen(wallpaper: WindowHandle, wnd: WindowHandle) -> (
    Fullscreen,
    Step<Result<(), EngineError>>,
) {
    (
        Fullscreen { wallpaper, wnd, stage: FullscreenStage::Rect },
        Step::Call(Request::WindowRect { of: wnd }),
    )
}

/// Starts the full-monitor placement of `wnd` under `wallpaper`.
pub fn set_fullscreen(wallpaper: WindowHandle, wnd: WindowHandle) -> (start: (
    Fullscreen,
    Step<Result<(), EngineError>>,
))
    ensures
        start == spec_set_fullscreen(wallpaper, wnd),
{
    (
        Fullscreen { wallpaper, wnd, stage: FullscreenStage::Rect },
        Step::Call(Request::WindowRect { of: wnd }),
    )
}

impl Fullscreen {
    /// This placement at another stage.
    pub open spec fn spec_at(self, stage: FullscreenStage) -> Fullscreen {
        Fullscreen { stage, ..self }
    }

    /// This placement, ended with the given failure.
    pub open spec fn spec_failed(self, error: EngineError) -> (
        Fullscreen,
        Step<Result<(), EngineError>>,
    ) {
        (self.spec_at(FullscreenStage::Finished), Step::Done(Err(error)))
    }

    #[verifier::when_used_as_spec(spec_at)]
    fn at(self, stage: FullscreenStage) -> (r: Fullscreen)
        ensures
            r == self.spec_at(stage),
    {
        Fullscreen { stage, ..self }
    }

    #[verifier::when_used_as_spec(spec_failed)]
    fn failed(self, error: EngineError) -> (r: (Fullscreen, Step<Result<(), EngineError>>))
        ensures
            r == self.spec_failed(error),
    {
        (self.at(FullscreenStage::Finished), Step::Done(Err(error)))
    }
}

impl Task for Fullscreen {
    type Outcome = Result<(), EngineError>;

    open spec fn after(self, reply: Reply) -> (Self, Step<Result<(), EngineError>>) {
        match self.stage {
            FullscreenStage::Rect => match reply {
                Reply::Area(Some(rect)) => (
                    self.spec_at(FullscreenStage::Monitor),
                    Step::Call(Request::NearestMonitor { point: rect.spec_top_left() }),
                ),
                Reply::Area(None) => self.spec_failed(EngineError::GeometryQueryFailed),
                _ => self.spec_failed(EngineError::UnexpectedReply),
            },
            FullscreenStage::Monitor => match reply {
                Reply::Monitor(monitor) => if monitor == 0 {
                    self.spec_failed(EngineError::GeometryQueryFailed)
                } else {
                    (
                        self.spec_at(FullscreenStage::MonitorRect),
                        Step::Call(Request::MonitorRect { monitor }),
                    )
                },
                _ => self.spec_failed(EngineError::UnexpectedReply),
            },
            FullscreenStage::MonitorRect => match reply {
                Reply::Area(Some(rect)) => (
                    self.spec_at(FullscreenStage::Mapped),
                    Step::Call(Request::MapToWindow { to: self.wallpaper, rect }),
                ),
                Reply::Area(None) => self.spec_failed(EngineError::GeometryQueryFailed),
                _ => self.spec_failed(EngineError::UnexpectedReply),
            },
            FullscreenStage::Mapped => match reply {
                Reply::Area(Some(rect)) => match rect.spec_placement() {
                    Some(placement) => (
                        self.spec_at(FullscreenStage::Move),
                        Step::Call(
                            Request::SetWindowPos { window: self.wnd, placement, flags: MOVE_FLAGS },
                        ),
                    ),
                    None => self.spec_failed(EngineError::GeometryQueryFailed),
                },
                Reply::Area(None) => self.spec_failed(EngineError::GeometryQueryFailed),
                _ => self.spec_failed(EngineError::UnexpectedReply),
            },
            FullscreenStage::Move => (self.spec_at(FullscreenStage::Finished), Step::Done(Ok(()))),
            FullscreenStage::Finished => self.spec_failed(EngineError::UnexpectedReply),
        }
    }

    fn resume(self, reply: &Reply) -> (next: (Self, Step<Result<(), EngineError>>)) {
        match self.stage {
            FullscreenStage::Rect => match reply {
                Reply::Area(Some(rect)) => (
                    self.at(FullscreenStage::Monitor),
                    Step::Call(Request::NearestMonitor { point: rect.top_left() }),
                ),
                Reply::Area(None) => self.failed(EngineError::GeometryQueryFailed),
                _ => self.failed(EngineError::UnexpectedReply),
            },
            FullscreenStage::Monitor => match reply {
                Reply::Monitor(monitor) => if *monitor == 0 {
                    self.failed(EngineError::GeometryQueryFailed)
                } else {
                    (
                        self.at(FullscreenStage::MonitorRect),
                        Step::Call(Request::MonitorRect { monitor: *monitor }),
                    )
                },
                _ => self.failed(EngineError::UnexpectedReply),
            },
            FullscreenStage::MonitorRect => match reply {
                Reply::Area(Some(rect)) => (
                    self.at(FullscreenStage::Mapped),
                    Step::Call(Request::MapToWindow { to: self.wallpaper, rect: *rect }),
                ),
                Reply::Area(None) => self.failed(EngineError::GeometryQueryFailed),
                _ => self.failed(EngineError::UnexpectedReply),
            },
            FullscreenStage::Mapped => match reply {
                Reply::Area(Some(rect)) => match rect.placement() {
                    Some(placement) => (
                        self.at(FullscreenStage::Move),
                        Step::Call(
                            Request::SetWindowPos { window: self.wnd, placement, flags: MOVE_FLAGS },
                        ),
                    ),
                    None => self.failed(EngineError::GeometryQueryFailed),
                },
                Reply::Area(None) => self.failed(EngineError::GeometryQueryFailed),
                _ => self.failed(EngineError::UnexpectedReply),
            },
            FullscreenStage::Move => (self.at(FullscreenStage::Finished), Step::Done(Ok(()))),
            FullscreenStage::Finished => self.failed(EngineError::UnexpectedReply),
        }
    }
}

} // verus!
