//! The ways in which an operation of the engine fails.

use vstd::prelude::*;

verus! {

/// Why an operation of the engine did not succeed.
#[derive(Clone, Copy, Debug, PartialEq, Eq, Structural)]
pub enum EngineError {
    /// The shell's desktop root window does not exist.
    ProgmanNotFound,
    /// Every strategy to make the shell create the anchor was tried in vain.
    UnableToSpawnWorker,
    /// The window is the anchor itself or the shell's taskbar.
    IneligibleTarget,
    /// The window is already a child of the anchor.
    AlreadyEmbedded,
    /// The style bitfields of the window could not be read.
    StyleReadFailed,
    /// The style bitfields of the window could not be written.
    StyleWriteFailed,
    /// A rectangle or a monitor could not be resolved.
    GeometryQueryFailed,
    /// The window system refused to give the window a new parent.
    ReparentFailed,
    /// Neither a command nor a selector says which window is meant.
    InvalidSelection,
    /// No window matched within the polling budget.
    WindowNotFound,
    /// The pending request was answered with a reply of another kind.
    UnexpectedReply,
}

} // verus!
