//! Finding the anchor: the window between the desktop icons and the
//! application windows, which the shell creates only when told to.

use vstd::prelude::*;
use crate::error::EngineError;
use crate::handle::WindowHandle;
use crate::protocol::{Reply, Request, Step, Task, SPAWN_WORKER_MESSAGE};
use crate::window::{anchor_under, find_worker, first_handle};

verus! {

/// Number of strategies by which the anchor is sought, in the order in
/// which they are tried.
pub const STRATEGIES: u8 = 3;

/// The parameter pair of the `sent`-th directive that strategy `strategy`
/// sends to the shell root before it looks for the anchor, if it sends that
/// many. The first strategy only looks; the second sends the two directives
/// that current shells answer to; the third sends the one that older shells
/// knew.
pub open spec fn spec_directive(strategy: u8, sent: u8) -> Option<(u64, i64)> {
    if strategy == 1 && sent == 0 {
        Some((0xD, 0))
    } else if strategy == 1 && sent == 1 {
        Some((0xD, 1))
    } else if strategy == 2 && sent == 0 {
        Some((0, 0))
    } else {
        None
    }
}

#[verifier::when_used_as_spec(spec_directive)]
pub fn directive(strategy: u8, sent: u8) -> (d: Option<(u64, i64)>)
    ensures
        d == spec_directive(strategy, sent),
{
    if strategy == 1 && sent == 0 {
        Some((0xD, 0))
    } else if strategy == 1 && sent == 1 {
        Some((0xD, 1))
    } else if strategy == 2 && sent == 0 {
        Some((0, 0))
    } else {
        None
    }
}

/// The search for the anchor under one shell root.
#[derive(Clone, Copy, Debug, PartialEq, Eq)]
pub struct WorkerSearch {
    pub progman: WindowHandle,
    /// The strategy being tried.
    pub strategy: u8,
    /// How many directives of that strategy have been sent.
    pub sent: u8,
    pub finished: bool,
}

impl WorkerSearch {
    /// The request that is pending in this state: the next directive of the
    /// strategy, or, when all are sent, the look at the shell root's
    /// descendants.
    pub open spec fn spec_pending(self) -> Request {
        match spec_directive(self.strategy, self.sent) {
            Some((wparam, lparam)) => Request::SendMessage {
                to: self.progman,
                message: SPAWN_WORKER_MESSAGE,
                wparam,
                lparam,
            },
            None => Request::EnumerateDescendants { of: self.progman },
        }
    }

    #[verifier::when_used_as_spec(spec_pending)]
    pub fn pending(self) -> (request: Request)
        ensures
            request == self.spec_pending(),
    {
        match directive(self.strategy, self.sent) {
            Some((wparam, lparam)) => Request::SendMessage {
                to: self.progman,
                message: SPAWN_WORKER_MESSAGE,
                wparam,
                lparam,
            },
            None => Request::EnumerateDescendants { of: self.progman },
        }
    }

    /// This search, ended.
    pub open spec fn spec_ended(self, outcome: Result<WindowHandle, EngineError>) -> (
        WorkerSearch,
        Step<Result<WindowHandle, EngineError>>,
    ) {
        (WorkerSearch { finished: true, ..self }, Step::Done(outcome))
    }

    #[verifier::when_used_as_spec(spec_ended)]
    fn ended(self, outcome: Result<WindowHandle, EngineError>) -> (r: (
        WorkerSearch,
        Step<Result<WindowHandle, EngineError>>,
    ))
        ensures
            r == self.spec_ended(outcome),
    {
        (WorkerSearch { finished: true, ..self }, Step::Done(outcome))
    }
}

/// The search for the anchor under `progman`, at its first request: the
/// first strategy, with nothing sent.
pub open spec fn spec_find_or_spawn_worker(progman: WindowHandle) -> (
    WorkerSearch,
    Step<Result<WindowHandle, EngineError>>,
) {
    let search = WorkerSearch { progman, strategy: 0, sent: 0, finished: false };
    (search, Step::Call(search.spec_pending()))
}

/// Starts the search for the anchor under `progman`. It ends with the
/// anchor as soon as one strategy has made it appear, and with
/// `UnableToSpawnWorker` when the last strategy has not.
pub fn find_or_spawn_worker(progman: WindowHandle) -> (start: (
    WorkerSearch,
    Step<Result<WindowHandle, EngineError>>,
))
    ensures
        start == spec_find_or_spawn_worker(progman),
        start.1 == Step::<Result<WindowHandle, EngineError>>::Call(
            Request::EnumerateDescendants { of: progman },
        ),
{
    let search = WorkerSearch { progman, strategy: 0, sent: 0, finished: false };
    (search, Step::Call(search.pending()))
}

impl Task for WorkerSearch {
    type Outcome = Result<WindowHandle, EngineError>;

    open spec fn after(self, reply: Reply) -> (Self, Step<Result<WindowHandle, EngineError>>) {
        if self.finished {
            self.spec_ended(Err(EngineError::UnexpectedReply))
        } else if spec_directive(self.strategy, self.sent).is_some() {
            let search = WorkerSearch { sent: (self.sent + 1) as u8, ..self };
            (search, Step::Call(search.spec_pending()))
        } else {
            match reply {
                Reply::Windows(windows) => {
                    let worker = first_handle(windows@, anchor_under(windows@, self.progman));
                    if !worker.spec_is_null() {
                        self.spec_ended(Ok(worker))
                    } else if self.strategy + 1 < STRATEGIES {
                        let search = WorkerSearch {
                            strategy: (self.strategy + 1) as u8,
                            sent: 0,
                            ..self
                        };
                        (search, Step::Call(search.spec_pending()))
                    } else {
                        self.spec_ended(Err(EngineError::UnableToSpawnWorker))
                    }
                },
                _ => self.spec_ended(Err(EngineError::UnexpectedReply)),
            }
        }
    }

    fn resume(self, reply: &Reply) -> (next: (Self, Step<Result<WindowHandle, EngineError>>)) {
        if self.finished {
            self.ended(Err(EngineError::UnexpectedReply))
        } else if directive(self.strategy, self.sent).is_some() {
            let search = WorkerSearch { sent: self.sent + 1, ..self };
            (search, Step::Call(search.pending()))
        } else {
            match reply {
                Reply::Windows(windows) => {
                    let worker = find_worker(windows, self.progman);
                    if !worker.is_null() {
                        self.ended(Ok(worker))
                    } else if self.strategy < STRATEGIES - 1 {
                        let search = WorkerSearch { strategy: self.strategy + 1, sent: 0, ..self };
                        (search, Step::Call(search.pending()))
                    } else {
                        self.ended(Err(EngineError::UnableToSpawnWorker))
                    }
                },
                _ => self.ended(Err(EngineError::UnexpectedReply)),
            }
        }
    }
}

} // verus!
