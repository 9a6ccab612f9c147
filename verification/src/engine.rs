//! The engine: the desktop anchor, resolved once, and the lifecycle of the
//! windows embedded under it.

use vstd::prelude::*;
use crate::error::EngineError;
use crate::handle::WindowHandle;
use crate::locator::{find_or_spawn_worker, spec_find_or_spawn_worker, WorkerSearch};
use crate::mutator::{
    add_window_as_wallpaper, remove_window_from_wallpaper, set_fullscreen,
    spec_add_window_as_wallpaper, spec_remove_window_from_wallpaper, spec_set_fullscreen,
    Embedding, Fullscreen, Removal,
};
use crate::protocol::{Reply, Request, Step, Task, CLOSE_MESSAGE};
use crate::window::{
    ascending, children, find_window_by_name, find_window_by_pid, first_handle,
    list_immediate_children, owned_by, selectable_titled, WindowInfo, SHELL_ROOT_CLASS,
};

verus! {

/// How a window is laid out when it is embedded.
#[derive(Clone, Copy, Debug, PartialEq, Eq, Structural)]
pub struct WallpaperProperties {
    /// Whether the window is to cover the monitor it is on.
    pub fullscreen: bool,
}

/// Which of the windows on the desktop is meant.
#[derive(Clone, Copy, Debug, PartialEq, Eq)]
pub enum WindowSelector<'a> {
    /// The first selectable window with exactly this title.
    WindowTitle(&'a str),
    /// No window by itself: the window of the process that was started.
    Unset,
}

/// The desktop anchor of one session: the shell root and the window under
/// which wallpapers are embedded. Neither is ever the null handle.
#[derive(Clone, Copy, Debug, PartialEq, Eq)]
pub struct Engine {
    progman: WindowHandle,
    worker: WindowHandle,
}

/// What becomes of a shell root and an anchor handed in for an engine: the
/// engine over them, or the reason why there is none.
pub open spec fn spec_from_handles(progman: WindowHandle, worker: WindowHandle) -> Result<
    Engine,
    EngineError,
> {
    if progman.spec_is_null() {
        Err(EngineError::ProgmanNotFound)
    } else if worker.spec_is_null() {
        Err(EngineError::UnableToSpawnWorker)
    } else {
        Ok(Engine::over(progman, worker))
    }
}

impl Engine {
    #[verifier::type_invariant]
    spec fn anchored(self) -> bool {
        !self.progman.spec_is_null() && !self.worker.spec_is_null()
    }

    /// The engine over the given shell root and anchor.
    pub closed spec fn over(progman: WindowHandle, worker: WindowHandle) -> Engine {
        Engine { progman, worker }
    }

    /// The shell root of this engine.
    pub closed spec fn spec_progman(&self) -> WindowHandle {
        self.progman
    }

    /// The anchor of this engine.
    pub closed spec fn spec_worker(&self) -> WindowHandle {
        self.worker
    }

    /// An engine is the engine over its own shell root and anchor, and over
    /// no others.
    pub proof fn lemma_over(progman: WindowHandle, worker: WindowHandle)
        ensures
            Engine::over(progman, worker).spec_progman() == progman,
            Engine::over(progman, worker).spec_worker() == worker,
            forall|e: Engine| #[trigger] Engine::over(e.spec_progman(), e.spec_worker()) == e,
    {
    }

    /// Makes the engine over a shell root and an anchor that were found
    /// before. Fails with `ProgmanNotFound` exactly when the shell root is
    /// null, and with `UnableToSpawnWorker` exactly when only the anchor is.
    pub fn from_handles(progman: WindowHandle, worker: WindowHandle) -> (made: Result<
        Engine,
        EngineError,
    >)
        ensures
            made == spec_from_handles(progman, worker),
    {
        if progman.is_null() {
            Err(EngineError::ProgmanNotFound)
        } else if worker.is_null() {
            Err(EngineError::UnableToSpawnWorker)
        } else {
            Ok(Engine { progman, worker })
        }
    }

    #[verifier::when_used_as_spec(spec_progman)]
    pub fn progman(&self) -> (h: WindowHandle)
        ensures
            h == self.spec_progman(),
            !h.spec_is_null(),
    {
        proof {
            use_type_invariant(self);
        }
        self.progman
    }

    #[verifier::when_used_as_spec(spec_worker)]
    pub fn worker(&self) -> (h: WindowHandle)
        ensures
            h == self.spec_worker(),
            !h.spec_is_null(),
    {
        proof {
            use_type_invariant(self);
        }
        self.worker
    }

    /// Starts the making of an engine: the shell root is looked up by its
    /// class, then the anchor is sought under it.
    pub fn new() -> (start: (EngineSetup, Step<Result<Engine, EngineError>>))
        ensures
            start == spec_new(),
    {
        (
            EngineSetup { stage: SetupStage::Root },
            Step::Call(Request::FindWindowByClass { class: SHELL_ROOT_CLASS }),
        )
    }

    /// The windows embedded at the moment: the direct children of the
    /// anchor among its enumerated descendants, in ascending order of handle
    /// identity.
    pub fn list_active(&self, descendants: &Vec<WindowInfo>) -> (active: Vec<WindowHandle>)
        ensures
            ascending(active@),
            active@.to_multiset() == children(descendants@, self.spec_worker()).to_multiset(),
    {
        list_immediate_children(descendants, self.worker)
    }

    /// Starts the embedding of the window `handle`, followed, where the
    /// properties ask for it, by its full-monitor placement. The whole
    /// succeeds only when every part asked for did.
    pub fn add_window_by_handle(&self, handle: WindowHandle, properties: WallpaperProperties) -> (start: (
        Addition,
        Step<Result<(), EngineError>>,
    ))
        ensures
            start == spec_add_window_by_handle(self.spec_worker(), handle, properties),
    {
        start_addition(self.worker, handle, properties)
    }

    /// Starts the removal of the window `handle` from the anchor.
    pub fn remove_wallpaper(&self, handle: WindowHandle) -> (start: (
        Removal,
        Step<Result<(), EngineError>>,
    ))
        ensures
            start == spec_remove_window_from_wallpaper(self.spec_worker(), handle),
    {
        remove_window_from_wallpaper(self.worker, handle)
    }

    /// Starts the adding of a window that is yet to be found. With a
    /// command, the command is started first and its window is the one that
    /// its process owns, unless a title is given, which then decides.
    /// Without a command, a title has to say which window is meant. The
    /// window is looked for up to `attempts` times, `wait_for` milliseconds
    /// apart, and added once found.
    pub fn add_window<'a>(
        &self,
        command: bool,
        selector: WindowSelector<'a>,
        properties: WallpaperProperties,
        wait_for: u64,
        attempts: u64,
    ) -> (start: (Selection<'a>, Step<Result<(), EngineError>>))
        ensures
            start == spec_add_window(
                self.spec_worker(),
                command,
                selector,
                properties,
                wait_for,
                attempts,
            ),
            !command && selector is Unset ==> start.1 == Step::<Result<(), EngineError>>::Done(
                Err(EngineError::InvalidSelection),
            ),
    {
        let selection = Selection {
            worker: self.worker,
            selector,
            properties,
            process_id: 0,
            wait_for,
            attempts_left: attempts,
            stage: SelectionStage::Finished,
        };
        if command {
            (selection.at(SelectionStage::Spawning), Step::Call(Request::Spawn))
        } else {
            match selector {
                WindowSelector::Unset => selection.ended(Err(EngineError::InvalidSelection)),
                WindowSelector::WindowTitle(_) => selection.poll(),
            }
        }
    }

    /// Starts the teardown of the windows in `active`, the snapshot of the
    /// embedded windows taken beforehand: each in turn is removed from the
    /// anchor and, after a pause, asked to close; at the end the whole
    /// desktop is repainted. The snapshot is not taken anew on the way.
    pub fn close_all(self, active: Vec<WindowHandle>) -> (start: (Teardown, Step<()>))
        ensures
            start == spec_close_all(self.spec_worker(), active),
    {
        Teardown {
            wallpaper: self.worker,
            queue: active,
            index: 0,
            stage: TeardownStage::Finished,
        }.begin_item()
    }
}

/// How far the making of an engine has come.
#[derive(Clone, Copy, Debug, PartialEq, Eq)]
pub enum SetupStage {
    /// The shell root is awaited.
    Root,
    /// The anchor is being sought.
    Worker(WorkerSearch),
    Finished,
}

/// The making of an engine.
#[derive(Clone, Copy, Debug, PartialEq, Eq)]
pub struct EngineSetup {
    pub stage: SetupStage,
}

/// The making of an engine, at its first request.
pub open spec fn spec_new() -> (EngineSetup, Step<Result<Engine, EngineError>>) {
    (
        EngineSetup { stage: SetupStage::Root },
        Step::Call(Request::FindWindowByClass { class: SHELL_ROOT_CLASS }),
    )
}

impl EngineSetup {
    /// The making of an engine, ended.
    pub open spec fn spec_ended(outcome: Result<Engine, EngineError>) -> (
        EngineSetup,
        Step<Result<Engine, EngineError>>,
    ) {
        (EngineSetup { stage: SetupStage::Finished }, Step::Done(outcome))
    }

    #[verifier::when_used_as_spec(spec_ended)]
    fn ended(outcome: Result<Engine, EngineError>) -> (r: (
        EngineSetup,
        Step<Result<Engine, EngineError>>,
    ))
        ensures
            r == Self::spec_ended(outcome),
    {
        (EngineSetup { stage: SetupStage::Finished }, Step::Done(outcome))
    }
}

impl Task for EngineSetup {
    type Outcome = Result<Engine, EngineError>;

    open spec fn after(self, reply: Reply) -> (Self, Step<Result<Engine, EngineError>>) {
        match self.stage {
            SetupStage::Root => match reply {
                Reply::Handle(progman) => if progman.spec_is_null() {
                    Self::spec_ended(Err(EngineError::ProgmanNotFound))
                } else {
                    match spec_find_or_spawn_worker(progman) {
                        (search, Step::Call(request)) => (
                            EngineSetup { stage: SetupStage::Worker(search) },
                            Step::Call(request),
                        ),
                        (search, Step::Done(Ok(worker))) => Self::spec_ended(
                            spec_from_handles(search.progman, worker),
                        ),
                        (_, Step::Done(Err(error))) => Self::spec_ended(Err(error)),
                    }
                },
                _ => Self::spec_ended(Err(EngineError::UnexpectedReply)),
            },
            SetupStage::Worker(search) => match search.after(reply) {
                (search, Step::Call(request)) => (
                    EngineSetup { stage: SetupStage::Worker(search) },
                    Step::Call(request),
                ),
                (search, Step::Done(Ok(worker))) => Self::spec_ended(
                    spec_from_handles(search.progman, worker),
                ),
                (_, Step::Done(Err(error))) => Self::spec_ended(Err(error)),
            },
            SetupStage::Finished => Self::spec_ended(Err(EngineError::UnexpectedReply)),
        }
    }

    fn resume(self, reply: &Reply) -> (next: (Self, Step<Result<Engine, EngineError>>)) {
        match self.stage {
            SetupStage::Root => match reply {
                Reply::Handle(progman) => if progman.is_null() {
                    Self::ended(Err(EngineError::ProgmanNotFound))
                } else {
                    match find_or_spawn_worker(*progman) {
                        (search, Step::Call(request)) => (
                            EngineSetup { stage: SetupStage::Worker(search) },
                            Step::Call(request),
                        ),
                        (search, Step::Done(Ok(worker))) => Self::ended(
                            Engine::from_handles(search.progman, worker),
                        ),
                        (_, Step::Done(Err(error))) => Self::ended(Err(error)),
                    }
                },
                _ => Self::ended(Err(EngineError::UnexpectedReply)),
            },
            SetupStage::Worker(search) => match search.resume(reply) {
                (search, Step::Call(request)) => (
                    EngineSetup { stage: SetupStage::Worker(search) },
                    Step::Call(request),
                ),
                (search, Step::Done(Ok(worker))) => Self::ended(
                    Engine::from_handles(search.progman, worker),
                ),
                (_, Step::Done(Err(error))) => Self::ended(Err(error)),
            },
            SetupStage::Finished => Self::ended(Err(EngineError::UnexpectedReply)),
        }
    }
}

/// How far the adding of a window has come.
#[derive(Clone, Copy, Debug, PartialEq, Eq)]
pub enum AdditionStage {
    Embedding(Embedding),
    Fullscreen(Fullscreen),
    Finished,
}

/// Adding one window: embedding it and, where asked for, making it cover
/// its monitor.
#[derive(Clone, Copy, Debug, PartialEq, Eq)]
pub struct Addition {
    pub fullscreen: bool,
    pub stage: AdditionStage,
}

impl Addition {
    /// This addition at another stage.
    pub open spec fn spec_at(self, stage: AdditionStage) -> Addition {
        Addition { stage, ..self }
    }

    /// This addition, ended.
    pub open spec fn spec_ended(self, outcome: Result<(), EngineError>) -> (
        Addition,
        Step<Result<(), EngineError>>,
    ) {
        (self.spec_at(AdditionStage::Finished), Step::Done(outcome))
    }

    /// What follows when the embedding took a step.
    pub open spec fn spec_embedded(self, next: (Embedding, Step<Result<(), EngineError>>)) -> (
        Addition,
        Step<Result<(), EngineError>>,
    ) {
        match next {
            (embedding, Step::Call(request)) => (
                self.spec_at(AdditionStage::Embedding(embedding)),
                Step::Call(request),
            ),
            (_, Step::Done(Err(error))) => self.spec_ended(Err(error)),
            (embedding, Step::Done(Ok(_))) => if self.fullscreen {
                self.spec_placed(spec_set_fullscreen(embedding.wallpaper, embedding.wnd))
            } else {
                self.spec_ended(Ok(()))
            },
        }
    }

    /// What follows when the full-monitor placement took a step.
    pub open spec fn spec_placed(self, next: (Fullscreen, Step<Result<(), EngineError>>)) -> (
        Addition,
        Step<Result<(), EngineError>>,
    ) {
        match next {
            (fullscreen, Step::Call(request)) => (
                self.spec_at(AdditionStage::Fullscreen(fullscreen)),
                Step::Call(request),
            ),
            (_, Step::Done(outcome)) => self.spec_ended(outcome),
        }
    }

    #[verifier::when_used_as_spec(spec_ended)]
    fn ended(self, outcome: Result<(), EngineError>) -> (r: (
        Addition,
        Step<Result<(), EngineError>>,
    ))
        ensures
            r == self.spec_ended(outcome),
    {
        (Addition { stage: AdditionStage::Finished, ..self }, Step::Done(outcome))
    }

    #[verifier::when_used_as_spec(spec_embedded)]
    fn embedded(self, next: (Embedding, Step<Result<(), EngineError>>)) -> (r: (
        Addition,
        Step<Result<(), EngineError>>,
    ))
        ensures
            r == self.spec_embedded(next),
    {
        match next {
            (embedding, Step::Call(request)) => (
                Addition { stage: AdditionStage::Embedding(embedding), ..self },
                Step::Call(request),
            ),
            (_, Step::Done(Err(error))) => self.ended(Err(error)),
            (embedding, Step::Done(Ok(_))) => if self.fullscreen {
                self.placed(set_fullscreen(embedding.wallpaper, embedding.wnd))
            } else {
                self.ended(Ok(()))
            },
        }
    }

    #[verifier::when_used_as_spec(spec_placed)]
    fn placed(self, next: (Fullscreen, Step<Result<(), EngineError>>)) -> (r: (
        Addition,
        Step<Result<(), EngineError>>,
    ))
        ensures
            r == self.spec_placed(next),
    {
        match next {
            (fullscreen, Step::Call(request)) => (
                Addition { stage: AdditionStage::Fullscreen(fullscreen), ..self },
                Step::Call(request),
            ),
            (_, Step::Done(outcome)) => self.ended(outcome),
        }
    }
}

/// The adding of `handle` under `worker`, at its first step.
pub open spec fn spec_add_window_by_handle(
    worker: WindowHandle,
    handle: WindowHandle,
    properties: WallpaperProperties,
) -> (Addition, Step<Result<(), EngineError>>) {
    Addition { fullscreen: properties.fullscreen, stage: AdditionStage::Finished }.spec_embedded(
        spec_add_window_as_wallpaper(worker, handle),
    )
}

fn start_addition(worker: WindowHandle, handle: WindowHandle, properties: WallpaperProperties) -> (start: (
    Addition,
    Step<Result<(), EngineError>>,
))
    ensures
        start == spec_add_window_by_handle(worker, handle, properties),
{
    Addition { fullscreen: properties.fullscreen, stage: AdditionStage::Finished }.embedded(
        add_window_as_wallpaper(worker, handle),
    )
}

impl Task for Addition {
    type Outcome = Result<(), EngineError>;

    open spec fn after(self, reply: Reply) -> (Self, Step<Result<(), EngineError>>) {
        match self.stage {
            AdditionStage::Embedding(embedding) => self.spec_embedded(embedding.after(reply)),
            AdditionStage::Fullscreen(fullscreen) => self.spec_placed(fullscreen.after(reply)),
            AdditionStage::Finished => self.spec_ended(Err(EngineError::UnexpectedReply)),
        }
    }

    fn resume(self, reply: &Reply) -> (next: (Self, Step<Result<(), EngineError>>)) {
        match self.stage {
            AdditionStage::Embedding(embedding) => self.embedded(embedding.resume(reply)),
            AdditionStage::Fullscreen(fullscreen) => self.placed(fullscreen.resume(reply)),
            AdditionStage::Finished => self.ended(Err(EngineError::UnexpectedReply)),
        }
    }
}


/// How far the adding of a window that is yet to be found has come.
#[derive(Clone, Copy, Debug, PartialEq, Eq)]
pub enum SelectionStage {
    /// The id of the started process is awaited.
    Spawning,
    /// A snapshot of the top-level windows is awaited.
    Looking,
    /// The pause after a fruitless look is being taken.
    Sleeping,
    /// The window has been found and is being added.
    Adding(Addition),
    Finished,
}

/// Adding a window that is yet to be found.
#[derive(Clone, Copy, Debug, PartialEq, Eq)]
pub struct Selection<'a> {
    pub worker: WindowHandle,
    pub selector: WindowSelector<'a>,
    pub properties: WallpaperProperties,
    /// The process whose window is sought where no title is given.
    pub process_id: u32,
    /// Milliseconds to pause after a fruitless look.
    pub wait_for: u64,
    /// How many looks may still be taken.
    pub attempts_left: u64,
    pub stage: SelectionStage,
}

/// The window that a selector picks from a snapshot of the top-level
/// windows, or the null handle: by title where one is given, else the
/// first window of the process.
pub open spec fn spec_resolve(selector: WindowSelector, process_id: u32, windows: Seq<WindowInfo>)
    -> WindowHandle {
    match selector {
        WindowSelector::Unset => first_handle(windows, owned_by(process_id)),
        WindowSelector::WindowTitle(title) => first_handle(
            windows,
            selectable_titled(windows, title@),
        ),
    }
}

/// Picks the window that a selector means from a snapshot of the top-level
/// windows.
pub fn resolve(selector: WindowSelector, process_id: u32, windows: &Vec<WindowInfo>) -> (found:
    WindowHandle)
    ensures
        found == spec_resolve(selector, process_id, windows@),
{
    match selector {
        WindowSelector::Unset => find_window_by_pid(windows, process_id),
        WindowSelector::WindowTitle(title) => find_window_by_name(windows, title),
    }
}

impl<'a> Selection<'a> {
    /// This selection at another stage.
    pub open spec fn spec_at(self, stage: SelectionStage) -> Selection<'a> {
        Selection { stage, ..self }
    }

    /// This selection, ended.
    pub open spec fn spec_ended(self, outcome: Result<(), EngineError>) -> (
        Selection<'a>,
        Step<Result<(), EngineError>>,
    ) {
        (self.spec_at(SelectionStage::Finished), Step::Done(outcome))
    }

    /// The next look: a request for a snapshot while looks are left, and
    /// `WindowNotFound` when none is.
    pub open spec fn spec_poll(self) -> (Selection<'a>, Step<Result<(), EngineError>>) {
        if self.attempts_left == 0 {
            self.spec_ended(Err(EngineError::WindowNotFound))
        } else {
            (self.spec_at(SelectionStage::Looking), Step::Call(Request::EnumerateWindows))
        }
    }

    /// What follows when the adding of the found window took a step.
    pub open spec fn spec_added(self, next: (Addition, Step<Result<(), EngineError>>)) -> (
        Selection<'a>,
        Step<Result<(), EngineError>>,
    ) {
        match next {
            (addition, Step::Call(request)) => (
                self.spec_at(SelectionStage::Adding(addition)),
                Step::Call(request),
            ),
            (_, Step::Done(outcome)) => self.spec_ended(outcome),
        }
    }

    #[verifier::when_used_as_spec(spec_at)]
    fn at(self, stage: SelectionStage) -> (r: Selection<'a>)
        ensures
            r == self.spec_at(stage),
    {
        Selection { stage, ..self }
    }

    #[verifier::when_used_as_spec(spec_ended)]
    fn ended(self, outcome: Result<(), EngineError>) -> (r: (
        Selection<'a>,
        Step<Result<(), EngineError>>,
    ))
        ensures
            r == self.spec_ended(outcome),
    {
        (self.at(SelectionStage::Finished), Step::Done(outcome))
    }

    #[verifier::when_used_as_spec(spec_poll)]
    fn poll(self) -> (r: (Selection<'a>, Step<Result<(), EngineError>>))
        ensures
            r == self.spec_poll(),
    {
        if self.attempts_left == 0 {
            self.ended(Err(EngineError::WindowNotFound))
        } else {
            (self.at(SelectionStage::Looking), Step::Call(Request::EnumerateWindows))
        }
    }

    #[verifier::when_used_as_spec(spec_added)]
    fn added(self, next: (Addition, Step<Result<(), EngineError>>)) -> (r: (
        Selection<'a>,
        Step<Result<(), EngineError>>,
    ))
        ensures
            r == self.spec_added(next),
    {
        match next {
            (addition, Step::Call(request)) => (
                self.at(SelectionStage::Adding(addition)),
                Step::Call(request),
            ),
            (_, Step::Done(outcome)) => self.ended(outcome),
        }
    }
}

/// The adding of a window that is yet to be found, at its first step.
/// Where neither a command nor a title is given it ends at once with
/// `InvalidSelection`, and nothing is asked of the window system.
pub open spec fn spec_add_window<'a>(
    worker: WindowHandle,
    command: bool,
    selector: WindowSelector<'a>,
    properties: WallpaperProperties,
    wait_for: u64,
    attempts: u64,
) -> (Selection<'a>, Step<Result<(), EngineError>>) {
    let selection = Selection {
        worker,
        selector,
        properties,
        process_id: 0,
        wait_for,
        attempts_left: attempts,
        stage: SelectionStage::Finished,
    };
    if command {
        (selection.spec_at(SelectionStage::Spawning), Step::Call(Request::Spawn))
    } else if selector is Unset {
        selection.spec_ended(Err(EngineError::InvalidSelection))
    } else {
        selection.spec_poll()
    }
}

impl<'a> Task for Selection<'a> {
    type Outcome = Result<(), EngineError>;

    open spec fn after(self, reply: Reply) -> (Self, Step<Result<(), EngineError>>) {
        match self.stage {
            SelectionStage::Spawning => match reply {
                Reply::Process(process_id) => Selection { process_id, ..self }.spec_poll(),
                _ => self.spec_ended(Err(EngineError::UnexpectedReply)),
            },
            SelectionStage::Looking => match reply {
                Reply::Windows(windows) => {
                    let found = spec_resolve(self.selector, self.process_id, windows@);
                    if found.spec_is_null() {
                        (
                            self.spec_at(SelectionStage::Sleeping),
                            Step::Call(Request::Sleep { millis: self.wait_for }),
                        )
                    } else {
                        self.spec_added(
                            spec_add_window_by_handle(self.worker, found, self.properties),
                        )
                    }
                },
                _ => self.spec_ended(Err(EngineError::UnexpectedReply)),
            },
            SelectionStage::Sleeping => if self.attempts_left == 0 {
                self.spec_ended(Err(EngineError::WindowNotFound))
            } else {
                Selection { attempts_left: (self.attempts_left - 1) as u64, ..self }.spec_poll()
            },
            SelectionStage::Adding(addition) => self.spec_added(addition.after(reply)),
            SelectionStage::Finished => self.spec_ended(Err(EngineError::UnexpectedReply)),
        }
    }

    fn resume(self, reply: &Reply) -> (next: (Self, Step<Result<(), EngineError>>)) {
        match self.stage {
            SelectionStage::Spawning => match reply {
                Reply::Process(process_id) => Selection { process_id: *process_id, ..self }.poll(),
                _ => self.ended(Err(EngineError::UnexpectedReply)),
            },
            SelectionStage::Looking => match reply {
                Reply::Windows(windows) => {
                    let found = resolve(self.selector, self.process_id, windows);
                    if found.is_null() {
                        (
                            self.at(SelectionStage::Sleeping),
                            Step::Call(Request::Sleep { millis: self.wait_for }),
                        )
                    } else {
                        self.added(start_addition(self.worker, found, self.properties))
                    }
                },
                _ => self.ended(Err(EngineError::UnexpectedReply)),
            },
            SelectionStage::Sleeping => if self.attempts_left == 0 {
                self.ended(Err(EngineError::WindowNotFound))
            } else {
                Selection { attempts_left: self.attempts_left - 1, ..self }.poll()
            },
            SelectionStage::Adding(addition) => self.added(addition.resume(reply)),
            SelectionStage::Finished => self.ended(Err(EngineError::UnexpectedReply)),
        }
    }
}

/// Milliseconds that a removed window is given to settle before it is
/// asked to close.
pub const SETTLE_MILLIS: u64 = 32;

/// How far the teardown has come with the window at hand.
#[derive(Clone, Copy, Debug, PartialEq, Eq)]
pub enum TeardownStage {
    /// The window is being removed from the anchor.
    Removing(Removal),
    /// The pause after the removal is being taken.
    Settling,
    /// The window is being asked to close.
    Closing,
    /// All windows are done and the desktop is being repainted.
    Repainting,
    Finished,
}

/// Tearing down all embedded windows of one snapshot.
#[derive(Clone, Debug, PartialEq, Eq)]
pub struct Teardown {
    pub wallpaper: WindowHandle,
    /// The snapshot, in the order in which its windows are taken.
    pub queue: Vec<WindowHandle>,
    /// Position in the snapshot of the window at hand.
    pub index: usize,
    pub stage: TeardownStage,
}

impl Teardown {
    /// This teardown at another stage.
    pub open spec fn spec_at(self, stage: TeardownStage) -> Teardown {
        Teardown { stage, ..self }
    }

    /// The first step for the window at hand: its removal, or, when the
    /// snapshot is used up, the repainting of the desktop.
    pub open spec fn spec_begin_item(self) -> (Teardown, Step<()>) {
        if self.index < self.queue@.len() {
            self.spec_removed(
                spec_remove_window_from_wallpaper(self.wallpaper, self.queue@[self.index as int]),
            )
        } else {
            (
                self.spec_at(TeardownStage::Repainting),
                Step::Call(Request::Invalidate { window: WindowHandle { raw: 0 } }),
            )
        }
    }

    /// What follows when the removal of the window at hand took a step.
    /// Whether the removal succeeded makes no difference.
    pub open spec fn spec_removed(self, next: (Removal, Step<Result<(), EngineError>>)) -> (
        Teardown,
        Step<()>,
    ) {
        match next {
            (removal, Step::Call(request)) => (
                self.spec_at(TeardownStage::Removing(removal)),
                Step::Call(request),
            ),
            (_, Step::Done(_)) => (
                self.spec_at(TeardownStage::Settling),
                Step::Call(Request::Sleep { millis: SETTLE_MILLIS }),
            ),
        }
    }

    fn begin_item(self) -> (r: (Teardown, Step<()>))
        ensures
            r == self.spec_begin_item(),
    {
        if self.index < self.queue.len() {
            let wnd: WindowHandle = self.queue[self.index];
            let next = remove_window_from_wallpaper(self.wallpaper, wnd);
            self.removed(next)
        } else {
            (
                Teardown { stage: TeardownStage::Repainting, ..self },
                Step::Call(Request::Invalidate { window: WindowHandle::null() }),
            )
        }
    }

    fn removed(self, next: (Removal, Step<Result<(), EngineError>>)) -> (r: (Teardown, Step<()>))
        ensures
            r == self.spec_removed(next),
    {
        match next {
            (removal, Step::Call(request)) => (
                Teardown { stage: TeardownStage::Removing(removal), ..self },
                Step::Call(request),
            ),
            (_, Step::Done(_)) => (
                Teardown { stage: TeardownStage::Settling, ..self },
                Step::Call(Request::Sleep { millis: SETTLE_MILLIS }),
            ),
        }
    }
}

/// The teardown of the snapshot `active` under `worker`, at its first
/// request.
pub open spec fn spec_close_all(worker: WindowHandle, active: Vec<WindowHandle>) -> (
    Teardown,
    Step<()>,
) {
    Teardown {
        wallpaper: worker,
        queue: active,
        index: 0,
        stage: TeardownStage::Finished,
    }.spec_begin_item()
}

impl Task for Teardown {
    type Outcome = ();

    open spec fn after(self, reply: Reply) -> (Self, Step<()>) {
        match self.stage {
            TeardownStage::Removing(removal) => self.spec_removed(removal.after(reply)),
            TeardownStage::Settling => if self.index < self.queue@.len() {
                (
                    self.spec_at(TeardownStage::Closing),
                    Step::Call(
                        Request::SendMessage {
                            to: self.queue@[self.index as int],
                            message: CLOSE_MESSAGE,
                            wparam: 0,
                            lparam: 0,
                        },
                    ),
                )
            } else {
                self.spec_begin_item()
            },
            TeardownStage::Closing => if self.index < self.queue@.len() {
                Teardown { index: (self.index + 1) as usize, ..self }.spec_begin_item()
            } else {
                self.spec_begin_item()
            },
            TeardownStage::Repainting => (self.spec_at(TeardownStage::Finished), Step::Done(())),
            TeardownStage::Finished => (self, Step::Done(())),
        }
    }

    fn resume(self, reply: &Reply) -> (next: (Self, Step<()>)) {
        match self.stage {
            TeardownStage::Removing(removal) => {
                let next = removal.resume(reply);
                self.removed(next)
            },
            TeardownStage::Settling => if self.index < self.queue.len() {
                let wnd: WindowHandle = self.queue[self.index];
                (
                    Teardown { stage: TeardownStage::Closing, ..self },
                    Step::Call(
                        Request::SendMessage {
                            to: wnd,
                            message: CLOSE_MESSAGE,
                            wparam: 0,
                            lparam: 0,
                        },
                    ),
                )
            } else {
                self.begin_item()
            },
            TeardownStage::Closing => if self.index < self.queue.len() {
                Teardown { index: self.index + 1, ..self }.begin_item()
            } else {
                self.begin_item()
            },
            TeardownStage::Repainting => (
                Teardown { stage: TeardownStage::Finished, ..self },
                Step::Done(()),
            ),
            TeardownStage::Finished => (self, Step::Done(())),
        }
    }
}

} // verus!
