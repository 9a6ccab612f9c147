use std::collections::HashMap;

use wallpaper::engine::{Engine, WallpaperProperties, WindowSelector};
use wallpaper::error::EngineError;
use wallpaper::geometry::{Point, Rect};
use wallpaper::handle::WindowHandle;
use wallpaper::mutator::{add_window_as_wallpaper, remove_window_from_wallpaper, set_fullscreen};
use wallpaper::protocol::{Reply, Request, Step, Task, CLOSE_MESSAGE, FRAME_REFRESH_FLAGS};
use wallpaper::style::{WindowStyle, WS_CHILD, WS_OVERLAPPEDWINDOW};
use wallpaper::window::{list_immediate_children, list_windows, WindowInfo};

fn h(raw: u64) -> WindowHandle {
    WindowHandle::from_raw(raw)
}

const ROOT: u64 = 1;
const PROGMAN: u64 = 2;
const ANCHOR: u64 = 3;
const TRAY: u64 = 4;
const NOTES: u64 = 20;
const CLOCK: u64 = 10;
const LEFT_MONITOR: u64 = 71;
const RIGHT_MONITOR: u64 = 72;

/// A desktop in memory that answers requests as the window system is
/// documented to.
struct Desktop {
    windows: Vec<WindowInfo>,
    monitors: HashMap<u64, Rect>,
    slept: u64,
    spawned: u32,
}

fn window(raw: u64, parent: u64, class: &str, title: &str, rect: Rect) -> WindowInfo {
    WindowInfo {
        handle: h(raw),
        parent: h(parent),
        root_owner: h(raw),
        last_active_popup: h(raw),
        process_id: 1000 + raw as u32,
        visible: true,
        title: title.to_string(),
        class_name: class.to_string(),
        style: WindowStyle { style: 0x14CF_0000, ex_style: 0x0000_0100 },
        rect,
    }
}

impl Desktop {
    fn new() -> Desktop {
        let left = Rect { left: -1920, top: 0, right: 0, bottom: 1080 };
        let right = Rect { left: 0, top: 0, right: 2560, bottom: 1440 };
        let all = Rect { left: -1920, top: 0, right: 2560, bottom: 1440 };
        Desktop {
            windows: vec![
                window(PROGMAN, ROOT, "Progman", "Program Manager", all),
                window(ANCHOR, PROGMAN, "WorkerW", "", all),
                window(5, ANCHOR, "SHELLDLL_DefView", "", all),
                window(TRAY, ROOT, "Shell_TrayWnd", "", Rect { left: 0, top: 1400, right: 2560, bottom: 1440 }),
                window(NOTES, ROOT, "Notepad", "Notes", Rect { left: 100, top: 100, right: 900, bottom: 700 }),
                window(CLOCK, ROOT, "Clock", "Clock", Rect { left: -1000, top: 200, right: -600, bottom: 600 }),
            ],
            monitors: HashMap::from([(LEFT_MONITOR, left), (RIGHT_MONITOR, right)]),
            slept: 0,
            spawned: 0,
        }
    }

    fn find(&mut self, handle: WindowHandle) -> Option<&mut WindowInfo> {
        self.windows.iter_mut().find(|w| w.handle == handle)
    }

    fn origin(&mut self, handle: WindowHandle) -> (i32, i32) {
        self.find(handle).map(|w| (w.rect.left, w.rect.top)).unwrap_or((0, 0))
    }

    fn descends(&self, w: &WindowInfo, ancestor: WindowHandle) -> bool {
        let mut at = w.parent;
        for _ in 0..self.windows.len() {
            if at == ancestor {
                return true;
            }
            match self.windows.iter().find(|p| p.handle == at) {
                Some(p) => at = p.parent,
                None => return false,
            }
        }
        false
    }

    fn answer(&mut self, request: &Request) -> Reply {
        let no_style =
            Reply::Style { style: WindowStyle { style: 0, ex_style: 0 }, last_error: 1400 };
        match *request {
            Request::FindWindowByClass { class } => Reply::Handle(
                self.windows
                    .iter()
                    .find(|w| w.parent == h(ROOT) && w.class_name == class)
                    .map(|w| w.handle)
                    .unwrap_or(WindowHandle::null()),
            ),
            Request::EnumerateWindows => {
                Reply::Windows(self.windows.iter().filter(|w| w.parent == h(ROOT)).cloned().collect())
            }
            Request::EnumerateDescendants { of } => Reply::Windows(
                self.windows.iter().filter(|w| self.descends(w, of)).cloned().collect(),
            ),
            Request::SendMessage { to, message, .. } => {
                if message == CLOSE_MESSAGE {
                    self.windows.retain(|w| w.handle != to);
                }
                Reply::Done
            }
            Request::ClassName { of } => {
                Reply::Text(self.find(of).map(|w| w.class_name.clone()).unwrap_or_default())
            }
            Request::Parent { of } => {
                Reply::Handle(self.find(of).map(|w| w.parent).unwrap_or(WindowHandle::null()))
            }
            Request::ReadStyle { of } => match self.find(of) {
                Some(w) => Reply::Style { style: w.style, last_error: 0 },
                None => no_style,
            },
            Request::WriteStyle { of, style } => match self.find(of) {
                Some(w) => {
                    let previous = w.style;
                    w.style = style;
                    Reply::Style { style: previous, last_error: 0 }
                }
                None => no_style,
            },
            Request::WindowRect { of } => Reply::Area(self.find(of).map(|w| w.rect)),
            Request::MapToWindow { to, rect } => match self.find(to) {
                Some(w) => {
                    let (x, y) = (w.rect.left, w.rect.top);
                    Reply::Area(Some(Rect {
                        left: rect.left - x,
                        top: rect.top - y,
                        right: rect.right - x,
                        bottom: rect.bottom - y,
                    }))
                }
                None => Reply::Area(None),
            },
            Request::SetParent { child, parent } => {
                let known = parent == h(ROOT) || self.find(parent).is_some();
                match self.find(child) {
                    Some(w) if known => {
                        let previous = w.parent;
                        w.parent = parent;
                        Reply::Handle(previous)
                    }
                    _ => Reply::Handle(WindowHandle::null()),
                }
            }
            Request::DesktopWindow => Reply::Handle(h(ROOT)),
            Request::Show { window, .. } => {
                if let Some(w) = self.find(window) {
                    w.visible = true;
                }
                Reply::Done
            }
            Request::SetWindowPos { window, placement, flags } => {
                let parent = match self.find(window) {
                    Some(w) => w.parent,
                    None => return Reply::Flag(false),
                };
                if flags != FRAME_REFRESH_FLAGS {
                    let (x, y) = self.origin(parent);
                    let w = self.find(window).unwrap();
                    w.rect = Rect {
                        left: placement.x + x,
                        top: placement.y + y,
                        right: placement.x + placement.width + x,
                        bottom: placement.y + placement.height + y,
                    };
                }
                Reply::Flag(true)
            }
            Request::Invalidate { .. } => Reply::Done,
            Request::NearestMonitor { point } => {
                Reply::Monitor(if point.x < 0 { LEFT_MONITOR } else { RIGHT_MONITOR })
            }
            Request::MonitorRect { monitor } => Reply::Area(self.monitors.get(&monitor).copied()),
            Request::Spawn => {
                self.spawned += 1;
                Reply::Process(1000 + NOTES as u32)
            }
            Request::Sleep { millis } => {
                self.slept += millis;
                Reply::Done
            }
        }
    }

    fn run<T: Task>(&mut self, start: (T, Step<T::Outcome>)) -> T::Outcome {
        let (mut task, mut step) = start;
        loop {
            match step {
                Step::Done(outcome) => return outcome,
                Step::Call(request) => {
                    let reply = self.answer(&request);
                    let next = task.resume(&reply);
                    task = next.0;
                    step = next.1;
                }
            }
        }
    }

    fn children(&self, parent: u64) -> Vec<WindowHandle> {
        list_immediate_children(&self.windows, h(parent))
    }

    fn engine(&mut self) -> Engine {
        self.run(Engine::new()).unwrap()
    }
}

fn relative(rect: Rect, origin: Rect) -> Rect {
    Rect {
        left: rect.left - origin.left,
        top: rect.top - origin.top,
        right: rect.right - origin.left,
        bottom: rect.bottom - origin.top,
    }
}

#[test]
fn engine_finds_the_anchor_on_the_desktop() {
    let mut desktop = Desktop::new();
    let engine = desktop.engine();
    assert_eq!(engine.progman(), h(PROGMAN));
    assert_eq!(engine.worker(), h(ANCHOR));
}

#[test]
fn embedded_window_is_a_child_of_the_anchor() {
    let mut desktop = Desktop::new();
    assert_eq!(desktop.children(ANCHOR), vec![h(5)]);
    assert_eq!(desktop.run(add_window_as_wallpaper(h(ANCHOR), h(NOTES))), Ok(()));
    assert_eq!(desktop.children(ANCHOR), vec![h(5), h(NOTES)]);
    let notes = desktop.find(h(NOTES)).unwrap().clone();
    assert_eq!(notes.style.style & WS_CHILD, WS_CHILD);
    assert_eq!(notes.style.style & WS_OVERLAPPEDWINDOW, 0);
    assert_eq!(notes.style.ex_style, 0);
}

#[test]
fn embedding_twice_fails_the_second_time_and_lists_the_window_once() {
    let mut desktop = Desktop::new();
    assert_eq!(desktop.run(add_window_as_wallpaper(h(ANCHOR), h(NOTES))), Ok(()));
    let once = desktop.windows.clone();
    assert_eq!(
        desktop.run(add_window_as_wallpaper(h(ANCHOR), h(NOTES))),
        Err(EngineError::AlreadyEmbedded)
    );
    assert_eq!(desktop.windows, once);
    let listed = desktop.children(ANCHOR);
    assert_eq!(listed.iter().filter(|c| **c == h(NOTES)).count(), 1);
}

#[test]
fn taskbar_and_anchor_are_never_embedded() {
    let mut desktop = Desktop::new();
    let before = desktop.windows.clone();
    assert_eq!(
        desktop.run(add_window_as_wallpaper(h(ANCHOR), h(TRAY))),
        Err(EngineError::IneligibleTarget)
    );
    assert_eq!(
        desktop.run(add_window_as_wallpaper(h(ANCHOR), h(ANCHOR))),
        Err(EngineError::IneligibleTarget)
    );
    assert_eq!(desktop.windows, before);
}

#[test]
fn embedding_a_window_that_does_not_exist_fails() {
    let mut desktop = Desktop::new();
    assert_eq!(
        desktop.run(add_window_as_wallpaper(h(ANCHOR), h(999))),
        Err(EngineError::StyleReadFailed)
    );
    assert_eq!(desktop.children(ANCHOR), vec![h(5)]);
}

#[test]
fn removed_window_is_no_child_of_the_anchor() {
    let mut desktop = Desktop::new();
    assert_eq!(desktop.run(add_window_as_wallpaper(h(ANCHOR), h(NOTES))), Ok(()));
    assert_eq!(desktop.run(remove_window_from_wallpaper(h(ANCHOR), h(NOTES))), Ok(()));
    assert_eq!(desktop.children(ANCHOR), vec![h(5)]);
    let notes = desktop.find(h(NOTES)).unwrap().clone();
    assert_eq!(notes.parent, h(ROOT));
    assert_eq!(notes.style.style & WS_OVERLAPPEDWINDOW, WS_OVERLAPPEDWINDOW);
    // the child bit stays, as the restoring rewrite cuts nothing
    assert_eq!(notes.style.style & WS_CHILD, WS_CHILD);
}

#[test]
fn removing_a_window_that_does_not_exist_fails() {
    let mut desktop = Desktop::new();
    assert_eq!(
        desktop.run(remove_window_from_wallpaper(h(ANCHOR), h(999))),
        Err(EngineError::ReparentFailed)
    );
    assert!(!desktop.children(ANCHOR).contains(&h(999)));
}

#[test]
fn fullscreen_window_covers_the_monitor_nearest_to_its_corner() {
    let mut desktop = Desktop::new();
    let anchor = desktop.find(h(ANCHOR)).unwrap().rect;
    for (target, monitor) in [(NOTES, RIGHT_MONITOR), (CLOCK, LEFT_MONITOR)] {
        assert_eq!(desktop.run(add_window_as_wallpaper(h(ANCHOR), h(target))), Ok(()));
        assert_eq!(desktop.run(set_fullscreen(h(ANCHOR), h(target))), Ok(()));
        let full = desktop.monitors[&monitor];
        let after = desktop.find(h(target)).unwrap().rect;
        assert_eq!(relative(after, anchor), relative(full, anchor));
    }
    assert_eq!(
        relative(desktop.find(h(CLOCK)).unwrap().rect, anchor),
        Rect { left: 0, top: 0, right: 1920, bottom: 1080 }
    );
    assert_eq!(
        relative(desktop.find(h(NOTES)).unwrap().rect, anchor),
        Rect { left: 1920, top: 0, right: 4480, bottom: 1440 }
    );
}

#[test]
fn adding_by_handle_with_fullscreen_embeds_and_covers() {
    let mut desktop = Desktop::new();
    let engine = desktop.engine();
    let start = engine.add_window_by_handle(h(NOTES), WallpaperProperties { fullscreen: true });
    assert_eq!(desktop.run(start), Ok(()));
    assert_eq!(engine.list_active(&desktop.windows), vec![h(5), h(NOTES)]);
    let covered = desktop.find(h(NOTES)).unwrap().rect;
    assert_eq!(covered, desktop.monitors[&RIGHT_MONITOR]);
    let before = Rect { left: 100, top: 100, right: 900, bottom: 700 };
    assert_eq!(before.top_left(), Point { x: 100, y: 100 });
}

#[test]
fn adding_by_title_embeds_the_titled_window() {
    let mut desktop = Desktop::new();
    let engine = desktop.engine();
    let start = engine.add_window(
        false,
        WindowSelector::WindowTitle("Clock"),
        WallpaperProperties { fullscreen: false },
        100,
        50,
    );
    assert_eq!(desktop.run(start), Ok(()));
    assert_eq!(engine.list_active(&desktop.windows), vec![h(5), h(CLOCK)]);
    assert_eq!(desktop.slept, 0);
    assert_eq!(desktop.spawned, 0);
}

#[test]
fn adding_by_command_embeds_the_window_of_the_process() {
    let mut desktop = Desktop::new();
    let engine = desktop.engine();
    let start = engine.add_window(
        true,
        WindowSelector::Unset,
        WallpaperProperties { fullscreen: false },
        50,
        100,
    );
    assert_eq!(desktop.run(start), Ok(()));
    assert_eq!(desktop.spawned, 1);
    assert_eq!(engine.list_active(&desktop.windows), vec![h(5), h(NOTES)]);
}

#[test]
fn invalid_selection_spawns_and_embeds_nothing() {
    let mut desktop = Desktop::new();
    let engine = desktop.engine();
    let before = desktop.windows.clone();
    let start = engine.add_window(
        false,
        WindowSelector::Unset,
        WallpaperProperties { fullscreen: false },
        50,
        100,
    );
    assert_eq!(desktop.run(start), Err(EngineError::InvalidSelection));
    assert_eq!(desktop.spawned, 0);
    assert_eq!(desktop.windows, before);
}

#[test]
fn selection_that_never_matches_waits_out_its_budget() {
    let mut desktop = Desktop::new();
    let engine = desktop.engine();
    let before = desktop.windows.clone();
    let start = engine.add_window(
        false,
        WindowSelector::WindowTitle("No such window"),
        WallpaperProperties { fullscreen: false },
        10,
        3,
    );
    assert_eq!(desktop.run(start), Err(EngineError::WindowNotFound));
    assert_eq!(desktop.slept, 30);
    assert_eq!(desktop.windows, before);
}

#[test]
fn closing_all_leaves_the_anchor_without_children() {
    let mut desktop = Desktop::new();
    let engine = desktop.engine();
    for target in [NOTES, CLOCK] {
        let start = engine.add_window_by_handle(h(target), WallpaperProperties { fullscreen: false });
        assert_eq!(desktop.run(start), Ok(()));
    }
    let active = engine.list_active(&desktop.windows);
    assert_eq!(active, vec![h(5), h(CLOCK), h(NOTES)]);
    desktop.run(engine.close_all(active));
    assert_eq!(engine.list_active(&desktop.windows), Vec::<WindowHandle>::new());
    assert_eq!(desktop.slept, 3 * 32);
    assert!(desktop.find(h(NOTES)).is_none());
    assert!(desktop.find(h(TRAY)).is_some());
}

#[test]
fn top_level_listing_leaves_out_what_a_user_cannot_pick() {
    let mut desktop = Desktop::new();
    desktop.find(h(CLOCK)).unwrap().visible = false;
    let top_level = match desktop.answer(&Request::EnumerateWindows) {
        Reply::Windows(windows) => windows,
        other => panic!("unexpected reply {:?}", other),
    };
    // the taskbar has no title, the clock is hidden
    assert_eq!(list_windows(&top_level), vec![h(PROGMAN), h(NOTES)]);
}
