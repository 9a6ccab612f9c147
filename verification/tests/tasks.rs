use std::collections::VecDeque;

use wallpaper::engine::{
    Engine, WallpaperProperties, WindowSelector, SETTLE_MILLIS,
};
use wallpaper::error::EngineError;
use wallpaper::geometry::{Placement, Point, Rect};
use wallpaper::handle::WindowHandle;
use wallpaper::locator::find_or_spawn_worker;
use wallpaper::mutator::{
    add_window_as_wallpaper, remove_window_from_wallpaper, set_fullscreen, update_window_styles,
};
use wallpaper::protocol::{
    Reply, Request, Step, Task, CLOSE_MESSAGE, FRAME_REFRESH_FLAGS, MOVE_FLAGS, SHOW_COMMAND,
    SPAWN_WORKER_MESSAGE,
};
use wallpaper::style::{embed_update, restore_update, WindowStyle};
use wallpaper::window::WindowInfo;

fn h(raw: u64) -> WindowHandle {
    WindowHandle::from_raw(raw)
}

/// Runs a task, answering its requests with the given replies in turn, and
/// returns the requests it made with its outcome. Panics if the replies run
/// out before the task ends.
fn script<T: Task>(start: (T, Step<T::Outcome>), replies: Vec<Reply>) -> (Vec<Request>, T::Outcome) {
    let mut replies: VecDeque<Reply> = replies.into();
    let (mut task, mut step) = start;
    let mut asked = Vec::new();
    loop {
        match step {
            Step::Done(outcome) => {
                assert!(replies.is_empty(), "replies left over: {:?}", replies);
                return (asked, outcome);
            }
            Step::Call(request) => {
                asked.push(request);
                let reply = replies.pop_front().expect("the task asked for more than was scripted");
                let next = task.resume(&reply);
                task = next.0;
                step = next.1;
            }
        }
    }
}

fn style(style: u32, ex_style: u32) -> Reply {
    Reply::Style { style: WindowStyle { style, ex_style }, last_error: 0 }
}

fn window(raw: u64, title: &str, process_id: u32) -> WindowInfo {
    WindowInfo {
        handle: h(raw),
        parent: h(1),
        root_owner: h(raw),
        last_active_popup: h(raw),
        process_id,
        visible: true,
        title: title.to_string(),
        class_name: "App".to_string(),
        style: WindowStyle { style: 0x14CF_0000, ex_style: 0x100 },
        rect: Rect { left: 0, top: 0, right: 800, bottom: 600 },
    }
}

fn engine() -> Engine {
    Engine::from_handles(h(2), h(3)).unwrap()
}

const ANCHOR: u64 = 3;

fn embed_requests(target: u64, rect: Rect, written: WindowStyle) -> Vec<Request> {
    vec![
        Request::ClassName { of: h(target) },
        Request::Parent { of: h(target) },
        Request::ReadStyle { of: h(target) },
        Request::WriteStyle { of: h(target), style: written },
        Request::WindowRect { of: h(target) },
        Request::MapToWindow { to: h(ANCHOR), rect },
        Request::SetParent { child: h(target), parent: h(ANCHOR) },
        Request::Show { window: h(target), command: SHOW_COMMAND },
    ]
}

fn embed_replies(rect: Rect) -> Vec<Reply> {
    vec![
        Reply::Text("Notepad".to_string()),
        Reply::Handle(h(1)),
        style(0x14CF_0000, 0x0004_0100),
        style(0x14CF_0000, 0x0004_0100),
        Reply::Area(Some(rect)),
        Reply::Area(Some(rect)),
        Reply::Handle(h(1)),
        Reply::Done,
    ]
}

#[test]
fn style_rewrite_reads_then_writes_the_changed_styles() {
    let (asked, outcome) = script(
        update_window_styles(h(9), embed_update()),
        vec![style(0x14CF_0000, 0x0004_0100), style(0x14CF_0000, 0x0004_0100)],
    );
    assert_eq!(
        asked,
        vec![
            Request::ReadStyle { of: h(9) },
            Request::WriteStyle {
                of: h(9),
                style: WindowStyle { style: 0x5400_0000, ex_style: 0 }
            },
        ]
    );
    assert_eq!(outcome, Ok(()));
}

#[test]
fn style_rewrite_accepts_zero_styles_without_an_error_code() {
    let (asked, outcome) = script(
        update_window_styles(h(9), restore_update()),
        vec![style(0, 0), style(0, 0)],
    );
    assert_eq!(
        asked[1],
        Request::WriteStyle { of: h(9), style: WindowStyle { style: 0x00CF_0000, ex_style: 0x0004_0000 } }
    );
    assert_eq!(outcome, Ok(()));
}

#[test]
fn style_rewrite_fails_on_a_failed_read_without_writing() {
    let failed = Reply::Style { style: WindowStyle { style: 0, ex_style: 0 }, last_error: 1400 };
    let (asked, outcome) = script(update_window_styles(h(9), embed_update()), vec![failed]);
    assert_eq!(asked, vec![Request::ReadStyle { of: h(9) }]);
    assert_eq!(outcome, Err(EngineError::StyleReadFailed));
}

#[test]
fn style_rewrite_fails_on_a_failed_write() {
    let failed = Reply::Style { style: WindowStyle { style: 0x10, ex_style: 0 }, last_error: 5 };
    let (asked, outcome) =
        script(update_window_styles(h(9), embed_update()), vec![style(0x10, 0), failed]);
    assert_eq!(asked.len(), 2);
    assert_eq!(outcome, Err(EngineError::StyleWriteFailed));
}

#[test]
fn embedding_asks_in_order_and_succeeds() {
    let rect = Rect { left: 100, top: 50, right: 900, bottom: 650 };
    let (asked, outcome) = script(add_window_as_wallpaper(h(ANCHOR), h(9)), embed_replies(rect));
    assert_eq!(
        asked,
        embed_requests(9, rect, WindowStyle { style: 0x5400_0000, ex_style: 0 })
    );
    assert_eq!(outcome, Ok(()));
}

#[test]
fn embedding_goes_on_whatever_the_mapping_answers() {
    let rect = Rect { left: 100, top: 50, right: 900, bottom: 650 };
    let mut replies = embed_replies(rect);
    replies[5] = Reply::Area(None);
    let (asked, outcome) = script(add_window_as_wallpaper(h(ANCHOR), h(9)), replies);
    assert_eq!(asked.len(), 8);
    assert_eq!(outcome, Ok(()));
}

#[test]
fn embedding_the_anchor_is_refused_without_a_request() {
    let (asked, outcome) = script(add_window_as_wallpaper(h(ANCHOR), h(ANCHOR)), vec![]);
    assert_eq!(asked, vec![]);
    assert_eq!(outcome, Err(EngineError::IneligibleTarget));
}

#[test]
fn embedding_the_taskbar_is_refused() {
    let (asked, outcome) = script(
        add_window_as_wallpaper(h(ANCHOR), h(9)),
        vec![Reply::Text("Shell_TrayWnd".to_string())],
    );
    assert_eq!(asked, vec![Request::ClassName { of: h(9) }]);
    assert_eq!(outcome, Err(EngineError::IneligibleTarget));
}

#[test]
fn embedding_a_child_of_the_anchor_is_refused_as_already_done() {
    let (asked, outcome) = script(
        add_window_as_wallpaper(h(ANCHOR), h(9)),
        vec![Reply::Text("Notepad".to_string()), Reply::Handle(h(ANCHOR))],
    );
    assert_eq!(asked.len(), 2);
    assert_eq!(outcome, Err(EngineError::AlreadyEmbedded));
}

#[test]
fn embedding_stops_at_the_step_that_fails() {
    let rect = Rect { left: 0, top: 0, right: 1, bottom: 1 };
    let cases: Vec<(usize, Reply, EngineError)> = vec![
        (
            2,
            Reply::Style { style: WindowStyle { style: 0, ex_style: 0 }, last_error: 5 },
            EngineError::StyleReadFailed,
        ),
        (
            3,
            Reply::Style { style: WindowStyle { style: 0, ex_style: 7 }, last_error: 5 },
            EngineError::StyleWriteFailed,
        ),
        (4, Reply::Area(None), EngineError::GeometryQueryFailed),
        (6, Reply::Handle(WindowHandle::null()), EngineError::ReparentFailed),
        (0, Reply::Flag(true), EngineError::UnexpectedReply),
        (1, Reply::Done, EngineError::UnexpectedReply),
        (6, Reply::Flag(true), EngineError::UnexpectedReply),
    ];
    for (at, reply, error) in cases {
        let mut replies = embed_replies(rect);
        replies.truncate(at);
        replies.push(reply);
        let (asked, outcome) = script(add_window_as_wallpaper(h(ANCHOR), h(9)), replies);
        assert_eq!(asked.len(), at + 1);
        assert_eq!(outcome, Err(error));
    }
}

#[test]
fn a_finished_task_answers_further_replies_with_an_error() {
    let (task, _) = add_window_as_wallpaper(h(ANCHOR), h(ANCHOR));
    let (_, step) = task.resume(&Reply::Done);
    assert_eq!(step, Step::Done(Err(EngineError::UnexpectedReply)));
}

fn removal_requests(target: u64, desktop: u64, written: WindowStyle) -> Vec<Request> {
    vec![
        Request::DesktopWindow,
        Request::SetParent { child: h(target), parent: h(desktop) },
        Request::ReadStyle { of: h(target) },
        Request::WriteStyle { of: h(target), style: written },
        Request::SetWindowPos {
            window: h(target),
            placement: Placement { x: 0, y: 0, width: 0, height: 0 },
            flags: FRAME_REFRESH_FLAGS,
        },
        Request::Invalidate { window: h(ANCHOR) },
    ]
}

fn removal_replies(desktop: u64) -> Vec<Reply> {
    vec![
        Reply::Handle(h(desktop)),
        Reply::Handle(h(ANCHOR)),
        style(0x5400_0000, 0),
        style(0x5400_0000, 0),
        Reply::Flag(true),
        Reply::Done,
    ]
}

#[test]
fn removal_asks_in_order_and_succeeds() {
    let (asked, outcome) = script(remove_window_from_wallpaper(h(ANCHOR), h(9)), removal_replies(1));
    assert_eq!(
        asked,
        removal_requests(9, 1, WindowStyle { style: 0x54CF_0000, ex_style: 0x0004_0000 })
    );
    assert_eq!(FRAME_REFRESH_FLAGS, 0x0227);
    assert_eq!(outcome, Ok(()));
}

#[test]
fn removal_succeeds_whatever_refresh_and_repaint_answer() {
    let mut replies = removal_replies(1);
    replies[4] = Reply::Flag(false);
    replies[5] = Reply::Flag(false);
    let (_, outcome) = script(remove_window_from_wallpaper(h(ANCHOR), h(9)), replies);
    assert_eq!(outcome, Ok(()));
}

#[test]
fn removal_fails_where_the_window_cannot_be_handed_back() {
    let (asked, outcome) = script(
        remove_window_from_wallpaper(h(ANCHOR), h(9)),
        vec![Reply::Handle(h(1)), Reply::Handle(WindowHandle::null())],
    );
    assert_eq!(asked.len(), 2);
    assert_eq!(outcome, Err(EngineError::ReparentFailed));
}

#[test]
fn removal_fails_where_the_styles_cannot_be_rewritten() {
    let failed = Reply::Style { style: WindowStyle { style: 0, ex_style: 0 }, last_error: 5 };
    let (asked, outcome) = script(
        remove_window_from_wallpaper(h(ANCHOR), h(9)),
        vec![Reply::Handle(h(1)), Reply::Handle(h(ANCHOR)), failed],
    );
    assert_eq!(asked.len(), 3);
    assert_eq!(outcome, Err(EngineError::StyleReadFailed));
}

fn fullscreen_requests(target: u64, corner: Point, full: Rect, placement: Placement) -> Vec<Request> {
    vec![
        Request::WindowRect { of: h(target) },
        Request::NearestMonitor { point: corner },
        Request::MonitorRect { monitor: 77 },
        Request::MapToWindow { to: h(ANCHOR), rect: full },
        Request::SetWindowPos { window: h(target), placement, flags: MOVE_FLAGS },
    ]
}

#[test]
fn fullscreen_moves_the_window_over_the_mapped_monitor() {
    let current = Rect { left: 2000, top: 100, right: 2800, bottom: 700 };
    let full = Rect { left: 1920, top: 0, right: 3840, bottom: 1080 };
    let mapped = Rect { left: 3840, top: 0, right: 5760, bottom: 1080 };
    let (asked, outcome) = script(
        set_fullscreen(h(ANCHOR), h(9)),
        vec![
            Reply::Area(Some(current)),
            Reply::Monitor(77),
            Reply::Area(Some(full)),
            Reply::Area(Some(mapped)),
            Reply::Flag(true),
        ],
    );
    assert_eq!(
        asked,
        fullscreen_requests(
            9,
            Point { x: 2000, y: 100 },
            full,
            Placement { x: 3840, y: 0, width: 1920, height: 1080 }
        )
    );
    assert_eq!(MOVE_FLAGS, 0);
    assert_eq!(outcome, Ok(()));
}

#[test]
fn fullscreen_succeeds_even_where_the_move_is_refused() {
    let rect = Rect { left: 0, top: 0, right: 10, bottom: 10 };
    let (_, outcome) = script(
        set_fullscreen(h(ANCHOR), h(9)),
        vec![
            Reply::Area(Some(rect)),
            Reply::Monitor(77),
            Reply::Area(Some(rect)),
            Reply::Area(Some(rect)),
            Reply::Flag(false),
        ],
    );
    assert_eq!(outcome, Ok(()));
}

#[test]
fn fullscreen_fails_where_geometry_cannot_be_resolved() {
    let rect = Rect { left: 0, top: 0, right: 10, bottom: 10 };
    let unmeasurable = Rect { left: i32::MIN, top: 0, right: 10, bottom: 10 };
    let good = vec![
        Reply::Area(Some(rect)),
        Reply::Monitor(77),
        Reply::Area(Some(rect)),
        Reply::Area(Some(rect)),
    ];
    let cases: Vec<(usize, Reply)> = vec![
        (0, Reply::Area(None)),
        (1, Reply::Monitor(0)),
        (2, Reply::Area(None)),
        (3, Reply::Area(None)),
        (3, Reply::Area(Some(unmeasurable))),
    ];
    for (at, reply) in cases {
        let mut replies = good.clone();
        replies.truncate(at);
        replies.push(reply);
        let (asked, outcome) = script(set_fullscreen(h(ANCHOR), h(9)), replies);
        assert_eq!(asked.len(), at + 1);
        assert_eq!(outcome, Err(EngineError::GeometryQueryFailed));
    }
}

fn shell(with_anchor: bool) -> Reply {
    let mut plain = window(10, "", 1);
    plain.parent = h(2);
    plain.class_name = "WorkerW".to_string();
    let mut host = window(3, "", 1);
    host.parent = h(2);
    host.class_name = "WorkerW".to_string();
    let mut icons = window(12, "FolderView", 1);
    icons.class_name = "SHELLDLL_DefView".to_string();
    icons.parent = if with_anchor { h(3) } else { h(99) };
    Reply::Windows(vec![plain, host, icons])
}

fn directive(wparam: u64, lparam: i64) -> Request {
    Request::SendMessage { to: h(2), message: SPAWN_WORKER_MESSAGE, wparam, lparam }
}

#[test]
fn anchor_that_exists_is_found_at_the_first_look() {
    let (asked, outcome) = script(find_or_spawn_worker(h(2)), vec![shell(true)]);
    assert_eq!(asked, vec![Request::EnumerateDescendants { of: h(2) }]);
    assert_eq!(outcome, Ok(h(3)));
}

#[test]
fn anchor_is_found_after_the_shell_was_told_to_create_it() {
    let (asked, outcome) = script(
        find_or_spawn_worker(h(2)),
        vec![shell(false), Reply::Done, Reply::Done, shell(true)],
    );
    assert_eq!(SPAWN_WORKER_MESSAGE, 0x052C);
    assert_eq!(
        asked,
        vec![
            Request::EnumerateDescendants { of: h(2) },
            directive(0xD, 0),
            directive(0xD, 1),
            Request::EnumerateDescendants { of: h(2) },
        ]
    );
    assert_eq!(outcome, Ok(h(3)));
}

#[test]
fn anchor_is_found_by_the_last_strategy() {
    let (asked, outcome) = script(
        find_or_spawn_worker(h(2)),
        vec![shell(false), Reply::Done, Reply::Done, shell(false), Reply::Done, shell(true)],
    );
    assert_eq!(asked.len(), 6);
    assert_eq!(asked[4], directive(0, 0));
    assert_eq!(outcome, Ok(h(3)));
}

#[test]
fn search_gives_up_after_three_strategies() {
    let (asked, outcome) = script(
        find_or_spawn_worker(h(2)),
        vec![shell(false), Reply::Done, Reply::Done, shell(false), Reply::Done, shell(false)],
    );
    assert_eq!(
        asked,
        vec![
            Request::EnumerateDescendants { of: h(2) },
            directive(0xD, 0),
            directive(0xD, 1),
            Request::EnumerateDescendants { of: h(2) },
            directive(0, 0),
            Request::EnumerateDescendants { of: h(2) },
        ]
    );
    assert_eq!(outcome, Err(EngineError::UnableToSpawnWorker));
}

#[test]
fn engine_is_made_over_the_shell_root_and_the_anchor() {
    let (asked, outcome) = script(Engine::new(), vec![Reply::Handle(h(2)), shell(true)]);
    assert_eq!(
        asked,
        vec![
            Request::FindWindowByClass { class: "Progman" },
            Request::EnumerateDescendants { of: h(2) },
        ]
    );
    let engine = outcome.unwrap();
    assert_eq!(engine.progman(), h(2));
    assert_eq!(engine.worker(), h(3));
}

#[test]
fn engine_needs_the_shell_root() {
    let (asked, outcome) = script(Engine::new(), vec![Reply::Handle(WindowHandle::null())]);
    assert_eq!(asked.len(), 1);
    assert_eq!(outcome, Err(EngineError::ProgmanNotFound));
}

#[test]
fn engine_needs_the_anchor() {
    let (asked, outcome) = script(
        Engine::new(),
        vec![
            Reply::Handle(h(2)),
            shell(false),
            Reply::Done,
            Reply::Done,
            shell(false),
            Reply::Done,
            shell(false),
        ],
    );
    assert_eq!(asked.len(), 7);
    assert_eq!(outcome, Err(EngineError::UnableToSpawnWorker));
}

#[test]
fn engine_over_null_handles_does_not_exist() {
    assert_eq!(Engine::from_handles(h(0), h(3)), Err(EngineError::ProgmanNotFound));
    assert_eq!(Engine::from_handles(h(0), h(0)), Err(EngineError::ProgmanNotFound));
    assert_eq!(Engine::from_handles(h(2), h(0)), Err(EngineError::UnableToSpawnWorker));
    assert!(Engine::from_handles(h(2), h(3)).is_ok());
}

#[test]
fn active_windows_are_the_children_of_the_anchor_in_ascending_order() {
    let mut a = window(30, "a", 1);
    a.parent = h(ANCHOR);
    let mut b = window(10, "b", 1);
    b.parent = h(ANCHOR);
    let mut grandchild = window(20, "c", 1);
    grandchild.parent = h(30);
    assert_eq!(engine().list_active(&vec![a, b, grandchild]), vec![h(10), h(30)]);
}

#[test]
fn adding_by_handle_without_fullscreen_only_embeds() {
    let rect = Rect { left: 0, top: 0, right: 800, bottom: 600 };
    let (asked, outcome) = script(
        engine().add_window_by_handle(h(9), WallpaperProperties { fullscreen: false }),
        embed_replies(rect),
    );
    assert_eq!(asked.len(), 8);
    assert_eq!(outcome, Ok(()));
}

#[test]
fn adding_by_handle_with_fullscreen_embeds_then_places() {
    let rect = Rect { left: 0, top: 0, right: 800, bottom: 600 };
    let full = Rect { left: 0, top: 0, right: 1920, bottom: 1080 };
    let mut replies = embed_replies(rect);
    replies.extend(vec![
        Reply::Area(Some(rect)),
        Reply::Monitor(77),
        Reply::Area(Some(full)),
        Reply::Area(Some(full)),
        Reply::Flag(true),
    ]);
    let (asked, outcome) = script(
        engine().add_window_by_handle(h(9), WallpaperProperties { fullscreen: true }),
        replies,
    );
    let mut expected = embed_requests(9, rect, WindowStyle { style: 0x5400_0000, ex_style: 0 });
    expected.extend(fullscreen_requests(
        9,
        Point { x: 0, y: 0 },
        full,
        Placement { x: 0, y: 0, width: 1920, height: 1080 },
    ));
    assert_eq!(asked, expected);
    assert_eq!(outcome, Ok(()));
}

#[test]
fn adding_by_handle_fails_where_fullscreen_fails() {
    let rect = Rect { left: 0, top: 0, right: 800, bottom: 600 };
    let mut replies = embed_replies(rect);
    replies.extend(vec![Reply::Area(Some(rect)), Reply::Monitor(0)]);
    let (asked, outcome) = script(
        engine().add_window_by_handle(h(9), WallpaperProperties { fullscreen: true }),
        replies,
    );
    assert_eq!(asked.len(), 10);
    assert_eq!(outcome, Err(EngineError::GeometryQueryFailed));
}

#[test]
fn adding_by_handle_does_not_place_a_window_that_was_not_embedded() {
    let (asked, outcome) = script(
        engine().add_window_by_handle(h(9), WallpaperProperties { fullscreen: true }),
        vec![Reply::Text("Notepad".to_string()), Reply::Handle(h(ANCHOR))],
    );
    assert_eq!(asked.len(), 2);
    assert_eq!(outcome, Err(EngineError::AlreadyEmbedded));
}

#[test]
fn adding_without_command_and_selector_is_invalid() {
    let (asked, outcome) = script(
        engine().add_window(
            false,
            WindowSelector::Unset,
            WallpaperProperties { fullscreen: true },
            100,
            50,
        ),
        vec![],
    );
    assert_eq!(asked, vec![]);
    assert_eq!(outcome, Err(EngineError::InvalidSelection));
}

#[test]
fn adding_by_a_title_that_never_matches_times_out() {
    let others = || Reply::Windows(vec![window(9, "Editor", 7), window(10, "Terminal", 8)]);
    let (asked, outcome) = script(
        engine().add_window(
            false,
            WindowSelector::WindowTitle("Clock"),
            WallpaperProperties { fullscreen: false },
            10,
            3,
        ),
        vec![others(), Reply::Done, others(), Reply::Done, others(), Reply::Done],
    );
    assert_eq!(
        asked,
        vec![
            Request::EnumerateWindows,
            Request::Sleep { millis: 10 },
            Request::EnumerateWindows,
            Request::Sleep { millis: 10 },
            Request::EnumerateWindows,
            Request::Sleep { millis: 10 },
        ]
    );
    let lookups = asked.iter().filter(|r| **r == Request::EnumerateWindows).count();
    let slept: u64 = asked
        .iter()
        .map(|r| match r {
            Request::Sleep { millis } => *millis,
            _ => 0,
        })
        .sum();
    assert_eq!(lookups, 3);
    assert!(slept >= 30);
    assert_eq!(outcome, Err(EngineError::WindowNotFound));
}

#[test]
fn adding_with_no_attempts_fails_without_a_look() {
    let (asked, outcome) = script(
        engine().add_window(
            false,
            WindowSelector::WindowTitle("Clock"),
            WallpaperProperties { fullscreen: false },
            10,
            0,
        ),
        vec![],
    );
    assert_eq!(asked, vec![]);
    assert_eq!(outcome, Err(EngineError::WindowNotFound));
}

#[test]
fn adding_by_title_embeds_the_window_once_it_appears() {
    let rect = Rect { left: 0, top: 0, right: 800, bottom: 600 };
    let mut replies = vec![
        Reply::Windows(vec![window(9, "Editor", 7)]),
        Reply::Done,
        Reply::Windows(vec![window(9, "Editor", 7), window(11, "Clock", 8)]),
    ];
    replies.extend(embed_replies(rect));
    let (asked, outcome) = script(
        engine().add_window(
            false,
            WindowSelector::WindowTitle("Clock"),
            WallpaperProperties { fullscreen: false },
            100,
            50,
        ),
        replies,
    );
    let mut expected =
        vec![Request::EnumerateWindows, Request::Sleep { millis: 100 }, Request::EnumerateWindows];
    expected.extend(embed_requests(11, rect, WindowStyle { style: 0x5400_0000, ex_style: 0 }));
    assert_eq!(asked, expected);
    assert_eq!(outcome, Ok(()));
}

#[test]
fn adding_with_a_command_takes_the_window_of_the_started_process() {
    let rect = Rect { left: 0, top: 0, right: 800, bottom: 600 };
    let mut replies = vec![
        Reply::Process(4242),
        Reply::Windows(vec![window(9, "Editor", 7)]),
        Reply::Done,
        Reply::Windows(vec![window(9, "Editor", 7), window(11, "", 4242), window(12, "x", 4242)]),
    ];
    replies.extend(embed_replies(rect));
    let (asked, outcome) = script(
        engine().add_window(
            true,
            WindowSelector::Unset,
            WallpaperProperties { fullscreen: false },
            50,
            100,
        ),
        replies,
    );
    assert_eq!(asked[0], Request::Spawn);
    assert_eq!(asked[1], Request::EnumerateWindows);
    assert_eq!(asked[2], Request::Sleep { millis: 50 });
    assert_eq!(asked[4], Request::ClassName { of: h(11) });
    assert_eq!(asked.len(), 12);
    assert_eq!(outcome, Ok(()));
}

#[test]
fn adding_with_a_command_and_a_title_goes_by_the_title() {
    let (asked, outcome) = script(
        engine().add_window(
            true,
            WindowSelector::WindowTitle("Clock"),
            WallpaperProperties { fullscreen: false },
            50,
            1,
        ),
        vec![
            Reply::Process(4242),
            Reply::Windows(vec![window(11, "Other", 4242), window(12, "Clock", 1)]),
            Reply::Text("Shell_TrayWnd".to_string()),
        ],
    );
    assert_eq!(asked[2], Request::ClassName { of: h(12) });
    assert_eq!(outcome, Err(EngineError::IneligibleTarget));
}

#[test]
fn adding_the_anchor_itself_by_title_is_refused() {
    let (asked, outcome) = script(
        engine().add_window(
            false,
            WindowSelector::WindowTitle("Anchor"),
            WallpaperProperties { fullscreen: false },
            50,
            1,
        ),
        vec![Reply::Windows(vec![window(ANCHOR, "Anchor", 1)])],
    );
    assert_eq!(asked, vec![Request::EnumerateWindows]);
    assert_eq!(outcome, Err(EngineError::IneligibleTarget));
}

#[test]
fn removing_a_wallpaper_is_the_removal_from_the_anchor() {
    let (asked, outcome) = script(engine().remove_wallpaper(h(9)), removal_replies(1));
    assert_eq!(
        asked,
        removal_requests(9, 1, WindowStyle { style: 0x54CF_0000, ex_style: 0x0004_0000 })
    );
    assert_eq!(outcome, Ok(()));
}

fn close(target: u64) -> Request {
    Request::SendMessage { to: h(target), message: CLOSE_MESSAGE, wparam: 0, lparam: 0 }
}

#[test]
fn closing_all_removes_pauses_and_closes_each_window_in_turn() {
    let mut replies = removal_replies(1);
    replies.extend(vec![Reply::Done, Reply::Done]);
    replies.extend(removal_replies(1));
    replies.extend(vec![Reply::Done, Reply::Done, Reply::Done]);
    let (asked, outcome) = script(engine().close_all(vec![h(9), h(10)]), replies);
    let written = WindowStyle { style: 0x54CF_0000, ex_style: 0x0004_0000 };
    let mut expected = removal_requests(9, 1, written);
    expected.extend(vec![Request::Sleep { millis: 32 }, close(9)]);
    expected.extend(removal_requests(10, 1, written));
    expected.extend(vec![Request::Sleep { millis: 32 }, close(10)]);
    expected.push(Request::Invalidate { window: WindowHandle::null() });
    assert_eq!(SETTLE_MILLIS, 32);
    assert_eq!(CLOSE_MESSAGE, 0x0010);
    assert_eq!(asked, expected);
    assert_eq!(outcome, ());
}

#[test]
fn closing_all_closes_a_window_even_where_its_removal_fails() {
    let (asked, _) = script(
        engine().close_all(vec![h(9)]),
        vec![
            Reply::Handle(h(1)),
            Reply::Handle(WindowHandle::null()),
            Reply::Done,
            Reply::Done,
            Reply::Done,
        ],
    );
    assert_eq!(
        asked,
        vec![
            Request::DesktopWindow,
            Request::SetParent { child: h(9), parent: h(1) },
            Request::Sleep { millis: 32 },
            close(9),
            Request::Invalidate { window: WindowHandle::null() },
        ]
    );
}

#[test]
fn closing_all_of_nothing_only_repaints() {
    let (asked, _) = script(engine().close_all(vec![]), vec![Reply::Done]);
    assert_eq!(asked, vec![Request::Invalidate { window: WindowHandle::null() }]);
}
