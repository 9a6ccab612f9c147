use wallpaper::geometry::Rect;
use wallpaper::handle::WindowHandle;
use wallpaper::style::{WindowStyle, WS_EX_TOOLWINDOW};
use wallpaper::window::{
    find_window_by_name, find_window_by_pid, find_worker, list_immediate_children, list_windows,
    with_titles, WindowInfo,
};

fn h(raw: u64) -> WindowHandle {
    WindowHandle::from_raw(raw)
}

fn window(raw: u64, title: &str) -> WindowInfo {
    WindowInfo {
        handle: h(raw),
        parent: h(1),
        root_owner: h(raw),
        last_active_popup: h(raw),
        process_id: 100 + raw as u32,
        visible: true,
        title: title.to_string(),
        class_name: "App".to_string(),
        style: WindowStyle { style: 0, ex_style: 0 },
        rect: Rect { left: 0, top: 0, right: 10, bottom: 10 },
    }
}

#[test]
fn list_windows_keeps_visible_titled_windows_in_order() {
    let windows = vec![window(30, "c"), window(10, "a"), window(20, "b")];
    assert_eq!(list_windows(&windows), vec![h(30), h(10), h(20)]);
}

#[test]
fn list_windows_drops_untitled_and_invisible_windows() {
    let mut hidden = window(11, "hidden");
    hidden.visible = false;
    let windows = vec![window(10, ""), hidden, window(12, "shown")];
    assert_eq!(list_windows(&windows), vec![h(12)]);
}

#[test]
fn list_windows_drops_tool_windows() {
    let mut tool = window(10, "palette");
    tool.style.ex_style = WS_EX_TOOLWINDOW;
    let windows = vec![tool, window(11, "editor")];
    assert_eq!(list_windows(&windows), vec![h(11)]);
}

#[test]
fn list_windows_lists_the_owner_of_a_visible_popup_only() {
    let mut owner = window(10, "editor");
    owner.last_active_popup = h(11);
    let mut popup = window(11, "save as");
    popup.root_owner = h(10);
    let windows = vec![owner, popup];
    assert_eq!(list_windows(&windows), vec![h(10)]);
}

#[test]
fn list_windows_drops_windows_whose_walk_runs_in_a_circle() {
    let mut a = window(10, "a");
    a.root_owner = h(11);
    let mut b = window(11, "b");
    b.visible = false;
    b.last_active_popup = h(12);
    let mut c = window(12, "c");
    c.visible = false;
    c.last_active_popup = h(11);
    let windows = vec![a, b, c];
    assert_eq!(list_windows(&windows), Vec::<WindowHandle>::new());
}

#[test]
fn children_are_listed_in_ascending_order() {
    let mut a = window(30, "a");
    a.parent = h(5);
    let mut b = window(10, "b");
    b.parent = h(5);
    let mut c = window(20, "c");
    c.parent = h(6);
    let mut d = window(15, "d");
    d.parent = h(5);
    let windows = vec![a, b, c, d];
    assert_eq!(list_immediate_children(&windows, h(5)), vec![h(10), h(15), h(30)]);
    assert_eq!(list_immediate_children(&windows, h(6)), vec![h(20)]);
    assert_eq!(list_immediate_children(&windows, h(7)), Vec::<WindowHandle>::new());
}

#[test]
fn first_window_of_a_process_is_found() {
    let mut a = window(10, "a");
    a.process_id = 7;
    let mut b = window(11, "b");
    b.process_id = 8;
    let mut c = window(12, "c");
    c.process_id = 8;
    let windows = vec![a, b, c];
    assert_eq!(find_window_by_pid(&windows, 8), h(11));
    assert_eq!(find_window_by_pid(&windows, 9), WindowHandle::null());
}

#[test]
fn title_must_match_exactly() {
    let windows = vec![window(10, "Notes"), window(11, "Notes - draft"), window(12, "Notes")];
    assert_eq!(find_window_by_name(&windows, "Notes"), h(10));
    assert_eq!(find_window_by_name(&windows, "Notes - draft"), h(11));
    assert_eq!(find_window_by_name(&windows, "notes"), WindowHandle::null());
}

#[test]
fn title_of_an_unlisted_window_does_not_match() {
    let mut hidden = window(10, "Notes");
    hidden.visible = false;
    let windows = vec![hidden, window(11, "Notes")];
    assert_eq!(find_window_by_name(&windows, "Notes"), h(11));
}

#[test]
fn anchor_is_the_child_of_the_shell_root_that_encloses_the_icon_view() {
    let root = h(1);
    let mut plain = window(10, "");
    plain.class_name = "WorkerW".to_string();
    let mut host = window(11, "");
    host.class_name = "WorkerW".to_string();
    let mut icons = window(12, "FolderView");
    icons.parent = h(11);
    icons.class_name = "SHELLDLL_DefView".to_string();
    let windows = vec![plain.clone(), host, icons];
    assert_eq!(find_worker(&windows, root), h(11));
    assert_eq!(find_worker(&vec![plain], root), WindowHandle::null());
}

#[test]
fn listed_windows_come_with_their_titles() {
    let windows = vec![window(30, "c"), window(10, "a"), window(20, "")];
    let listed = vec![h(10), h(30), h(99), h(20)];
    assert_eq!(
        with_titles(&listed, &windows),
        vec![
            (h(10), "a".to_string()),
            (h(30), "c".to_string()),
            (h(99), String::new()),
            (h(20), String::new()),
        ]
    );
    assert_eq!(with_titles(&Vec::new(), &windows), vec![]);
}
