//! Snapshots of the window system and the selections made over them.
//!
//! A snapshot is an ordered sequence of records, one per window, in the
//! order in which the window system enumerated them. Every selection here is
//! a function of the snapshot alone.

use vstd::prelude::*;
use crate::handle::WindowHandle;
use crate::geometry::Rect;
use crate::style::{listable_ex_style, spec_listable_ex_style, WindowStyle};

verus! {

/// Class of the shell's desktop root window.
pub const SHELL_ROOT_CLASS: &'static str = "Progman";

/// Class of the view that draws the desktop icons.
pub const ICON_VIEW_CLASS: &'static str = "SHELLDLL_DefView";

/// Class of the shell's taskbar window, which is never embedded.
pub const SHELL_TRAY_CLASS: &'static str = "Shell_TrayWnd";

/// What the window system reports about one window at one moment.
#[derive(Clone, Debug, PartialEq, Eq)]
pub struct WindowInfo {
    pub handle: WindowHandle,
    /// The direct parent, or the null handle for a window without one.
    pub parent: WindowHandle,
    /// The owner at the root of the window's ownership chain.
    pub root_owner: WindowHandle,
    /// The popup owned by this window that was active most recently, or the
    /// window itself when it owns none.
    pub last_active_popup: WindowHandle,
    pub process_id: u32,
    pub visible: bool,
    pub title: String,
    pub class_name: String,
    pub style: WindowStyle,
    pub rect: Rect,
}

/// Whether `i` is the position of the first record that `wanted` accepts.
pub open spec fn is_first(
    windows: Seq<WindowInfo>,
    wanted: spec_fn(WindowInfo) -> bool,
    i: int,
) -> bool {
    &&& 0 <= i < windows.len()
    &&& wanted(windows[i])
    &&& forall|j: int| 0 <= j < i ==> !wanted(#[trigger] windows[j])
}

/// Position of the first record that `wanted` accepts, if there is one.
pub open spec fn first_index(windows: Seq<WindowInfo>, wanted: spec_fn(WindowInfo) -> bool)
    -> Option<int> {
    if exists|i: int| is_first(windows, wanted, i) {
        Some(choose|i: int| is_first(windows, wanted, i))
    } else {
        None
    }
}

/// Handle of the first record that `wanted` accepts, or the null handle.
pub open spec fn first_handle(windows: Seq<WindowInfo>, wanted: spec_fn(WindowInfo) -> bool)
    -> WindowHandle {
    match first_index(windows, wanted) {
        Some(i) => windows[i].handle,
        None => WindowHandle { raw: 0 },
    }
}

/// A first position is the only first position.
pub proof fn lemma_first_index_found(
    windows: Seq<WindowInfo>,
    wanted: spec_fn(WindowInfo) -> bool,
    i: int,
)
    requires
        is_first(windows, wanted, i),
    ensures
        first_index(windows, wanted) == Some(i),
{
    let k = choose|k: int| is_first(windows, wanted, k);
    if k < i {
        assert(!wanted(windows[k]));
    } else if i < k {
        assert(!wanted(windows[i]));
    }
}

/// Where a record is accepted there is a first position, at or before it.
pub proof fn lemma_first_index_exists(
    windows: Seq<WindowInfo>,
    wanted: spec_fn(WindowInfo) -> bool,
    j: int,
)
    requires
        0 <= j < windows.len(),
        wanted(windows[j]),
    ensures
        first_index(windows, wanted) matches Some(i) && is_first(windows, wanted, i) && i <= j,
    decreases j,
{
    if exists|k: int| 0 <= k < j && wanted(#[trigger] windows[k]) {
        let k = choose|k: int| 0 <= k < j && wanted(#[trigger] windows[k]);
        lemma_first_index_exists(windows, wanted, k);
    } else {
        assert(is_first(windows, wanted, j));
        lemma_first_index_found(windows, wanted, j);
    }
}

/// Where no record is accepted there is no first position.
pub proof fn lemma_first_index_absent(windows: Seq<WindowInfo>, wanted: spec_fn(WindowInfo) -> bool)
    requires
        forall|j: int| 0 <= j < windows.len() ==> !wanted(#[trigger] windows[j]),
    ensures
        first_index(windows, wanted) == None::<int>,
{
}

/// Accepts the record of the window `h`.
pub open spec fn has_handle(h: WindowHandle) -> spec_fn(WindowInfo) -> bool {
    |w: WindowInfo| w.handle == h
}

/// Accepts the windows that the process `pid` owns.
pub open spec fn owned_by(pid: u32) -> spec_fn(WindowInfo) -> bool {
    |w: WindowInfo| w.process_id == pid
}

/// Position of the record of window `h` in the snapshot.
pub fn position_of(windows: &Vec<WindowInfo>, h: WindowHandle) -> (found: Option<usize>)
    ensures
        match found {
            Some(i) => first_index(windows@, has_handle(h)) == Some(i as int),
            None => first_index(windows@, has_handle(h)) == None::<int>,
        },
{
    let wanted = Ghost(has_handle(h));
    let mut i: usize = 0;
    while i < windows.len()
        invariant
            i <= windows.len(),
            wanted@ == has_handle(h),
            forall|j: int| 0 <= j < i ==> !(wanted@)(#[trigger] windows@[j]),
        decreases windows.len() - i,
    {
        if windows[i].handle == h {
            proof {
                lemma_first_index_found(windows@, wanted@, i as int);
            }
            return Some(i);
        }
        i += 1;
    }
    proof {
        lemma_first_index_absent(windows@, wanted@);
    }
    None
}

/// The window that the process `pid` owns: the first one in enumeration
/// order, or the null handle when it owns none.
pub fn find_window_by_pid(windows: &Vec<WindowInfo>, pid: u32) -> (found: WindowHandle)
    ensures
        found == first_handle(windows@, owned_by(pid)),
{
    let wanted = Ghost(owned_by(pid));
    let mut i: usize = 0;
    while i < windows.len()
        invariant
            i <= windows.len(),
            wanted@ == owned_by(pid),
            forall|j: int| 0 <= j < i ==> !(wanted@)(#[trigger] windows@[j]),
        decreases windows.len() - i,
    {
        if windows[i].process_id == pid {
            proof {
                lemma_first_index_found(windows@, wanted@, i as int);
            }
            return windows[i].handle;
        }
        i += 1;
    }
    proof {
        lemma_first_index_absent(windows@, wanted@);
    }
    WindowHandle::null()
}


/// Handles of the records of a snapshot, in order.
pub open spec fn handles(windows: Seq<WindowInfo>) -> Seq<WindowHandle> {
    windows.map_values(|w: WindowInfo| w.handle)
}

/// What the snapshot says is the last active popup of window `h`. A window
/// that the snapshot does not hold has none.
pub open spec fn popup_of(windows: Seq<WindowInfo>, h: WindowHandle) -> WindowHandle {
    match first_index(windows, has_handle(h)) {
        Some(i) => windows[i].last_active_popup,
        None => WindowHandle { raw: 0 },
    }
}

/// Whether the snapshot says that window `h` is visible. A window that the
/// snapshot does not hold is not.
pub open spec fn shown(windows: Seq<WindowInfo>, h: WindowHandle) -> bool {
    match first_index(windows, has_handle(h)) {
        Some(i) => windows[i].visible,
        None => false,
    }
}

/// Where the walk along last active popups comes to rest when it starts at
/// `walk`, having last tried `tried`. It rests on a window whose last active
/// popup is the one just tried or is visible. A walk that has not come to
/// rest after `fuel` further moves rests nowhere.
pub open spec fn walk_end(
    windows: Seq<WindowInfo>,
    walk: WindowHandle,
    tried: WindowHandle,
    fuel: nat,
) -> Option<WindowHandle>
    decreases fuel,
{
    let next = popup_of(windows, walk);
    if next == tried || shown(windows, next) {
        Some(walk)
    } else if fuel == 0 {
        None
    } else {
        walk_end(windows, next, next, (fuel - 1) as nat)
    }
}

/// Whether the walk that starts at the root owner of `w` comes to rest on
/// `w` itself. The walk may make as many moves as the snapshot has records;
/// one that comes to rest on a window of the snapshot needs no more.
pub open spec fn heads_popup_chain(windows: Seq<WindowInfo>, w: WindowInfo) -> bool {
    walk_end(windows, w.root_owner, WindowHandle { raw: 0 }, windows.len()) == Some(w.handle)
}

/// Accepts the windows that a user could pick from a task switcher: visible,
/// titled, at the head of their popup chain, and free of the extended style
/// bits that hide a window from such lists.
pub open spec fn selectable(windows: Seq<WindowInfo>) -> spec_fn(WindowInfo) -> bool {
    |w: WindowInfo|
        {
            &&& w.visible
            &&& w.title@.len() > 0
            &&& heads_popup_chain(windows, w)
            &&& spec_listable_ex_style(w.style.ex_style)
        }
}

/// Accepts the selectable windows whose title is exactly `title`.
pub open spec fn selectable_titled(windows: Seq<WindowInfo>, title: Seq<char>) -> spec_fn(
    WindowInfo,
) -> bool {
    |w: WindowInfo| selectable(windows)(w) && w.title@ == title
}

/// Accepts the direct children of `parent`.
pub open spec fn child_of(parent: WindowHandle) -> spec_fn(WindowInfo) -> bool {
    |w: WindowInfo| w.parent == parent
}

/// Handles of the direct children of `parent`, in enumeration order.
pub open spec fn children(windows: Seq<WindowInfo>, parent: WindowHandle) -> Seq<WindowHandle> {
    handles(windows.filter(child_of(parent)))
}

/// Whether the handles stand in ascending order of identity.
pub open spec fn ascending(s: Seq<WindowHandle>) -> bool {
    forall|i: int, j: int| 0 <= i < j < s.len() ==> s[i].raw <= s[j].raw
}

/// Whether the snapshot holds a direct child of `h` that is an icon view.
pub open spec fn hosts_icon_view(windows: Seq<WindowInfo>, h: WindowHandle) -> bool {
    exists|j: int|
        0 <= j < windows.len() && (#[trigger] windows[j]).parent == h && windows[j].class_name@
            == ICON_VIEW_CLASS@
}

/// Accepts the children of `shell_root` that enclose the icon view.
pub open spec fn anchor_under(windows: Seq<WindowInfo>, shell_root: WindowHandle) -> spec_fn(
    WindowInfo,
) -> bool {
    |w: WindowInfo| w.parent == shell_root && hosts_icon_view(windows, w.handle)
}

fn last_active_popup_of(windows: &Vec<WindowInfo>, h: WindowHandle) -> (popup: WindowHandle)
    ensures
        popup == popup_of(windows@, h),
{
    match position_of(windows, h) {
        Some(i) => windows[i].last_active_popup,
        None => WindowHandle::null(),
    }
}

fn is_shown(windows: &Vec<WindowInfo>, h: WindowHandle) -> (visible: bool)
    ensures
        visible == shown(windows@, h),
{
    match position_of(windows, h) {
        Some(i) => windows[i].visible,
        None => false,
    }
}

/// Whether the window of record `w` is the one that stands for its popup
/// chain: whether the walk from its root owner rests on it.
pub fn should_list(windows: &Vec<WindowInfo>, w: &WindowInfo) -> (heads: bool)
    ensures
        heads == heads_popup_chain(windows@, *w),
{
    let mut walk: WindowHandle = w.root_owner;
    let mut tried: WindowHandle = WindowHandle::null();
    let mut fuel: usize = windows.len();
    loop
        invariant
            walk_end(windows@, walk, tried, fuel as nat) == walk_end(
                windows@,
                w.root_owner,
                WindowHandle { raw: 0 },
                windows@.len(),
            ),
        decreases fuel,
    {
        let next = last_active_popup_of(windows, walk);
        if next == tried || is_shown(windows, next) {
            return walk == w.handle;
        }
        if fuel == 0 {
            return false;
        }
        walk = next;
        tried = next;
        fuel -= 1;
    }
}

fn is_selectable(windows: &Vec<WindowInfo>, w: &WindowInfo) -> (b: bool)
    ensures
        b == selectable(windows@)(*w),
{
    w.visible && !w.title.as_str().is_empty() && should_list(windows, w) && listable_ex_style(
        w.style.ex_style,
    )
}

/// The windows of a snapshot of the top-level windows that a user could
/// pick, in enumeration order.
pub fn list_windows(windows: &Vec<WindowInfo>) -> (listed: Vec<WindowHandle>)
    ensures
        listed@ == handles(windows@.filter(selectable(windows@))),
{
    let mut listed: Vec<WindowHandle> = Vec::new();
    let mut i: usize = 0;
    while i < windows.len()
        invariant
            i <= windows.len(),
            listed@ == handles(windows@.take(i as int).filter(selectable(windows@))),
        decreases windows.len() - i,
    {
        proof {
            let seen = windows@.take(i as int);
            assert(windows@.take(i + 1) == seen.push(windows@[i as int]));
            seen.lemma_filter_push(windows@[i as int], selectable(windows@));
            let kept = seen.filter(selectable(windows@));
            assert(handles(kept.push(windows@[i as int])) == handles(kept).push(
                windows@[i as int].handle,
            ));
        }
        if is_selectable(windows, &windows[i]) {
            listed.push(windows[i].handle);
        }
        i += 1;
    }
    assert(windows@.take(windows.len() as int) == windows@);
    listed
}

/// The direct children of `parent` among the windows of a snapshot, in
/// ascending order of handle identity.
pub fn list_immediate_children(windows: &Vec<WindowInfo>, parent: WindowHandle) -> (listed: Vec<
    WindowHandle,
>)
    ensures
        ascending(listed@),
        listed@.to_multiset() == children(windows@, parent).to_multiset(),
{
    let mut listed: Vec<WindowHandle> = Vec::new();
    let mut i: usize = 0;
    proof {
        windows@.take(0).lemma_filter_len(child_of(parent));
        assert(children(windows@.take(0), parent) =~= listed@);
    }
    while i < windows.len()
        invariant
            i <= windows.len(),
            ascending(listed@),
            listed@.to_multiset() == children(windows@.take(i as int), parent).to_multiset(),
        decreases windows.len() - i,
    {
        proof {
            let seen = windows@.take(i as int);
            assert(windows@.take(i + 1) == seen.push(windows@[i as int]));
            seen.lemma_filter_push(windows@[i as int], child_of(parent));
            let kept = seen.filter(child_of(parent));
            assert(handles(kept.push(windows@[i as int])) == handles(kept).push(
                windows@[i as int].handle,
            ));
        }
        if windows[i].parent == parent {
            let h: WindowHandle = windows[i].handle;
            let mut at: usize = 0;
            while at < listed.len() && listed[at].raw <= h.raw
                invariant
                    at <= listed.len(),
                    forall|k: int| 0 <= k < at ==> listed@[k].raw <= h.raw,
                decreases listed.len() - at,
            {
                at += 1;
            }
            proof {
                vstd::seq_lib::to_multiset_insert(listed@, at as int, h);
                vstd::seq_lib::to_multiset_build(children(windows@.take(i as int), parent), h);
            }
            listed.insert(at, h);
        }
        i += 1;
    }
    assert(windows@.take(windows.len() as int) == windows@);
    listed
}

/// The first selectable window of a snapshot of the top-level windows whose
/// title is exactly `title`, or the null handle when there is none.
pub fn find_window_by_name(windows: &Vec<WindowInfo>, title: &str) -> (found: WindowHandle)
    ensures
        found == first_handle(windows@, selectable_titled(windows@, title@)),
{
    let wanted = Ghost(selectable_titled(windows@, title@));
    let sought: String = title.to_owned();
    let mut i: usize = 0;
    while i < windows.len()
        invariant
            i <= windows.len(),
            sought@ == title@,
            wanted@ == selectable_titled(windows@, title@),
            forall|j: int| 0 <= j < i ==> !(wanted@)(#[trigger] windows@[j]),
        decreases windows.len() - i,
    {
        if is_selectable(windows, &windows[i]) && windows[i].title == sought {
            proof {
                lemma_first_index_found(windows@, wanted@, i as int);
            }
            return windows[i].handle;
        }
        i += 1;
    }
    proof {
        lemma_first_index_absent(windows@, wanted@);
    }
    WindowHandle::null()
}

fn encloses_icon_view(windows: &Vec<WindowInfo>, h: WindowHandle) -> (b: bool)
    ensures
        b == hosts_icon_view(windows@, h),
{
    let icon_view: String = ICON_VIEW_CLASS.to_owned();
    let mut j: usize = 0;
    while j < windows.len()
        invariant
            j <= windows.len(),
            icon_view@ == ICON_VIEW_CLASS@,
            forall|k: int|
                0 <= k < j ==> !((#[trigger] windows@[k]).parent == h && windows@[k].class_name@
                    == ICON_VIEW_CLASS@),
        decreases windows.len() - j,
    {
        if windows[j].parent == h && windows[j].class_name == icon_view {
            return true;
        }
        j += 1;
    }
    false
}

/// The anchor among the descendants of the shell root: the first child of
/// `shell_root` that encloses the icon view, or the null handle when no
/// child does.
pub fn find_worker(windows: &Vec<WindowInfo>, shell_root: WindowHandle) -> (found: WindowHandle)
    ensures
        found == first_handle(windows@, anchor_under(windows@, shell_root)),
{
    let wanted = Ghost(anchor_under(windows@, shell_root));
    let mut i: usize = 0;
    while i < windows.len()
        invariant
            i <= windows.len(),
            wanted@ == anchor_under(windows@, shell_root),
            forall|j: int| 0 <= j < i ==> !(wanted@)(#[trigger] windows@[j]),
        decreases windows.len() - i,
    {
        if windows[i].parent == shell_root && encloses_icon_view(windows, windows[i].handle) {
            proof {
                lemma_first_index_found(windows@, wanted@, i as int);
            }
            return windows[i].handle;
        }
        i += 1;
    }
    proof {
        lemma_first_index_absent(windows@, wanted@);
    }
    WindowHandle::null()
}


/// What the snapshot says is the title of window `h`. A window that the
/// snapshot does not hold has an empty one.
pub open spec fn title_of(windows: Seq<WindowInfo>, h: WindowHandle) -> Seq<char> {
    match first_index(windows, has_handle(h)) {
        Some(i) => windows[i].title@,
        None => Seq::empty(),
    }
}

/// The listed windows, each with the title that the snapshot holds for it,
/// in the order of the list.
pub fn with_titles(listed: &Vec<WindowHandle>, windows: &Vec<WindowInfo>) -> (titled: Vec<
    (WindowHandle, String),
>)
    ensures
        titled@.len() == listed@.len(),
        forall|k: int|
            0 <= k < listed@.len() ==> (#[trigger] titled@[k]).0 == listed@[k] && titled@[k].1@
                == title_of(windows@, listed@[k]),
{
    let mut titled: Vec<(WindowHandle, String)> = Vec::new();
    let mut k: usize = 0;
    while k < listed.len()
        invariant
            k <= listed.len(),
            titled@.len() == k,
            forall|j: int|
                0 <= j < k ==> (#[trigger] titled@[j]).0 == listed@[j] && titled@[j].1@
                    == title_of(windows@, listed@[j]),
        decreases listed.len() - k,
    {
        let h: WindowHandle = listed[k];
        let title: String = match position_of(windows, h) {
            Some(i) => windows[i].title.clone(),
            None => String::new(),
        };
        titled.push((h, title));
        k += 1;
    }
    titled
}

/// Whether a class name, as the window system reported it, is `class`.
pub fn is_class(name: &String, class: &str) -> (b: bool)
    ensures
        b == (name@ == class@),
{
    let wanted: String = class.to_owned();
    *name == wanted
}


/// The handle of a record that `wanted` accepts is among the handles of
/// the accepted records.
pub proof fn lemma_kept_contains(
    windows: Seq<WindowInfo>,
    wanted: spec_fn(WindowInfo) -> bool,
    j: int,
)
    requires
        0 <= j < windows.len(),
        wanted(windows[j]),
    ensures
        handles(windows.filter(wanted)).contains(windows[j].handle),
{
    let kept = windows.filter(wanted);
    windows.lemma_filter_contains(wanted, j);
    let k = choose|k: int| 0 <= k < kept.len() && kept[k] == windows[j];
    assert(handles(kept)[k] == windows[j].handle);
}

/// Each handle among the handles of the accepted records is that of a
/// record that `wanted` accepts.
pub proof fn lemma_kept_origin(
    windows: Seq<WindowInfo>,
    wanted: spec_fn(WindowInfo) -> bool,
    h: WindowHandle,
)
    requires
        handles(windows.filter(wanted)).contains(h),
    ensures
        exists|j: int|
            0 <= j < windows.len() && (#[trigger] windows[j]).handle == h && wanted(windows[j]),
{
    let kept = windows.filter(wanted);
    let k = choose|k: int| 0 <= k < handles(kept).len() && handles(kept)[k] == h;
    windows.lemma_filter_pred(wanted, k);
    assert(kept.contains(kept[k]));
    windows.lemma_filter_contains_rev(wanted, kept[k]);
    let j = choose|j: int| 0 <= j < windows.len() && windows[j] == kept[k];
    assert(windows[j].handle == h && wanted(windows[j]));
}

/// A direct child of `parent` is among its listed children.
pub proof fn lemma_children_contains(windows: Seq<WindowInfo>, parent: WindowHandle, j: int)
    requires
        0 <= j < windows.len(),
        windows[j].parent == parent,
    ensures
        children(windows, parent).contains(windows[j].handle),
{
    lemma_kept_contains(windows, child_of(parent), j);
}

/// Each listed child of `parent` is the handle of a record whose parent is
/// `parent`.
pub proof fn lemma_children_origin(windows: Seq<WindowInfo>, parent: WindowHandle, h: WindowHandle)
    requires
        children(windows, parent).contains(h),
    ensures
        exists|j: int|
            0 <= j < windows.len() && (#[trigger] windows[j]).handle == h && windows[j].parent
                == parent,
{
    lemma_kept_origin(windows, child_of(parent), h);
    let j = choose|j: int|
        0 <= j < windows.len() && (#[trigger] windows[j]).handle == h && child_of(parent)(
            windows[j],
        );
    assert(windows[j].parent == parent);
}

/// Whether a record fails one of the tests that every listed window has
/// passed: it is invisible, or has no title, or is not the window on which
/// the walk from its root owner rests.
pub open spec fn unlisted(windows: Seq<WindowInfo>, w: WindowInfo) -> bool {
    !w.visible || w.title@.len() == 0 || !heads_popup_chain(windows, w)
}

/// A window is not among the listed windows of a snapshot when each of its
/// records there is invisible, or without a title, or off the head of its
/// popup chain.
pub proof fn lemma_unlisted_window_is_not_listed(windows: Seq<WindowInfo>, h: WindowHandle)
    requires
        forall|j: int|
            0 <= j < windows.len() && (#[trigger] windows[j]).handle == h ==> unlisted(
                windows,
                windows[j],
            ),
    ensures
        !handles(windows.filter(selectable(windows))).contains(h),
{
    if handles(windows.filter(selectable(windows))).contains(h) {
        lemma_kept_origin(windows, selectable(windows), h);
    }
}

} // verus!
