//! What the operations of the engine do to a desktop: each is run against
//! the model, and what holds of the desktop afterwards is stated.

use vstd::prelude::*;
use crate::error::EngineError;
use crate::geometry::Rect;
use crate::handle::WindowHandle;
use crate::engine::{
    spec_add_window_by_handle, spec_close_all, Addition, AdditionStage, Teardown, TeardownStage,
    WallpaperProperties, SETTLE_MILLIS,
};
use crate::model::{edges, lemma_run_spare_fuel, run, shifted, Desktop};
use crate::mutator::{
    spec_add_window_as_wallpaper, spec_remove_window_from_wallpaper, spec_set_fullscreen,
    spec_unmoved, Embedding, Fullscreen, Removal,
};
use crate::protocol::{
    Reply, Request, Step, Task, CLOSE_MESSAGE, FRAME_REFRESH_FLAGS, MOVE_FLAGS, SHOW_COMMAND,
};
use crate::style::{spec_embed_update, spec_restore_update};
use crate::window::{
    child_of, children, handles, has_handle, is_first, lemma_children_contains,
    lemma_children_origin, lemma_first_index_absent, lemma_first_index_exists,
    lemma_first_index_found, WindowInfo, SHELL_TRAY_CLASS,
};

verus! {

/// The position at which a window is held is that of a record with its
/// handle, and a window that is not held has no record.
pub proof fn lemma_index_of_sound(d: Desktop, h: WindowHandle)
    ensures
        d.index_of(h) matches Some(i) ==> 0 <= i < d.windows.len() && d.windows[i].handle == h,
        d.index_of(h).is_none() ==> forall|j: int|
            0 <= j < d.windows.len() ==> (#[trigger] d.windows[j]).handle != h,
{
    if d.index_of(h).is_none() {
        assert forall|j: int| 0 <= j < d.windows.len() implies (#[trigger] d.windows[j]).handle
            != h by {
            if d.windows[j].handle == h {
                lemma_first_index_exists(d.windows, has_handle(h), j);
            }
        }
    }
}

/// Replacing a record by one with the same handle and a parent leaves a
/// desktop a desktop, with every window where it was.
pub proof fn lemma_with_window(d: Desktop, i: int, w: WindowInfo)
    requires
        d.wf(),
        0 <= i < d.windows.len(),
        w.handle == d.windows[i].handle,
        !w.parent.spec_is_null(),
    ensures
        d.with_window(i, w).wf(),
        forall|h: WindowHandle| #[trigger] d.with_window(i, w).index_of(h) == d.index_of(h),
{
    let e = d.with_window(i, w);
    assert(e.wf());
    assert forall|h: WindowHandle| #[trigger] e.index_of(h) == d.index_of(h) by {
        lemma_index_of_sound(d, h);
        match d.index_of(h) {
            Some(k) => {
                assert(is_first(e.windows, has_handle(h), k));
                lemma_first_index_found(e.windows, has_handle(h), k);
            },
            None => {
                lemma_first_index_absent(e.windows, has_handle(h));
            },
        }
    }
}

/// The desktop on which window `h` has been embedded under `anchor`: its
/// record carries the embedded styles, has `anchor` for its parent, and is
/// visible.
pub open spec fn embedded(d: Desktop, anchor: WindowHandle, h: WindowHandle) -> Desktop
    recommends
        d.holds(h),
{
    let i = d.index_of(h).unwrap();
    d.with_window(
        i,
        WindowInfo {
            style: spec_embed_update().spec_apply(d.windows[i].style),
            parent: anchor,
            visible: true,
            ..d.windows[i]
        },
    )
}

/// Embedding a window that is eligible and not yet embedded succeeds, and
/// changes the desktop to the one on which the window is embedded.
pub proof fn lemma_embedding_runs(d: Desktop, anchor: WindowHandle, h: WindowHandle)
    requires
        d.wf(),
        d.holds(anchor),
        d.holds(h),
        h != anchor,
        d.record(h).class_name@ != SHELL_TRAY_CLASS@,
        d.record(h).parent != anchor,
    ensures
        run(
            d,
            spec_add_window_as_wallpaper(anchor, h).0,
            spec_add_window_as_wallpaper(anchor, h).1,
            8,
        ) == Some((embedded(d, anchor, h), Ok::<(), EngineError>(()))),
{
    lemma_index_of_sound(d, h);
    lemma_index_of_sound(d, anchor);
    let i = d.index_of(h).unwrap();
    let w = d.windows[i];
    let t0 = spec_add_window_as_wallpaper(anchor, h).0;
    let s0 = spec_add_window_as_wallpaper(anchor, h).1;
    // class name
    let t1 = t0.after(Reply::Text(w.class_name)).0;
    let s1 = t0.after(Reply::Text(w.class_name)).1;
    assert(d.respond(Request::ClassName { of: h }) == Some((d, Reply::Text(w.class_name))));
    assert(run(d, t0, s0, 8) == run(d, t1, s1, 7));
    // kinship
    let t2 = t1.after(Reply::Handle(w.parent)).0;
    let s2 = t1.after(Reply::Handle(w.parent)).1;
    assert(d.respond(Request::Parent { of: h }) == Some((d, Reply::Handle(w.parent))));
    assert(run(d, t1, s1, 7) == run(d, t2, s2, 6));
    // styles read
    let r2 = Reply::Style { style: w.style, last_error: 0 };
    let t3 = t2.after(r2).0;
    let s3 = t2.after(r2).1;
    assert(d.respond(Request::ReadStyle { of: h }) == Some((d, r2)));
    assert(run(d, t2, s2, 6) == run(d, t3, s3, 5));
    // styles written
    let styled = spec_embed_update().spec_apply(w.style);
    let w1 = WindowInfo { style: styled, ..w };
    let d1 = d.with_window(i, w1);
    lemma_with_window(d, i, w1);
    let t4 = t3.after(r2).0;
    let s4 = t3.after(r2).1;
    assert(d.respond(Request::WriteStyle { of: h, style: styled }) == Some((d1, r2)));
    assert(run(d, t3, s3, 5) == run(d1, t4, s4, 4));
    // rectangle
    let r4 = Reply::Area(Some(w.rect));
    let t5 = t4.after(r4).0;
    let s5 = t4.after(r4).1;
    assert(d1.index_of(h) == Some(i));
    assert(d1.respond(Request::WindowRect { of: h }) == Some((d1, r4)));
    assert(run(d1, t4, s4, 4) == run(d1, t5, s5, 3));
    // mapping
    assert(d1.holds(anchor));
    let r5 = d1.respond(Request::MapToWindow { to: anchor, rect: w.rect }).unwrap().1;
    let t6 = t5.after(r5).0;
    let s6 = t5.after(r5).1;
    assert(run(d1, t5, s5, 3) == run(d1, t6, s6, 2));
    // new parent
    let w2 = WindowInfo { parent: anchor, ..w1 };
    let d2 = d1.with_window(i, w2);
    lemma_with_window(d1, i, w2);
    let r6 = Reply::Handle(w.parent);
    let t7 = t6.after(r6).0;
    let s7 = t6.after(r6).1;
    assert(d1.respond(Request::SetParent { child: h, parent: anchor }) == Some((d2, r6)));
    assert(run(d1, t6, s6, 2) == run(d2, t7, s7, 1));
    // shown
    let w3 = WindowInfo { visible: true, ..w2 };
    let d3 = d2.with_window(i, w3);
    assert(d2.index_of(h) == Some(i));
    assert(d2.respond(Request::Show { window: h, command: SHOW_COMMAND }) == Some(
        (d3, Reply::Done),
    ));
    let t8 = t7.after(Reply::Done).0;
    let s8 = t7.after(Reply::Done).1;
    assert(run(d2, t7, s7, 1) == run(d3, t8, s8, 0));
    assert(d3.windows =~= embedded(d, anchor, h).windows);
}


/// Embedding a window that is already a child of the anchor is refused, and
/// leaves the desktop as it is.
pub proof fn lemma_embedding_refused(d: Desktop, anchor: WindowHandle, h: WindowHandle)
    requires
        d.holds(h),
        h != anchor,
        d.record(h).class_name@ != SHELL_TRAY_CLASS@,
        d.record(h).parent == anchor,
    ensures
        run(
            d,
            spec_add_window_as_wallpaper(anchor, h).0,
            spec_add_window_as_wallpaper(anchor, h).1,
            8,
        ) == Some((d, Err::<(), EngineError>(EngineError::AlreadyEmbedded))),
{
    let i = d.index_of(h).unwrap();
    let w = d.windows[i];
    let t0 = spec_add_window_as_wallpaper(anchor, h).0;
    let s0 = spec_add_window_as_wallpaper(anchor, h).1;
    let t1 = t0.after(Reply::Text(w.class_name)).0;
    let s1 = t0.after(Reply::Text(w.class_name)).1;
    assert(d.respond(Request::ClassName { of: h }) == Some((d, Reply::Text(w.class_name))));
    assert(run(d, t0, s0, 8) == run(d, t1, s1, 7));
    let t2 = t1.after(Reply::Handle(anchor)).0;
    let s2 = t1.after(Reply::Handle(anchor)).1;
    assert(d.respond(Request::Parent { of: h }) == Some((d, Reply::Handle(anchor))));
    assert(run(d, t1, s1, 7) == run(d, t2, s2, 6));
}

/// The anchor itself and the shell's taskbar are never embedded: the
/// attempt is turned away and leaves the desktop as it is.
pub proof fn lemma_ineligible_target_is_left_alone(d: Desktop, anchor: WindowHandle, h: WindowHandle)
    requires
        h == anchor || (d.holds(h) && d.record(h).class_name@ == SHELL_TRAY_CLASS@),
    ensures
        run(
            d,
            spec_add_window_as_wallpaper(anchor, h).0,
            spec_add_window_as_wallpaper(anchor, h).1,
            8,
        ) == Some((d, Err::<(), EngineError>(EngineError::IneligibleTarget))),
{
    if h != anchor {
        let i = d.index_of(h).unwrap();
        let w = d.windows[i];
        let t0 = spec_add_window_as_wallpaper(anchor, h).0;
        let s0 = spec_add_window_as_wallpaper(anchor, h).1;
        let t1 = t0.after(Reply::Text(w.class_name)).0;
        let s1 = t0.after(Reply::Text(w.class_name)).1;
        assert(d.respond(Request::ClassName { of: h }) == Some((d, Reply::Text(w.class_name))));
        assert(run(d, t0, s0, 8) == run(d, t1, s1, 7));
    }
}

/// On a desktop no window is listed twice among the children of a parent.
pub proof fn lemma_children_distinct(windows: Seq<WindowInfo>, parent: WindowHandle)
    requires
        forall|i: int, j: int|
            0 <= i < windows.len() && 0 <= j < windows.len() && i != j ==> (
            #[trigger] windows[i]).handle != (#[trigger] windows[j]).handle,
    ensures
        children(windows, parent).no_duplicates(),
    decreases windows.len(),
{
    if windows.len() == 0 {
        windows.lemma_filter_len(child_of(parent));
    } else {
        let init = windows.drop_last();
        let last = windows.last();
        assert(windows == init.push(last));
        assert forall|i: int, j: int|
            0 <= i < init.len() && 0 <= j < init.len() && i != j implies (
        #[trigger] init[i]).handle != (#[trigger] init[j]).handle by {
            assert(init[i] == windows[i] && init[j] == windows[j]);
        }
        lemma_children_distinct(init, parent);
        init.lemma_filter_push(last, child_of(parent));
        let kept = init.filter(child_of(parent));
        if last.parent == parent {
            assert(handles(kept.push(last)) == handles(kept).push(last.handle));
            if children(init, parent).contains(last.handle) {
                lemma_children_origin(init, parent, last.handle);
                let j = choose|j: int|
                    0 <= j < init.len() && (#[trigger] init[j]).handle == last.handle
                        && init[j].parent == parent;
                assert(windows[j].handle == windows[windows.len() - 1].handle);
            }
        }
    }
}

/// A window of the desktop that is neither the anchor nor the shell's
/// taskbar is, once its embedding has run, among the children of the
/// anchor.
pub proof fn lemma_embedded_window_is_child(d: Desktop, anchor: WindowHandle, h: WindowHandle)
    requires
        d.wf(),
        d.holds(anchor),
        d.holds(h),
        h != anchor,
        d.record(h).class_name@ != SHELL_TRAY_CLASS@,
    ensures
        run(
            d,
            spec_add_window_as_wallpaper(anchor, h).0,
            spec_add_window_as_wallpaper(anchor, h).1,
            8,
        ) matches Some((after, outcome)) && {
            &&& after.wf()
            &&& after.holds(h)
            &&& after.record(h).parent == anchor
            &&& after.record(h).class_name == d.record(h).class_name
            &&& children(after.windows, anchor).contains(h)
            &&& outcome is Ok <==> d.record(h).parent != anchor
        },
{
    lemma_index_of_sound(d, h);
    let i = d.index_of(h).unwrap();
    if d.record(h).parent == anchor {
        lemma_embedding_refused(d, anchor, h);
        lemma_children_contains(d.windows, anchor, i);
    } else {
        lemma_embedding_runs(d, anchor, h);
        let after = embedded(d, anchor, h);
        lemma_index_of_sound(d, anchor);
        lemma_with_window(d, i, after.windows[i]);
        lemma_children_contains(after.windows, anchor, i);
    }
}

/// When the embedding of a window has run, a second embedding of it is
/// refused as already done and changes nothing, and the window is listed
/// once among the children of the anchor.
pub proof fn lemma_embedding_twice(d: Desktop, anchor: WindowHandle, h: WindowHandle)
    requires
        d.wf(),
        d.holds(anchor),
        d.holds(h),
        h != anchor,
        d.record(h).class_name@ != SHELL_TRAY_CLASS@,
    ensures
        run(
            d,
            spec_add_window_as_wallpaper(anchor, h).0,
            spec_add_window_as_wallpaper(anchor, h).1,
            8,
        ) matches Some((once, _)) && {
            &&& run(
                once,
                spec_add_window_as_wallpaper(anchor, h).0,
                spec_add_window_as_wallpaper(anchor, h).1,
                8,
            ) == Some((once, Err::<(), EngineError>(EngineError::AlreadyEmbedded)))
            &&& children(once.windows, anchor).to_multiset().count(h) == 1
        },
{
    lemma_embedded_window_is_child(d, anchor, h);
    let once = run(
        d,
        spec_add_window_as_wallpaper(anchor, h).0,
        spec_add_window_as_wallpaper(anchor, h).1,
        8,
    ).unwrap().0;
    lemma_embedding_refused(once, anchor, h);
    lemma_children_distinct(once.windows, anchor);
    let listed = children(once.windows, anchor);
    listed.lemma_multiset_has_no_duplicates();
    vstd::seq_lib::to_multiset_contains(listed, h);
}

/// The desktop on which window `h` has been handed back to the desktop
/// window: its record has the desktop window for its parent and carries the
/// restored styles.
pub open spec fn removed(d: Desktop, h: WindowHandle) -> Desktop
    recommends
        d.holds(h),
{
    let i = d.index_of(h).unwrap();
    d.with_window(
        i,
        WindowInfo {
            style: spec_restore_update().spec_apply(d.windows[i].style),
            parent: d.root,
            ..d.windows[i]
        },
    )
}

/// Removing a window that the desktop holds succeeds and hands it back to
/// the desktop window; removing one that it does not hold fails and changes
/// nothing.
pub proof fn lemma_removal_runs(d: Desktop, anchor: WindowHandle, h: WindowHandle)
    requires
        d.wf(),
    ensures
        run(
            d,
            spec_remove_window_from_wallpaper(anchor, h).0,
            spec_remove_window_from_wallpaper(anchor, h).1,
            6,
        ) == if d.holds(h) {
            Some((removed(d, h), Ok::<(), EngineError>(())))
        } else {
            Some((d, Err::<(), EngineError>(EngineError::ReparentFailed)))
        },
{
    lemma_index_of_sound(d, h);
    let t0 = spec_remove_window_from_wallpaper(anchor, h).0;
    let s0 = spec_remove_window_from_wallpaper(anchor, h).1;
    let t1 = t0.after(Reply::Handle(d.root)).0;
    let s1 = t0.after(Reply::Handle(d.root)).1;
    assert(d.respond(Request::DesktopWindow) == Some((d, Reply::Handle(d.root))));
    assert(run(d, t0, s0, 6) == run(d, t1, s1, 5));
    if d.holds(h) {
        let i = d.index_of(h).unwrap();
        let w = d.windows[i];
        // new parent
        let w1 = WindowInfo { parent: d.root, ..w };
        let d1 = d.with_window(i, w1);
        lemma_with_window(d, i, w1);
        let r1 = Reply::Handle(w.parent);
        let t2 = t1.after(r1).0;
        let s2 = t1.after(r1).1;
        assert(d.respond(Request::SetParent { child: h, parent: d.root }) == Some((d1, r1)));
        assert(run(d, t1, s1, 5) == run(d1, t2, s2, 4));
        // styles read
        let r2 = Reply::Style { style: w.style, last_error: 0 };
        let t3 = t2.after(r2).0;
        let s3 = t2.after(r2).1;
        assert(d1.index_of(h) == Some(i));
        assert(d1.respond(Request::ReadStyle { of: h }) == Some((d1, r2)));
        assert(run(d1, t2, s2, 4) == run(d1, t3, s3, 3));
        // styles written
        let styled = spec_restore_update().spec_apply(w.style);
        let w2 = WindowInfo { style: styled, ..w1 };
        let d2 = d1.with_window(i, w2);
        lemma_with_window(d1, i, w2);
        let t4 = t3.after(r2).0;
        let s4 = t3.after(r2).1;
        assert(d1.respond(Request::WriteStyle { of: h, style: styled }) == Some((d2, r2)));
        assert(run(d1, t3, s3, 3) == run(d2, t4, s4, 2));
        // frame refreshed
        assert(d2.index_of(h) == Some(i));
        let refresh = Request::SetWindowPos {
            window: h,
            placement: spec_unmoved(),
            flags: FRAME_REFRESH_FLAGS,
        };
        assert(d2.respond(refresh) == Some((d2, Reply::Flag(true))));
        let t5 = t4.after(Reply::Flag(true)).0;
        let s5 = t4.after(Reply::Flag(true)).1;
        assert(run(d2, t4, s4, 2) == run(d2, t5, s5, 1));
        // anchor repainted
        assert(d2.respond(Request::Invalidate { window: anchor }) == Some((d2, Reply::Done)));
        let t6 = t5.after(Reply::Done).0;
        let s6 = t5.after(Reply::Done).1;
        assert(run(d2, t5, s5, 1) == run(d2, t6, s6, 0));
        assert(d2.windows =~= removed(d, h).windows);
    } else {
        let r1 = Reply::Handle(WindowHandle { raw: 0 });
        let t2 = t1.after(r1).0;
        let s2 = t1.after(r1).1;
        assert(d.respond(Request::SetParent { child: h, parent: d.root }) == Some((d, r1)));
        assert(run(d, t1, s1, 5) == run(d, t2, s2, 4));
    }
}

/// Once the removal of a window from an anchor has run, the window is not
/// among the children of the anchor.
pub proof fn lemma_removed_window_is_no_child(d: Desktop, anchor: WindowHandle, h: WindowHandle)
    requires
        d.wf(),
        anchor != d.root,
    ensures
        run(
            d,
            spec_remove_window_from_wallpaper(anchor, h).0,
            spec_remove_window_from_wallpaper(anchor, h).1,
            6,
        ) matches Some((after, _)) && !children(after.windows, anchor).contains(h),
{
    lemma_removal_runs(d, anchor, h);
    lemma_index_of_sound(d, h);
    let after = if d.holds(h) {
        removed(d, h)
    } else {
        d
    };
    if children(after.windows, anchor).contains(h) {
        lemma_children_origin(after.windows, anchor, h);
        let j = choose|j: int|
            0 <= j < after.windows.len() && (#[trigger] after.windows[j]).handle == h
                && after.windows[j].parent == anchor;
        if d.holds(h) {
            let i = d.index_of(h).unwrap();
            if j != i {
                assert(d.windows[j].handle == d.windows[i].handle);
            }
        } else {
            assert(d.windows[j].handle == h);
        }
    }
}


/// The rectangle in the coordinates of window `anchor`, if the desktop
/// holds that window and the edges stay within 32 bits.
pub open spec fn relative_to(d: Desktop, anchor: WindowHandle, rect: Rect) -> Option<Rect> {
    if d.holds(anchor) {
        shifted(rect, -d.origin_of(anchor).0, -d.origin_of(anchor).1)
    } else {
        None
    }
}

/// Once the full-monitor placement of a child of the anchor has run, the
/// window covers the monitor that was nearest to its corner: its rectangle
/// in the anchor's coordinates is that of the monitor in the anchor's
/// coordinates. This is stated where that monitor resolves and its
/// rectangle can be told in the anchor's coordinates.
pub proof fn lemma_fullscreen_covers_monitor(d: Desktop, anchor: WindowHandle, h: WindowHandle)
    requires
        d.wf(),
        d.holds(anchor),
        d.holds(h),
        h != anchor,
        d.record(h).parent == anchor,
        d.nearest.dom().contains(d.record(h).rect.spec_top_left()),
        d.nearest[d.record(h).rect.spec_top_left()] != 0,
        d.monitors.dom().contains(d.nearest[d.record(h).rect.spec_top_left()]),
        relative_to(d, anchor, d.monitors[d.nearest[d.record(h).rect.spec_top_left()]])
            matches Some(mapped) && mapped.measurable(),
    ensures
        run(d, spec_set_fullscreen(anchor, h).0, spec_set_fullscreen(anchor, h).1, 5) matches Some(
            (after, outcome),
        ) && {
            &&& outcome is Ok
            &&& after.holds(h)
            &&& after.record(h).parent == anchor
            &&& relative_to(after, anchor, after.record(h).rect) == relative_to(
                d,
                anchor,
                d.monitors[d.nearest[d.record(h).rect.spec_top_left()]],
            )
        },
{
    lemma_index_of_sound(d, h);
    lemma_index_of_sound(d, anchor);
    let i = d.index_of(h).unwrap();
    let a = d.index_of(anchor).unwrap();
    let w = d.windows[i];
    let monitor = d.nearest[w.rect.spec_top_left()];
    let full = d.monitors[monitor];
    let mapped = relative_to(d, anchor, full).unwrap();
    let t0 = spec_set_fullscreen(anchor, h).0;
    let s0 = spec_set_fullscreen(anchor, h).1;
    // rectangle
    let r0 = Reply::Area(Some(w.rect));
    let t1 = t0.after(r0).0;
    let s1 = t0.after(r0).1;
    assert(d.respond(Request::WindowRect { of: h }) == Some((d, r0)));
    assert(run(d, t0, s0, 5) == run(d, t1, s1, 4));
    // monitor
    let r1 = Reply::Monitor(monitor);
    let t2 = t1.after(r1).0;
    let s2 = t1.after(r1).1;
    assert(d.respond(Request::NearestMonitor { point: w.rect.spec_top_left() }) == Some((d, r1)));
    assert(run(d, t1, s1, 4) == run(d, t2, s2, 3));
    // its rectangle
    let r2 = Reply::Area(Some(full));
    let t3 = t2.after(r2).0;
    let s3 = t2.after(r2).1;
    assert(d.respond(Request::MonitorRect { monitor }) == Some((d, r2)));
    assert(run(d, t2, s2, 3) == run(d, t3, s3, 2));
    // in the anchor's coordinates
    let r3 = Reply::Area(Some(mapped));
    let t4 = t3.after(r3).0;
    let s4 = t3.after(r3).1;
    assert(d.respond(Request::MapToWindow { to: anchor, rect: full }) == Some((d, r3)));
    assert(run(d, t3, s3, 2) == run(d, t4, s4, 1));
    // moved
    let placement = mapped.spec_placement().unwrap();
    let w1 = WindowInfo { rect: full, ..w };
    let d1 = d.with_window(i, w1);
    lemma_with_window(d, i, w1);
    assert(FRAME_REFRESH_FLAGS != MOVE_FLAGS) by (bit_vector);
    assert(d.origin_of(w.parent) == d.origin_of(anchor));
    assert(edges(placement) == Some(mapped));
    assert(shifted(mapped, d.origin_of(anchor).0, d.origin_of(anchor).1) == Some(full));
    let moving = Request::SetWindowPos { window: h, placement, flags: MOVE_FLAGS };
    assert(d.respond(moving) == Some((d1, Reply::Flag(true))));
    let t5 = t4.after(Reply::Flag(true)).0;
    let s5 = t4.after(Reply::Flag(true)).1;
    assert(run(d, t4, s4, 1) == run(d1, t5, s5, 0));
    assert(d1.index_of(h) == Some(i));
    assert(d1.index_of(anchor) == Some(a));
    assert(d1.windows[a] == d.windows[a]);
}

/// Removing a record leaves a desktop a desktop, on which the records
/// before the removed one stand where they stood and those after it stand
/// one position earlier.
pub proof fn lemma_without_window(d: Desktop, i: int)
    requires
        d.wf(),
        0 <= i < d.windows.len(),
    ensures
        d.without_window(i).wf(),
        forall|j: int|
            0 <= j < d.without_window(i).windows.len() ==> #[trigger] d.without_window(
                i,
            ).windows[j] == d.windows[if j < i {
                j
            } else {
                j + 1
            }],
{
    let e = d.without_window(i);
    assert forall|j: int| 0 <= j < e.windows.len() implies #[trigger] e.windows[j]
        == d.windows[if j < i {
        j
    } else {
        j + 1
    }] by {}
    assert forall|j: int, k: int|
        0 <= j < e.windows.len() && 0 <= k < e.windows.len() && j != k implies (
    #[trigger] e.windows[j]).handle != (#[trigger] e.windows[k]).handle by {
        let jj = if j < i {
            j
        } else {
            j + 1
        };
        let kk = if k < i {
            k
        } else {
            k + 1
        };
        assert(d.windows[jj].handle != d.windows[kk].handle);
    }
}

/// Whether every child of `anchor` on the desktop stands in the snapshot
/// at position `k` or after it.
pub open spec fn awaited(d: Desktop, anchor: WindowHandle, queue: Seq<WindowHandle>, k: int)
    -> bool {
    forall|j: int|
        0 <= j < d.windows.len() && (#[trigger] d.windows[j]).parent == anchor ==> exists|m: int|
            k <= m < queue.len() && #[trigger] queue[m] == d.windows[j].handle
}

/// While a teardown removes the window at hand, it does what the removal
/// does, and goes on to its pause when the removal has ended.
pub proof fn lemma_teardown_removing(
    d: Desktop,
    t: Teardown,
    removal: Removal,
    step: Step<Result<(), EngineError>>,
    fuel: nat,
    spare: nat,
)
    requires
        run(d, removal, step, fuel).is_some(),
        run(
            run(d, removal, step, fuel).unwrap().0,
            t.spec_at(TeardownStage::Settling),
            Step::<()>::Call(Request::Sleep { millis: SETTLE_MILLIS }),
            spare,
        ).is_some(),
    ensures
        run(d, t.spec_removed((removal, step)).0, t.spec_removed((removal, step)).1, fuel + spare)
            == run(
            run(d, removal, step, fuel).unwrap().0,
            t.spec_at(TeardownStage::Settling),
            Step::<()>::Call(Request::Sleep { millis: SETTLE_MILLIS }),
            spare,
        ),
    decreases fuel,
{
    match step {
        Step::Done(outcome) => {
            lemma_run_spare_fuel(
                d,
                t.spec_at(TeardownStage::Settling),
                Step::<()>::Call(Request::Sleep { millis: SETTLE_MILLIS }),
                spare,
                fuel,
            );
        },
        Step::Call(request) => {
            let (answered, reply) = d.respond(request).unwrap();
            let next = removal.after(reply);
            lemma_teardown_removing(answered, t, next.0, next.1, (fuel - 1) as nat, spare);
            let lifted = t.spec_at(TeardownStage::Removing(removal));
            assert(lifted.after(reply) == t.spec_removed(next));
            assert(run(
                d,
                t.spec_removed((removal, step)).0,
                t.spec_removed((removal, step)).1,
                fuel + spare,
            ) == run(
                answered,
                t.spec_removed(next).0,
                t.spec_removed(next).1,
                (fuel + spare - 1) as nat,
            ));
        },
    }
}

/// The desktop after the window `h` has been removed from the anchor and
/// has closed: without the record of `h`, and else as it was.
pub open spec fn closed(d: Desktop, h: WindowHandle) -> Desktop {
    match d.index_of(h) {
        Some(i) => d.without_window(i),
        None => d,
    }
}

/// When the window at position `k` of the snapshot has closed, every child
/// of the anchor stands in the snapshot after position `k`.
pub proof fn lemma_closed_awaited(
    d: Desktop,
    anchor: WindowHandle,
    queue: Seq<WindowHandle>,
    k: int,
)
    requires
        d.wf(),
        0 <= k < queue.len(),
        awaited(d, anchor, queue, k),
    ensures
        closed(d, queue[k]).wf(),
        awaited(closed(d, queue[k]), anchor, queue, k + 1),
{
    let h = queue[k];
    let e = closed(d, h);
    lemma_index_of_sound(d, h);
    if d.holds(h) {
        lemma_without_window(d, d.index_of(h).unwrap());
    }
    assert forall|j: int|
        0 <= j < e.windows.len() && (#[trigger] e.windows[j]).parent == anchor implies exists|
        m: int,
    |
        k + 1 <= m < queue.len() && #[trigger] queue[m] == e.windows[j].handle by {
        let jj = if d.holds(h) && j >= d.index_of(h).unwrap() {
            j + 1
        } else {
            j
        };
        assert(e.windows[j] == d.windows[jj]);
        assert(d.windows[jj].parent == anchor);
        let m = choose|m: int| k <= m < queue.len() && #[trigger] queue[m] == d.windows[jj].handle;
        if d.holds(h) {
            assert(d.windows[jj].handle != d.windows[d.index_of(h).unwrap()].handle);
        }
        assert(k + 1 <= m);
    }
}

/// A window that has been removed from the anchor and has closed leaves
/// the desktop that it leaves when it closes at once.
pub proof fn lemma_closed_after_removal(d: Desktop, h: WindowHandle)
    requires
        d.wf(),
        d.holds(h),
    ensures
        closed(removed(d, h), h) == closed(d, h),
{
    lemma_index_of_sound(d, h);
    let i = d.index_of(h).unwrap();
    lemma_with_window(d, i, removed(d, h).windows[i]);
    assert(removed(d, h).without_window(i).windows =~= d.without_window(i).windows);
}

/// What a teardown does when the removal of the window at hand has ended:
/// it pauses, asks the window to close, and turns to the next position.
pub proof fn lemma_teardown_tail(d: Desktop, t: Teardown, rest: nat)
    requires
        t.index < t.queue@.len(),
    ensures
        run(
            d,
            t.spec_at(TeardownStage::Settling),
            Step::<()>::Call(Request::Sleep { millis: SETTLE_MILLIS }),
            rest + 2,
        ) == run(
            closed(d, t.queue@[t.index as int]),
            Teardown { index: (t.index + 1) as usize, ..t }.spec_begin_item().0,
            Teardown { index: (t.index + 1) as usize, ..t }.spec_begin_item().1,
            rest,
        ),
{
    let h = t.queue@[t.index as int];
    let settling = t.spec_at(TeardownStage::Settling);
    let pause = Step::<()>::Call(Request::Sleep { millis: SETTLE_MILLIS });
    let closing = settling.after(Reply::Done).0;
    let close = Request::SendMessage { to: h, message: CLOSE_MESSAGE, wparam: 0, lparam: 0 };
    let next = Teardown { index: (t.index + 1) as usize, ..t };
    assert(settling.after(Reply::Done).1 == Step::<()>::Call(close));
    assert(closing.after(Reply::Done) == next.spec_begin_item());
    assert(d.respond(close) == Some((closed(d, h), Reply::Done)));
    assert(run(d, closing, Step::<()>::Call(close), (rest + 1) as nat) == run(
        closed(d, h),
        next.spec_begin_item().0,
        next.spec_begin_item().1,
        rest,
    ));
    assert(d.respond(Request::Sleep { millis: SETTLE_MILLIS }) == Some((d, Reply::Done)));
    assert(run(d, settling, pause, (rest + 2) as nat) == run(
        d,
        closing,
        Step::<()>::Call(close),
        (rest + 1) as nat,
    ));
}

/// What a teardown does with the window at hand: it runs the removal,
/// pauses, asks the window to close, and turns to the next position.
pub proof fn lemma_teardown_item(d: Desktop, t: Teardown, rest: nat)
    requires
        d.wf(),
        t.index < t.queue@.len(),
        run(
            closed(d, t.queue@[t.index as int]),
            Teardown { index: (t.index + 1) as usize, ..t }.spec_begin_item().0,
            Teardown { index: (t.index + 1) as usize, ..t }.spec_begin_item().1,
            rest,
        ).is_some(),
    ensures
        run(d, t.spec_begin_item().0, t.spec_begin_item().1, rest + 8) == run(
            closed(d, t.queue@[t.index as int]),
            Teardown { index: (t.index + 1) as usize, ..t }.spec_begin_item().0,
            Teardown { index: (t.index + 1) as usize, ..t }.spec_begin_item().1,
            rest,
        ),
{
    let h = t.queue@[t.index as int];
    let start = spec_remove_window_from_wallpaper(t.wallpaper, h);
    lemma_removal_runs(d, t.wallpaper, h);
    let d1 = run(d, start.0, start.1, 6).unwrap().0;
    if d.holds(h) {
        lemma_closed_after_removal(d, h);
    }
    assert(closed(d1, h) == closed(d, h));
    lemma_teardown_tail(d1, t, rest);
    lemma_teardown_removing(d, t, start.0, start.1, 6, (rest + 2) as nat);
    assert(t.spec_begin_item() == t.spec_removed(start));
}

/// A teardown that has come to position `k` of its snapshot, on a desktop
/// whose children of the anchor all stand at `k` or after it, ends on a
/// desktop on which the anchor has no child.
pub proof fn lemma_teardown_from(d: Desktop, t: Teardown, k: nat)
    requires
        d.wf(),
        t.index == k,
        k <= t.queue@.len(),
        awaited(d, t.wallpaper, t.queue@, k as int),
    ensures
        run(
            d,
            t.spec_begin_item().0,
            t.spec_begin_item().1,
            (8 * (t.queue@.len() - k) + 1) as nat,
        ) matches Some((after, _)) && children(after.windows, t.wallpaper).len() == 0,
    decreases t.queue@.len() - k,
{
    let anchor = t.wallpaper;
    let n = t.queue@.len();
    let t0 = t.spec_begin_item().0;
    let s0 = t.spec_begin_item().1;
    if k == n {
        assert(d.respond(Request::Invalidate { window: WindowHandle { raw: 0 } }) == Some(
            (d, Reply::Done),
        ));
        assert(run(d, t0, s0, 1) == run(d, t0.after(Reply::Done).0, t0.after(Reply::Done).1, 0));
        if children(d.windows, anchor).len() > 0 {
            let x = children(d.windows, anchor)[0];
            assert(children(d.windows, anchor).contains(x));
            lemma_children_origin(d.windows, anchor, x);
        }
    } else {
        let rest = (8 * (n - k - 1) + 1) as nat;
        let next = Teardown { index: (t.index + 1) as usize, ..t };
        assert(n == t.queue.len());
        lemma_closed_awaited(d, anchor, t.queue@, k as int);
        lemma_teardown_from(closed(d, t.queue@[k as int]), next, k + 1);
        lemma_teardown_item(d, t, rest);
    }
}

/// Once the teardown of the windows embedded under an anchor has run, the
/// anchor has no child.
pub proof fn lemma_close_all_empties_anchor(d: Desktop, anchor: WindowHandle, active: Vec<
    WindowHandle,
>)
    requires
        d.wf(),
        active@.to_multiset() == children(d.windows, anchor).to_multiset(),
    ensures
        run(
            d,
            spec_close_all(anchor, active).0,
            spec_close_all(anchor, active).1,
            (8 * active@.len() + 1) as nat,
        ) matches Some((after, _)) && children(after.windows, anchor).len() == 0,
{
    let t = Teardown { wallpaper: anchor, queue: active, index: 0, stage: TeardownStage::Finished };
    assert(awaited(d, anchor, active@, 0)) by {
        assert forall|j: int|
            0 <= j < d.windows.len() && (#[trigger] d.windows[j]).parent
                == anchor implies exists|m: int|
            0 <= m < active@.len() && #[trigger] active@[m] == d.windows[j].handle by {
            lemma_children_contains(d.windows, anchor, j);
            vstd::seq_lib::to_multiset_contains(children(d.windows, anchor), d.windows[j].handle);
            vstd::seq_lib::to_multiset_contains(active@, d.windows[j].handle);
        }
    }
    lemma_teardown_from(d, t, 0);
}


/// While an addition places the window, it does what the full-monitor
/// placement does, and ends as that ends.
pub proof fn lemma_addition_placing(
    d: Desktop,
    a: Addition,
    placing: Fullscreen,
    step: Step<Result<(), EngineError>>,
    fuel: nat,
)
    requires
        run(d, placing, step, fuel).is_some(),
    ensures
        run(d, a.spec_placed((placing, step)).0, a.spec_placed((placing, step)).1, fuel) == run(
            d,
            placing,
            step,
            fuel,
        ),
    decreases fuel,
{
    match step {
        Step::Done(outcome) => {},
        Step::Call(request) => {
            let (answered, reply) = d.respond(request).unwrap();
            let next = placing.after(reply);
            lemma_addition_placing(answered, a, next.0, next.1, (fuel - 1) as nat);
            let lifted = a.spec_at(AdditionStage::Fullscreen(placing));
            assert(lifted.after(reply) == a.spec_placed(next));
        },
    }
}

/// What an addition goes on with when its embedding has ended with
/// `outcome` on the desktop `d`: it ends with a failure of the embedding,
/// and after a success it places the window where that is asked for.
pub open spec fn after_embedding(
    d: Desktop,
    a: Addition,
    wallpaper: WindowHandle,
    wnd: WindowHandle,
    outcome: Result<(), EngineError>,
    fuel: nat,
) -> Option<(Desktop, Result<(), EngineError>)> {
    if outcome is Ok && a.fullscreen {
        run(d, spec_set_fullscreen(wallpaper, wnd).0, spec_set_fullscreen(wallpaper, wnd).1, fuel)
    } else {
        Some((d, outcome))
    }
}

/// While an addition embeds the window, it does what the embedding does,
/// and goes on as the outcome of the embedding demands.
pub proof fn lemma_addition_embedding(
    d: Desktop,
    a: Addition,
    embedding: Embedding,
    step: Step<Result<(), EngineError>>,
    fuel: nat,
    spare: nat,
)
    requires
        run(d, embedding, step, fuel).is_some(),
        after_embedding(
            run(d, embedding, step, fuel).unwrap().0,
            a,
            embedding.wallpaper,
            embedding.wnd,
            run(d, embedding, step, fuel).unwrap().1,
            spare,
        ).is_some(),
    ensures
        run(
            d,
            a.spec_embedded((embedding, step)).0,
            a.spec_embedded((embedding, step)).1,
            fuel + spare,
        ) == after_embedding(
            run(d, embedding, step, fuel).unwrap().0,
            a,
            embedding.wallpaper,
            embedding.wnd,
            run(d, embedding, step, fuel).unwrap().1,
            spare,
        ),
    decreases fuel,
{
    match step {
        Step::Done(outcome) => {
            if outcome is Ok && a.fullscreen {
                let start = spec_set_fullscreen(embedding.wallpaper, embedding.wnd);
                lemma_addition_placing(d, a, start.0, start.1, spare);
                lemma_run_spare_fuel(
                    d,
                    a.spec_placed(start).0,
                    a.spec_placed(start).1,
                    spare,
                    fuel,
                );
                assert(spare + fuel == fuel + spare);
                assert(a.spec_embedded((embedding, step)) == a.spec_placed(start));
            } else {
                match outcome {
                    Ok(unit) => {
                        assert(unit == ());
                    },
                    Err(_) => {},
                }
                assert(a.spec_embedded((embedding, step)) == a.spec_ended(outcome));
                assert(run(d, a.spec_ended(outcome).0, a.spec_ended(outcome).1, fuel + spare)
                    == Some((d, outcome)));
            }
        },
        Step::Call(request) => {
            let (answered, reply) = d.respond(request).unwrap();
            let next = embedding.after(reply);
            assert(next.0.wallpaper == embedding.wallpaper && next.0.wnd == embedding.wnd);
            lemma_addition_embedding(answered, a, next.0, next.1, (fuel - 1) as nat, spare);
            let lifted = a.spec_at(AdditionStage::Embedding(embedding));
            assert(lifted.after(reply) == a.spec_embedded(next));
            assert(run(
                d,
                a.spec_embedded((embedding, step)).0,
                a.spec_embedded((embedding, step)).1,
                fuel + spare,
            ) == run(
                answered,
                a.spec_embedded(next).0,
                a.spec_embedded(next).1,
                (fuel + spare - 1) as nat,
            ));
        },
    }
}

/// Whether the monitor nearest to the corner of window `h` resolves on the
/// desktop, and its rectangle can be told in the coordinates of `anchor` and
/// measured there.
pub open spec fn monitor_resolves(d: Desktop, anchor: WindowHandle, h: WindowHandle) -> bool {
    let corner = d.record(h).rect.spec_top_left();
    &&& d.nearest.dom().contains(corner)
    &&& d.nearest[corner] != 0
    &&& d.monitors.dom().contains(d.nearest[corner])
    &&& relative_to(d, anchor, d.monitors[d.nearest[corner]]) matches Some(mapped)
        && mapped.measurable()
}

/// Adding a window that is eligible and not yet embedded succeeds where its
/// monitor resolves or none is asked for. The window is then among the
/// children of the anchor and, where that was asked for, covers the monitor
/// that was nearest to its corner.
pub proof fn lemma_addition_runs(
    d: Desktop,
    anchor: WindowHandle,
    h: WindowHandle,
    properties: WallpaperProperties,
)
    requires
        d.wf(),
        d.holds(anchor),
        d.holds(h),
        h != anchor,
        d.record(h).class_name@ != SHELL_TRAY_CLASS@,
        d.record(h).parent != anchor,
        properties.fullscreen ==> monitor_resolves(d, anchor, h),
    ensures
        run(
            d,
            spec_add_window_by_handle(anchor, h, properties).0,
            spec_add_window_by_handle(anchor, h, properties).1,
            13,
        ) matches Some((after, outcome)) && {
            &&& outcome is Ok
            &&& children(after.windows, anchor).contains(h)
            &&& properties.fullscreen ==> relative_to(after, anchor, after.record(h).rect)
                == relative_to(
                d,
                anchor,
                d.monitors[d.nearest[d.record(h).rect.spec_top_left()]],
            )
        },
{
    let a = Addition { fullscreen: properties.fullscreen, stage: AdditionStage::Finished };
    let start = spec_add_window_as_wallpaper(anchor, h);
    lemma_embedding_runs(d, anchor, h);
    lemma_embedded_window_is_child(d, anchor, h);
    lemma_index_of_sound(d, h);
    lemma_index_of_sound(d, anchor);
    let i = d.index_of(h).unwrap();
    let e = embedded(d, anchor, h);
    lemma_with_window(d, i, e.windows[i]);
    assert(e.windows[d.index_of(anchor).unwrap()] == d.windows[d.index_of(anchor).unwrap()]);
    if properties.fullscreen {
        lemma_fullscreen_covers_monitor(e, anchor, h);
        let placed = run(e, spec_set_fullscreen(anchor, h).0, spec_set_fullscreen(anchor, h).1, 5);
        let after = placed.unwrap().0;
        lemma_index_of_sound(e, h);
        lemma_index_of_sound(after, h);
        lemma_children_contains(after.windows, anchor, after.index_of(h).unwrap());
    }
    lemma_addition_embedding(d, a, start.0, start.1, 8, 5);
}

} // verus!
