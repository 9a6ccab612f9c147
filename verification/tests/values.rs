use wallpaper::geometry::{Placement, Point, Rect};
use wallpaper::handle::WindowHandle;
use wallpaper::style::{
    embed_update, listable_ex_style, restore_update, style_call_failed, StyleUpdate, WindowStyle,
    EMBED_EX_STYLE_CLEARED, EMBED_STYLE_CLEARED, WS_CHILD, WS_EX_APPWINDOW,
    WS_EX_NOREDIRECTIONBITMAP, WS_EX_TOOLWINDOW, WS_OVERLAPPEDWINDOW,
};
use wallpaper::text::{get_window_name, terminated_len, to_wide};

#[test]
fn handle_round_trips_through_its_number() {
    assert_eq!(WindowHandle::from_raw(0x0001_0000_0002_00A4).to_raw(), 0x0001_0000_0002_00A4);
    assert_eq!(WindowHandle::from_raw(u64::MAX).to_raw(), u64::MAX);
    assert_eq!(WindowHandle::from_raw(0), WindowHandle::null());
    assert!(WindowHandle::null().is_null());
    assert!(!WindowHandle::from_raw(1).is_null());
}

#[test]
fn style_masks_have_their_documented_values() {
    assert_eq!(WS_OVERLAPPEDWINDOW, 0x00CF_0000);
    assert_eq!(EMBED_STYLE_CLEARED, 0x00CF_0000);
    assert_eq!(EMBED_EX_STYLE_CLEARED, 0x020E_0381);
}

#[test]
fn embedding_strips_chrome_and_sets_the_child_bit() {
    // visible, clip-siblings, overlapped window with all its chrome
    let before = WindowStyle { style: 0x14CF_0000, ex_style: 0x0004_0100 };
    let after = embed_update().apply(before);
    assert_eq!(after, WindowStyle { style: 0x5400_0000, ex_style: 0 });
    assert_eq!(after.style & WS_CHILD, WS_CHILD);
    assert_eq!(embed_update().apply(after), after);
}

#[test]
fn embedding_keeps_the_bits_it_does_not_name() {
    let before = WindowStyle { style: 0x0000_FFFF, ex_style: 0x0020_0008 };
    let after = embed_update().apply(before);
    assert_eq!(after, WindowStyle { style: 0x4000_FFFF, ex_style: 0x0020_0008 });
}

#[test]
fn removal_sets_the_overlapped_application_window_bits() {
    let before = WindowStyle { style: 0x5400_0000, ex_style: 0 };
    let after = restore_update().apply(before);
    assert_eq!(after, WindowStyle { style: 0x54CF_0000, ex_style: WS_EX_APPWINDOW });
}

#[test]
fn style_update_cuts_before_it_extends() {
    let update = StyleUpdate { and: 0x0F, ex_and: 0xF0, or: 0x100, ex_or: 0x01 };
    let after = update.apply(WindowStyle { style: 0xFF, ex_style: 0xFF });
    assert_eq!(after, WindowStyle { style: 0x10F, ex_style: 0xF1 });
}

#[test]
fn zero_style_is_a_failure_only_with_an_error_code() {
    let zero = WindowStyle { style: 0, ex_style: 0 };
    let half = WindowStyle { style: 0x1000_0000, ex_style: 0 };
    let full = WindowStyle { style: 0x1000_0000, ex_style: 0x100 };
    assert!(!style_call_failed(zero, 0));
    assert!(style_call_failed(zero, 1400));
    assert!(style_call_failed(half, 5));
    assert!(!style_call_failed(half, 0));
    assert!(!style_call_failed(full, 1400));
}

#[test]
fn tool_windows_and_windows_without_redirection_are_not_listable() {
    assert!(listable_ex_style(0));
    assert!(listable_ex_style(WS_EX_APPWINDOW));
    assert!(!listable_ex_style(WS_EX_TOOLWINDOW));
    assert!(!listable_ex_style(WS_EX_NOREDIRECTIONBITMAP | WS_EX_APPWINDOW));
}

#[test]
fn placement_is_corner_and_extent() {
    let rect = Rect { left: -1920, top: 40, right: 0, bottom: 1120 };
    assert_eq!(rect.top_left(), Point { x: -1920, y: 40 });
    assert_eq!(rect.placement(), Some(Placement { x: -1920, y: 40, width: 1920, height: 1080 }));
}

#[test]
fn placement_of_an_inverted_rectangle_has_negative_extent() {
    let rect = Rect { left: 10, top: 10, right: 0, bottom: 5 };
    assert_eq!(rect.placement(), Some(Placement { x: 10, y: 10, width: -10, height: -5 }));
}

#[test]
fn placement_fails_where_an_extent_does_not_fit() {
    let wide = Rect { left: i32::MIN, top: 0, right: 1, bottom: 1 };
    assert_eq!(wide.placement(), None);
    let tall = Rect { left: 0, top: -2, right: 1, bottom: i32::MAX };
    assert_eq!(tall.placement(), None);
    let edge = Rect { left: -1, top: 0, right: i32::MAX - 1, bottom: 0 };
    assert_eq!(
        edge.placement(),
        Some(Placement { x: -1, y: 0, width: i32::MAX, height: 0 })
    );
}

#[test]
fn window_name_ends_at_the_first_zero() {
    let buffer: Vec<u16> = vec![72, 105, 0, 33, 0];
    assert_eq!(terminated_len(&buffer), Some(2));
    assert_eq!(get_window_name(&buffer), Some("Hi".to_string()));
}

#[test]
fn window_name_may_be_empty() {
    let buffer: Vec<u16> = vec![0];
    assert_eq!(get_window_name(&buffer), Some(String::new()));
}

#[test]
fn window_name_decodes_surrogate_pairs() {
    // U+1F600 is the pair D83D DE00
    let buffer: Vec<u16> = vec![0xD83D, 0xDE00, 0x20, 0xE9, 0];
    assert_eq!(get_window_name(&buffer), Some("\u{1F600} \u{e9}".to_string()));
}

#[test]
fn window_name_needs_a_terminator_and_well_formed_units() {
    let open: Vec<u16> = vec![72, 105];
    assert_eq!(terminated_len(&open), None);
    assert_eq!(get_window_name(&open), None);
    let lone_surrogate: Vec<u16> = vec![0xD83D, 72, 0];
    assert_eq!(get_window_name(&lone_surrogate), None);
    assert_eq!(get_window_name(&Vec::new()), None);
}

#[test]
fn wide_text_is_utf16_with_a_terminator() {
    assert_eq!(to_wide("Progman"), vec![80, 114, 111, 103, 109, 97, 110, 0]);
    assert_eq!(to_wide(""), vec![0]);
    assert_eq!(to_wide("\u{1F600}"), vec![0xD83D, 0xDE00, 0]);
}

#[test]
fn wide_text_reads_back_as_the_text() {
    assert_eq!(get_window_name(&to_wide("Shell_TrayWnd")), Some("Shell_TrayWnd".to_string()));
}
