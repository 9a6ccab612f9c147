//! Window style bitmasks and the fixed rewrites applied to them when a
//! window enters or leaves the wallpaper layer.

use vstd::prelude::*;

verus! {

pub const WS_OVERLAPPED: u32 = 0x0000_0000;
pub const WS_CHILD: u32 = 0x4000_0000;
pub const WS_CAPTION: u32 = 0x00C0_0000;
pub const WS_SYSMENU: u32 = 0x0008_0000;
pub const WS_THICKFRAME: u32 = 0x0004_0000;
pub const WS_MINIMIZEBOX: u32 = 0x0002_0000;
pub const WS_MAXIMIZEBOX: u32 = 0x0001_0000;
pub const WS_OVERLAPPEDWINDOW: u32 = WS_OVERLAPPED | WS_CAPTION | WS_SYSMENU | WS_THICKFRAME
    | WS_MINIMIZEBOX | WS_MAXIMIZEBOX;

pub const WS_EX_DLGMODALFRAME: u32 = 0x0000_0001;
pub const WS_EX_TOOLWINDOW: u32 = 0x0000_0080;
pub const WS_EX_WINDOWEDGE: u32 = 0x0000_0100;
pub const WS_EX_CLIENTEDGE: u32 = 0x0000_0200;
pub const WS_EX_STATICEDGE: u32 = 0x0002_0000;
pub const WS_EX_APPWINDOW: u32 = 0x0004_0000;
pub const WS_EX_LAYERED: u32 = 0x0008_0000;
pub const WS_EX_NOREDIRECTIONBITMAP: u32 = 0x0020_0000;
pub const WS_EX_COMPOSITED: u32 = 0x0200_0000;

/// Decorative and behavioural style bits that an embedded window loses.
pub const EMBED_STYLE_CLEARED: u32 = WS_CAPTION | WS_THICKFRAME | WS_SYSMENU | WS_MAXIMIZEBOX
    | WS_MINIMIZEBOX;

/// Extended style bits that an embedded window loses.
pub const EMBED_EX_STYLE_CLEARED: u32 = WS_EX_DLGMODALFRAME | WS_EX_COMPOSITED
    | WS_EX_WINDOWEDGE | WS_EX_CLIENTEDGE | WS_EX_LAYERED | WS_EX_STATICEDGE | WS_EX_TOOLWINDOW
    | WS_EX_APPWINDOW;

/// Extended style bits that keep a window off the list of selectable
/// top-level windows.
pub const UNLISTED_EX_STYLE: u32 = WS_EX_NOREDIRECTIONBITMAP | WS_EX_TOOLWINDOW;

/// The base and the extended style bitfield of one window.
#[derive(Clone, Copy, Debug, PartialEq, Eq, Structural)]
pub struct WindowStyle {
    pub style: u32,
    pub ex_style: u32,
}

/// A rewrite of both bitfields: each is first cut down by its `and` mask and
/// then extended by its `or` mask.
#[derive(Clone, Copy, Debug, PartialEq, Eq, Structural)]
pub struct StyleUpdate {
    pub and: u32,
    pub ex_and: u32,
    pub or: u32,
    pub ex_or: u32,
}

impl StyleUpdate {
    /// The styles that this rewrite makes of `current`.
    pub open spec fn spec_apply(self, current: WindowStyle) -> WindowStyle {
        WindowStyle {
            style: (current.style & self.and) | self.or,
            ex_style: (current.ex_style & self.ex_and) | self.ex_or,
        }
    }

    #[verifier::when_used_as_spec(spec_apply)]
    pub fn apply(self, current: WindowStyle) -> (updated: WindowStyle)
        ensures
            updated == self.spec_apply(current),
    {
        WindowStyle {
            style: (current.style & self.and) | self.or,
            ex_style: (current.ex_style & self.ex_and) | self.ex_or,
        }
    }
}

/// The rewrite applied on embedding: chrome goes, the child bit comes.
pub open spec fn spec_embed_update() -> StyleUpdate {
    StyleUpdate {
        and: !EMBED_STYLE_CLEARED,
        ex_and: !EMBED_EX_STYLE_CLEARED,
        or: WS_CHILD,
        ex_or: 0,
    }
}

#[verifier::when_used_as_spec(spec_embed_update)]
pub fn embed_update() -> (u: StyleUpdate)
    ensures
        u == spec_embed_update(),
{
    StyleUpdate {
        and: !EMBED_STYLE_CLEARED,
        ex_and: !EMBED_EX_STYLE_CLEARED,
        or: WS_CHILD,
        ex_or: 0,
    }
}

/// The rewrite applied on removal: nothing is cut, and the bits of an
/// ordinary overlapped application window are set.
pub open spec fn spec_restore_update() -> StyleUpdate {
    StyleUpdate {
        and: 0xFFFF_FFFF,
        ex_and: 0xFFFF_FFFF,
        or: WS_OVERLAPPEDWINDOW,
        ex_or: WS_EX_APPWINDOW,
    }
}

#[verifier::when_used_as_spec(spec_restore_update)]
pub fn restore_update() -> (u: StyleUpdate)
    ensures
        u == spec_restore_update(),
{
    StyleUpdate {
        and: 0xFFFF_FFFF,
        ex_and: 0xFFFF_FFFF,
        or: WS_OVERLAPPEDWINDOW,
        ex_or: WS_EX_APPWINDOW,
    }
}

/// Whether a read or write of both bitfields failed. A zero value alone is
/// no failure, since a bitfield may legitimately be zero: the call failed
/// only when a zero came back together with a pending error code.
pub open spec fn spec_style_call_failed(returned: WindowStyle, last_error: u32) -> bool {
    (returned.style == 0 || returned.ex_style == 0) && last_error != 0
}

#[verifier::when_used_as_spec(spec_style_call_failed)]
pub fn style_call_failed(returned: WindowStyle, last_error: u32) -> (failed: bool)
    ensures
        failed == spec_style_call_failed(returned, last_error),
{
    (returned.style == 0 || returned.ex_style == 0) && last_error != 0
}

/// Whether the extended style lets a window appear among the selectable
/// top-level windows.
pub open spec fn spec_listable_ex_style(ex_style: u32) -> bool {
    ex_style & WS_EX_NOREDIRECTIONBITMAP == 0 && ex_style & WS_EX_TOOLWINDOW == 0
}

#[verifier::when_used_as_spec(spec_listable_ex_style)]
pub fn listable_ex_style(ex_style: u32) -> (b: bool)
    ensures
        b == spec_listable_ex_style(ex_style),
{
    ex_style & WS_EX_NOREDIRECTIONBITMAP == 0 && ex_style & WS_EX_TOOLWINDOW == 0
}

/// After the embedding rewrite a window carries the child bit and none of
/// the cleared bits, and every other bit is as it was.
pub proof fn lemma_embed_update_effect(current: WindowStyle)
    ensures
        ({
            let after = spec_embed_update().spec_apply(current);
            &&& after.style & WS_CHILD == WS_CHILD
            &&& after.style & EMBED_STYLE_CLEARED == 0
            &&& after.ex_style & EMBED_EX_STYLE_CLEARED == 0
            &&& after.style & !(EMBED_STYLE_CLEARED | WS_CHILD) == current.style & !(
            EMBED_STYLE_CLEARED | WS_CHILD)
            &&& after.ex_style & !EMBED_EX_STYLE_CLEARED == current.ex_style
                & !EMBED_EX_STYLE_CLEARED
        }),
{
    let s = current.style;
    let e = current.ex_style;
    assert(((s & !0x00CF_0000u32) | 0x4000_0000u32) & 0x4000_0000u32 == 0x4000_0000u32)
        by (bit_vector);
    assert(((s & !0x00CF_0000u32) | 0x4000_0000u32) & 0x00CF_0000u32 == 0) by (bit_vector);
    assert(((e & !0x020E_0381u32) | 0u32) & 0x020E_0381u32 == 0) by (bit_vector);
    assert(((s & !0x00CF_0000u32) | 0x4000_0000u32) & !(0x00CF_0000u32 | 0x4000_0000u32) == s & !(
    0x00CF_0000u32 | 0x4000_0000u32)) by (bit_vector);
    assert(((e & !0x020E_0381u32) | 0u32) & !0x020E_0381u32 == e & !0x020E_0381u32)
        by (bit_vector);
    assert(EMBED_STYLE_CLEARED == 0x00CF_0000u32) by (bit_vector);
    assert(EMBED_EX_STYLE_CLEARED == 0x020E_0381u32) by (bit_vector);
}

/// Embedding a window twice changes its styles no further than embedding
/// it once.
pub proof fn lemma_embed_update_idempotent(current: WindowStyle)
    ensures
        spec_embed_update().spec_apply(spec_embed_update().spec_apply(current))
            == spec_embed_update().spec_apply(current),
{
    let s = current.style;
    let e = current.ex_style;
    assert(EMBED_STYLE_CLEARED == 0x00CF_0000u32) by (bit_vector);
    assert(EMBED_EX_STYLE_CLEARED == 0x020E_0381u32) by (bit_vector);
    assert(((((s & !0x00CF_0000u32) | 0x4000_0000u32) & !0x00CF_0000u32) | 0x4000_0000u32) == ((s
        & !0x00CF_0000u32) | 0x4000_0000u32)) by (bit_vector);
    assert(((((e & !0x020E_0381u32) | 0u32) & !0x020E_0381u32) | 0u32) == ((e & !0x020E_0381u32)
        | 0u32)) by (bit_vector);
}

/// After the restoring rewrite a window carries every bit of an ordinary
/// overlapped application window, and keeps every bit it had.
pub proof fn lemma_restore_update_effect(current: WindowStyle)
    ensures
        ({
            let after = spec_restore_update().spec_apply(current);
            &&& after.style & WS_OVERLAPPEDWINDOW == WS_OVERLAPPEDWINDOW
            &&& after.ex_style & WS_EX_APPWINDOW == WS_EX_APPWINDOW
            &&& after.style & current.style == current.style
            &&& after.ex_style & current.ex_style == current.ex_style
        }),
{
    let s = current.style;
    let e = current.ex_style;
    assert(WS_OVERLAPPEDWINDOW == 0x00CF_0000u32) by (bit_vector);
    assert(((s & 0xFFFF_FFFFu32) | 0x00CF_0000u32) & 0x00CF_0000u32 == 0x00CF_0000u32)
        by (bit_vector);
    assert(((e & 0xFFFF_FFFFu32) | 0x0004_0000u32) & 0x0004_0000u32 == 0x0004_0000u32)
        by (bit_vector);
    assert(((s & 0xFFFF_FFFFu32) | 0x00CF_0000u32) & s == s) by (bit_vector);
    assert(((e & 0xFFFF_FFFFu32) | 0x0004_0000u32) & e == e) by (bit_vector);
}

} // verus!
