//! Why the walk along last active popups may stop after as many moves as
//! the snapshot has records: a walk that comes to rest on a window of the
//! snapshot at all has done so by then.

use vstd::prelude::*;
use vstd::set_lib::{lemma_int_range, lemma_len_subset, set_int_range};
use crate::handle::WindowHandle;
use crate::window::{
    first_index, has_handle, heads_popup_chain, is_first, lemma_first_index_exists, popup_of,
    shown, walk_end, WindowInfo,
};

verus! {

/// The window on which the walk from `start` stands after `moves` moves, if
/// it has not come to rest before.
pub open spec fn chain(windows: Seq<WindowInfo>, start: WindowHandle, moves: nat) -> WindowHandle
    decreases moves,
{
    if moves == 0 {
        start
    } else {
        popup_of(windows, chain(windows, start, (moves - 1) as nat))
    }
}

/// The window that the walk from `start` has last tried after `moves`
/// moves: none at the start, and afterwards the one it stands on.
pub open spec fn tried_at(windows: Seq<WindowInfo>, start: WindowHandle, moves: nat)
    -> WindowHandle {
    if moves == 0 {
        WindowHandle { raw: 0 }
    } else {
        chain(windows, start, moves)
    }
}

/// Whether the walk from `start` comes to rest after `moves` moves, if it
/// has not done so before.
pub open spec fn rests_at(windows: Seq<WindowInfo>, start: WindowHandle, moves: nat) -> bool {
    let next = popup_of(windows, chain(windows, start, moves));
    next == tried_at(windows, start, moves) || shown(windows, next)
}

/// Whether the walk from `start` makes exactly `moves` moves before it
/// comes to rest.
pub open spec fn first_rest(windows: Seq<WindowInfo>, start: WindowHandle, moves: nat) -> bool {
    &&& rests_at(windows, start, moves)
    &&& forall|k: nat| k < moves ==> !#[trigger] rests_at(windows, start, k)
}

/// Whether the snapshot holds a record of window `h`.
pub open spec fn held(windows: Seq<WindowInfo>, h: WindowHandle) -> bool {
    first_index(windows, has_handle(h)).is_some()
}

/// Whether no record of the snapshot carries the null handle.
pub open spec fn no_null_record(windows: Seq<WindowInfo>) -> bool {
    forall|j: int| 0 <= j < windows.len() ==> !(#[trigger] windows[j]).handle.spec_is_null()
}

/// A walk that has not rested within its first `moves` moves goes on from
/// where it then stands.
pub proof fn lemma_walk_from(
    windows: Seq<WindowInfo>,
    start: WindowHandle,
    moves: nat,
    fuel: nat,
)
    requires
        forall|k: nat| k < moves ==> !#[trigger] rests_at(windows, start, k),
    ensures
        walk_end(windows, start, WindowHandle { raw: 0 }, moves + fuel) == walk_end(
            windows,
            chain(windows, start, moves),
            tried_at(windows, start, moves),
            fuel,
        ),
    decreases moves,
{
    if moves > 0 {
        let before = (moves - 1) as nat;
        lemma_walk_from(windows, start, before, fuel + 1);
        assert(!rests_at(windows, start, before));
        assert(before + (fuel + 1) == moves + fuel);
    }
}

/// What a walk from where it stands after `moves` moves ends with: the
/// window of its first rest, if that comes within `fuel` further moves.
pub proof fn lemma_walk_result(
    windows: Seq<WindowInfo>,
    start: WindowHandle,
    moves: nat,
    fuel: nat,
)
    requires
        forall|k: nat| k < moves ==> !#[trigger] rests_at(windows, start, k),
    ensures
        match walk_end(
            windows,
            chain(windows, start, moves),
            tried_at(windows, start, moves),
            fuel,
        ) {
            Some(end) => exists|i: nat|
                moves <= i <= moves + fuel && #[trigger] first_rest(windows, start, i) && end
                    == chain(windows, start, i),
            None => forall|k: nat| k <= moves + fuel ==> !#[trigger] rests_at(windows, start, k),
        },
    decreases fuel,
{
    if rests_at(windows, start, moves) {
        assert(first_rest(windows, start, moves));
    } else if fuel > 0 {
        lemma_walk_result(windows, start, moves + 1, (fuel - 1) as nat);
        assert forall|k: nat| k < moves + 1 implies !#[trigger] rests_at(windows, start, k) by {}
    }
}

/// Where the walk stands on one window after two numbers of moves, it
/// stands on one window any number of moves later.
pub proof fn lemma_chain_period(
    windows: Seq<WindowInfo>,
    start: WindowHandle,
    a: nat,
    b: nat,
    k: nat,
)
    requires
        chain(windows, start, a) == chain(windows, start, b),
    ensures
        chain(windows, start, a + k) == chain(windows, start, b + k),
    decreases k,
{
    if k > 0 {
        lemma_chain_period(windows, start, a, b, (k - 1) as nat);
    }
}

/// Before its first rest the walk stands on no window twice, its start
/// apart.
pub proof fn lemma_chain_distinct(
    windows: Seq<WindowInfo>,
    start: WindowHandle,
    rest: nat,
    a: nat,
    b: nat,
)
    requires
        first_rest(windows, start, rest),
        1 <= a < b <= rest,
    ensures
        chain(windows, start, a) != chain(windows, start, b),
{
    if chain(windows, start, a) == chain(windows, start, b) {
        let early = (a + (rest - b)) as nat;
        lemma_chain_period(windows, start, a, b, (rest - b) as nat);
        assert(b + (rest - b) == rest);
        assert(chain(windows, start, early) == chain(windows, start, rest));
        assert(rests_at(windows, start, early));
    }
}

/// A walk that comes to rest on a window of the snapshot has stood on
/// windows of the snapshot only, its start apart.
pub proof fn lemma_chain_held(
    windows: Seq<WindowInfo>,
    start: WindowHandle,
    rest: nat,
    j: nat,
)
    requires
        no_null_record(windows),
        first_rest(windows, start, rest),
        held(windows, chain(windows, start, rest)),
        1 <= j <= rest,
    ensures
        held(windows, chain(windows, start, j)),
{
    let null = WindowHandle { raw: 0 };
    assert(!held(windows, null)) by {
        if held(windows, null) {
            let i = first_index(windows, has_handle(null)).unwrap();
            assert(is_first(windows, has_handle(null), i));
        }
    }
    if j < rest && !held(windows, chain(windows, start, j)) {
        assert(!rests_at(windows, start, j));
        assert(chain(windows, start, j + 1) == null);
        if j + 1 < rest {
            assert(rests_at(windows, start, j + 1));
        }
    }
}

/// A walk that comes to rest on a window of the snapshot makes no more
/// moves than the snapshot has records.
pub proof fn lemma_rest_is_near(windows: Seq<WindowInfo>, start: WindowHandle, rest: nat)
    requires
        no_null_record(windows),
        first_rest(windows, start, rest),
        held(windows, chain(windows, start, rest)),
    ensures
        rest <= windows.len(),
{
    let positions = Seq::new(
        rest,
        |t: int| first_index(windows, has_handle(chain(windows, start, (t + 1) as nat))).unwrap(),
    );
    assert forall|t: int| 0 <= t < rest implies 0 <= #[trigger] positions[t] < windows.len()
        && windows[positions[t]].handle == chain(windows, start, (t + 1) as nat) by {
        lemma_chain_held(windows, start, rest, (t + 1) as nat);
        let h = chain(windows, start, (t + 1) as nat);
        assert(is_first(windows, has_handle(h), positions[t]));
    }
    assert forall|s: int, t: int| 0 <= s < rest && 0 <= t < rest && s != t implies positions[s]
        != positions[t] by {
        if s < t {
            lemma_chain_distinct(windows, start, rest, (s + 1) as nat, (t + 1) as nat);
        } else {
            lemma_chain_distinct(windows, start, rest, (t + 1) as nat, (s + 1) as nat);
        }
    }
    positions.unique_seq_to_set();
    lemma_int_range(0, windows.len() as int);
    assert(positions.to_set().subset_of(set_int_range(0, windows.len() as int))) by {
        assert forall|p: int| positions.to_set().contains(p) implies set_int_range(
            0,
            windows.len() as int,
        ).contains(p) by {
            let t = choose|t: int| 0 <= t < positions.len() && positions[t] == p;
            assert(0 <= positions[t] < windows.len());
        }
    }
    lemma_len_subset(positions.to_set(), set_int_range(0, windows.len() as int));
}

/// A window of a snapshot without null handles heads its popup chain
/// exactly when the walk from its root owner comes to rest on it, after
/// however many moves.
pub proof fn lemma_walk_bound_suffices(windows: Seq<WindowInfo>, w: WindowInfo, fuel: nat)
    requires
        no_null_record(windows),
        windows.contains(w),
        walk_end(windows, w.root_owner, WindowHandle { raw: 0 }, fuel) == Some(w.handle),
    ensures
        heads_popup_chain(windows, w),
{
    let start = w.root_owner;
    lemma_walk_result(windows, start, 0, fuel);
    let rest = choose|i: nat|
        0 <= i <= 0 + fuel && #[trigger] first_rest(windows, start, i) && w.handle == chain(
            windows,
            start,
            i,
        );
    let j = choose|j: int| 0 <= j < windows.len() && windows[j] == w;
    lemma_first_index_exists(windows, has_handle(w.handle), j);
    lemma_rest_is_near(windows, start, rest);
    lemma_walk_from(windows, start, rest, (windows.len() - rest) as nat);
    assert(rest + (windows.len() - rest) == windows.len());
}

} // verus!
