//! What the two retry loops of the engine ask of the window system, and in
//! which order, when what they look for never appears.

use vstd::prelude::*;
use crate::engine::{
    spec_add_window, spec_resolve, Selection, WallpaperProperties, WindowSelector,
};
use crate::error::EngineError;
use crate::handle::WindowHandle;
use crate::locator::spec_find_or_spawn_worker;
use crate::model::feed;
use crate::protocol::{Reply, Request, Step, Task, SPAWN_WORKER_MESSAGE};
use crate::window::{anchor_under, first_handle};

verus! {

/// The requests of `looks` fruitless looks for a window, each followed by a
/// pause of `wait_for` milliseconds.
pub open spec fn fruitless_looks(wait_for: u64, looks: nat) -> Seq<Request>
    decreases looks,
{
    if looks == 0 {
        Seq::empty()
    } else {
        seq![Request::EnumerateWindows, Request::Sleep { millis: wait_for }] + fruitless_looks(
            wait_for,
            (looks - 1) as nat,
        )
    }
}

/// How many snapshots of the top-level windows the requests ask for.
pub open spec fn lookups(trace: Seq<Request>) -> nat
    decreases trace.len(),
{
    if trace.len() == 0 {
        0
    } else {
        lookups(trace.drop_first()) + if trace[0] is EnumerateWindows {
            1nat
        } else {
            0nat
        }
    }
}

/// How many milliseconds the requests let pass.
pub open spec fn slept(trace: Seq<Request>) -> nat
    decreases trace.len(),
{
    if trace.len() == 0 {
        0
    } else {
        slept(trace.drop_first()) + match trace[0] {
            Request::Sleep { millis } => millis as nat,
            _ => 0nat,
        }
    }
}

/// Fruitless looks ask for one snapshot each, and let the pause pass once
/// for each.
pub proof fn lemma_fruitless_looks_totals(wait_for: u64, looks: nat)
    ensures
        lookups(fruitless_looks(wait_for, looks)) == looks,
        slept(fruitless_looks(wait_for, looks)) == looks * wait_for,
    decreases looks,
{
    if looks > 0 {
        let rest = fruitless_looks(wait_for, (looks - 1) as nat);
        let trace = fruitless_looks(wait_for, looks);
        let pause = trace.drop_first();
        lemma_fruitless_looks_totals(wait_for, (looks - 1) as nat);
        assert(trace[0] == Request::EnumerateWindows);
        assert(pause[0] == Request::Sleep { millis: wait_for });
        assert(pause.drop_first() =~= rest);
        assert(lookups(pause) == lookups(rest));
        assert(lookups(trace) == lookups(pause) + 1);
        assert(slept(pause) == slept(rest) + wait_for);
        assert(slept(trace) == slept(pause));
        assert(looks * wait_for == (looks - 1) * wait_for + wait_for) by (nonlinear_arith);
    } else {
        assert(fruitless_looks(wait_for, looks).len() == 0);
        assert(looks * wait_for == 0) by (nonlinear_arith)
            requires
                looks == 0,
        ;
    }
}

/// Whether the reply is a snapshot in which the selection finds no window.
pub open spec fn shows_no_match(s: Selection, reply: Reply) -> bool {
    reply matches Reply::Windows(windows) && spec_resolve(
        s.selector,
        s.process_id,
        windows@,
    ).spec_is_null()
}

/// Whether the replies answer every look with a snapshot in which the
/// selection finds no window. The replies at odd positions answer the
/// pauses, and may be any.
pub open spec fn finds_nothing(s: Selection, replies: Seq<Reply>) -> bool {
    forall|k: int|
        0 <= k < replies.len() && k % 2 == 0 ==> shows_no_match(s, #[trigger] replies[k])
}

/// A selection whose looks all find nothing takes as many looks as it has
/// left, pauses after each, and then fails with `WindowNotFound`.
pub proof fn lemma_fruitless_selection(s: Selection, replies: Seq<Reply>)
    requires
        replies.len() == 2 * s.attempts_left,
        finds_nothing(s, replies),
    ensures
        feed(s.spec_poll().0, s.spec_poll().1, replies) == (
            Step::<Result<(), EngineError>>::Done(Err(EngineError::WindowNotFound)),
            fruitless_looks(s.wait_for, s.attempts_left as nat),
        ),
    decreases s.attempts_left,
{
    if s.attempts_left > 0 {
        let looking = s.spec_poll().0;
        let sleeping = looking.after(replies[0]).0;
        let next = Selection { attempts_left: (s.attempts_left - 1) as u64, ..sleeping };
        let rest = replies.drop_first().drop_first();
        assert(shows_no_match(s, replies[0]));
        assert(looking.after(replies[0]).1 == Step::<Result<(), EngineError>>::Call(
            Request::Sleep { millis: s.wait_for },
        ));
        assert(sleeping.after(replies[1]) == next.spec_poll());
        assert(replies.drop_first()[0] == replies[1]);
        assert forall|k: int| 0 <= k < rest.len() && k % 2 == 0 implies shows_no_match(
            next,
            #[trigger] rest[k],
        ) by {
            assert(rest[k] == replies[k + 2]);
            assert(shows_no_match(s, replies[k + 2]));
        }
        lemma_fruitless_selection(next, rest);
        let tail = feed(next.spec_poll().0, next.spec_poll().1, rest);
        let middle = feed(sleeping, looking.after(replies[0]).1, replies.drop_first());
        assert(middle.1 == seq![Request::Sleep { millis: s.wait_for }] + tail.1);
        assert(seq![Request::EnumerateWindows] + middle.1 =~= fruitless_looks(
            s.wait_for,
            s.attempts_left as nat,
        ));
    }
}

/// Adding a window by a title that no window ever carries asks for a
/// snapshot `attempts` times, pauses `wait_for` milliseconds after each, and
/// then fails with `WindowNotFound`.
pub proof fn lemma_unmatched_title_times_out(
    worker: WindowHandle,
    selector: WindowSelector,
    properties: WallpaperProperties,
    wait_for: u64,
    attempts: u64,
    replies: Seq<Reply>,
)
    requires
        selector is WindowTitle,
        replies.len() == 2 * attempts,
        finds_nothing(
            spec_add_window(worker, false, selector, properties, wait_for, attempts).0,
            replies,
        ),
    ensures
        ({
            let start = spec_add_window(worker, false, selector, properties, wait_for, attempts);
            let end = feed(start.0, start.1, replies);
            &&& end.0 == Step::<Result<(), EngineError>>::Done(Err(EngineError::WindowNotFound))
            &&& end.1 == fruitless_looks(wait_for, attempts as nat)
            &&& lookups(end.1) == attempts
            &&& slept(end.1) == attempts * wait_for
        }),
{
    let start = spec_add_window(worker, false, selector, properties, wait_for, attempts);
    lemma_fruitless_selection(start.0, replies);
    lemma_fruitless_looks_totals(wait_for, attempts as nat);
    assert(start.0.spec_poll() == start);
}

/// Whether the reply is a snapshot in which the shell root `progman` has no
/// child that encloses the icon view.
pub open spec fn shows_no_anchor(progman: WindowHandle, reply: Reply) -> bool {
    reply matches Reply::Windows(windows) && first_handle(
        windows@,
        anchor_under(windows@, progman),
    ).spec_is_null()
}

/// The requests of a search for the anchor that no strategy ends: a look,
/// the two directives of the second strategy and a look, the directive of
/// the third and a last look.
pub open spec fn every_strategy(progman: WindowHandle) -> Seq<Request> {
    seq![
        Request::EnumerateDescendants { of: progman },
        Request::SendMessage { to: progman, message: SPAWN_WORKER_MESSAGE, wparam: 0xD, lparam: 0 },
        Request::SendMessage { to: progman, message: SPAWN_WORKER_MESSAGE, wparam: 0xD, lparam: 1 },
        Request::EnumerateDescendants { of: progman },
        Request::SendMessage { to: progman, message: SPAWN_WORKER_MESSAGE, wparam: 0, lparam: 0 },
        Request::EnumerateDescendants { of: progman },
    ]
}

/// A search for the anchor whose looks all find none tries its three
/// strategies in order, once each, and then fails with
/// `UnableToSpawnWorker`.
pub proof fn lemma_worker_search_gives_up(progman: WindowHandle, replies: Seq<Reply>)
    requires
        replies.len() == 6,
        shows_no_anchor(progman, replies[0]),
        shows_no_anchor(progman, replies[3]),
        shows_no_anchor(progman, replies[5]),
    ensures
        feed(
            spec_find_or_spawn_worker(progman).0,
            spec_find_or_spawn_worker(progman).1,
            replies,
        ) == (
            Step::<Result<WindowHandle, EngineError>>::Done(
                Err(EngineError::UnableToSpawnWorker),
            ),
            every_strategy(progman),
        ),
{
    let t0 = spec_find_or_spawn_worker(progman).0;
    let s0 = spec_find_or_spawn_worker(progman).1;
    let (t1, s1) = t0.after(replies[0]);
    let (t2, s2) = t1.after(replies[1]);
    let (t3, s3) = t2.after(replies[2]);
    let (t4, s4) = t3.after(replies[3]);
    let (t5, s5) = t4.after(replies[4]);
    let (t6, s6) = t5.after(replies[5]);
    let r1 = replies.drop_first();
    let r2 = r1.drop_first();
    let r3 = r2.drop_first();
    let r4 = r3.drop_first();
    let r5 = r4.drop_first();
    let r6 = r5.drop_first();
    assert(r1[0] == replies[1] && r2[0] == replies[2] && r3[0] == replies[3] && r4[0]
        == replies[4] && r5[0] == replies[5]);
    assert(feed(t6, s6, r6).1 =~= Seq::<Request>::empty());
    assert(feed(t5, s5, r5).1 =~= every_strategy(progman).subrange(5, 6));
    assert(feed(t4, s4, r4).1 =~= every_strategy(progman).subrange(4, 6));
    assert(feed(t3, s3, r3).1 =~= every_strategy(progman).subrange(3, 6));
    assert(feed(t2, s2, r2).1 =~= every_strategy(progman).subrange(2, 6));
    assert(feed(t1, s1, r1).1 =~= every_strategy(progman).subrange(1, 6));
    assert(feed(t0, s0, replies).1 =~= every_strategy(progman));
}

} // verus!
