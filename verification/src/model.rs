//! The mathematical model of a hybrid logical clock.
//!
//! A timestamp is a pair `(physical_time, logical_counter)` of mathematical
//! integers, ordered lexicographically. The two transitions a clock can make
//! are `advanced` (a local event at wall-clock reading `now`) and `merged`
//! (an inbound message carrying a remote timestamp, at reading `now`). The
//! lemmas below prove the clock's two invariants: every transition strictly
//! increases the timestamp, whatever `now` the wall clock reports, and a
//! merge lands strictly above the remote timestamp it observed.

use vstd::prelude::*;

verus! {

/// Strict lexicographic order on timestamps.
pub open spec fn ts_lt(a: (int, int), b: (int, int)) -> bool {
    a.0 < b.0 || (a.0 == b.0 && a.1 < b.1)
}

/// The timestamp after a local event: if the wall clock has moved past the
/// recorded physical time, adopt it and reset the counter; otherwise (same
/// millisecond, or a wall clock that stepped backward) hold the physical
/// time and increment the counter, so the timestamp never moves backward.
pub open spec fn advanced(ts: (int, int), now: int) -> (int, int) {
    if now > ts.0 {
        (now, 0)
    } else {
        (ts.0, ts.1 + 1)
    }
}

/// The timestamp after observing `remote`: the physical time becomes the
/// maximum of the wall clock, the remote physical time and the local
/// physical time, and the counter is chosen so the result lies strictly
/// above both the prior local timestamp and the remote one.
pub open spec fn merged(local: (int, int), remote: (int, int), now: int) -> (int, int) {
    let p = max_of3(now, remote.0, local.0);
    if p == remote.0 && p == local.0 {
        (p, (if local.1 > remote.1 { local.1 } else { remote.1 }) + 1)
    } else if p == remote.0 {
        (p, remote.1 + 1)
    } else if p == local.0 {
        (p, local.1 + 1)
    } else {
        (p, 0)
    }
}

/// The greatest of three integers.
pub open spec fn max_of3(a: int, b: int, c: int) -> int {
    if a >= b && a >= c {
        a
    } else if b >= c {
        b
    } else {
        c
    }
}

/// One step of a clock's life: a local event or an inbound message, each
/// together with the wall-clock reading observed at that moment.
pub enum Event {
    Local { now: int },
    Inbound { remote: (int, int), now: int },
}

/// The timestamp after one event.
pub open spec fn step(ts: (int, int), e: Event) -> (int, int) {
    match e {
        Event::Local { now } => advanced(ts, now),
        Event::Inbound { remote, now } => merged(ts, remote, now),
    }
}

/// The timestamp after a whole sequence of events, oldest first.
pub open spec fn run(ts: (int, int), es: Seq<Event>) -> (int, int)
    decreases es.len(),
{
    if es.len() == 0 {
        ts
    } else {
        run(step(ts, es[0]), es.subrange(1, es.len() as int))
    }
}

/// Strict lexicographic order is transitive.
pub proof fn lemma_ts_lt_transitive(a: (int, int), b: (int, int), c: (int, int))
    requires
        ts_lt(a, b),
        ts_lt(b, c),
    ensures
        ts_lt(a, c),
{
}

/// A local event strictly increases the timestamp, whatever the wall clock
/// reports — ahead, equal, or behind the recorded physical time.
pub proof fn lemma_advanced_increases(ts: (int, int), now: int)
    ensures
        ts_lt(ts, advanced(ts, now)),
{
}

/// Causality: a merge lands strictly above the remote timestamp it
/// observed, and strictly above the clock's own prior timestamp, whatever
/// the wall clock reports.
pub proof fn lemma_merged_increases(local: (int, int), remote: (int, int), now: int)
    ensures
        ts_lt(local, merged(local, remote, now)),
        ts_lt(remote, merged(local, remote, now)),
{
}

/// Every single event strictly increases the timestamp.
pub proof fn lemma_step_increases(ts: (int, int), e: Event)
    ensures
        ts_lt(ts, step(ts, e)),
{
    match e {
        Event::Local { now } => lemma_advanced_increases(ts, now),
        Event::Inbound { remote, now } => lemma_merged_increases(ts, remote, now),
    }
}

/// A non-empty run of events strictly increases the timestamp.
pub proof fn lemma_run_increases(ts: (int, int), es: Seq<Event>)
    requires
        es.len() > 0,
    ensures
        ts_lt(ts, run(ts, es)),
    decreases es.len(),
{
    let rest = es.subrange(1, es.len() as int);
    lemma_step_increases(ts, es[0]);
    if rest.len() > 0 {
        lemma_run_increases(step(ts, es[0]), rest);
        lemma_ts_lt_transitive(ts, step(ts, es[0]), run(ts, es));
    } else {
        assert(run(step(ts, es[0]), rest) == step(ts, es[0]));
    }
}

/// Splitting a run: running the first `i` events and then the rest reaches
/// the same timestamp as running them all at once.
pub proof fn lemma_run_split(ts: (int, int), es: Seq<Event>, i: int)
    requires
        0 <= i <= es.len(),
    ensures
        run(ts, es) == run(run(ts, es.subrange(0, i)), es.subrange(i, es.len() as int)),
    decreases i,
{
    if i == 0 {
        assert(es.subrange(0, 0) =~= Seq::<Event>::empty());
        assert(es.subrange(0, es.len() as int) =~= es);
    } else {
        let rest = es.subrange(1, es.len() as int);
        lemma_run_split(step(ts, es[0]), rest, i - 1);
        assert(rest.subrange(0, i - 1) =~= es.subrange(0, i).subrange(1, i));
        assert(rest.subrange(i - 1, rest.len() as int) =~= es.subrange(i, es.len() as int));
        assert(run(ts, es.subrange(0, i)) == run(step(ts, es[0]), es.subrange(0, i).subrange(1, i)));
    }
}

/// Monotonicity over a whole history: among the timestamps a clock returns
/// over any sequence of local events and merges, an earlier one is strictly
/// below a later one. `run(ts, es.subrange(0, k + 1))` is the timestamp
/// returned by the `k`-th call.
pub proof fn lemma_history_strictly_increasing(ts: (int, int), es: Seq<Event>, i: int, j: int)
    requires
        0 <= i < j < es.len(),
    ensures
        ts_lt(run(ts, es.subrange(0, i + 1)), run(ts, es.subrange(0, j + 1))),
{
    let upto_i = run(ts, es.subrange(0, i + 1));
    let prefix = es.subrange(0, j + 1);
    lemma_run_split(ts, prefix, i + 1);
    assert(prefix.subrange(0, i + 1) =~= es.subrange(0, i + 1));
    let mid = prefix.subrange(i + 1, prefix.len() as int);
    lemma_run_increases(upto_i, mid);
}

} // verus!
