//! The decisions of the playback loop: when a tick ends, how long to sleep,
//! and which frame comes next. Times are nanoseconds on a monotonic clock.
use vstd::prelude::*;

verus! {

/// Milliseconds between the starts of two ticks: thirty ticks a second.
pub const FRAME_INTERVAL_MS: u64 = 1000 / 30;

/// Nanoseconds between the starts of two ticks.
pub const FRAME_INTERVAL_NS: u64 = FRAME_INTERVAL_MS * 1_000_000;

/// How long to sleep at `now` in a tick that started at `start`: up to the
/// tick's deadline, or not at all once the deadline has passed.
pub open spec fn sleep_for(start: int, now: int) -> int {
    if now < start + FRAME_INTERVAL_NS {
        start + FRAME_INTERVAL_NS - now
    } else {
        0
    }
}

/// What the loop does at the end of a tick.
#[derive(Debug, PartialEq, Eq)]
pub enum Tick<R> {
    /// The callback is done: the loop returns its value.
    Stop(R),
    /// The loop sleeps this many nanoseconds, then starts the next tick.
    Sleep(u64),
}

/// The sleep at `now` in a tick that started at `tick_start`.
pub fn sleep_after(tick_start: u64, now: u64) -> (r: u64)
    requires
        tick_start <= now,
    ensures
        r == sleep_for(tick_start as int, now as int),
        r <= FRAME_INTERVAL_NS,
{
    let elapsed = now - tick_start;
    if elapsed < FRAME_INTERVAL_NS {
        FRAME_INTERVAL_NS - elapsed
    } else {
        0
    }
}

/// Ends a tick whose callback returned `outcome` at `now`: a value stops the
/// loop with that value, nothing sleeps out the rest of the interval.
pub fn end_of_tick<R>(outcome: Option<R>, tick_start: u64, now: u64) -> (r: Tick<R>)
    requires
        tick_start <= now,
    ensures
        r == tick_spec(outcome, tick_start, now),
{
    match outcome {
        Some(v) => Tick::Stop(v),
        None => Tick::Sleep(sleep_after(tick_start, now)),
    }
}

/// The frame after frame `i` of `n`, back to the first after the last.
pub fn next_frame(i: usize, n: usize) -> (r: usize)
    requires
        i < n,
    ensures
        r == (i + 1) % (n as int),
        r < n,
{
    if i + 1 == n {
        proof {
            vstd::arithmetic::div_mod::lemma_mod_self_0(n as int);
        }
        0
    } else {
        proof {
            vstd::arithmetic::div_mod::lemma_small_mod((i + 1) as nat, n as nat);
        }
        i + 1
    }
}

/// Rate limit: where every tick starts when the previous one ended plus the
/// sleep that `sleep_for` gives, tick `k` starts at least `k` intervals after
/// the first, however long the callbacks took.
pub proof fn lemma_paced(starts: Seq<int>, ends: Seq<int>)
    requires
        starts.len() == ends.len() + 1,
        forall|i: int| 0 <= i < ends.len() ==> starts[i] <= #[trigger] ends[i],
        forall|i: int|
            0 <= i < ends.len() ==> #[trigger] starts[i + 1] == ends[i] + sleep_for(
                starts[i],
                ends[i],
            ),
    ensures
        forall|k: int|
            0 <= k < starts.len() ==> #[trigger] starts[k] >= starts[0] + k * FRAME_INTERVAL_NS,
{
    assert forall|k: int| 0 <= k < starts.len() implies #[trigger] starts[k] >= starts[0] + k
        * FRAME_INTERVAL_NS by {
        lemma_paced_upto(starts, ends, k);
    }
}

proof fn lemma_paced_upto(starts: Seq<int>, ends: Seq<int>, k: int)
    requires
        starts.len() == ends.len() + 1,
        0 <= k < starts.len(),
        forall|i: int| 0 <= i < ends.len() ==> starts[i] <= #[trigger] ends[i],
        forall|i: int|
            0 <= i < ends.len() ==> #[trigger] starts[i + 1] == ends[i] + sleep_for(
                starts[i],
                ends[i],
            ),
    ensures
        starts[k] >= starts[0] + k * FRAME_INTERVAL_NS,
    decreases k,
{
    if k > 0 {
        lemma_paced_upto(starts, ends, k - 1);
        let j = k - 1;
        assert(starts[j] <= ends[j]);
        assert(starts[j + 1] == ends[j] + sleep_for(starts[j], ends[j]));
        assert(starts[k] >= starts[k - 1] + FRAME_INTERVAL_NS);
        assert(k * FRAME_INTERVAL_NS == (k - 1) * FRAME_INTERVAL_NS + FRAME_INTERVAL_NS) by (
        nonlinear_arith);
    }
}

/// The loop stops at the first tick whose callback returns a value: every
/// earlier tick sleeps and goes on.
pub proof fn lemma_stops_at_first<R>(outcomes: Seq<Option<R>>, first: int)
    requires
        0 <= first < outcomes.len(),
        outcomes[first] is Some,
        forall|i: int| 0 <= i < first ==> #[trigger] outcomes[i] is None,
    ensures
        forall|i: int, s: u64, t: u64|
            0 <= i < first && s <= t ==> !(#[trigger] tick_spec(outcomes[i], s, t) is Stop),
        forall|s: u64, t: u64|
            s <= t ==> #[trigger] tick_spec(outcomes[first], s, t) == Tick::Stop(
                outcomes[first]->0,
            ),
{
}

/// What `end_of_tick` returns.
pub open spec fn tick_spec<R>(outcome: Option<R>, tick_start: u64, now: u64) -> Tick<R> {
    match outcome {
        Some(v) => Tick::Stop(v),
        None => Tick::Sleep(sleep_for(tick_start as int, now as int) as u64),
    }
}

} // verus!
