use vstd::prelude::*;
use crate::types::GatewayError;

verus! {

/// A request is admitted while the window's post-increment count stays within the limit.
pub open spec fn spec_admits(count: int, limit: int) -> bool {
    count <= limit
}

/// Whether a post-increment count opens a fresh window, whose expiry the
/// caller must then set (and only then, so that a slow request never
/// extends an active window).
pub fn window_starts(count: i64) -> (r: bool)
    ensures
        r == (count == 1),
{
    count == 1
}

/// Verdict of the fixed-window limiter on the counter value that the atomic
/// increment returned. The increment is never rolled back, so refused
/// requests count too.
pub fn rate_limit_check(count: i64, limit: u32) -> (r: Result<(), GatewayError>)
    ensures
        match r {
            Ok(_) => spec_admits(count as int, limit as int),
            Err(e) => !spec_admits(count as int, limit as int) && e is RateLimited,
        },
{
    if count > limit as i64 {
        Err(GatewayError::RateLimited)
    } else {
        Ok(())
    }
}

/// A live counter window in the store: its count and the instant it expires.
pub struct Window {
    pub count: int,
    pub expires_at: int,
}

/// The window still counts at `now`.
pub open spec fn window_live(w: Option<Window>, now: int) -> bool {
    match w {
        Some(x) => now < x.expires_at,
        None => false,
    }
}

/// What the atomic increment returns at `now`: an expired or absent counter starts over.
pub open spec fn count_after_incr(w: Option<Window>, now: int) -> int {
    if window_live(w, now) {
        w->Some_0.count + 1
    } else {
        1
    }
}

/// One check at `now`: increment, set the expiry when the window starts, and
/// the verdict on the new count.
pub open spec fn check_once(w: Option<Window>, now: int, limit: int, window: int) -> (Option<Window>, bool) {
    let c = count_after_incr(w, now);
    let expires_at = if c == 1 { now + window } else { w->Some_0.expires_at };
    (Some(Window { count: c, expires_at }), spec_admits(c, limit))
}

/// Checks issued one after another at the given instants; the final window and each verdict.
pub open spec fn run_checks(w: Option<Window>, times: Seq<int>, limit: int, window: int) -> (Option<Window>, Seq<bool>)
    decreases times.len(),
{
    if times.len() == 0 {
        (w, Seq::empty())
    } else {
        let prev = run_checks(w, times.drop_last(), limit, window);
        let step = check_once(prev.0, times.last(), limit, window);
        (step.0, prev.1.push(step.1))
    }
}

proof fn lemma_window_prefix(w: Option<Window>, times: Seq<int>, limit: int, window: int, k: int)
    requires
        window > 0,
        1 <= k <= times.len(),
        !window_live(w, times[0]),
        forall|i: int, j: int| 0 <= i <= j < times.len() ==> times[i] <= times[j],
        times.last() < times[0] + window,
    ensures
        run_checks(w, times.take(k), limit, window).0 == Some(
            Window { count: k, expires_at: times[0] + window },
        ),
        run_checks(w, times.take(k), limit, window).1.len() == k,
        forall|i: int| 0 <= i < k ==> run_checks(w, times.take(k), limit, window).1[i] == (i + 1 <= limit),
    decreases k,
{
    let t = times.take(k);
    assert(t.drop_last() =~= times.take(k - 1));
    if k > 1 {
        lemma_window_prefix(w, times, limit, window, k - 1);
        assert(times[k - 1] <= times.last());
    } else {
        assert(times.take(0) =~= Seq::<int>::empty());
    }
}

/// Fixed window: starting where no window is live, `limit + 1` checks issued
/// in order within `window` seconds of the first are admitted exactly up to
/// the `limit`-th, and the last one is refused; once the window has elapsed,
/// the next increment counts as the first of a new window.
pub proof fn lemma_fixed_window(w: Option<Window>, times: Seq<int>, limit: nat, window: nat, later: int)
    requires
        window > 0,
        times.len() == limit + 1,
        !window_live(w, times[0]),
        forall|i: int, j: int| 0 <= i <= j < times.len() ==> times[i] <= times[j],
        times.last() < times[0] + window,
        later >= times[0] + window,
    ensures
        run_checks(w, times, limit as int, window as int).1.len() == limit + 1,
        forall|i: int| 0 <= i < limit ==> run_checks(w, times, limit as int, window as int).1[i],
        !run_checks(w, times, limit as int, window as int).1[limit as int],
        count_after_incr(run_checks(w, times, limit as int, window as int).0, later) == 1,
{
    lemma_window_prefix(w, times, limit as int, window as int, times.len() as int);
    assert(times.take(times.len() as int) =~= times);
}

} // verus!
