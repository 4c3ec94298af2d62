//! Minimum-interval rate limiting over a caller-supplied monotonic clock.
//!
//! Instants are nanoseconds on a clock whose origin the caller chooses. The
//! limiter never reads a clock itself: every operation is told what time it
//! is.

use vstd::prelude::*;

verus! {

/// Outcome of one admission request.
#[derive(Clone, Copy, Debug, PartialEq, Eq, Structural)]
pub enum Admission {
    Admitted,
    Denied,
}

/// Time that has passed between `last` and `now`; zero if the clock reads
/// earlier than `last`.
pub open spec fn elapsed(last: int, now: int) -> int {
    if now >= last {
        now - last
    } else {
        0
    }
}

/// Whether the clock readings in `times` never go backwards.
pub open spec fn non_decreasing(times: Seq<int>) -> bool {
    forall|i: int, j: int| 0 <= i <= j < times.len() ==> times[i] <= times[j]
}

/// The admission window: the instant of the last admitted request and the
/// minimum interval that has to pass before the next one. The time elapsed
/// since that instant is the only thing that admission depends on.
pub struct Window {
    pub last_instant: int,
    pub min_interval: int,
}

impl Window {
    /// The window of a limiter made at `now`: it stands open.
    pub open spec fn opened_at(now: int, min_interval: int) -> Window {
        Window { last_instant: now - min_interval, min_interval }
    }

    /// Whether a request made at `now` is admitted.
    pub open spec fn permits(self, now: int) -> bool {
        elapsed(self.last_instant, now) >= self.min_interval
    }

    /// The answer to a request made at `now`.
    pub open spec fn decide(self, now: int) -> Admission {
        if self.permits(now) {
            Admission::Admitted
        } else {
            Admission::Denied
        }
    }

    /// The window after a request made at `now`: an admitted request moves
    /// the window to `now`, a denied one leaves it as it was.
    pub open spec fn after(self, now: int) -> Window {
        if self.permits(now) {
            Window { last_instant: now, ..self }
        } else {
            self
        }
    }

    /// The window after one request at each of `times`, first to last.
    pub open spec fn after_all(self, times: Seq<int>) -> Window
        decreases times.len(),
    {
        if times.len() == 0 {
            self
        } else {
            self.after_all(times.drop_last()).after(times.last())
        }
    }

    /// Whether, of one request at each of `times`, the one at index `i` is
    /// admitted.
    pub open spec fn admits_nth(self, times: Seq<int>, i: int) -> bool {
        self.after_all(times.take(i)).permits(times[i])
    }
}

/// A rate limiter that admits one request per minimum interval.
pub struct RateLimiter {
    last_instant: i128,
    min_interval: u64,
}

impl View for RateLimiter {
    type V = Window;

    closed spec fn view(&self) -> Window {
        Window { last_instant: self.last_instant as int, min_interval: self.min_interval as int }
    }
}

impl RateLimiter {
    #[verifier::type_invariant]
    spec fn in_range(self) -> bool {
        -(u64::MAX as int) <= self.last_instant <= u64::MAX as int
    }

    /// A limiter whose window stands open at `now`, so that the very first
    /// request is admitted at once.
    pub fn new(now: u64, min_interval: u64) -> (limiter: RateLimiter)
        ensures
            limiter@ == Window::opened_at(now as int, min_interval as int),
    {
        RateLimiter { last_instant: now as i128 - min_interval as i128, min_interval }
    }

    /// The minimum interval between two admitted requests.
    pub fn min_interval(&self) -> (interval: u64)
        ensures
            interval == self@.min_interval,
    {
        self.min_interval
    }

    /// Asks for admission at `now`. The check and the update of the window
    /// are one step on a limiter that the caller holds exclusively.
    pub fn try_admit(&mut self, now: u64) -> (admission: Admission)
        ensures
            admission == old(self)@.decide(now as int),
            final(self)@ == old(self)@.after(now as int),
    {
        proof {
            use_type_invariant(&*self);
        }
        let now_wide: i128 = now as i128;
        let since: i128 = if now_wide >= self.last_instant {
            now_wide - self.last_instant
        } else {
            0
        };
        if since >= self.min_interval as i128 {
            self.last_instant = now_wide;
            Admission::Admitted
        } else {
            Admission::Denied
        }
    }
}

/// A limiter admits the first request made at or after its construction,
/// and denies every request that follows before the minimum interval has
/// passed since that first one.
pub proof fn lemma_first_admitted_then_denied(now: int, min_interval: int, times: Seq<int>)
    requires
        0 <= min_interval,
        0 < times.len(),
        now <= times[0],
        forall|i: int|
            0 < i < times.len() ==> times[0] <= #[trigger] times[i] < times[0] + min_interval,
    ensures
        Window::opened_at(now, min_interval).admits_nth(times, 0),
        forall|i: int|
            0 < i < times.len() ==> !Window::opened_at(now, min_interval).admits_nth(times, i),
{
    let window = Window::opened_at(now, min_interval);
    assert(times.take(0) =~= Seq::<int>::empty());
    assert forall|i: int| 0 < i < times.len() implies !window.admits_nth(times, i) by {
        lemma_window_stays(window, times, i);
    }
}

/// After the first request was admitted, the window stays at its instant
/// for as long as the requests fall within the minimum interval.
proof fn lemma_window_stays(window: Window, times: Seq<int>, n: int)
    requires
        0 <= window.min_interval,
        0 < n <= times.len(),
        window.permits(times[0]),
        forall|i: int|
            0 < i < times.len() ==> times[0] <= #[trigger] times[i] < times[0]
                + window.min_interval,
    ensures
        window.after_all(times.take(n)) == (Window { last_instant: times[0], ..window }),
    decreases n,
{
    let prefix = times.take(n);
    assert(prefix.drop_last() =~= times.take(n - 1));
    assert(prefix.last() == times[n - 1]);
    if n == 1 {
        assert(times.take(0) =~= Seq::<int>::empty());
        assert(window.after_all(times.take(0)) == window);
    } else {
        lemma_window_stays(window, times, n - 1);
    }
}

/// Once the minimum interval has passed since the last admitted request,
/// the next request is admitted; a wait of exactly the minimum interval is
/// enough.
pub proof fn lemma_admitted_after_interval(window: Window, now: int)
    requires
        0 <= window.min_interval,
        now >= window.last_instant + window.min_interval,
    ensures
        window.permits(now),
        window.permits(window.last_instant + window.min_interval),
        window.after(now).last_instant == now,
{
}

/// Any two admitted requests are at least the minimum interval apart,
/// however many requests were made and denied around them. This holds of
/// every order in which callers that share one limiter reach it.
pub proof fn lemma_admitted_requests_are_spaced(window: Window, times: Seq<int>, i: int, j: int)
    requires
        0 <= window.min_interval,
        0 < window.min_interval || non_decreasing(times),
        0 <= i < j < times.len(),
        window.admits_nth(times, i),
        window.admits_nth(times, j),
    ensures
        times[j] - times[i] >= window.min_interval,
{
    lemma_window_follows(window, times, i, j);
}

/// After an admitted request, the window never stands earlier than the
/// instant of that request.
proof fn lemma_window_follows(window: Window, times: Seq<int>, i: int, n: int)
    requires
        0 <= window.min_interval,
        0 < window.min_interval || non_decreasing(times),
        0 <= i < n <= times.len(),
        window.admits_nth(times, i),
    ensures
        window.after_all(times.take(n)).last_instant >= times[i],
        window.after_all(times.take(n)).min_interval == window.min_interval,
    decreases n,
{
    let prefix = times.take(n);
    assert(prefix.drop_last() =~= times.take(n - 1));
    assert(prefix.last() == times[n - 1]);
    if n == i + 1 {
        lemma_interval_kept(window, times.take(i));
    } else {
        lemma_window_follows(window, times, i, n - 1);
    }
}

/// Requests never change the minimum interval.
proof fn lemma_interval_kept(window: Window, times: Seq<int>)
    ensures
        window.after_all(times).min_interval == window.min_interval,
    decreases times.len(),
{
    if times.len() > 0 {
        lemma_interval_kept(window, times.drop_last());
    }
}

} // verus!
