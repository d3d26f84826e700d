//! Sliding-window rate limiting: per key (a client address), the limiter
//! keeps the times of the recent requests; a request is allowed while
//! fewer than `max_requests` of them fall inside the window, and distinct
//! keys are limited independently.
//!
//! The limiter is an explicitly constructed component: the caller makes
//! one and passes it around, and hands every check the current time.

use vstd::prelude::*;

verus! {

broadcast use vstd::seq_lib::group_seq_properties;

/// Why a request was refused.
#[derive(Clone, Copy, Debug, PartialEq, Eq, Structural)]
pub enum RateLimitError {
    TooManyRequests { retry_after: u64 },
}

/// The request history of one key.
pub struct KeyHistory {
    pub key: String,
    pub times: Vec<u64>,
}

/// A sliding-window rate limiter: at most `max_requests` requests per
/// `window` seconds for each key.
pub struct RateLimiter {
    pub max_requests: usize,
    pub window: u64,
    pub histories: Vec<KeyHistory>,
}

/// Whether a request made at `t` still falls inside the window ending at
/// `now`.  A time later than `now` counts as inside, as a saturating
/// clock difference would.
pub open spec fn in_window(t: u64, now: u64, window: u64) -> bool {
    if t >= now {
        0 < window
    } else {
        now - t < window
    }
}

/// The request times of `key`, the empty sequence for a key never seen.
pub open spec fn times_of(hs: Seq<KeyHistory>, key: Seq<char>) -> Seq<u64>
    decreases hs.len(),
{
    if hs.len() == 0 {
        Seq::empty()
    } else if hs[0].key@ == key {
        hs[0].times@
    } else {
        times_of(hs.drop_first(), key)
    }
}

/// What one check does to one key's history: prune the times that have
/// left the window, then either refuse (at the limit) or record `now`.
pub open spec fn pruned_times(times: Seq<u64>, now: u64, window: u64) -> Seq<u64> {
    times.filter(|t: u64| in_window(t, now, window))
}

/// Whether a check at `now` accepts, given the key's stored times.
pub open spec fn check_accepts(
    times: Seq<u64>,
    now: u64,
    window: u64,
    max_requests: usize,
) -> bool {
    pruned_times(times, now, window).len() < max_requests
}

/// The key's history after a check at `now`: the pruned times, with `now`
/// appended when the check accepted.
pub open spec fn times_after_check(
    times: Seq<u64>,
    now: u64,
    window: u64,
    max_requests: usize,
) -> Seq<u64> {
    if check_accepts(times, now, window, max_requests) {
        pruned_times(times, now, window).push(now)
    } else {
        pruned_times(times, now, window)
    }
}

impl RateLimiter {
    /// No two histories share a key.
    pub open spec fn wf(self) -> bool {
        forall|i: int, j: int|
            0 <= i < j < self.histories@.len() ==> self.histories@[i].key@
                != self.histories@[j].key@
    }

    /// A fresh limiter: at most `max_requests` requests per `window`
    /// seconds for each key, with no history yet.
    pub fn new(max_requests: usize, window: u64) -> (r: RateLimiter)
        ensures
            r.max_requests == max_requests,
            r.window == window,
            r.histories@.len() == 0,
            r.wf(),
    {
        RateLimiter { max_requests, window, histories: Vec::new() }
    }

    /// Check one request from `key` at time `now` (seconds).  Requests
    /// older than the window are dropped from the key's history; then the
    /// request is refused if the key already has `max_requests` requests
    /// inside the window, and recorded otherwise.  Other keys' histories
    /// are untouched: distinct keys are limited independently.
    #[verifier::loop_isolation(false)]
    pub fn check_rate_limit(&mut self, key: &str, now: u64) -> (r: Result<(), RateLimitError>)
        requires
            old(self).wf(),
        ensures
            final(self).wf(),
            final(self).max_requests == old(self).max_requests,
            final(self).window == old(self).window,
            r == if check_accepts(
                times_of(old(self).histories@, key@),
                now,
                old(self).window,
                old(self).max_requests,
            ) {
                Ok::<(), RateLimitError>(())
            } else {
                Err::<(), RateLimitError>(
                    RateLimitError::TooManyRequests { retry_after: old(self).window },
                )
            },
            times_of(final(self).histories@, key@) == times_after_check(
                times_of(old(self).histories@, key@),
                now,
                old(self).window,
                old(self).max_requests,
            ),
            forall|k2: Seq<char>|
                k2 != key@ ==> times_of(final(self).histories@, k2) == times_of(
                    old(self).histories@,
                    k2,
                ),
    {
        let idx = self.find_or_insert(key);
        let ghost old_times = self.histories@[idx as int].times@;
        let window = self.window;
        let max_requests = self.max_requests;
        let history = &self.histories[idx];
        let mut kept: Vec<u64> = Vec::new();
        let mut i: usize = 0;
        while i < history.times.len()
            invariant
                i <= history.times@.len(),
                kept@ == pruned_times(history.times@.subrange(0, i as int), now, window),
            decreases history.times@.len() - i,
        {
            let t = history.times[i];
            proof {
                assert(history.times@.subrange(0, i + 1 as int) == history.times@.subrange(
                    0,
                    i as int,
                ).push(t));
                lemma_pruned_times_push(
                    history.times@.subrange(0, i as int),
                    t,
                    now,
                    window,
                );
            }
            let keep = if t >= now {
                window > 0
            } else {
                now - t < window
            };
            if keep {
                kept.push(t);
            }
            i = i + 1;
        }
        proof {
            assert(history.times@.subrange(0, history.times@.len() as int) == history.times@);
        }
        let refused = kept.len() >= max_requests;
        if !refused {
            kept.push(now);
        }
        let ghost pre = self.histories@;
        self.histories[idx].times = kept;
        proof {
            assert(self.histories@[idx as int].key == pre[idx as int].key);
            assert forall|k2: Seq<char>| k2 != key@ implies times_of(self.histories@, k2)
                == times_of(pre, k2) by {
                lemma_times_of_update(pre, self.histories@, idx as int, k2);
            }
            lemma_times_of_found(self.histories@, idx as int, key@);
            lemma_times_of_found(pre, idx as int, key@);
        }
        if refused {
            Err(RateLimitError::TooManyRequests { retry_after: window })
        } else {
            Ok(())
        }
    }

    /// The index of `key`'s history, inserting an empty one if the key
    /// has not been seen.
    #[verifier::loop_isolation(false)]
    fn find_or_insert(&mut self, key: &str) -> (idx: usize)
        requires
            old(self).wf(),
        ensures
            final(self).wf(),
            final(self).max_requests == old(self).max_requests,
            final(self).window == old(self).window,
            idx < final(self).histories@.len(),
            final(self).histories@[idx as int].key@ == key@,
            final(self).histories@[idx as int].times@ == times_of(old(self).histories@, key@),
            forall|k2: Seq<char>|
                k2 != key@ ==> times_of(final(self).histories@, k2) == times_of(
                    old(self).histories@,
                    k2,
                ),
            forall|j: int|
                0 <= j < final(self).histories@.len() && j != idx
                    ==> final(self).histories@[j] == old(self).histories@[j],
    {
        let owned = key.to_owned();
        let n = self.histories.len();
        let mut i: usize = 0;
        while i < n
            invariant
                n == self.histories@.len(),
                i <= n,
                forall|j: int| 0 <= j < i ==> self.histories@[j].key@ != key@,
            decreases n - i,
        {
            if self.histories[i].key == owned {
                proof {
                    lemma_times_of_found(self.histories@, i as int, key@);
                }
                return i;
            }
            i = i + 1;
        }
        self.histories.push(KeyHistory { key: owned, times: Vec::new() });
        proof {
            lemma_times_of_found(self.histories@, n as int, key@);
            lemma_times_of_absent(old(self).histories@, key@);
            assert forall|k2: Seq<char>| k2 != key@ implies times_of(self.histories@, k2)
                == times_of(old(self).histories@, k2) by {
                lemma_times_of_push_other(old(self).histories@, self.histories@[n as int], k2);
            }
        }
        n
    }
}

/// `times_of` returns the times at the unique index holding the key.
proof fn lemma_times_of_found(hs: Seq<KeyHistory>, idx: int, key: Seq<char>)
    requires
        0 <= idx < hs.len(),
        hs[idx].key@ == key,
        forall|i: int, j: int| 0 <= i < j < hs.len() ==> hs[i].key@ != hs[j].key@,
    ensures
        times_of(hs, key) == hs[idx].times@,
    decreases hs.len(),
{
    if idx > 0 {
        assert(hs[0].key@ != key);
        lemma_times_of_found(hs.drop_first(), idx - 1, key);
    }
}

/// A key held by no history has the empty sequence of times.
proof fn lemma_times_of_absent(hs: Seq<KeyHistory>, key: Seq<char>)
    requires
        forall|i: int| 0 <= i < hs.len() ==> hs[i].key@ != key,
    ensures
        times_of(hs, key) == Seq::<u64>::empty(),
    decreases hs.len(),
{
    if hs.len() > 0 {
        lemma_times_of_absent(hs.drop_first(), key);
    }
}

/// Appending a history for one key leaves every other key's times alone.
proof fn lemma_times_of_push_other(hs: Seq<KeyHistory>, h: KeyHistory, key: Seq<char>)
    requires
        h.key@ != key,
    ensures
        times_of(hs.push(h), key) == times_of(hs, key),
    decreases hs.len(),
{
    if hs.len() == 0 {
        assert(hs.push(h).drop_first() == Seq::<KeyHistory>::empty());
    } else {
        assert(hs.push(h).drop_first() == hs.drop_first().push(h));
        lemma_times_of_push_other(hs.drop_first(), h, key);
    }
}

/// Updating the history at one index leaves every key held elsewhere
/// alone, provided the keys are distinct and the updated entry keeps its
/// key.
proof fn lemma_times_of_update(pre: Seq<KeyHistory>, post: Seq<KeyHistory>, idx: int, key: Seq<
    char,
>)
    requires
        pre.len() == post.len(),
        0 <= idx < pre.len(),
        post[idx].key@ == pre[idx].key@,
        pre[idx].key@ != key,
        forall|j: int| 0 <= j < pre.len() && j != idx ==> post[j] == pre[j],
    ensures
        times_of(post, key) == times_of(pre, key),
    decreases pre.len(),
{
    if pre.len() > 0 {
        if idx == 0 {
            assert(post.drop_first() == pre.drop_first());
        } else {
            assert(post[0] == pre[0]);
            assert(forall|j: int|
                0 <= j < pre.drop_first().len() && j != idx - 1 ==> pre.drop_first()[j]
                    == post.drop_first()[j]);
            assert(post.drop_first()[idx - 1].key@ == pre.drop_first()[idx - 1].key@);
            lemma_times_of_update(pre.drop_first(), post.drop_first(), idx - 1, key);
        }
    }
}

/// Once a key has made `max_requests` requests inside the window, the
/// next request from that key within the window is refused, and the
/// refusal does not extend its history.
pub proof fn lemma_over_limit_is_refused(times: Seq<u64>, now: u64, window: u64, max_requests:
    usize)
    requires
        times.len() >= max_requests,
        forall|i: int| 0 <= i < times.len() ==> in_window(#[trigger] times[i], now, window),
    ensures
        !check_accepts(times, now, window, max_requests),
        times_after_check(times, now, window, max_requests) == times,
{
    lemma_pruned_times_all_inside(times, now, window);
}

/// An accepted request extends the key's in-window history by exactly
/// one entry, so `max_requests` accepted requests inside one window fill
/// the limit.
pub proof fn lemma_accept_extends_history(times: Seq<u64>, now: u64, window: u64, max_requests:
    usize)
    requires
        check_accepts(times, now, window, max_requests),
    ensures
        times_after_check(times, now, window, max_requests).len() == pruned_times(
            times,
            now,
            window,
        ).len() + 1,
        times_after_check(times, now, window, max_requests).last() == now,
{
}

/// Pruning one more stored time: it survives exactly when it is still in
/// the window.
proof fn lemma_pruned_times_push(s: Seq<u64>, t: u64, now: u64, window: u64)
    ensures
        pruned_times(s.push(t), now, window) == if in_window(t, now, window) {
            pruned_times(s, now, window).push(t)
        } else {
            pruned_times(s, now, window)
        },
{
    reveal(Seq::filter);
    assert(s.push(t).drop_last() == s);
}

/// Pruning drops nothing when every stored time is inside the window.
proof fn lemma_pruned_times_all_inside(s: Seq<u64>, now: u64, window: u64)
    requires
        forall|i: int| 0 <= i < s.len() ==> in_window(#[trigger] s[i], now, window),
    ensures
        pruned_times(s, now, window) == s,
    decreases s.len(),
{
    reveal(Seq::filter);
    if s.len() > 0 {
        lemma_pruned_times_all_inside(s.drop_last(), now, window);
        lemma_pruned_times_push(s.drop_last(), s.last(), now, window);
        assert(s.drop_last().push(s.last()) == s);
    }
}

} // verus!
