//! The sliding-window rate limiter: admission control per (session,
//! actor) key.
//!
//! Each key owns the timestamps of its recent admitted requests. On
//! every check the entries older than the window are pruned; the
//! request is admitted — and its timestamp recorded — exactly when
//! fewer than the configured maximum remain. A denied request records
//! nothing. Every check takes the current time as an argument, so the
//! admission logic is verified for every possible clock reading.

use vstd::prelude::*;

verus! {

/// The recent admitted-request timestamps of one (session, actor) key.
#[derive(Debug)]
pub struct RateWindow {
    pub session_id: u64,
    pub actor: String,
    pub timestamps: Vec<u64>,
}

/// The per-key windows and the fixed admission policy: at most
/// `max_requests` admitted requests per `window_seconds` trailing
/// seconds.
#[derive(Debug)]
pub struct RateLimiter {
    pub windows: Vec<RateWindow>,
    pub window_seconds: u64,
    pub max_requests: usize,
}

/// A timestamp still counts at `now`: its age is at most the window.
pub open spec fn in_window(t: u64, now: u64, window_seconds: u64) -> bool {
    now - t <= window_seconds
}

/// The timestamps that still count at `now`, in order.
pub open spec fn pruned(ts: Seq<u64>, now: u64, window_seconds: u64) -> Seq<u64> {
    ts.filter(|t: u64| in_window(t, now, window_seconds))
}

/// Position `i` holds the window of key (`sid`, `actor`).
pub open spec fn window_key_at(ws: Seq<RateWindow>, sid: u64, actor: Seq<char>, i: int) -> bool {
    0 <= i < ws.len() && ws[i].session_id == sid && ws[i].actor@ == actor
}

/// Some window belongs to key (`sid`, `actor`).
pub open spec fn has_window(ws: Seq<RateWindow>, sid: u64, actor: Seq<char>) -> bool {
    exists|i: int| window_key_at(ws, sid, actor, i)
}

/// The limiter invariant: one window per key.
pub open spec fn limiter_wf(l: RateLimiter) -> bool {
    forall|i: int, j: int| 0 <= i < j < l.windows@.len() ==> !(l.windows@[i].session_id
        == l.windows@[j].session_id && l.windows@[i].actor@ == l.windows@[j].actor@)
}

impl RateLimiter {
    /// A limiter with no history under the given policy.
    pub fn new(window_seconds: u64, max_requests: usize) -> (l: RateLimiter)
        ensures
            limiter_wf(l),
            l.windows@.len() == 0,
            l.window_seconds == window_seconds,
            l.max_requests == max_requests,
    {
        RateLimiter { windows: Vec::new(), window_seconds, max_requests }
    }

    /// The position of the window of key (`sid`, `actor`), if any.
    fn window_index(&self, sid: u64, actor: &String) -> (r: Option<usize>)
        ensures
            match r {
                Some(i) => window_key_at(self.windows@, sid, actor@, i as int),
                None => !has_window(self.windows@, sid, actor@),
            },
    {
        let mut i: usize = 0;
        while i < self.windows.len()
            invariant
                i <= self.windows@.len(),
                forall|j: int| 0 <= j < i ==> !((#[trigger] self.windows@[j].session_id) == sid
                    && self.windows@[j].actor@ == actor@),
            decreases self.windows@.len() - i,
        {
            if self.windows[i].session_id == sid && self.windows[i].actor == *actor {
                return Some(i);
            }
            i = i + 1;
        }
        None
    }

    /// One sliding-window admission check for the key (`session_id`,
    /// `actor`) at time `now`. The key's stale timestamps are pruned
    /// first; the request is admitted exactly when fewer than
    /// `max_requests` remain, and only an admitted request records its
    /// timestamp. A key without history counts as empty.
    pub fn allow(&mut self, session_id: u64, actor: &String, now: u64) -> (allowed: bool)
        requires
            limiter_wf(*old(self)),
        ensures
            limiter_wf(*final(self)),
            final(self).window_seconds == old(self).window_seconds,
            final(self).max_requests == old(self).max_requests,
            !has_window(old(self).windows@, session_id, actor@) ==> ({
                &&& allowed == (old(self).max_requests > 0)
                &&& allowed ==> final(self).windows@.len() == old(self).windows@.len() + 1
                    && (forall|j: int| 0 <= j < old(self).windows@.len()
                    ==> final(self).windows@[j] == old(self).windows@[j]) && ({
                    let w = final(self).windows@.last();
                    &&& w.session_id == session_id
                    &&& w.actor@ == actor@
                    &&& w.timestamps@ =~= seq![now]
                })
                &&& !allowed ==> *final(self) == *old(self)
            }),
            forall|i: int| window_key_at(old(self).windows@, session_id, actor@, i) ==> ({
                let p = pruned(old(self).windows@[i].timestamps@, now, old(self).window_seconds);
                &&& allowed == (p.len() < old(self).max_requests)
                &&& final(self).windows@.len() == old(self).windows@.len()
                &&& (forall|j: int| 0 <= j < old(self).windows@.len() && j != i
                    ==> final(self).windows@[j] == old(self).windows@[j])
                &&& final(self).windows@[i].session_id == old(self).windows@[i].session_id
                &&& final(self).windows@[i].actor == old(self).windows@[i].actor
                &&& final(self).windows@[i].timestamps@ == (if allowed {
                    p.push(now)
                } else {
                    p
                })
            }),
    {
        let i = match self.window_index(session_id, actor) {
            None => {
                if self.max_requests > 0 {
                    let w = RateWindow {
                        session_id,
                        actor: actor.clone(),
                        timestamps: vec![now],
                    };
                    let ghost ws0 = self.windows@;
                    self.windows.push(w);
                    proof {
                        assert forall|a: int, b: int| 0 <= a < b < self.windows@.len()
                            implies !(self.windows@[a].session_id == self.windows@[b].session_id
                            && self.windows@[a].actor@ == self.windows@[b].actor@) by {
                            assert(self.windows@[a] == ws0[a]);
                            if b < ws0.len() {
                                assert(self.windows@[b] == ws0[b]);
                            } else {
                                assert(!window_key_at(ws0, session_id, actor@, a));
                            }
                        }
                    }
                    return true;
                } else {
                    return false;
                }
            },
            Some(i) => i,
        };
        let ghost ws0 = self.windows@;
        let window_seconds = self.window_seconds;
        let max_requests = self.max_requests;
        let allowed: bool;
        {
            let w = vstd::std_specs::vec::vec_index_mut(&mut self.windows, i);
            let ghost ts0 = w.timestamps@;
            proof {
                reveal(Seq::<_>::filter);
                assert(pruned(ts0.take(0), now, window_seconds) =~= Seq::<u64>::empty());
            }
            let n = w.timestamps.len();
            let mut kept: Vec<u64> = Vec::new();
            let mut k: usize = 0;
            while k < n
                invariant
                    n == ts0.len(),
                    w.timestamps@ == ts0,
                    k <= n,
                    kept@ == pruned(ts0.take(k as int), now, window_seconds),
                decreases n - k,
            {
                proof {
                    reveal(Seq::<_>::filter);
                    assert(ts0.take(k + 1).drop_last() =~= ts0.take(k as int));
                    assert(ts0.take(k + 1).last() == ts0[k as int]);
                }
                let t = w.timestamps[k];
                if t > now || now - t <= window_seconds {
                    kept.push(t);
                }
                proof {
                    assert(kept@ =~= pruned(ts0.take(k + 1), now, window_seconds));
                }
                k = k + 1;
            }
            proof {
                assert(ts0.take(n as int) =~= ts0);
            }
            allowed = kept.len() < max_requests;
            if allowed {
                kept.push(now);
            }
            w.timestamps = kept;
        }
        proof {
            assert forall|a: int, b: int| 0 <= a < b < self.windows@.len()
                implies !(self.windows@[a].session_id == self.windows@[b].session_id
                && self.windows@[a].actor@ == self.windows@[b].actor@) by {
                assert(self.windows@[a].session_id == ws0[a].session_id && self.windows@[a].actor
                    == ws0[a].actor);
                assert(self.windows@[b].session_id == ws0[b].session_id && self.windows@[b].actor
                    == ws0[b].actor);
            }
        }
        allowed
    }
}

} // verus!
