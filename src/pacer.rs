//! Pacing an animation by elapsed time: a frame advances once its interval has
//! passed since the last advance.
use vstd::prelude::*;

verus! {

pub struct FramePacer {
    interval_ms: u64,
    last_ms: u64,
}

impl FramePacer {
    pub closed spec fn interval(&self) -> nat {
        self.interval_ms as nat
    }

    pub closed spec fn last(&self) -> nat {
        self.last_ms as nat
    }

    /// A pacer whose last advance was at `now_ms`.
    pub fn new(interval_ms: u64, now_ms: u64) -> (r: FramePacer)
        ensures
            r.interval() == interval_ms,
            r.last() == now_ms,
    {
        FramePacer { interval_ms, last_ms: now_ms }
    }

    /// Whether the animation advances at `now_ms`; if so, that becomes the last
    /// advance. A clock that went backwards counts as no time elapsed.
    pub fn advance(&mut self, now_ms: u64) -> (r: bool)
        ensures
            final(self).interval() == old(self).interval(),
            r == (now_ms >= old(self).last() && now_ms - old(self).last() >= old(self).interval()),
            final(self).last() == if r {
                now_ms as nat
            } else {
                old(self).last()
            },
    {
        if now_ms >= self.last_ms && now_ms - self.last_ms >= self.interval_ms {
            self.last_ms = now_ms;
            true
        } else {
            false
        }
    }
}

} // verus!
