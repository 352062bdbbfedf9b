use vstd::prelude::*;
use vstd::arithmetic::div_mod::{lemma_div_minus_one, lemma_div_is_ordered, lemma_div_by_self};

verus! {

/// What the caller of a readiness poll does next.
#[derive(Clone, Copy, Debug, PartialEq, Eq, Structural)]
pub enum PollDecision {
    /// The predicate holds: act on the element.
    Ready,
    /// Sleep this many milliseconds, then check the predicate again.
    Wait(u64),
    /// The bound has elapsed without the predicate holding.
    TimedOut,
}

/// A bounded wait for a readiness predicate: it checks at a fixed interval
/// and gives up once the bound has elapsed.
#[derive(Clone, Copy, Debug)]
pub struct Poller {
    timeout_ms: u64,
    interval_ms: u64,
    elapsed_ms: u64,
}

/// Default bound on a wait, in milliseconds.
pub const DEFAULT_TIMEOUT_MS: u64 = 20000;

/// Default interval between two checks, in milliseconds.
pub const DEFAULT_INTERVAL_MS: u64 = 500;

impl Poller {
    pub closed spec fn timeout(&self) -> nat {
        self.timeout_ms as nat
    }

    pub closed spec fn interval(&self) -> nat {
        self.interval_ms as nat
    }

    /// Time spent waiting so far.
    pub closed spec fn elapsed(&self) -> nat {
        self.elapsed_ms as nat
    }

    /// The interval is positive and the time waited never exceeds the bound.
    pub open spec fn wf(&self) -> bool {
        self.interval() > 0 && self.elapsed() <= self.timeout()
    }

    /// How many more waits the poller may still ask for.
    pub open spec fn waits_left(&self) -> nat {
        ((self.timeout() - self.elapsed() + self.interval() - 1) / (self.interval() as int)) as nat
    }

    /// A poller that has not waited yet; `None` when the interval is zero.
    pub fn new(timeout_ms: u64, interval_ms: u64) -> (r: Option<Poller>)
        ensures
            interval_ms == 0 <==> r is None,
            r matches Some(p) ==> p.wf() && p.timeout() == timeout_ms && p.interval() == interval_ms
                && p.elapsed() == 0,
    {
        if interval_ms == 0 {
            None
        } else {
            Some(Poller { timeout_ms, interval_ms, elapsed_ms: 0 })
        }
    }

    /// A poller with the default bound of twenty seconds, checking every half second.
    pub fn with_defaults() -> (r: Poller)
        ensures
            r.wf(),
            r.timeout() == 20000,
            r.interval() == 500,
            r.elapsed() == 0,
    {
        Poller { timeout_ms: DEFAULT_TIMEOUT_MS, interval_ms: DEFAULT_INTERVAL_MS, elapsed_ms: 0 }
    }

    /// Decides what follows a check of the predicate that found `ready`.
    pub fn observe(&mut self, ready: bool) -> (r: PollDecision)
        requires
            old(self).wf(),
        ensures
            final(self).wf(),
            final(self).timeout() == old(self).timeout(),
            final(self).interval() == old(self).interval(),
            ready ==> r == PollDecision::Ready && final(self).elapsed() == old(self).elapsed(),
            !ready && old(self).elapsed() >= old(self).timeout() ==> r == PollDecision::TimedOut
                && final(self).elapsed() == old(self).elapsed(),
            !ready && old(self).elapsed() < old(self).timeout() ==> {
                let d = if old(self).interval() <= old(self).timeout() - old(self).elapsed() {
                    old(self).interval()
                } else {
                    (old(self).timeout() - old(self).elapsed()) as nat
                };
                &&& r == PollDecision::Wait(d as u64)
                &&& final(self).elapsed() == old(self).elapsed() + d
            },
    {
        if ready {
            PollDecision::Ready
        } else if self.elapsed_ms >= self.timeout_ms {
            PollDecision::TimedOut
        } else {
            let remaining = self.timeout_ms - self.elapsed_ms;
            let d = if self.interval_ms <= remaining {
                self.interval_ms
            } else {
                remaining
            };
            self.elapsed_ms = self.elapsed_ms + d;
            PollDecision::Wait(d)
        }
    }
}

/// Every wait uses up part of the bound: the number of waits left strictly
/// shrinks, so a poll ends after at most `ceil(timeout / interval)` waits.
pub proof fn lemma_wait_shrinks_budget(before: Poller, after: Poller, d: nat)
    requires
        before.wf(),
        after.timeout() == before.timeout(),
        after.interval() == before.interval(),
        before.elapsed() < before.timeout(),
        d == (if before.interval() <= before.timeout() - before.elapsed() {
            before.interval()
        } else {
            (before.timeout() - before.elapsed()) as nat
        }),
        after.elapsed() == before.elapsed() + d,
    ensures
        after.wf(),
        after.waits_left() < before.waits_left(),
{
    let i = before.interval() as int;
    let rem = before.timeout() - before.elapsed();
    let x = rem + i - 1;
    lemma_div_by_self(i);
    lemma_div_is_ordered(i, x, i);
    if i <= rem {
        lemma_div_minus_one(x, i);
        assert(after.timeout() - after.elapsed() + i - 1 == -i + x);
    } else {
        assert(after.timeout() - after.elapsed() == 0);
        lemma_div_is_ordered(0, i - 1, i);
        assert((i - 1) / i == 0) by {
            vstd::arithmetic::div_mod::lemma_basic_div(i - 1, i);
        }
    }
}

} // verus!
