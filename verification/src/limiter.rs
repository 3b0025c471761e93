//! Per-venue request throttling. Two interchangeable strategies: a
//! fixed window whose token budget refills on wall-clock-aligned window
//! boundaries, and a dynamic bucket that trusts the venue's own
//! reported usage while that report is fresh, falling back to the fixed
//! window otherwise. Time enters as epoch milliseconds supplied by the
//! caller.

use vstd::prelude::*;

verus! {

/// A token budget that fully refills once per configured window,
/// aligned to wall-clock window boundaries.
#[derive(Debug, Clone, Copy, PartialEq, Eq, Structural)]
pub struct FixedWindowBucket {
    pub max_tokens: usize,
    pub available_tokens: usize,
    pub last_refill_ms: u64,
    pub refill_rate_ms: u64,
}

impl FixedWindowBucket {
    /// The window length is a whole, bounded number of seconds, and the
    /// available budget never exceeds the maximum.
    pub open spec fn wf(self) -> bool {
        &&& self.available_tokens <= self.max_tokens
        &&& 1000 <= self.refill_rate_ms <= 100_000_000_000
        &&& self.refill_rate_ms % 1000 == 0
    }

    /// The bucket after the refill check at `now_ms`: the budget
    /// returns to the maximum exactly when the wall clock has crossed
    /// into a later aligned window than the one the last refill sat
    /// in — once per window, never within one.
    pub open spec fn refilled(self, now_ms: u64) -> FixedWindowBucket {
        if now_ms / self.refill_rate_ms > self.last_refill_ms / self.refill_rate_ms {
            FixedWindowBucket {
                available_tokens: self.max_tokens,
                last_refill_ms: now_ms,
                ..self
            }
        } else {
            self
        }
    }

    pub fn new(max_tokens: usize, refill_rate_ms: u64, now_ms: u64) -> (r: Self)
        requires
            1000 <= refill_rate_ms <= 100_000_000_000,
            refill_rate_ms % 1000 == 0,
        ensures
            r.wf(),
            r.max_tokens == max_tokens,
            r.available_tokens == max_tokens,
            r.last_refill_ms == now_ms,
            r.refill_rate_ms == refill_rate_ms,
    {
        FixedWindowBucket {
            max_tokens,
            available_tokens: max_tokens,
            last_refill_ms: now_ms,
            refill_rate_ms,
        }
    }

    /// Refill the budget when a window boundary has been crossed.
    pub fn refill(&mut self, now_ms: u64)
        requires
            old(self).wf(),
            now_ms >= old(self).last_refill_ms,
        ensures
            final(self).wf(),
            *final(self) == old(self).refilled(now_ms),
    {
        let window_now: u64 = now_ms / self.refill_rate_ms;
        let window_last: u64 = self.last_refill_ms / self.refill_rate_ms;
        if window_now > window_last {
            self.available_tokens = self.max_tokens;
            self.last_refill_ms = now_ms;
        }
    }

    /// Admit a request of `tokens` at once when the budget allows,
    /// deducting it; otherwise leave the budget alone and return the
    /// time left in the current aligned window, which is positive and
    /// never more than the window itself.
    pub fn calculate_wait_time(&mut self, tokens: usize, now_ms: u64) -> (r: Option<u64>)
        requires
            old(self).wf(),
            now_ms >= old(self).last_refill_ms,
        ensures
            final(self).wf(),
            ({
                let b = old(self).refilled(now_ms);
                &&& (r is None <==> b.available_tokens >= tokens)
                &&& (r is None ==> *final(self) == FixedWindowBucket {
                    available_tokens: (b.available_tokens - tokens) as usize,
                    ..b
                })
                &&& (r is Some ==> *final(self) == b && r->0 == b.refill_rate_ms - now_ms
                    % b.refill_rate_ms)
                &&& (r is Some ==> 0 < r->0 <= b.refill_rate_ms)
            }),
    {
        self.refill(now_ms);
        if self.available_tokens >= tokens {
            self.available_tokens = self.available_tokens - tokens;
            return None;
        }
        proof {
            vstd::arithmetic::div_mod::lemma_mod_division_less_than_divisor(
                now_ms as int,
                self.refill_rate_ms as int,
            );
        }
        let wait: u64 = self.refill_rate_ms - now_ms % self.refill_rate_ms;
        Some(wait)
    }

    /// Deduct consumed weight, at most what is available.
    pub fn consume_tokens(&mut self, tokens: usize, now_ms: u64)
        requires
            old(self).wf(),
            now_ms >= old(self).last_refill_ms,
        ensures
            final(self).wf(),
            ({
                let b = old(self).refilled(now_ms);
                *final(self) == FixedWindowBucket {
                    available_tokens: (b.available_tokens - vstd::math::min(
                        tokens as int,
                        b.available_tokens as int,
                    )) as usize,
                    ..b
                }
            }),
    {
        self.refill(now_ms);
        let used: usize = if tokens < self.available_tokens {
            tokens
        } else {
            self.available_tokens
        };
        self.available_tokens = self.available_tokens - used;
    }
}

/// Why a dynamic limiter asked the caller to wait.
#[derive(Debug, Clone, Copy, PartialEq, Eq, Structural)]
pub enum DynamicLimitReason {
    /// The venue's own reported usage left no room.
    HeaderRate,
    /// The fixed-window fallback budget was exhausted.
    FixedWindowRate,
}

/// A limiter that trusts the venue's self-reported usage while the
/// report is fresh (no older than one window), and otherwise falls back
/// to a fixed window of the same size.
#[derive(Debug, Clone, Copy, PartialEq, Eq, Structural)]
pub struct DynamicBucket {
    pub max_weight: usize,
    pub current_used_weight: usize,
    pub last_updated_ms: u64,
    pub refill_rate_ms: u64,
    pub fallback_bucket: FixedWindowBucket,
}

impl DynamicBucket {
    pub open spec fn wf(self) -> bool {
        &&& self.fallback_bucket.wf()
        &&& self.refill_rate_ms == self.fallback_bucket.refill_rate_ms
    }

    /// Whether the venue's reported usage is current enough to be
    /// authoritative.
    pub open spec fn report_is_fresh(self, now_ms: u64) -> bool {
        now_ms - self.last_updated_ms <= self.refill_rate_ms && self.current_used_weight > 0
    }

    /// What the header-driven path answers: nothing to wait for when
    /// the reported headroom covers the weight, else the rest of the
    /// venue's declared window plus a half-second safety margin.
    pub open spec fn header_wait(self, weight: usize, now_ms: u64) -> Option<u64> {
        let available = if self.max_weight >= self.current_used_weight {
            self.max_weight - self.current_used_weight
        } else {
            0
        };
        if available >= weight {
            None
        } else {
            let period_seconds = self.refill_rate_ms / 1000;
            Some(((period_seconds - (now_ms / 1000) % period_seconds) * 1000 + 500) as u64)
        }
    }

    pub fn new(max_weight: usize, refill_rate_ms: u64, now_ms: u64) -> (r: Self)
        requires
            1000 <= refill_rate_ms <= 100_000_000_000,
            refill_rate_ms % 1000 == 0,
        ensures
            r.wf(),
            r.max_weight == max_weight,
            r.current_used_weight == 0,
            r.last_updated_ms == now_ms,
            r.refill_rate_ms == refill_rate_ms,
            r.fallback_bucket == FixedWindowBucket::new_spec(max_weight, refill_rate_ms, now_ms),
    {
        DynamicBucket {
            max_weight,
            current_used_weight: 0,
            last_updated_ms: now_ms,
            refill_rate_ms,
            fallback_bucket: FixedWindowBucket::new(max_weight, refill_rate_ms, now_ms),
        }
    }

    /// Learn the venue's reported usage; a report of zero is ignored.
    pub fn update_weight(&mut self, new_weight: usize, now_ms: u64)
        ensures
            new_weight > 0 ==> *final(self) == (DynamicBucket {
                current_used_weight: new_weight,
                last_updated_ms: now_ms,
                ..*old(self)
            }),
            new_weight == 0 ==> *final(self) == *old(self),
    {
        if new_weight > 0 {
            self.current_used_weight = new_weight;
            self.last_updated_ms = now_ms;
        }
    }

    /// While the venue's report is fresh it is authoritative: a request
    /// is admitted only if reported usage plus its weight fits the
    /// declared maximum, else the caller waits out the venue's window
    /// plus a safety margin. A stale or absent report falls back to the
    /// fixed window.
    pub fn prepare_request(&mut self, weight: usize, now_ms: u64) -> (r: (
        Option<u64>,
        Option<DynamicLimitReason>,
    ))
        requires
            old(self).wf(),
            now_ms >= old(self).last_updated_ms,
            now_ms >= old(self).fallback_bucket.last_refill_ms,
        ensures
            final(self).wf(),
            old(self).report_is_fresh(now_ms) ==> {
                &&& *final(self) == *old(self)
                &&& r.0 == old(self).header_wait(weight, now_ms)
                &&& (r.0 is Some ==> r.1 == Some(DynamicLimitReason::HeaderRate))
                &&& (r.0 is None ==> r.1 is None)
            },
            !old(self).report_is_fresh(now_ms) ==> {
                let b = old(self).fallback_bucket.refilled(now_ms);
                &&& *final(self) == DynamicBucket {
                    fallback_bucket: final(self).fallback_bucket,
                    ..*old(self)
                }
                &&& (r.0 is None <==> b.available_tokens >= weight)
                &&& (r.0 is None ==> final(self).fallback_bucket == FixedWindowBucket {
                    available_tokens: (b.available_tokens - weight) as usize,
                    ..b
                } && r.1 is None)
                &&& (r.0 is Some ==> final(self).fallback_bucket == b && 0 < r.0->0
                    <= b.refill_rate_ms && r.1 == Some(DynamicLimitReason::FixedWindowRate))
            },
    {
        let elapsed: u64 = now_ms - self.last_updated_ms;
        if elapsed <= self.refill_rate_ms && self.current_used_weight > 0 {
            self.prepare_with_header_data(weight, now_ms)
        } else {
            self.prepare_with_fallback(weight, now_ms)
        }
    }

    /// The header-driven decision alone: delay exactly when the
    /// reported usage plus the requested weight exceeds the declared
    /// maximum.
    pub fn prepare_with_header_data(&self, weight: usize, now_ms: u64) -> (r: (
        Option<u64>,
        Option<DynamicLimitReason>,
    ))
        requires
            self.wf(),
        ensures
            r.0 == self.header_wait(weight, now_ms),
            r.0 is Some ==> r.1 == Some(DynamicLimitReason::HeaderRate),
            r.0 is None ==> r.1 is None,
            weight > 0 && self.current_used_weight + weight > self.max_weight ==> r.0 is Some,
    {
        let available: usize = if self.max_weight >= self.current_used_weight {
            self.max_weight - self.current_used_weight
        } else {
            0
        };
        if available >= weight {
            return (None, None);
        }
        let period_seconds: u64 = self.refill_rate_ms / 1000;
        let seconds_in_period: u64 = (now_ms / 1000) % period_seconds;
        proof {
            assert(period_seconds <= 100_000_000);
            assert(seconds_in_period < period_seconds) by {
                vstd::arithmetic::div_mod::lemma_mod_division_less_than_divisor(
                    (now_ms / 1000) as int,
                    period_seconds as int,
                );
            }
        }
        let wait_ms: u64 = (period_seconds - seconds_in_period) * 1000 + 500;
        (Some(wait_ms), Some(DynamicLimitReason::HeaderRate))
    }

    /// The fixed-window decision alone.
    fn prepare_with_fallback(&mut self, weight: usize, now_ms: u64) -> (r: (
        Option<u64>,
        Option<DynamicLimitReason>,
    ))
        requires
            old(self).wf(),
            now_ms >= old(self).fallback_bucket.last_refill_ms,
        ensures
            final(self).wf(),
            *final(self) == (DynamicBucket {
                fallback_bucket: final(self).fallback_bucket,
                ..*old(self)
            }),
            ({
                let b = old(self).fallback_bucket.refilled(now_ms);
                &&& (r.0 is None <==> b.available_tokens >= weight)
                &&& (r.0 is None ==> final(self).fallback_bucket == FixedWindowBucket {
                    available_tokens: (b.available_tokens - weight) as usize,
                    ..b
                } && r.1 is None)
                &&& (r.0 is Some ==> final(self).fallback_bucket == b && 0 < r.0->0
                    <= b.refill_rate_ms && r.1 == Some(DynamicLimitReason::FixedWindowRate))
            }),
    {
        match self.fallback_bucket.calculate_wait_time(weight, now_ms) {
            None => (None, None),
            Some(wait_time) => (Some(wait_time), Some(DynamicLimitReason::FixedWindowRate)),
        }
    }
}

impl FixedWindowBucket {
    /// The value `new` constructs.
    pub open spec fn new_spec(max_tokens: usize, refill_rate_ms: u64, now_ms: u64)
        -> FixedWindowBucket {
        FixedWindowBucket {
            max_tokens,
            available_tokens: max_tokens,
            last_refill_ms: now_ms,
            refill_rate_ms,
        }
    }
}

} // verus!
