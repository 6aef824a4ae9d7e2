//! A token-bucket rate limiter driven by the caller's clock.
use vstd::prelude::*;

verus! {

/// Permits that refill at a fixed rate per whole second, up to a maximum.
///
/// The caller reads the clock and passes the time in milliseconds.
pub struct RateLimiter {
    permits: u32,
    max_permits: u32,
    refill_rate: u32,
    last_refill_ms: u64,
}

/// The permits after a refill at `now_ms`: one refill of `rate` for each
/// whole second since the last refill, capped at `max`.
pub open spec fn refilled(permits: u32, max: u32, rate: u32, last_ms: u64, now_ms: u64) -> u32 {
    let secs = if now_ms >= last_ms { (now_ms - last_ms) / 1000 } else { 0 };
    if secs >= 1 {
        if permits + secs * rate <= max {
            (permits + secs * rate) as u32
        } else {
            max
        }
    } else {
        permits
    }
}

/// Whether a refill at `now_ms` happens: a whole second has passed.
pub open spec fn refills(last_ms: u64, now_ms: u64) -> bool {
    now_ms >= last_ms && (now_ms - last_ms) / 1000 >= 1
}

impl RateLimiter {
    pub closed spec fn spec_permits(&self) -> u32 {
        self.permits
    }

    pub closed spec fn spec_max_permits(&self) -> u32 {
        self.max_permits
    }

    pub closed spec fn spec_refill_rate(&self) -> u32 {
        self.refill_rate
    }

    pub closed spec fn spec_last_refill_ms(&self) -> u64 {
        self.last_refill_ms
    }

    /// A full bucket of `max_permits`, refilled by `refill_rate` per second, started at `now_ms`.
    pub fn new(max_permits: u32, refill_rate: u32, now_ms: u64) -> (r: Self)
        ensures
            r.spec_permits() == max_permits,
            r.spec_max_permits() == max_permits,
            r.spec_refill_rate() == refill_rate,
            r.spec_last_refill_ms() == now_ms,
    {
        RateLimiter { permits: max_permits, max_permits, refill_rate, last_refill_ms: now_ms }
    }

    /// Adds the permits earned since the last refill, when a whole second has passed.
    pub fn refill_permits(&mut self, now_ms: u64)
        ensures
            final(self).spec_permits() == refilled(
                old(self).spec_permits(),
                old(self).spec_max_permits(),
                old(self).spec_refill_rate(),
                old(self).spec_last_refill_ms(),
                now_ms,
            ),
            final(self).spec_last_refill_ms() == if refills(old(self).spec_last_refill_ms(), now_ms) {
                now_ms
            } else {
                old(self).spec_last_refill_ms()
            },
            final(self).spec_max_permits() == old(self).spec_max_permits(),
            final(self).spec_refill_rate() == old(self).spec_refill_rate(),
    {
        if now_ms >= self.last_refill_ms {
            let secs = (now_ms - self.last_refill_ms) / 1000;
            if secs >= 1 {
                let s128 = secs as u128;
                let r128 = self.refill_rate as u128;
                assert(s128 * r128 <= 0xffff_ffff_ffff_ffffu128 * 0xffff_ffffu128) by (nonlinear_arith)
                    requires
                        s128 <= 0xffff_ffff_ffff_ffffu128,
                        r128 <= 0xffff_ffffu128,
                ;
                let total = self.permits as u128 + s128 * r128;
                if total <= self.max_permits as u128 {
                    self.permits = total as u32;
                } else {
                    self.permits = self.max_permits;
                }
                self.last_refill_ms = now_ms;
            }
        }
    }

    /// Takes a permit if one is left after refilling.
    pub fn try_acquire(&mut self, now_ms: u64) -> (r: bool)
        ensures
            ({
                let p = refilled(
                    old(self).spec_permits(),
                    old(self).spec_max_permits(),
                    old(self).spec_refill_rate(),
                    old(self).spec_last_refill_ms(),
                    now_ms,
                );
                &&& r == (p > 0)
                &&& final(self).spec_permits() == if p > 0 { (p - 1) as u32 } else { p }
            }),
            final(self).spec_last_refill_ms() == if refills(old(self).spec_last_refill_ms(), now_ms) {
                now_ms
            } else {
                old(self).spec_last_refill_ms()
            },
            final(self).spec_max_permits() == old(self).spec_max_permits(),
            final(self).spec_refill_rate() == old(self).spec_refill_rate(),
    {
        self.refill_permits(now_ms);
        if self.permits > 0 {
            self.permits = self.permits - 1;
            true
        } else {
            false
        }
    }

    /// Milliseconds to wait before trying again: one refill interval.
    pub fn retry_delay_ms(&self) -> (r: u64)
        ensures
            r == 1000int / (if self.spec_refill_rate() >= 1 { self.spec_refill_rate() as int } else { 1int }),
    {
        let rate = if self.refill_rate >= 1 { self.refill_rate } else { 1 };
        1000 / rate as u64
    }
}

} // verus!
