//! Token bucket: the unit of admission control.
//!
//! The bucket tracks a refillable budget of tokens, capped at a fixed
//! capacity. Refilling is lazy: on each access the number of whole refill
//! intervals elapsed since the last refill determines how many refill
//! batches are credited, and the last-refill time advances only by that
//! many whole intervals, so the fractional remainder of an interval is
//! preserved and no budget is double-credited or lost to drift.
//!
//! Time is explicit: the caller passes the current time in nanoseconds.

use vstd::prelude::*;
use crate::queue::QueueConfig;

verus! {

/// Token bucket for rate limiting.
#[derive(Debug, Clone, Copy, PartialEq, Eq, Structural)]
pub struct TokenBucket {
    /// Current number of tokens
    pub tokens: u64,
    /// Maximum number of tokens
    pub max_tokens: u64,
    /// Number of tokens added per refill
    pub refill_tokens: u64,
    /// Time of last refill, in nanoseconds
    pub last_refill: u64,
    /// Time interval between refills, in nanoseconds
    pub refill_interval: u64,
}

impl TokenBucket {
    /// The bucket's invariant: the token count never exceeds the capacity,
    /// and the refill interval is a usable divisor.
    pub open spec fn wf(self) -> bool {
        &&& self.tokens <= self.max_tokens
        &&& self.refill_interval >= 1
    }

    /// The token count after crediting `intervals` refill batches:
    /// `min(capacity, tokens + intervals * refill_tokens)`.
    pub open spec fn credited(self, intervals: int) -> u64 {
        if self.tokens + intervals * self.refill_tokens >= self.max_tokens {
            self.max_tokens
        } else {
            (self.tokens + intervals * self.refill_tokens) as u64
        }
    }

    /// The number of whole refill intervals elapsed at time `now`.
    pub open spec fn intervals_elapsed(self, now: u64) -> int {
        if now <= self.last_refill {
            0
        } else {
            (now - self.last_refill) as int / self.refill_interval as int
        }
    }

    /// The bucket after a lazy refill at time `now`: whole elapsed
    /// intervals are credited and the last-refill time advances by exactly
    /// that many intervals.
    pub open spec fn refilled(self, now: u64) -> TokenBucket {
        let n = self.intervals_elapsed(now);
        if n >= 1 {
            TokenBucket {
                tokens: self.credited(n),
                last_refill: (self.last_refill + n * self.refill_interval) as u64,
                ..self
            }
        } else {
            self
        }
    }

    /// The bucket after one token is taken.
    pub open spec fn consumed_one(self) -> TokenBucket {
        TokenBucket { tokens: (self.tokens - 1) as u64, ..self }
    }

    /// Creates a bucket from the configuration, full, with the last refill
    /// set to the present time `now` (in nanoseconds).
    pub fn new(config: &QueueConfig, now: u64) -> (b: Self)
        requires
            config.valid(),
        ensures
            b.wf(),
            b.tokens == config.max_tokens,
            b.max_tokens == config.max_tokens,
            b.refill_tokens == config.refill_tokens,
            b.refill_interval == config.refill_interval,
            b.last_refill == now,
    {
        TokenBucket {
            tokens: config.max_tokens,
            max_tokens: config.max_tokens,
            refill_tokens: config.refill_tokens,
            last_refill: now,
            refill_interval: config.refill_interval,
        }
    }

    /// Refills the bucket based on the time elapsed since the last refill.
    ///
    /// Credits `floor(elapsed / refill_interval)` refill batches, capped at
    /// the capacity, and advances the last-refill time by that many whole
    /// intervals.
    pub fn refill(&mut self, now: u64)
        requires
            old(self).wf(),
        ensures
            *final(self) == old(self).refilled(now),
            final(self).wf(),
    {
        proof {
            use_fundamental_div_mod(self);
        }
        if now > self.last_refill {
            let elapsed: u64 = now - self.last_refill;
            let intervals: u64 = elapsed / self.refill_interval;
            if intervals >= 1 {
                proof {
                    vstd::arithmetic::div_mod::lemma_fundamental_div_mod(
                        elapsed as int,
                        self.refill_interval as int,
                    );
                    assert(intervals * self.refill_interval <= elapsed);
                }
                let advance: u64 = intervals * self.refill_interval;
                self.last_refill = self.last_refill + advance;
                if self.refill_tokens == 0 {
                    proof {
                        assert(self.tokens + intervals as int * self.refill_tokens
                            == self.tokens as int);
                    }
                } else {
                    let deficit: u64 = self.max_tokens - self.tokens;
                    if intervals > deficit / self.refill_tokens {
                        proof {
                            lemma_credit_saturates(
                                deficit as int,
                                self.refill_tokens as int,
                                intervals as int,
                            );
                        }
                        self.tokens = self.max_tokens;
                    } else {
                        proof {
                            lemma_credit_fits(
                                deficit as int,
                                self.refill_tokens as int,
                                intervals as int,
                            );
                        }
                        let add: u64 = intervals * self.refill_tokens;
                        self.tokens = self.tokens + add;
                    }
                }
            }
        }
    }

    /// Attempts to consume a token: refills lazily, then takes one token if
    /// any is available. No side effect on the token count when none is.
    pub fn try_consume(&mut self, now: u64) -> (granted: bool)
        requires
            old(self).wf(),
        ensures
            final(self).wf(),
            granted == (old(self).refilled(now).tokens > 0),
            granted ==> *final(self) == old(self).refilled(now).consumed_one(),
            !granted ==> *final(self) == old(self).refilled(now),
    {
        self.refill(now);
        if self.tokens > 0 {
            self.tokens = self.tokens - 1;
            true
        } else {
            false
        }
    }

    /// The current number of available tokens, without refilling.
    pub fn available_tokens(&self) -> (n: u64)
        ensures
            n == self.tokens,
    {
        self.tokens
    }
}

/// Helper to bring the division facts about `intervals_elapsed` into scope.
proof fn use_fundamental_div_mod(b: &TokenBucket)
    requires
        b.wf(),
    ensures
        forall|now: u64| now > b.last_refill ==> #[trigger] b.intervals_elapsed(now)
            * b.refill_interval <= now - b.last_refill,
        forall|now: u64| b.intervals_elapsed(now) >= 0,
{
    assert forall|now: u64| now > b.last_refill implies #[trigger] b.intervals_elapsed(now)
        * b.refill_interval <= now - b.last_refill by {
        let e = (now - b.last_refill) as int;
        let i = b.refill_interval as int;
        vstd::arithmetic::div_mod::lemma_fundamental_div_mod(e, i);
        assert(e / i * i == i * (e / i));
    }
    assert forall|now: u64| b.intervals_elapsed(now) >= 0 by {
        if now > b.last_refill {
            vstd::arithmetic::div_mod::lemma_div_pos_is_pos(
                (now - b.last_refill) as int,
                b.refill_interval as int,
            );
        }
    }
}

/// A lazy refill keeps the invariant and touches only the token count and
/// the last-refill time.
pub proof fn lemma_refilled_wf(b: TokenBucket, now: u64)
    requires
        b.wf(),
    ensures
        b.refilled(now).wf(),
        b.refilled(now).tokens <= b.max_tokens,
        b.refilled(now).max_tokens == b.max_tokens,
        b.refilled(now).refill_tokens == b.refill_tokens,
        b.refilled(now).refill_interval == b.refill_interval,
{
    use_fundamental_div_mod(&b);
    let n = b.intervals_elapsed(now);
    if n >= 1 {
        vstd::arithmetic::mul::lemma_mul_inequality(0, n, b.refill_tokens as int);
        assert(0 * b.refill_tokens as int == 0) by (nonlinear_arith);
    }
}

/// A lazy refill never takes tokens away.
pub proof fn lemma_refill_does_not_lose_tokens(b: TokenBucket, now: u64)
    requires
        b.wf(),
    ensures
        b.refilled(now).tokens >= b.tokens,
{
    use_fundamental_div_mod(&b);
    let n = b.intervals_elapsed(now);
    if n >= 1 {
        vstd::arithmetic::mul::lemma_mul_nonnegative(n, b.refill_tokens as int);
    }
}

/// The bucket after one `try_consume` call at time `now`: a lazy refill,
/// then one token taken if any is available.
pub open spec fn consume_step(b: TokenBucket, now: u64) -> TokenBucket {
    let r = b.refilled(now);
    if r.tokens > 0 {
        r.consumed_one()
    } else {
        r
    }
}

/// The bucket after a whole sequence of `try_consume` calls, made at the
/// given times.
pub open spec fn consume_run(b: TokenBucket, nows: Seq<u64>) -> TokenBucket
    decreases nows.len(),
{
    if nows.len() == 0 {
        b
    } else {
        consume_run(consume_step(b, nows[0]), nows.skip(1))
    }
}

/// Law: over any sequence of `try_consume` calls, the running token count
/// never goes negative (it is unsigned throughout) and never exceeds the
/// capacity.
pub proof fn lemma_tokens_never_exceed_capacity(b: TokenBucket, nows: Seq<u64>)
    requires
        b.wf(),
    ensures
        consume_run(b, nows).wf(),
        0 <= consume_run(b, nows).tokens <= b.max_tokens,
        consume_run(b, nows).max_tokens == b.max_tokens,
    decreases nows.len(),
{
    if nows.len() > 0 {
        lemma_refilled_wf(b, nows[0]);
        lemma_tokens_never_exceed_capacity(consume_step(b, nows[0]), nows.skip(1));
    }
}

/// Law: after advancing time by exactly `k` whole refill intervals with no
/// consumption, the token count is `min(capacity, tokens + k * refill_tokens)`
/// and the last-refill time lands exactly on the new tick.
pub proof fn lemma_refill_exact_intervals(b: TokenBucket, k: u64)
    requires
        b.wf(),
        b.last_refill + k * b.refill_interval <= u64::MAX,
    ensures
        ({
            let now = (b.last_refill + k * b.refill_interval) as u64;
            &&& b.refilled(now).tokens == b.credited(k as int)
            &&& b.refilled(now).last_refill == now
        }),
{
    if k == 0 {
        assert(0 * b.refill_interval == 0) by (nonlinear_arith);
    } else {
        let now = (b.last_refill + k * b.refill_interval) as u64;
        assert(k * b.refill_interval >= 1 * b.refill_interval) by {
            vstd::arithmetic::mul::lemma_mul_inequality(1, k as int, b.refill_interval as int);
        }
        assert(1 * b.refill_interval as int == b.refill_interval) by (nonlinear_arith);
        assert(now > b.last_refill);
        let e = (now - b.last_refill) as int;
        assert(e == k * b.refill_interval);
        assert(e / b.refill_interval as int == k) by {
            vstd::arithmetic::div_mod::lemma_div_multiples_vanish(
                k as int,
                b.refill_interval as int,
            );
            assert(b.refill_interval as int * k == k * b.refill_interval) by (nonlinear_arith);
        }
        assert(b.intervals_elapsed(now) == k as int);
    }
}

/// When more intervals elapsed than are needed to cover the deficit, the
/// credit reaches the capacity.
proof fn lemma_credit_saturates(deficit: int, refill: int, intervals: int)
    requires
        deficit >= 0,
        refill >= 1,
        intervals > deficit / refill,
    ensures
        intervals * refill > deficit,
{
    vstd::arithmetic::div_mod::lemma_fundamental_div_mod(deficit, refill);
    vstd::arithmetic::mul::lemma_mul_inequality(deficit / refill + 1, intervals, refill);
    assert((deficit / refill + 1) * refill == (deficit / refill) * refill + refill)
        by (nonlinear_arith);
    assert(refill * (deficit / refill) == (deficit / refill) * refill);
}

/// When no more intervals elapsed than the deficit allows, the credit fits
/// under the capacity.
proof fn lemma_credit_fits(deficit: int, refill: int, intervals: int)
    requires
        deficit >= 0,
        refill >= 1,
        0 <= intervals <= deficit / refill,
    ensures
        intervals * refill <= deficit,
{
    vstd::arithmetic::div_mod::lemma_fundamental_div_mod(deficit, refill);
    vstd::arithmetic::mul::lemma_mul_inequality(intervals, deficit / refill, refill);
    assert(refill * (deficit / refill) == (deficit / refill) * refill);
}

} // verus!
