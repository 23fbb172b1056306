//! Request queue: composes the token bucket and the concurrency gate into a
//! single admission/execution protocol with transparent retry of rate-limit
//! rejections.
//!
//! The task handed to [`RequestQueue::execute`] is modelled as a script: the
//! outcome each successive invocation of the task would produce. The
//! protocol is deterministic over the script, the starting clock and the
//! queue state, so its entire behaviour is pinned by [`protocol`], and the
//! retry laws are proved over that model.
//!
//! Sleeping is modelled by advancing the simulated clock, which feeds the
//! bucket's lazy refill. The original design retries rate-limited attempts
//! and waits for tokens without bound; here both loops carry configurable
//! ceilings, so every call terminates and a persistently rejecting remote
//! surfaces as [`ExecOutcome::RateLimited`] instead of a livelock.

use vstd::prelude::*;
use crate::bucket::TokenBucket;
use crate::gate::ConcurrencyGate;

verus! {

/// Nanoseconds slept after a rate-limited attempt before the next one.
pub const RATE_LIMIT_BACKOFF_NANOS: u64 = 1_000_000_000;

/// Nanoseconds slept when no token is available before polling again.
pub const TOKEN_WAIT_NANOS: u64 = 100_000_000;

/// Configuration for the request queue.
///
/// All durations are in nanoseconds.
#[derive(Debug, Clone, Copy, PartialEq, Eq, Structural)]
pub struct QueueConfig {
    /// Maximum number of tokens in the bucket
    pub max_tokens: u64,
    /// Number of tokens added per refill
    pub refill_tokens: u64,
    /// Time interval between token refills, in nanoseconds
    pub refill_interval: u64,
    /// Maximum number of concurrent requests
    pub max_concurrent_requests: u64,
    /// Ceiling on consecutive waits for a token before the queue gives up
    pub max_token_waits: u64,
    /// Ceiling on transparent retries of rate-limited attempts
    pub max_rate_limit_retries: u64,
}

impl QueueConfig {
    /// A configuration the bucket can run on: the refill interval is a
    /// divisor, so it must not be zero.
    pub open spec fn valid(self) -> bool {
        self.refill_interval >= 1
    }
}

impl Default for QueueConfig {
    fn default() -> (c: Self)
        ensures
            c.max_tokens == 1000000u64,
            c.refill_tokens == 100000u64,
            c.refill_interval == 60_000_000_000u64,
            c.max_concurrent_requests == 3u64,
            c.max_token_waits == 600u64,
            c.max_rate_limit_retries == 60u64,
            c.valid(),
    {
        QueueConfig {
            max_tokens: 1000000,  // 1 million tokens to handle large documents
            refill_tokens: 100000,  // Refill 100k tokens per interval
            refill_interval: 60_000_000_000,  // Refill every minute
            max_concurrent_requests: 3,
            max_token_waits: 600,  // Give up on a token after a minute of waits
            max_rate_limit_retries: 60,
        }
    }
}

/// What one invocation of the task produces, classified at the collaborator
/// boundary: a success value, a remote rate-limit rejection, or any other
/// failure with its message.
#[derive(Debug)]
pub enum TaskOutcome {
    /// The call returned its value
    Success(String),
    /// The remote rejected the call as rate-limited (a transient condition)
    RateLimited,
    /// The call failed for any other reason (terminal for this attempt)
    Failed(String),
}

/// How one `execute` call ended.
#[derive(Debug)]
pub enum ExecOutcome {
    /// The task returned this value
    Completed(String),
    /// The task failed with a non-rate-limit error, propagated with no retry
    Failed(String),
    /// Still rate-limited when the retry ceiling or the script ran out
    RateLimited,
    /// No token became available within the configured number of waits
    Starved,
    /// No concurrency permit was free
    Busy,
}

/// The result of one `execute` call: how it ended and how many times the
/// task was invoked.
#[derive(Debug)]
pub struct ExecReport {
    /// How the call ended
    pub outcome: ExecOutcome,
    /// Number of task invocations this call made
    pub invocations: usize,
}

/// Addition on the simulated clock, saturating at the largest representable
/// time.
pub open spec fn clock_add(now: u64, delta: u64) -> u64 {
    if now + delta > u64::MAX {
        u64::MAX
    } else {
        (now + delta) as u64
    }
}

/// The admission/execution protocol, as a function of the bucket, the
/// task's script, the clock and the two retry budgets. Returns how the call
/// ends, the script cursor after the call (its increase over the starting
/// cursor is the number of invocations made), and the bucket as the call
/// leaves it.
///
/// One step: try to take a token (with lazy refill at the current simulated
/// time). With a token in hand the task is invoked: a success or a
/// non-rate-limit failure settles the call at once; a rate-limit rejection
/// sleeps the backoff and retries while the retry budget lasts, with the
/// token-wait budget restored. Without a token the task is not invoked: the
/// protocol sleeps the shorter poll interval and tries again while the wait
/// budget lasts.
pub open spec fn protocol(
    b: TokenBucket,
    script: Seq<TaskOutcome>,
    now: u64,
    i: nat,
    max_waits: nat,
    waits_left: nat,
    retries_left: nat,
) -> (ExecOutcome, nat, TokenBucket)
    decreases script.len() - i, waits_left,
{
    if i >= script.len() {
        (ExecOutcome::RateLimited, i, b)
    } else {
        let r = b.refilled(now);
        if r.tokens > 0 {
            let b1 = r.consumed_one();
            match script[i as int] {
                TaskOutcome::Success(v) => (ExecOutcome::Completed(v), i + 1, b1),
                TaskOutcome::Failed(m) => (ExecOutcome::Failed(m), i + 1, b1),
                TaskOutcome::RateLimited => {
                    if retries_left == 0 {
                        (ExecOutcome::RateLimited, i + 1, b1)
                    } else {
                        protocol(
                            b1,
                            script,
                            clock_add(now, RATE_LIMIT_BACKOFF_NANOS),
                            i + 1,
                            max_waits,
                            max_waits,
                            (retries_left - 1) as nat,
                        )
                    }
                },
            }
        } else {
            if waits_left == 0 {
                (ExecOutcome::Starved, i, r)
            } else {
                protocol(
                    r,
                    script,
                    clock_add(now, TOKEN_WAIT_NANOS),
                    i,
                    max_waits,
                    (waits_left - 1) as nat,
                    retries_left,
                )
            }
        }
    }
}

/// Request queue with rate limiting.
#[derive(Debug)]
pub struct RequestQueue {
    /// The token bucket bounding request rate
    pub token_bucket: TokenBucket,
    /// The semaphore bounding request concurrency
    pub semaphore: ConcurrencyGate,
    /// Ceiling on consecutive waits for a token
    pub max_token_waits: u64,
    /// Ceiling on transparent retries of rate-limited attempts
    pub max_rate_limit_retries: u64,
}

impl RequestQueue {
    /// Both owned resources satisfy their invariants.
    pub open spec fn wf(self) -> bool {
        &&& self.token_bucket.wf()
        &&& self.semaphore.wf()
    }

    /// Creates a new request queue with the specified configuration, with
    /// the bucket full and its last refill set to the present time `now`
    /// (in nanoseconds).
    pub fn new(config: QueueConfig, now: u64) -> (q: Self)
        requires
            config.valid(),
        ensures
            q.wf(),
            q.token_bucket.tokens == config.max_tokens,
            q.token_bucket.max_tokens == config.max_tokens,
            q.token_bucket.refill_tokens == config.refill_tokens,
            q.token_bucket.refill_interval == config.refill_interval,
            q.token_bucket.last_refill == now,
            q.semaphore.max_concurrent == config.max_concurrent_requests,
            q.semaphore.outstanding == 0,
            q.max_token_waits == config.max_token_waits,
            q.max_rate_limit_retries == config.max_rate_limit_retries,
    {
        RequestQueue {
            token_bucket: TokenBucket::new(&config, now),
            semaphore: ConcurrencyGate::new(config.max_concurrent_requests),
            max_token_waits: config.max_token_waits,
            max_rate_limit_retries: config.max_rate_limit_retries,
        }
    }

    /// Executes a request with rate limiting and concurrency control.
    ///
    /// `script` describes the task: entry `start` is what its first
    /// invocation would produce, entry `start + 1` the next, and so on. The
    /// call takes one concurrency permit for the whole retry loop and
    /// releases it on every exit path; when no permit is free it reports
    /// [`ExecOutcome::Busy`] at once, touching nothing, and the caller may
    /// poll. Everything else is exactly the [`protocol`] model: at most
    /// `max_concurrent` tasks can ever hold permits, the task is never
    /// invoked without a token in hand, a non-rate-limit failure surfaces
    /// with no retry, and rate-limit rejections are retried transparently
    /// up to the configured ceiling.
    pub fn execute(&mut self, script: &Vec<TaskOutcome>, start: usize, now: u64) -> (r: ExecReport)
        requires
            old(self).wf(),
            start <= script@.len(),
        ensures
            final(self).wf(),
            final(self).semaphore == old(self).semaphore,
            final(self).max_token_waits == old(self).max_token_waits,
            final(self).max_rate_limit_retries == old(self).max_rate_limit_retries,
            !old(self).semaphore.can_acquire() ==> {
                &&& r.outcome is Busy
                &&& r.invocations == 0
                &&& *final(self) == *old(self)
            },
            old(self).semaphore.can_acquire() ==> {
                let res = protocol(
                    old(self).token_bucket,
                    script@,
                    now,
                    start as nat,
                    old(self).max_token_waits as nat,
                    old(self).max_token_waits as nat,
                    old(self).max_rate_limit_retries as nat,
                );
                &&& r.outcome == res.0
                &&& start + r.invocations == res.1
                &&& final(self).token_bucket == res.2
            },
    {
        let acquired = self.semaphore.try_acquire();
        if !acquired {
            return ExecReport { outcome: ExecOutcome::Busy, invocations: 0 };
        }
        let ghost b0 = self.token_bucket;
        let ghost w0 = self.max_token_waits as nat;
        let ghost r0 = self.max_rate_limit_retries as nat;
        let mut i: usize = start;
        let mut t: u64 = now;
        let mut waits_left: u64 = self.max_token_waits;
        let mut retries_left: u64 = self.max_rate_limit_retries;
        loop
            invariant
                self.wf(),
                start <= i <= script@.len(),
                self.semaphore.max_concurrent == old(self).semaphore.max_concurrent,
                self.semaphore.outstanding == old(self).semaphore.outstanding + 1,
                self.max_token_waits == old(self).max_token_waits,
                self.max_rate_limit_retries == old(self).max_rate_limit_retries,
                old(self).wf(),
                old(self).semaphore.can_acquire(),
                b0 == old(self).token_bucket,
                w0 == old(self).max_token_waits as nat,
                r0 == old(self).max_rate_limit_retries as nat,
                protocol(b0, script@, now, start as nat, w0, w0, r0) == protocol(
                    self.token_bucket,
                    script@,
                    t,
                    i as nat,
                    w0,
                    waits_left as nat,
                    retries_left as nat,
                ),
            decreases script@.len() - i, waits_left,
        {
            let ghost prev_bucket = self.token_bucket;
            let ghost prev_i = i as nat;
            let ghost prev_t = t;
            let ghost prev_waits = waits_left as nat;
            let ghost prev_retries = retries_left as nat;
            if i >= script.len() {
                proof {
                    assert(protocol(prev_bucket, script@, prev_t, prev_i, w0, prev_waits,
                        prev_retries) == (ExecOutcome::RateLimited, prev_i, prev_bucket));
                }
                self.semaphore.release();
                return ExecReport { outcome: ExecOutcome::RateLimited, invocations: i - start };
            }
            let granted = self.token_bucket.try_consume(t);
            proof {
                assert(granted == (prev_bucket.refilled(prev_t).tokens > 0));
            }
            if granted {
                let entry_index: usize = i;
                i = i + 1;
                proof {
                    assert(self.token_bucket == prev_bucket.refilled(prev_t).consumed_one());
                }
                match &script[entry_index] {
                    TaskOutcome::Success(v) => {
                        proof {
                            assert(protocol(prev_bucket, script@, prev_t, prev_i, w0, prev_waits,
                                prev_retries) == (ExecOutcome::Completed(*v), i as nat,
                                self.token_bucket));
                        }
                        self.semaphore.release();
                        return ExecReport {
                            outcome: ExecOutcome::Completed(v.clone()),
                            invocations: i - start,
                        };
                    },
                    TaskOutcome::Failed(m) => {
                        proof {
                            assert(protocol(prev_bucket, script@, prev_t, prev_i, w0, prev_waits,
                                prev_retries) == (ExecOutcome::Failed(*m), i as nat,
                                self.token_bucket));
                        }
                        self.semaphore.release();
                        return ExecReport {
                            outcome: ExecOutcome::Failed(m.clone()),
                            invocations: i - start,
                        };
                    },
                    TaskOutcome::RateLimited => {
                        if retries_left == 0 {
                            proof {
                                assert(protocol(prev_bucket, script@, prev_t, prev_i, w0,
                                    prev_waits, prev_retries) == (ExecOutcome::RateLimited,
                                    i as nat, self.token_bucket));
                            }
                            self.semaphore.release();
                            return ExecReport {
                                outcome: ExecOutcome::RateLimited,
                                invocations: i - start,
                            };
                        }
                        retries_left = retries_left - 1;
                        waits_left = self.max_token_waits;
                        t = clock_add_exec(t, RATE_LIMIT_BACKOFF_NANOS);
                        proof {
                            assert(protocol(prev_bucket, script@, prev_t, prev_i, w0, prev_waits,
                                prev_retries) == protocol(self.token_bucket, script@, t, i as nat,
                                w0, waits_left as nat, retries_left as nat));
                        }
                    },
                }
            } else {
                proof {
                    assert(self.token_bucket == prev_bucket.refilled(prev_t));
                }
                if waits_left == 0 {
                    proof {
                        assert(protocol(prev_bucket, script@, prev_t, prev_i, w0, prev_waits,
                            prev_retries) == (ExecOutcome::Starved, i as nat, self.token_bucket));
                    }
                    self.semaphore.release();
                    return ExecReport { outcome: ExecOutcome::Starved, invocations: i - start };
                }
                waits_left = waits_left - 1;
                t = clock_add_exec(t, TOKEN_WAIT_NANOS);
                proof {
                    assert(protocol(prev_bucket, script@, prev_t, prev_i, w0, prev_waits,
                        prev_retries) == protocol(self.token_bucket, script@, t, i as nat, w0,
                        waits_left as nat, retries_left as nat));
                }
            }
        }
    }

    /// Returns the current number of available tokens.
    pub fn available_tokens(&self) -> (n: u64)
        ensures
            n == self.token_bucket.tokens,
    {
        self.token_bucket.available_tokens()
    }
}

/// The protocol's cursor moves only forward and never past the script.
pub proof fn lemma_protocol_cursor_bounds(
    b: TokenBucket,
    script: Seq<TaskOutcome>,
    now: u64,
    i: nat,
    max_waits: nat,
    waits_left: nat,
    retries_left: nat,
)
    requires
        i <= script.len(),
    ensures
        i <= protocol(b, script, now, i, max_waits, waits_left, retries_left).1 <= script.len(),
    decreases script.len() - i, waits_left,
{
    if i < script.len() {
        let r = b.refilled(now);
        if r.tokens > 0 {
            if script[i as int] is RateLimited && retries_left > 0 {
                lemma_protocol_cursor_bounds(
                    r.consumed_one(),
                    script,
                    clock_add(now, RATE_LIMIT_BACKOFF_NANOS),
                    i + 1,
                    max_waits,
                    max_waits,
                    (retries_left - 1) as nat,
                );
            }
        } else {
            if waits_left > 0 {
                lemma_protocol_cursor_bounds(
                    r,
                    script,
                    clock_add(now, TOKEN_WAIT_NANOS),
                    i,
                    max_waits,
                    (waits_left - 1) as nat,
                    retries_left,
                );
            }
        }
    }
}

/// The protocol itself never reports a missing permit; that is the
/// concern of `execute`'s gate, before the protocol starts.
pub proof fn lemma_protocol_not_busy(
    b: TokenBucket,
    script: Seq<TaskOutcome>,
    now: u64,
    i: nat,
    max_waits: nat,
    waits_left: nat,
    retries_left: nat,
)
    ensures
        !(protocol(b, script, now, i, max_waits, waits_left, retries_left).0 is Busy),
    decreases script.len() - i, waits_left,
{
    if i < script.len() {
        let r = b.refilled(now);
        if r.tokens > 0 {
            if script[i as int] is RateLimited && retries_left > 0 {
                lemma_protocol_not_busy(
                    r.consumed_one(),
                    script,
                    clock_add(now, RATE_LIMIT_BACKOFF_NANOS),
                    i + 1,
                    max_waits,
                    max_waits,
                    (retries_left - 1) as nat,
                );
            }
        } else {
            if waits_left > 0 {
                lemma_protocol_not_busy(
                    r,
                    script,
                    clock_add(now, TOKEN_WAIT_NANOS),
                    i,
                    max_waits,
                    (waits_left - 1) as nat,
                    retries_left,
                );
            }
        }
    }
}

/// Law: a task whose operation fails with a non-rate-limit error is
/// invoked exactly once: the failure propagates to the caller with no
/// retry. (When no token ever becomes available within the wait budget the
/// protocol starves instead, without invoking the task at all.)
pub proof fn lemma_non_rate_limit_fails_once(
    b: TokenBucket,
    script: Seq<TaskOutcome>,
    now: u64,
    i: nat,
    max_waits: nat,
    waits_left: nat,
    retries_left: nat,
)
    requires
        b.wf(),
        i < script.len(),
        script[i as int] is Failed,
    ensures
        ({
            let res = protocol(b, script, now, i, max_waits, waits_left, retries_left);
            ||| (res.0 is Starved && res.1 == i)
            ||| (script[i as int] matches TaskOutcome::Failed(m) && res.0 == ExecOutcome::Failed(m)
                && res.1 == i + 1)
        }),
    decreases waits_left,
{
    let r = b.refilled(now);
    crate::bucket::lemma_refilled_wf(b, now);
    if r.tokens == 0 && waits_left > 0 {
        lemma_non_rate_limit_fails_once(
            r,
            script,
            clock_add(now, TOKEN_WAIT_NANOS),
            i,
            max_waits,
            (waits_left - 1) as nat,
            retries_left,
        );
    }
}

/// Law, sharpened: with a token available, a task whose operation fails
/// with a non-rate-limit error is invoked exactly once, and that failure
/// is what the call reports.
pub proof fn lemma_non_rate_limit_invoked_exactly_once(
    b: TokenBucket,
    script: Seq<TaskOutcome>,
    now: u64,
    i: nat,
    max_waits: nat,
    waits_left: nat,
    retries_left: nat,
)
    requires
        b.wf(),
        i < script.len(),
        script[i as int] is Failed,
        b.refilled(now).tokens > 0,
    ensures
        ({
            let res = protocol(b, script, now, i, max_waits, waits_left, retries_left);
            &&& script[i as int] matches TaskOutcome::Failed(m) && res.0 == ExecOutcome::Failed(m)
            &&& res.1 == i + 1
        }),
{
}

/// Law: a task that is rejected as rate-limited exactly `n` times and then
/// succeeds is invoked `n + 1` times, and its success value is what the
/// call returns — provided the bucket holds at least `n + 1` tokens and the
/// retry ceiling allows `n` retries.
pub proof fn lemma_rate_limited_then_succeeds(
    b: TokenBucket,
    script: Seq<TaskOutcome>,
    now: u64,
    i: nat,
    max_waits: nat,
    waits_left: nat,
    retries_left: nat,
    n: nat,
)
    requires
        b.wf(),
        i + n < script.len(),
        forall|j: int| i <= j < i + n ==> #[trigger] script[j] is RateLimited,
        script[(i + n) as int] is Success,
        n <= retries_left,
        b.tokens >= n + 1,
    ensures
        ({
            let res = protocol(b, script, now, i, max_waits, waits_left, retries_left);
            &&& script[(i + n) as int] matches TaskOutcome::Success(v) && res.0
                == ExecOutcome::Completed(v)
            &&& res.1 == i + n + 1
        }),
    decreases n,
{
    let r = b.refilled(now);
    crate::bucket::lemma_refilled_wf(b, now);
    crate::bucket::lemma_refill_does_not_lose_tokens(b, now);
    assert(r.tokens > 0);
    if n > 0 {
        assert(script[i as int] is RateLimited);
        lemma_rate_limited_then_succeeds(
            r.consumed_one(),
            script,
            clock_add(now, RATE_LIMIT_BACKOFF_NANOS),
            i + 1,
            max_waits,
            max_waits,
            (retries_left - 1) as nat,
            (n - 1) as nat,
        );
    }
}

/// Saturating addition on the simulated clock.
pub(crate) fn clock_add_exec(now: u64, delta: u64) -> (r: u64)
    ensures
        r == clock_add(now, delta),
{
    if now > u64::MAX - delta {
        u64::MAX
    } else {
        now + delta
    }
}

} // verus!
