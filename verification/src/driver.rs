//! Batch driver: pulls units of work, submits each through the request
//! queue under an outer retry policy with exponential backoff, and routes
//! every terminal outcome to the ledger.
//!
//! The outer retry is independent of the queue's inner rate-limit retry: an
//! inner call that is still rate-limited (or starved of tokens) when its
//! ceilings run out consumes one outer attempt and backs off for
//! `base_delay * 2^(attempt - 1)` before the next attempt. A non-rate-limit
//! failure is terminal at once (fail fast), and exhausting all outer
//! attempts is terminal with a message noting the retry count. A failure of
//! one unit never aborts the batch: every unit ends in exactly one ledger
//! record.

use vstd::prelude::*;
use vstd::string::StringExecFns;
use crate::bucket::TokenBucket;
use crate::ledger::{EntryStatus, ExtractionLedger, LedgerEntry};
use crate::ledger::{appended_view, dec_chars, lines_view};
use crate::queue::{clock_add, protocol, ExecOutcome, RequestQueue, TaskOutcome};

verus! {

/// Configuration of the driver's outer retry policy.
///
/// Durations are in nanoseconds.
#[derive(Debug, Clone, Copy, PartialEq, Eq, Structural)]
pub struct DriverConfig {
    /// Maximum number of outer attempts per unit of work
    pub max_retries: u64,
    /// Backoff before the second attempt; it doubles with each further one
    pub base_delay: u64,
}

impl DriverConfig {
    /// At least one attempt must be allowed.
    pub open spec fn valid(self) -> bool {
        self.max_retries >= 1
    }
}

impl Default for DriverConfig {
    fn default() -> (c: Self)
        ensures
            c.max_retries == 3u64,
            c.base_delay == 1_000_000_000u64,
            c.valid(),
    {
        DriverConfig { max_retries: 3, base_delay: 1_000_000_000 }
    }
}

/// The outcome of one unit of work: the ledger record to append and, on
/// success, the result value to persist at the unit's output path.
#[derive(Debug)]
pub struct UnitReport {
    /// The record of the unit's terminal outcome
    pub entry: LedgerEntry,
    /// The task's success value, present exactly on success
    pub output: Option<String>,
}

/// The ledger message recorded when all outer attempts are exhausted.
pub open spec fn exhausted_message(max_retries: u64) -> Seq<char> {
    "rate limit retries exhausted after "@ + dec_chars(max_retries as nat) + " attempts"@
}

/// The driver's attempt sequence for one unit, as a function of the bucket,
/// the unit's script and the clock: run the queue protocol; a completed or
/// terminally failed attempt settles the unit, while a rate-limited (or
/// token-starved) attempt consumes one of the `remaining` outer attempts
/// and backs off for `delay`, which doubles. Returns the settling
/// protocol outcome (rate-limited or starved when attempts ran out), the
/// final script cursor, the bucket, and the time the final attempt began.
pub open spec fn drive(
    b: TokenBucket,
    script: Seq<TaskOutcome>,
    now: u64,
    cursor: nat,
    max_waits: nat,
    max_rl_retries: nat,
    remaining: nat,
    delay: u64,
) -> (ExecOutcome, nat, TokenBucket, u64)
    decreases remaining,
{
    let res = protocol(b, script, now, cursor, max_waits, max_waits, max_rl_retries);
    match res.0 {
        ExecOutcome::Completed(v) => (ExecOutcome::Completed(v), res.1, res.2, now),
        ExecOutcome::Failed(m) => (ExecOutcome::Failed(m), res.1, res.2, now),
        _ => {
            if remaining <= 1 {
                (res.0, res.1, res.2, now)
            } else {
                drive(
                    res.2,
                    script,
                    clock_add(now, delay),
                    res.1,
                    max_waits,
                    max_rl_retries,
                    (remaining - 1) as nat,
                    clock_add(delay, delay),
                )
            }
        },
    }
}

/// An attempt sequence never reports a missing permit: the only ways it
/// settles are the protocol's own outcomes.
pub proof fn lemma_drive_not_busy(
    b: TokenBucket,
    script: Seq<TaskOutcome>,
    now: u64,
    cursor: nat,
    max_waits: nat,
    max_rl_retries: nat,
    remaining: nat,
    delay: u64,
)
    ensures
        !(drive(b, script, now, cursor, max_waits, max_rl_retries, remaining, delay).0 is Busy),
    decreases remaining,
{
    crate::queue::lemma_protocol_not_busy(b, script, now, cursor, max_waits, max_waits, max_rl_retries);
    let res = protocol(b, script, now, cursor, max_waits, max_waits, max_rl_retries);
    if !(res.0 is Completed) && !(res.0 is Failed) && remaining > 1 {
        lemma_drive_not_busy(
            res.2,
            script,
            clock_add(now, delay),
            res.1,
            max_waits,
            max_rl_retries,
            (remaining - 1) as nat,
            clock_add(delay, delay),
        );
    }
}

/// The whole batch's attempt sequences: each unit is driven in turn on
/// the bucket the previous unit left behind, every unit's first attempt
/// starting from the same base clock. Yields, per unit, how it settled,
/// its final script cursor and the time its final attempt began; and the
/// bucket the batch leaves behind.
pub open spec fn batch_drive(
    b: TokenBucket,
    scripts: Seq<Seq<TaskOutcome>>,
    now: u64,
    max_waits: nat,
    max_rl_retries: nat,
    max_retries: nat,
    base_delay: u64,
) -> (Seq<(ExecOutcome, nat, u64)>, TokenBucket)
    decreases scripts.len(),
{
    if scripts.len() == 0 {
        (Seq::empty(), b)
    } else {
        let d = drive(b, scripts[0], now, 0, max_waits, max_rl_retries, max_retries, base_delay);
        let rest = batch_drive(
            d.2,
            scripts.drop_first(),
            now,
            max_waits,
            max_rl_retries,
            max_retries,
            base_delay,
        );
        (seq![(d.0, d.1, d.3)] + rest.0, rest.1)
    }
}

/// The batch settles exactly one outcome per unit.
pub proof fn lemma_batch_drive_len(
    b: TokenBucket,
    scripts: Seq<Seq<TaskOutcome>>,
    now: u64,
    max_waits: nat,
    max_rl_retries: nat,
    max_retries: nat,
    base_delay: u64,
)
    ensures
        batch_drive(b, scripts, now, max_waits, max_rl_retries, max_retries, base_delay).0.len()
            == scripts.len(),
    decreases scripts.len(),
{
    if scripts.len() > 0 {
        let d = drive(b, scripts[0], now, 0, max_waits, max_rl_retries, max_retries, base_delay);
        lemma_batch_drive_len(
            d.2,
            scripts.drop_first(),
            now,
            max_waits,
            max_rl_retries,
            max_retries,
            base_delay,
        );
    }
}

/// Processes one unit of work: up to `max_retries` outer attempts through
/// the queue, with exponential backoff between attempts.
///
/// The unit's terminal outcome is exactly what [`drive`] computes: on
/// completion a success record with the task's value to persist; on a
/// non-rate-limit failure a failure record carrying the task's message, at
/// once and with no retry; and when every attempt was still rate-limited
/// (or starved of tokens) a failure record noting the exhausted retry
/// count. The concurrency permit taken for each attempt is released on
/// every path.
pub fn process_unit(
    queue: &mut RequestQueue,
    unit: &String,
    script: &Vec<TaskOutcome>,
    now: u64,
    dcfg: &DriverConfig,
) -> (r: UnitReport)
    requires
        old(queue).wf(),
        old(queue).semaphore.can_acquire(),
        dcfg.valid(),
    ensures
        final(queue).wf(),
        final(queue).semaphore == old(queue).semaphore,
        final(queue).max_token_waits == old(queue).max_token_waits,
        final(queue).max_rate_limit_retries == old(queue).max_rate_limit_retries,
        ({
            let d = drive(
                old(queue).token_bucket,
                script@,
                now,
                0,
                old(queue).max_token_waits as nat,
                old(queue).max_rate_limit_retries as nat,
                dcfg.max_retries as nat,
                dcfg.base_delay,
            );
            &&& final(queue).token_bucket == d.2
            &&& r.entry.unit_identity == *unit
            &&& r.entry.timestamp == d.3
            &&& r.entry.wf()
            &&& (d.0 matches ExecOutcome::Completed(v) ==> {
                &&& r.output == Some(v)
                &&& r.entry.status is Success
                &&& r.entry.error_message is None
            })
            &&& (d.0 matches ExecOutcome::Failed(m) ==> {
                &&& r.output is None
                &&& r.entry.status is Failed
                &&& r.entry.error_message == Some(m)
            })
            &&& ((d.0 is RateLimited || d.0 is Starved) ==> {
                &&& r.output is None
                &&& r.entry.status is Failed
                &&& (r.entry.error_message matches Some(m) && m@ == exhausted_message(
                    dcfg.max_retries,
                ))
            })
        }),
{
    let ghost b0 = queue.token_bucket;
    let ghost w0 = queue.max_token_waits as nat;
    let ghost r0 = queue.max_rate_limit_retries as nat;
    let mut cursor: usize = 0;
    let mut t: u64 = now;
    let mut delay: u64 = dcfg.base_delay;
    let mut remaining: u64 = dcfg.max_retries;
    loop
        invariant
            queue.wf(),
            queue.semaphore == old(queue).semaphore,
            queue.max_token_waits == old(queue).max_token_waits,
            queue.max_rate_limit_retries == old(queue).max_rate_limit_retries,
            old(queue).semaphore.can_acquire(),
            w0 == old(queue).max_token_waits as nat,
            r0 == old(queue).max_rate_limit_retries as nat,
            remaining >= 1,
            cursor <= script@.len(),
            drive(b0, script@, now, 0, w0, r0, dcfg.max_retries as nat, dcfg.base_delay)
                == drive(
                queue.token_bucket,
                script@,
                t,
                cursor as nat,
                w0,
                r0,
                remaining as nat,
                delay,
            ),
            b0 == old(queue).token_bucket,
        decreases remaining,
    {
        let ghost prev_bucket = queue.token_bucket;
        let ghost prev_cursor = cursor as nat;
        let ghost prev_t = t;
        proof {
            crate::queue::lemma_protocol_cursor_bounds(
                prev_bucket,
                script@,
                prev_t,
                prev_cursor,
                w0,
                w0,
                r0,
            );
        }
        let script_len: usize = script.len();
        let rep = queue.execute(script, cursor, t);
        proof {
            let res = protocol(prev_bucket, script@, prev_t, prev_cursor, w0, w0, r0);
            assert(cursor + rep.invocations == res.1);
            assert(res.1 <= script_len);
        }
        cursor = cursor + rep.invocations;
        match rep.outcome {
            ExecOutcome::Completed(v) => {
                return UnitReport {
                    entry: LedgerEntry {
                        timestamp: t,
                        unit_identity: unit.clone(),
                        status: EntryStatus::Success,
                        error_message: None,
                    },
                    output: Some(v),
                };
            },
            ExecOutcome::Failed(m) => {
                return UnitReport {
                    entry: LedgerEntry {
                        timestamp: t,
                        unit_identity: unit.clone(),
                        status: EntryStatus::Failed,
                        error_message: Some(m),
                    },
                    output: None,
                };
            },
            _ => {
                if remaining <= 1 {
                    let mut msg = "rate limit retries exhausted after ".to_owned();
                    msg.append(crate::ledger::u64_to_dec(dcfg.max_retries).as_str());
                    msg.append(" attempts");
                    proof {
                        assert(msg@ =~= exhausted_message(dcfg.max_retries));
                    }
                    return UnitReport {
                        entry: LedgerEntry {
                            timestamp: t,
                            unit_identity: unit.clone(),
                            status: EntryStatus::Failed,
                            error_message: Some(msg),
                        },
                        output: None,
                    };
                }
                remaining = remaining - 1;
                t = crate::queue::clock_add_exec(t, delay);
                delay = crate::queue::clock_add_exec(delay, delay);
            },
        }
    }
}

/// The number of records a destination holds (its header line, once
/// present, is not a record).
pub open spec fn record_count(lines: Seq<Seq<char>>) -> int {
    if lines.len() == 0 {
        0
    } else {
        lines.len() - 1
    }
}

/// Appending one record grows the destination's record count by one.
pub proof fn lemma_appended_record_count(lines: Seq<Seq<char>>, e: LedgerEntry)
    ensures
        record_count(appended_view(lines, e)) == record_count(lines) + 1,
{
}

/// The ledger line that a settled unit produces: its final attempt's
/// start time, its identity, and its status with the message the outcome
/// dictates.
pub open spec fn settled_line(
    unit: Seq<char>,
    settled: (ExecOutcome, nat, u64),
    max_retries: u64,
) -> Seq<char> {
    match settled.0 {
        ExecOutcome::Completed(_) => crate::ledger::dec_chars(settled.2 as nat) + ","@ + unit
            + ","@ + "SUCCESS"@ + ","@ + "-"@,
        ExecOutcome::Failed(m) => crate::ledger::dec_chars(settled.2 as nat) + ","@ + unit + ","@
            + "FAILED"@ + ","@ + m@,
        _ => crate::ledger::dec_chars(settled.2 as nat) + ","@ + unit + ","@ + "FAILED"@ + ","@
            + exhausted_message(max_retries),
    }
}

/// The lines the batch's first `i` units add to the success stream, in
/// batch order.
pub open spec fn success_lines_added(
    units: Seq<Seq<char>>,
    settled: Seq<(ExecOutcome, nat, u64)>,
    max_retries: u64,
    i: int,
) -> Seq<Seq<char>>
    decreases i,
{
    if i <= 0 {
        Seq::empty()
    } else {
        let rest = success_lines_added(units, settled, max_retries, i - 1);
        if settled[i - 1].0 is Completed {
            rest.push(settled_line(units[i - 1], settled[i - 1], max_retries))
        } else {
            rest
        }
    }
}

/// The lines the batch's first `i` units add to the failure stream, in
/// batch order.
pub open spec fn failure_lines_added(
    units: Seq<Seq<char>>,
    settled: Seq<(ExecOutcome, nat, u64)>,
    max_retries: u64,
    i: int,
) -> Seq<Seq<char>>
    decreases i,
{
    if i <= 0 {
        Seq::empty()
    } else {
        let rest = failure_lines_added(units, settled, max_retries, i - 1);
        if settled[i - 1].0 is Completed {
            rest
        } else {
            rest.push(settled_line(units[i - 1], settled[i - 1], max_retries))
        }
    }
}

/// A destination after a batch of appends: untouched when nothing was
/// added, else header-initialized (if this was its first write) and the
/// added lines in order.
pub open spec fn stream_extended(base: Seq<Seq<char>>, added: Seq<Seq<char>>) -> Seq<Seq<char>> {
    if added.len() == 0 {
        base
    } else if base.len() == 0 {
        seq![crate::ledger::header_chars()] + added
    } else {
        base + added
    }
}

/// How many of the first `i` settled units completed successfully.
pub open spec fn completed_among(settled: Seq<(ExecOutcome, nat, u64)>, i: int) -> int
    decreases i,
{
    if i <= 0 {
        0
    } else {
        completed_among(settled, i - 1) + if settled[i - 1].0 is Completed {
            1int
        } else {
            0int
        }
    }
}

/// Processes a whole batch: each unit of work is processed independently
/// and its terminal outcome appended to the ledger, so no unit is lost and
/// no unit is recorded twice — the ledger gains exactly one record per
/// unit, and a failure of one unit never aborts the batch. Entry `i` of
/// the result is exactly what [`batch_drive`] settles for unit `i`: its
/// success value when it completed, nothing otherwise.
pub fn run_batch(
    queue: &mut RequestQueue,
    units: &Vec<String>,
    scripts: &Vec<Vec<TaskOutcome>>,
    now: u64,
    dcfg: &DriverConfig,
    ledger: &mut ExtractionLedger,
) -> (outputs: Vec<Option<String>>)
    requires
        old(queue).wf(),
        old(queue).semaphore.can_acquire(),
        dcfg.valid(),
        units@.len() == scripts@.len(),
    ensures
        final(queue).wf(),
        final(queue).semaphore == old(queue).semaphore,
        outputs@.len() == units@.len(),
        record_count(lines_view(final(ledger).success_lines@)) + record_count(
            lines_view(final(ledger).failure_lines@),
        ) == record_count(lines_view(old(ledger).success_lines@)) + record_count(
            lines_view(old(ledger).failure_lines@),
        ) + units@.len(),
        ({
            let full = batch_drive(
                old(queue).token_bucket,
                scripts@.map_values(|s: Vec<TaskOutcome>| s@),
                now,
                old(queue).max_token_waits as nat,
                old(queue).max_rate_limit_retries as nat,
                dcfg.max_retries as nat,
                dcfg.base_delay,
            );
            &&& final(queue).token_bucket == full.1
            &&& forall|i: int|
                0 <= i < units@.len() ==> match (#[trigger] full.0[i]).0 {
                    ExecOutcome::Completed(v) => outputs@[i] == Some(v),
                    _ => outputs@[i] is None,
                }
            &&& record_count(lines_view(final(ledger).success_lines@)) == record_count(
                lines_view(old(ledger).success_lines@),
            ) + completed_among(full.0, units@.len() as int)
            &&& record_count(lines_view(final(ledger).failure_lines@)) == record_count(
                lines_view(old(ledger).failure_lines@),
            ) + units@.len() - completed_among(full.0, units@.len() as int)
            &&& lines_view(final(ledger).success_lines@) == stream_extended(
                lines_view(old(ledger).success_lines@),
                success_lines_added(
                    units@.map_values(|u: String| u@),
                    full.0,
                    dcfg.max_retries,
                    units@.len() as int,
                ),
            )
            &&& lines_view(final(ledger).failure_lines@) == stream_extended(
                lines_view(old(ledger).failure_lines@),
                failure_lines_added(
                    units@.map_values(|u: String| u@),
                    full.0,
                    dcfg.max_retries,
                    units@.len() as int,
                ),
            )
        }),
{
    let ghost b0 = queue.token_bucket;
    let ghost sv = scripts@.map_values(|s: Vec<TaskOutcome>| s@);
    let ghost uv = units@.map_values(|u: String| u@);
    let ghost w0 = queue.max_token_waits as nat;
    let ghost r0 = queue.max_rate_limit_retries as nat;
    let ghost full = batch_drive(b0, sv, now, w0, r0, dcfg.max_retries as nat, dcfg.base_delay);
    let mut outputs: Vec<Option<String>> = Vec::new();
    let mut idx: usize = 0;
    proof {
        assert(sv.skip(0) =~= sv);
        assert(full.0.skip(0) =~= full.0);
        lemma_batch_drive_len(b0, sv, now, w0, r0, dcfg.max_retries as nat, dcfg.base_delay);
    }
    while idx < units.len()
        invariant
            queue.wf(),
            queue.semaphore == old(queue).semaphore,
            queue.max_token_waits == old(queue).max_token_waits,
            queue.max_rate_limit_retries == old(queue).max_rate_limit_retries,
            old(queue).semaphore.can_acquire(),
            b0 == old(queue).token_bucket,
            w0 == old(queue).max_token_waits as nat,
            r0 == old(queue).max_rate_limit_retries as nat,
            sv == scripts@.map_values(|s: Vec<TaskOutcome>| s@),
            full == batch_drive(b0, sv, now, w0, r0, dcfg.max_retries as nat, dcfg.base_delay),
            units@.len() == scripts@.len(),
            idx <= units@.len(),
            outputs@.len() == idx,
            dcfg.valid(),
            full.0.len() == sv.len(),
            batch_drive(
                queue.token_bucket,
                sv.skip(idx as int),
                now,
                w0,
                r0,
                dcfg.max_retries as nat,
                dcfg.base_delay,
            ) == (full.0.skip(idx as int), full.1),
            forall|i: int|
                0 <= i < idx ==> match (#[trigger] full.0[i]).0 {
                    ExecOutcome::Completed(v) => outputs@[i] == Some(v),
                    _ => outputs@[i] is None,
                },
            record_count(lines_view(ledger.success_lines@)) == record_count(
                lines_view(old(ledger).success_lines@),
            ) + completed_among(full.0, idx as int),
            record_count(lines_view(ledger.failure_lines@)) == record_count(
                lines_view(old(ledger).failure_lines@),
            ) + idx - completed_among(full.0, idx as int),
            uv == units@.map_values(|u: String| u@),
            lines_view(ledger.success_lines@) == stream_extended(
                lines_view(old(ledger).success_lines@),
                success_lines_added(uv, full.0, dcfg.max_retries, idx as int),
            ),
            lines_view(ledger.failure_lines@) == stream_extended(
                lines_view(old(ledger).failure_lines@),
                failure_lines_added(uv, full.0, dcfg.max_retries, idx as int),
            ),
        decreases units@.len() - idx,
    {
        let ghost prev_bucket = queue.token_bucket;
        proof {
            assert(sv.skip(idx as int)[0] == sv[idx as int]);
            assert(sv[idx as int] == scripts@[idx as int]@);
            lemma_drive_not_busy(
                prev_bucket,
                sv[idx as int],
                now,
                0,
                w0,
                r0,
                dcfg.max_retries as nat,
                dcfg.base_delay,
            );
        }
        let report = process_unit(queue, &units[idx], &scripts[idx], now, dcfg);
        proof {
            let d = drive(
                prev_bucket,
                sv[idx as int],
                now,
                0,
                w0,
                r0,
                dcfg.max_retries as nat,
                dcfg.base_delay,
            );
            assert(sv.skip(idx as int).drop_first() =~= sv.skip(idx + 1));
            assert(full.0.skip(idx as int)[0] == full.0[idx as int]);
            assert(full.0.skip(idx as int).drop_first() =~= full.0.skip(idx + 1));
            assert(full.0[idx as int] == (d.0, d.1, d.3));
            assert(crate::ledger::line_chars(report.entry) =~= settled_line(
                uv[idx as int],
                full.0[idx as int],
                dcfg.max_retries,
            ));
            lemma_appended_record_count(
                lines_view(
                    if report.entry.status is Success {
                        ledger.success_lines@
                    } else {
                        ledger.failure_lines@
                    },
                ),
                report.entry,
            );
        }
        ledger.append(&report.entry);
        proof {
            let base_s = lines_view(old(ledger).success_lines@);
            let base_f = lines_view(old(ledger).failure_lines@);
            let line = settled_line(uv[idx as int], full.0[idx as int], dcfg.max_retries);
            if report.entry.status is Success {
                assert(success_lines_added(uv, full.0, dcfg.max_retries, idx + 1)
                    == success_lines_added(uv, full.0, dcfg.max_retries, idx as int).push(line));
                assert(failure_lines_added(uv, full.0, dcfg.max_retries, idx + 1)
                    == failure_lines_added(uv, full.0, dcfg.max_retries, idx as int));
                assert(lines_view(ledger.success_lines@) =~= stream_extended(
                    base_s,
                    success_lines_added(uv, full.0, dcfg.max_retries, idx + 1),
                ));
            } else {
                assert(failure_lines_added(uv, full.0, dcfg.max_retries, idx + 1)
                    == failure_lines_added(uv, full.0, dcfg.max_retries, idx as int).push(line));
                assert(success_lines_added(uv, full.0, dcfg.max_retries, idx + 1)
                    == success_lines_added(uv, full.0, dcfg.max_retries, idx as int));
                assert(lines_view(ledger.failure_lines@) =~= stream_extended(
                    base_f,
                    failure_lines_added(uv, full.0, dcfg.max_retries, idx + 1),
                ));
            }
        }
        outputs.push(report.output);
        idx = idx + 1;
    }
    proof {
        assert(full.0.len() == units@.len());
    }
    outputs
}

} // verus!
