use hvertex::gate::ConcurrencyGate;
use hvertex::queue::{ExecOutcome, QueueConfig, RequestQueue, TaskOutcome};
use hvertex::textscan::{classify_failure, is_rate_limit_message};

fn config() -> QueueConfig {
    QueueConfig {
        max_tokens: 100,
        refill_tokens: 10,
        refill_interval: 100_000_000,
        max_concurrent_requests: 3,
        max_token_waits: 600,
        max_rate_limit_retries: 60,
    }
}

#[test]
fn test_gate_limits_concurrency() {
    // The high-water mark of outstanding permits never exceeds the cap.
    let mut gate = ConcurrencyGate::new(3);
    let mut high_water = 0u64;
    assert!(gate.try_acquire());
    assert!(gate.try_acquire());
    assert!(gate.try_acquire());
    high_water = high_water.max(gate.held());
    // No fourth permit while three are outstanding.
    assert!(!gate.try_acquire());
    high_water = high_water.max(gate.held());
    gate.release();
    assert!(gate.try_acquire());
    high_water = high_water.max(gate.held());
    assert_eq!(high_water, 3);
    assert_eq!(gate.available(), 0);
}

#[test]
fn test_gate_release_restores_permits() {
    let mut gate = ConcurrencyGate::new(2);
    assert!(gate.try_acquire());
    assert!(gate.try_acquire());
    gate.release();
    gate.release();
    assert_eq!(gate.held(), 0);
    assert_eq!(gate.available(), 2);
}

#[test]
fn test_execute_success_first_try() {
    let mut q = RequestQueue::new(config(), 0);
    let script = vec![TaskOutcome::Success(String::from("ok"))];
    let r = q.execute(&script, 0, 0);
    assert!(matches!(r.outcome, ExecOutcome::Completed(ref v) if v == "ok"));
    assert_eq!(r.invocations, 1);
    assert_eq!(q.available_tokens(), 99);
    assert_eq!(q.semaphore.held(), 0);
}

#[test]
fn test_non_rate_limit_error_invoked_once() {
    // A task that fails with a non-rate-limit error is invoked exactly
    // once: the failure surfaces with no retry.
    let mut q = RequestQueue::new(config(), 0);
    let script = vec![
        TaskOutcome::Failed(String::from("bad request")),
        TaskOutcome::Success(String::from("never reached")),
    ];
    let r = q.execute(&script, 0, 0);
    assert!(matches!(r.outcome, ExecOutcome::Failed(ref m) if m == "bad request"));
    assert_eq!(r.invocations, 1);
}

#[test]
fn test_rate_limited_then_succeeds() {
    // A task rejected as rate-limited n times and then succeeding is
    // invoked n + 1 times and its value is returned.
    let n = 3;
    let mut script = Vec::new();
    for _ in 0..n {
        script.push(TaskOutcome::RateLimited);
    }
    script.push(TaskOutcome::Success(String::from("done")));
    let mut q = RequestQueue::new(config(), 0);
    let r = q.execute(&script, 0, 0);
    assert!(matches!(r.outcome, ExecOutcome::Completed(ref v) if v == "done"));
    assert_eq!(r.invocations, n + 1);
}

#[test]
fn test_rate_limit_retry_ceiling() {
    let mut cfg = config();
    cfg.max_rate_limit_retries = 1;
    let mut q = RequestQueue::new(cfg, 0);
    let script = vec![
        TaskOutcome::RateLimited,
        TaskOutcome::RateLimited,
        TaskOutcome::Success(String::from("late")),
    ];
    let r = q.execute(&script, 0, 0);
    assert!(matches!(r.outcome, ExecOutcome::RateLimited));
    assert_eq!(r.invocations, 2);
}

#[test]
fn test_starved_when_tokens_never_come() {
    let cfg = QueueConfig {
        max_tokens: 0,
        refill_tokens: 0,
        refill_interval: 1,
        max_concurrent_requests: 1,
        max_token_waits: 4,
        max_rate_limit_retries: 60,
    };
    let mut q = RequestQueue::new(cfg, 0);
    let script = vec![TaskOutcome::Success(String::from("unreachable"))];
    let r = q.execute(&script, 0, 0);
    assert!(matches!(r.outcome, ExecOutcome::Starved));
    assert_eq!(r.invocations, 0);
}

#[test]
fn test_busy_when_no_permit_free() {
    let mut cfg = config();
    cfg.max_concurrent_requests = 1;
    let mut q = RequestQueue::new(cfg, 0);
    // Simulate another task holding the single permit.
    assert!(q.semaphore.try_acquire());
    let script = vec![TaskOutcome::Success(String::from("x"))];
    let r = q.execute(&script, 0, 0);
    assert!(matches!(r.outcome, ExecOutcome::Busy));
    assert_eq!(r.invocations, 0);
    q.semaphore.release();
    let r2 = q.execute(&script, 0, 0);
    assert!(matches!(r2.outcome, ExecOutcome::Completed(_)));
}

#[test]
fn test_waits_for_refill_then_runs() {
    // One token in the bucket; the first call spends it, the second waits
    // on the simulated clock until a refill grants another.
    let cfg = QueueConfig {
        max_tokens: 1,
        refill_tokens: 1,
        refill_interval: 100_000_000,
        max_concurrent_requests: 1,
        max_token_waits: 600,
        max_rate_limit_retries: 60,
    };
    let mut q = RequestQueue::new(cfg, 0);
    let script = vec![TaskOutcome::Success(String::from("first"))];
    let r1 = q.execute(&script, 0, 0);
    assert!(matches!(r1.outcome, ExecOutcome::Completed(_)));
    let script2 = vec![TaskOutcome::Success(String::from("second"))];
    let r2 = q.execute(&script2, 0, 0);
    assert!(matches!(r2.outcome, ExecOutcome::Completed(ref v) if v == "second"));
    assert_eq!(r2.invocations, 1);
}

#[test]
fn test_rate_limit_detection() {
    assert!(is_rate_limit_message("HTTP 429 Too Many Requests"));
    assert!(is_rate_limit_message("429"));
    assert!(!is_rate_limit_message("internal server error"));
    assert!(!is_rate_limit_message(""));
    assert!(!is_rate_limit_message("42 9"));
}

#[test]
fn test_classify_failure() {
    let t = classify_failure(String::from("status 429: slow down"));
    assert!(matches!(t, TaskOutcome::RateLimited));
    let t2 = classify_failure(String::from("connection refused"));
    assert!(matches!(t2, TaskOutcome::Failed(ref m) if m == "connection refused"));
}

#[test]
fn test_queue_config_default() {
    let c = QueueConfig::default();
    assert_eq!(c.max_tokens, 1_000_000);
    assert_eq!(c.refill_tokens, 100_000);
    assert_eq!(c.refill_interval, 60_000_000_000);
    assert_eq!(c.max_concurrent_requests, 3);
}
