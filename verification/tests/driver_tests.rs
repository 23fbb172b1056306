use hvertex::driver::{process_unit, run_batch, DriverConfig};
use hvertex::ledger::{EntryStatus, ExtractionLedger};
use hvertex::queue::{QueueConfig, RequestQueue, TaskOutcome};

fn queue_config() -> QueueConfig {
    QueueConfig {
        max_tokens: 1000,
        refill_tokens: 100,
        refill_interval: 100_000_000,
        max_concurrent_requests: 3,
        max_token_waits: 600,
        // Inner retries off: a rate-limited attempt surfaces to the
        // driver's outer retry at once.
        max_rate_limit_retries: 0,
    }
}

#[test]
fn test_batch_of_five_units_ledger() {
    // Five units: two always succeed, two fail with a non-retryable
    // error, one is rate-limited on every attempt. With three outer
    // attempts the rate-limited unit exhausts its retries, so the ledger
    // holds three FAILED and two SUCCESS records — five in all, one per
    // unit, none duplicated, none missing.
    let mut q = RequestQueue::new(queue_config(), 0);
    let dcfg = DriverConfig { max_retries: 3, base_delay: 1_000_000_000 };
    let mut ledger = ExtractionLedger::new();
    let units = vec![
        String::from("a.pdf"),
        String::from("b.pdf"),
        String::from("c.pdf"),
        String::from("d.pdf"),
        String::from("e.pdf"),
    ];
    let scripts = vec![
        vec![TaskOutcome::Success(String::from("data-a"))],
        vec![TaskOutcome::Success(String::from("data-b"))],
        vec![TaskOutcome::Failed(String::from("malformed payload"))],
        vec![TaskOutcome::Failed(String::from("auth denied"))],
        vec![
            TaskOutcome::RateLimited,
            TaskOutcome::RateLimited,
            TaskOutcome::RateLimited,
            TaskOutcome::RateLimited,
            TaskOutcome::Success(String::from("data-e")),
        ],
    ];
    let outputs = run_batch(&mut q, &units, &scripts, 0, &dcfg, &mut ledger);

    assert_eq!(outputs.len(), 5);
    assert_eq!(outputs[0].as_deref(), Some("data-a"));
    assert_eq!(outputs[1].as_deref(), Some("data-b"));
    assert_eq!(outputs[2], None);
    assert_eq!(outputs[3], None);
    assert_eq!(outputs[4], None);

    // Header plus two success records; header plus three failure records.
    assert_eq!(ledger.success_count(), 2);
    assert_eq!(ledger.failure_count(), 3);
    assert_eq!(ledger.success_lines.len(), 3);
    assert_eq!(ledger.failure_lines.len(), 4);
    assert_eq!(
        ledger.success_lines[0],
        "timestamp,file_path,status,error_message"
    );
    assert!(ledger.success_lines[1].contains("a.pdf"));
    assert!(ledger.success_lines[2].contains("b.pdf"));
    assert!(ledger.failure_lines[1].contains("c.pdf"));
    assert!(ledger.failure_lines[1].contains("malformed payload"));
    assert!(ledger.failure_lines[2].contains("d.pdf"));
    assert!(ledger.failure_lines[3].contains("e.pdf"));
    assert!(ledger.failure_lines[3].contains("rate limit retries exhausted after 3 attempts"));
}

#[test]
fn test_process_unit_success_entry() {
    let mut q = RequestQueue::new(queue_config(), 0);
    let dcfg = DriverConfig::default();
    let script = vec![TaskOutcome::Success(String::from("payload"))];
    let report = process_unit(&mut q, &String::from("doc.pdf"), &script, 7, &dcfg);
    assert_eq!(report.entry.unit_identity, "doc.pdf");
    assert_eq!(report.entry.timestamp, 7);
    assert!(matches!(report.entry.status, EntryStatus::Success));
    assert_eq!(report.entry.error_message, None);
    assert_eq!(report.output.as_deref(), Some("payload"));
}

#[test]
fn test_process_unit_fail_fast() {
    // A non-rate-limit failure is terminal at once: no outer retry.
    let mut q = RequestQueue::new(queue_config(), 0);
    let dcfg = DriverConfig { max_retries: 5, base_delay: 1_000_000_000 };
    let script = vec![
        TaskOutcome::Failed(String::from("bad key")),
        TaskOutcome::Success(String::from("never")),
    ];
    let report = process_unit(&mut q, &String::from("doc.pdf"), &script, 0, &dcfg);
    assert!(matches!(report.entry.status, EntryStatus::Failed));
    assert_eq!(report.entry.error_message.as_deref(), Some("bad key"));
    assert_eq!(report.output, None);
    // Only the first entry was consumed: one invocation.
    assert_eq!(q.available_tokens(), 999);
}

#[test]
fn test_exponential_backoff_timestamps() {
    // Three attempts with base delay d back off d then 2d: the final
    // attempt begins at t0 + 3d, which is the failure record's timestamp.
    let mut q = RequestQueue::new(queue_config(), 0);
    let d = 1_000_000_000;
    let dcfg = DriverConfig { max_retries: 3, base_delay: d };
    let script = vec![
        TaskOutcome::RateLimited,
        TaskOutcome::RateLimited,
        TaskOutcome::RateLimited,
    ];
    let report = process_unit(&mut q, &String::from("doc.pdf"), &script, 0, &dcfg);
    assert!(matches!(report.entry.status, EntryStatus::Failed));
    assert_eq!(report.entry.timestamp, 3 * d);
    assert_eq!(
        report.entry.error_message.as_deref(),
        Some("rate limit retries exhausted after 3 attempts")
    );
}

#[test]
fn test_second_batch_appends_without_second_header() {
    let mut q = RequestQueue::new(queue_config(), 0);
    let dcfg = DriverConfig::default();
    let mut ledger = ExtractionLedger::new();
    let first_units = vec![String::from("one.pdf")];
    let first_scripts = vec![vec![TaskOutcome::Success(String::from("v1"))]];
    run_batch(&mut q, &first_units, &first_scripts, 0, &dcfg, &mut ledger);

    let second_units = vec![String::from("two.pdf"), String::from("three.pdf")];
    let second_scripts = vec![
        vec![TaskOutcome::Success(String::from("v2"))],
        vec![TaskOutcome::Failed(String::from("boom"))],
    ];
    run_batch(&mut q, &second_units, &second_scripts, 0, &dcfg, &mut ledger);

    // One header, then one record per successful unit, across both runs.
    assert_eq!(ledger.success_lines.len(), 3);
    assert_eq!(ledger.success_count(), 2);
    assert_eq!(ledger.failure_count(), 1);
    assert_eq!(
        ledger.success_lines[0],
        "timestamp,file_path,status,error_message"
    );
    assert!(ledger.success_lines[1].contains("one.pdf"));
    assert!(ledger.success_lines[2].contains("two.pdf"));
    assert!(ledger.failure_lines[1].contains("three.pdf"));
}

#[test]
fn test_driver_config_default() {
    let c = DriverConfig::default();
    assert_eq!(c.max_retries, 3);
    assert_eq!(c.base_delay, 1_000_000_000);
}
