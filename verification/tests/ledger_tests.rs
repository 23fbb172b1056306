use hvertex::ledger::{format_entry, u64_to_dec, EntryStatus, ExtractionLedger, LedgerEntry};

#[test]
fn test_u64_to_dec() {
    assert_eq!(u64_to_dec(0), "0");
    assert_eq!(u64_to_dec(7), "7");
    assert_eq!(u64_to_dec(10), "10");
    assert_eq!(u64_to_dec(12345), "12345");
    assert_eq!(u64_to_dec(u64::MAX), "18446744073709551615");
}

#[test]
fn test_format_success_entry() {
    let e = LedgerEntry {
        timestamp: 123,
        unit_identity: String::from("docs/a.pdf"),
        status: EntryStatus::Success,
        error_message: None,
    };
    assert_eq!(format_entry(&e), "123,docs/a.pdf,SUCCESS,-");
}

#[test]
fn test_format_failed_entry() {
    let e = LedgerEntry {
        timestamp: 456,
        unit_identity: String::from("docs/b.pdf"),
        status: EntryStatus::Failed,
        error_message: Some(String::from("auth denied")),
    };
    assert_eq!(format_entry(&e), "456,docs/b.pdf,FAILED,auth denied");
}

#[test]
fn test_header_written_exactly_once() {
    let mut ledger = ExtractionLedger::new();
    let e1 = LedgerEntry {
        timestamp: 1,
        unit_identity: String::from("a"),
        status: EntryStatus::Success,
        error_message: None,
    };
    let e2 = LedgerEntry {
        timestamp: 2,
        unit_identity: String::from("b"),
        status: EntryStatus::Success,
        error_message: None,
    };
    ledger.append(&e1);
    ledger.append(&e2);
    assert_eq!(
        ledger.success_lines,
        vec![
            String::from("timestamp,file_path,status,error_message"),
            String::from("1,a,SUCCESS,-"),
            String::from("2,b,SUCCESS,-"),
        ]
    );
    // The failure destination is untouched: not even its header yet.
    assert!(ledger.failure_lines.is_empty());
}

#[test]
fn test_streams_partitioned_by_status() {
    let mut ledger = ExtractionLedger::new();
    let ok = LedgerEntry {
        timestamp: 5,
        unit_identity: String::from("ok.pdf"),
        status: EntryStatus::Success,
        error_message: None,
    };
    let bad = LedgerEntry {
        timestamp: 6,
        unit_identity: String::from("bad.pdf"),
        status: EntryStatus::Failed,
        error_message: Some(String::from("boom")),
    };
    ledger.append(&ok);
    ledger.append(&bad);
    assert_eq!(ledger.success_count(), 1);
    assert_eq!(ledger.failure_count(), 1);
    assert_eq!(ledger.failure_lines[1], "6,bad.pdf,FAILED,boom");
}
