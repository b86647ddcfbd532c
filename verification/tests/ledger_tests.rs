use mapping_harness::errors::FatalError;
use mapping_harness::ledger::{fail_test, level_from_u32, Level, ReportLine, TestLedger};

#[test]
fn register_and_count() {
    let mut ledger = TestLedger::new();
    assert!(!ledger.has_tests());
    ledger.register_test("a".to_string()).unwrap();
    ledger.register_test("b".to_string()).unwrap();
    assert!(ledger.has_tests());
    assert_eq!(ledger.get_successful_tests(), 2);
    assert_eq!(ledger.get_failed_tests(), 0);
    assert_eq!(ledger.summary(), (2, 0));
}

#[test]
fn duplicate_registration_is_fatal() {
    let mut ledger = TestLedger::new();
    ledger.register_test("A".to_string()).unwrap();
    let err = ledger.register_test("A".to_string()).unwrap_err();
    match &err {
        FatalError::DuplicateTest { name } => assert_eq!(name, "A"),
        other => panic!("unexpected error: {:?}", other),
    }
    assert_eq!(
        err.message(),
        "Test with name 'A' already exists."
    );
    // The failed registration changed nothing.
    assert_eq!(ledger.summary(), (1, 0));
}

#[test]
fn fail_test_flips_only_most_recent() {
    let mut ledger = TestLedger::new();
    ledger.register_test("first".to_string()).unwrap();
    ledger.register_test("A".to_string()).unwrap();
    fail_test(&mut ledger, "boom".to_string());
    assert_eq!(ledger.summary(), (1, 1));
    let report = ledger.flush_logs();
    assert_eq!(report[0], ReportLine::Passed("first".to_string()));
    assert_eq!(report[1], ReportLine::Failed("A".to_string()));
    assert_eq!(
        report[2],
        ReportLine::Log("boom".to_string(), Level::ERROR)
    );
}

#[test]
fn fail_test_twice_keeps_single_failure() {
    let mut ledger = TestLedger::new();
    ledger.register_test("only".to_string()).unwrap();
    fail_test(&mut ledger, "first failure".to_string());
    fail_test(&mut ledger, "second failure".to_string());
    assert_eq!(ledger.summary(), (0, 1));
}

#[test]
fn flush_interleaves_markers_and_logs_in_insertion_order() {
    let mut ledger = TestLedger::new();
    ledger.register_test("t1".to_string()).unwrap();
    ledger.log_line("plain line".to_string(), Level::DEBUG);
    ledger.register_test("t2".to_string()).unwrap();
    let report = ledger.flush_logs();
    assert_eq!(
        report,
        vec![
            ReportLine::Passed("t1".to_string()),
            ReportLine::Log("plain line".to_string(), Level::DEBUG),
            ReportLine::Passed("t2".to_string()),
        ]
    );
}

#[test]
fn levels_from_codes() {
    assert_eq!(level_from_u32(1), Level::ERROR);
    assert_eq!(level_from_u32(2), Level::WARNING);
    assert_eq!(level_from_u32(3), Level::INFO);
    assert_eq!(level_from_u32(4), Level::DEBUG);
    assert_eq!(level_from_u32(5), Level::SUCCESS);
    assert_eq!(level_from_u32(0), Level::UNKNOWN);
    assert_eq!(level_from_u32(99), Level::UNKNOWN);
}
