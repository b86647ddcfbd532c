use mapping_harness::host::{BlockPtr, InstanceContext};
use mapping_harness::ledger::TestLedger;
use mapping_harness::store::{Entity, MockStore};
use mapping_harness::stubs::CallStubRegistry;
use mapping_harness::trap::HostError;
use mapping_harness::errors::FatalError;
use mapping_harness::value::{ScalarValue, Value};

fn fresh_ctx() -> InstanceContext {
    InstanceContext {
        store: MockStore::new(),
        stubs: CallStubRegistry::new(),
        ledger: TestLedger::new(),
        subgraph_id: "s".to_string(),
        block: BlockPtr { number: 1, hash: vec![] },
        timeout_secs: None,
        handler_depth: 0,
        deterministic_host_trap: false,
        possible_reorg: false,
    }
}

fn str_value(s: &str) -> Value {
    Value::Scalar(ScalarValue::Str(s.to_string()))
}

fn seed(ctx: &mut InstanceContext) {
    ctx.register_test("t1".to_string()).unwrap();
    let mut e = Entity::new();
    e.set_field("symbol".to_string(), str_value("AAA"));
    ctx.mock_store_set("Token".to_string(), "1".to_string(), e).unwrap();
}

fn last_error_line(ctx: &InstanceContext) -> String {
    let report = ctx.ledger.flush_logs();
    match report.last().expect("report should not be empty") {
        mapping_harness::ledger::ReportLine::Log(msg, _) => msg.clone(),
        other => panic!("expected a log line, got {:?}", other),
    }
}

#[test]
fn four_distinct_messages_in_checking_order() {
    let mut ctx = fresh_ctx();
    seed(&mut ctx);

    ctx.assert_field_equals(
        &"Missing".to_string(), &"1".to_string(), &"symbol".to_string(), &"AAA".to_string(),
    ).unwrap();
    let m1 = last_error_line(&ctx);
    assert_eq!(m1, "(assert.fieldEquals) No entities with type 'Missing' found.");

    ctx.assert_field_equals(
        &"Token".to_string(), &"9".to_string(), &"symbol".to_string(), &"AAA".to_string(),
    ).unwrap();
    let m2 = last_error_line(&ctx);
    assert_eq!(m2, "(assert.fieldEquals) No entity with type 'Token' and id '9' found.");

    ctx.assert_field_equals(
        &"Token".to_string(), &"1".to_string(), &"name".to_string(), &"AAA".to_string(),
    ).unwrap();
    let m3 = last_error_line(&ctx);
    assert_eq!(
        m3,
        "(assert.fieldEquals) No field named 'name' on entity with type 'Token' and id '1' found."
    );

    ctx.assert_field_equals(
        &"Token".to_string(), &"1".to_string(), &"symbol".to_string(), &"BBB".to_string(),
    ).unwrap();
    let m4 = last_error_line(&ctx);
    assert_eq!(
        m4,
        "(assert.fieldEquals) Expected field 'symbol' to equal 'BBB', but was 'AAA' instead."
    );

    // The four diagnostics are pairwise distinct.
    let all = [m1, m2, m3, m4];
    for i in 0..all.len() {
        for j in (i + 1)..all.len() {
            assert_ne!(all[i], all[j]);
        }
    }
}

#[test]
fn passing_assertion_changes_nothing() {
    let mut ctx = fresh_ctx();
    seed(&mut ctx);
    ctx.assert_field_equals(
        &"Token".to_string(), &"1".to_string(), &"symbol".to_string(), &"AAA".to_string(),
    ).unwrap();
    assert_eq!(ctx.ledger.summary(), (1, 0));
    assert_eq!(ctx.ledger.flush_logs().len(), 1);
}

#[test]
fn assertion_without_registered_test_is_fatal() {
    let mut ctx = fresh_ctx();
    let err = ctx
        .assert_field_equals(
            &"Token".to_string(), &"1".to_string(), &"symbol".to_string(), &"AAA".to_string(),
        )
        .unwrap_err();
    assert_eq!(err, HostError::Fatal(FatalError::NoCurrentTest));
}

#[test]
fn remove_missing_record_fails_test_naming_type_and_id() {
    let mut ctx = fresh_ctx();
    seed(&mut ctx);
    ctx.mock_store_remove(&"Token".to_string(), &"42".to_string()).unwrap();
    assert_eq!(ctx.ledger.summary(), (0, 1));
    let msg = last_error_line(&ctx);
    assert_eq!(
        msg,
        "(store.remove) Entity with type 'Token' and id '42' does not exist. \
         Problem originated from store.remove()"
    );
    assert!(msg.contains("Token"));
    assert!(msg.contains("42"));
    // The seeded record is still there.
    assert!(ctx.store.get(&"Token".to_string(), &"1".to_string()).is_some());
}

#[test]
fn log_levels_route_correctly() {
    let mut ctx = fresh_ctx();
    // Critical aborts with the message.
    let err = ctx.log(0, "fatal words".to_string()).unwrap_err();
    assert_eq!(
        err,
        HostError::Fatal(FatalError::CriticalLog { message: "fatal words".to_string() })
    );
    // Error level fails the current test.
    ctx.register_test("t".to_string()).unwrap();
    ctx.log(1, "went wrong".to_string()).unwrap();
    assert_eq!(ctx.ledger.summary(), (0, 1));
    // Other levels are plain log lines.
    ctx.log(3, "info line".to_string()).unwrap();
    assert_eq!(ctx.ledger.summary(), (0, 1));
    let report = ctx.ledger.flush_logs();
    assert_eq!(
        report.last().unwrap(),
        &mapping_harness::ledger::ReportLine::Log(
            "info line".to_string(),
            mapping_harness::ledger::Level::INFO
        )
    );
}

#[test]
fn end_to_end_register_set_assert_and_summarize() {
    let mut ctx = fresh_ctx();
    ctx.register_test("t1".to_string()).unwrap();
    let mut e = Entity::new();
    e.set_field("symbol".to_string(), str_value("AAA"));
    ctx.mock_store_set("Token".to_string(), "1".to_string(), e).unwrap();

    // The first assertion passes and records nothing.
    ctx.assert_field_equals(
        &"Token".to_string(), &"1".to_string(), &"symbol".to_string(), &"AAA".to_string(),
    ).unwrap();
    assert_eq!(ctx.ledger.summary(), (1, 0));

    // The second fails with a message naming both values.
    ctx.assert_field_equals(
        &"Token".to_string(), &"1".to_string(), &"symbol".to_string(), &"BBB".to_string(),
    ).unwrap();
    let msg = last_error_line(&ctx);
    assert!(msg.contains("AAA"));
    assert!(msg.contains("BBB"));
    assert_eq!(ctx.ledger.summary(), (0, 1));
}
