use mapping_harness::errors::FatalError;
use mapping_harness::host::{BlockPtr, HostCall, InstanceContext};
use mapping_harness::ledger::TestLedger;
use mapping_harness::store::{Entity, MockStore};
use mapping_harness::stubs::CallStubRegistry;
use mapping_harness::trap::{classify, Classification, Fault, HostError, IntoTrap, TrapKind, TRAP_TIMEOUT};
use mapping_harness::value::{ScalarValue, Value};
use mapping_harness::wasm_instance::{
    CallOutcome, InvocationOutcome, MappingError, ModuleInfo, WasmInstance,
};
use mapping_harness::watchdog::{watchdog_step, WatchdogAction};

fn fresh_ctx() -> InstanceContext {
    InstanceContext {
        store: MockStore::new(),
        stubs: CallStubRegistry::new(),
        ledger: TestLedger::new(),
        subgraph_id: "test-subgraph".to_string(),
        block: BlockPtr { number: 7, hash: vec![0xaa, 0xbb] },
        timeout_secs: None,
        handler_depth: 0,
        deterministic_host_trap: false,
        possible_reorg: false,
    }
}

fn empty_module() -> ModuleInfo {
    ModuleInfo {
        imports: vec![],
        api_version: (0, 0, 5),
        host_fn_names: vec![],
    }
}

fn str_value(s: &str) -> Value {
    Value::Scalar(ScalarValue::Str(s.to_string()))
}

#[test]
fn classification_priorities() {
    let oob = Fault { message: "out of bounds".to_string(), code: Some(TrapKind::MemoryOutOfBounds) };
    assert_eq!(classify(&oob, false, false), Classification::Deterministic);
    // The possible-reorg flag wins over everything.
    assert_eq!(classify(&oob, true, false), Classification::PossibleReorg);
    // A message naming the watchdog interrupt wins over the code.
    let timed = Fault {
        message: format!("wasm {}", TRAP_TIMEOUT),
        code: Some(TrapKind::Interrupt),
    };
    assert_eq!(classify(&timed, false, false), Classification::Timeout);
    assert_eq!(classify(&timed, true, false), Classification::PossibleReorg);
    // The sticky host flag makes a code-less fault deterministic.
    let plain = Fault { message: "host said no".to_string(), code: None };
    assert_eq!(classify(&plain, false, true), Classification::Deterministic);
    assert_eq!(classify(&plain, false, false), Classification::NonDeterministic);
    let stack = Fault { message: "stack".to_string(), code: Some(TrapKind::StackOverflow) };
    assert_eq!(classify(&stack, false, false), Classification::NonDeterministic);
}

#[test]
fn host_error_taxonomy() {
    assert_eq!(
        HostError::Deterministic("x".to_string()).determinism_level(),
        mapping_harness::trap::DeterminismLevel::Deterministic
    );
    assert_eq!(
        HostError::PossibleReorg("x".to_string()).determinism_level(),
        mapping_harness::trap::DeterminismLevel::PossibleReorg
    );
    let trap = HostError::Fatal(FatalError::NoCurrentTest).into_trap();
    assert_eq!(trap.message, "No test is registered to fail.");
    assert_eq!(trap.code, None);
}

#[test]
fn watchdog_interrupts_exactly_on_expiry() {
    assert_eq!(watchdog_step(5000, 5000), WatchdogAction::Interrupt);
    assert_eq!(watchdog_step(6000, 5000), WatchdogAction::Interrupt);
    assert_eq!(watchdog_step(0, 5000), WatchdogAction::Sleep(1000));
    assert_eq!(watchdog_step(4500, 5000), WatchdogAction::Sleep(500));
    assert_eq!(watchdog_step(4999, 5000), WatchdogAction::Sleep(1));
}

#[test]
fn instantiation_binds_all_declared_imports() {
    let module = ModuleInfo {
        imports: vec![
            ("index".to_string(), "store.set".to_string()),
            ("index".to_string(), "log.log".to_string()),
            ("index".to_string(), "chain.specific".to_string()),
        ],
        api_version: (0, 0, 5),
        host_fn_names: vec!["chain.specific".to_string()],
    };
    let instance = WasmInstance::from_valid_module_with_ctx(&module, fresh_ctx(), Some(30));
    let instance = instance.expect("all imports are bound");
    let ctx = instance.instance_ctx.as_ref().unwrap();
    assert_eq!(ctx.timeout_secs, Some(30));
    assert_eq!(ctx.handler_depth, 0);
}

#[test]
fn instantiation_fails_on_missing_import() {
    let module = ModuleInfo {
        imports: vec![
            ("index".to_string(), "store.set".to_string()),
            ("index".to_string(), "no.such.binding".to_string()),
        ],
        api_version: (0, 0, 5),
        host_fn_names: vec![],
    };
    match WasmInstance::from_valid_module_with_ctx(&module, fresh_ctx(), None) {
        Err(FatalError::MissingImport { name }) => assert_eq!(name, "no.such.binding"),
        Err(other) => panic!("unexpected error: {:?}", other),
        Ok(_) => panic!("instantiation should fail"),
    }
}

#[test]
fn legacy_imports_bind_only_for_old_api_versions() {
    let mut module = empty_module();
    module.imports = vec![("index".to_string(), "arweave.transactionData".to_string())];
    module.api_version = (0, 0, 4);
    assert!(WasmInstance::from_valid_module_with_ctx(&module, fresh_ctx(), None).is_ok());
    module.api_version = (0, 0, 5);
    assert!(WasmInstance::from_valid_module_with_ctx(&module, fresh_ctx(), None).is_err());
}

#[test]
fn completed_invocation_keeps_store_mutations() {
    let mut w =
        WasmInstance::from_valid_module_with_ctx(&empty_module(), fresh_ctx(), None).unwrap();
    let mut data = Entity::new();
    data.set_field("symbol".to_string(), str_value("AAA"));
    let calls = vec![HostCall::StoreSet {
        entity_type: "Token".to_string(),
        id: "1".to_string(),
        data,
    }];
    let r = w.invoke_handler(&"handleTransfer".to_string(), calls, CallOutcome::Completed);
    assert_eq!(r, Ok(InvocationOutcome::Completed));
    let ctx = w.instance_ctx.as_ref().unwrap();
    assert!(ctx.store.get(&"Token".to_string(), &"1".to_string()).is_some());
    assert_eq!(ctx.handler_depth, 0);
}

#[test]
fn deterministic_trap_rolls_back_store() {
    let mut ctx = fresh_ctx();
    let mut seeded = Entity::new();
    seeded.set_field("symbol".to_string(), str_value("OLD"));
    ctx.store.set("Token".to_string(), "1".to_string(), seeded);
    let mut w = WasmInstance::from_valid_module_with_ctx(&empty_module(), ctx, None).unwrap();

    let mut data = Entity::new();
    data.set_field("symbol".to_string(), str_value("NEW"));
    let calls = vec![
        HostCall::StoreSet { entity_type: "Token".to_string(), id: "1".to_string(), data },
        HostCall::StoreSet {
            entity_type: "Token".to_string(),
            id: "2".to_string(),
            data: Entity::new(),
        },
    ];
    let fault = Fault {
        message: "wasm trap: out of bounds memory access".to_string(),
        code: Some(TrapKind::MemoryOutOfBounds),
    };
    let r = w.invoke_handler(&"handleTransfer".to_string(), calls, CallOutcome::Trapped(fault));
    match r {
        Ok(InvocationOutcome::RolledBack(e)) => {
            assert!(e.deterministic);
            assert_eq!(e.handler.as_deref(), Some("handleTransfer"));
            assert_eq!(e.subgraph_id, "test-subgraph");
            assert_eq!(e.block_ptr.as_ref().unwrap().number, 7);
            assert_eq!(e.message, "wasm trap: out of bounds memory access");
        }
        other => panic!("expected a rollback, got {:?}", other),
    }
    // The store is exactly as it was before the invocation began.
    let ctx = w.instance_ctx.as_ref().unwrap();
    let one = ctx.store.get(&"Token".to_string(), &"1".to_string()).unwrap();
    assert_eq!(one.get_field(&"symbol".to_string()), Some(&str_value("OLD")));
    assert!(ctx.store.get(&"Token".to_string(), &"2".to_string()).is_none());
    assert_eq!(ctx.handler_depth, 0);
}

#[test]
fn timeout_trap_escalates_with_configured_duration() {
    let mut w =
        WasmInstance::from_valid_module_with_ctx(&empty_module(), fresh_ctx(), Some(5)).unwrap();
    let fault = Fault {
        message: format!("wasm {}", TRAP_TIMEOUT),
        code: Some(TrapKind::Interrupt),
    };
    let r = w.invoke_handler(&"slowHandler".to_string(), vec![], CallOutcome::Trapped(fault));
    assert_eq!(
        r,
        Err(MappingError::Timeout { handler: "slowHandler".to_string(), seconds: 5 })
    );
    assert_eq!(w.instance_ctx.as_ref().unwrap().handler_depth, 0);
}

#[test]
fn critical_log_escalates_as_unknown() {
    let mut w =
        WasmInstance::from_valid_module_with_ctx(&empty_module(), fresh_ctx(), None).unwrap();
    // A handler whose only event is a critical log line: an unclassified
    // harness fault that must stop execution.
    let calls = vec![HostCall::Log { level: 0, message: "broken".to_string() }];
    let r = w.invoke_handler(&"h".to_string(), calls, CallOutcome::Completed);
    assert_eq!(r, Err(MappingError::Unknown("broken".to_string())));
}

#[test]
fn adapter_reorg_error_escalates_as_possible_reorg() {
    let mut w =
        WasmInstance::from_valid_module_with_ctx(&empty_module(), fresh_ctx(), None).unwrap();
    let calls = vec![HostCall::ChainCall {
        name: "ethereum.call".to_string(),
        outcome: Err(HostError::PossibleReorg("ambiguous chain state".to_string())),
    }];
    let r = w.invoke_handler(&"h".to_string(), calls, CallOutcome::Completed);
    assert_eq!(
        r,
        Err(MappingError::PossibleReorg("ambiguous chain state".to_string()))
    );
}

#[test]
fn adapter_deterministic_error_rolls_back() {
    let mut ctx = fresh_ctx();
    ctx.store.set("Token".to_string(), "1".to_string(), Entity::new());
    let mut w = WasmInstance::from_valid_module_with_ctx(&empty_module(), ctx, None).unwrap();
    let calls = vec![
        HostCall::StoreSet {
            entity_type: "Token".to_string(),
            id: "9".to_string(),
            data: Entity::new(),
        },
        HostCall::ChainCall {
            name: "ethereum.call".to_string(),
            outcome: Err(HostError::Deterministic("bad input".to_string())),
        },
        // Cut short: the module traps before any further call.
        HostCall::StoreRemove { entity_type: "Token".to_string(), id: "1".to_string() },
    ];
    let r = w.invoke_handler(&"h".to_string(), calls, CallOutcome::Completed);
    match r {
        Ok(InvocationOutcome::RolledBack(e)) => {
            assert!(e.deterministic);
            assert_eq!(e.message, "bad input");
        }
        other => panic!("expected a rollback, got {:?}", other),
    }
    let ctx = w.instance_ctx.as_ref().unwrap();
    assert!(ctx.store.get(&"Token".to_string(), &"9".to_string()).is_none());
    assert!(ctx.store.get(&"Token".to_string(), &"1".to_string()).is_some());
}

#[test]
fn adapter_unknown_error_escalates_opaquely() {
    let mut w =
        WasmInstance::from_valid_module_with_ctx(&empty_module(), fresh_ctx(), None).unwrap();
    let calls = vec![HostCall::ChainCall {
        name: "ethereum.call".to_string(),
        outcome: Err(HostError::Unknown("adapter gave up".to_string())),
    }];
    let r = w.invoke_handler(&"h".to_string(), calls, CallOutcome::Completed);
    assert_eq!(r, Err(MappingError::Unknown("adapter gave up".to_string())));
}

#[test]
fn missing_stub_during_invocation_escalates() {
    let mut w =
        WasmInstance::from_valid_module_with_ctx(&empty_module(), fresh_ctx(), None).unwrap();
    let calls = vec![HostCall::EthereumCall {
        contract_address: "0xa".to_string(),
        fn_name: "f".to_string(),
        fn_args: vec![],
    }];
    let r = w.invoke_handler(&"h".to_string(), calls, CallOutcome::Completed);
    assert_eq!(
        r,
        Err(MappingError::Unknown("key: '0xaf' not found in map.".to_string()))
    );
}

#[test]
fn unknown_trap_escalates_opaquely() {
    let mut w =
        WasmInstance::from_valid_module_with_ctx(&empty_module(), fresh_ctx(), None).unwrap();
    let fault = Fault { message: "mystery".to_string(), code: None };
    let r = w.invoke_handler(&"h".to_string(), vec![], CallOutcome::Trapped(fault));
    assert_eq!(r, Err(MappingError::Unknown("mystery".to_string())));
}

#[test]
fn take_ctx_empties_the_instance() {
    let mut w =
        WasmInstance::from_valid_module_with_ctx(&empty_module(), fresh_ctx(), None).unwrap();
    let ctx = w.take_ctx();
    assert_eq!(ctx.subgraph_id, "test-subgraph");
    assert!(w.instance_ctx.is_none());
}
