use mapping_harness::errors::FatalError;
use mapping_harness::stubs::{CallStubRegistry, CallToken, TokenScalar, create_unique_fn_string};

fn uint(n: &str) -> CallToken {
    CallToken::Scalar(TokenScalar::Uint(n.to_string()))
}

#[test]
fn fingerprint_is_address_name_and_tagged_args() {
    let fp = create_unique_fn_string(
        &"0xabc".to_string(),
        &"balanceOf".to_string(),
        &vec![uint("5"), CallToken::Scalar(TokenScalar::Bool(true))],
    );
    assert_eq!(fp, "0xabcbalanceOfuint:5bool:true");
}

#[test]
fn fingerprint_of_collections() {
    let fp = create_unique_fn_string(
        &"0x1".to_string(),
        &"f".to_string(),
        &vec![CallToken::Array(vec![
            TokenScalar::Str("a".to_string()),
            TokenScalar::Bytes(vec![0xff]),
        ])],
    );
    assert_eq!(fp, "0x1farray:[string:a,bytes:0xff]");
}

#[test]
fn resolve_returns_registered_value() {
    let mut registry = CallStubRegistry::new();
    registry.register(
        &"0xabc".to_string(),
        &"balanceOf".to_string(),
        &vec![uint("5")],
        uint("7"),
    );
    let got = registry
        .resolve(&"0xabc".to_string(), &"balanceOf".to_string(), &vec![uint("5")])
        .expect("stub should resolve");
    assert_eq!(got, &uint("7"));
    // Resolving the identical triple again yields the same value.
    let again = registry
        .resolve(&"0xabc".to_string(), &"balanceOf".to_string(), &vec![uint("5")])
        .expect("stub should resolve again");
    assert_eq!(again, &uint("7"));
}

#[test]
fn register_overwrites_last_write_wins() {
    let mut registry = CallStubRegistry::new();
    registry.register(&"0xabc".to_string(), &"f".to_string(), &vec![], uint("1"));
    registry.register(&"0xabc".to_string(), &"f".to_string(), &vec![], uint("2"));
    let got = registry
        .resolve(&"0xabc".to_string(), &"f".to_string(), &vec![])
        .unwrap();
    assert_eq!(got, &uint("2"));
    assert_eq!(registry.entries.len(), 1);
}

#[test]
fn resolve_unregistered_triple_aborts() {
    let mut registry = CallStubRegistry::new();
    registry.register(&"0xabc".to_string(), &"f".to_string(), &vec![uint("5")], uint("7"));
    // A different argument list is a different fingerprint: no default.
    let err = registry
        .resolve(&"0xabc".to_string(), &"f".to_string(), &vec![uint("6")])
        .unwrap_err();
    match &err {
        FatalError::MissingStub { fingerprint } => {
            assert_eq!(fingerprint, "0xabcfuint:6");
        }
        other => panic!("unexpected error: {:?}", other),
    }
    assert_eq!(err.message(), "key: '0xabcfuint:6' not found in map.");
}
