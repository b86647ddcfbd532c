use mapping_harness::store::{Entity, MockStore};
use mapping_harness::value::{ScalarValue, Value, value_to_text};

fn str_value(s: &str) -> Value {
    Value::Scalar(ScalarValue::Str(s.to_string()))
}

#[test]
fn set_then_get_returns_last_set_fields() {
    let mut store = MockStore::new();
    let mut first = Entity::new();
    first.set_field("symbol".to_string(), str_value("AAA"));
    first.set_field("decimals".to_string(), Value::Scalar(ScalarValue::Int(18)));
    store.set("Token".to_string(), "1".to_string(), first);

    let mut second = Entity::new();
    second.set_field("symbol".to_string(), str_value("BBB"));
    store.set("Token".to_string(), "1".to_string(), second);

    let got = store
        .get(&"Token".to_string(), &"1".to_string())
        .expect("record should exist");
    // The whole field mapping was replaced: no merging.
    assert_eq!(got.fields.len(), 1);
    assert_eq!(
        got.get_field(&"symbol".to_string()),
        Some(&str_value("BBB"))
    );
    assert_eq!(got.get_field(&"decimals".to_string()), None);
}

#[test]
fn get_missing_record_is_none() {
    let store = MockStore::new();
    assert!(store.get(&"Token".to_string(), &"1".to_string()).is_none());
}

#[test]
fn set_leaves_other_records_untouched() {
    let mut store = MockStore::new();
    let mut a = Entity::new();
    a.set_field("name".to_string(), str_value("first"));
    store.set("Token".to_string(), "1".to_string(), a);

    let mut b = Entity::new();
    b.set_field("name".to_string(), str_value("second"));
    store.set("Token".to_string(), "2".to_string(), b);

    let one = store.get(&"Token".to_string(), &"1".to_string()).unwrap();
    assert_eq!(one.get_field(&"name".to_string()), Some(&str_value("first")));
    let two = store.get(&"Token".to_string(), &"2".to_string()).unwrap();
    assert_eq!(two.get_field(&"name".to_string()), Some(&str_value("second")));
}

#[test]
fn remove_existing_record_drops_it() {
    let mut store = MockStore::new();
    store.set("Token".to_string(), "1".to_string(), Entity::new());
    assert!(store.remove(&"Token".to_string(), &"1".to_string()));
    assert!(store.get(&"Token".to_string(), &"1".to_string()).is_none());
}

#[test]
fn remove_missing_record_reports_and_changes_nothing() {
    let mut store = MockStore::new();
    store.set("Token".to_string(), "1".to_string(), Entity::new());
    assert!(!store.remove(&"Token".to_string(), &"2".to_string()));
    assert!(store.get(&"Token".to_string(), &"1".to_string()).is_some());
    assert_eq!(store.entries.len(), 1);
}

#[test]
fn clear_drops_all_buckets() {
    let mut store = MockStore::new();
    store.set("Token".to_string(), "1".to_string(), Entity::new());
    store.set("Account".to_string(), "a".to_string(), Entity::new());
    store.clear();
    assert!(store.get(&"Token".to_string(), &"1".to_string()).is_none());
    assert!(store.get(&"Account".to_string(), &"a".to_string()).is_none());
    assert!(!store.contains_entity_type(&"Token".to_string()));
}

#[test]
fn entity_set_field_overwrites_in_place() {
    let mut e = Entity::new();
    e.set_field("a".to_string(), str_value("1"));
    e.set_field("b".to_string(), str_value("2"));
    e.set_field("a".to_string(), str_value("3"));
    assert_eq!(e.fields.len(), 2);
    assert_eq!(e.fields[0].0, "a");
    assert_eq!(e.get_field(&"a".to_string()), Some(&str_value("3")));
    assert_eq!(e.get_field(&"b".to_string()), Some(&str_value("2")));
}

#[test]
fn canonical_text_of_scalars() {
    assert_eq!(value_to_text(&str_value("AAA")), "AAA");
    assert_eq!(
        value_to_text(&Value::Scalar(ScalarValue::Int(-42))),
        "-42"
    );
    assert_eq!(value_to_text(&Value::Scalar(ScalarValue::Int(0))), "0");
    assert_eq!(
        value_to_text(&Value::Scalar(ScalarValue::Int(1234567))),
        "1234567"
    );
    assert_eq!(
        value_to_text(&Value::Scalar(ScalarValue::Bool(true))),
        "true"
    );
    assert_eq!(value_to_text(&Value::Scalar(ScalarValue::Null)), "null");
    assert_eq!(
        value_to_text(&Value::Scalar(ScalarValue::Bytes(vec![0x0f, 0xa0]))),
        "0x0fa0"
    );
    assert_eq!(
        value_to_text(&Value::Scalar(ScalarValue::BigInt("900000000000000000000".to_string()))),
        "900000000000000000000"
    );
}

#[test]
fn canonical_text_of_lists() {
    let v = Value::List(vec![
        ScalarValue::Str("x".to_string()),
        ScalarValue::Int(7),
        ScalarValue::Bool(false),
    ]);
    assert_eq!(value_to_text(&v), "[x, 7, false]");
    assert_eq!(value_to_text(&Value::List(vec![])), "[]");
}
