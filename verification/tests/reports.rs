use record_diff::diff::{CleanDiffs, DecodeError, DiffResult};
use serde_json::{Number, Value};

fn single(s: &str) -> CleanDiffs {
    CleanDiffs::Str(s.to_string())
}

fn several(items: &[&str]) -> CleanDiffs {
    CleanDiffs::Arr(items.iter().map(|s| s.to_string()).collect())
}

fn entry(key: &str, value: CleanDiffs) -> (String, CleanDiffs) {
    (key.to_string(), value)
}

#[test]
fn new_report_names_no_field() {
    let r = DiffResult::new();
    assert_eq!(r.len(), 0);
    assert!(r.entries().is_empty());
    assert_eq!(r.get("name"), None);
}

#[test]
fn insert_appends_new_keys_in_order() {
    let mut r = DiffResult::new();
    r.insert("name".to_string(), single("Alice vs Robert"));
    r.insert("ls".to_string(), several(&["bc", "cd"]));
    assert_eq!(r.len(), 2);
    assert_eq!(
        r.entries(),
        &vec![entry("name", single("Alice vs Robert")), entry("ls", several(&["bc", "cd"]))]
    );
}

#[test]
fn insert_replaces_in_place() {
    let mut r = DiffResult::new();
    r.insert("name".to_string(), single("first"));
    r.insert("ls".to_string(), several(&["bc"]));
    r.insert("name".to_string(), several(&["second"]));
    assert_eq!(r.len(), 2);
    assert_eq!(
        r.entries(),
        &vec![entry("name", several(&["second"])), entry("ls", several(&["bc"]))]
    );
}

#[test]
fn get_finds_what_was_reported() {
    let mut r = DiffResult::new();
    r.insert("name".to_string(), single("Alice vs Robert"));
    r.insert("ls".to_string(), several(&["bc", "cd"]));
    assert_eq!(r.get("ls"), Some(&several(&["bc", "cd"])));
    assert_eq!(r.get("name"), Some(&single("Alice vs Robert")));
    assert_eq!(r.get("age"), None);
    assert_eq!(r.get(""), None);
}

#[test]
fn report_reads_members_in_their_order() {
    let r = DiffResult::from_bytes(b"{\"name\":\"Alice vs Robert\",\"ls\":[\"bc\",\"cd\"]}")
        .expect("a report");
    assert_eq!(
        r.entries(),
        &vec![entry("name", single("Alice vs Robert")), entry("ls", several(&["bc", "cd"]))]
    );
}

#[test]
fn report_keys_need_not_be_record_fields() {
    let r = DiffResult::from_bytes(b" { \"zzz\" : [ ] , \"\" : \"\" } ").expect("a report");
    assert_eq!(r.entries(), &vec![entry("zzz", several(&[])), entry("", single(""))]);
}

#[test]
fn empty_object_is_the_empty_report() {
    let r = DiffResult::from_bytes(b"{}").expect("a report");
    assert_eq!(r.len(), 0);
    assert_eq!(r, DiffResult::new());
}

#[test]
fn repeated_key_keeps_the_last_value() {
    let r = DiffResult::from_bytes(b"{\"a\":\"x\",\"b\":\"y\",\"a\":[\"z\"]}").expect("a report");
    assert_eq!(r.entries(), &vec![entry("a", several(&["z"])), entry("b", single("y"))]);
}

#[test]
fn escapes_are_resolved() {
    let r = DiffResult::from_bytes(b"{\"k\\n\":\"a\\u0041\\\"\"}").expect("a report");
    assert_eq!(r.entries(), &vec![entry("k\n", single("aA\""))]);
}

#[test]
fn invalid_json_is_a_syntax_error() {
    for bytes in [&b"not json"[..], b"", b"{", b"{\"a\":}", b"{\"a\":\"x\"} trailing", b"{'a':'x'}"] {
        match DiffResult::from_bytes(bytes) {
            Err(DecodeError::Syntax(message)) => assert!(!message.is_empty()),
            other => panic!("expected a syntax error, got {:?}", other),
        }
    }
}

#[test]
fn invalid_utf8_is_a_syntax_error() {
    assert!(matches!(
        DiffResult::from_bytes(b"{\"a\":\"\xff\"}"),
        Err(DecodeError::Syntax(_))
    ));
}

#[test]
fn document_that_is_no_object_is_refused() {
    for bytes in [&b"[]"[..], b"\"text\"", b"12", b"null", b"true", b"[\"a\",\"b\"]"] {
        assert_eq!(DiffResult::from_bytes(bytes), Err(DecodeError::NotAnObject));
    }
}

#[test]
fn member_of_another_shape_is_named() {
    assert_eq!(
        DiffResult::from_bytes(b"{\"name\":\"x\",\"age\":2,\"ls\":[\"bc\"]}"),
        Err(DecodeError::Member("age".to_string()))
    );
    assert_eq!(
        DiffResult::from_bytes(b"{\"name\":null}"),
        Err(DecodeError::Member("name".to_string()))
    );
    assert_eq!(
        DiffResult::from_bytes(b"{\"inner\":{\"name\":\"x\"}}"),
        Err(DecodeError::Member("inner".to_string()))
    );
    assert_eq!(
        DiffResult::from_bytes(b"{\"ls\":[\"bc\",3]}"),
        Err(DecodeError::Member("ls".to_string()))
    );
}

#[test]
fn first_member_of_another_shape_is_the_one_named() {
    assert_eq!(
        DiffResult::from_bytes(b"{\"ok\":\"x\",\"second\":1.5,\"third\":false}"),
        Err(DecodeError::Member("second".to_string()))
    );
}

#[test]
fn from_value_reads_an_object() {
    let mut m = serde_json::Map::new();
    m.insert("name".to_string(), Value::String("Alice vs Robert".to_string()));
    m.insert(
        "ls".to_string(),
        Value::Array(vec![Value::String("bc".to_string()), Value::String("cd".to_string())]),
    );
    let r = DiffResult::from_value(&Value::Object(m)).expect("a report");
    assert_eq!(
        r.entries(),
        &vec![entry("name", single("Alice vs Robert")), entry("ls", several(&["bc", "cd"]))]
    );
}

#[test]
fn from_value_refuses_other_values() {
    assert_eq!(DiffResult::from_value(&Value::Null), Err(DecodeError::NotAnObject));
    assert_eq!(
        DiffResult::from_value(&Value::Array(Vec::new())),
        Err(DecodeError::NotAnObject)
    );
    let mut m = serde_json::Map::new();
    m.insert("n".to_string(), Value::Number(Number::from(1u8)));
    assert_eq!(
        DiffResult::from_value(&Value::Object(m)),
        Err(DecodeError::Member("n".to_string()))
    );
}

#[test]
fn to_value_is_an_object_in_the_entries_order() {
    let mut r = DiffResult::new();
    r.insert("name".to_string(), single("Alice vs Robert"));
    r.insert("ls".to_string(), several(&["bc", "cd"]));
    r.insert("a".to_string(), single(""));
    assert_eq!(
        r.to_value().to_string(),
        "{\"name\":\"Alice vs Robert\",\"ls\":[\"bc\",\"cd\"],\"a\":\"\"}"
    );
}

#[test]
fn report_survives_writing_and_reading() {
    let mut r = DiffResult::new();
    r.insert("sentence".to_string(), single("cat vs owl"));
    r.insert("ls".to_string(), several(&["bc", "cd"]));
    let back = DiffResult::from_value(&r.to_value()).expect("a report");
    assert_eq!(back, r);
    let again = DiffResult::from_bytes(r.to_value().to_string().as_bytes()).expect("a report");
    assert_eq!(again, r);
}
