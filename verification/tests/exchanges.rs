use record_diff::bridge::{conclude, request, request_value, ComparerError, Exchange};
use record_diff::diff::{CleanDiffs, DecodeError, DiffResult};
use record_diff::record::Person;
use serde_json::Value;

fn strings(items: &[&str]) -> Vec<String> {
    items.iter().map(|s| s.to_string()).collect()
}

fn alice() -> Person {
    Person::new("Alice".to_string(), 10, strings(&["ab", "bc", "cd"]), "cat in a hat".to_string())
}

fn robert() -> Person {
    Person::new("Robert".to_string(), 12, strings(&["ab"]), "owl in a cowl".to_string())
}

fn finished(success: bool, stdout: &[u8], stderr: &[u8]) -> Exchange {
    Exchange::Finished { success, stdout: stdout.to_vec(), stderr: stderr.to_vec() }
}

const REPLY: &[u8] = b"{\"name\":\"Alice vs Robert\",\"ls\":[\"bc\",\"cd\"]}";

fn reply_report() -> DiffResult {
    let mut r = DiffResult::new();
    r.insert("name".to_string(), CleanDiffs::Str("Alice vs Robert".to_string()));
    r.insert("ls".to_string(), CleanDiffs::Arr(strings(&["bc", "cd"])));
    r
}

#[test]
fn request_is_one_compact_object_with_a_and_b() {
    assert_eq!(
        request(&alice(), &robert()),
        "{\"a\":{\"name\":\"Alice\",\"age\":10,\"ls\":[\"ab\",\"bc\",\"cd\"],\"sentence\":\"cat in a hat\"},\
         \"b\":{\"name\":\"Robert\",\"age\":12,\"ls\":[\"ab\"],\"sentence\":\"owl in a cowl\"}}"
    );
}

#[test]
fn request_keeps_the_order_of_its_arguments() {
    assert_eq!(
        request(&robert(), &alice()),
        "{\"a\":{\"name\":\"Robert\",\"age\":12,\"ls\":[\"ab\"],\"sentence\":\"owl in a cowl\"},\
         \"b\":{\"name\":\"Alice\",\"age\":10,\"ls\":[\"ab\",\"bc\",\"cd\"],\"sentence\":\"cat in a hat\"}}"
    );
}

#[test]
fn request_of_a_record_with_itself_holds_it_twice() {
    let v = request_value(&alice(), &alice());
    assert_eq!(v.get("a"), v.get("b"));
    assert_eq!(v.as_object().map(|m| m.len()), Some(2));
}

#[test]
fn request_holds_both_records_field_for_field() {
    let text = request(&alice(), &robert());
    let v: Value = serde_json::from_str(&text).expect("JSON");
    assert_eq!(v.as_object().map(|m| m.keys().cloned().collect::<Vec<_>>()), Some(strings(&["a", "b"])));
    assert_eq!(v.get("a").and_then(Person::from_value), Some(alice()));
    assert_eq!(v.get("b").and_then(Person::from_value), Some(robert()));
    let direct = request_value(&alice(), &robert());
    assert_eq!(direct.to_string(), text);
}

#[test]
fn request_escapes_what_json_must_escape() {
    let p = Person::new("a\"b\\c".to_string(), 0, strings(&["\t"]), "\u{e9}\n".to_string());
    let text = request(&p, &p);
    let one = "{\"name\":\"a\\\"b\\\\c\",\"age\":0,\"ls\":[\"\\t\"],\"sentence\":\"\u{e9}\\n\"}";
    assert_eq!(text, format!("{{\"a\":{},\"b\":{}}}", one, one));
}

#[test]
fn success_with_a_report_gives_the_report() {
    assert_eq!(conclude(finished(true, REPLY, b"")), Ok(reply_report()));
}

#[test]
fn text_on_the_error_channel_does_not_spoil_success() {
    assert_eq!(conclude(finished(true, REPLY, b"warning: slow")), Ok(reply_report()));
}

#[test]
fn nonzero_exit_is_process_failed_with_the_error_text() {
    assert_eq!(
        conclude(finished(false, b"", b"Traceback: boom\n")),
        Err(ComparerError::ProcessFailed("Traceback: boom\n".to_string()))
    );
}

#[test]
fn nonzero_exit_does_not_look_at_the_output() {
    assert_eq!(
        conclude(finished(false, REPLY, b"failed")),
        Err(ComparerError::ProcessFailed("failed".to_string()))
    );
    assert_eq!(
        conclude(finished(false, b"not json", b"")),
        Err(ComparerError::ProcessFailed(String::new()))
    );
}

#[test]
fn error_text_keeps_unicode() {
    assert_eq!(
        conclude(finished(false, b"", "d\u{e9}j\u{e0} vu \u{1f980}".as_bytes())),
        Err(ComparerError::ProcessFailed("d\u{e9}j\u{e0} vu \u{1f980}".to_string()))
    );
}

#[test]
fn error_text_replaces_bytes_that_are_no_utf8() {
    assert_eq!(
        conclude(finished(false, b"", b"bad \xff byte")),
        Err(ComparerError::ProcessFailed("bad \u{fffd} byte".to_string()))
    );
}

#[test]
fn zero_exit_with_invalid_json_is_malformed_output() {
    for out in [&b"oops"[..], b"", b"{\"name\":", b"{\"name\":\"x\"}{}"] {
        match conclude(finished(true, out, b"")) {
            Err(ComparerError::MalformedOutput(DecodeError::Syntax(message))) => {
                assert!(!message.is_empty())
            }
            other => panic!("expected malformed output, got {:?}", other),
        }
    }
}

#[test]
fn zero_exit_with_json_of_another_shape_is_malformed_output() {
    assert_eq!(
        conclude(finished(true, b"[\"bc\"]", b"")),
        Err(ComparerError::MalformedOutput(DecodeError::NotAnObject))
    );
    assert_eq!(
        conclude(finished(true, b"{\"name\":\"x\",\"age\":2}", b"")),
        Err(ComparerError::MalformedOutput(DecodeError::Member("age".to_string())))
    );
    assert_eq!(
        conclude(finished(true, b"{\"ls\":[\"bc\",null]}", b"")),
        Err(ComparerError::MalformedOutput(DecodeError::Member("ls".to_string())))
    );
}

#[test]
fn failure_to_start_is_io() {
    assert_eq!(
        conclude(Exchange::SpawnFailed("No such file or directory (os error 2)".to_string())),
        Err(ComparerError::Io("No such file or directory (os error 2)".to_string()))
    );
}

#[test]
fn failure_to_write_is_io() {
    assert_eq!(
        conclude(Exchange::WriteFailed("Broken pipe (os error 32)".to_string())),
        Err(ComparerError::Io("Broken pipe (os error 32)".to_string()))
    );
}

#[test]
fn failure_to_wait_is_io() {
    assert_eq!(
        conclude(Exchange::WaitFailed("interrupted".to_string())),
        Err(ComparerError::Io("interrupted".to_string()))
    );
}
