//! One exchange with the comparer: what it is sent, and what is made of what
//! came back.
//!
//! The comparer is a program of its own. The caller starts it, writes the
//! request to its input in one piece, closes the input, waits for it to end
//! and hands what happened to [`conclude`]. There is one request and one
//! reply for each run of the comparer, and nothing is tried twice.

use crate::diff::{json_result, DecodeError, DiffResult};
use crate::json::{
    compact, compact_text, distinct_keys, document, object_value, owned_members, parsed,
    JsonValue,
};
use crate::record::{json_person, person_json, record_round_trip, Person, PersonModel};
use crate::shape::{first_with_key, member, member_at};
use vstd::prelude::*;
use vstd::utf8::{decode_utf8, valid_utf8};

verus! {

/// The text that `String::from_utf8_lossy` makes of `bytes`: with each run of
/// bytes that is no UTF-8 replaced by U+FFFD.
pub uninterp spec fn lossy_text(bytes: Seq<u8>) -> Seq<char>;

/// `String::from_utf8_lossy`, as an owned string. The text depends on the
/// bytes alone and goes by the name [`lossy_text`]; of bytes that are UTF-8
/// it is the text they encode.
#[verifier::external_body]
fn lossy(bytes: &[u8]) -> (s: String)
    ensures
        s@ == lossy_text(bytes@),
        valid_utf8(bytes@) ==> s@ == decode_utf8(bytes@),
{
    String::from_utf8_lossy(bytes).into_owned()
}

/// The members of a request: the first record under `a`, the second under
/// `b`.
pub open spec fn request_members(a: PersonModel, b: PersonModel) -> Seq<(Seq<char>, JsonValue)> {
    seq![("a"@, person_json(a)), ("b"@, person_json(b))]
}

/// The document that asks for `a` and `b` to be compared.
pub open spec fn request_json(a: PersonModel, b: PersonModel) -> JsonValue {
    JsonValue::Object(request_members(a, b))
}

/// The two keys of a request differ.
pub proof fn request_keys_differ()
    ensures
        "a"@ != "b"@,
{
    reveal_strlit("a");
    reveal_strlit("b");
    assert("a"@[0] != "b"@[0]);
}

/// A request holds both records: what stands under `a` reads back as the
/// first, what stands under `b` as the second, field for field.
pub proof fn request_holds_both_records(a: PersonModel, b: PersonModel)
    ensures
        member(request_members(a, b), "a"@) == Some(person_json(a)),
        member(request_members(a, b), "b"@) == Some(person_json(b)),
        json_person(person_json(a)) == Some(a),
        json_person(person_json(b)) == Some(b),
{
    let members = request_members(a, b);
    request_keys_differ();
    member_at(members, "a"@, 0);
    member_at(members, "b"@, 1);
    record_round_trip(a);
    record_round_trip(b);
}

/// The JSON value of the request for `a` and `b`.
pub fn request_value(a: &Person, b: &Person) -> (v: serde_json::Value)
    ensures
        document(v) == request_json(a@, b@),
{
    let mut pairs: Vec<(String, serde_json::Value)> = Vec::new();
    pairs.push(("a".to_owned(), a.to_value()));
    pairs.push(("b".to_owned(), b.to_value()));
    proof {
        assert(owned_members(pairs@) =~= request_members(a@, b@));
        request_keys_differ();
    }
    object_value(pairs)
}

/// The request for `a` and `b` as it is written to the comparer's input: the
/// compact text of the request document.
pub fn request(a: &Person, b: &Person) -> (text: String)
    ensures
        text@ == compact_text(request_json(a@, b@)),
{
    let v = request_value(a, b);
    compact(&v)
}

/// What happened when the comparer was run.
#[derive(Debug, Clone, PartialEq, Eq)]
pub enum Exchange {
    /// The comparer could not be started; the text says why.
    SpawnFailed(String),
    /// The request could not be written to the comparer's input.
    WriteFailed(String),
    /// Waiting for the comparer to end failed.
    WaitFailed(String),
    /// The comparer ran and ended. `success` says whether its exit status
    /// was zero; `stdout` and `stderr` hold all it wrote to its output and to
    /// its error channel.
    Finished { success: bool, stdout: Vec<u8>, stderr: Vec<u8> },
}

/// Why an exchange gave no report.
#[derive(Debug, Clone, PartialEq, Eq)]
pub enum ComparerError {
    /// The comparer could not be started, written to or waited for.
    Io(String),
    /// The comparer ended with a status other than zero; the text is what it
    /// wrote to its error channel.
    ProcessFailed(String),
    /// The comparer ended with status zero, but what it wrote to its output
    /// is no report.
    MalformedOutput(DecodeError),
}

/// `r` is what an exchange comes to.
///
/// A failure to start, write or wait is an `Io` error with the same cause.
/// After an exit status other than zero the output is not looked at, and the
/// error holds the text of the error channel. After status zero the output is
/// read as a report, and `r` is the report or says why there is none.
pub open spec fn concluded(exchange: Exchange, r: Result<DiffResult, ComparerError>) -> bool {
    match exchange {
        Exchange::SpawnFailed(cause) => r == Err::<DiffResult, ComparerError>(
            ComparerError::Io(cause),
        ),
        Exchange::WriteFailed(cause) => r == Err::<DiffResult, ComparerError>(
            ComparerError::Io(cause),
        ),
        Exchange::WaitFailed(cause) => r == Err::<DiffResult, ComparerError>(
            ComparerError::Io(cause),
        ),
        Exchange::Finished { success, stdout, stderr } => if !success {
            r matches Err(ComparerError::ProcessFailed(text)) && text@ == lossy_text(stderr@)
        } else {
            match parsed(stdout@) {
                None => r matches Err(ComparerError::MalformedOutput(DecodeError::Syntax(_))),
                Some(j) => match json_result(j) {
                    Ok(entries) => r matches Ok(result) && result@ == entries,
                    Err(fault) => r matches Err(ComparerError::MalformedOutput(e)) && e@ == fault,
                },
            }
        },
    }
}

/// What an exchange comes to: the comparer's report, or the reason why there
/// is none.
pub fn conclude(exchange: Exchange) -> (r: Result<DiffResult, ComparerError>)
    ensures
        concluded(exchange, r),
        exchange matches Exchange::Finished { success: false, .. } ==> r matches Err(
            ComparerError::ProcessFailed(_),
        ),
        exchange matches Exchange::Finished { success: true, stdout, .. } && parsed(stdout@)
            is None ==> r matches Err(ComparerError::MalformedOutput(_)),
        r matches Ok(result) ==> distinct_keys(result@),
{
    match exchange {
        Exchange::SpawnFailed(cause) => Err(ComparerError::Io(cause)),
        Exchange::WriteFailed(cause) => Err(ComparerError::Io(cause)),
        Exchange::WaitFailed(cause) => Err(ComparerError::Io(cause)),
        Exchange::Finished { success, stdout, stderr } => {
            if !success {
                Err(ComparerError::ProcessFailed(lossy(stderr.as_slice())))
            } else {
                match DiffResult::from_bytes(stdout.as_slice()) {
                    Ok(result) => Ok(result),
                    Err(e) => Err(ComparerError::MalformedOutput(e)),
                }
            }
        },
    }
}

} // verus!
