//! The order of a run: compare two records, then store the report.
//!
//! A run is a small machine. The caller does what an [`Action`] asks for and
//! comes back with the [`Signal`] that says how it went. A report is stored
//! only after an exchange that gave one; after any failure the run is over
//! and nothing more is asked for.

use crate::bridge::{
    conclude, concluded, lossy_text, request, request_json, ComparerError, Exchange,
};
use crate::diff::{json_result, result_json, DecodeFault, DiffResult, DiffValue};
use crate::json::{compact_text, parsed, pretty_text};
use crate::record::{Person, PersonModel};
use crate::shape::strings;
use crate::writer::{render, WriteError};
use vstd::prelude::*;

verus! {

/// How far a run has come.
#[derive(Debug, Clone, Copy, PartialEq, Eq)]
pub enum Stage {
    /// Nothing has been done yet.
    Ready,
    /// The comparer was asked and has not answered.
    Comparing,
    /// The report was handed over to be stored.
    Storing,
    /// The run is over.
    Finished,
}

/// What the caller tells the run.
#[derive(Debug, Clone, PartialEq, Eq)]
pub enum Signal {
    /// Compare these two records.
    Start(Person, Person),
    /// The comparer was run, with this outcome.
    Compared(Exchange),
    /// The text was written in full.
    Stored,
    /// The file could not be opened or written in full; the text is the
    /// cause.
    StoreFailed(String),
}

/// Why a run ended without a stored report.
#[derive(Debug, Clone, PartialEq, Eq)]
pub enum Failure {
    Comparer(ComparerError),
    Writer(WriteError),
}

/// What the run asks of the caller.
#[derive(Debug, PartialEq, Eq)]
pub enum Action {
    /// Run the comparer once, with this text on its input.
    Compare { request: String },
    /// Put this text in place of the file's content. `result` is the report
    /// that the text stands for.
    Store { result: DiffResult, text: String },
    /// Tell the operator of the failure. Nothing was or will be stored.
    Report(Failure),
    /// Tell the operator that the report is stored.
    Succeed,
    /// The signal does not belong to the stage: there is nothing to do.
    Ignore,
}

/// From `stage`, the signal `signal` leads to the stage `next` and asks for
/// `action`.
pub open spec fn stepped(stage: Stage, signal: Signal, next: Stage, action: Action) -> bool {
    match (stage, signal) {
        (Stage::Ready, Signal::Start(a, b)) => {
            &&& next is Comparing
            &&& action matches Action::Compare { request }
            &&& request@ == compact_text(request_json(a@, b@))
        },
        (Stage::Comparing, Signal::Compared(exchange)) => match action {
            Action::Store { result, text } => {
                &&& next is Storing
                &&& concluded(exchange, Ok::<DiffResult, ComparerError>(result))
                &&& text@ == pretty_text(result_json(result@))
            },
            Action::Report(Failure::Comparer(e)) => {
                &&& next is Finished
                &&& concluded(exchange, Err::<DiffResult, ComparerError>(e))
            },
            _ => false,
        },
        (Stage::Storing, Signal::Stored) => next is Finished && action is Succeed,
        (Stage::Storing, Signal::StoreFailed(cause)) => {
            &&& next is Finished
            &&& action == Action::Report(Failure::Writer(WriteError { cause }))
        },
        _ => next == stage && action is Ignore,
    }
}

/// Takes the run one step on.
pub fn advance(stage: Stage, signal: Signal) -> (r: (Stage, Action))
    ensures
        stepped(stage, signal, r.0, r.1),
{
    match stage {
        Stage::Ready => match signal {
            Signal::Start(a, b) => (Stage::Comparing, Action::Compare { request: request(&a, &b) }),
            _ => (stage, Action::Ignore),
        },
        Stage::Comparing => match signal {
            Signal::Compared(exchange) => match conclude(exchange) {
                Ok(result) => {
                    let text = render(&result);
                    (Stage::Storing, Action::Store { result, text })
                },
                Err(e) => (Stage::Finished, Action::Report(Failure::Comparer(e))),
            },
            _ => (stage, Action::Ignore),
        },
        Stage::Storing => match signal {
            Signal::Stored => (Stage::Finished, Action::Succeed),
            Signal::StoreFailed(cause) => (
                Stage::Finished,
                Action::Report(Failure::Writer(WriteError { cause })),
            ),
            _ => (stage, Action::Ignore),
        },
        Stage::Finished => (stage, Action::Ignore),
    }
}

/// A report is handed over to be stored only when the comparer ended with
/// status zero and its output is a report: after a failed exchange, or an
/// exit status other than zero, or output that is no report, nothing is
/// stored.
pub proof fn stored_only_after_a_report(stage: Stage, signal: Signal, next: Stage, action: Action)
    requires
        stepped(stage, signal, next, action),
        action is Store,
    ensures
        stage is Comparing,
        next is Storing,
        ({
            &&& signal matches Signal::Compared(Exchange::Finished { success, stdout, stderr })
            &&& success
            &&& parsed(stdout@) matches Some(j)
            &&& json_result(j) == Ok::<Seq<(Seq<char>, DiffValue)>, DecodeFault>(action->result@)
        }),
{
}

/// Where the comparer ended with a status other than zero, the run is over:
/// the failure is reported with the text of the error channel, and no signal
/// that follows asks for anything.
pub proof fn failed_comparer_ends_the_run(
    stdout: Vec<u8>,
    stderr: Vec<u8>,
    next: Stage,
    action: Action,
    later: Signal,
    after: Stage,
    asked: Action,
)
    requires
        stepped(
            Stage::Comparing,
            Signal::Compared(Exchange::Finished { success: false, stdout, stderr }),
            next,
            action,
        ),
        stepped(next, later, after, asked),
    ensures
        next is Finished,
        ({
            &&& action matches Action::Report(Failure::Comparer(ComparerError::ProcessFailed(text)))
            &&& text@ == lossy_text(stderr@)
        }),
        after is Finished,
        asked is Ignore,
{
}

/// The first of the two records that a run compares when it is given none.
pub open spec fn first_sample() -> PersonModel {
    PersonModel {
        name: "Alice"@,
        age: 10,
        ls: seq!["ab"@, "bc"@, "cd"@],
        sentence: "cat in a hat"@,
    }
}

/// The second of the two records that a run compares when it is given none.
pub open spec fn second_sample() -> PersonModel {
    PersonModel { name: "Robert"@, age: 12, ls: seq!["ab"@], sentence: "owl in a cowl"@ }
}

/// The two records that a run compares when it is given none.
pub fn sample_records() -> (r: (Person, Person))
    ensures
        r.0@ == first_sample(),
        r.1@ == second_sample(),
{
    let mut first: Vec<String> = Vec::new();
    first.push("ab".to_owned());
    first.push("bc".to_owned());
    first.push("cd".to_owned());
    let mut second: Vec<String> = Vec::new();
    second.push("ab".to_owned());
    let a = Person::new("Alice".to_owned(), 10, first, "cat in a hat".to_owned());
    let b = Person::new("Robert".to_owned(), 12, second, "owl in a cowl".to_owned());
    proof {
        assert(strings(a.ls@) =~= first_sample().ls);
        assert(strings(b.ls@) =~= second_sample().ls);
    }
    (a, b)
}

} // verus!
