//! The text under which a report is stored.
//!
//! A report is stored as one pretty-printed JSON object that takes the place
//! of whatever the file held before. The text is made here; opening the file
//! and writing to it is the caller's part.

use crate::diff::{result_json, DiffResult};
use crate::json::{pretty, pretty_text};
use vstd::prelude::*;

verus! {

/// The file could not be opened or written in full; the text is the cause.
#[derive(Debug, Clone, PartialEq, Eq)]
pub struct WriteError {
    pub cause: String,
}

/// The whole content of the file that stores `result`: the pretty text of the
/// object that stands for the report, with no wrapper around it.
pub fn render(result: &DiffResult) -> (text: String)
    ensures
        text@ == pretty_text(result_json(result@)),
{
    let v = result.to_value();
    pretty(&v)
}

} // verus!
