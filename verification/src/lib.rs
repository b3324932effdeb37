//! Compares two records through an external comparer and keeps the outcome.
//!
//! The crate holds everything about that exchange that is computation: the
//! JSON shape of a record, the request sent to the comparer, the reading of
//! its reply, the text that is stored, and the order in which a run proceeds.
//! Starting the comparer and touching files is left to the caller.

pub mod bridge;
pub mod diff;
pub mod json;
pub mod record;
pub mod run;
pub mod shape;
pub mod writer;
