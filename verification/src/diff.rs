//! What the comparer reports: for each field it names, one text or a list of
//! texts.
//!
//! On the wire a report is a JSON object. A member that holds a string is a
//! single text, a member that holds an array of strings is a list, and a
//! member of any other shape makes the whole report unreadable. Nothing marks
//! which of the two a member is; it is told by its shape alone.

use crate::json::{
    borrowed_members, distinct_keys, document, object_members, object_value, owned_members, parse,
    parsed, text_value, JsonValue,
};
use crate::shape::{
    as_text_list, strings, text_list, text_list_read_back, text_list_round_trip, text_list_value,
    value_text_list,
};
use vstd::prelude::*;

verus! {

/// The difference reported for one field, as a mathematical value.
pub enum DiffValue {
    Str(Seq<char>),
    Arr(Seq<Seq<char>>),
}

/// The difference reported for one field: a single text, or a list of texts
/// in the comparer's order.
#[derive(Debug, Clone, PartialEq, Eq)]
pub enum CleanDiffs {
    Str(String),
    Arr(Vec<String>),
}

impl View for CleanDiffs {
    type V = DiffValue;

    open spec fn view(&self) -> DiffValue {
        match self {
            CleanDiffs::Str(s) => DiffValue::Str(s@),
            CleanDiffs::Arr(items) => DiffValue::Arr(strings(items@)),
        }
    }
}

/// The document that stands for a difference: the bare string, or the bare
/// array of strings.
pub open spec fn diff_json(d: DiffValue) -> JsonValue {
    match d {
        DiffValue::Str(s) => JsonValue::Text(s),
        DiffValue::Arr(texts) => text_list(texts),
    }
}

/// The difference that a document stands for: a string is a single text, an
/// array of strings is a list, and no other document is a difference.
pub open spec fn json_diff(j: JsonValue) -> Option<DiffValue> {
    match j {
        JsonValue::Text(s) => Some(DiffValue::Str(s)),
        JsonValue::Array(_) => match as_text_list(j) {
            Some(texts) => Some(DiffValue::Arr(texts)),
            None => None,
        },
        _ => None,
    }
}

/// A string is read as the single text it holds.
pub proof fn string_reads_as_text(s: Seq<char>)
    ensures
        json_diff(JsonValue::Text(s)) == Some(DiffValue::Str(s)),
{
}

/// An array of strings is read as the list of its texts, in their order.
pub proof fn strings_read_as_list(texts: Seq<Seq<char>>)
    ensures
        json_diff(text_list(texts)) == Some(DiffValue::Arr(texts)),
{
    text_list_round_trip(texts);
}

/// Nothing but a string or an array of strings is read as a difference: not
/// null, a boolean, a number or an object, and no array that holds anything
/// but strings.
pub proof fn other_shapes_are_refused(j: JsonValue)
    ensures
        j is Null || j is Bool || j is Integer || j is Real || j is Object ==> json_diff(j) is None,
        j matches JsonValue::Array(items) && (exists|i: int|
            0 <= i < items.len() && !(#[trigger] items[i] is Text)) ==> json_diff(j) is None,
{
}

/// Writing a difference that was read gives the document it was read from.
pub proof fn write_after_read(j: JsonValue)
    requires
        json_diff(j) is Some,
    ensures
        diff_json(json_diff(j)->0) == j,
{
    if j is Array {
        text_list_read_back(j);
    }
}

/// Reading a difference that was written gives the difference.
pub proof fn read_after_write(d: DiffValue)
    ensures
        json_diff(diff_json(d)) == Some(d),
{
    if let DiffValue::Arr(texts) = d {
        text_list_round_trip(texts);
    }
}

impl CleanDiffs {
    /// The JSON value that stands for this difference.
    pub fn to_value(&self) -> (v: serde_json::Value)
        ensures
            document(v) == diff_json(self@),
    {
        match self {
            CleanDiffs::Str(s) => text_value(s.clone()),
            CleanDiffs::Arr(items) => text_list_value(items),
        }
    }

    /// Reads a difference from a JSON value: first as a string, then as an
    /// array of strings; `None` where it is neither.
    pub fn from_value(v: &serde_json::Value) -> (r: Option<CleanDiffs>)
        ensures
            match r {
                Some(d) => json_diff(document(*v)) == Some(d@),
                None => json_diff(document(*v)) is None,
            },
    {
        match v.as_str() {
            Some(s) => Some(CleanDiffs::Str(s.to_owned())),
            None => match value_text_list(v) {
                Some(items) => Some(CleanDiffs::Arr(items)),
                None => None,
            },
        }
    }
}

/// Why a report could not be read, as a mathematical value.
pub enum DecodeFault {
    Syntax(Seq<char>),
    NotAnObject,
    Member(Seq<char>),
}

/// Why a report could not be read.
#[derive(Debug, Clone, PartialEq, Eq)]
pub enum DecodeError {
    /// The bytes are not one JSON document; the text is the parser's message.
    Syntax(String),
    /// The document is not an object.
    NotAnObject,
    /// The member with this key holds neither a string nor an array of
    /// strings. It is the first such member of the object.
    Member(String),
}

impl View for DecodeError {
    type V = DecodeFault;

    open spec fn view(&self) -> DecodeFault {
        match self {
            DecodeError::Syntax(message) => DecodeFault::Syntax(message@),
            DecodeError::NotAnObject => DecodeFault::NotAnObject,
            DecodeError::Member(key) => DecodeFault::Member(key@),
        }
    }
}

/// The entries that a run of keys and differences stands for.
pub open spec fn entry_views(entries: Seq<(String, CleanDiffs)>) -> Seq<(Seq<char>, DiffValue)> {
    Seq::new(entries.len(), |i: int| (entries[i].0@, entries[i].1@))
}

/// The document that stands for a report: an object with one member for each
/// entry, in the entries' order.
pub open spec fn result_json(entries: Seq<(Seq<char>, DiffValue)>) -> JsonValue {
    JsonValue::Object(Seq::new(entries.len(), |i: int| (entries[i].0, diff_json(entries[i].1))))
}

/// `i` is the place of the first member that is no difference.
pub open spec fn first_unreadable(members: Seq<(Seq<char>, JsonValue)>, i: int) -> bool {
    &&& 0 <= i < members.len()
    &&& json_diff(members[i].1) is None
    &&& forall|k: int| 0 <= k < i ==> json_diff((#[trigger] members[k]).1) is Some
}

/// The report that a document stands for. An object whose members are all
/// differences is the report with those entries, in the members' order. An
/// object with a member of another shape is refused with the key of the first
/// such member, and a document that is no object is refused as such.
pub open spec fn json_result(j: JsonValue) -> Result<Seq<(Seq<char>, DiffValue)>, DecodeFault> {
    match j {
        JsonValue::Object(members) => if exists|i: int| first_unreadable(members, i) {
            Err(DecodeFault::Member(members[choose|i: int| first_unreadable(members, i)].0))
        } else {
            Ok(Seq::new(members.len(), |i: int| (members[i].0, json_diff(members[i].1)->0)))
        },
        _ => Err(DecodeFault::NotAnObject),
    }
}

/// The entry with the key `key` is at place `i`.
pub open spec fn key_at(entries: Seq<(Seq<char>, DiffValue)>, key: Seq<char>, i: int) -> bool {
    0 <= i < entries.len() && entries[i].0 == key
}

/// Some entry has the key `key`.
pub open spec fn has_key(entries: Seq<(Seq<char>, DiffValue)>, key: Seq<char>) -> bool {
    exists|i: int| key_at(entries, key, i)
}

/// The difference reported under `key`, if any.
pub open spec fn lookup(entries: Seq<(Seq<char>, DiffValue)>, key: Seq<char>) -> Option<DiffValue> {
    if has_key(entries, key) {
        Some(entries[choose|i: int| key_at(entries, key, i)].1)
    } else {
        None
    }
}

/// The entries after `value` is reported under `key`: it takes the place of
/// what was reported under that key before, or comes last where nothing was.
pub open spec fn with_entry(
    entries: Seq<(Seq<char>, DiffValue)>,
    key: Seq<char>,
    value: DiffValue,
) -> Seq<(Seq<char>, DiffValue)> {
    if has_key(entries, key) {
        entries.update(choose|i: int| key_at(entries, key, i), (key, value))
    } else {
        entries.push((key, value))
    }
}

/// The outcome of reading a report, as a mathematical value.
pub open spec fn outcome_view(r: Result<DiffResult, DecodeError>) -> Result<
    Seq<(Seq<char>, DiffValue)>,
    DecodeFault,
> {
    match r {
        Ok(result) => Ok(result@),
        Err(e) => Err(e@),
    }
}

/// A report: what the comparer said of each field it chose to name.
///
/// The fields keep the order in which they were reported, and each is
/// reported once.
#[derive(Debug, PartialEq, Eq)]
pub struct DiffResult {
    entries: Vec<(String, CleanDiffs)>,
}

impl View for DiffResult {
    type V = Seq<(Seq<char>, DiffValue)>;

    closed spec fn view(&self) -> Seq<(Seq<char>, DiffValue)> {
        entry_views(self.entries@)
    }
}

impl DiffResult {
    #[verifier::type_invariant]
    spec fn keys_differ(&self) -> bool {
        distinct_keys(entry_views(self.entries@))
    }

    /// The report that names no field.
    pub fn new() -> (r: DiffResult)
        ensures
            r@ == Seq::<(Seq<char>, DiffValue)>::empty(),
    {
        let r = DiffResult { entries: Vec::new() };
        r
    }

    /// The number of fields reported.
    pub fn len(&self) -> (n: usize)
        ensures
            n == self@.len(),
    {
        self.entries.len()
    }

    /// Whether no field is reported.
    pub fn is_empty(&self) -> (b: bool)
        ensures
            b == (self@.len() == 0),
    {
        self.entries.len() == 0
    }

    /// The entries in their order, each field reported once.
    pub fn entries(&self) -> (entries: &Vec<(String, CleanDiffs)>)
        ensures
            entry_views(entries@) == self@,
            distinct_keys(self@),
    {
        proof {
            use_type_invariant(self);
        }
        &self.entries
    }

    /// The difference reported under `key`, if any.
    pub fn get(&self, key: &str) -> (r: Option<&CleanDiffs>)
        ensures
            match r {
                Some(d) => lookup(self@, key@) == Some(d@),
                None => lookup(self@, key@) is None,
            },
    {
        proof {
            use_type_invariant(self);
        }
        let wanted = key.to_owned();
        let mut i: usize = 0;
        while i < self.entries.len()
            invariant
                i <= self.entries.len(),
                wanted@ == key@,
                distinct_keys(self@),
                forall|k: int| 0 <= k < i ==> (#[trigger] self@[k]).0 != key@,
            decreases self.entries.len() - i,
        {
            if self.entries[i].0 == wanted {
                proof {
                    Self::key_has_one_place(self@, key@, i as int);
                }
                return Some(&self.entries[i].1);
            }
            i += 1;
        }
        None
    }

    /// Reports `value` under `key`, in place of what was reported under that
    /// key before, if anything was.
    pub fn insert(&mut self, key: String, value: CleanDiffs)
        ensures
            final(self)@ == with_entry(old(self)@, key@, value@),
            distinct_keys(final(self)@),
    {
        proof {
            use_type_invariant(&*self);
        }
        let ghost before = self@;
        let mut entries: Vec<(String, CleanDiffs)> = Vec::new();
        std::mem::swap(&mut entries, &mut self.entries);
        let mut i: usize = 0;
        while i < entries.len() && entries[i].0 != key
            invariant
                i <= entries.len(),
                entry_views(entries@) == before,
                forall|k: int| 0 <= k < i ==> (#[trigger] before[k]).0 != key@,
            decreases entries.len() - i,
        {
            i += 1;
        }
        if i < entries.len() {
            proof {
                Self::key_has_one_place(before, key@, i as int);
            }
            entries.set(i, (key, value));
            proof {
                let after = entry_views(entries@);
                assert forall|a: int, b: int| 0 <= a < b < after.len() implies after[a].0
                    != after[b].0 by {
                    assert(after[a].0 == before[a].0);
                    assert(after[b].0 == before[b].0);
                }
            }
        } else {
            entries.push((key, value));
            proof {
                let after = entry_views(entries@);
                assert forall|a: int, b: int| 0 <= a < b < after.len() implies after[a].0
                    != after[b].0 by {
                    assert(after[a].0 == before[a].0);
                    if b < before.len() {
                        assert(after[b].0 == before[b].0);
                    }
                }
            }
        }
        self.entries = entries;
    }

    /// Among entries whose keys differ, a key has one place.
    proof fn key_has_one_place(entries: Seq<(Seq<char>, DiffValue)>, key: Seq<char>, i: int)
        requires
            distinct_keys(entries),
            key_at(entries, key, i),
        ensures
            has_key(entries, key),
            (choose|c: int| key_at(entries, key, c)) == i,
            lookup(entries, key) == Some(entries[i].1),
    {
    }

    /// The JSON object that stands for this report.
    pub fn to_value(&self) -> (v: serde_json::Value)
        ensures
            document(v) == result_json(self@),
    {
        proof {
            use_type_invariant(self);
        }
        let mut pairs: Vec<(String, serde_json::Value)> = Vec::new();
        let mut i: usize = 0;
        while i < self.entries.len()
            invariant
                i <= self.entries.len(),
                pairs.len() == i,
                forall|k: int|
                    0 <= k < i ==> (#[trigger] pairs[k]).0@ == self@[k].0 && document(pairs[k].1)
                        == diff_json(self@[k].1),
            decreases self.entries.len() - i,
        {
            let value = self.entries[i].1.to_value();
            pairs.push((self.entries[i].0.clone(), value));
            i += 1;
        }
        proof {
            let members = owned_members(pairs@);
            assert(members =~= Seq::new(
                self@.len(),
                |k: int| (self@[k].0, diff_json(self@[k].1)),
            ));
        }
        object_value(pairs)
    }

    /// Reads a report from a JSON value.
    pub fn from_value(v: &serde_json::Value) -> (r: Result<DiffResult, DecodeError>)
        ensures
            outcome_view(r) == json_result(document(*v)),
            r matches Ok(result) ==> distinct_keys(result@),
    {
        match object_members(v) {
            None => Err(DecodeError::NotAnObject),
            Some(pairs) => {
                let ghost members = borrowed_members(pairs@);
                let mut entries: Vec<(String, CleanDiffs)> = Vec::new();
                let mut i: usize = 0;
                while i < pairs.len()
                    invariant
                        i <= pairs.len(),
                        entries.len() == i,
                        members == borrowed_members(pairs@),
                        document(*v) == JsonValue::Object(members),
                        forall|k: int|
                            0 <= k < i ==> json_diff((#[trigger] members[k]).1) == Some(
                                entries[k].1@,
                            ) && entries[k].0@ == members[k].0,
                    decreases pairs.len() - i,
                {
                    match CleanDiffs::from_value(pairs[i].1) {
                        None => {
                            proof {
                                assert(first_unreadable(members, i as int));
                            }
                            return Err(DecodeError::Member(pairs[i].0.clone()));
                        },
                        Some(d) => {
                            entries.push((pairs[i].0.clone(), d));
                        },
                    }
                    i += 1;
                }
                proof {
                    assert(entry_views(entries@) =~= Seq::new(
                        members.len(),
                        |k: int| (members[k].0, json_diff(members[k].1)->0),
                    ));
                }
                Ok(DiffResult { entries })
            },
        }
    }

    /// Reads a report from the bytes of a JSON document.
    ///
    /// Bytes that are no JSON document are refused with the parser's message;
    /// a document is read as [`DiffResult::from_value`] reads it.
    pub fn from_bytes(bytes: &[u8]) -> (r: Result<DiffResult, DecodeError>)
        ensures
            match parsed(bytes@) {
                Some(j) => outcome_view(r) == json_result(j),
                None => r matches Err(DecodeError::Syntax(_)),
            },
            r matches Ok(result) ==> distinct_keys(result@),
    {
        match parse(bytes) {
            Ok(v) => DiffResult::from_value(&v),
            Err(e) => Err(DecodeError::Syntax(e.to_string())),
        }
    }
}

} // verus!
