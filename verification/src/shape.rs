//! The two shapes that records and results are made of: a list of strings,
//! and a member of an object found by its key.

use crate::json::{array_value, borrowed_members, document, documents, text_value, JsonValue};
use vstd::prelude::*;

verus! {

/// The texts of a run of strings, one for one.
pub open spec fn strings(items: Seq<String>) -> Seq<Seq<char>> {
    Seq::new(items.len(), |i: int| items[i]@)
}

/// The array whose elements are the given texts, in their order.
pub open spec fn text_list(texts: Seq<Seq<char>>) -> JsonValue {
    JsonValue::Array(Seq::new(texts.len(), |i: int| JsonValue::Text(texts[i])))
}

/// Every element is a string.
pub open spec fn all_text(items: Seq<JsonValue>) -> bool {
    forall|i: int| 0 <= i < items.len() ==> (#[trigger] items[i]) is Text
}

/// The texts of a document that is an array of strings; `None` for any other
/// document, an array with one element of another kind among them.
pub open spec fn as_text_list(j: JsonValue) -> Option<Seq<Seq<char>>> {
    match j {
        JsonValue::Array(items) => if all_text(items) {
            Some(Seq::new(items.len(), |i: int| items[i]->Text_0))
        } else {
            None
        },
        _ => None,
    }
}

/// `i` is the place of the first member with the key `key`.
pub open spec fn first_with_key(members: Seq<(Seq<char>, JsonValue)>, key: Seq<char>, i: int) -> bool {
    &&& 0 <= i < members.len()
    &&& members[i].0 == key
    &&& forall|k: int| 0 <= k < i ==> (#[trigger] members[k]).0 != key
}

/// The value of the first member with the key `key`, `None` where no member
/// has it.
pub open spec fn member(members: Seq<(Seq<char>, JsonValue)>, key: Seq<char>) -> Option<JsonValue> {
    if exists|i: int| first_with_key(members, key, i) {
        Some(members[choose|i: int| first_with_key(members, key, i)].1)
    } else {
        None
    }
}

/// A key has one first place at most, so the member found there is the member
/// with that key.
pub proof fn member_at(members: Seq<(Seq<char>, JsonValue)>, key: Seq<char>, i: int)
    requires
        first_with_key(members, key, i),
    ensures
        member(members, key) == Some(members[i].1),
{
}

/// Reading back a written list of texts gives the list.
pub proof fn text_list_round_trip(texts: Seq<Seq<char>>)
    ensures
        as_text_list(text_list(texts)) == Some(texts),
{
}

/// Writing a list of texts that was read gives the document it was read from.
pub proof fn text_list_read_back(j: JsonValue)
    requires
        as_text_list(j) is Some,
    ensures
        text_list(as_text_list(j)->0) == j,
{
    let texts = as_text_list(j)->0;
    assert(Seq::new(texts.len(), |i: int| JsonValue::Text(texts[i])) =~= j->Array_0);
}

/// The array of the given strings.
pub fn text_list_value(items: &Vec<String>) -> (v: serde_json::Value)
    ensures
        document(v) == text_list(strings(items@)),
{
    let mut elements: Vec<serde_json::Value> = Vec::new();
    let mut i: usize = 0;
    while i < items.len()
        invariant
            i <= items.len(),
            elements.len() == i,
            forall|k: int| 0 <= k < i ==> document(#[trigger] elements[k]) == JsonValue::Text(items[k]@),
        decreases items.len() - i,
    {
        elements.push(text_value(items[i].clone()));
        i += 1;
    }
    let v = array_value(elements);
    proof {
        let texts = strings(items@);
        assert(documents(elements@) =~= Seq::new(texts.len(), |k: int| JsonValue::Text(texts[k])));
    }
    v
}

/// Reads an array of strings: the strings in their order, or `None` where the
/// value is no array or one of its elements is no string.
pub fn value_text_list(v: &serde_json::Value) -> (r: Option<Vec<String>>)
    ensures
        match r {
            Some(items) => as_text_list(document(*v)) == Some(strings(items@)),
            None => as_text_list(document(*v)) is None,
        },
{
    match v.as_array() {
        None => None,
        Some(elements) => {
            let ghost docs = documents(elements@);
            let mut items: Vec<String> = Vec::new();
            let mut i: usize = 0;
            while i < elements.len()
                invariant
                    i <= elements.len(),
                    items.len() == i,
                    docs == documents(elements@),
                    document(*v) == JsonValue::Array(docs),
                    forall|k: int| 0 <= k < i ==> #[trigger] docs[k] == JsonValue::Text(items[k]@),
                decreases elements.len() - i,
            {
                match elements[i].as_str() {
                    None => {
                        return None;
                    },
                    Some(s) => {
                        assert(docs[i as int] == JsonValue::Text(s@));
                        items.push(s.to_owned());
                    },
                }
                i += 1;
            }
            Some(items)
        },
    }
}

/// Finds the first member with the key `key` among the members of an object.
pub fn find_member<'a>(pairs: &Vec<(&'a String, &'a serde_json::Value)>, key: &str) -> (r: Option<
    &'a serde_json::Value,
>)
    ensures
        match r {
            Some(v) => member(borrowed_members(pairs@), key@) == Some(document(*v)),
            None => member(borrowed_members(pairs@), key@) is None,
        },
{
    let wanted = key.to_owned();
    let ghost members = borrowed_members(pairs@);
    let mut i: usize = 0;
    while i < pairs.len()
        invariant
            i <= pairs.len(),
            wanted@ == key@,
            members == borrowed_members(pairs@),
            forall|k: int| 0 <= k < i ==> (#[trigger] members[k]).0 != key@,
        decreases pairs.len() - i,
    {
        if *pairs[i].0 == wanted {
            proof {
                member_at(members, key@, i as int);
            }
            return Some(pairs[i].1);
        }
        i += 1;
    }
    None
}

} // verus!
