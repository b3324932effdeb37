//! The records that are compared, and their JSON shape.
//!
//! A record goes over the wire as an object with the four members `name`,
//! `age`, `ls` and `sentence`, in that order. The names are fixed: the
//! comparer knows a record by them.

use crate::json::{
    distinct_keys, document, integer_value, object_members, object_value, owned_members,
    text_value, JsonValue,
};
use crate::shape::{
    as_text_list, find_member, first_with_key, member, member_at, strings, text_list,
    text_list_round_trip, text_list_value, value_text_list,
};
use vstd::prelude::*;

verus! {

/// A record, as a mathematical value.
pub struct PersonModel {
    pub name: Seq<char>,
    pub age: u8,
    pub ls: Seq<Seq<char>>,
    pub sentence: Seq<char>,
}

/// One of the two subjects of a comparison. No field is checked: a record
/// holds whatever it was made with.
#[derive(Debug, Clone, PartialEq, Eq)]
pub struct Person {
    pub name: String,
    pub age: u8,
    /// Tokens in an order that the comparer may go by.
    pub ls: Vec<String>,
    /// Free text that the comparer is given to compare.
    pub sentence: String,
}

impl View for Person {
    type V = PersonModel;

    open spec fn view(&self) -> PersonModel {
        PersonModel {
            name: self.name@,
            age: self.age,
            ls: strings(self.ls@),
            sentence: self.sentence@,
        }
    }
}

/// The members of the object that stands for a record.
pub open spec fn person_members(p: PersonModel) -> Seq<(Seq<char>, JsonValue)> {
    seq![
        ("name"@, JsonValue::Text(p.name)),
        ("age"@, JsonValue::Integer(p.age as int)),
        ("ls"@, text_list(p.ls)),
        ("sentence"@, JsonValue::Text(p.sentence)),
    ]
}

/// The document that stands for a record.
pub open spec fn person_json(p: PersonModel) -> JsonValue {
    JsonValue::Object(person_members(p))
}

/// The record that a document stands for: an object whose member `name` is a
/// string, whose member `age` is an integer from 0 to 255, whose member `ls`
/// is an array of strings and whose member `sentence` is a string. Members
/// with other keys are passed over. No other document is a record.
pub open spec fn json_person(j: JsonValue) -> Option<PersonModel> {
    match j {
        JsonValue::Object(members) => match (
            member(members, "name"@),
            member(members, "age"@),
            member(members, "ls"@),
            member(members, "sentence"@),
        ) {
            (
                Some(JsonValue::Text(name)),
                Some(JsonValue::Integer(age)),
                Some(ls),
                Some(JsonValue::Text(sentence)),
            ) => if 0 <= age <= 255 && as_text_list(ls) is Some {
                Some(PersonModel { name, age: age as u8, ls: as_text_list(ls)->0, sentence })
            } else {
                None
            },
            _ => None,
        },
        _ => None,
    }
}

/// The four member names differ from one another.
pub proof fn member_names_differ()
    ensures
        "name"@ != "age"@,
        "name"@ != "ls"@,
        "name"@ != "sentence"@,
        "age"@ != "ls"@,
        "age"@ != "sentence"@,
        "ls"@ != "sentence"@,
{
    reveal_strlit("name");
    reveal_strlit("age");
    reveal_strlit("ls");
    reveal_strlit("sentence");
    assert("name"@.len() == 4);
    assert("age"@.len() == 3);
    assert("ls"@.len() == 2);
    assert("sentence"@.len() == 8);
}

/// The object that stands for a record names each member once.
pub proof fn record_members_are_distinct(p: PersonModel)
    ensures
        distinct_keys(person_members(p)),
{
    member_names_differ();
}

/// Reading the document that stands for a record gives the record, field for
/// field.
pub proof fn record_round_trip(p: PersonModel)
    ensures
        json_person(person_json(p)) == Some(p),
{
    let members = person_members(p);
    member_names_differ();
    member_at(members, "name"@, 0);
    member_at(members, "age"@, 1);
    member_at(members, "ls"@, 2);
    member_at(members, "sentence"@, 3);
    text_list_round_trip(p.ls);
}

impl Person {
    /// The record with these fields.
    pub fn new(name: String, age: u8, ls: Vec<String>, sentence: String) -> (p: Person)
        ensures
            p == (Person { name, age, ls, sentence }),
    {
        Person { name, age, ls, sentence }
    }

    /// The JSON object that stands for this record.
    pub fn to_value(&self) -> (v: serde_json::Value)
        ensures
            document(v) == person_json(self@),
    {
        let mut pairs: Vec<(String, serde_json::Value)> = Vec::new();
        pairs.push(("name".to_owned(), text_value(self.name.clone())));
        pairs.push(("age".to_owned(), integer_value(self.age)));
        pairs.push(("ls".to_owned(), text_list_value(&self.ls)));
        pairs.push(("sentence".to_owned(), text_value(self.sentence.clone())));
        proof {
            assert(owned_members(pairs@) =~= person_members(self@));
            record_members_are_distinct(self@);
        }
        object_value(pairs)
    }

    /// Reads a record from a JSON value; `None` where the value does not
    /// stand for one.
    pub fn from_value(v: &serde_json::Value) -> (r: Option<Person>)
        ensures
            match r {
                Some(p) => json_person(document(*v)) == Some(p@),
                None => json_person(document(*v)) is None,
            },
    {
        let pairs = match object_members(v) {
            Some(pairs) => pairs,
            None => {
                return None;
            },
        };
        let name = match find_member(&pairs, "name") {
            Some(found) => match found.as_str() {
                Some(s) => s.to_owned(),
                None => {
                    return None;
                },
            },
            None => {
                return None;
            },
        };
        let age: u8 = match find_member(&pairs, "age") {
            Some(found) => match found.as_u64() {
                Some(n) => if n <= 255 {
                    n as u8
                } else {
                    return None;
                },
                None => {
                    return None;
                },
            },
            None => {
                return None;
            },
        };
        let ls = match find_member(&pairs, "ls") {
            Some(found) => match value_text_list(found) {
                Some(items) => items,
                None => {
                    return None;
                },
            },
            None => {
                return None;
            },
        };
        let sentence = match find_member(&pairs, "sentence") {
            Some(found) => match found.as_str() {
                Some(s) => s.to_owned(),
                None => {
                    return None;
                },
            },
            None => {
                return None;
            },
        };
        Some(Person { name, age, ls, sentence })
    }
}

} // verus!
