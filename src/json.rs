use vstd::prelude::*;

use crate::text::same_text;

verus! {

/// A JSON number, told apart only as far as decoding needs it.
#[derive(Debug, Clone, PartialEq, Eq)]
pub enum JsonNumber {
    /// A whole number of zero or more.
    Unsigned(u64),
    /// A whole number below zero.
    Negative(i64),
    /// A number with a fraction or an exponent.
    Fraction,
}

/// A JSON value: the shape of a request's run-time parameters.
/// An object keeps its members in order; a key is looked up at its first
/// occurrence.
#[derive(Debug, PartialEq, Eq)]
pub enum Json {
    Null,
    Bool(bool),
    Number(JsonNumber),
    Text(String),
    Array(Vec<Json>),
    Object(Vec<(String, Json)>),
}

/// The value under `key` at its first occurrence among `fields`.
pub open spec fn field(fields: Seq<(String, Json)>, key: Seq<char>) -> Option<Json>
    decreases fields.len(),
{
    if fields.len() == 0 {
        None
    } else if fields[0].0@ == key {
        Some(fields[0].1)
    } else {
        field(fields.drop_first(), key)
    }
}

/// The members of an object; nothing for any other value.
pub open spec fn members(j: Json) -> Seq<(String, Json)> {
    match j {
        Json::Object(fs) => fs@,
        _ => Seq::empty(),
    }
}

/// The position of the first member named `key`.
pub fn find_field(fields: &Vec<(String, Json)>, key: &str) -> (r: Option<usize>)
    ensures
        r is None ==> field(fields@, key@) is None,
        r is Some ==> r->0 < fields@.len() && field(fields@, key@) == Some(fields@[r->0 as int].1),
{
    let len = fields.len();
    let mut found: Option<usize> = None;
    let mut i: usize = len;
    while i > 0
        invariant
            len == fields@.len(),
            i <= len,
            found is None ==> field(fields@.subrange(i as int, len as int), key@) is None,
            found is Some ==> found->0 < len && field(fields@.subrange(i as int, len as int), key@)
                == Some(fields@[found->0 as int].1),
        decreases i,
    {
        i = i - 1;
        assert(fields@.subrange(i as int, len as int).drop_first() =~= fields@.subrange(
            i + 1,
            len as int,
        ));
        if same_text(fields[i].0.as_str(), key) {
            found = Some(i);
        }
    }
    assert(fields@.subrange(0, len as int) =~= fields@);
    found
}

/// The text under `v`, where it is a string.
pub open spec fn text_of(v: Option<Json>) -> Option<String> {
    match v {
        Some(Json::Text(s)) => Some(s),
        _ => None,
    }
}

/// The string member named `key`, if there is one.
pub fn text_field(fields: &Vec<(String, Json)>, key: &str) -> (r: Option<String>)
    ensures
        r == text_of(field(fields@, key@)),
{
    match find_field(fields, key) {
        None => None,
        Some(i) => match &fields[i].1 {
            Json::Text(s) => Some(s.clone()),
            _ => None,
        },
    }
}

} // verus!
