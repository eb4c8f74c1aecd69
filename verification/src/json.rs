//! The JSON documents that the receiver reads: pushed payloads, JSON-RPC
//! parameters and identifiers, and records stored as JSON text.
//!
//! Parsing and printing JSON text happen where the bytes enter and leave the
//! process; inside the library a document is a `Json` tree whose accessors
//! follow the usual lookup rules: a missing member or a lookup into a value
//! that is not an object yields `null`.
use vstd::prelude::*;

verus! {

/// A JSON number: its value as an `i64` where it is an integer that fits
/// one, and its canonical decimal text (from which a REAL is taken).
pub struct JsonNumber {
    pub int: Option<i64>,
    pub text: String,
}

/// A JSON value. An object keeps its members in order; member names are
/// distinct in every document that the receiver parses, and a lookup takes
/// the first member with the name asked for.
pub enum Json {
    Null,
    Bool(bool),
    Number(JsonNumber),
    String(String),
    Array(Vec<Json>),
    Object(Vec<(String, Json)>),
}

/// The value of the first member named `key` at or after position `i`.
pub open spec fn lookup_from(members: Seq<(String, Json)>, key: Seq<char>, i: int) -> Option<Json>
    decreases members.len() - i,
{
    if i < 0 || i >= members.len() {
        None
    } else if members[i].0@ == key {
        Some(members[i].1)
    } else {
        lookup_from(members, key, i + 1)
    }
}

/// The member `key` of an object; nothing for a value that is not an object.
pub open spec fn json_member(j: Json, key: Seq<char>) -> Option<Json> {
    match j {
        Json::Object(members) => lookup_from(members@, key, 0),
        _ => None,
    }
}

/// `j[key]`: the member `key` of `j`, or `null` where there is none.
pub open spec fn json_index(j: Json, key: Seq<char>) -> Json {
    match json_member(j, key) {
        Some(v) => v,
        None => Json::Null,
    }
}

/// The text of a JSON string.
pub open spec fn json_text(j: Json) -> Option<Seq<char>> {
    match j {
        Json::String(s) => Some(s@),
        _ => None,
    }
}

/// The text of a JSON string, or the empty text for any other value.
pub open spec fn text_or_empty(j: Json) -> Seq<char> {
    match json_text(j) {
        Some(s) => s,
        None => ""@,
    }
}

/// A JSON number as an `i64`, where it is an integer that fits one.
pub open spec fn json_int(j: Json) -> Option<i64> {
    match j {
        Json::Number(n) => n.int,
        _ => None,
    }
}

/// The value a looked-up reference stands for: `null` where nothing was found.
pub open spec fn or_null(o: Option<&Json>) -> Json {
    match o {
        Some(v) => *v,
        None => Json::Null,
    }
}

/// The text of the string that a lookup found, if it found one.
pub open spec fn text_at(o: Option<&Json>) -> Option<Seq<char>> {
    json_text(or_null(o))
}

impl JsonNumber {
    /// An exact copy of the number.
    pub fn duplicate(&self) -> (r: JsonNumber)
        ensures
            r == *self,
    {
        JsonNumber { int: self.int, text: self.text.clone() }
    }

    /// The number zero.
    pub fn zero() -> (r: JsonNumber)
        ensures
            r.int == Some(0i64),
            r.text@ == "0"@,
    {
        JsonNumber { int: Some(0), text: String::from_str("0") }
    }
}

/// A JSON value as the contracts see it.
pub enum JsonV {
    Null,
    Bool(bool),
    Number(Option<i64>, Seq<char>),
    String(Seq<char>),
    Array(Seq<JsonV>),
    Object(Seq<(Seq<char>, JsonV)>),
}

/// The view of a JSON value.
pub open spec fn json_view(j: Json) -> JsonV
    decreases j,
{
    match j {
        Json::Null => JsonV::Null,
        Json::Bool(b) => JsonV::Bool(b),
        Json::Number(n) => JsonV::Number(n.int, n.text@),
        Json::String(s) => JsonV::String(s@),
        Json::Array(v) => JsonV::Array(
            Seq::new(
                v@.len(),
                |i: int|
                    if 0 <= i < v@.len() {
                        json_view(v@[i])
                    } else {
                        JsonV::Null
                    },
            ),
        ),
        Json::Object(m) => JsonV::Object(
            Seq::new(
                m@.len(),
                |i: int|
                    if 0 <= i < m@.len() {
                        (m@[i].0@, json_view(m@[i].1))
                    } else {
                        (Seq::empty(), JsonV::Null)
                    },
            ),
        ),
    }
}


/// The member named `key` of `members`, searched from the start.
fn find_member(members: &Vec<(String, Json)>, key: &str) -> (r: Option<usize>)
    ensures
        match r {
            Some(i) => i < members@.len() && members@[i as int].0@ == key@
                && lookup_from(members@, key@, 0) == Some(members@[i as int].1),
            None => lookup_from(members@, key@, 0) is None,
        },
{
    let wanted = String::from_str(key);
    let mut i: usize = 0;
    while i < members.len()
        invariant
            i <= members@.len(),
            wanted@ == key@,
            lookup_from(members@, key@, 0) == lookup_from(members@, key@, i as int),
        decreases members@.len() - i,
    {
        if members[i].0 == wanted {
            return Some(i);
        }
        i = i + 1;
    }
    None
}

impl Json {
    /// `self[key]`, as a reference where the member exists.
    pub fn member(&self, key: &str) -> (r: Option<&Json>)
        ensures
            or_null(r) == json_index(*self, key@),
    {
        match self {
            Json::Object(members) => {
                match find_member(members, key) {
                    Some(i) => Some(&members[i].1),
                    None => None,
                }
            },
            _ => None,
        }
    }

    /// `self[key]`, taking the value out of the document.
    pub fn take_member(self, key: &str) -> (r: Json)
        ensures
            r == json_index(self, key@),
    {
        match self {
            Json::Object(mut members) => {
                match find_member(&members, key) {
                    Some(i) => {
                        let (_, v) = members.swap_remove(i);
                        v
                    },
                    None => Json::Null,
                }
            },
            _ => Json::Null,
        }
    }
}

/// `o[key]` where `o` is the result of an earlier lookup.
pub fn member_of<'a>(o: Option<&'a Json>, key: &str) -> (r: Option<&'a Json>)
    ensures
        or_null(r) == json_index(or_null(o), key@),
{
    match o {
        Some(j) => j.member(key),
        None => None,
    }
}

/// The string that a lookup found, if it found one.
pub fn text_of<'a>(o: Option<&'a Json>) -> (r: Option<&'a String>)
    ensures
        match r {
            Some(s) => text_at(o) == Some(s@),
            None => text_at(o) is None,
        },
{
    match o {
        Some(Json::String(s)) => Some(s),
        _ => None,
    }
}

/// The string that a lookup found, or `default` where it found none.
pub fn text_or(o: Option<&Json>, default: &str) -> (r: String)
    ensures
        r@ == match text_at(o) {
            Some(s) => s,
            None => default@,
        },
{
    match text_of(o) {
        Some(s) => s.clone(),
        None => String::from_str(default),
    }
}

/// The string that a lookup found, as an owned string.
pub fn opt_text(o: Option<&Json>) -> (r: Option<String>)
    ensures
        match r {
            Some(s) => text_at(o) == Some(s@),
            None => text_at(o) is None,
        },
{
    match text_of(o) {
        Some(s) => Some(s.clone()),
        None => None,
    }
}

/// The `i64` that a lookup found, if it found an integer that fits one.
pub fn int_of(o: Option<&Json>) -> (r: Option<i64>)
    ensures
        r == json_int(or_null(o)),
{
    match o {
        Some(Json::Number(n)) => n.int,
        _ => None,
    }
}

/// The number that a lookup found, or zero where it found none.
pub fn real_or_zero(o: Option<&Json>) -> (r: JsonNumber)
    ensures
        match or_null(o) {
            Json::Number(n) => r == n,
            _ => r.int == Some(0i64) && r.text@ == "0"@,
        },
{
    match o {
        Some(Json::Number(n)) => n.duplicate(),
        _ => JsonNumber::zero(),
    }
}

/// The text stored for a record, with the document it holds where it is JSON.
pub struct StoredText {
    pub text: String,
    pub parsed: Option<Json>,
}

/// The value a stored text stands for: the document it holds, or the text
/// itself as a JSON string where it is not JSON.
pub open spec fn stored_value(t: StoredText) -> Json {
    match t.parsed {
        Some(j) => j,
        None => Json::String(t.text),
    }
}

/// The value a stored text stands for.
pub fn into_value(t: StoredText) -> (r: Json)
    ensures
        r == stored_value(t),
{
    match t.parsed {
        Some(j) => j,
        None => Json::String(t.text),
    }
}

} // verus!
