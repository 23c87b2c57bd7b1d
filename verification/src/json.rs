//! JSON documents, as the parsers of this crate read them.

use vstd::prelude::*;

use crate::number::{loose_real, read_loose_real, read_real, real_view, strict_real, Real};
use crate::text::same;

verus! {

/// `serde_json::Value`, the document as the JSON reader gives it.
#[verifier::external_type_specification]
#[verifier::external_body]
pub struct ExValue(serde_json::Value);

/// A JSON number: its text, and its value where it is a whole number that an `i64` holds.
#[derive(Debug, Clone, PartialEq, Eq)]
pub struct JsonNumber {
    pub text: String,
    pub int: Option<i64>,
}

/// A JSON document. An object keeps its entries in the order in which the reader walks them.
#[derive(Debug, PartialEq, Eq)]
pub enum Json {
    Null,
    Bool(bool),
    Number(JsonNumber),
    Text(String),
    Array(Vec<Json>),
    Object(Vec<(String, Json)>),
}

// ---------------------------------------------------------------- reading a text

/// What `serde_json::from_str` makes of a text: a document, or the message of the error.
pub uninterp spec fn parsed(text: Seq<char>) -> Result<Json, Seq<char>>;

/// The document that a value of the JSON reader holds.
pub uninterp spec fn document(value: serde_json::Value) -> Json;

/// Calls `serde_json::from_str`. What comes back depends on the text alone: a value, or an
/// error, of which the message is handed on.
#[verifier::external_body]
fn read_value(text: &str) -> (r: Result<serde_json::Value, String>)
    ensures
        match r {
            Ok(v) => parsed(text@) == Ok::<Json, Seq<char>>(document(v)),
            Err(e) => parsed(text@) == Err::<Json, Seq<char>>(e@),
        },
{
    match serde_json::from_str::<serde_json::Value>(text) {
        Ok(v) => Ok(v),
        Err(e) => Err(e.to_string()),
    }
}

/// Takes a `serde_json::Value` apart, variant by variant; a `serde_json::Number` gives its text
/// and `as_i64`, a `serde_json::Map` its entries in the order of its iterator.
#[verifier::external_body]
fn document_of(value: serde_json::Value) -> (r: Json)
    ensures
        r == document(value),
{
    match value {
        serde_json::Value::Null => Json::Null,
        serde_json::Value::Bool(b) => Json::Bool(b),
        serde_json::Value::Number(n) => Json::Number(
            JsonNumber { int: n.as_i64(), text: n.to_string() },
        ),
        serde_json::Value::String(s) => Json::Text(s),
        serde_json::Value::Array(list) => Json::Array(list.into_iter().map(document_of).collect()),
        serde_json::Value::Object(map) => Json::Object(
            map.into_iter().map(|(key, item)| (key, document_of(item))).collect(),
        ),
    }
}

/// The document in a text, or the message of the error.
pub fn parse_json(text: &str) -> (r: Result<Json, String>)
    ensures
        match r {
            Ok(v) => parsed(text@) == Ok::<Json, Seq<char>>(v),
            Err(e) => parsed(text@) == Err::<Json, Seq<char>>(e@),
        },
{
    match read_value(text) {
        Ok(v) => Ok(document_of(v)),
        Err(e) => Err(e),
    }
}

// ---------------------------------------------------------------- looking into a document

/// What an optional reference points to.
pub open spec fn target(r: Option<&Json>) -> Option<Json> {
    match r {
        Some(v) => Some(*v),
        None => None,
    }
}

/// The view of an optional text.
pub open spec fn text_view(s: Option<String>) -> Option<Seq<char>> {
    match s {
        Some(t) => Some(t@),
        None => None,
    }
}

/// A copy of an optional text.
pub fn copy_text(s: &Option<String>) -> (r: Option<String>)
    ensures
        text_view(r) == text_view(*s),
{
    match s {
        Some(t) => Some(t.clone()),
        None => None,
    }
}

/// The item of the first entry under `key`.
pub open spec fn entry(entries: Seq<(String, Json)>, key: Seq<char>) -> Option<Json>
    decreases entries.len(),
{
    if entries.len() == 0 {
        None
    } else if entries[0].0@ == key {
        Some(entries[0].1)
    } else {
        entry(entries.drop_first(), key)
    }
}

/// The item under `key`, where the document is an object that has one.
pub open spec fn field(v: Json, key: Seq<char>) -> Option<Json> {
    match v {
        Json::Object(entries) => entry(entries@, key),
        _ => None,
    }
}

/// The item under `key` of an optional document.
pub open spec fn field_in(v: Option<Json>, key: Seq<char>) -> Option<Json> {
    match v {
        Some(d) => field(d, key),
        None => None,
    }
}

/// The text of a JSON string.
pub open spec fn as_text(v: Option<Json>) -> Option<Seq<char>> {
    match v {
        Some(Json::Text(s)) => Some(s@),
        _ => None,
    }
}

/// The text of a JSON string or number.
pub open spec fn as_loose_text(v: Option<Json>) -> Option<Seq<char>> {
    match v {
        Some(Json::Text(s)) => Some(s@),
        Some(Json::Number(n)) => Some(n.text@),
        _ => None,
    }
}

/// A JSON number, or the number in a string such as `+1.25%`.
pub open spec fn as_loose_real(v: Option<Json>) -> Option<Seq<char>> {
    match v {
        Some(Json::Number(n)) => Some(n.text@),
        Some(Json::Text(s)) => loose_real(s@),
        _ => None,
    }
}

/// A JSON number, or the number that a string writes.
pub open spec fn as_real(v: Option<Json>) -> Option<Seq<char>> {
    match v {
        Some(Json::Number(n)) => Some(n.text@),
        Some(Json::Text(s)) => strict_real(s@),
        _ => None,
    }
}

pub open spec fn as_array(v: Option<Json>) -> Option<Seq<Json>> {
    match v {
        Some(Json::Array(list)) => Some(list@),
        _ => None,
    }
}

/// Where the first entry under `key` stands.
fn find_entry(entries: &Vec<(String, Json)>, key: &str) -> (r: Option<usize>)
    ensures
        match r {
            Some(i) => i < entries@.len() && entry(entries@, key@) == Some(entries@[i as int].1),
            None => entry(entries@, key@) is None,
        },
{
    let mut i: usize = 0;
    assert(entries@.skip(0) == entries@);
    while i < entries.len()
        invariant
            i <= entries@.len(),
            entry(entries@, key@) == entry(entries@.skip(i as int), key@),
        decreases entries@.len() - i,
    {
        let ghost rest = entries@.skip(i as int);
        assert(rest[0] == entries@[i as int]);
        assert(rest.drop_first() =~= entries@.skip(i + 1));
        if same(&entries[i].0, key) {
            return Some(i);
        }
        i += 1;
    }
    None
}

impl Json {
    pub fn is_null(&self) -> (r: bool)
        ensures
            r == (*self is Null),
    {
        match self {
            Json::Null => true,
            _ => false,
        }
    }

    /// The item under `key`.
    pub fn get(&self, key: &str) -> (r: Option<&Json>)
        ensures
            target(r) == field(*self, key@),
    {
        match self {
            Json::Object(entries) => match find_entry(entries, key) {
                Some(i) => Some(&entries[i].1),
                None => None,
            },
            _ => None,
        }
    }
}

/// The item under `key` of an optional document.
pub fn get_in<'a>(v: Option<&'a Json>, key: &str) -> (r: Option<&'a Json>)
    ensures
        target(r) == field_in(target(v), key@),
{
    match v {
        Some(d) => d.get(key),
        None => None,
    }
}

/// The text of a JSON string.
pub fn text_in(v: Option<&Json>) -> (r: Option<String>)
    ensures
        text_view(r) == as_text(target(v)),
{
    match v {
        Some(Json::Text(s)) => Some(s.clone()),
        _ => None,
    }
}

/// The text of a JSON string or number.
pub fn loose_text_in(v: Option<&Json>) -> (r: Option<String>)
    ensures
        text_view(r) == as_loose_text(target(v)),
{
    match v {
        Some(Json::Text(s)) => Some(s.clone()),
        Some(Json::Number(n)) => Some(n.text.clone()),
        _ => None,
    }
}

/// A JSON number, or the number in a string such as `+1.25%`.
pub fn loose_real_in(v: Option<&Json>) -> (r: Option<Real>)
    ensures
        real_view(r) == as_loose_real(target(v)),
{
    match v {
        Some(Json::Number(n)) => Some(Real { text: n.text.clone() }),
        Some(Json::Text(s)) => read_loose_real(s),
        _ => None,
    }
}

/// A JSON number, or the number that a string writes.
pub fn real_in(v: Option<&Json>) -> (r: Option<Real>)
    ensures
        real_view(r) == as_real(target(v)),
{
    match v {
        Some(Json::Number(n)) => Some(Real { text: n.text.clone() }),
        Some(Json::Text(s)) => read_real(s),
        _ => None,
    }
}

/// Takes the item under `key` out of a document.
pub fn take_field(v: Json, key: &str) -> (r: Option<Json>)
    ensures
        r == field(v, key@),
{
    match v {
        Json::Object(entries) => {
            let mut list = entries;
            match find_entry(&list, key) {
                Some(i) => {
                    let (_, item) = list.remove(i);
                    Some(item)
                },
                None => None,
            }
        },
        _ => None,
    }
}

// ---------------------------------------------------------------- what a document says

/// The document is an object, and the first of its entries under a key holds an item.
pub open spec fn has_entry(doc: Json, key: Seq<char>, item: Json) -> bool {
    match doc {
        Json::Object(entries) => exists|i: int|
            {
                &&& 0 <= i < entries@.len()
                &&& (#[trigger] entries@[i]).0@ == key
                &&& entries@[i].1 == item
                &&& forall|j: int| 0 <= j < i ==> (#[trigger] entries@[j]).0@ != key
            },
        _ => false,
    }
}

/// One key behind the other leads to an item.
pub open spec fn says(doc: Json, path: Seq<Seq<char>>, item: Json) -> bool
    decreases path.len(),
{
    if path.len() == 0 {
        doc == item
    } else {
        exists|inner: Json| #[trigger]
            has_entry(doc, path[0], inner) && says(inner, path.drop_first(), item)
    }
}

/// One key alone, and two or three one behind the other.
pub open spec fn one_key(a: Seq<char>) -> Seq<Seq<char>> {
    seq![a]
}

pub open spec fn two_keys(a: Seq<char>, b: Seq<char>) -> Seq<Seq<char>> {
    seq![a, b]
}

pub open spec fn three_keys(a: Seq<char>, b: Seq<char>, c: Seq<char>) -> Seq<Seq<char>> {
    seq![a, b, c]
}

/// A text is read where the keys lead to a string, or to a number as it is written; nowhere else.
pub open spec fn reads_text(doc: Json, path: Seq<Seq<char>>, text: Option<Seq<char>>) -> bool {
    &&& forall|s: String| #[trigger] says(doc, path, Json::Text(s)) ==> text == Some(s@)
    &&& forall|n: JsonNumber| #[trigger]
        says(doc, path, Json::Number(n)) ==> text == Some(n.text@)
    &&& text is Some ==> exists|item: Json| #[trigger]
        says(doc, path, item) && (item is Text || item is Number)
}

/// A number is read where the keys lead to one, or to a string that has one between plus signs,
/// percent signs and white space; nowhere else.
pub open spec fn reads_number(doc: Json, path: Seq<Seq<char>>, number: Option<Seq<char>>) -> bool {
    &&& forall|n: JsonNumber| #[trigger]
        says(doc, path, Json::Number(n)) ==> number == Some(n.text@)
    &&& forall|s: String| #[trigger]
        says(doc, path, Json::Text(s)) ==> number == loose_real(s@)
    &&& number is Some ==> exists|item: Json| #[trigger]
        says(doc, path, item) && (item is Text || item is Number)
}

/// Two documents say the same under every key but one.
pub open spec fn agree_but(a: Json, b: Json, key: Seq<char>) -> bool {
    forall|other: Seq<char>, item: Json|
        other != key ==> (#[trigger] has_entry(a, other, item) <==> has_entry(b, other, item))
}

proof fn the_first_entry_is_found(entries: Seq<(String, Json)>, key: Seq<char>)
    ensures
        match entry(entries, key) {
            Some(item) => exists|i: int|
                {
                    &&& 0 <= i < entries.len()
                    &&& (#[trigger] entries[i]).0@ == key
                    &&& entries[i].1 == item
                    &&& forall|j: int| 0 <= j < i ==> (#[trigger] entries[j]).0@ != key
                },
            None => forall|i: int| 0 <= i < entries.len() ==> (#[trigger] entries[i]).0@ != key,
        },
    decreases entries.len(),
{
    if entries.len() > 0 {
        let rest = entries.drop_first();
        the_first_entry_is_found(rest, key);
        if entries[0].0@ != key {
            match entry(rest, key) {
                Some(item) => {
                    let i = choose|i: int|
                        {
                            &&& 0 <= i < rest.len()
                            &&& (#[trigger] rest[i]).0@ == key
                            &&& rest[i].1 == item
                            &&& forall|j: int| 0 <= j < i ==> (#[trigger] rest[j]).0@ != key
                        };
                    assert(entries[i + 1] == rest[i]);
                    assert forall|j: int| 0 <= j < i + 1 implies (#[trigger] entries[j]).0@
                        != key by {
                        if j > 0 {
                            assert(entries[j] == rest[j - 1]);
                        }
                    }
                },
                None => {
                    assert forall|i: int| 0 <= i < entries.len() implies (#[trigger] entries[i]).0@
                        != key by {
                        if i > 0 {
                            assert(entries[i] == rest[i - 1]);
                        }
                    }
                },
            }
        }
    }
}

/// What is looked up under a key is the first entry under it, and nothing where there is none.
pub proof fn a_lookup_finds_the_entry(doc: Json, key: Seq<char>, item: Json)
    ensures
        has_entry(doc, key, item) <==> field(doc, key) == Some(item),
{
    match doc {
        Json::Object(entries) => {
            the_first_entry_is_found(entries@, key);
        },
        _ => {},
    }
}

/// What stands at the end of keys, each looked up in what the one before it found.
pub open spec fn at_path(v: Option<Json>, path: Seq<Seq<char>>) -> Option<Json>
    decreases path.len(),
{
    if path.len() == 0 {
        v
    } else {
        at_path(field_in(v, path[0]), path.drop_first())
    }
}

proof fn nothing_leads_nowhere(path: Seq<Seq<char>>)
    ensures
        at_path(None, path) is None,
    decreases path.len(),
{
    if path.len() > 0 {
        nothing_leads_nowhere(path.drop_first());
    }
}

/// What keys lead to is what is found by looking up one behind the other.
pub proof fn keys_lead_on(doc: Json, path: Seq<Seq<char>>, item: Json)
    ensures
        says(doc, path, item) <==> at_path(Some(doc), path) == Some(item),
    decreases path.len(),
{
    if path.len() > 0 {
        let rest = path.drop_first();
        assert forall|inner: Json| #[trigger] has_entry(doc, path[0], inner) implies (says(
            inner,
            rest,
            item,
        ) <==> at_path(Some(inner), rest) == Some(item)) && field(doc, path[0]) == Some(
            inner,
        ) by {
            a_lookup_finds_the_entry(doc, path[0], inner);
            keys_lead_on(inner, rest, item);
        }
        match field(doc, path[0]) {
            Some(inner) => {
                a_lookup_finds_the_entry(doc, path[0], inner);
                assert(has_entry(doc, path[0], inner));
            },
            None => {
                nothing_leads_nowhere(rest);
            },
        }
    }
}

/// What is taken out of the item at the end of keys is read there.
pub proof fn readings_follow_the_keys(doc: Json, path: Seq<Seq<char>>)
    ensures
        reads_text(doc, path, as_loose_text(at_path(Some(doc), path))),
        reads_number(doc, path, as_loose_real(at_path(Some(doc), path))),
{
    assert forall|item: Json| #[trigger] says(doc, path, item) <==> at_path(Some(doc), path)
        == Some(item) by {
        keys_lead_on(doc, path, item);
    }
    match at_path(Some(doc), path) {
        Some(item) => {
            assert(says(doc, path, item));
        },
        None => {},
    }
}

/// Documents that agree but for one key give the same item under any other.
pub proof fn other_keys_stay(a: Json, b: Json, key: Seq<char>, other: Seq<char>)
    requires
        agree_but(a, b, key),
        other != key,
    ensures
        field(a, other) == field(b, other),
{
    match field(a, other) {
        Some(item) => {
            a_lookup_finds_the_entry(a, other, item);
            a_lookup_finds_the_entry(b, other, item);
            assert(has_entry(a, other, item));
        },
        None => {
            match field(b, other) {
                Some(item) => {
                    a_lookup_finds_the_entry(a, other, item);
                    a_lookup_finds_the_entry(b, other, item);
                    assert(has_entry(a, other, item) <==> has_entry(b, other, item));
                },
                None => {},
            }
        },
    }
}

} // verus!
