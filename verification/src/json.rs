//! JSON documents, as `serde_json` holds them.
//!
//! The library reads and builds `serde_json::Value` through the items of this
//! module. Their contracts are trusted, not proved: each says over
//! [`JsonDoc`], a mathematical model of a document, what the `serde_json`
//! function does. The model is that of `serde_json` with its default
//! features: an object keeps one member for each key, sorted by key, and a
//! number is a `u64`, a negative `i64` or a finite real.

use vstd::prelude::*;
use vstd::string::*;

verus! {

/// A JSON number: `serde_json` keeps a non-negative integer, a negative
/// integer, or a finite real (modelled here by its IEEE 754 bit pattern).
pub enum JsonNumber {
    Unsigned(u64),
    Negative(i64),
    Real { bits: u64 },
}

/// The mathematical model of a JSON document.
pub enum JsonDoc {
    Null,
    Bool(bool),
    Number(JsonNumber),
    Text(Seq<char>),
    Array(Seq<JsonDoc>),
    Object(Map<Seq<char>, JsonDoc>),
}

impl JsonDoc {
    /// The member of an object under a key; `None` for a missing key and for
    /// every document that is no object.
    pub open spec fn member(self, key: Seq<char>) -> Option<JsonDoc> {
        match self {
            JsonDoc::Object(members) => if members.contains_key(key) {
                Some(members[key])
            } else {
                None
            },
            _ => None,
        }
    }

    /// A non-negative integer as a document.
    pub open spec fn unsigned(n: u64) -> JsonDoc {
        JsonDoc::Number(JsonNumber::Unsigned(n))
    }

    /// A text or, for `None`, `null`.
    pub open spec fn optional_text(text: Option<Seq<char>>) -> JsonDoc {
        match text {
            Some(t) => JsonDoc::Text(t),
            None => JsonDoc::Null,
        }
    }

    /// A non-negative integer or, for `None`, `null`.
    pub open spec fn optional_unsigned(n: Option<u64>) -> JsonDoc {
        match n {
            Some(n) => JsonDoc::unsigned(n),
            None => JsonDoc::Null,
        }
    }

    /// An array of texts.
    pub open spec fn texts(items: Seq<Seq<char>>) -> JsonDoc {
        JsonDoc::Array(Seq::new(items.len(), |i: int| JsonDoc::Text(items[i])))
    }
}

/// `serde_json::Value`, a JSON document. What it holds is [`value_doc`].
#[verifier::external_type_specification]
#[verifier::external_body]
pub struct ExValue(serde_json::Value);

/// `serde_json::Map`, the members of a JSON object. What it holds is
/// [`map_docs`].
#[verifier::external_type_specification]
#[verifier::external_body]
#[verifier::reject_recursive_types(K)]
#[verifier::reject_recursive_types(V)]
pub struct ExMap<K, V>(serde_json::Map<K, V>);

/// `serde_json::Error`, why a text is no JSON document. Nothing is read
/// from it.
#[verifier::external_type_specification]
#[verifier::external_body]
pub struct ExJsonError(serde_json::Error);

/// The document that a `serde_json::Value` holds.
pub uninterp spec fn value_doc(v: serde_json::Value) -> JsonDoc;

/// The members that a `serde_json::Map` holds, by key.
pub uninterp spec fn map_docs(m: serde_json::Map<String, serde_json::Value>) -> Map<
    Seq<char>,
    JsonDoc,
>;

/// The document that `serde_json::from_str` reads from a text; `None` where
/// the text is not one JSON document.
pub uninterp spec fn json_parse(text: Seq<char>) -> Option<JsonDoc>;

/// The compact text that `serde_json::to_string` writes for a document.
pub uninterp spec fn json_text(doc: JsonDoc) -> Seq<char>;

/// The documents held by a sequence of values, in order.
pub open spec fn docs_of(values: Seq<serde_json::Value>) -> Seq<JsonDoc> {
    Seq::new(values.len(), |i: int| value_doc(values[i]))
}

/// `Value::as_array` hands out the elements of an array, and `None` for
/// every other kind of value.
pub assume_specification[ serde_json::Value::as_array ](v: &serde_json::Value) -> (r: Option<
    &Vec<serde_json::Value>,
>)
    ensures
        match value_doc(*v) {
            JsonDoc::Array(items) => r matches Some(a) && docs_of(a@) == items,
            _ => r is None,
        },
;

/// `Value::as_u64` hands out a number that is a non-negative integer, and
/// `None` for every other value.
pub assume_specification[ serde_json::Value::as_u64 ](v: &serde_json::Value) -> (r: Option<u64>)
    ensures
        r == match value_doc(*v) {
            JsonDoc::Number(JsonNumber::Unsigned(n)) => Some(n),
            _ => None,
        },
;

/// `Value::as_str` hands out the text of a string, and `None` for every
/// other kind of value.
pub assume_specification[ serde_json::Value::as_str ](v: &serde_json::Value) -> (r: Option<&str>)
    ensures
        match value_doc(*v) {
            JsonDoc::Text(t) => r matches Some(s) && s@ == t,
            _ => r is None,
        },
;

/// `Value::is_null` tells `null` from every other value.
pub assume_specification[ serde_json::Value::is_null ](v: &serde_json::Value) -> (r: bool)
    ensures
        r == (value_doc(*v) is Null),
;

/// `Value::as_object` hands out the members of an object, and `None` for
/// every other kind of value.
pub assume_specification[ serde_json::Value::as_object ](v: &serde_json::Value) -> (r: Option<
    &serde_json::Map<String, serde_json::Value>,
>)
    ensures
        match value_doc(*v) {
            JsonDoc::Object(members) => r matches Some(m) && map_docs(*m) == members,
            _ => r is None,
        },
;

/// `Value::clone` copies a document.
pub assume_specification[ <serde_json::Value as Clone>::clone ](v: &serde_json::Value) -> (r:
    serde_json::Value)
    ensures
        value_doc(r) == value_doc(*v),
;

/// The members of an object without members.
pub open spec fn no_members() -> Map<Seq<char>, JsonDoc> {
    Map::empty()
}

/// `Map::new` makes a map without members.
#[verifier::external_body]
pub(crate) fn new_members() -> (m: serde_json::Map<String, serde_json::Value>)
    ensures
        map_docs(m) == no_members(),
{
    serde_json::Map::new()
}

/// Whether a map has finitely many members, and just so many.
pub open spec fn has_members(members: Map<Seq<char>, JsonDoc>, count: nat) -> bool {
    members.dom().finite() && members.dom().len() == count
}

/// `Map::len` counts the members, which are finitely many.
#[verifier::external_body]
pub(crate) fn member_count(m: &serde_json::Map<String, serde_json::Value>) -> (count: usize)
    ensures
        has_members(map_docs(*m), count as nat),
{
    m.len()
}

/// `Map::insert` puts a member under its key, in place of any member that
/// was there.
#[verifier::external_body]
pub(crate) fn insert_member(
    m: &mut serde_json::Map<String, serde_json::Value>,
    key: &str,
    v: serde_json::Value,
)
    ensures
        map_docs(*final(m)) == map_docs(*old(m)).insert(key@, value_doc(v)),
{
    m.insert(key.to_owned(), v);
}

/// `Value::get` with a text key looks a member of an object up; it finds
/// nothing in a value that is no object.
#[verifier::external_body]
pub(crate) fn member<'a>(v: &'a serde_json::Value, key: &str) -> (r: Option<&'a serde_json::Value>)
    ensures
        match value_doc(*v).member(key@) {
            Some(d) => r matches Some(x) && value_doc(*x) == d,
            None => r is None,
        },
{
    v.get(key)
}

/// `serde_json::from_str` reads a text as one JSON document.
#[verifier::external_body]
pub(crate) fn parse_document(text: &str) -> (r: Result<serde_json::Value, serde_json::Error>)
    ensures
        match r {
            Ok(v) => json_parse(text@) == Some(value_doc(v)),
            Err(_) => json_parse(text@) is None,
        },
{
    serde_json::from_str(text)
}

/// `Value::to_string` writes a document as compact text, as
/// `serde_json::to_string` does. It cannot fail on a `Value`: the keys of
/// its objects are texts, its numbers are finite, and it writes to memory.
#[verifier::external_body]
pub(crate) fn document_text(v: &serde_json::Value) -> (r: String)
    ensures
        r@ == json_text(value_doc(*v)),
{
    v.to_string()
}

/// `Value::Null`.
#[verifier::external_body]
pub(crate) fn null_value() -> (v: serde_json::Value)
    ensures
        value_doc(v) == JsonDoc::Null,
{
    serde_json::Value::Null
}

/// `Value::from` of a `bool` is `Value::Bool`.
#[verifier::external_body]
pub(crate) fn bool_value(b: bool) -> (v: serde_json::Value)
    ensures
        value_doc(v) == JsonDoc::Bool(b),
{
    serde_json::Value::from(b)
}

/// `Value::from` of a `u64` is the number that is this non-negative integer.
#[verifier::external_body]
pub(crate) fn unsigned_value(n: u64) -> (v: serde_json::Value)
    ensures
        value_doc(v) == JsonDoc::unsigned(n),
{
    serde_json::Value::from(n)
}

/// `Value::from` of a `&str` is `Value::String` with a copy of the text.
#[verifier::external_body]
pub(crate) fn text_value(text: &str) -> (v: serde_json::Value)
    ensures
        value_doc(v) == JsonDoc::Text(text@),
{
    serde_json::Value::from(text)
}

/// `Value::from` of a `Vec<Value>` is `Value::Array` of the same elements.
#[verifier::external_body]
pub(crate) fn array_value(items: Vec<serde_json::Value>) -> (v: serde_json::Value)
    ensures
        value_doc(v) == JsonDoc::Array(docs_of(items@)),
{
    serde_json::Value::from(items)
}

/// `Value::from` of a `Map` is `Value::Object` of the same members.
#[verifier::external_body]
pub(crate) fn object_value(members: serde_json::Map<String, serde_json::Value>) -> (v:
    serde_json::Value)
    ensures
        value_doc(v) == JsonDoc::Object(map_docs(members)),
{
    serde_json::Value::from(members)
}

/// A text as a value or, for `None`, `null`.
pub fn optional_text_value(text: Option<&str>) -> (v: serde_json::Value)
    ensures
        value_doc(v) == JsonDoc::optional_text(
            match text {
                Some(t) => Some(t@),
                None => None,
            },
        ),
{
    match text {
        Some(t) => text_value(t),
        None => null_value(),
    }
}

/// A non-negative integer as a value or, for `None`, `null`.
pub fn optional_unsigned_value(n: Option<u64>) -> (v: serde_json::Value)
    ensures
        value_doc(v) == JsonDoc::optional_unsigned(n),
{
    match n {
        Some(n) => unsigned_value(n),
        None => null_value(),
    }
}

/// An array of texts as a value.
pub fn texts_value(items: &Vec<String>) -> (v: serde_json::Value)
    ensures
        value_doc(v) == JsonDoc::texts(items.deep_view()),
{
    let mut values: Vec<serde_json::Value> = Vec::new();
    let mut i: usize = 0;
    while i < items.len()
        invariant
            i <= items.len(),
            values@.len() == i,
            forall|j: int|
                0 <= j < i ==> value_doc(#[trigger] values@[j]) == JsonDoc::Text(items@[j]@),
        decreases items.len() - i,
    {
        values.push(text_value(items[i].as_str()));
        i += 1;
    }
    assert(docs_of(values@) =~= Seq::new(
        items.deep_view().len(),
        |i: int| JsonDoc::Text(items.deep_view()[i]),
    ));
    array_value(values)
}

/// The text under a key of an object; `None` where there is none, or
/// where what is there is no text.
pub fn text_member(doc: &serde_json::Value, key: &str) -> (r: Option<String>)
    ensures
        r.deep_view() == match value_doc(*doc).member(key@) {
            Some(JsonDoc::Text(t)) => Some(t),
            _ => None,
        },
{
    match member(doc, key) {
        Some(v) => match v.as_str() {
            Some(t) => Some(String::from_str(t)),
            None => None,
        },
        None => None,
    }
}

/// Whether a document is a number that fits a byte.
pub open spec fn is_byte(doc: JsonDoc) -> bool {
    doc matches JsonDoc::Number(JsonNumber::Unsigned(n)) && n <= 255
}

/// The byte that a document is, where it is one.
pub open spec fn byte_of(doc: JsonDoc) -> u8 {
    match doc {
        JsonDoc::Number(JsonNumber::Unsigned(n)) => n as u8,
        _ => 0u8,
    }
}

/// The bytes that the elements of an array are; `None` where an element is
/// not a byte.
pub open spec fn doc_bytes(items: Seq<JsonDoc>) -> Option<Seq<u8>> {
    if forall|i: int| 0 <= i < items.len() ==> is_byte(#[trigger] items[i]) {
        Some(Seq::new(items.len(), |i: int| byte_of(items[i])))
    } else {
        None
    }
}

/// Reads the elements of an array as bytes.
pub fn bytes_of_values(items: &Vec<serde_json::Value>) -> (r: Option<Vec<u8>>)
    ensures
        match r {
            Some(b) => doc_bytes(docs_of(items@)) == Some(b@),
            None => doc_bytes(docs_of(items@)) is None,
        },
{
    let mut out: Vec<u8> = Vec::new();
    let mut i: usize = 0;
    while i < items.len()
        invariant
            i <= items.len(),
            out@.len() == i,
            forall|j: int| 0 <= j < i ==> is_byte(#[trigger] docs_of(items@)[j]),
            forall|j: int| 0 <= j < i ==> out@[j] == byte_of(#[trigger] docs_of(items@)[j]),
        decreases items.len() - i,
    {
        match items[i].as_u64() {
            Some(n) => {
                if n > 255 {
                    assert(!is_byte(docs_of(items@)[i as int]));
                    return None;
                }
                out.push(n as u8);
            },
            None => {
                return None;
            },
        }
        i += 1;
    }
    Some(out)
}

} // verus!
