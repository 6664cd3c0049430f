//! The canonical container format.
//!
//! A record arrives as the text of a single JSON object. The decoder turns
//! that text into a flat list of key/value pairs: scalar values are kept as
//! plain data (numbers as the decoder's canonical decimal text), and a
//! nested array or object value is kept as its serialized JSON text. The
//! decoder's object map is ordered by key, and a key that repeats on the
//! wire collapses to its last value there before the library sees it. The
//! record builder in `gelf` works on that list.

use vstd::prelude::*;

verus! {

/// One value of a top-level key in a record object.
#[derive(Debug, PartialEq, Eq)]
pub enum JsonValue {
    Null,
    Bool(bool),
    /// A number, kept as the decoder's canonical decimal text.
    Num(String),
    /// A string, with its decoded contents.
    Str(String),
    /// An array or object, kept as its serialized JSON text.
    Composite(String),
}

/// The mathematical shape of a `JsonValue`.
pub enum JsonValueV {
    Null,
    Bool(bool),
    Num(Seq<char>),
    Str(Seq<char>),
    Composite(Seq<char>),
}

impl View for JsonValue {
    type V = JsonValueV;

    open spec fn view(&self) -> JsonValueV {
        match self {
            JsonValue::Null => JsonValueV::Null,
            JsonValue::Bool(b) => JsonValueV::Bool(*b),
            JsonValue::Num(s) => JsonValueV::Num(s@),
            JsonValue::Str(s) => JsonValueV::Str(s@),
            JsonValue::Composite(s) => JsonValueV::Composite(s@),
        }
    }
}

impl Clone for JsonValue {
    fn clone(&self) -> (r: Self)
        ensures
            r@ == self@,
    {
        match self {
            JsonValue::Null => JsonValue::Null,
            JsonValue::Bool(b) => JsonValue::Bool(*b),
            JsonValue::Num(s) => JsonValue::Num(s.clone()),
            JsonValue::Str(s) => JsonValue::Str(s.clone()),
            JsonValue::Composite(s) => JsonValue::Composite(s.clone()),
        }
    }
}

/// The shape of a list of top-level key/value pairs.
pub open spec fn pairs_view(ps: Seq<(String, JsonValue)>) -> Seq<(Seq<char>, JsonValueV)> {
    ps.map(|i: int, p: (String, JsonValue)| (p.0@, p.1@))
}

/// Keys of a pair list are distinct.
pub open spec fn distinct_keys(ps: Seq<(Seq<char>, JsonValueV)>) -> bool {
    forall|i: int, j: int| 0 <= i < j < ps.len() ==> (#[trigger] ps[i]).0 != (#[trigger] ps[j]).0
}

/// Why a payload is not a record object.
#[derive(Debug, Clone, Copy, PartialEq, Eq)]
pub enum JsonFault {
    /// Not valid JSON; the position comes from the decoder.
    Syntax { line: usize, column: usize },
    /// Valid JSON whose top level is not an object.
    NotObject,
}

/// What decoding a text as a JSON document yields.
pub enum JsonDoc {
    /// Not valid JSON; the decoder reports this position.
    Invalid { line: usize, column: usize },
    /// Valid JSON whose top level is not an object.
    NotObject,
    /// A single object: its key/value pairs, keys unique, in the decoder's
    /// order.
    Object(Seq<(Seq<char>, JsonValueV)>),
}

/// What the JSON decoder yields on a text: a function of the text alone.
pub uninterp spec fn json_doc(text: Seq<char>) -> JsonDoc;

/// Relies on `serde_json::from_str::<serde_json::Value>`: decoding a JSON
/// document is a function of the text alone, named `json_doc`; the decoder's
/// object map holds each key once; `serde_json::to_string` serializes a
/// nested value back to its JSON text.
#[verifier::external_body]
pub(crate) fn parse_json_object(text: &str) -> (r: Result<Vec<(String, JsonValue)>, JsonFault>)
    ensures
        match r {
            Ok(pairs) => json_doc(text@) == JsonDoc::Object(pairs_view(pairs@))
                && distinct_keys(pairs_view(pairs@)),
            Err(JsonFault::Syntax { line, column }) => json_doc(text@) == (JsonDoc::Invalid {
                line,
                column,
            }),
            Err(JsonFault::NotObject) => json_doc(text@) is NotObject,
        },
{
    let v = serde_json::from_str::<serde_json::Value>(text)
        .map_err(|e| JsonFault::Syntax { line: e.line(), column: e.column() })?;
    let serde_json::Value::Object(map) = v else { return Err(JsonFault::NotObject) };
    let mut pairs: Vec<(String, JsonValue)> = Vec::new();
    for (k, v) in map {
        pairs.push((k, match v {
            serde_json::Value::Null => JsonValue::Null,
            serde_json::Value::Bool(b) => JsonValue::Bool(b),
            serde_json::Value::Number(n) => JsonValue::Num(n.to_string()),
            serde_json::Value::String(s) => JsonValue::Str(s),
            other => JsonValue::Composite(serde_json::to_string(&other).unwrap_or_default()),
        }));
    }
    Ok(pairs)
}

} // verus!
