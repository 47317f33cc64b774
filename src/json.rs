//! What this library takes from serde_json: string escaping, parsing and
//! printing of JSON texts, and a look at one JSON value's kind.
use vstd::prelude::*;

verus! {

#[verifier::external_type_specification]
#[verifier::external_body]
pub struct ExValue(serde_json::Value);

/// A lower-case hexadecimal digit.
pub open spec fn hex_lower(d: int) -> char {
    if d < 10 {
        (d + 48) as char
    } else {
        (d + 87) as char
    }
}

/// How serde_json writes one character inside a string literal: quote,
/// backslash and control characters escaped, every other character as is.
pub open spec fn escape_char(c: char) -> Seq<char> {
    if c == '"' {
        seq!['\\', '"']
    } else if c == '\\' {
        seq!['\\', '\\']
    } else if c == '\u{8}' {
        seq!['\\', 'b']
    } else if c == '\t' {
        seq!['\\', 't']
    } else if c == '\n' {
        seq!['\\', 'n']
    } else if c == '\u{c}' {
        seq!['\\', 'f']
    } else if c == '\r' {
        seq!['\\', 'r']
    } else if (c as u32) < 32 {
        seq!['\\', 'u', '0', '0', hex_lower((c as u32) as int / 16), hex_lower((c as u32) as int % 16)]
    } else {
        seq![c]
    }
}

/// The characters of a text as they stand inside its JSON string literal.
pub open spec fn escaped_chars(s: Seq<char>) -> Seq<char>
    decreases s.len(),
{
    if s.len() == 0 {
        Seq::empty()
    } else {
        escaped_chars(s.drop_last()) + escape_char(s.last())
    }
}

/// The JSON string literal that stands for a text.
pub open spec fn json_literal(s: Seq<char>) -> Seq<char> {
    seq!['"'] + escaped_chars(s) + seq!['"']
}

/// Whether every character of a text stands in its literal unchanged: no
/// quote, no backslash, no control character below U+0020.
pub open spec fn needs_no_escape(s: Seq<char>) -> bool {
    forall|i: int| 0 <= i < s.len() ==> s[i] != '"' && s[i] != '\\' && (s[i] as u32) >= 32
}

proof fn plain_text_unescaped(s: Seq<char>)
    requires
        needs_no_escape(s),
    ensures
        escaped_chars(s) == s,
    decreases s.len(),
{
    if s.len() > 0 {
        let init = s.drop_last();
        assert forall|i: int| 0 <= i < init.len() implies init[i] != '"' && init[i] != '\\'
            && (init[i] as u32) >= 32 by {
            assert(init[i] == s[i]);
        }
        plain_text_unescaped(init);
        let c = s.last();
        assert(c == s[s.len() - 1]);
        assert(escape_char(c) == seq![c]);
        assert(init + seq![c] =~= s);
    }
}

/// A text that needs no escape is written between two quotes as it is.
pub proof fn plain_text_literal(s: Seq<char>)
    requires
        needs_no_escape(s),
    ensures
        json_literal(s) == seq!['"'] + s + seq!['"'],
{
    plain_text_unescaped(s);
}

/// Relies on serde_json::to_string on a string slice (format_escaped_str and
/// its ESCAPE table): it writes the escaped literal into memory, which cannot
/// fail.
#[verifier::external_body]
pub(crate) fn json_string(s: &str) -> (r: Result<String, String>)
    ensures
        r is Ok,
        r->Ok_0@ == json_literal(s@),
{
    serde_json::to_string(s).map_err(|e| e.to_string())
}

/// The compact JSON text serde_json writes for a value.
pub uninterp spec fn value_text_of(v: serde_json::Value) -> Seq<char>;

/// Relies on serde_json::to_string on a JSON value: its map keys are strings
/// and the writer is in memory, so it cannot fail.
#[verifier::external_body]
pub(crate) fn value_text(v: &serde_json::Value) -> (r: Result<String, String>)
    ensures
        r is Ok,
        r->Ok_0@ == value_text_of(*v),
{
    serde_json::to_string(v).map_err(|e| e.to_string())
}

/// A JSON value as plain data.
#[derive(Debug)]
pub enum Json {
    Null,
    Bool(bool),
    /// A number that is an integer within the range of `i64`.
    Int(i64),
    /// Any other number, kept as serde_json writes it.
    OtherNumber(String),
    Text(String),
    List(Vec<Json>),
    /// An object's members, sorted by key, each key once (serde_json's map
    /// without order preservation).
    Object(Vec<(String, Json)>),
}

/// What serde_json reads a text as, or `None` where the text is not one JSON
/// value.
pub uninterp spec fn parsed_of(text: Seq<char>) -> Option<Json>;

/// Relies on serde_json::from_str into serde_json::Value, the value then
/// carried over variant by variant; the result depends on the text alone.
#[verifier::external_body]
pub(crate) fn parse_json(text: &str) -> (r: Result<Json, String>)
    ensures
        r is Ok <==> parsed_of(text@) is Some,
        r matches Ok(j) ==> parsed_of(text@) == Some(j),
{
    serde_json::from_str::<serde_json::Value>(text).map(|v| json_of(&v)).map_err(|e| e.to_string())
}

/// Carries a serde_json::Value over to `Json`, one variant for each of its
/// variants, using Number::as_i64 to tell integers apart; it recurses into
/// arrays and objects, which is why it stands apart from `parse_json`.
#[verifier::external_body]
fn json_of(v: &serde_json::Value) -> (r: Json)
{
    match v {
        serde_json::Value::Null => Json::Null,
        serde_json::Value::Bool(b) => Json::Bool(*b),
        serde_json::Value::Number(n) => match n.as_i64() {
            Some(i) => Json::Int(i),
            None => Json::OtherNumber(n.to_string()),
        },
        serde_json::Value::String(s) => Json::Text(s.clone()),
        serde_json::Value::Array(a) => Json::List(a.iter().map(json_of).collect()),
        serde_json::Value::Object(m) => Json::Object(m.iter().map(|(k, x)| (k.clone(), json_of(x))).collect()),
    }
}

} // verus!
