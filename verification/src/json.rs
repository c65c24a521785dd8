//! JSON documents as plain values, and the two places where JSON text is
//! read or written.

use vstd::prelude::*;

use crate::text::{opt_text, same_text};

verus! {

/// A JSON value. A number is held as the text that `serde_json` writes for
/// it; an object holds its entries in a sequence (from a parse, sorted by
/// key, each key once), and a lookup takes the first entry under the key.
pub enum Json {
    Null,
    Bool(bool),
    Number(String),
    Str(String),
    Array(Vec<Json>),
    Object(Vec<(String, Json)>),
}

/// `serde_json::Value`, carried through opaquely on its way into `Json`.
#[verifier::external_type_specification]
#[verifier::external_body]
pub struct ExJsonValue(serde_json::Value);

/// Names the value that a JSON text denotes, or `None` where the text is not
/// JSON.
pub uninterp spec fn json_document(text: Seq<char>) -> Option<Json>;

/// The lower-case hexadecimal digit for `d`, below sixteen.
pub open spec fn hex_digit(d: nat) -> char {
    if d < 10 {
        (48 + d) as char
    } else {
        (87 + d) as char
    }
}

/// How one character stands inside a JSON string literal: `"` and `\`
/// escaped with a backslash; backspace, tab, line feed, form feed and
/// carriage return by their short escapes; the other control characters
/// below U+0020 as `\u00` and two lower-case hex digits; anything else as
/// it is.
pub open spec fn json_escaped_char(c: char) -> Seq<char> {
    let u = c as u32;
    if c == '"' {
        seq!['\\', '"']
    } else if c == '\\' {
        seq!['\\', '\\']
    } else if u == 0x08 {
        seq!['\\', 'b']
    } else if u == 0x09 {
        seq!['\\', 't']
    } else if u == 0x0a {
        seq!['\\', 'n']
    } else if u == 0x0c {
        seq!['\\', 'f']
    } else if u == 0x0d {
        seq!['\\', 'r']
    } else if u < 0x20 {
        seq!['\\', 'u', '0', '0', hex_digit((u / 16) as nat), hex_digit((u % 16) as nat)]
    } else {
        seq![c]
    }
}

/// The characters of `text`, each as it stands inside a JSON string literal.
pub open spec fn json_escaped(text: Seq<char>) -> Seq<char>
    decreases text.len(),
{
    if text.len() == 0 {
        Seq::empty()
    } else {
        json_escaped(text.drop_last()) + json_escaped_char(text.last())
    }
}

/// The JSON string literal that denotes `text`, quotes included, as
/// `serde_json` writes it.
pub open spec fn json_string_literal(text: Seq<char>) -> Seq<char> {
    seq!['"'] + json_escaped(text) + seq!['"']
}

/// Carries a parsed `serde_json::Value` over into `Json`, variant for
/// variant; the recursion into arrays and objects is why it stands apart from
/// `parse_json`.
#[verifier::external_body]
fn json_from_value(v: serde_json::Value) -> Json {
    match v {
        serde_json::Value::Null => Json::Null,
        serde_json::Value::Bool(b) => Json::Bool(b),
        serde_json::Value::Number(n) => Json::Number(n.to_string()),
        serde_json::Value::String(s) => Json::Str(s),
        serde_json::Value::Array(a) => Json::Array(a.into_iter().map(json_from_value).collect()),
        serde_json::Value::Object(m) => Json::Object(
            m.into_iter().map(|(k, x)| (k, json_from_value(x))).collect(),
        ),
    }
}

/// Parses JSON text.
///
/// Trusted: `serde_json::from_str::<serde_json::Value>`. The contract names
/// the outcome `json_document(text)`; nothing more is claimed of it.
#[verifier::external_body]
pub(crate) fn parse_json(text: &str) -> (r: Option<Json>)
    ensures
        r == json_document(text@),
{
    match serde_json::from_str::<serde_json::Value>(text) {
        Ok(v) => Some(json_from_value(v)),
        Err(_) => None,
    }
}

/// Writes a text as a JSON string literal.
///
/// Trusted: `serde_json::to_string` on a `str`, which cannot fail for it. The
/// contract states the escaping of `serde_json`'s compact formatter
/// (`format_escaped_str` with its `ESCAPE` table), as `json_string_literal`.
#[verifier::external_body]
pub(crate) fn quote_json(text: &str) -> (r: String)
    ensures
        r@ == json_string_literal(text@),
{
    serde_json::to_string(text).unwrap_or_default()
}

/// The value stored under `key` in the entries, the first such entry.
pub open spec fn entry_lookup(entries: Seq<(String, Json)>, key: Seq<char>) -> Option<Json>
    decreases entries.len(),
{
    if entries.len() == 0 {
        None
    } else if entries[0].0@ == key {
        Some(entries[0].1)
    } else {
        entry_lookup(entries.drop_first(), key)
    }
}

/// The value under `key` where `v` is an object holding it.
pub open spec fn json_field(v: Json, key: Seq<char>) -> Option<Json> {
    match v {
        Json::Object(entries) => entry_lookup(entries@, key),
        _ => None,
    }
}

/// The text of `v` where it is a string.
pub open spec fn json_text(v: Option<Json>) -> Option<Seq<char>> {
    match v {
        Some(Json::Str(s)) => Some(s@),
        _ => None,
    }
}

/// The truth value of `v` where it is a boolean.
pub open spec fn json_flag(v: Option<Json>) -> Option<bool> {
    match v {
        Some(Json::Bool(b)) => Some(b),
        _ => None,
    }
}

/// The value under `key` of `v` where `v` is a value and holds the key.
pub open spec fn json_at(v: Option<Json>, key: Seq<char>) -> Option<Json> {
    match v {
        Some(x) => json_field(x, key),
        None => None,
    }
}

proof fn lemma_entry_lookup_skip(entries: Seq<(String, Json)>, key: Seq<char>, i: int)
    requires
        0 <= i <= entries.len(),
        forall|k: int| 0 <= k < i ==> (#[trigger] entries[k]).0@ != key,
    ensures
        entry_lookup(entries, key) == entry_lookup(entries.skip(i), key),
    decreases i,
{
    if i > 0 {
        lemma_entry_lookup_skip(entries.drop_first(), key, i - 1);
        assert(entries.drop_first().skip(i - 1) =~= entries.skip(i));
    } else {
        assert(entries.skip(0) =~= entries);
    }
}

impl Json {
    /// The value under `key`, where this is an object that holds it.
    pub fn field(&self, key: &str) -> (r: Option<&Json>)
        ensures
            match r {
                Some(x) => json_field(*self, key@) == Some(*x),
                None => json_field(*self, key@) is None,
            },
    {
        match self {
            Json::Object(entries) => {
                let mut i: usize = 0;
                while i < entries.len()
                    invariant
                        *self == Json::Object(*entries),
                        i <= entries.len(),
                        forall|k: int| 0 <= k < i ==> (#[trigger] entries@[k]).0@ != key@,
                    decreases entries.len() - i,
                {
                    if same_text(entries[i].0.as_str(), key) {
                        proof {
                            lemma_entry_lookup_skip(entries@, key@, i as int);
                            let ghost rest = entries@.skip(i as int);
                            assert(rest[0] == entries@[i as int]);
                            assert(rest[0].0@ == key@);
                            assert(entry_lookup(rest, key@) == Some(rest[0].1));
                            assert(json_field(*self, key@) == Some(entries@[i as int].1));
                        }
                        let found = &entries[i].1;
                        assert(*found == entries@[i as int].1);
                        return Some(found);
                    }
                    i = i + 1;
                }
                proof {
                    lemma_entry_lookup_skip(entries@, key@, i as int);
                }
                None
            },
            _ => None,
        }
    }

    /// The text of this value, where it is a string.
    pub fn text(&self) -> (r: Option<String>)
        ensures
            opt_text(r) == json_text(Some(*self)),
    {
        match self {
            Json::Str(s) => Some(s.clone()),
            _ => None,
        }
    }

    /// The truth value of this value, where it is a boolean.
    pub fn flag(&self) -> (r: Option<bool>)
        ensures
            r == json_flag(Some(*self)),
    {
        match self {
            Json::Bool(b) => Some(*b),
            _ => None,
        }
    }
}

} // verus!
