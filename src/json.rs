//! A flat view of a JSON object: its top-level entries, each value reduced to
//! what a record decoder reads. Parsing and string quoting are serde_json's.

use serde_json::Value as V;
use vstd::prelude::*;

verus! {

/// What a top-level entry's value is, as the decoder sees it.
pub enum FieldModel {
    Null,
    Bool(bool),
    /// A number, in its exact source text.
    Number(Seq<char>),
    Text(Seq<char>),
    /// An array or an object.
    Nested,
}

/// One top-level value of a JSON object.
#[derive(Debug, Clone)]
pub enum JsonField {
    Null,
    Bool(bool),
    /// A number, in its exact source text.
    Number(String),
    Text(String),
    /// An array or an object, whose content no record field reads.
    Nested,
}

impl View for JsonField {
    type V = FieldModel;

    open spec fn view(&self) -> FieldModel {
        match self {
            JsonField::Null => FieldModel::Null,
            JsonField::Bool(b) => FieldModel::Bool(*b),
            JsonField::Number(t) => FieldModel::Number(t@),
            JsonField::Text(s) => FieldModel::Text(s@),
            JsonField::Nested => FieldModel::Nested,
        }
    }
}

/// An entry with its key and value as plain values.
pub open spec fn entry_view(e: (String, JsonField)) -> (Seq<char>, FieldModel) {
    (e.0@, e.1@)
}

/// The entries of a JSON object, in the order they are held.
#[derive(Debug, Clone)]
pub struct JsonObject {
    pub entries: Vec<(String, JsonField)>,
}

impl View for JsonObject {
    type V = Seq<(Seq<char>, FieldModel)>;

    open spec fn view(&self) -> Seq<(Seq<char>, FieldModel)> {
        self.entries@.map_values(|e: (String, JsonField)| entry_view(e))
    }
}

/// The value of the first entry under `key`.
pub open spec fn lookup(entries: Seq<(Seq<char>, FieldModel)>, key: Seq<char>) -> Option<FieldModel>
    decreases entries.len(),
{
    if entries.len() == 0 {
        None
    } else if entries[0].0 == key {
        Some(entries[0].1)
    } else {
        lookup(entries.drop_first(), key)
    }
}

/// The top-level entries of `text` read as a JSON document, where it is one
/// whose top level is an object.
pub uninterp spec fn parsed_object(text: Seq<char>) -> Option<Seq<(Seq<char>, FieldModel)>>;

/// `s` written as a JSON string literal, quotes and escapes included.
pub uninterp spec fn json_quoted(s: Seq<char>) -> Seq<char>;

/// Relies on serde_json::from_str into a serde_json::Value: it reads `text` as a
/// JSON document; a top-level object is handed over entry by entry, each number
/// in its source text (serde_json's arbitrary_precision feature keeps it).
#[verifier::external_body]
pub(crate) fn parse_object(text: &str) -> (r: Option<JsonObject>)
    ensures
        match r {
            Some(o) => parsed_object(text@) == Some(o@),
            None => parsed_object(text@) is None,
        },
{
    match serde_json::from_str::<V>(text) {
        Ok(V::Object(m)) => Some(JsonObject { entries: m.into_iter().map(|(k, v)| (k, match v {
            V::Null => JsonField::Null,
            V::Bool(b) => JsonField::Bool(b),
            V::Number(n) => JsonField::Number(n.to_string()),
            V::String(s) => JsonField::Text(s),
            V::Array(_) => JsonField::Nested,
            V::Object(_) => JsonField::Nested,
        })).collect() }),
        _ => None,
    }
}

/// Relies on serde_json::to_string on a `str`: the JSON string literal for `s`,
/// which serialising a `str` always yields.
#[verifier::external_body]
pub(crate) fn quoted(s: &str) -> (r: String)
    ensures
        r@ == json_quoted(s@),
{
    serde_json::to_string(s).unwrap_or_default()
}

impl JsonObject {
    /// The value of the first entry under `key`.
    pub fn get(&self, key: &str) -> (r: Option<&JsonField>)
        ensures
            match r {
                Some(f) => lookup(self@, key@) == Some(f@),
                None => lookup(self@, key@) is None,
            },
    {
        let k = String::from_str(key);
        let n = self.entries.len();
        let mut i: usize = 0;
        assert(self@.subrange(0, n as int) =~= self@);
        while i < n
            invariant
                n == self.entries@.len(),
                n == self@.len(),
                i <= n,
                k@ == key@,
                lookup(self@, key@) == lookup(self@.subrange(i as int, n as int), key@),
            decreases n - i,
        {
            let ghost rest = self@.subrange(i as int, n as int);
            assert(rest[0] == entry_view(self.entries@[i as int]));
            assert(rest.drop_first() =~= self@.subrange(i + 1, n as int));
            if self.entries[i].0 == k {
                return Some(&self.entries[i].1);
            }
            i = i + 1;
        }
        None
    }
}

} // verus!
