//! The trusted boundary to the JSON crate: parsing a configuration document
//! into the bridge's own document form, and rendering a merged entity
//! document as JSON text.

use vstd::prelude::*;
use crate::config::{ConfigDoc, DocField, DocValue, NestedField, NestedValue};

verus! {

/// The JSON value type of the outside crate, opaque to verification.
#[verifier::external_type_specification]
#[verifier::external_body]
pub struct ExValue(serde_json::Value);

/// Relies on `serde_json::from_str`: parses JSON text, or reports the
/// parser's rendered error message.
#[verifier::external_body]
pub fn json_parse(s: &String) -> (r: Result<serde_json::Value, String>)
{
    match serde_json::from_str(s.as_str()) {
        Ok(v) => Ok(v),
        Err(e) => Err(format!("{}", e)),
    }
}

/// Relies on `Value::as_object` and `Map::iter`: the members of a JSON
/// object as named values, or `None` for any other kind of value.
#[verifier::external_body]
pub fn json_entries(v: &serde_json::Value) -> (r: Option<Vec<(String, serde_json::Value)>>)
{
    v.as_object().map(|m| m.iter().map(|(k, val)| (k.clone(), val.clone())).collect())
}

/// Relies on `Value::as_str`: the text of a JSON string, or `None` for any
/// other kind of value.
#[verifier::external_body]
pub fn json_text(v: &serde_json::Value) -> (r: Option<String>)
{
    v.as_str().map(|s| s.to_string())
}

/// The JSON rendering of a list of key/value pairs as one object.  A later
/// pair under the same key overwrites an earlier one.  The rendering is a
/// function of the pairs alone.
pub uninterp spec fn json_object_text(pairs: Seq<(Seq<char>, Seq<char>)>) -> Seq<char>;

/// Relies on `serde_json::Map::insert` and `Value::to_string`: renders the
/// pairs as one JSON object with string members.
#[verifier::external_body]
pub fn render_json_object(pairs: &Vec<(String, String)>) -> (r: String)
    ensures
        r@ == json_object_text(pairs@.map_values(|p: (String, String)| (p.0@, p.1@))),
{
    let mut m = serde_json::Map::new();
    for (k, v) in pairs.iter() {
        m.insert(k.clone(), serde_json::Value::String(v.clone()));
    }
    serde_json::Value::Object(m).to_string()
}

fn nested_fields_of(entries: &Vec<(String, serde_json::Value)>) -> (r: Vec<NestedField>)
{
    let mut fields: Vec<NestedField> = Vec::new();
    let n = entries.len();
    let mut i: usize = 0;
    while i < n
        invariant
            n == entries@.len(),
            0 <= i <= n,
        decreases n - i,
    {
        let value = match json_text(&entries[i].1) {
            Some(s) => NestedValue::Text(s),
            None => NestedValue::Opaque,
        };
        fields.push(NestedField { key: entries[i].0.clone(), value });
        i = i + 1;
    }
    fields
}

/// Decode a parsed JSON value into the bridge's configuration document
/// form: strings stay strings, a one-level object of strings becomes a
/// nested group, everything else is carried opaquely.  A value that is not
/// an object at the top yields an empty document, which every lookup then
/// misses.
pub fn doc_of_json(v: &serde_json::Value) -> (r: ConfigDoc)
{
    let entries = match json_entries(v) {
        Some(entries) => entries,
        None => {
            return ConfigDoc { fields: Vec::new() };
        },
    };
    let mut fields: Vec<DocField> = Vec::new();
    let n = entries.len();
    let mut i: usize = 0;
    while i < n
        invariant
            n == entries@.len(),
            0 <= i <= n,
        decreases n - i,
    {
        let value = match json_text(&entries[i].1) {
            Some(s) => DocValue::Text(s),
            None => match json_entries(&entries[i].1) {
                Some(nested) => DocValue::Nested(nested_fields_of(&nested)),
                None => DocValue::Opaque,
            },
        };
        fields.push(DocField { key: entries[i].0.clone(), value });
        i = i + 1;
    }
    ConfigDoc { fields }
}

} // verus!
