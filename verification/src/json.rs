//! Looking up a member of a JSON document that a server sent.

use vstd::prelude::*;

verus! {

/// What a JSON document holds under a key.
#[derive(Debug, PartialEq, Eq)]
pub enum JsonField {
    /// The document is no object, or has no such key.
    Missing,
    Null,
    Flag(bool),
    Number,
    Text(String),
    Array,
    Object,
}

/// What a JSON document holds under a key, as a value.
pub ghost enum FieldModel {
    Missing,
    Null,
    Flag(bool),
    Number,
    Text(Seq<char>),
    Array,
    Object,
}

impl View for JsonField {
    type V = FieldModel;

    open spec fn view(&self) -> FieldModel {
        match *self {
            JsonField::Missing => FieldModel::Missing,
            JsonField::Null => FieldModel::Null,
            JsonField::Flag(b) => FieldModel::Flag(b),
            JsonField::Number => FieldModel::Number,
            JsonField::Text(t) => FieldModel::Text(t@),
            JsonField::Array => FieldModel::Array,
            JsonField::Object => FieldModel::Object,
        }
    }
}

/// A lookup's result, as a value; nothing where the text is no JSON document.
pub open spec fn found(r: Option<JsonField>) -> Option<FieldModel> {
    match r {
        Some(f) => Some(f@),
        None => None,
    }
}

/// What `serde_json` finds in a text under a key; nothing where the text is no JSON
/// document.
pub uninterp spec fn json_member(text: Seq<char>, key: Seq<char>) -> Option<FieldModel>;

/// Parses a text by `serde_json::from_str` and looks a key up by `Value::get`. The result
/// depends on the text and the key alone.
#[verifier::external_body]
pub(crate) fn json_field(text: &str, key: &str) -> (r: Option<JsonField>)
    ensures
        found(r) == json_member(text@, key@),
{
    let doc = serde_json::from_str::<serde_json::Value>(text).ok()?;
    Some(
        match doc.get(key) {
            None => JsonField::Missing,
            Some(serde_json::Value::Null) => JsonField::Null,
            Some(serde_json::Value::Bool(b)) => JsonField::Flag(*b),
            Some(serde_json::Value::Number(_)) => JsonField::Number,
            Some(serde_json::Value::String(s)) => JsonField::Text(s.clone()),
            Some(serde_json::Value::Array(_)) => JsonField::Array,
            Some(serde_json::Value::Object(_)) => JsonField::Object,
        },
    )
}

} // verus!
