//! The boundary to `serde_json`. Its `Value` is opaque to the verifier, so this
//! module gives it a mathematical model, [`Json`], and states over that model
//! what each call into `serde_json` returns. Nothing here is proved: the
//! functions marked `external_body` are believed as documented.

use vstd::prelude::*;

verus! {

/// Makes `serde_json::Value` known to the verifier, as a type whose inside it
/// does not see.
#[verifier::external_type_specification]
#[verifier::external_body]
pub struct ExValue(serde_json::Value);

/// Makes `serde_json::Error` known to the verifier, likewise opaque. The
/// library reads nothing from it.
#[verifier::external_type_specification]
#[verifier::external_body]
pub struct ExError(serde_json::Error);

/// A JSON document as a mathematical tree. A number is held as the text that
/// `serde_json` writes for it; an object as the map from its keys to its members.
pub enum Json {
    Null,
    Bool(bool),
    Number(Seq<char>),
    Text(Seq<char>),
    Array(Seq<Json>),
    Object(Map<Seq<char>, Json>),
}

impl Json {
    /// The member under `key`, where this is an object that has one.
    pub open spec fn field(self, key: Seq<char>) -> Option<Json> {
        match self {
            Json::Object(members) => if members.contains_key(key) {
                Some(members[key])
            } else {
                None
            },
            _ => None,
        }
    }

    /// The characters, where this is a string.
    pub open spec fn text(self) -> Option<Seq<char>> {
        match self {
            Json::Text(chars) => Some(chars),
            _ => None,
        }
    }

    /// The truth value, where this is a boolean.
    pub open spec fn flag(self) -> Option<bool> {
        match self {
            Json::Bool(b) => Some(b),
            _ => None,
        }
    }

    /// The elements, where this is an array.
    pub open spec fn items(self) -> Option<Seq<Json>> {
        match self {
            Json::Array(elements) => Some(elements),
            _ => None,
        }
    }
}

/// The tree that a `serde_json::Value` holds.
pub uninterp spec fn json_of(value: serde_json::Value) -> Json;

/// What `serde_json::from_str` makes of a text: the tree of the document, or
/// nothing where the text is not exactly one JSON document.
pub uninterp spec fn parsed(text: Seq<char>) -> Option<Json>;

/// The indented, multi-line text that `serde_json` writes for a tree.
pub uninterp spec fn pretty_text(tree: Json) -> Seq<char>;

/// The trees of a vector of values, in order.
pub open spec fn trees_of(values: Seq<serde_json::Value>) -> Seq<Json> {
    values.map_values(|value: serde_json::Value| json_of(value))
}

/// Calls `serde_json::from_str` at type `Value`. Believed: the outcome is a
/// function of the text alone; on success the value holds the tree that
/// [`parsed`] names, and the call fails exactly where [`parsed`] gives nothing.
#[verifier::external_body]
pub(crate) fn parse(text: &str) -> (r: Result<serde_json::Value, serde_json::Error>)
    ensures
        match r {
            Ok(value) => parsed(text@) == Some(json_of(value)),
            Err(_) => parsed(text@) is None,
        },
{
    serde_json::from_str::<serde_json::Value>(text)
}

/// Calls `Value::get` with a string key. Believed: it finds the member under
/// that key where the value is an object that has one, and nothing otherwise.
#[verifier::external_body]
pub(crate) fn member<'a>(value: &'a serde_json::Value, key: &str) -> (r: Option<
    &'a serde_json::Value,
>)
    ensures
        match r {
            Some(found) => json_of(*value).field(key@) == Some(json_of(*found)),
            None => json_of(*value).field(key@) is None,
        },
{
    value.get(key)
}

/// Calls `Value::as_str`. Believed: it gives the characters where the value is
/// a string, and nothing otherwise.
#[verifier::external_body]
pub(crate) fn text_of<'a>(value: &'a serde_json::Value) -> (r: Option<&'a str>)
    ensures
        match r {
            Some(chars) => json_of(*value).text() == Some(chars@),
            None => json_of(*value).text() is None,
        },
{
    value.as_str()
}

/// Calls `Value::as_bool`. Believed: it gives the truth value where the value
/// is a boolean, and nothing otherwise.
#[verifier::external_body]
pub(crate) fn flag_of(value: &serde_json::Value) -> (r: Option<bool>)
    ensures
        r == json_of(*value).flag(),
{
    value.as_bool()
}

/// Calls `Value::as_array`. Believed: it gives the elements, in order, where
/// the value is an array, and nothing otherwise.
#[verifier::external_body]
pub(crate) fn items_of<'a>(value: &'a serde_json::Value) -> (r: Option<
    &'a Vec<serde_json::Value>,
>)
    ensures
        match r {
            Some(elements) => json_of(*value).items() == Some(trees_of(elements@)),
            None => json_of(*value).items() is None,
        },
{
    value.as_array()
}

/// Formats a value with `{:#}`, the indented form of its `Display`. Believed:
/// the text is a function of the tree alone, the one that [`pretty_text`] names.
#[verifier::external_body]
pub(crate) fn pretty(value: &serde_json::Value) -> (r: String)
    ensures
        r@ == pretty_text(json_of(*value)),
{
    format!("{:#}", value)
}

} // verus!
