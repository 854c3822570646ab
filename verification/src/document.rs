//! The parsed document tree behind the structured text formats.
//!
//! All three text encodings are first parsed into one canonical in-memory
//! value by the outside parsers; manifest decoding then inspects that
//! value through the narrow accessors below. The tree is modelled by
//! [`Doc`], which distinguishes exactly what decoding reads — text,
//! lists, and key/value records — and folds every other scalar into
//! [`Doc::Opaque`].

use vstd::prelude::*;

verus! {

/// Mathematical shape of a parsed document value.
///
/// A record's entries appear in the order the parsed map hands them out,
/// with one entry per distinct key.
pub enum Doc {
    /// A text scalar.
    Text(Seq<char>),
    /// An ordered list of values.
    List(Seq<Doc>),
    /// A key/value mapping.
    Record(Seq<(Seq<char>, Doc)>),
    /// Any other scalar (a number, a boolean, a null, a datetime): nothing
    /// in manifest decoding reads its contents.
    Opaque,
}

/// The first value bound to `key` among `entries`, if any.
pub open spec fn doc_lookup(entries: Seq<(Seq<char>, Doc)>, key: Seq<char>) -> Option<Doc>
    decreases entries.len(),
{
    if entries.len() == 0 {
        None
    } else if entries[0].0 == key {
        Some(entries[0].1)
    } else {
        doc_lookup(entries.drop_first(), key)
    }
}

#[verifier::external_type_specification]
#[verifier::external_body]
pub struct ExValue(serde_json::Value);

/// The document tree carried by a parsed value. A value is opaque to the
/// verifier; this names what its accessors reveal of it, so that every
/// accessor below speaks about one and the same tree.
pub uninterp spec fn doc_of(v: serde_json::Value) -> Doc;

/// The document tree that TOML parsing yields for the given text, or
/// `None` when the text is not a well-formed TOML document. The result
/// depends on the text alone.
pub uninterp spec fn toml_doc(s: Seq<char>) -> Option<Doc>;

/// The document tree that YAML parsing yields for the given text, or
/// `None` when the text is not a well-formed YAML document. The result
/// depends on the text alone.
pub uninterp spec fn yaml_doc(s: Seq<char>) -> Option<Doc>;

/// The document tree that JSON parsing yields for the given text, or
/// `None` when the text is not a well-formed JSON document. The result
/// depends on the text alone.
pub uninterp spec fn json_doc(s: Seq<char>) -> Option<Doc>;

/// Relies on `toml::from_str` deserializing into `serde_json::Value`:
/// parsing either yields the document's value tree or fails, and the
/// result is a function of the text alone.
#[verifier::external_body]
pub(crate) fn parse_toml(text: &str) -> (r: Option<serde_json::Value>)
    ensures
        match toml_doc(text@) {
            Some(d) => r matches Some(v) && doc_of(v) == d,
            None => r is None,
        },
{
    toml::from_str(text).ok()
}

/// Relies on `serde_yaml::from_str` deserializing into
/// `serde_json::Value`: parsing either yields the document's value tree
/// or fails, and the result is a function of the text alone.
#[verifier::external_body]
pub(crate) fn parse_yaml(text: &str) -> (r: Option<serde_json::Value>)
    ensures
        match yaml_doc(text@) {
            Some(d) => r matches Some(v) && doc_of(v) == d,
            None => r is None,
        },
{
    serde_yaml::from_str(text).ok()
}

/// Relies on `serde_json::from_str`: parsing either yields the document's
/// value tree or fails, and the result is a function of the text alone.
#[verifier::external_body]
pub(crate) fn parse_json(text: &str) -> (r: Option<serde_json::Value>)
    ensures
        match json_doc(text@) {
            Some(d) => r matches Some(v) && doc_of(v) == d,
            None => r is None,
        },
{
    serde_json::from_str(text).ok()
}

/// Relies on `serde_json::Value::as_str`: it returns the characters of a
/// string value and `None` for every other value.
#[verifier::external_body]
pub(crate) fn value_text<'a>(v: &'a serde_json::Value) -> (r: Option<&'a str>)
    ensures
        match doc_of(*v) {
            Doc::Text(t) => r matches Some(s) && s@ == t,
            _ => r is None,
        },
{
    v.as_str()
}

/// Relies on `serde_json::Value::get` with a string index: on a map value
/// it returns the value bound to the key, and `None` when the key is
/// absent or the value is not a map.
#[verifier::external_body]
pub(crate) fn value_field<'a>(v: &'a serde_json::Value, key: &str) -> (r: Option<
    &'a serde_json::Value,
>)
    ensures
        match doc_of(*v) {
            Doc::Record(entries) => match doc_lookup(entries, key@) {
                Some(d) => r matches Some(f) && doc_of(*f) == d,
                None => r is None,
            },
            _ => r is None,
        },
{
    v.get(key)
}

/// Relies on `serde_json::Value::as_array`: it returns the elements of an
/// array value in order and `None` for every other value.
#[verifier::external_body]
pub(crate) fn value_items<'a>(v: &'a serde_json::Value) -> (r: Option<&'a Vec<serde_json::Value>>)
    ensures
        match doc_of(*v) {
            Doc::List(items) => r matches Some(xs) && xs@.len() == items.len() && (forall|i: int|
                0 <= i < items.len() ==> doc_of(#[trigger] xs@[i]) == items[i]),
            _ => r is None,
        },
{
    v.as_array()
}

/// Relies on `serde_json::Value::as_object` and `Map::keys`: on a map
/// value the keys come out one per entry, in the map's iteration order,
/// and every other value gives `None`.
#[verifier::external_body]
pub(crate) fn value_record_keys(v: &serde_json::Value) -> (r: Option<Vec<String>>)
    ensures
        match doc_of(*v) {
            Doc::Record(entries) => r matches Some(ks) && ks@.len() == entries.len() && (forall|
                i: int,
            |
                0 <= i < entries.len() ==> (#[trigger] ks@[i])@ == entries[i].0),
            _ => r is None,
        },
{
    v.as_object().map(|m| m.keys().cloned().collect())
}

} // verus!
