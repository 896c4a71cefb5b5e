//! A plain model of the JSON kinds the library inspects, together with the
//! trusted bridge from `serde_json` values into that model.
//!
//! The library never reasons about `serde_json::Value` directly: a value is
//! opaque to the verifier. Instead, the trusted functions below project a
//! value onto [`JsonShape`], and every decoding decision is made — and
//! verified — over that projection.

use vstd::prelude::*;

verus! {

#[verifier::external_type_specification]
#[verifier::external_body]
pub struct ExValue(serde_json::Value);

/// A scalar member of a JSON object, as far as the library inspects it: a
/// string, an unsigned integer, or any other kind.
#[derive(Debug, PartialEq)]
pub enum JsonScalar {
    /// A JSON string.
    Text(String),
    /// A JSON number representable as a `u64`.
    Unsigned(u64),
    /// Any other JSON kind, or a number outside the `u64` range.
    OtherScalar,
}

/// The top-level kind of a JSON value, as far as the library inspects it: a
/// string, an object whose members are scalars, or any other kind.
#[derive(Debug, PartialEq)]
pub enum JsonShape {
    /// A JSON string.
    Text(String),
    /// A JSON object, each member projected onto a [`JsonScalar`], in the
    /// order `serde_json` iterates the object (sorted by key).
    Object(Vec<(String, JsonScalar)>),
    /// Any other JSON kind: number, array, boolean or null.
    OtherShape,
}

/// The projection of a `serde_json` value onto the library's [`JsonShape`]
/// model. The projection is a function of the value alone: without the
/// `preserve_order` feature, `serde_json` maps iterate in sorted key order.
pub uninterp spec fn shape_of(v: serde_json::Value) -> JsonShape;

/// The [`JsonShape`] projection of the JSON document a text parses to, or
/// `None` when the text is not valid JSON.
pub uninterp spec fn parsed_shape(s: Seq<char>) -> Option<JsonShape>;

/// Relies on `serde_json::Value`'s variants and `Number::as_u64`: projects a
/// value onto the library's shape model, member by member.
#[verifier::external_body]
pub fn shape_of_value(v: &serde_json::Value) -> (shape: JsonShape)
    ensures
        shape == shape_of(*v),
{
    match v {
        serde_json::Value::String(s) => JsonShape::Text(s.clone()),
        serde_json::Value::Object(map) => JsonShape::Object(
            map.iter().map(|(key, member)| (key.clone(), match member {
                serde_json::Value::String(text) => JsonScalar::Text(text.clone()),
                serde_json::Value::Number(n) => n.as_u64().map_or(JsonScalar::OtherScalar, JsonScalar::Unsigned),
                _ => JsonScalar::OtherScalar,
            })).collect(),
        ),
        _ => JsonShape::OtherShape,
    }
}

/// Relies on `serde_json::from_str` parsing a text as one JSON document.
#[verifier::external_body]
pub fn parse_json_shape(s: &str) -> (shape: Option<JsonShape>)
    ensures
        shape == parsed_shape(s@),
{
    match serde_json::from_str::<serde_json::Value>(s) {
        Ok(value) => Some(shape_of_value(&value)),
        Err(_) => None,
    }
}

/// The scalar under the first member of `entries` whose key is `key`.
pub open spec fn spec_lookup_entry(entries: Seq<(String, JsonScalar)>, key: Seq<char>) -> Option<
    JsonScalar,
>
    decreases entries.len(),
{
    if entries.len() == 0 {
        None
    } else if entries[0].0@ == key {
        Some(entries[0].1)
    } else {
        spec_lookup_entry(entries.drop_first(), key)
    }
}

/// Finds the first member of `entries` whose key is `key`, if any.
pub fn find_entry(entries: &Vec<(String, JsonScalar)>, key: &str) -> (r: Option<usize>)
    ensures
        match r {
            Some(i) => i < entries@.len() && entries@[i as int].0@ == key@ && spec_lookup_entry(
                entries@,
                key@,
            ) == Some(entries@[i as int].1),
            None => spec_lookup_entry(entries@, key@) is None,
        },
{
    let mut i: usize = 0;
    assert(entries@.skip(0) =~= entries@);
    while i < entries.len()
        invariant
            i <= entries@.len(),
            spec_lookup_entry(entries@, key@) == spec_lookup_entry(
                entries@.skip(i as int),
                key@,
            ),
        decreases entries@.len() - i,
    {
        assert(entries@.skip(i as int)[0] == entries@[i as int]);
        if crate::strutil::str_eq(entries[i].0.as_str(), key) {
            return Some(i);
        }
        assert(entries@.skip(i as int).drop_first() =~= entries@.skip(i as int + 1));
        i += 1;
    }
    assert(entries@.skip(i as int).len() == 0);
    None
}

} // verus!
