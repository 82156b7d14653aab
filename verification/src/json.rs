//! An in-memory JSON document tree, and the parse boundary that produces it.
//!
//! Wire bodies arrive as text; `serde_json` turns them into a tree, which is
//! converted node by node into [`JsonValue`], a shape this crate can reason
//! about. Every numeric field of the wire schema is integral, so numbers are
//! restricted to signed 64-bit integers; a body holding any other number is
//! treated as undecodable.

use vstd::prelude::*;

verus! {

/// One key/value member of a JSON object.
#[derive(Debug, PartialEq, Eq)]
pub struct JsonField {
    /// The member's name, exactly as it stands in the wire body.
    pub key: String,
    /// The member's value.
    pub value: JsonValue,
}

/// A parsed JSON document.
#[derive(Debug, PartialEq, Eq)]
pub enum JsonValue {
    /// The JSON `null` value.
    Null,
    /// A JSON boolean.
    Bool(bool),
    /// A JSON number; only signed 64-bit integers occur in this API.
    Int(i64),
    /// A JSON string.
    Str(String),
    /// A JSON array, in wire order.
    Arr(Vec<JsonValue>),
    /// A JSON object.
    Obj(Vec<JsonField>),
}

/// The first member of `fields` named `key`, if any.
pub open spec fn lookup_field(fields: Seq<JsonField>, key: Seq<char>) -> Option<JsonValue>
    decreases fields.len(),
{
    if fields.len() == 0 {
        None
    } else if fields[0].key@ == key {
        Some(fields[0].value)
    } else {
        lookup_field(fields.drop_first(), key)
    }
}

/// The member of object `v` named `key`; nothing when `v` is not an object
/// or has no member of that name.
pub open spec fn spec_member(v: JsonValue, key: Seq<char>) -> Option<JsonValue> {
    match v {
        JsonValue::Obj(fields) => lookup_field(fields@, key),
        _ => None,
    }
}

/// Looks up the member of object `v` named `key`.
pub fn member<'a>(v: &'a JsonValue, key: &str) -> (r: Option<&'a JsonValue>)
    ensures
        match r {
            Some(m) => spec_member(*v, key@) == Some(*m),
            None => spec_member(*v, key@) is None,
        },
{
    match v {
        JsonValue::Obj(fields) => {
            assert(spec_member(*v, key@) == lookup_field(fields@, key@));
            let needle: String = key.to_owned();
            let n = fields.len();
            let mut i: usize = 0;
            assert(fields@.skip(0) =~= fields@);
            while i < n
                invariant
                    n == fields@.len(),
                    i <= n,
                    needle@ == key@,
                    spec_member(*v, key@) == lookup_field(fields@, key@),
                    lookup_field(fields@.skip(i as int), key@) == lookup_field(fields@, key@),
                decreases n - i,
            {
                proof {
                    assert(fields@.skip(i as int)[0] == fields@[i as int]);
                    assert(fields@.skip(i as int).drop_first() =~= fields@.skip(i as int + 1));
                }
                let f: &JsonField = &fields[i];
                assert(*f == fields@[i as int]);
                if f.key == needle {
                    proof {
                        assert(lookup_field(fields@, key@) == Some(fields@[i as int].value));
                    }
                    return Some(&f.value);
                }
                i = i + 1;
            }
            assert(fields@.skip(n as int) =~= Seq::<JsonField>::empty());
            None
        },
        _ => None,
    }
}

} // verus!

verus! {

/// What parsing yields for `text`: the document as a [`JsonValue`] tree,
/// or nothing when the parser rejects the text (not well-formed JSON, or
/// nested beyond its depth limit) or the tree cannot be converted (a
/// number outside the signed 64-bit integers). Parsing is deterministic,
/// so this is a function of the text alone.
pub uninterp spec fn parsed_json(text: Seq<char>) -> Option<JsonValue>;

#[verifier::external_type_specification]
#[verifier::external_body]
pub struct ExValue(serde_json::Value);

/// What converting one `serde_json` node yields: a function of the node
/// alone.
pub uninterp spec fn converted_node(v: serde_json::Value) -> Option<JsonValue>;

/// Relies on `serde_json::Value`: turns one parsed node into the library's
/// own tree, variant by variant. Integral numbers are kept through
/// `Number::as_i64`; any other number makes the conversion fail. Object
/// members come out in `serde_json`'s own member order, duplicate keys
/// already collapsed by its map.
#[verifier::external_body]
fn from_value(v: serde_json::Value) -> (r: Option<JsonValue>)
    ensures
        r == converted_node(v),
{
    match v {
        serde_json::Value::Null => Some(JsonValue::Null),
        serde_json::Value::Bool(b) => Some(JsonValue::Bool(b)),
        serde_json::Value::Number(n) => n.as_i64().map(JsonValue::Int),
        serde_json::Value::String(s) => Some(JsonValue::Str(s)),
        serde_json::Value::Array(a) => a.into_iter().map(from_value).collect::<Option<Vec<JsonValue>>>().map(JsonValue::Arr),
        serde_json::Value::Object(m) => m.into_iter().map(|(key, x)| from_value(x).map(|value| JsonField { key, value })).collect::<Option<Vec<JsonField>>>().map(JsonValue::Obj),
    }
}

/// Relies on `serde_json::from_str::<serde_json::Value>`: parses `text`
/// as one JSON document, failing when the parser rejects the text. The
/// accepted tree is converted by [`from_value`]; the composite result is
/// a function of `text` alone, here given the name [`parsed_json`].
#[verifier::external_body]
pub fn parse_json(text: &str) -> (r: Option<JsonValue>)
    ensures
        r == parsed_json(text@),
{
    match serde_json::from_str::<serde_json::Value>(text) {
        Ok(v) => from_value(v),
        Err(_) => None,
    }
}

} // verus!
