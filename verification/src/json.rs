//! JSON documents, as `serde_json` parses and holds them.
//!
//! Nothing in this file is proved. It declares the types of `serde_json`
//! that the library handles, names the mathematical content of their
//! values, and states in terms of that content what the functions of
//! `serde_json` that the library calls return. Those statements are
//! assumptions, taken from the source of `serde_json`.

use vstd::prelude::*;

verus! {

/// The mathematical content of a JSON value.
pub enum JsonTree {
    Null,
    Bool(bool),
    /// A number: `Some(n)` where `serde_json` holds it as the unsigned
    /// 64-bit integer `n`, `None` for a negative or a fractional number.
    Number(Option<u64>),
    Text(Seq<char>),
    Array(Seq<JsonTree>),
    Object(Map<Seq<char>, JsonTree>),
}

impl JsonTree {
    /// The value as an unsigned integer, where it is one.
    pub open spec fn as_unsigned(self) -> Option<u64> {
        match self {
            JsonTree::Number(n) => n,
            _ => None,
        }
    }

    /// The member of an object under `key`, where the value is an object
    /// that has one.
    pub open spec fn member(self, key: Seq<char>) -> Option<JsonTree> {
        match self {
            JsonTree::Object(members) => if members.contains_key(key) {
                Some(members[key])
            } else {
                None
            },
            _ => None,
        }
    }

    /// The items of an array, where the value is one.
    pub open spec fn items(self) -> Option<Seq<JsonTree>> {
        match self {
            JsonTree::Array(items) => Some(items),
            _ => None,
        }
    }
}

/// `serde_json::Value`, a JSON value of any kind. The library looks inside
/// one only through the accessors below.
#[verifier::external_type_specification]
#[verifier::external_body]
pub struct ExValue(serde_json::Value);

/// `serde_json::Map`, the members of a JSON object.
#[verifier::external_type_specification]
#[verifier::external_body]
#[verifier::reject_recursive_types(K)]
#[verifier::reject_recursive_types(V)]
pub struct ExMap<K, V>(serde_json::Map<K, V>);

/// `serde_json::Error`, the error of the parser. The library reads nothing
/// of it.
#[verifier::external_type_specification]
#[verifier::external_body]
pub struct ExError(serde_json::Error);

/// The content of a `serde_json::Value`: what the accessors `as_u64`,
/// `as_array` and `as_object` show of it.
pub uninterp spec fn json_tree(value: serde_json::Value) -> JsonTree;

/// The members of a `serde_json::Map`, by key: what `get` shows of it.
pub uninterp spec fn json_members(object: serde_json::Map<String, serde_json::Value>) -> Map<
    Seq<char>,
    JsonTree,
>;

/// The content of the value that `serde_json::from_str` reads from a text,
/// or `None` where it reports an error.
pub uninterp spec fn json_text_tree(text: Seq<char>) -> Option<JsonTree>;

/// The contents of a list of values, item by item.
pub open spec fn json_trees(values: Seq<serde_json::Value>) -> Seq<JsonTree> {
    Seq::new(values.len(), |i: int| json_tree(values[i]))
}

/// `serde_json::Value::as_u64`: the number inside the value where the value
/// is a number that `serde_json` holds as an unsigned 64-bit integer, and
/// `None` for every other value.
pub assume_specification[ serde_json::Value::as_u64 ](value: &serde_json::Value) -> (r: Option<u64>)
    ensures
        r == json_tree(*value).as_unsigned(),
;

/// `serde_json::Value::as_array`: a reference to the vector inside the value
/// where the value is an array, and `None` for every other value.
pub assume_specification[ serde_json::Value::as_array ](value: &serde_json::Value) -> (r: Option<
    &Vec<serde_json::Value>,
>)
    ensures
        match r {
            Some(items) => json_tree(*value) == JsonTree::Array(json_trees(items@)),
            None => !(json_tree(*value) is Array),
        },
;

/// `serde_json::Value::as_object`: a reference to the map inside the value
/// where the value is an object, and `None` for every other value.
pub assume_specification[ serde_json::Value::as_object ](value: &serde_json::Value) -> (r: Option<
    &serde_json::Map<String, serde_json::Value>,
>)
    ensures
        match r {
            Some(object) => json_tree(*value) == JsonTree::Object(json_members(*object)),
            None => !(json_tree(*value) is Object),
        },
;

/// `serde_json::Map::get` with a string key: a reference to the value stored
/// under exactly that key, or `None` where the map has no such key.
#[verifier::external_body]
pub(crate) fn object_get<'a>(
    object: &'a serde_json::Map<String, serde_json::Value>,
    key: &str,
) -> (r: Option<&'a serde_json::Value>)
    ensures
        match r {
            Some(value) => json_members(*object).contains_key(key@) && json_members(*object)[key@]
                == json_tree(*value),
            None => !json_members(*object).contains_key(key@),
        },
{
    object.get(key)
}

/// `serde_json::from_str` at the type `serde_json::Value`: the value that the
/// text denotes, or the parser's error. The result depends on the text alone.
#[verifier::external_body]
pub(crate) fn parse_document(text: &str) -> (r: Result<serde_json::Value, serde_json::Error>)
    ensures
        match r {
            Ok(value) => json_text_tree(text@) == Some(json_tree(value)),
            Err(_) => json_text_tree(text@) is None,
        },
{
    serde_json::from_str::<serde_json::Value>(text)
}

} // verus!
