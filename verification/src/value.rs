//! The generic payload tree handed to the decode layer.
//!
//! A `Value` is the already-parsed, loosely-typed shape of a wire
//! payload: booleans, non-negative integers, strings, arrays, and
//! objects given as key/value pairs in payload order. The decode
//! operations of the entity types walk this tree.

use vstd::prelude::*;

verus! {

use crate::text::str_eq;

/// A loosely-typed payload tree node.
pub enum Value {
    /// A boolean.
    Bool(bool),
    /// A non-negative integer.
    Integer(u64),
    /// A string.
    Text(String),
    /// An ordered sequence of values.
    Array(Vec<Value>),
    /// Key/value pairs, kept in payload order; keys may repeat.
    Object(Vec<(String, Value)>),
}

/// The name of a node's shape, used in type-mismatch errors.
pub open spec fn kind_name(v: Value) -> Seq<char> {
    match v {
        Value::Bool(_) => "boolean"@,
        Value::Integer(_) => "integer"@,
        Value::Text(_) => "string"@,
        Value::Array(_) => "array"@,
        Value::Object(_) => "object"@,
    }
}

/// Returns the name of a node's shape.
pub fn kind_name_str(v: &Value) -> (r: &'static str)
    ensures
        r@ == kind_name(*v),
{
    match v {
        Value::Bool(_) => "boolean",
        Value::Integer(_) => "integer",
        Value::Text(_) => "string",
        Value::Array(_) => "array",
        Value::Object(_) => "object",
    }
}

/// First-match lookup in an object's pairs, starting at position `i`.
pub open spec fn lookup_from(pairs: Seq<(String, Value)>, key: Seq<char>, i: int) -> Option<Value>
    decreases pairs.len() - i,
{
    if i < 0 || i >= pairs.len() {
        None
    } else if pairs[i].0@ == key {
        Some(pairs[i].1)
    } else {
        lookup_from(pairs, key, i + 1)
    }
}

/// The value under a wire field name: the first pair whose key matches.
pub open spec fn lookup_spec(pairs: Seq<(String, Value)>, key: Seq<char>) -> Option<Value> {
    lookup_from(pairs, key, 0)
}

/// Looks a wire field up by name in an object's pairs.
pub fn lookup<'a>(pairs: &'a Vec<(String, Value)>, key: &str) -> (r: Option<&'a Value>)
    ensures
        match r {
            Some(v) => lookup_spec(pairs@, key@) == Some(*v),
            None => lookup_spec(pairs@, key@) is None,
        },
{
    let mut i: usize = 0;
    while i < pairs.len()
        invariant
            i <= pairs@.len(),
            lookup_from(pairs@, key@, 0) == lookup_from(pairs@, key@, i as int),
        decreases pairs@.len() - i,
    {
        let p: &(String, Value) = &pairs[i];
        if str_eq(p.0.as_str(), key) {
            return Some(&p.1);
        }
        i += 1;
    }
    None
}

} // verus!
