//! Required- and optional-field extraction shared by the entity
//! decodes: look a wire field up by name and check its shape, failing
//! with a missing-field or type-mismatch error whose path is the wire
//! field name.

use vstd::prelude::*;

verus! {

use crate::error::{DecodeError, ErrorModel};
use crate::value::{Value, kind_name, kind_name_str, lookup, lookup_spec};
use vstd::string::StringExecFns;

/// The value under a required wire field.
pub open spec fn field_value_spec(pairs: Seq<(String, Value)>, key: Seq<char>) -> Result<
    Value,
    ErrorModel,
> {
    match lookup_spec(pairs, key) {
        Option::None => Err(ErrorModel::MissingField { path: key }),
        Option::Some(v) => Ok(v),
    }
}

/// Looks a required wire field up.
pub fn field_value<'a>(pairs: &'a Vec<(String, Value)>, key: &str) -> (r: Result<
    &'a Value,
    DecodeError,
>)
    ensures
        r matches Ok(v) ==> field_value_spec(pairs@, key@) == Ok::<Value, ErrorModel>(*v),
        r matches Err(e) ==> field_value_spec(pairs@, key@) == Err::<Value, ErrorModel>(e@),
{
    match lookup(pairs, key) {
        Option::Some(v) => Ok(v),
        Option::None => Err(DecodeError::MissingField { path: String::from_str(key) }),
    }
}

/// The string under a required wire field.
pub open spec fn field_string_spec(pairs: Seq<(String, Value)>, key: Seq<char>) -> Result<
    Seq<char>,
    ErrorModel,
> {
    match lookup_spec(pairs, key) {
        Option::None => Err(ErrorModel::MissingField { path: key }),
        Option::Some(Value::Text(s)) => Ok(s@),
        Option::Some(v) => Err(
            ErrorModel::TypeMismatch { path: key, expected: "string"@, actual: kind_name(v) },
        ),
    }
}

/// Looks a required string field up.
pub fn field_string(pairs: &Vec<(String, Value)>, key: &str) -> (r: Result<String, DecodeError>)
    ensures
        r matches Ok(s) ==> field_string_spec(pairs@, key@) == Ok::<Seq<char>, ErrorModel>(s@),
        r matches Err(e) ==> field_string_spec(pairs@, key@) == Err::<Seq<char>, ErrorModel>(e@),
{
    match lookup(pairs, key) {
        Option::None => Err(DecodeError::MissingField { path: String::from_str(key) }),
        Option::Some(Value::Text(s)) => Ok(s.clone()),
        Option::Some(v) => Err(
            DecodeError::TypeMismatch {
                path: String::from_str(key),
                expected: String::from_str("string"),
                actual: String::from_str(kind_name_str(v)),
            },
        ),
    }
}

/// The non-negative integer under a required wire field.
pub open spec fn field_u64_spec(pairs: Seq<(String, Value)>, key: Seq<char>) -> Result<
    u64,
    ErrorModel,
> {
    match lookup_spec(pairs, key) {
        Option::None => Err(ErrorModel::MissingField { path: key }),
        Option::Some(Value::Integer(n)) => Ok(n),
        Option::Some(v) => Err(
            ErrorModel::TypeMismatch { path: key, expected: "integer"@, actual: kind_name(v) },
        ),
    }
}

/// Looks a required integer field up.
pub fn field_u64(pairs: &Vec<(String, Value)>, key: &str) -> (r: Result<u64, DecodeError>)
    ensures
        r matches Ok(n) ==> field_u64_spec(pairs@, key@) == Ok::<u64, ErrorModel>(n),
        r matches Err(e) ==> field_u64_spec(pairs@, key@) == Err::<u64, ErrorModel>(e@),
{
    match lookup(pairs, key) {
        Option::None => Err(DecodeError::MissingField { path: String::from_str(key) }),
        Option::Some(Value::Integer(n)) => Ok(*n),
        Option::Some(v) => Err(
            DecodeError::TypeMismatch {
                path: String::from_str(key),
                expected: String::from_str("integer"),
                actual: String::from_str(kind_name_str(v)),
            },
        ),
    }
}

/// The boolean under a required wire field.
pub open spec fn field_bool_spec(pairs: Seq<(String, Value)>, key: Seq<char>) -> Result<
    bool,
    ErrorModel,
> {
    match lookup_spec(pairs, key) {
        Option::None => Err(ErrorModel::MissingField { path: key }),
        Option::Some(Value::Bool(b)) => Ok(b),
        Option::Some(v) => Err(
            ErrorModel::TypeMismatch { path: key, expected: "boolean"@, actual: kind_name(v) },
        ),
    }
}

/// Looks a required boolean field up.
pub fn field_bool(pairs: &Vec<(String, Value)>, key: &str) -> (r: Result<bool, DecodeError>)
    ensures
        r matches Ok(b) ==> field_bool_spec(pairs@, key@) == Ok::<bool, ErrorModel>(b),
        r matches Err(e) ==> field_bool_spec(pairs@, key@) == Err::<bool, ErrorModel>(e@),
{
    match lookup(pairs, key) {
        Option::None => Err(DecodeError::MissingField { path: String::from_str(key) }),
        Option::Some(Value::Bool(b)) => Ok(*b),
        Option::Some(v) => Err(
            DecodeError::TypeMismatch {
                path: String::from_str(key),
                expected: String::from_str("boolean"),
                actual: String::from_str(kind_name_str(v)),
            },
        ),
    }
}

/// The non-negative integer under an optional wire field, absent
/// fields decoding to `None`.
pub open spec fn field_opt_u64_spec(pairs: Seq<(String, Value)>, key: Seq<char>) -> Result<
    Option<u64>,
    ErrorModel,
> {
    match lookup_spec(pairs, key) {
        Option::None => Ok(Option::None),
        Option::Some(Value::Integer(n)) => Ok(Option::Some(n)),
        Option::Some(v) => Err(
            ErrorModel::TypeMismatch { path: key, expected: "integer"@, actual: kind_name(v) },
        ),
    }
}

/// Looks an optional integer field up.
pub fn field_opt_u64(pairs: &Vec<(String, Value)>, key: &str) -> (r: Result<
    Option<u64>,
    DecodeError,
>)
    ensures
        r matches Ok(n) ==> field_opt_u64_spec(pairs@, key@) == Ok::<Option<u64>, ErrorModel>(n),
        r matches Err(e) ==> field_opt_u64_spec(pairs@, key@) == Err::<Option<u64>, ErrorModel>(e@),
{
    match lookup(pairs, key) {
        Option::None => Ok(Option::None),
        Option::Some(Value::Integer(n)) => Ok(Option::Some(*n)),
        Option::Some(v) => Err(
            DecodeError::TypeMismatch {
                path: String::from_str(key),
                expected: String::from_str("integer"),
                actual: String::from_str(kind_name_str(v)),
            },
        ),
    }
}

} // verus!
