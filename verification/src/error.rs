//! The structured errors a decode operation can report, and the
//! helpers that build the field paths they carry.
//!
//! Paths are relative to the value handed to the decode call: an empty
//! path names that value itself, and nested decodes are wrapped by
//! their caller with the enclosing field name (`choices[2].finish_reason`).

use vstd::prelude::*;

verus! {

use crate::text::dec_digits;
use crate::text::u64_to_string;
use vstd::string::StrSliceExecFns;
use vstd::string::StringExecFns;

/// Why a payload failed to decode into an entity.
#[derive(Debug, Clone, PartialEq, Eq)]
pub enum DecodeError {
    /// A required wire field is absent.
    MissingField { path: String },
    /// A wire value is present but has the wrong shape.
    TypeMismatch { path: String, expected: String, actual: String },
    /// A value lies outside a closed enumeration.
    UnrecognizedClosedEnumValue { path: String, value: String },
    /// A sum-type field had zero or several of its tags present
    /// instead of exactly one.
    ConflictingOrMissingVariant { path: String },
}

/// The mathematical shape of a [`DecodeError`].
pub enum ErrorModel {
    MissingField { path: Seq<char> },
    TypeMismatch { path: Seq<char>, expected: Seq<char>, actual: Seq<char> },
    UnrecognizedClosedEnumValue { path: Seq<char>, value: Seq<char> },
    ConflictingOrMissingVariant { path: Seq<char> },
}

impl View for DecodeError {
    type V = ErrorModel;

    open spec fn view(&self) -> ErrorModel {
        match self {
            DecodeError::MissingField { path } => ErrorModel::MissingField { path: path@ },
            DecodeError::TypeMismatch { path, expected, actual } => ErrorModel::TypeMismatch {
                path: path@,
                expected: expected@,
                actual: actual@,
            },
            DecodeError::UnrecognizedClosedEnumValue { path, value } => {
                ErrorModel::UnrecognizedClosedEnumValue { path: path@, value: value@ }
            },
            DecodeError::ConflictingOrMissingVariant { path } => {
                ErrorModel::ConflictingOrMissingVariant { path: path@ }
            },
        }
    }
}

/// A child path seen from an enclosing field: the field name alone
/// when the child path is empty, else the two joined with a dot.
pub open spec fn join_path(prefix: Seq<char>, child: Seq<char>) -> Seq<char> {
    if child.len() == 0 {
        prefix
    } else {
        prefix + seq!['.'] + child
    }
}

/// The path of an element of a sequence field: `name[i]`.
pub open spec fn index_path(name: Seq<char>, i: nat) -> Seq<char> {
    name + seq!['['] + dec_digits(i) + seq![']']
}

/// An error as reported by a nested decode, re-rooted at the enclosing
/// field.
pub open spec fn spec_prefixed(prefix: Seq<char>, e: ErrorModel) -> ErrorModel {
    match e {
        ErrorModel::MissingField { path } => ErrorModel::MissingField {
            path: join_path(prefix, path),
        },
        ErrorModel::TypeMismatch { path, expected, actual } => ErrorModel::TypeMismatch {
            path: join_path(prefix, path),
            expected: expected,
            actual: actual,
        },
        ErrorModel::UnrecognizedClosedEnumValue { path, value } => {
            ErrorModel::UnrecognizedClosedEnumValue { path: join_path(prefix, path), value: value }
        },
        ErrorModel::ConflictingOrMissingVariant { path } => {
            ErrorModel::ConflictingOrMissingVariant { path: join_path(prefix, path) }
        },
    }
}

/// Joins an enclosing field name with a child path.
pub fn join(prefix: &str, child: &str) -> (r: String)
    ensures
        r@ == join_path(prefix@, child@),
{
    if child.is_empty() {
        String::from_str(prefix)
    } else {
        let mut s = String::from_str(prefix);
        s.append(".");
        s.append(child);
        proof {
            reveal_strlit(".");
            assert("."@ =~= seq!['.']);
        }
        s
    }
}

/// Renders the path of the `i`-th element of the sequence field `name`.
pub fn index_path_string(name: &str, i: usize) -> (r: String)
    ensures
        r@ == index_path(name@, i as nat),
{
    let mut s = String::from_str(name);
    s.append("[");
    let digits = u64_to_string(i as u64);
    s.append(digits.as_str());
    s.append("]");
    proof {
        reveal_strlit("[");
        reveal_strlit("]");
        assert("["@ =~= seq!['[']);
        assert("]"@ =~= seq![']']);
    }
    s
}

impl DecodeError {
    /// Re-roots the error at the enclosing field `prefix`.
    pub fn prefixed(self, prefix: &str) -> (r: DecodeError)
        ensures
            r@ == spec_prefixed(prefix@, self@),
    {
        match self {
            DecodeError::MissingField { path } => DecodeError::MissingField {
                path: join(prefix, path.as_str()),
            },
            DecodeError::TypeMismatch { path, expected, actual } => DecodeError::TypeMismatch {
                path: join(prefix, path.as_str()),
                expected: expected,
                actual: actual,
            },
            DecodeError::UnrecognizedClosedEnumValue { path, value } => {
                DecodeError::UnrecognizedClosedEnumValue {
                    path: join(prefix, path.as_str()),
                    value: value,
                }
            },
            DecodeError::ConflictingOrMissingVariant { path } => {
                DecodeError::ConflictingOrMissingVariant { path: join(prefix, path.as_str()) }
            },
        }
    }
}

} // verus!
