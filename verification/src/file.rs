//! An uploaded file reference and the closed set of purposes a file
//! can be uploaded for.
//!
//! Files are uploaded documents usable across features like answers,
//! search and classifications. Unlike an engine identifier, a
//! [`Purpose`] is a closed enumeration: a purpose string outside the
//! known set is a decode error, not a preserved value.

use vstd::prelude::*;

verus! {

use crate::error::{DecodeError, ErrorModel};
use crate::fields::{field_string, field_string_spec, field_u64, field_u64_spec};
use crate::text::{dec_digits, str_eq, u64_to_string};
use crate::value::{Value, kind_name, kind_name_str};
use vstd::string::StringExecFns;

/// An uploaded file.
#[derive(Debug, PartialEq, Eq, Clone)]
pub struct File {
    /// A unique identifier for the file.
    pub id: String,
    /// The filename.
    pub filename: String,
    /// The size in bytes.
    pub size: u64,
    /// Unix timestamp when the file was created.
    pub created: u64,
}

/// The mathematical shape of a [`File`].
pub struct FileModel {
    pub id: Seq<char>,
    pub filename: Seq<char>,
    pub size: u64,
    pub created: u64,
}

impl View for File {
    type V = FileModel;

    open spec fn view(&self) -> FileModel {
        FileModel {
            id: self.id@,
            filename: self.filename@,
            size: self.size,
            created: self.created,
        }
    }
}

impl FileModel {
    /// The stable rendering of a file: all fields in declaration
    /// order.
    pub open spec fn display(self) -> Seq<char> {
        "("@ + self.id + ", "@ + self.filename + ", "@ + dec_digits(self.size as nat) + ", "@
            + dec_digits(self.created as nat) + ")"@
    }
}

proof fn lemma_file_keys_distinct()
    ensures
        "id"@.len() == 2,
        "filename"@.len() == 8,
        "size"@.len() == 4,
        "created"@.len() == 7,
        "id"@ != "filename"@ && "id"@ != "size"@ && "id"@ != "created"@,
        "filename"@ != "size"@ && "filename"@ != "created"@,
        "size"@ != "created"@,
{
    reveal_strlit("id");
    reveal_strlit("filename");
    reveal_strlit("size");
    reveal_strlit("created");
}

impl File {
    /// What decoding a payload node into a file yields: an object with
    /// required `id` and `filename` strings and required `size` and
    /// `created` non-negative integers.
    pub open spec fn spec_decode(v: Value) -> Result<FileModel, ErrorModel> {
        match v {
            Value::Object(pairs) => {
                match field_string_spec(pairs@, "id"@) {
                    Err(e) => Err(e),
                    Ok(id) => match field_string_spec(pairs@, "filename"@) {
                        Err(e) => Err(e),
                        Ok(filename) => match field_u64_spec(pairs@, "size"@) {
                            Err(e) => Err(e),
                            Ok(size) => match field_u64_spec(pairs@, "created"@) {
                                Err(e) => Err(e),
                                Ok(created) => Ok(FileModel { id, filename, size, created }),
                            },
                        },
                    },
                }
            },
            _ => Err(
                ErrorModel::TypeMismatch {
                    path: Seq::<char>::empty(),
                    expected: "object"@,
                    actual: kind_name(v),
                },
            ),
        }
    }

    /// Decodes a file from a payload node.
    pub fn decode(v: &Value) -> (r: Result<File, DecodeError>)
        ensures
            r matches Ok(f) ==> Self::spec_decode(*v) == Ok::<FileModel, ErrorModel>(f@),
            r matches Err(er) ==> Self::spec_decode(*v) == Err::<FileModel, ErrorModel>(er@),
    {
        match v {
            Value::Object(pairs) => {
                let id = match field_string(pairs, "id") {
                    Ok(id) => id,
                    Err(e) => { return Err(e); },
                };
                let filename = match field_string(pairs, "filename") {
                    Ok(filename) => filename,
                    Err(e) => { return Err(e); },
                };
                let size = match field_u64(pairs, "size") {
                    Ok(size) => size,
                    Err(e) => { return Err(e); },
                };
                let created = match field_u64(pairs, "created") {
                    Ok(created) => created,
                    Err(e) => { return Err(e); },
                };
                Ok(File { id, filename, size, created })
            },
            _ => Err(
                DecodeError::TypeMismatch {
                    path: String::new(),
                    expected: String::from_str("object"),
                    actual: String::from_str(kind_name_str(v)),
                },
            ),
        }
    }

    /// Builds the payload node that decodes back to this file; the
    /// inverse used by test fixtures.
    pub fn encode(&self) -> (r: Value)
        ensures
            Self::spec_decode(r) == Ok::<FileModel, ErrorModel>(self@),
    {
        let mut pairs: Vec<(String, Value)> = Vec::new();
        pairs.push((String::from_str("id"), Value::Text(self.id.clone())));
        pairs.push((String::from_str("filename"), Value::Text(self.filename.clone())));
        pairs.push((String::from_str("size"), Value::Integer(self.size)));
        pairs.push((String::from_str("created"), Value::Integer(self.created)));
        proof {
            lemma_file_keys_distinct();
            let ps = pairs@;
            assert(crate::value::lookup_from(ps, "id"@, 0) == Some(ps[0].1));
            assert(crate::value::lookup_from(ps, "filename"@, 0) == crate::value::lookup_from(
                ps,
                "filename"@,
                1,
            ));
            assert(crate::value::lookup_from(ps, "filename"@, 1) == Some(ps[1].1));
            assert(crate::value::lookup_from(ps, "size"@, 0) == crate::value::lookup_from(
                ps,
                "size"@,
                1,
            ));
            assert(crate::value::lookup_from(ps, "size"@, 1) == crate::value::lookup_from(
                ps,
                "size"@,
                2,
            ));
            assert(crate::value::lookup_from(ps, "size"@, 2) == Some(ps[2].1));
            assert(crate::value::lookup_from(ps, "created"@, 0) == crate::value::lookup_from(
                ps,
                "created"@,
                1,
            ));
            assert(crate::value::lookup_from(ps, "created"@, 1) == crate::value::lookup_from(
                ps,
                "created"@,
                2,
            ));
            assert(crate::value::lookup_from(ps, "created"@, 2) == crate::value::lookup_from(
                ps,
                "created"@,
                3,
            ));
            assert(crate::value::lookup_from(ps, "created"@, 3) == Some(ps[3].1));
        }
        Value::Object(pairs)
    }

    /// Renders the file's fields in declaration order.
    pub fn to_display_string(&self) -> (r: String)
        ensures
            r@ == self@.display(),
    {
        let mut s = String::from_str("(");
        s.append(self.id.as_str());
        s.append(", ");
        s.append(self.filename.as_str());
        s.append(", ");
        let size = u64_to_string(self.size);
        s.append(size.as_str());
        s.append(", ");
        let created = u64_to_string(self.created);
        s.append(created.as_str());
        s.append(")");
        s
    }
}

/// The intended use of an uploaded file: a closed enumeration with no
/// catch-all, so unknown purpose strings are rejected.
#[derive(Debug, PartialEq, Eq, Clone)]
pub enum Purpose {
    /// The file backs search requests.
    Search,
    /// The file backs question answering.
    Answers,
    /// The file backs classification requests.
    Classifications,
}

/// Whether a string is one of the known purposes' wire names.
pub open spec fn is_known_purpose_name(s: Seq<char>) -> bool {
    s == "search"@ || s == "answers"@ || s == "classifications"@
}

proof fn lemma_purpose_names_distinct()
    ensures
        "search"@.len() == 6,
        "answers"@.len() == 7,
        "classifications"@.len() == 15,
        "search"@ != "answers"@,
        "search"@ != "classifications"@,
        "answers"@ != "classifications"@,
{
    reveal_strlit("search");
    reveal_strlit("answers");
    reveal_strlit("classifications");
}

impl Purpose {
    /// What decoding a payload node into a purpose yields: one of the
    /// known purpose strings; any other string is rejected as a value
    /// outside the closed set.
    pub open spec fn spec_decode(v: Value) -> Result<Purpose, ErrorModel> {
        match v {
            Value::Text(s) => {
                if s@ == "search"@ {
                    Ok(Purpose::Search)
                } else if s@ == "answers"@ {
                    Ok(Purpose::Answers)
                } else if s@ == "classifications"@ {
                    Ok(Purpose::Classifications)
                } else {
                    Err(
                        ErrorModel::UnrecognizedClosedEnumValue {
                            path: Seq::<char>::empty(),
                            value: s@,
                        },
                    )
                }
            },
            _ => Err(
                ErrorModel::TypeMismatch {
                    path: Seq::<char>::empty(),
                    expected: "string"@,
                    actual: kind_name(v),
                },
            ),
        }
    }

    /// Decodes a purpose from a payload node.
    pub fn decode(v: &Value) -> (r: Result<Purpose, DecodeError>)
        ensures
            r matches Ok(p) ==> Self::spec_decode(*v) == Ok::<Purpose, ErrorModel>(p),
            r matches Err(er) ==> Self::spec_decode(*v) == Err::<Purpose, ErrorModel>(er@),
    {
        match v {
            Value::Text(s) => {
                if str_eq(s.as_str(), "search") {
                    Ok(Purpose::Search)
                } else if str_eq(s.as_str(), "answers") {
                    Ok(Purpose::Answers)
                } else if str_eq(s.as_str(), "classifications") {
                    Ok(Purpose::Classifications)
                } else {
                    Err(
                        DecodeError::UnrecognizedClosedEnumValue {
                            path: String::new(),
                            value: s.clone(),
                        },
                    )
                }
            },
            _ => Err(
                DecodeError::TypeMismatch {
                    path: String::new(),
                    expected: String::from_str("string"),
                    actual: String::from_str(kind_name_str(v)),
                },
            ),
        }
    }

    /// Builds the payload node that decodes back to this purpose; the
    /// inverse used by test fixtures.
    pub fn encode(&self) -> (r: Value)
        ensures
            Self::spec_decode(r) == Ok::<Purpose, ErrorModel>(*self),
    {
        proof {
            lemma_purpose_names_distinct();
        }
        match self {
            Purpose::Search => Value::Text(String::from_str("search")),
            Purpose::Answers => Value::Text(String::from_str("answers")),
            Purpose::Classifications => Value::Text(String::from_str("classifications")),
        }
    }
}

/// A purpose string outside the closed set {search, answers,
/// classifications} never decodes: it is reported as a value outside a
/// closed enumeration, preserving the offending string.
pub proof fn lemma_purpose_closed(s: String)
    requires
        !is_known_purpose_name(s@),
    ensures
        Purpose::spec_decode(Value::Text(s)) == Err::<Purpose, ErrorModel>(
            ErrorModel::UnrecognizedClosedEnumValue { path: Seq::<char>::empty(), value: s@ },
        ),
{
}

} // verus!
