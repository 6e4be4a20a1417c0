//! The result of a classification request: the predicted label, the
//! engines involved, and the example used as justification.
//!
//! An example's [`Source`] is a true sum type: either a document named
//! by its position or an embedded file, never both and never neither;
//! a payload violating that fails to decode.

use vstd::prelude::*;

verus! {

use crate::engine::{EngineId, EngineIdModel};
use crate::error::{DecodeError, ErrorModel, spec_prefixed};
use crate::fields::{field_string, field_string_spec, field_value, field_value_spec};
use crate::file::{File, FileModel};
use crate::text::u64_to_string;
use crate::value::{Value, kind_name, kind_name_str, lookup, lookup_spec};
use vstd::string::StringExecFns;

/// The source of an example.
#[derive(Debug, PartialEq, Eq, Clone)]
pub enum Source {
    /// A document identified by its zero-based position.
    Document(u64),
    /// An embedded uploaded file.
    File(File),
}

/// The mathematical shape of a [`Source`].
pub enum SourceModel {
    Document(u64),
    File(FileModel),
}

impl View for Source {
    type V = SourceModel;

    open spec fn view(&self) -> SourceModel {
        match self {
            Source::Document(n) => SourceModel::Document(*n),
            Source::File(f) => SourceModel::File(f@),
        }
    }
}

impl SourceModel {
    /// The stable rendering of a source.
    pub open spec fn display(self) -> Seq<char> {
        match self {
            SourceModel::Document(n) => "document("@ + crate::text::dec_digits(n as nat) + ")"@,
            SourceModel::File(f) => "file("@ + f.display() + ")"@,
        }
    }
}

proof fn lemma_source_keys_distinct()
    ensures
        "document"@.len() == 8,
        "file"@.len() == 4,
        "document"@ != "file"@,
{
    reveal_strlit("document");
    reveal_strlit("file");
}

impl Source {
    /// What decoding a payload node into a source yields: an object
    /// carrying exactly one of the tags `document` (a non-negative
    /// integer position) or `file` (a file object). Zero or two tags
    /// present is a sum-type conflict reported at `source`.
    pub open spec fn spec_decode(v: Value) -> Result<SourceModel, ErrorModel> {
        match v {
            Value::Object(pairs) => {
                match (lookup_spec(pairs@, "document"@), lookup_spec(pairs@, "file"@)) {
                    (Some(dv), None) => match dv {
                        Value::Integer(n) => Ok(SourceModel::Document(n)),
                        _ => Err(
                            ErrorModel::TypeMismatch {
                                path: "source.document"@,
                                expected: "integer"@,
                                actual: kind_name(dv),
                            },
                        ),
                    },
                    (None, Some(fv)) => match File::spec_decode(fv) {
                        Err(e) => Err(spec_prefixed("source.file"@, e)),
                        Ok(f) => Ok(SourceModel::File(f)),
                    },
                    _ => Err(ErrorModel::ConflictingOrMissingVariant { path: "source"@ }),
                }
            },
            _ => Err(
                ErrorModel::TypeMismatch {
                    path: "source"@,
                    expected: "object"@,
                    actual: kind_name(v),
                },
            ),
        }
    }

    /// Decodes a source from a payload node.
    pub fn decode(v: &Value) -> (r: Result<Source, DecodeError>)
        ensures
            r matches Ok(s) ==> Self::spec_decode(*v) == Ok::<SourceModel, ErrorModel>(s@),
            r matches Err(er) ==> Self::spec_decode(*v) == Err::<SourceModel, ErrorModel>(er@),
    {
        match v {
            Value::Object(pairs) => {
                let dv = lookup(pairs, "document");
                let fv = lookup(pairs, "file");
                match (dv, fv) {
                    (Some(dv), None) => match dv {
                        Value::Integer(n) => Ok(Source::Document(*n)),
                        _ => Err(
                            DecodeError::TypeMismatch {
                                path: String::from_str("source.document"),
                                expected: String::from_str("integer"),
                                actual: String::from_str(kind_name_str(dv)),
                            },
                        ),
                    },
                    (None, Some(fv)) => match File::decode(fv) {
                        Err(e) => Err(e.prefixed("source.file")),
                        Ok(f) => Ok(Source::File(f)),
                    },
                    _ => Err(
                        DecodeError::ConflictingOrMissingVariant {
                            path: String::from_str("source"),
                        },
                    ),
                }
            },
            _ => Err(
                DecodeError::TypeMismatch {
                    path: String::from_str("source"),
                    expected: String::from_str("object"),
                    actual: String::from_str(kind_name_str(v)),
                },
            ),
        }
    }

    /// Builds the payload node that decodes back to this source; the
    /// inverse used by test fixtures.
    pub fn encode(&self) -> (r: Value)
        ensures
            Self::spec_decode(r) == Ok::<SourceModel, ErrorModel>(self@),
    {
        proof {
            lemma_source_keys_distinct();
        }
        match self {
            Source::Document(n) => {
                let mut pairs: Vec<(String, Value)> = Vec::new();
                pairs.push((String::from_str("document"), Value::Integer(*n)));
                proof {
                    let ps = pairs@;
                    assert(crate::value::lookup_from(ps, "document"@, 0) == Some(ps[0].1));
                    assert(crate::value::lookup_from(ps, "file"@, 0) == crate::value::lookup_from(
                        ps,
                        "file"@,
                        1,
                    ));
                }
                Value::Object(pairs)
            },
            Source::File(f) => {
                let mut pairs: Vec<(String, Value)> = Vec::new();
                pairs.push((String::from_str("file"), f.encode()));
                proof {
                    let ps = pairs@;
                    assert(crate::value::lookup_from(ps, "file"@, 0) == Some(ps[0].1));
                    assert(crate::value::lookup_from(ps, "document"@, 0)
                        == crate::value::lookup_from(ps, "document"@, 1));
                }
                Value::Object(pairs)
            },
        }
    }

    /// Renders the source.
    pub fn to_display_string(&self) -> (r: String)
        ensures
            r@ == self@.display(),
    {
        match self {
            Source::Document(n) => {
                let mut s = String::from_str("document(");
                let d = u64_to_string(*n);
                s.append(d.as_str());
                s.append(")");
                s
            },
            Source::File(f) => {
                let mut s = String::from_str("file(");
                let d = f.to_display_string();
                s.append(d.as_str());
                s.append(")");
                s
            },
        }
    }
}

/// A payload whose `document` and `file` tags are both present, or
/// both absent, is not a valid source: decoding fails with a sum-type
/// conflict at `source`, whatever the tags hold.
pub proof fn lemma_source_exactly_one_tag(v: Value)
    requires
        v matches Value::Object(pairs) && ((lookup_spec(pairs@, "document"@) is Some
            && lookup_spec(pairs@, "file"@) is Some) || (lookup_spec(pairs@, "document"@) is None
            && lookup_spec(pairs@, "file"@) is None)),
    ensures
        Source::spec_decode(v) == Err::<SourceModel, ErrorModel>(
            ErrorModel::ConflictingOrMissingVariant { path: "source"@ },
        ),
{
}

/// A classification example.
#[derive(Debug, PartialEq, Eq, Clone)]
pub struct Example {
    /// The source of the example.
    pub source: Source,
    /// The classification label for the example.
    pub label: String,
    /// The text of the example.
    pub text: String,
}

/// The mathematical shape of an [`Example`].
pub struct ExampleModel {
    pub source: SourceModel,
    pub label: Seq<char>,
    pub text: Seq<char>,
}

impl View for Example {
    type V = ExampleModel;

    open spec fn view(&self) -> ExampleModel {
        ExampleModel { source: self.source@, label: self.label@, text: self.text@ }
    }
}

impl ExampleModel {
    /// The stable rendering of an example: all fields in declaration
    /// order.
    pub open spec fn display(self) -> Seq<char> {
        "("@ + self.source.display() + ", "@ + self.label + ", "@ + self.text + ")"@
    }
}

proof fn lemma_example_keys_distinct()
    ensures
        "source"@.len() == 6,
        "label"@.len() == 5,
        "text"@.len() == 4,
        "source"@ != "label"@ && "source"@ != "text"@ && "label"@ != "text"@,
{
    reveal_strlit("source");
    reveal_strlit("label");
    reveal_strlit("text");
}

impl Example {
    /// What decoding a payload node into an example yields: an object
    /// with a required `source` (a sum-type source object) and
    /// required `label` and `text` strings. Errors from the source
    /// already name it, so they pass through unwrapped.
    pub open spec fn spec_decode(v: Value) -> Result<ExampleModel, ErrorModel> {
        match v {
            Value::Object(pairs) => {
                match field_value_spec(pairs@, "source"@) {
                    Err(e) => Err(e),
                    Ok(sv) => match Source::spec_decode(sv) {
                        Err(e) => Err(e),
                        Ok(source) => match field_string_spec(pairs@, "label"@) {
                            Err(e) => Err(e),
                            Ok(label) => match field_string_spec(pairs@, "text"@) {
                                Err(e) => Err(e),
                                Ok(text) => Ok(ExampleModel { source, label, text }),
                            },
                        },
                    },
                }
            },
            _ => Err(
                ErrorModel::TypeMismatch {
                    path: Seq::<char>::empty(),
                    expected: "object"@,
                    actual: kind_name(v),
                },
            ),
        }
    }

    /// Decodes an example from a payload node.
    pub fn decode(v: &Value) -> (r: Result<Example, DecodeError>)
        ensures
            r matches Ok(e) ==> Self::spec_decode(*v) == Ok::<ExampleModel, ErrorModel>(e@),
            r matches Err(er) ==> Self::spec_decode(*v) == Err::<ExampleModel, ErrorModel>(er@),
    {
        match v {
            Value::Object(pairs) => {
                let sv = match field_value(pairs, "source") {
                    Ok(sv) => sv,
                    Err(e) => { return Err(e); },
                };
                let source = match Source::decode(sv) {
                    Ok(source) => source,
                    Err(e) => { return Err(e); },
                };
                let label = match field_string(pairs, "label") {
                    Ok(label) => label,
                    Err(e) => { return Err(e); },
                };
                let text = match field_string(pairs, "text") {
                    Ok(text) => text,
                    Err(e) => { return Err(e); },
                };
                Ok(Example { source, label, text })
            },
            _ => Err(
                DecodeError::TypeMismatch {
                    path: String::new(),
                    expected: String::from_str("object"),
                    actual: String::from_str(kind_name_str(v)),
                },
            ),
        }
    }

    /// Builds the payload node that decodes back to this example; the
    /// inverse used by test fixtures.
    pub fn encode(&self) -> (r: Value)
        ensures
            Self::spec_decode(r) == Ok::<ExampleModel, ErrorModel>(self@),
    {
        let mut pairs: Vec<(String, Value)> = Vec::new();
        pairs.push((String::from_str("source"), self.source.encode()));
        pairs.push((String::from_str("label"), Value::Text(self.label.clone())));
        pairs.push((String::from_str("text"), Value::Text(self.text.clone())));
        proof {
            lemma_example_keys_distinct();
            let ps = pairs@;
            assert(crate::value::lookup_from(ps, "source"@, 0) == Some(ps[0].1));
            assert(crate::value::lookup_from(ps, "label"@, 0) == crate::value::lookup_from(
                ps,
                "label"@,
                1,
            ));
            assert(crate::value::lookup_from(ps, "label"@, 1) == Some(ps[1].1));
            assert(crate::value::lookup_from(ps, "text"@, 0) == crate::value::lookup_from(
                ps,
                "text"@,
                1,
            ));
            assert(crate::value::lookup_from(ps, "text"@, 1) == crate::value::lookup_from(
                ps,
                "text"@,
                2,
            ));
            assert(crate::value::lookup_from(ps, "text"@, 2) == Some(ps[2].1));
        }
        Value::Object(pairs)
    }

    /// Renders the example's fields in declaration order.
    pub fn to_display_string(&self) -> (r: String)
        ensures
            r@ == self@.display(),
    {
        let mut s = String::from_str("(");
        let src = self.source.to_display_string();
        s.append(src.as_str());
        s.append(", ");
        s.append(self.label.as_str());
        s.append(", ");
        s.append(self.text.as_str());
        s.append(")");
        s
    }
}

/// The result of a classification request.
#[derive(Debug, PartialEq, Eq, Clone)]
pub struct Classification {
    /// The completion for the classification.
    pub completion: String,
    /// The classification label assigned by the model.
    pub label: String,
    /// The engine used to perform classification.
    pub engine: EngineId,
    /// The engine used for searching.
    pub search_engine: EngineId,
    /// The example matched and used as justification.
    pub example: Example,
}

/// The mathematical shape of a [`Classification`].
pub struct ClassificationModel {
    pub completion: Seq<char>,
    pub label: Seq<char>,
    pub engine: EngineIdModel,
    pub search_engine: EngineIdModel,
    pub example: ExampleModel,
}

impl View for Classification {
    type V = ClassificationModel;

    open spec fn view(&self) -> ClassificationModel {
        ClassificationModel {
            completion: self.completion@,
            label: self.label@,
            engine: self.engine@,
            search_engine: self.search_engine@,
            example: self.example@,
        }
    }
}

impl ClassificationModel {
    /// Validity of a decoded classification.
    pub open spec fn wf(self) -> bool {
        self.engine.wf() && self.search_engine.wf()
    }

    /// The stable rendering of a classification: all fields in
    /// declaration order.
    pub open spec fn display(self) -> Seq<char> {
        "("@ + self.completion + ", "@ + self.label + ", "@ + self.engine.display() + ", "@
            + self.search_engine.display() + ", "@ + self.example.display() + ")"@
    }
}

proof fn lemma_classification_keys_distinct()
    ensures
        "completion"@.len() == 10,
        "label"@.len() == 5,
        "engine"@.len() == 6,
        "search_engine"@.len() == 13,
        "example"@.len() == 7,
        "completion"@ != "label"@ && "completion"@ != "engine"@ && "completion"@
            != "search_engine"@ && "completion"@ != "example"@,
        "label"@ != "engine"@ && "label"@ != "search_engine"@ && "label"@ != "example"@,
        "engine"@ != "search_engine"@ && "engine"@ != "example"@,
        "search_engine"@ != "example"@,
{
    reveal_strlit("completion");
    reveal_strlit("label");
    reveal_strlit("engine");
    reveal_strlit("search_engine");
    reveal_strlit("example");
    assert("completion"@.len() == 10);
    assert("label"@.len() == 5);
    assert("engine"@.len() == 6);
    assert("search_engine"@.len() == 13);
    assert("example"@.len() == 7);
    assert("completion"@ != "label"@);
    assert("completion"@ != "engine"@);
    assert("completion"@ != "search_engine"@);
    assert("completion"@ != "example"@);
    assert("label"@ != "engine"@);
    assert("label"@ != "search_engine"@);
    assert("label"@ != "example"@);
    assert("engine"@ != "search_engine"@);
    assert("engine"@ != "example"@);
    assert("search_engine"@ != "example"@);
}

impl Classification {
    /// What decoding a payload node into a classification yields: an
    /// object with required `completion` and `label` strings, required
    /// `engine` and `search_engine` names, and a required `example`
    /// object. Fields are checked in that order and the first failure
    /// is reported; nested errors carry the enclosing field name.
    pub open spec fn spec_decode(v: Value) -> Result<ClassificationModel, ErrorModel> {
        match v {
            Value::Object(pairs) => {
                match field_string_spec(pairs@, "completion"@) {
                    Err(e) => Err(e),
                    Ok(completion) => match field_string_spec(pairs@, "label"@) {
                        Err(e) => Err(e),
                        Ok(label) => match field_value_spec(pairs@, "engine"@) {
                            Err(e) => Err(e),
                            Ok(ev) => match EngineId::spec_decode(ev) {
                                Err(e) => Err(spec_prefixed("engine"@, e)),
                                Ok(engine) => match field_value_spec(pairs@, "search_engine"@) {
                                    Err(e) => Err(e),
                                    Ok(sv) => match EngineId::spec_decode(sv) {
                                        Err(e) => Err(spec_prefixed("search_engine"@, e)),
                                        Ok(search_engine) => match field_value_spec(
                                            pairs@,
                                            "example"@,
                                        ) {
                                            Err(e) => Err(e),
                                            Ok(xv) => match Example::spec_decode(xv) {
                                                Err(e) => Err(spec_prefixed("example"@, e)),
                                                Ok(example) => Ok(
                                                    ClassificationModel {
                                                        completion,
                                                        label,
                                                        engine,
                                                        search_engine,
                                                        example,
                                                    },
                                                ),
                                            },
                                        },
                                    },
                                },
                            },
                        },
                    },
                }
            },
            _ => Err(
                ErrorModel::TypeMismatch {
                    path: Seq::<char>::empty(),
                    expected: "object"@,
                    actual: kind_name(v),
                },
            ),
        }
    }

    /// Decodes a classification from a payload node.
    pub fn decode(v: &Value) -> (r: Result<Classification, DecodeError>)
        ensures
            r matches Ok(c) ==> Self::spec_decode(*v) == Ok::<ClassificationModel, ErrorModel>(c@)
                && c@.wf(),
            r matches Err(er) ==> Self::spec_decode(*v) == Err::<ClassificationModel, ErrorModel>(
                er@,
            ),
    {
        match v {
            Value::Object(pairs) => {
                let completion = match field_string(pairs, "completion") {
                    Ok(completion) => completion,
                    Err(e) => { return Err(e); },
                };
                let label = match field_string(pairs, "label") {
                    Ok(label) => label,
                    Err(e) => { return Err(e); },
                };
                let ev = match field_value(pairs, "engine") {
                    Ok(ev) => ev,
                    Err(e) => { return Err(e); },
                };
                let engine = match EngineId::decode(ev) {
                    Ok(engine) => engine,
                    Err(e) => { return Err(e.prefixed("engine")); },
                };
                let sv = match field_value(pairs, "search_engine") {
                    Ok(sv) => sv,
                    Err(e) => { return Err(e); },
                };
                let search_engine = match EngineId::decode(sv) {
                    Ok(search_engine) => search_engine,
                    Err(e) => { return Err(e.prefixed("search_engine")); },
                };
                let xv = match field_value(pairs, "example") {
                    Ok(xv) => xv,
                    Err(e) => { return Err(e); },
                };
                let example = match Example::decode(xv) {
                    Ok(example) => example,
                    Err(e) => { return Err(e.prefixed("example")); },
                };
                Ok(Classification { completion, label, engine, search_engine, example })
            },
            _ => Err(
                DecodeError::TypeMismatch {
                    path: String::new(),
                    expected: String::from_str("object"),
                    actual: String::from_str(kind_name_str(v)),
                },
            ),
        }
    }

    /// Builds the payload node that decodes back to this
    /// classification; the inverse used by test fixtures.
    pub fn encode(&self) -> (r: Value)
        requires
            self@.wf(),
        ensures
            Self::spec_decode(r) == Ok::<ClassificationModel, ErrorModel>(self@),
    {
        let mut pairs: Vec<(String, Value)> = Vec::new();
        pairs.push((String::from_str("completion"), Value::Text(self.completion.clone())));
        pairs.push((String::from_str("label"), Value::Text(self.label.clone())));
        pairs.push((String::from_str("engine"), self.engine.encode()));
        pairs.push((String::from_str("search_engine"), self.search_engine.encode()));
        pairs.push((String::from_str("example"), self.example.encode()));
        proof {
            lemma_classification_keys_distinct();
            let ps = pairs@;
            assert(crate::value::lookup_from(ps, "completion"@, 0) == Some(ps[0].1));
            assert(crate::value::lookup_from(ps, "label"@, 0) == crate::value::lookup_from(
                ps,
                "label"@,
                1,
            ));
            assert(crate::value::lookup_from(ps, "label"@, 1) == Some(ps[1].1));
            assert(crate::value::lookup_from(ps, "engine"@, 0) == crate::value::lookup_from(
                ps,
                "engine"@,
                1,
            ));
            assert(crate::value::lookup_from(ps, "engine"@, 1) == crate::value::lookup_from(
                ps,
                "engine"@,
                2,
            ));
            assert(crate::value::lookup_from(ps, "engine"@, 2) == Some(ps[2].1));
            assert(crate::value::lookup_from(ps, "search_engine"@, 0) == crate::value::lookup_from(
                ps,
                "search_engine"@,
                1,
            ));
            assert(crate::value::lookup_from(ps, "search_engine"@, 1) == crate::value::lookup_from(
                ps,
                "search_engine"@,
                2,
            ));
            assert(crate::value::lookup_from(ps, "search_engine"@, 2) == crate::value::lookup_from(
                ps,
                "search_engine"@,
                3,
            ));
            assert(crate::value::lookup_from(ps, "search_engine"@, 3) == Some(ps[3].1));
            assert(crate::value::lookup_from(ps, "example"@, 0) == crate::value::lookup_from(
                ps,
                "example"@,
                1,
            ));
            assert(crate::value::lookup_from(ps, "example"@, 1) == crate::value::lookup_from(
                ps,
                "example"@,
                2,
            ));
            assert(crate::value::lookup_from(ps, "example"@, 2) == crate::value::lookup_from(
                ps,
                "example"@,
                3,
            ));
            assert(crate::value::lookup_from(ps, "example"@, 3) == crate::value::lookup_from(
                ps,
                "example"@,
                4,
            ));
            assert(crate::value::lookup_from(ps, "example"@, 4) == Some(ps[4].1));
        }
        Value::Object(pairs)
    }

    /// Renders the classification's fields in declaration order.
    pub fn to_display_string(&self) -> (r: String)
        ensures
            r@ == self@.display(),
    {
        let mut s = String::from_str("(");
        s.append(self.completion.as_str());
        s.append(", ");
        s.append(self.label.as_str());
        s.append(", ");
        let e = self.engine.to_display_string();
        s.append(e.as_str());
        s.append(", ");
        let se = self.search_engine.to_display_string();
        s.append(se.as_str());
        s.append(", ");
        let x = self.example.to_display_string();
        s.append(x.as_str());
        s.append(")");
        s
    }
}

} // verus!
