//! The result of a text-generation request: an ordered sequence of
//! completion choices, each with its generated text, its rank index
//! and the reason generation finished.
//!
//! The `choices` sequence preserves payload order exactly; it is never
//! re-sorted by index or any other key.

use vstd::prelude::*;

verus! {

use crate::engine::{EngineId, EngineIdModel};
use crate::error::{DecodeError, ErrorModel, index_path, index_path_string, spec_prefixed};
use crate::fields::{
    field_string, field_string_spec, field_u64, field_u64_spec, field_value, field_value_spec,
};
use crate::text::str_eq;
use crate::value::{Value, kind_name, kind_name_str, lookup_spec};
use vstd::string::StringExecFns;

/// The reason why a completion finished: a closed-with-escape
/// enumeration, so an unrecognized reason is preserved rather than
/// rejected.
#[derive(Debug, PartialEq, Eq, Clone)]
pub enum FinishReason {
    /// The completion reached a maximum token limit.
    Length,
    /// The completion encountered a stop word.
    Stop,
    /// A finish reason this library does not know, kept as received.
    Other(String),
}

/// The mathematical shape of a [`FinishReason`].
pub enum FinishReasonModel {
    Length,
    Stop,
    Other(Seq<char>),
}

impl View for FinishReason {
    type V = FinishReasonModel;

    open spec fn view(&self) -> FinishReasonModel {
        match self {
            FinishReason::Length => FinishReasonModel::Length,
            FinishReason::Stop => FinishReasonModel::Stop,
            FinishReason::Other(s) => FinishReasonModel::Other(s@),
        }
    }
}

/// Whether a string is one of the named finish reasons' wire names.
pub open spec fn is_known_finish_reason(s: Seq<char>) -> bool {
    s == "length"@ || s == "stop"@
}

impl FinishReasonModel {
    /// The catch-all variant only ever carries a reason that no named
    /// variant claims.
    pub open spec fn wf(self) -> bool {
        match self {
            FinishReasonModel::Other(s) => !is_known_finish_reason(s),
            _ => true,
        }
    }

    /// The finish reason a wire name denotes; unknown names go to the
    /// catch-all variant unchanged.
    pub open spec fn of_name(s: Seq<char>) -> FinishReasonModel {
        if s == "length"@ {
            FinishReasonModel::Length
        } else if s == "stop"@ {
            FinishReasonModel::Stop
        } else {
            FinishReasonModel::Other(s)
        }
    }
}

proof fn lemma_finish_reason_names_distinct()
    ensures
        "length"@.len() == 6,
        "stop"@.len() == 4,
        "length"@ != "stop"@,
{
    reveal_strlit("length");
    reveal_strlit("stop");
}

impl FinishReason {
    /// What decoding a payload node into a finish reason yields: any
    /// string succeeds, anything else is a type mismatch.
    pub open spec fn spec_decode(v: Value) -> Result<FinishReasonModel, ErrorModel> {
        match v {
            Value::Text(s) => Ok(FinishReasonModel::of_name(s@)),
            _ => Err(
                ErrorModel::TypeMismatch {
                    path: Seq::<char>::empty(),
                    expected: "string"@,
                    actual: kind_name(v),
                },
            ),
        }
    }

    /// Decodes a finish reason from a payload node.
    pub fn decode(v: &Value) -> (r: Result<FinishReason, DecodeError>)
        ensures
            r matches Ok(f) ==> Self::spec_decode(*v) == Ok::<FinishReasonModel, ErrorModel>(f@)
                && f@.wf(),
            r matches Err(er) ==> Self::spec_decode(*v) == Err::<FinishReasonModel, ErrorModel>(
                er@,
            ),
    {
        match v {
            Value::Text(s) => {
                if str_eq(s.as_str(), "length") {
                    Ok(FinishReason::Length)
                } else if str_eq(s.as_str(), "stop") {
                    Ok(FinishReason::Stop)
                } else {
                    Ok(FinishReason::Other(s.clone()))
                }
            },
            _ => Err(
                DecodeError::TypeMismatch {
                    path: String::new(),
                    expected: String::from_str("string"),
                    actual: String::from_str(kind_name_str(v)),
                },
            ),
        }
    }

    /// Builds the payload node that decodes back to this finish
    /// reason; the inverse used by test fixtures.
    pub fn encode(&self) -> (r: Value)
        requires
            self@.wf(),
        ensures
            Self::spec_decode(r) == Ok::<FinishReasonModel, ErrorModel>(self@),
    {
        proof {
            lemma_finish_reason_names_distinct();
            assert(FinishReasonModel::of_name("length"@) == FinishReasonModel::Length);
            assert(FinishReasonModel::of_name("stop"@) == FinishReasonModel::Stop);
        }
        match self {
            FinishReason::Length => Value::Text(String::from_str("length")),
            FinishReason::Stop => Value::Text(String::from_str("stop")),
            FinishReason::Other(s) => Value::Text(s.clone()),
        }
    }
}

/// A completion choice.
#[derive(Debug, PartialEq, Eq, Clone)]
pub struct Choice {
    /// The text of the completion choice.
    pub text: String,
    /// The index of the completion choice: its rank as the payload
    /// reports it, not necessarily its position in the sequence.
    pub index: u64,
    /// The reason why the completion finished.
    pub finish_reason: FinishReason,
}

/// The mathematical shape of a [`Choice`].
pub struct ChoiceModel {
    pub text: Seq<char>,
    pub index: u64,
    pub finish_reason: FinishReasonModel,
}

impl View for Choice {
    type V = ChoiceModel;

    open spec fn view(&self) -> ChoiceModel {
        ChoiceModel { text: self.text@, index: self.index, finish_reason: self.finish_reason@ }
    }
}

impl ChoiceModel {
    /// Validity of a decoded choice.
    pub open spec fn wf(self) -> bool {
        self.finish_reason.wf()
    }
}

proof fn lemma_choice_keys_distinct()
    ensures
        "text"@.len() == 4,
        "index"@.len() == 5,
        "finish_reason"@.len() == 13,
        "text"@ != "index"@ && "text"@ != "finish_reason"@ && "index"@ != "finish_reason"@,
{
    reveal_strlit("text");
    reveal_strlit("index");
    reveal_strlit("finish_reason");
}

impl Choice {
    /// What decoding a payload node into a choice yields: an object
    /// with a required `text` string, a required `index` non-negative
    /// integer and a required `finish_reason` string.
    pub open spec fn spec_decode(v: Value) -> Result<ChoiceModel, ErrorModel> {
        match v {
            Value::Object(pairs) => {
                match field_string_spec(pairs@, "text"@) {
                    Err(e) => Err(e),
                    Ok(text) => match field_u64_spec(pairs@, "index"@) {
                        Err(e) => Err(e),
                        Ok(index) => match field_value_spec(pairs@, "finish_reason"@) {
                            Err(e) => Err(e),
                            Ok(frv) => match FinishReason::spec_decode(frv) {
                                Err(e) => Err(spec_prefixed("finish_reason"@, e)),
                                Ok(finish_reason) => Ok(ChoiceModel { text, index, finish_reason }),
                            },
                        },
                    },
                }
            },
            _ => Err(
                ErrorModel::TypeMismatch {
                    path: Seq::<char>::empty(),
                    expected: "object"@,
                    actual: kind_name(v),
                },
            ),
        }
    }

    /// Decodes a choice from a payload node.
    pub fn decode(v: &Value) -> (r: Result<Choice, DecodeError>)
        ensures
            r matches Ok(c) ==> Self::spec_decode(*v) == Ok::<ChoiceModel, ErrorModel>(c@)
                && c@.wf(),
            r matches Err(er) ==> Self::spec_decode(*v) == Err::<ChoiceModel, ErrorModel>(er@),
    {
        match v {
            Value::Object(pairs) => {
                let text = match field_string(pairs, "text") {
                    Ok(text) => text,
                    Err(e) => { return Err(e); },
                };
                let index = match field_u64(pairs, "index") {
                    Ok(index) => index,
                    Err(e) => { return Err(e); },
                };
                let frv = match field_value(pairs, "finish_reason") {
                    Ok(frv) => frv,
                    Err(e) => { return Err(e); },
                };
                let finish_reason = match FinishReason::decode(frv) {
                    Ok(finish_reason) => finish_reason,
                    Err(e) => { return Err(e.prefixed("finish_reason")); },
                };
                Ok(Choice { text, index, finish_reason })
            },
            _ => Err(
                DecodeError::TypeMismatch {
                    path: String::new(),
                    expected: String::from_str("object"),
                    actual: String::from_str(kind_name_str(v)),
                },
            ),
        }
    }

    /// Builds the payload node that decodes back to this choice; the
    /// inverse used by test fixtures.
    pub fn encode(&self) -> (r: Value)
        requires
            self@.wf(),
        ensures
            Self::spec_decode(r) == Ok::<ChoiceModel, ErrorModel>(self@),
    {
        let mut pairs: Vec<(String, Value)> = Vec::new();
        pairs.push((String::from_str("text"), Value::Text(self.text.clone())));
        pairs.push((String::from_str("index"), Value::Integer(self.index)));
        pairs.push((String::from_str("finish_reason"), self.finish_reason.encode()));
        proof {
            lemma_choice_keys_distinct();
            let ps = pairs@;
            assert(crate::value::lookup_from(ps, "text"@, 0) == Some(ps[0].1));
            assert(crate::value::lookup_from(ps, "index"@, 0) == crate::value::lookup_from(
                ps,
                "index"@,
                1,
            ));
            assert(crate::value::lookup_from(ps, "index"@, 1) == Some(ps[1].1));
            assert(crate::value::lookup_from(ps, "finish_reason"@, 0)
                == crate::value::lookup_from(ps, "finish_reason"@, 1));
            assert(crate::value::lookup_from(ps, "finish_reason"@, 1)
                == crate::value::lookup_from(ps, "finish_reason"@, 2));
            assert(crate::value::lookup_from(ps, "finish_reason"@, 2) == Some(ps[2].1));
        }
        Value::Object(pairs)
    }
}

/// The view of a choice sequence: each element's model, in order.
pub open spec fn choices_view(cs: Seq<Choice>) -> Seq<ChoiceModel> {
    cs.map_values(|c: Choice| c@)
}

/// What decoding the elements of a `choices` array from position `i`
/// on yields: each element decoded in order, stopping at the first
/// failure, whose path is indexed (`choices[2].finish_reason`).
pub open spec fn spec_decode_choices_from(elems: Seq<Value>, i: int) -> Result<
    Seq<ChoiceModel>,
    ErrorModel,
>
    decreases elems.len() - i,
{
    if i < 0 || i >= elems.len() {
        Ok(Seq::empty())
    } else {
        match Choice::spec_decode(elems[i]) {
            Err(e) => Err(spec_prefixed(index_path("choices"@, i as nat), e)),
            Ok(c) => match spec_decode_choices_from(elems, i + 1) {
                Err(e) => Err(e),
                Ok(rest) => Ok(seq![c] + rest),
            },
        }
    }
}

/// Order preservation: when a `choices` array decodes, the result has
/// one entry per payload element, in exactly the payload's order.
pub proof fn lemma_choices_order(elems: Seq<Value>, i: int)
    requires
        0 <= i <= elems.len(),
    ensures
        spec_decode_choices_from(elems, i) matches Ok(ms) ==> ms.len() == elems.len() - i
            && (forall|j: int|
            0 <= j < ms.len() ==> Choice::spec_decode(elems[i + j]) == Ok::<
                ChoiceModel,
                ErrorModel,
            >(ms[j])),
    decreases elems.len() - i,
{
    if i < elems.len() {
        lemma_choices_order(elems, i + 1);
    }
}

/// When every element of a `choices` array decodes, the whole array
/// decodes to exactly those results.
proof fn lemma_choices_all_ok(elems: Seq<Value>, ms: Seq<ChoiceModel>, i: int)
    requires
        0 <= i <= elems.len(),
        ms.len() == elems.len(),
        forall|j: int|
            i <= j < elems.len() ==> Choice::spec_decode(elems[j]) == Ok::<
                ChoiceModel,
                ErrorModel,
            >(ms[j]),
    ensures
        spec_decode_choices_from(elems, i) == Ok::<Seq<ChoiceModel>, ErrorModel>(
            ms.subrange(i, ms.len() as int),
        ),
    decreases elems.len() - i,
{
    if i == elems.len() {
        assert(ms.subrange(i, ms.len() as int) =~= Seq::<ChoiceModel>::empty());
    } else {
        lemma_choices_all_ok(elems, ms, i + 1);
        assert(seq![ms[i]] + ms.subrange(i + 1, ms.len() as int) =~= ms.subrange(
            i,
            ms.len() as int,
        ));
    }
}

/// Decodes the elements of a `choices` array.
fn decode_choices(elems: &Vec<Value>) -> (r: Result<Vec<Choice>, DecodeError>)
    ensures
        r matches Ok(cs) ==> spec_decode_choices_from(elems@, 0) == Ok::<
            Seq<ChoiceModel>,
            ErrorModel,
        >(choices_view(cs@)) && (forall|j: int| 0 <= j < cs@.len() ==> (#[trigger] cs@[j])@.wf()),
        r matches Err(er) ==> spec_decode_choices_from(elems@, 0) == Err::<
            Seq<ChoiceModel>,
            ErrorModel,
        >(er@),
{
    let mut out: Vec<Choice> = Vec::new();
    let mut i: usize = 0;
    while i < elems.len()
        invariant
            i <= elems@.len(),
            out@.len() == i,
            forall|j: int| 0 <= j < i ==> (#[trigger] out@[j])@.wf(),
            (match spec_decode_choices_from(elems@, i as int) {
                Ok(rest) => spec_decode_choices_from(elems@, 0) == Ok::<
                    Seq<ChoiceModel>,
                    ErrorModel,
                >(choices_view(out@) + rest),
                Err(e) => spec_decode_choices_from(elems@, 0) == Err::<
                    Seq<ChoiceModel>,
                    ErrorModel,
                >(e),
            }),
        decreases elems@.len() - i,
    {
        let ghost pre = out@;
        match Choice::decode(&elems[i]) {
            Ok(c) => {
                out.push(c);
                proof {
                    assert(choices_view(out@) =~= choices_view(pre) + seq![out@[i as int]@]);
                    match spec_decode_choices_from(elems@, i + 1) {
                        Ok(rest) => {
                            assert((choices_view(pre) + seq![out@[i as int]@]) + rest
                                =~= choices_view(pre) + (seq![out@[i as int]@] + rest));
                        },
                        Err(e) => {},
                    }
                }
            },
            Err(e) => {
                let p = index_path_string("choices", i);
                return Err(e.prefixed(p.as_str()));
            },
        }
        i += 1;
    }
    proof {
        assert(choices_view(out@) + Seq::<ChoiceModel>::empty() =~= choices_view(out@));
    }
    Ok(out)
}

/// The result of a completion request.
#[derive(Debug, PartialEq, Eq, Clone)]
pub struct Completion {
    /// A unique identifier for the completion.
    pub id: String,
    /// The completion choices, in payload order.
    pub choices: Vec<Choice>,
    /// Unix timestamp when the completion was generated.
    pub created: u64,
    /// The engine used to generate the completion.
    pub engine: EngineId,
}

/// The mathematical shape of a [`Completion`].
pub struct CompletionModel {
    pub id: Seq<char>,
    pub choices: Seq<ChoiceModel>,
    pub created: u64,
    pub engine: EngineIdModel,
}

impl View for Completion {
    type V = CompletionModel;

    open spec fn view(&self) -> CompletionModel {
        CompletionModel {
            id: self.id@,
            choices: choices_view(self.choices@),
            created: self.created,
            engine: self.engine@,
        }
    }
}

impl CompletionModel {
    /// Validity of a decoded completion.
    pub open spec fn wf(self) -> bool {
        self.engine.wf() && forall|j: int| 0 <= j < self.choices.len() ==> (#[trigger] self.choices[j]).wf()
    }
}

proof fn lemma_completion_keys_distinct()
    ensures
        "id"@.len() == 2,
        "choices"@.len() == 7,
        "created"@.len() == 7,
        "engine"@.len() == 6,
        "id"@ != "choices"@ && "id"@ != "created"@ && "id"@ != "engine"@,
        "choices"@ != "created"@ && "choices"@ != "engine"@,
        "created"@ != "engine"@,
{
    reveal_strlit("id");
    reveal_strlit("choices");
    reveal_strlit("created");
    reveal_strlit("engine");
    assert("choices"@[1] == 'h');
    assert("created"@[1] == 'r');
}

impl Completion {
    /// What decoding a payload node into a completion yields: an
    /// object with a required `id` string, a required `choices` array
    /// of choices, a required `created` non-negative integer and a
    /// required `engine` name. Fields are checked in that order and
    /// the first failure is reported.
    pub open spec fn spec_decode(v: Value) -> Result<CompletionModel, ErrorModel> {
        match v {
            Value::Object(pairs) => {
                match field_string_spec(pairs@, "id"@) {
                    Err(e) => Err(e),
                    Ok(id) => match field_value_spec(pairs@, "choices"@) {
                        Err(e) => Err(e),
                        Ok(cv) => match cv {
                            Value::Array(elems) => match spec_decode_choices_from(elems@, 0) {
                                Err(e) => Err(e),
                                Ok(choices) => match field_u64_spec(pairs@, "created"@) {
                                    Err(e) => Err(e),
                                    Ok(created) => match field_value_spec(pairs@, "engine"@) {
                                        Err(e) => Err(e),
                                        Ok(ev) => match EngineId::spec_decode(ev) {
                                            Err(e) => Err(spec_prefixed("engine"@, e)),
                                            Ok(engine) => Ok(
                                                CompletionModel { id, choices, created, engine },
                                            ),
                                        },
                                    },
                                },
                            },
                            _ => Err(
                                ErrorModel::TypeMismatch {
                                    path: "choices"@,
                                    expected: "array"@,
                                    actual: kind_name(cv),
                                },
                            ),
                        },
                    },
                }
            },
            _ => Err(
                ErrorModel::TypeMismatch {
                    path: Seq::<char>::empty(),
                    expected: "object"@,
                    actual: kind_name(v),
                },
            ),
        }
    }

    /// Decodes a completion from a payload node.
    pub fn decode(v: &Value) -> (r: Result<Completion, DecodeError>)
        ensures
            r matches Ok(c) ==> Self::spec_decode(*v) == Ok::<CompletionModel, ErrorModel>(c@)
                && c@.wf(),
            r matches Err(er) ==> Self::spec_decode(*v) == Err::<CompletionModel, ErrorModel>(er@),
    {
        match v {
            Value::Object(pairs) => {
                let id = match field_string(pairs, "id") {
                    Ok(id) => id,
                    Err(e) => { return Err(e); },
                };
                let cv = match field_value(pairs, "choices") {
                    Ok(cv) => cv,
                    Err(e) => { return Err(e); },
                };
                let choices = match cv {
                    Value::Array(elems) => match decode_choices(elems) {
                        Ok(choices) => choices,
                        Err(e) => { return Err(e); },
                    },
                    _ => {
                        return Err(
                            DecodeError::TypeMismatch {
                                path: String::from_str("choices"),
                                expected: String::from_str("array"),
                                actual: String::from_str(kind_name_str(cv)),
                            },
                        );
                    },
                };
                let created = match field_u64(pairs, "created") {
                    Ok(created) => created,
                    Err(e) => { return Err(e); },
                };
                let ev = match field_value(pairs, "engine") {
                    Ok(ev) => ev,
                    Err(e) => { return Err(e); },
                };
                let engine = match EngineId::decode(ev) {
                    Ok(engine) => engine,
                    Err(e) => { return Err(e.prefixed("engine")); },
                };
                Ok(Completion { id, choices, created, engine })
            },
            _ => Err(
                DecodeError::TypeMismatch {
                    path: String::new(),
                    expected: String::from_str("object"),
                    actual: String::from_str(kind_name_str(v)),
                },
            ),
        }
    }

    /// Builds the payload node that decodes back to this completion;
    /// the inverse used by test fixtures.
    pub fn encode(&self) -> (r: Value)
        requires
            self@.wf(),
        ensures
            Self::spec_decode(r) == Ok::<CompletionModel, ErrorModel>(self@),
    {
        let mut elems: Vec<Value> = Vec::new();
        let mut i: usize = 0;
        while i < self.choices.len()
            invariant
                i <= self.choices@.len(),
                elems@.len() == i,
                self@.wf(),
                forall|j: int|
                    0 <= j < i ==> Choice::spec_decode(#[trigger] elems@[j]) == Ok::<
                        ChoiceModel,
                        ErrorModel,
                    >(self.choices@[j]@),
            decreases self.choices@.len() - i,
        {
            proof {
                assert(self@.choices[i as int] == self.choices@[i as int]@);
            }
            elems.push(self.choices[i].encode());
            i += 1;
        }
        proof {
            lemma_choices_all_ok(elems@, choices_view(self.choices@), 0);
            assert(choices_view(self.choices@).subrange(
                0,
                choices_view(self.choices@).len() as int,
            ) =~= choices_view(self.choices@));
        }
        let mut pairs: Vec<(String, Value)> = Vec::new();
        pairs.push((String::from_str("id"), Value::Text(self.id.clone())));
        pairs.push((String::from_str("choices"), Value::Array(elems)));
        pairs.push((String::from_str("created"), Value::Integer(self.created)));
        pairs.push((String::from_str("engine"), self.engine.encode()));
        proof {
            lemma_completion_keys_distinct();
            let ps = pairs@;
            assert(crate::value::lookup_from(ps, "id"@, 0) == Some(ps[0].1));
            assert(crate::value::lookup_from(ps, "choices"@, 0) == crate::value::lookup_from(
                ps,
                "choices"@,
                1,
            ));
            assert(crate::value::lookup_from(ps, "choices"@, 1) == Some(ps[1].1));
            assert(crate::value::lookup_from(ps, "created"@, 0) == crate::value::lookup_from(
                ps,
                "created"@,
                1,
            ));
            assert(crate::value::lookup_from(ps, "created"@, 1) == crate::value::lookup_from(
                ps,
                "created"@,
                2,
            ));
            assert(crate::value::lookup_from(ps, "created"@, 2) == Some(ps[2].1));
            assert(crate::value::lookup_from(ps, "engine"@, 0) == crate::value::lookup_from(
                ps,
                "engine"@,
                1,
            ));
            assert(crate::value::lookup_from(ps, "engine"@, 1) == crate::value::lookup_from(
                ps,
                "engine"@,
                2,
            ));
            assert(crate::value::lookup_from(ps, "engine"@, 2) == crate::value::lookup_from(
                ps,
                "engine"@,
                3,
            ));
            assert(crate::value::lookup_from(ps, "engine"@, 3) == Some(ps[3].1));
        }
        Value::Object(pairs)
    }
}

/// A completion payload lacking its `id` fails to decode with a
/// missing-field error naming `id`, whatever else it holds: no partial
/// entity is constructed.
pub proof fn lemma_completion_missing_id(v: Value)
    requires
        v matches Value::Object(pairs) && lookup_spec(pairs@, "id"@) is None,
    ensures
        Completion::spec_decode(v) == Err::<CompletionModel, ErrorModel>(
            ErrorModel::MissingField { path: "id"@ },
        ),
{
}

} // verus!
