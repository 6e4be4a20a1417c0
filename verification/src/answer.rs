//! The result of a question-answering request: candidate answers in
//! rank order and the documents selected as supporting evidence.
//!
//! The selected documents form a mapping from document index to
//! document text. On the wire the mapping's keys are decimal strings;
//! they decode to signed integers, need not be contiguous or sorted,
//! and a repeated key overwrites the earlier entry (last one wins)
//! while keeping the first occurrence's position. Decoded keys are
//! unique.

use vstd::prelude::*;

verus! {

use crate::engine::{EngineId, EngineIdModel};
use crate::error::{DecodeError, ErrorModel, index_path, index_path_string, join, join_path,
    spec_prefixed};
use crate::fields::{field_string, field_string_spec, field_value, field_value_spec};
use crate::text::{i64_to_string, lemma_parse_dec_i64, parse_i64, parse_i64_spec};
use crate::value::{Value, kind_name, kind_name_str};
use vstd::string::StringExecFns;

/// The view of an answer-string sequence: each element's characters,
/// in order.
pub open spec fn answers_view(vs: Seq<String>) -> Seq<Seq<char>> {
    vs.map_values(|s: String| s@)
}

/// The view of a selected-documents sequence: each entry's key and
/// text, in order.
pub open spec fn docs_view(ds: Seq<(i64, String)>) -> Seq<(i64, Seq<char>)> {
    ds.map_values(|d: (i64, String)| (d.0, d.1@))
}

/// Whether the entries of a selected-documents sequence carry
/// pairwise distinct keys.
pub open spec fn unique_keys(s: Seq<(i64, Seq<char>)>) -> bool {
    forall|a: int, b: int| 0 <= a < b < s.len() ==> (#[trigger] s[a]).0 != (#[trigger] s[b]).0
}

/// Insertion into a selected-documents sequence: an existing key's
/// entry is overwritten in place, a fresh key is appended.
pub open spec fn map_set(s: Seq<(i64, Seq<char>)>, k: i64, v: Seq<char>) -> Seq<(i64, Seq<char>)> {
    if exists|j: int| 0 <= j < s.len() && (#[trigger] s[j]).0 == k {
        s.update(choose|j: int| 0 <= j < s.len() && (#[trigger] s[j]).0 == k, (k, v))
    } else {
        s.push((k, v))
    }
}

proof fn lemma_map_set_unique(s: Seq<(i64, Seq<char>)>, k: i64, v: Seq<char>)
    requires
        unique_keys(s),
    ensures
        unique_keys(map_set(s, k, v)),
{
    if exists|j: int| 0 <= j < s.len() && (#[trigger] s[j]).0 == k {
        let j = choose|j: int| 0 <= j < s.len() && (#[trigger] s[j]).0 == k;
        let t = s.update(j, (k, v));
        assert forall|a: int, b: int| 0 <= a < b < t.len() implies (#[trigger] t[a]).0 != (
        #[trigger] t[b]).0 by {
            assert(s[a].0 != s[b].0);
        }
    }
}

/// What decoding the entries of a `selectedDocuments` object from
/// position `i` on, into the accumulated mapping `acc`, yields: each
/// key parsed as a decimal integer and each value a string, inserted
/// in payload order with a later duplicate key overwriting the
/// earlier entry.
pub open spec fn spec_decode_docs_from(
    pairs: Seq<(String, Value)>,
    i: int,
    acc: Seq<(i64, Seq<char>)>,
) -> Result<Seq<(i64, Seq<char>)>, ErrorModel>
    decreases pairs.len() - i,
{
    if i < 0 || i >= pairs.len() {
        Ok(acc)
    } else {
        match parse_i64_spec(pairs[i].0@) {
            Option::None => Err(
                ErrorModel::TypeMismatch {
                    path: "selectedDocuments"@,
                    expected: "integer key"@,
                    actual: pairs[i].0@,
                },
            ),
            Option::Some(key) => match pairs[i].1 {
                Value::Text(s) => spec_decode_docs_from(pairs, i + 1, map_set(acc, key, s@)),
                other => Err(
                    ErrorModel::TypeMismatch {
                        path: join_path("selectedDocuments"@, pairs[i].0@),
                        expected: "string"@,
                        actual: kind_name(other),
                    },
                ),
            },
        }
    }
}

/// Finds the position of a key in the decoded mapping.
fn doc_index(docs: &Vec<(i64, String)>, k: i64) -> (r: Option<usize>)
    ensures
        r matches Some(j) ==> j < docs@.len() && docs@[j as int].0 == k,
        r is None ==> forall|t: int| 0 <= t < docs@.len() ==> (#[trigger] docs@[t]).0 != k,
{
    let mut i: usize = 0;
    while i < docs.len()
        invariant
            i <= docs@.len(),
            forall|t: int| 0 <= t < i ==> (#[trigger] docs@[t]).0 != k,
        decreases docs@.len() - i,
    {
        if docs[i].0 == k {
            return Some(i);
        }
        i += 1;
    }
    None
}

/// Decodes the entries of a `selectedDocuments` object.
fn decode_docs(pairs: &Vec<(String, Value)>) -> (r: Result<Vec<(i64, String)>, DecodeError>)
    ensures
        r matches Ok(ds) ==> spec_decode_docs_from(pairs@, 0, Seq::empty()) == Ok::<
            Seq<(i64, Seq<char>)>,
            ErrorModel,
        >(docs_view(ds@)) && unique_keys(docs_view(ds@)),
        r matches Err(er) ==> spec_decode_docs_from(pairs@, 0, Seq::empty()) == Err::<
            Seq<(i64, Seq<char>)>,
            ErrorModel,
        >(er@),
{
    let mut out: Vec<(i64, String)> = Vec::new();
    proof {
        assert(docs_view(out@) =~= Seq::<(i64, Seq<char>)>::empty());
    }
    let mut i: usize = 0;
    while i < pairs.len()
        invariant
            i <= pairs@.len(),
            unique_keys(docs_view(out@)),
            spec_decode_docs_from(pairs@, 0, Seq::empty()) == spec_decode_docs_from(
                pairs@,
                i as int,
                docs_view(out@),
            ),
        decreases pairs@.len() - i,
    {
        let key = match parse_i64(pairs[i].0.as_str()) {
            Option::Some(key) => key,
            Option::None => {
                return Err(
                    DecodeError::TypeMismatch {
                        path: String::from_str("selectedDocuments"),
                        expected: String::from_str("integer key"),
                        actual: pairs[i].0.clone(),
                    },
                );
            },
        };
        match &pairs[i].1 {
            Value::Text(s) => {
                let ghost pre = docs_view(out@);
                proof {
                    lemma_map_set_unique(pre, key, s@);
                }
                match doc_index(&out, key) {
                    Option::Some(j) => {
                        proof {
                            assert(pre[j as int].0 == key);
                            let j2 = choose|t: int|
                                0 <= t < pre.len() && (#[trigger] pre[t]).0 == key;
                            if j2 != j as int {
                                assert(pre[j2].0 == pre[j as int].0);
                                assert(false);
                            }
                            assert(map_set(pre, key, s@) == pre.update(j as int, (key, s@)));
                        }
                        out.set(j, (key, s.clone()));
                        proof {
                            assert(docs_view(out@) =~= pre.update(j as int, (key, s@)));
                        }
                    },
                    Option::None => {
                        proof {
                            assert forall|t: int| 0 <= t < pre.len() implies (#[trigger] pre[t]).0
                                != key by {
                                assert(out@[t].0 != key);
                            }
                            assert(map_set(pre, key, s@) == pre.push((key, s@)));
                        }
                        out.push((key, s.clone()));
                        proof {
                            assert(docs_view(out@) =~= pre.push((key, s@)));
                        }
                    },
                }
            },
            other => {
                let p = join("selectedDocuments", pairs[i].0.as_str());
                return Err(
                    DecodeError::TypeMismatch {
                        path: p,
                        expected: String::from_str("string"),
                        actual: String::from_str(kind_name_str(other)),
                    },
                );
            },
        }
        i += 1;
    }
    Ok(out)
}

/// When every wire entry carries the decimal rendering of the
/// corresponding decoded entry's key and its text, and the decoded
/// keys are pairwise distinct, the mapping decodes to exactly those
/// entries in order.
proof fn lemma_docs_all_fresh(pairs: Seq<(String, Value)>, ds: Seq<(i64, Seq<char>)>, i: int)
    requires
        0 <= i <= pairs.len(),
        ds.len() == pairs.len(),
        unique_keys(ds),
        forall|j: int|
            0 <= j < pairs.len() ==> parse_i64_spec((#[trigger] pairs[j]).0@) == Some(ds[j].0),
        forall|j: int|
            0 <= j < pairs.len() ==> ((#[trigger] pairs[j]).1 matches Value::Text(s) && s@
                == ds[j].1),
    ensures
        spec_decode_docs_from(pairs, i, ds.subrange(0, i)) == Ok::<
            Seq<(i64, Seq<char>)>,
            ErrorModel,
        >(ds),
    decreases pairs.len() - i,
{
    let acc = ds.subrange(0, i);
    if i == pairs.len() {
        assert(acc =~= ds);
    } else {
        assert(forall|t: int| 0 <= t < i ==> (#[trigger] acc[t]).0 != ds[i].0);
        assert(map_set(acc, ds[i].0, ds[i].1) =~= acc.push((ds[i].0, ds[i].1)));
        assert(acc.push((ds[i].0, ds[i].1)) =~= ds.subrange(0, i + 1));
        lemma_docs_all_fresh(pairs, ds, i + 1);
    }
}

/// What decoding the elements of an `answers` array from position `i`
/// on yields: each element a string, in order, stopping at the first
/// failure.
pub open spec fn spec_decode_answers_from(elems: Seq<Value>, i: int) -> Result<
    Seq<Seq<char>>,
    ErrorModel,
>
    decreases elems.len() - i,
{
    if i < 0 || i >= elems.len() {
        Ok(Seq::empty())
    } else {
        match elems[i] {
            Value::Text(s) => match spec_decode_answers_from(elems, i + 1) {
                Err(e) => Err(e),
                Ok(rest) => Ok(seq![s@] + rest),
            },
            other => Err(
                ErrorModel::TypeMismatch {
                    path: index_path("answers"@, i as nat),
                    expected: "string"@,
                    actual: kind_name(other),
                },
            ),
        }
    }
}

/// When every element of an `answers` array is a string, the array
/// decodes to exactly those strings in order.
proof fn lemma_answers_all_ok(elems: Seq<Value>, ms: Seq<Seq<char>>, i: int)
    requires
        0 <= i <= elems.len(),
        ms.len() == elems.len(),
        forall|j: int|
            0 <= j < elems.len() ==> ((#[trigger] elems[j]) matches Value::Text(s) && s@
                == ms[j]),
    ensures
        spec_decode_answers_from(elems, i) == Ok::<Seq<Seq<char>>, ErrorModel>(
            ms.subrange(i, ms.len() as int),
        ),
    decreases elems.len() - i,
{
    if i == elems.len() {
        assert(ms.subrange(i, ms.len() as int) =~= Seq::<Seq<char>>::empty());
    } else {
        lemma_answers_all_ok(elems, ms, i + 1);
        assert(seq![ms[i]] + ms.subrange(i + 1, ms.len() as int) =~= ms.subrange(
            i,
            ms.len() as int,
        ));
    }
}

/// Decodes the elements of an `answers` array.
fn decode_answers(elems: &Vec<Value>) -> (r: Result<Vec<String>, DecodeError>)
    ensures
        r matches Ok(vs) ==> spec_decode_answers_from(elems@, 0) == Ok::<
            Seq<Seq<char>>,
            ErrorModel,
        >(answers_view(vs@)),
        r matches Err(er) ==> spec_decode_answers_from(elems@, 0) == Err::<
            Seq<Seq<char>>,
            ErrorModel,
        >(er@),
{
    let mut out: Vec<String> = Vec::new();
    let mut i: usize = 0;
    while i < elems.len()
        invariant
            i <= elems@.len(),
            out@.len() == i,
            (match spec_decode_answers_from(elems@, i as int) {
                Ok(rest) => spec_decode_answers_from(elems@, 0) == Ok::<
                    Seq<Seq<char>>,
                    ErrorModel,
                >(answers_view(out@) + rest),
                Err(e) => spec_decode_answers_from(elems@, 0) == Err::<
                    Seq<Seq<char>>,
                    ErrorModel,
                >(e),
            }),
        decreases elems@.len() - i,
    {
        let ghost pre = out@;
        match &elems[i] {
            Value::Text(s) => {
                out.push(s.clone());
                proof {
                    assert(answers_view(out@) =~= answers_view(pre) + seq![out@[i as int]@]);
                    match spec_decode_answers_from(elems@, i + 1) {
                        Ok(rest) => {
                            assert((answers_view(pre) + seq![out@[i as int]@]) + rest
                                =~= answers_view(pre) + (seq![out@[i as int]@] + rest));
                        },
                        Err(e) => {},
                    }
                }
            },
            other => {
                let p = index_path_string("answers", i);
                return Err(
                    DecodeError::TypeMismatch {
                        path: p,
                        expected: String::from_str("string"),
                        actual: String::from_str(kind_name_str(other)),
                    },
                );
            },
        }
        i += 1;
    }
    proof {
        assert(answers_view(out@) + Seq::<Seq<char>>::empty() =~= answers_view(out@));
    }
    Ok(out)
}

/// The result of a question-answering request.
#[derive(Debug, PartialEq, Eq, Clone)]
pub struct Answer {
    /// The completion for the answer.
    pub completion: String,
    /// The possible answers, in rank order.
    pub answers: Vec<String>,
    /// The engine used to answer the question.
    pub engine: EngineId,
    /// The engine used for searching.
    pub search_engine: EngineId,
    /// The documents selected for each answer, keyed by document
    /// index; decoded from the wire field `selectedDocuments`.
    pub selected_documents: Vec<(i64, String)>,
}

/// The mathematical shape of an [`Answer`].
pub struct AnswerModel {
    pub completion: Seq<char>,
    pub answers: Seq<Seq<char>>,
    pub engine: EngineIdModel,
    pub search_engine: EngineIdModel,
    pub selected_documents: Seq<(i64, Seq<char>)>,
}

impl View for Answer {
    type V = AnswerModel;

    open spec fn view(&self) -> AnswerModel {
        AnswerModel {
            completion: self.completion@,
            answers: answers_view(self.answers@),
            engine: self.engine@,
            search_engine: self.search_engine@,
            selected_documents: docs_view(self.selected_documents@),
        }
    }
}

impl AnswerModel {
    /// Validity of a decoded answer: valid engines and pairwise
    /// distinct document keys.
    pub open spec fn wf(self) -> bool {
        self.engine.wf() && self.search_engine.wf() && unique_keys(self.selected_documents)
    }
}

proof fn lemma_answer_keys_distinct()
    ensures
        "completion"@.len() == 10,
        "answers"@.len() == 7,
        "engine"@.len() == 6,
        "search_engine"@.len() == 13,
        "selectedDocuments"@.len() == 17,
        "completion"@ != "answers"@ && "completion"@ != "engine"@ && "completion"@
            != "search_engine"@ && "completion"@ != "selectedDocuments"@,
        "answers"@ != "engine"@ && "answers"@ != "search_engine"@ && "answers"@
            != "selectedDocuments"@,
        "engine"@ != "search_engine"@ && "engine"@ != "selectedDocuments"@,
        "search_engine"@ != "selectedDocuments"@,
{
    reveal_strlit("completion");
    reveal_strlit("answers");
    reveal_strlit("engine");
    reveal_strlit("search_engine");
    reveal_strlit("selectedDocuments");
    assert("completion"@.len() == 10);
    assert("answers"@.len() == 7);
    assert("engine"@.len() == 6);
    assert("search_engine"@.len() == 13);
    assert("selectedDocuments"@.len() == 17);
}

impl Answer {
    /// What decoding a payload node into an answer yields: an object
    /// with a required `completion` string, a required `answers` array
    /// of strings, required `engine` and `search_engine` names, and a
    /// required `selectedDocuments` object mapping decimal document
    /// indices to strings. Fields are checked in that order and the
    /// first failure is reported.
    pub open spec fn spec_decode(v: Value) -> Result<AnswerModel, ErrorModel> {
        match v {
            Value::Object(pairs) => {
                match field_string_spec(pairs@, "completion"@) {
                    Err(e) => Err(e),
                    Ok(completion) => match field_value_spec(pairs@, "answers"@) {
                        Err(e) => Err(e),
                        Ok(av) => match av {
                            Value::Array(elems) => match spec_decode_answers_from(elems@, 0) {
                                Err(e) => Err(e),
                                Ok(answers) => match field_value_spec(pairs@, "engine"@) {
                                    Err(e) => Err(e),
                                    Ok(ev) => match EngineId::spec_decode(ev) {
                                        Err(e) => Err(spec_prefixed("engine"@, e)),
                                        Ok(engine) => match field_value_spec(
                                            pairs@,
                                            "search_engine"@,
                                        ) {
                                            Err(e) => Err(e),
                                            Ok(sv) => match EngineId::spec_decode(sv) {
                                                Err(e) => Err(spec_prefixed("search_engine"@, e)),
                                                Ok(search_engine) => match field_value_spec(
                                                    pairs@,
                                                    "selectedDocuments"@,
                                                ) {
                                                    Err(e) => Err(e),
                                                    Ok(dv) => match dv {
                                                        Value::Object(dpairs) => {
                                                            match spec_decode_docs_from(
                                                                dpairs@,
                                                                0,
                                                                Seq::empty(),
                                                            ) {
                                                                Err(e) => Err(e),
                                                                Ok(selected_documents) => Ok(
                                                                    AnswerModel {
                                                                        completion,
                                                                        answers,
                                                                        engine,
                                                                        search_engine,
                                                                        selected_documents,
                                                                    },
                                                                ),
                                                            }
                                                        },
                                                        _ => Err(
                                                            ErrorModel::TypeMismatch {
                                                                path: "selectedDocuments"@,
                                                                expected: "object"@,
                                                                actual: kind_name(dv),
                                                            },
                                                        ),
                                                    },
                                                },
                                            },
                                        },
                                    },
                                },
                            },
                            _ => Err(
                                ErrorModel::TypeMismatch {
                                    path: "answers"@,
                                    expected: "array"@,
                                    actual: kind_name(av),
                                },
                            ),
                        },
                    },
                }
            },
            _ => Err(
                ErrorModel::TypeMismatch {
                    path: Seq::<char>::empty(),
                    expected: "object"@,
                    actual: kind_name(v),
                },
            ),
        }
    }

    /// Decodes an answer from a payload node.
    pub fn decode(v: &Value) -> (r: Result<Answer, DecodeError>)
        ensures
            r matches Ok(a) ==> Self::spec_decode(*v) == Ok::<AnswerModel, ErrorModel>(a@)
                && a@.wf(),
            r matches Err(er) ==> Self::spec_decode(*v) == Err::<AnswerModel, ErrorModel>(er@),
    {
        match v {
            Value::Object(pairs) => {
                let completion = match field_string(pairs, "completion") {
                    Ok(completion) => completion,
                    Err(e) => { return Err(e); },
                };
                let av = match field_value(pairs, "answers") {
                    Ok(av) => av,
                    Err(e) => { return Err(e); },
                };
                let answers = match av {
                    Value::Array(elems) => match decode_answers(elems) {
                        Ok(answers) => answers,
                        Err(e) => { return Err(e); },
                    },
                    _ => {
                        return Err(
                            DecodeError::TypeMismatch {
                                path: String::from_str("answers"),
                                expected: String::from_str("array"),
                                actual: String::from_str(kind_name_str(av)),
                            },
                        );
                    },
                };
                let ev = match field_value(pairs, "engine") {
                    Ok(ev) => ev,
                    Err(e) => { return Err(e); },
                };
                let engine = match EngineId::decode(ev) {
                    Ok(engine) => engine,
                    Err(e) => { return Err(e.prefixed("engine")); },
                };
                let sv = match field_value(pairs, "search_engine") {
                    Ok(sv) => sv,
                    Err(e) => { return Err(e); },
                };
                let search_engine = match EngineId::decode(sv) {
                    Ok(search_engine) => search_engine,
                    Err(e) => { return Err(e.prefixed("search_engine")); },
                };
                let dv = match field_value(pairs, "selectedDocuments") {
                    Ok(dv) => dv,
                    Err(e) => { return Err(e); },
                };
                let selected_documents = match dv {
                    Value::Object(dpairs) => match decode_docs(dpairs) {
                        Ok(selected_documents) => selected_documents,
                        Err(e) => { return Err(e); },
                    },
                    _ => {
                        return Err(
                            DecodeError::TypeMismatch {
                                path: String::from_str("selectedDocuments"),
                                expected: String::from_str("object"),
                                actual: String::from_str(kind_name_str(dv)),
                            },
                        );
                    },
                };
                Ok(Answer { completion, answers, engine, search_engine, selected_documents })
            },
            _ => Err(
                DecodeError::TypeMismatch {
                    path: String::new(),
                    expected: String::from_str("object"),
                    actual: String::from_str(kind_name_str(v)),
                },
            ),
        }
    }

    /// Builds the payload node that decodes back to this answer; the
    /// inverse used by test fixtures.
    pub fn encode(&self) -> (r: Value)
        requires
            self@.wf(),
        ensures
            Self::spec_decode(r) == Ok::<AnswerModel, ErrorModel>(self@),
    {
        let mut elems: Vec<Value> = Vec::new();
        let mut i: usize = 0;
        while i < self.answers.len()
            invariant
                i <= self.answers@.len(),
                elems@.len() == i,
                forall|j: int|
                    0 <= j < i ==> ((#[trigger] elems@[j]) matches Value::Text(s) && s@
                        == self.answers@[j]@),
            decreases self.answers@.len() - i,
        {
            elems.push(Value::Text(self.answers[i].clone()));
            i += 1;
        }
        proof {
            lemma_answers_all_ok(elems@, answers_view(self.answers@), 0);
            assert(answers_view(self.answers@).subrange(
                0,
                answers_view(self.answers@).len() as int,
            ) =~= answers_view(self.answers@));
        }
        let mut dpairs: Vec<(String, Value)> = Vec::new();
        let mut i: usize = 0;
        while i < self.selected_documents.len()
            invariant
                i <= self.selected_documents@.len(),
                dpairs@.len() == i,
                forall|j: int|
                    0 <= j < i ==> parse_i64_spec((#[trigger] dpairs@[j]).0@) == Some(
                        self.selected_documents@[j].0,
                    ),
                forall|j: int|
                    0 <= j < i ==> ((#[trigger] dpairs@[j]).1 matches Value::Text(s) && s@
                        == self.selected_documents@[j].1@),
            decreases self.selected_documents@.len() - i,
        {
            let d = &self.selected_documents[i];
            let ks = i64_to_string(d.0);
            proof {
                lemma_parse_dec_i64(d.0);
            }
            dpairs.push((ks, Value::Text(d.1.clone())));
            i += 1;
        }
        proof {
            let ds = docs_view(self.selected_documents@);
            assert(forall|j: int|
                0 <= j < ds.len() ==> (#[trigger] ds[j]) == (
                self.selected_documents@[j].0,
                self.selected_documents@[j].1@,
            ));
            lemma_docs_all_fresh(dpairs@, ds, 0);
            assert(ds.subrange(0, 0) =~= Seq::<(i64, Seq<char>)>::empty());
        }
        let mut pairs: Vec<(String, Value)> = Vec::new();
        pairs.push((String::from_str("completion"), Value::Text(self.completion.clone())));
        pairs.push((String::from_str("answers"), Value::Array(elems)));
        pairs.push((String::from_str("engine"), self.engine.encode()));
        pairs.push((String::from_str("search_engine"), self.search_engine.encode()));
        pairs.push((String::from_str("selectedDocuments"), Value::Object(dpairs)));
        proof {
            lemma_answer_keys_distinct();
            let ps = pairs@;
            assert(crate::value::lookup_from(ps, "completion"@, 0) == Some(ps[0].1));
            assert(crate::value::lookup_from(ps, "answers"@, 0) == crate::value::lookup_from(
                ps,
                "answers"@,
                1,
            ));
            assert(crate::value::lookup_from(ps, "answers"@, 1) == Some(ps[1].1));
            assert(crate::value::lookup_from(ps, "engine"@, 0) == crate::value::lookup_from(
                ps,
                "engine"@,
                1,
            ));
            assert(crate::value::lookup_from(ps, "engine"@, 1) == crate::value::lookup_from(
                ps,
                "engine"@,
                2,
            ));
            assert(crate::value::lookup_from(ps, "engine"@, 2) == Some(ps[2].1));
            assert(crate::value::lookup_from(ps, "search_engine"@, 0) == crate::value::lookup_from(
                ps,
                "search_engine"@,
                1,
            ));
            assert(crate::value::lookup_from(ps, "search_engine"@, 1) == crate::value::lookup_from(
                ps,
                "search_engine"@,
                2,
            ));
            assert(crate::value::lookup_from(ps, "search_engine"@, 2) == crate::value::lookup_from(
                ps,
                "search_engine"@,
                3,
            ));
            assert(crate::value::lookup_from(ps, "search_engine"@, 3) == Some(ps[3].1));
            assert(crate::value::lookup_from(ps, "selectedDocuments"@, 0)
                == crate::value::lookup_from(ps, "selectedDocuments"@, 1));
            assert(crate::value::lookup_from(ps, "selectedDocuments"@, 1)
                == crate::value::lookup_from(ps, "selectedDocuments"@, 2));
            assert(crate::value::lookup_from(ps, "selectedDocuments"@, 2)
                == crate::value::lookup_from(ps, "selectedDocuments"@, 3));
            assert(crate::value::lookup_from(ps, "selectedDocuments"@, 3)
                == crate::value::lookup_from(ps, "selectedDocuments"@, 4));
            assert(crate::value::lookup_from(ps, "selectedDocuments"@, 4) == Some(ps[4].1));
        }
        Value::Object(pairs)
    }
}

} // verus!
