//! Engines describe and provide access to the models available in the
//! API. An [`EngineId`] is a closed-with-escape enumeration: the named
//! engines plus a catch-all variant that preserves an unrecognized
//! engine name, so decoding an engine name never fails.

use vstd::prelude::*;

verus! {

use crate::error::{DecodeError, ErrorModel, spec_prefixed};
use crate::fields::{
    field_bool, field_bool_spec, field_opt_u64, field_opt_u64_spec, field_string,
    field_string_spec, field_value, field_value_spec,
};
use crate::text::{dec_digits, str_eq, u64_to_string};
use crate::value::{Value, kind_name, kind_name_str};
use vstd::string::StringExecFns;

/// A unique identifier for an engine.
#[derive(Debug, PartialEq, Eq, Clone)]
pub enum EngineId {
    /// The fastest model: parsing, simple classification, keywords.
    Ada,
    /// Straightforward tasks and semantic-search ranking.
    Babbage,
    /// Powerful yet fast: nuanced classification, summarization, Q&A.
    Curie,
    /// The most capable engine.
    Davinci,
    /// An engine name this library does not know, kept as received.
    Other(String),
}

/// The mathematical shape of an [`EngineId`].
pub enum EngineIdModel {
    Ada,
    Babbage,
    Curie,
    Davinci,
    Other(Seq<char>),
}

impl View for EngineId {
    type V = EngineIdModel;

    open spec fn view(&self) -> EngineIdModel {
        match self {
            EngineId::Ada => EngineIdModel::Ada,
            EngineId::Babbage => EngineIdModel::Babbage,
            EngineId::Curie => EngineIdModel::Curie,
            EngineId::Davinci => EngineIdModel::Davinci,
            EngineId::Other(s) => EngineIdModel::Other(s@),
        }
    }
}

/// Whether a string is one of the named engines' wire names.
pub open spec fn is_known_engine_name(s: Seq<char>) -> bool {
    s == "ada"@ || s == "babbage"@ || s == "curie"@ || s == "davinci"@
}

impl EngineIdModel {
    /// The catch-all variant only ever carries a name that no named
    /// variant claims.
    pub open spec fn wf(self) -> bool {
        match self {
            EngineIdModel::Other(s) => !is_known_engine_name(s),
            _ => true,
        }
    }

    /// The engine identifier a wire name denotes; unknown names go to
    /// the catch-all variant unchanged.
    pub open spec fn of_name(s: Seq<char>) -> EngineIdModel {
        if s == "ada"@ {
            EngineIdModel::Ada
        } else if s == "babbage"@ {
            EngineIdModel::Babbage
        } else if s == "curie"@ {
            EngineIdModel::Curie
        } else if s == "davinci"@ {
            EngineIdModel::Davinci
        } else {
            EngineIdModel::Other(s)
        }
    }

    /// The stable rendering of an engine identifier: the wire name it
    /// decodes from.
    pub open spec fn display(self) -> Seq<char> {
        match self {
            EngineIdModel::Ada => "ada"@,
            EngineIdModel::Babbage => "babbage"@,
            EngineIdModel::Curie => "curie"@,
            EngineIdModel::Davinci => "davinci"@,
            EngineIdModel::Other(s) => s,
        }
    }
}

impl EngineId {
    /// What decoding a payload node into an engine identifier yields:
    /// any string succeeds, anything else is a type mismatch.
    pub open spec fn spec_decode(v: Value) -> Result<EngineIdModel, ErrorModel> {
        match v {
            Value::Text(s) => Ok(EngineIdModel::of_name(s@)),
            _ => Err(
                ErrorModel::TypeMismatch {
                    path: Seq::<char>::empty(),
                    expected: "string"@,
                    actual: kind_name(v),
                },
            ),
        }
    }

    /// Decodes an engine identifier from a payload node.
    pub fn decode(v: &Value) -> (r: Result<EngineId, DecodeError>)
        ensures
            r matches Ok(e) ==> Self::spec_decode(*v) == Ok::<EngineIdModel, ErrorModel>(e@)
                && e@.wf(),
            r matches Err(er) ==> Self::spec_decode(*v) == Err::<EngineIdModel, ErrorModel>(er@),
    {
        match v {
            Value::Text(s) => {
                if str_eq(s.as_str(), "ada") {
                    Ok(EngineId::Ada)
                } else if str_eq(s.as_str(), "babbage") {
                    Ok(EngineId::Babbage)
                } else if str_eq(s.as_str(), "curie") {
                    Ok(EngineId::Curie)
                } else if str_eq(s.as_str(), "davinci") {
                    Ok(EngineId::Davinci)
                } else {
                    Ok(EngineId::Other(s.clone()))
                }
            },
            _ => Err(
                DecodeError::TypeMismatch {
                    path: String::new(),
                    expected: String::from_str("string"),
                    actual: String::from_str(kind_name_str(v)),
                },
            ),
        }
    }

    /// Builds the payload node that decodes back to this identifier;
    /// the inverse used by test fixtures.
    pub fn encode(&self) -> (r: Value)
        requires
            self@.wf(),
        ensures
            Self::spec_decode(r) == Ok::<EngineIdModel, ErrorModel>(self@),
    {
        proof {
            lemma_engine_names_distinct();
            assert(EngineIdModel::of_name("ada"@) == EngineIdModel::Ada);
            assert(EngineIdModel::of_name("babbage"@) == EngineIdModel::Babbage);
            assert(EngineIdModel::of_name("curie"@) == EngineIdModel::Curie);
            assert(EngineIdModel::of_name("davinci"@) == EngineIdModel::Davinci);
        }
        match self {
            EngineId::Ada => Value::Text(String::from_str("ada")),
            EngineId::Babbage => Value::Text(String::from_str("babbage")),
            EngineId::Curie => Value::Text(String::from_str("curie")),
            EngineId::Davinci => Value::Text(String::from_str("davinci")),
            EngineId::Other(s) => Value::Text(s.clone()),
        }
    }

    /// Renders the identifier as the wire name it stands for.
    pub fn to_display_string(&self) -> (r: String)
        ensures
            r@ == self@.display(),
    {
        match self {
            EngineId::Ada => String::from_str("ada"),
            EngineId::Babbage => String::from_str("babbage"),
            EngineId::Curie => String::from_str("curie"),
            EngineId::Davinci => String::from_str("davinci"),
            EngineId::Other(s) => s.clone(),
        }
    }
}

proof fn lemma_engine_names_distinct()
    ensures
        "ada"@.len() == 3,
        "babbage"@.len() == 7,
        "curie"@.len() == 5,
        "davinci"@.len() == 7,
        "ada"@ != "babbage"@,
        "ada"@ != "curie"@,
        "ada"@ != "davinci"@,
        "babbage"@ != "curie"@,
        "babbage"@ != "davinci"@,
        "curie"@ != "davinci"@,
{
    reveal_strlit("ada");
    reveal_strlit("babbage");
    reveal_strlit("curie");
    reveal_strlit("davinci");
    assert("babbage"@[0] == 'b');
    assert("davinci"@[0] == 'd');
}

/// Decoding an engine name never fails, and its rendering recovers the
/// name that was decoded: unknown names survive in the catch-all
/// variant exactly as received.
pub proof fn lemma_engine_id_decode_total(s: String)
    ensures
        EngineId::spec_decode(Value::Text(s)) matches Ok(m) && m.display() == s@ && m.wf(),
        !is_known_engine_name(s@) ==> EngineId::spec_decode(Value::Text(s)) == Ok::<
            EngineIdModel,
            ErrorModel,
        >(EngineIdModel::Other(s@)),
{
}

/// An engine offered by the API.
#[derive(Debug, PartialEq, Eq, Clone)]
pub struct Engine {
    /// The engine's identifier.
    pub id: EngineId,
    /// Who owns the engine.
    pub owner: String,
    /// Whether the engine is ready to serve requests.
    pub ready: bool,
    created: Option<u64>,
}

/// The mathematical shape of an [`Engine`].
pub struct EngineModel {
    pub id: EngineIdModel,
    pub owner: Seq<char>,
    pub ready: bool,
    pub created: Option<u64>,
}

impl View for Engine {
    type V = EngineModel;

    closed spec fn view(&self) -> EngineModel {
        EngineModel { id: self.id@, owner: self.owner@, ready: self.ready, created: self.created }
    }
}

impl EngineModel {
    /// Validity of a decoded engine.
    pub open spec fn wf(self) -> bool {
        self.id.wf()
    }

    /// The stable rendering of an engine: all fields in declaration
    /// order.
    pub open spec fn display(self) -> Seq<char> {
        "("@ + self.id.display() + ", "@ + self.owner + ", "@ + (
        if self.ready {
            "true"@
        } else {
            "false"@
        }) + ", "@ + (match self.created {
            Option::Some(n) => dec_digits(n as nat),
            Option::None => "none"@,
        }) + ")"@
    }
}

impl Engine {
    /// What decoding a payload node into an engine yields: an object
    /// with a required `id` (an engine name), `owner` (a string) and
    /// `ready` (a boolean), and an optional integer `created`
    /// timestamp.
    pub open spec fn spec_decode(v: Value) -> Result<EngineModel, ErrorModel> {
        match v {
            Value::Object(pairs) => {
                match field_value_spec(pairs@, "id"@) {
                    Err(e) => Err(e),
                    Ok(idv) => match EngineId::spec_decode(idv) {
                        Err(e) => Err(spec_prefixed("id"@, e)),
                        Ok(id) => match field_string_spec(pairs@, "owner"@) {
                            Err(e) => Err(e),
                            Ok(owner) => match field_bool_spec(pairs@, "ready"@) {
                                Err(e) => Err(e),
                                Ok(ready) => match field_opt_u64_spec(pairs@, "created"@) {
                                    Err(e) => Err(e),
                                    Ok(created) => Ok(EngineModel { id, owner, ready, created }),
                                },
                            },
                        },
                    },
                }
            },
            _ => Err(
                ErrorModel::TypeMismatch {
                    path: Seq::<char>::empty(),
                    expected: "object"@,
                    actual: kind_name(v),
                },
            ),
        }
    }

    /// Decodes an engine from a payload node.
    pub fn decode(v: &Value) -> (r: Result<Engine, DecodeError>)
        ensures
            r matches Ok(e) ==> Self::spec_decode(*v) == Ok::<EngineModel, ErrorModel>(e@)
                && e@.wf(),
            r matches Err(er) ==> Self::spec_decode(*v) == Err::<EngineModel, ErrorModel>(er@),
    {
        match v {
            Value::Object(pairs) => {
                let idv = match field_value(pairs, "id") {
                    Ok(idv) => idv,
                    Err(e) => { return Err(e); },
                };
                let id = match EngineId::decode(idv) {
                    Ok(id) => id,
                    Err(e) => { return Err(e.prefixed("id")); },
                };
                let owner = match field_string(pairs, "owner") {
                    Ok(owner) => owner,
                    Err(e) => { return Err(e); },
                };
                let ready = match field_bool(pairs, "ready") {
                    Ok(ready) => ready,
                    Err(e) => { return Err(e); },
                };
                let created = match field_opt_u64(pairs, "created") {
                    Ok(created) => created,
                    Err(e) => { return Err(e); },
                };
                Ok(Engine { id, owner, ready, created })
            },
            _ => Err(
                DecodeError::TypeMismatch {
                    path: String::new(),
                    expected: String::from_str("object"),
                    actual: String::from_str(kind_name_str(v)),
                },
            ),
        }
    }

    /// Builds the payload node that decodes back to this engine; the
    /// inverse used by test fixtures.
    pub fn encode(&self) -> (r: Value)
        requires
            self@.wf(),
        ensures
            Self::spec_decode(r) == Ok::<EngineModel, ErrorModel>(self@),
    {
        let mut pairs: Vec<(String, Value)> = Vec::new();
        pairs.push((String::from_str("id"), self.id.encode()));
        pairs.push((String::from_str("owner"), Value::Text(self.owner.clone())));
        pairs.push((String::from_str("ready"), Value::Bool(self.ready)));
        match self.created {
            Option::Some(n) => pairs.push((String::from_str("created"), Value::Integer(n))),
            Option::None => {},
        }
        proof {
            reveal_strlit("id");
            reveal_strlit("owner");
            reveal_strlit("ready");
            reveal_strlit("created");
            assert("id"@.len() == 2);
            assert("owner"@.len() == 5);
            assert("ready"@.len() == 5);
            assert("created"@.len() == 7);
            assert("owner"@[0] == 'o');
            assert("ready"@[0] == 'r');
            assert("owner"@ != "ready"@);
            assert("id"@ != "owner"@ && "id"@ != "ready"@ && "id"@ != "created"@);
            assert("owner"@ != "created"@ && "ready"@ != "created"@);
            let ps = pairs@;
            assert(crate::value::lookup_from(ps, "id"@, 0) == Some(ps[0].1));
            assert(crate::value::lookup_from(ps, "owner"@, 0) == crate::value::lookup_from(
                ps,
                "owner"@,
                1,
            ));
            assert(crate::value::lookup_from(ps, "owner"@, 1) == Some(ps[1].1));
            assert(crate::value::lookup_from(ps, "ready"@, 0) == crate::value::lookup_from(
                ps,
                "ready"@,
                1,
            ));
            assert(crate::value::lookup_from(ps, "ready"@, 1) == crate::value::lookup_from(
                ps,
                "ready"@,
                2,
            ));
            assert(crate::value::lookup_from(ps, "ready"@, 2) == Some(ps[2].1));
            if self.created is Some {
                assert(crate::value::lookup_from(ps, "created"@, 0) == crate::value::lookup_from(
                    ps,
                    "created"@,
                    1,
                ));
                assert(crate::value::lookup_from(ps, "created"@, 1) == crate::value::lookup_from(
                    ps,
                    "created"@,
                    2,
                ));
                assert(crate::value::lookup_from(ps, "created"@, 2) == crate::value::lookup_from(
                    ps,
                    "created"@,
                    3,
                ));
                assert(crate::value::lookup_from(ps, "created"@, 3) == Some(ps[3].1));
            } else {
                assert(crate::value::lookup_from(ps, "created"@, 0) == crate::value::lookup_from(
                    ps,
                    "created"@,
                    1,
                ));
                assert(crate::value::lookup_from(ps, "created"@, 1) == crate::value::lookup_from(
                    ps,
                    "created"@,
                    2,
                ));
                assert(crate::value::lookup_from(ps, "created"@, 2) == crate::value::lookup_from(
                    ps,
                    "created"@,
                    3,
                ));
                assert(crate::value::lookup_from(ps, "created"@, 3) is None);
            }
        }
        Value::Object(pairs)
    }

    /// Renders the engine's fields in declaration order.
    pub fn to_display_string(&self) -> (r: String)
        ensures
            r@ == self@.display(),
    {
        let mut s = String::from_str("(");
        let id = self.id.to_display_string();
        s.append(id.as_str());
        s.append(", ");
        s.append(self.owner.as_str());
        s.append(", ");
        if self.ready {
            s.append("true");
        } else {
            s.append("false");
        }
        s.append(", ");
        match &self.created {
            Option::Some(n) => {
                let d = u64_to_string(*n);
                s.append(d.as_str());
            },
            Option::None => s.append("none"),
        }
        s.append(")");
        s
    }
}

} // verus!
