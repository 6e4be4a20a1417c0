//! Decode behaviour of the supporting types: engine identifiers,
//! files and purposes.

use openai_models::engine::{Engine, EngineId};
use openai_models::error::DecodeError;
use openai_models::file::{File, Purpose};
use openai_models::value::Value;

fn text(s: &str) -> Value {
    Value::Text(s.to_string())
}

fn obj(entries: Vec<(&str, Value)>) -> Value {
    Value::Object(entries.into_iter().map(|(k, v)| (k.to_string(), v)).collect())
}

#[test]
fn engine_id_known_names() {
    assert_eq!(EngineId::decode(&text("ada")), Ok(EngineId::Ada));
    assert_eq!(EngineId::decode(&text("babbage")), Ok(EngineId::Babbage));
    assert_eq!(EngineId::decode(&text("curie")), Ok(EngineId::Curie));
    assert_eq!(EngineId::decode(&text("davinci")), Ok(EngineId::Davinci));
}

#[test]
fn engine_id_unknown_name_is_preserved() {
    let r = EngineId::decode(&text("davinci-instruct-beta"));
    assert_eq!(r, Ok(EngineId::Other("davinci-instruct-beta".to_string())));
}

#[test]
fn engine_id_decode_never_fails_on_strings() {
    for name in ["", "ADA", "gpt-4", "curie ", "search-babbage-doc"] {
        assert!(EngineId::decode(&text(name)).is_ok());
    }
}

#[test]
fn engine_id_display_recovers_the_name() {
    for name in ["ada", "babbage", "curie", "davinci", "weird-engine", ""] {
        let id = EngineId::decode(&text(name)).unwrap();
        assert_eq!(id.to_display_string(), name);
    }
}

#[test]
fn engine_id_rejects_non_strings() {
    assert_eq!(
        EngineId::decode(&Value::Integer(3)),
        Err(DecodeError::TypeMismatch {
            path: "".to_string(),
            expected: "string".to_string(),
            actual: "integer".to_string(),
        })
    );
}

#[test]
fn engine_decodes_all_fields() {
    let payload = obj(vec![
        ("id", text("curie")),
        ("owner", text("openai")),
        ("ready", Value::Bool(true)),
        ("created", Value::Integer(5)),
    ]);
    let e = Engine::decode(&payload).unwrap();
    assert_eq!(e.id, EngineId::Curie);
    assert_eq!(e.owner, "openai");
    assert!(e.ready);
    assert_eq!(e.to_display_string(), "(curie, openai, true, 5)");
}

#[test]
fn engine_created_is_optional() {
    let payload = obj(vec![
        ("id", text("ada")),
        ("owner", text("o")),
        ("ready", Value::Bool(false)),
    ]);
    let e = Engine::decode(&payload).unwrap();
    assert_eq!(e.to_display_string(), "(ada, o, false, none)");
}

#[test]
fn engine_missing_owner() {
    let payload = obj(vec![("id", text("ada")), ("ready", Value::Bool(true))]);
    assert_eq!(
        Engine::decode(&payload),
        Err(DecodeError::MissingField { path: "owner".to_string() })
    );
}

#[test]
fn engine_bad_id_path() {
    let payload = obj(vec![
        ("id", Value::Bool(true)),
        ("owner", text("o")),
        ("ready", Value::Bool(true)),
    ]);
    assert_eq!(
        Engine::decode(&payload),
        Err(DecodeError::TypeMismatch {
            path: "id".to_string(),
            expected: "string".to_string(),
            actual: "boolean".to_string(),
        })
    );
}

#[test]
fn engine_round_trip() {
    let payload = obj(vec![
        ("id", text("some-fine-tuned-model")),
        ("owner", text("me")),
        ("ready", Value::Bool(true)),
        ("created", Value::Integer(1609459200)),
    ]);
    let e = Engine::decode(&payload).unwrap();
    assert_eq!(Engine::decode(&e.encode()), Ok(e));
}

#[test]
fn purpose_known_names() {
    assert_eq!(Purpose::decode(&text("search")), Ok(Purpose::Search));
    assert_eq!(Purpose::decode(&text("answers")), Ok(Purpose::Answers));
    assert_eq!(Purpose::decode(&text("classifications")), Ok(Purpose::Classifications));
}

#[test]
fn purpose_is_a_closed_set() {
    for name in ["Search", "fine-tune", "", "answer", "classification"] {
        assert_eq!(
            Purpose::decode(&text(name)),
            Err(DecodeError::UnrecognizedClosedEnumValue {
                path: "".to_string(),
                value: name.to_string(),
            })
        );
    }
}

#[test]
fn purpose_rejects_non_strings() {
    assert_eq!(
        Purpose::decode(&Value::Array(vec![])),
        Err(DecodeError::TypeMismatch {
            path: "".to_string(),
            expected: "string".to_string(),
            actual: "array".to_string(),
        })
    );
}

#[test]
fn purpose_round_trip() {
    for p in [Purpose::Search, Purpose::Answers, Purpose::Classifications] {
        assert_eq!(Purpose::decode(&p.encode()), Ok(p));
    }
}

#[test]
fn file_decodes_all_fields() {
    let payload = obj(vec![
        ("id", text("file-123")),
        ("filename", text("notes.txt")),
        ("size", Value::Integer(2048)),
        ("created", Value::Integer(99)),
    ]);
    let f = File::decode(&payload).unwrap();
    assert_eq!(
        f,
        File {
            id: "file-123".to_string(),
            filename: "notes.txt".to_string(),
            size: 2048,
            created: 99,
        }
    );
    assert_eq!(f.to_display_string(), "(file-123, notes.txt, 2048, 99)");
}

#[test]
fn file_size_must_be_an_integer() {
    let payload = obj(vec![
        ("id", text("f")),
        ("filename", text("n")),
        ("size", text("big")),
        ("created", Value::Integer(0)),
    ]);
    assert_eq!(
        File::decode(&payload),
        Err(DecodeError::TypeMismatch {
            path: "size".to_string(),
            expected: "integer".to_string(),
            actual: "string".to_string(),
        })
    );
}

#[test]
fn file_round_trip() {
    let f = File {
        id: "file-9".to_string(),
        filename: "a b c".to_string(),
        size: u64::MAX,
        created: 0,
    };
    assert_eq!(File::decode(&f.encode()), Ok(f));
}
