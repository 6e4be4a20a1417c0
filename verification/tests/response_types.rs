//! Decode behaviour of the response entities: completions,
//! classifications and answers.

use openai_models::answer::Answer;
use openai_models::classification::{Classification, Example, Source};
use openai_models::completion::{Choice, Completion, FinishReason};
use openai_models::engine::EngineId;
use openai_models::error::DecodeError;
use openai_models::file::File;
use openai_models::value::Value;

fn text(s: &str) -> Value {
    Value::Text(s.to_string())
}

fn obj(entries: Vec<(&str, Value)>) -> Value {
    Value::Object(entries.into_iter().map(|(k, v)| (k.to_string(), v)).collect())
}

fn choice(t: &str, index: u64, reason: &str) -> Value {
    obj(vec![
        ("text", text(t)),
        ("index", Value::Integer(index)),
        ("finish_reason", text(reason)),
    ])
}

fn completion_payload(choices: Vec<Value>) -> Value {
    obj(vec![
        ("id", text("cmpl-1")),
        ("choices", Value::Array(choices)),
        ("created", Value::Integer(1234)),
        ("engine", text("davinci")),
    ])
}

#[test]
fn completion_decodes_all_fields() {
    let payload = completion_payload(vec![choice("hello", 0, "stop")]);
    let c = Completion::decode(&payload).unwrap();
    assert_eq!(c.id, "cmpl-1");
    assert_eq!(c.created, 1234);
    assert_eq!(c.engine, EngineId::Davinci);
    assert_eq!(
        c.choices,
        vec![Choice {
            text: "hello".to_string(),
            index: 0,
            finish_reason: FinishReason::Stop,
        }]
    );
}

#[test]
fn choices_preserve_payload_order() {
    let payload = completion_payload(vec![
        choice("a", 0, "stop"),
        choice("b", 1, "length"),
        choice("c", 2, "stop"),
    ]);
    let c = Completion::decode(&payload).unwrap();
    let texts: Vec<&str> = c.choices.iter().map(|ch| ch.text.as_str()).collect();
    assert_eq!(texts, vec!["a", "b", "c"]);
    let indices: Vec<u64> = c.choices.iter().map(|ch| ch.index).collect();
    assert_eq!(indices, vec![0, 1, 2]);
}

#[test]
fn choices_are_not_resorted_by_index() {
    let payload = completion_payload(vec![
        choice("last", 2, "stop"),
        choice("middle", 1, "stop"),
        choice("first", 0, "stop"),
    ]);
    let c = Completion::decode(&payload).unwrap();
    let indices: Vec<u64> = c.choices.iter().map(|ch| ch.index).collect();
    assert_eq!(indices, vec![2, 1, 0]);
}

#[test]
fn completion_missing_id() {
    let payload = obj(vec![
        ("choices", Value::Array(vec![choice("a", 0, "stop")])),
        ("created", Value::Integer(1)),
        ("engine", text("ada")),
    ]);
    assert_eq!(
        Completion::decode(&payload),
        Err(DecodeError::MissingField { path: "id".to_string() })
    );
}

#[test]
fn completion_bad_choice_is_located() {
    let bad = obj(vec![
        ("text", text("b")),
        ("index", Value::Integer(1)),
        ("finish_reason", Value::Integer(7)),
    ]);
    let payload = completion_payload(vec![choice("a", 0, "stop"), bad]);
    assert_eq!(
        Completion::decode(&payload),
        Err(DecodeError::TypeMismatch {
            path: "choices[1].finish_reason".to_string(),
            expected: "string".to_string(),
            actual: "integer".to_string(),
        })
    );
}

#[test]
fn unknown_finish_reason_is_preserved() {
    let payload = completion_payload(vec![choice("a", 0, "content_filter")]);
    let c = Completion::decode(&payload).unwrap();
    assert_eq!(c.choices[0].finish_reason, FinishReason::Other("content_filter".to_string()));
}

#[test]
fn completion_rejects_non_object() {
    assert_eq!(
        Completion::decode(&text("nope")),
        Err(DecodeError::TypeMismatch {
            path: "".to_string(),
            expected: "object".to_string(),
            actual: "string".to_string(),
        })
    );
}

fn example_payload() -> Value {
    obj(vec![
        ("source", obj(vec![("document", Value::Integer(0))])),
        ("label", text("good")),
        ("text", text("sample")),
    ])
}

fn classification_payload(example: Value) -> Value {
    obj(vec![
        ("completion", text("label: good")),
        ("label", text("good")),
        ("engine", text("curie")),
        ("search_engine", text("ada")),
        ("example", example),
    ])
}

#[test]
fn classification_decodes_all_fields() {
    let c = Classification::decode(&classification_payload(example_payload())).unwrap();
    assert_eq!(c.completion, "label: good");
    assert_eq!(c.label, "good");
    assert_eq!(c.engine, EngineId::Curie);
    assert_eq!(c.search_engine, EngineId::Ada);
    assert_eq!(c.example.source, Source::Document(0));
    assert_eq!(c.example.label, "good");
    assert_eq!(c.example.text, "sample");
}

#[test]
fn classification_display_is_stable() {
    let c = Classification::decode(&classification_payload(example_payload())).unwrap();
    assert_eq!(
        c.to_display_string(),
        "(label: good, good, curie, ada, (document(0), good, sample))"
    );
}

#[test]
fn source_with_file_decodes() {
    let file = obj(vec![
        ("id", text("file-1")),
        ("filename", text("doc.txt")),
        ("size", Value::Integer(10)),
        ("created", Value::Integer(7)),
    ]);
    let s = Source::decode(&obj(vec![("file", file)])).unwrap();
    assert_eq!(
        s,
        Source::File(File {
            id: "file-1".to_string(),
            filename: "doc.txt".to_string(),
            size: 10,
            created: 7,
        })
    );
    assert_eq!(s.to_display_string(), "file((file-1, doc.txt, 10, 7))");
}

#[test]
fn source_with_both_tags_conflicts() {
    let file = obj(vec![
        ("id", text("f")),
        ("filename", text("n")),
        ("size", Value::Integer(1)),
        ("created", Value::Integer(1)),
    ]);
    let payload = obj(vec![("document", Value::Integer(2)), ("file", file)]);
    assert_eq!(
        Source::decode(&payload),
        Err(DecodeError::ConflictingOrMissingVariant { path: "source".to_string() })
    );
}

#[test]
fn source_with_neither_tag_conflicts() {
    assert_eq!(
        Source::decode(&obj(vec![])),
        Err(DecodeError::ConflictingOrMissingVariant { path: "source".to_string() })
    );
}

#[test]
fn source_error_inside_example_is_located() {
    let payload = classification_payload(obj(vec![
        ("source", obj(vec![])),
        ("label", text("l")),
        ("text", text("t")),
    ]));
    assert_eq!(
        Classification::decode(&payload),
        Err(DecodeError::ConflictingOrMissingVariant { path: "example.source".to_string() })
    );
}

fn answer_payload(selected: Vec<(&str, Value)>) -> Value {
    obj(vec![
        ("completion", text("Paris")),
        ("answers", Value::Array(vec![text("Paris"), text("Lyon")])),
        ("engine", text("curie")),
        ("search_engine", text("ada")),
        ("selectedDocuments", obj(selected)),
    ])
}

#[test]
fn answer_decodes_all_fields() {
    let payload = answer_payload(vec![("0", text("doc a")), ("-3", text("doc b"))]);
    let a = Answer::decode(&payload).unwrap();
    assert_eq!(a.completion, "Paris");
    assert_eq!(a.answers, vec!["Paris".to_string(), "Lyon".to_string()]);
    assert_eq!(a.engine, EngineId::Curie);
    assert_eq!(a.search_engine, EngineId::Ada);
    assert_eq!(
        a.selected_documents,
        vec![(0, "doc a".to_string()), (-3, "doc b".to_string())]
    );
}

#[test]
fn answer_duplicate_key_overwrites() {
    let payload = answer_payload(vec![
        ("1", text("first")),
        ("2", text("other")),
        ("1", text("second")),
    ]);
    let a = Answer::decode(&payload).unwrap();
    assert_eq!(
        a.selected_documents,
        vec![(1, "second".to_string()), (2, "other".to_string())]
    );
}

#[test]
fn answer_rejects_non_integer_key() {
    let payload = answer_payload(vec![("doc", text("a"))]);
    assert_eq!(
        Answer::decode(&payload),
        Err(DecodeError::TypeMismatch {
            path: "selectedDocuments".to_string(),
            expected: "integer key".to_string(),
            actual: "doc".to_string(),
        })
    );
}

#[test]
fn answer_rejects_non_string_document() {
    let payload = answer_payload(vec![("3", Value::Integer(9))]);
    assert_eq!(
        Answer::decode(&payload),
        Err(DecodeError::TypeMismatch {
            path: "selectedDocuments.3".to_string(),
            expected: "string".to_string(),
            actual: "integer".to_string(),
        })
    );
}

#[test]
fn answer_bad_answer_element_is_located() {
    let payload = obj(vec![
        ("completion", text("x")),
        ("answers", Value::Array(vec![text("ok"), Value::Bool(true)])),
        ("engine", text("ada")),
        ("search_engine", text("ada")),
        ("selectedDocuments", obj(vec![])),
    ]);
    assert_eq!(
        Answer::decode(&payload),
        Err(DecodeError::TypeMismatch {
            path: "answers[1]".to_string(),
            expected: "string".to_string(),
            actual: "boolean".to_string(),
        })
    );
}

#[test]
fn answer_missing_selected_documents_uses_wire_name() {
    let payload = obj(vec![
        ("completion", text("x")),
        ("answers", Value::Array(vec![])),
        ("engine", text("ada")),
        ("search_engine", text("ada")),
    ]);
    assert_eq!(
        Answer::decode(&payload),
        Err(DecodeError::MissingField { path: "selectedDocuments".to_string() })
    );
}

#[test]
fn answer_extreme_keys_decode() {
    let payload = answer_payload(vec![
        ("9223372036854775807", text("max")),
        ("-9223372036854775808", text("min")),
    ]);
    let a = Answer::decode(&payload).unwrap();
    assert_eq!(
        a.selected_documents,
        vec![(i64::MAX, "max".to_string()), (i64::MIN, "min".to_string())]
    );
}

#[test]
fn answer_out_of_range_key_is_rejected() {
    let payload = answer_payload(vec![("9223372036854775808", text("too big"))]);
    assert_eq!(
        Answer::decode(&payload),
        Err(DecodeError::TypeMismatch {
            path: "selectedDocuments".to_string(),
            expected: "integer key".to_string(),
            actual: "9223372036854775808".to_string(),
        })
    );
}
