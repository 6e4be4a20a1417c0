//! Round trips: for every entity kind, decoding the encoded form of a
//! valid entity gives the entity back.

use openai_models::answer::Answer;
use openai_models::classification::{Classification, Example, Source};
use openai_models::completion::{Choice, Completion, FinishReason};
use openai_models::engine::EngineId;
use openai_models::file::File;

#[test]
fn engine_id_round_trips() {
    let ids = vec![
        EngineId::Ada,
        EngineId::Babbage,
        EngineId::Curie,
        EngineId::Davinci,
        EngineId::Other("content-filter-alpha-c4".to_string()),
        EngineId::Other("".to_string()),
    ];
    for id in ids {
        assert_eq!(EngineId::decode(&id.encode()), Ok(id));
    }
}

#[test]
fn completion_round_trips() {
    let c = Completion {
        id: "cmpl-42".to_string(),
        choices: vec![
            Choice {
                text: "one".to_string(),
                index: 0,
                finish_reason: FinishReason::Stop,
            },
            Choice {
                text: "two".to_string(),
                index: 1,
                finish_reason: FinishReason::Length,
            },
            Choice {
                text: "three".to_string(),
                index: 2,
                finish_reason: FinishReason::Other("content_filter".to_string()),
            },
        ],
        created: 1609459200,
        engine: EngineId::Davinci,
    };
    assert_eq!(Completion::decode(&c.encode()), Ok(c));
}

#[test]
fn empty_completion_round_trips() {
    let c = Completion {
        id: "".to_string(),
        choices: vec![],
        created: 0,
        engine: EngineId::Other("x".to_string()),
    };
    assert_eq!(Completion::decode(&c.encode()), Ok(c));
}

#[test]
fn classification_round_trips() {
    let c = Classification {
        completion: "label: spam".to_string(),
        label: "spam".to_string(),
        engine: EngineId::Curie,
        search_engine: EngineId::Ada,
        example: Example {
            source: Source::Document(7),
            label: "spam".to_string(),
            text: "buy now".to_string(),
        },
    };
    assert_eq!(Classification::decode(&c.encode()), Ok(c));
}

#[test]
fn classification_with_file_source_round_trips() {
    let c = Classification {
        completion: "c".to_string(),
        label: "l".to_string(),
        engine: EngineId::Other("gpt-next".to_string()),
        search_engine: EngineId::Babbage,
        example: Example {
            source: Source::File(File {
                id: "file-a".to_string(),
                filename: "corpus.jsonl".to_string(),
                size: 123456,
                created: 1000,
            }),
            label: "pos".to_string(),
            text: "great".to_string(),
        },
    };
    assert_eq!(Classification::decode(&c.encode()), Ok(c));
}

#[test]
fn answer_round_trips() {
    let a = Answer {
        completion: "The answer is 42.".to_string(),
        answers: vec!["42".to_string(), "forty-two".to_string()],
        engine: EngineId::Curie,
        search_engine: EngineId::Ada,
        selected_documents: vec![
            (3, "doc three".to_string()),
            (-7, "doc minus seven".to_string()),
            (0, "doc zero".to_string()),
            (i64::MAX, "doc max".to_string()),
            (i64::MIN, "doc min".to_string()),
        ],
    };
    assert_eq!(Answer::decode(&a.encode()), Ok(a));
}

#[test]
fn empty_answer_round_trips() {
    let a = Answer {
        completion: "".to_string(),
        answers: vec![],
        engine: EngineId::Ada,
        search_engine: EngineId::Ada,
        selected_documents: vec![],
    };
    assert_eq!(Answer::decode(&a.encode()), Ok(a));
}

#[test]
fn source_round_trips() {
    let sources = vec![
        Source::Document(0),
        Source::Document(u64::MAX),
        Source::File(File {
            id: "f".to_string(),
            filename: "n".to_string(),
            size: 1,
            created: 2,
        }),
    ];
    for s in sources {
        assert_eq!(Source::decode(&s.encode()), Ok(s));
    }
}
