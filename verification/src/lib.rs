//! Typed response models for a hosted natural-language API.
//!
//! The library defines the closed set of response entities the API can
//! return (completions, classifications, answers) together with the
//! supporting value types they share (engine identifiers, uploaded-file
//! references), and a decode layer that turns a loosely-typed payload
//! tree into those entities or into a structured decode error.

pub mod text;
pub mod value;
pub mod error;
pub mod fields;
pub mod engine;
pub mod file;
pub mod completion;
pub mod classification;
pub mod answer;

pub use engine::{Engine, EngineId};
pub use file::{File, Purpose};
pub use completion::{Completion, Choice, FinishReason};
pub use classification::{Classification, Example, Source};
pub use answer::Answer;
pub use value::Value;
pub use error::DecodeError;
