//! Streaming and batch speech transcription: audio windowing, token carry-over
//! between decodes, and transcript rendering, with the inference engine kept
//! outside the library.

pub mod text;
pub mod timestamp;
pub mod transcript;
pub mod engine;
pub mod batch;
pub mod rings;
pub mod capture;
pub mod history;
pub mod window;
pub mod session;
pub mod language;
pub mod model;

pub use language::Language;
pub use model::{Model, Size};
pub use transcript::{PartialTranscript, Transcript, Utternace};
