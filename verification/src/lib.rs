//! Real-time streaming buffer, windowed-inference scheduler and text
//! validation for speech recognition sessions.
//!
//! Audio arrives in small chunks and is kept in a bounded buffer
//! ([`buffer`]). A window policy decides when the next overlapping window
//! is due ([`scheduler`]); a dispatcher lets at most one window of a
//! session be with the recognition backend at a time and counts every
//! attempt ([`dispatcher`], [`stats`]). Recognised text is normalised and
//! compared with the text that was expected ([`validation`]). Sessions
//! live in a registry under identifiers of the caller's choosing
//! ([`flutter_api`]).
//!
//! The recognition backend runs outside this library: a session hands out
//! a request, the caller runs the backend on it and reports the outcome.
//! Durations are whole milliseconds and scores are exact fractions, so
//! that every result is the same on every machine.

pub mod buffer;
pub mod dictionary;
pub mod dispatcher;
pub mod error;
pub mod flutter_api;
pub mod flutter_transcriber;
pub mod mock;
pub mod quran_integration;
pub mod realtime_transcriber;
pub mod scheduler;
pub mod sliding_window;
pub mod stats;
pub mod text;
pub mod timing;
pub mod transcript;
pub mod validation;
pub mod wav;

pub use crate::dictionary::validate_word;
pub use crate::error::WhisperError;
pub use crate::flutter_api::{
    FlutterTranscriberApi, FrbTranscriberConfig, HealthReport, TranscriberInstance,
};
pub use crate::quran_integration::{
    ExternalValidationInterface, FrbNextAyahInfo, FrbQuranSessionConfig, FrbQuranValidation,
    FrbTranscriptionWithQuranValidation, IntegratedFlutterApi,
};
