//! Serialises access to the recognition backend: at most one window of a
//! session is in flight, and every attempt is counted once.
//!
//! The backend itself runs outside this library. A dispatch hands out a
//! request; the caller runs the backend on it and reports the outcome.

use crate::error::WhisperError;
use crate::stats::ProcessingStats;
use crate::text::{chars_of, string_of};
use crate::transcript::{is_words_of, word_results, WordResult, DEFAULT_CONFIDENCE_PERMILLE};
use crate::validation::{spec_trim, trim_chars};
use vstd::prelude::*;
use vstd::string::StringExecFns;

verus! {

/// One window of samples on its way to the recognition backend.
pub struct DispatchRequest<T> {
    /// The window's samples, oldest first.
    pub samples: Vec<T>,
    /// Samples per second.
    pub sample_rate: u32,
    /// Language hint for the backend.
    pub language: Option<String>,
}

/// The text recognised in one window.
#[derive(Clone, Debug, PartialEq, Eq)]
pub struct TranscriptionResult {
    /// The recognised text without surrounding white space; empty for a
    /// silent window.
    pub text: String,
    pub start_time_ms: u64,
    pub end_time_ms: u64,
    pub confidence_permille: u32,
    /// The words of the text, each with its stretch of time.
    pub words: Vec<WordResult>,
    pub processing_time_ms: u64,
    /// The backend took less time than the window lasts.
    pub is_real_time: bool,
}

/// The busy flag, the language hint and the counters of one session.
pub struct InferenceDispatcher {
    /// A window is in flight.
    pub is_busy: bool,
    /// Language hint handed to the backend with every window.
    pub language: Option<String>,
    /// Counters of all attempts so far.
    pub stats: ProcessingStats,
}

/// The language hint as plain characters.
pub open spec fn language_view(language: Option<String>) -> Option<Seq<char>> {
    match language {
        Some(text) => Some(text@),
        None => None,
    }
}

/// What the caller gets for a backend answer `text` that took
/// `latency_ms` on a window of `window_duration_ms`.
pub open spec fn is_transcription_of(
    result: TranscriptionResult,
    text: Seq<char>,
    latency_ms: u64,
    window_duration_ms: u32,
) -> bool {
    &&& result.text@ == spec_trim(text)
    &&& result.start_time_ms == 0
    &&& result.end_time_ms == window_duration_ms
    &&& result.confidence_permille == DEFAULT_CONFIDENCE_PERMILLE
    &&& is_words_of(result.words@, spec_trim(text))
    &&& result.processing_time_ms == latency_ms
    &&& result.is_real_time == (latency_ms < window_duration_ms)
}

/// An attempt counts as successful where the backend returned text that
/// is more than white space.
pub open spec fn is_success(outcome: Result<String, String>) -> bool {
    outcome is Ok && spec_trim(outcome->Ok_0@).len() > 0
}

fn copy_language(language: &Option<String>) -> (copy: Option<String>)
    ensures
        language_view(copy) == language_view(*language),
{
    match language {
        Some(text) => Some(String::from_str(text.as_str())),
        None => None,
    }
}

impl InferenceDispatcher {
    /// The dispatcher after the outcome of the window in flight came in.
    pub open spec fn spec_complete(self, outcome: Result<String, String>, latency_ms: u64) -> Self {
        InferenceDispatcher {
            is_busy: false,
            stats: self.stats.spec_record(latency_ms, is_success(outcome)),
            ..self
        }
    }

    /// An idle dispatcher with all counters at zero.
    pub fn new(language: Option<String>, window_duration_ms: u32) -> (dispatcher: Self)
        ensures
            !dispatcher.is_busy,
            dispatcher.language == language,
            dispatcher.stats == ProcessingStats::spec_new(window_duration_ms),
    {
        InferenceDispatcher {
            is_busy: false,
            language,
            stats: ProcessingStats::new(window_duration_ms),
        }
    }

    /// Claims the backend for `window`. While a window is in flight the
    /// answer is `None` and nothing changes: the window is dropped, not
    /// queued. Otherwise the dispatcher turns busy and hands out the
    /// request for the backend.
    pub fn try_dispatch<T>(&mut self, window: Vec<T>, sample_rate: u32) -> (request: Option<
        DispatchRequest<T>,
    >)
        ensures
            old(self).is_busy ==> request is None && *final(self) == *old(self),
            !old(self).is_busy ==> {
                &&& request is Some
                &&& request->Some_0.samples == window
                &&& request->Some_0.sample_rate == sample_rate
                &&& language_view(request->Some_0.language) == language_view(old(self).language)
                &&& *final(self) == (InferenceDispatcher { is_busy: true, ..*old(self) })
            },
    {
        if self.is_busy {
            return None;
        }
        self.is_busy = true;
        Some(DispatchRequest { samples: window, sample_rate, language: copy_language(&self.language) })
    }

    /// Takes in the outcome of the window in flight, which took
    /// `latency_ms`. The dispatcher turns idle whatever the outcome, and
    /// the attempt is counted once.
    ///
    /// Fails with `InvalidParameter` exactly when no window is in flight,
    /// and then changes nothing; with `ProcessingError`, carrying the
    /// backend's words, exactly when the backend failed.
    pub fn complete(&mut self, outcome: Result<String, String>, latency_ms: u64) -> (result: Result<
        TranscriptionResult,
        WhisperError,
    >)
        ensures
            !old(self).is_busy ==> *final(self) == *old(self) && result is Err
                && result->Err_0 is InvalidParameter,
            old(self).is_busy ==> *final(self) == old(self).spec_complete(outcome, latency_ms),
            old(self).is_busy && outcome is Err ==> result is Err
                && result->Err_0 is ProcessingError && result->Err_0.spec_detail()
                == outcome->Err_0@,
            old(self).is_busy && outcome is Ok ==> result is Ok && is_transcription_of(
                result->Ok_0,
                outcome->Ok_0@,
                latency_ms,
                old(self).stats.window_duration_ms,
            ),
    {
        if !self.is_busy {
            return Err(WhisperError::InvalidParameter(String::from_str("No window is in flight")));
        }
        self.is_busy = false;
        match outcome {
            Ok(text) => {
                let chars = chars_of(text.as_str());
                let trimmed = trim_chars(&chars);
                self.stats.record(latency_ms, trimmed.len() > 0);
                let window_duration_ms: u32 = self.stats.window_duration_ms;
                Ok(
                    TranscriptionResult {
                        text: string_of(&trimmed),
                        start_time_ms: 0,
                        end_time_ms: window_duration_ms as u64,
                        confidence_permille: DEFAULT_CONFIDENCE_PERMILLE,
                        words: word_results(&trimmed),
                        processing_time_ms: latency_ms,
                        is_real_time: latency_ms < window_duration_ms as u64,
                    },
                )
            },
            Err(reason) => {
                self.stats.record(latency_ms, false);
                Err(WhisperError::ProcessingError(reason))
            },
        }
    }
}

} // verus!
