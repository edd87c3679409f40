//! A single transcription stream that is polled in a loop: a sample
//! buffer and the window policy, bound to one handle of the recognition
//! backend.

use crate::buffer::{keep_latest, AudioRingBuffer};
use crate::error::WhisperError;
use crate::scheduler::WindowScheduler;
use crate::text::{chars_equal, chars_of};
use crate::timing::{duration_ms_of, samples_in};
use crate::validation::{spec_trim, trim_chars};
use vstd::prelude::*;
use vstd::string::StringExecFns;

verus! {

/// The outcome of comparing two texts as they stand, apart from the white
/// space around them.
#[derive(Clone, Debug, PartialEq, Eq)]
pub struct ValidationResult {
    pub original_word: String,
    pub expected_word: String,
    pub is_match: bool,
    /// 1000 for a match, 0 otherwise.
    pub confidence_permille: u32,
    pub suggestion: Option<String>,
}

/// A stream over samples of type `T`.
pub struct RealTimeTranscriber<T> {
    pub audio_buffer: AudioRingBuffer<T>,
    /// The backend's handle for the loaded model.
    pub whisper_instance: Option<i32>,
    pub scheduler: WindowScheduler,
    /// The processing loop has been started and not stopped since.
    pub is_processing: bool,
    pub model_path: String,
}

/// What a comparison of `transcribed` with `expected` must report: a
/// match exactly when the two are equal apart from surrounding white
/// space, full confidence for a match and none otherwise, and the
/// expected text as a suggestion where there is no match.
pub open spec fn is_plain_verdict_of(
    result: ValidationResult,
    transcribed: Seq<char>,
    expected: Seq<char>,
) -> bool {
    &&& result.original_word@ == transcribed
    &&& result.expected_word@ == expected
    &&& result.is_match == (spec_trim(transcribed) == spec_trim(expected))
    &&& result.confidence_permille == if result.is_match {
        1000u32
    } else {
        0u32
    }
    &&& result.is_match <==> result.suggestion is None
    &&& result.suggestion is Some ==> result.suggestion->Some_0@ == expected
}

/// Compares two texts as they stand, apart from the white space around
/// them.
pub fn validate_text(transcribed: &str, expected: &str) -> (result: ValidationResult)
    ensures
        is_plain_verdict_of(result, transcribed@, expected@),
{
    let a = trim_chars(&chars_of(transcribed));
    let b = trim_chars(&chars_of(expected));
    let is_match: bool = chars_equal(&a, &b);
    ValidationResult {
        original_word: String::from_str(transcribed),
        expected_word: String::from_str(expected),
        is_match,
        confidence_permille: if is_match {
            1000
        } else {
            0
        },
        suggestion: if is_match {
            None
        } else {
            Some(String::from_str(expected))
        },
    }
}

impl<T: Copy> RealTimeTranscriber<T> {
    /// Buffer and window policy are well formed and agree on the rate.
    pub open spec fn wf(&self) -> bool {
        &&& self.audio_buffer.wf()
        &&& self.scheduler.wf()
        &&& self.audio_buffer.spec_sample_rate() == self.scheduler.sample_rate
    }

    /// The settings fit together: a positive rate, an overlap shorter
    /// than the window, and a buffer of positive length that the machine
    /// can address.
    pub open spec fn is_valid_configuration(
        sample_rate: u32,
        window_duration_ms: u32,
        overlap_duration_ms: u32,
        max_buffer_duration_ms: u32,
    ) -> bool {
        &&& sample_rate > 0
        &&& overlap_duration_ms < window_duration_ms
        &&& max_buffer_duration_ms > 0
        &&& samples_in(sample_rate, max_buffer_duration_ms) <= usize::MAX
    }

    /// Sets up a stream for the model at `model_path`, which the backend
    /// has loaded under the handle `whisper_instance`.
    ///
    /// Fails with `InvalidConfiguration` exactly when the settings do not
    /// fit together.
    pub fn new(
        model_path: &str,
        sample_rate: u32,
        window_duration_ms: u32,
        overlap_duration_ms: u32,
        max_buffer_duration_ms: u32,
        whisper_instance: i32,
    ) -> (result: Result<Self, WhisperError>)
        ensures
            result is Ok <==> Self::is_valid_configuration(
                sample_rate,
                window_duration_ms,
                overlap_duration_ms,
                max_buffer_duration_ms,
            ),
            result is Err ==> result->Err_0 is InvalidConfiguration,
            result is Ok ==> {
                let stream = result->Ok_0;
                &&& stream.wf()
                &&& stream.audio_buffer@ == Seq::<T>::empty()
                &&& stream.audio_buffer.spec_capacity() == samples_in(
                    sample_rate,
                    max_buffer_duration_ms,
                )
                &&& stream.scheduler == (WindowScheduler {
                    sample_rate,
                    window_duration_ms,
                    overlap_duration_ms,
                    last_processed_mark: 0,
                })
                &&& stream.whisper_instance == Some(whisper_instance)
                &&& !stream.is_processing
                &&& stream.model_path@ == model_path@
            },
    {
        let scheduler = match WindowScheduler::new(
            sample_rate,
            window_duration_ms,
            overlap_duration_ms,
        ) {
            Ok(scheduler) => scheduler,
            Err(e) => {
                return Err(e);
            },
        };
        let audio_buffer = match AudioRingBuffer::<T>::new(sample_rate, max_buffer_duration_ms) {
            Ok(buffer) => buffer,
            Err(e) => {
                return Err(e);
            },
        };
        Ok(
            RealTimeTranscriber {
                audio_buffer,
                whisper_instance: Some(whisper_instance),
                scheduler,
                is_processing: false,
                model_path: String::from_str(model_path),
            },
        )
    }

    /// Takes in one chunk of samples; the oldest samples leave where the
    /// buffer is full.
    pub fn add_audio_chunk(&mut self, audio_data: &[T])
        requires
            old(self).wf(),
        ensures
            final(self).wf(),
            final(self).audio_buffer@ == keep_latest(
                old(self).audio_buffer@ + audio_data@,
                old(self).audio_buffer.spec_capacity() as nat,
            ),
            final(self).audio_buffer.spec_capacity() == old(self).audio_buffer.spec_capacity(),
            final(self).scheduler == old(self).scheduler,
            final(self).whisper_instance == old(self).whisper_instance,
            final(self).is_processing == old(self).is_processing,
            final(self).model_path == old(self).model_path,
    {
        let _ = self.audio_buffer.append(audio_data);
    }

    /// Whole milliseconds of audio held.
    pub fn get_buffer_duration_ms(&self) -> (duration: u64)
        requires
            self.wf(),
        ensures
            duration == duration_ms_of(self.audio_buffer@.len(), self.scheduler.sample_rate),
    {
        self.audio_buffer.occupancy_duration_ms()
    }

    /// Marks the processing loop as started.
    ///
    /// Fails with `InvalidParameter` exactly when it is started already,
    /// and then changes nothing.
    pub fn start_processing(&mut self) -> (result: Result<(), WhisperError>)
        ensures
            result is Ok <==> !old(self).is_processing,
            result is Err ==> result->Err_0 is InvalidParameter && *final(self) == *old(self),
            result is Ok ==> *final(self) == (RealTimeTranscriber {
                is_processing: true,
                ..*old(self)
            }),
    {
        if self.is_processing {
            return Err(WhisperError::InvalidParameter(String::from_str("Processing already started")));
        }
        self.is_processing = true;
        Ok(())
    }

    /// Marks the processing loop as stopped.
    pub fn stop_processing(&mut self)
        ensures
            *final(self) == (RealTimeTranscriber { is_processing: false, ..*old(self) }),
    {
        self.is_processing = false;
    }

    /// One turn of the processing loop: the latest window's worth of
    /// samples where a window is due, and then the watermark moves; in
    /// every other case `None`, and nothing changes.
    pub fn next_window(&mut self) -> (window: Option<Vec<T>>)
        requires
            old(self).wf(),
        ensures
            final(self).wf(),
            window is Some <==> old(self).scheduler.is_ready(old(self).audio_buffer@.len() as u64),
            window is None ==> *final(self) == *old(self),
            window is Some ==> window->Some_0@ == keep_latest(
                old(self).audio_buffer@,
                old(self).scheduler.window_samples(),
            ) && *final(self) == (RealTimeTranscriber {
                scheduler: old(self).scheduler.spec_advance(old(self).audio_buffer@.len() as u64),
                ..*old(self)
            }),
    {
        let occupancy: u64 = self.audio_buffer.len() as u64;
        let range = match self.scheduler.poll(occupancy) {
            Some(range) => range,
            None => {
                return None;
            },
        };
        let window = self.audio_buffer.copy_range(range.start as usize, range.end as usize);
        assert(window@ =~= keep_latest(self.audio_buffer@, self.scheduler.window_samples()));
        self.scheduler.advance(occupancy);
        Some(window)
    }

    /// Compares two texts as they stand, apart from the white space
    /// around them.
    pub fn validate_text(&self, transcribed: &str, expected: &str) -> (result: ValidationResult)
        ensures
            is_plain_verdict_of(result, transcribed@, expected@),
    {
        validate_text(transcribed, expected)
    }
}

/// Sets up a stream as [`RealTimeTranscriber::new`] does.
pub fn create_realtime_transcriber<T: Copy>(
    model_path: String,
    sample_rate: u32,
    window_duration_ms: u32,
    overlap_duration_ms: u32,
    max_buffer_duration_ms: u32,
    whisper_instance: i32,
) -> (result: Result<RealTimeTranscriber<T>, WhisperError>)
    ensures
        result is Ok <==> RealTimeTranscriber::<T>::is_valid_configuration(
            sample_rate,
            window_duration_ms,
            overlap_duration_ms,
            max_buffer_duration_ms,
        ),
        result is Err ==> result->Err_0 is InvalidConfiguration,
        result is Ok ==> result->Ok_0.wf() && result->Ok_0.audio_buffer@ == Seq::<T>::empty()
            && result->Ok_0.scheduler == (WindowScheduler {
            sample_rate,
            window_duration_ms,
            overlap_duration_ms,
            last_processed_mark: 0,
        }) && result->Ok_0.whisper_instance == Some(whisper_instance),
{
    RealTimeTranscriber::new(
        model_path.as_str(),
        sample_rate,
        window_duration_ms,
        overlap_duration_ms,
        max_buffer_duration_ms,
        whisper_instance,
    )
}

} // verus!
