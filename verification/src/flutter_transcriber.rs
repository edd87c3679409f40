//! One transcription session: a sample buffer, the window policy, and the
//! dispatcher with its counters, under one configuration.

use crate::buffer::{keep_latest, spec_usage_percent, AudioRingBuffer};
use crate::dispatcher::{
    is_success,
    is_transcription_of,
    language_view,
    DispatchRequest,
    InferenceDispatcher,
    TranscriptionResult,
};
use crate::error::WhisperError;
use crate::scheduler::WindowScheduler;
use crate::stats::ProcessingStats;
use crate::timing::{duration_ms_of, samples_for, samples_in};
use crate::validation::{compare, is_verdict_of, spec_normalize, ValidationResult};
use vstd::prelude::*;
use vstd::string::StringExecFns;

verus! {

/// The buffer keeps this many windows of audio.
pub const BUFFER_WINDOWS: u32 = 5;

/// A chunk may last at most one part in this many of a window.
pub const CHUNKS_PER_WINDOW: u32 = 4;

/// How full the buffer is, and whether a whole window is held.
#[derive(Clone, Copy, Debug, PartialEq, Eq, Structural)]
pub struct BufferStatus {
    /// Whole milliseconds of audio held.
    pub current_duration_ms: u64,
    /// Whole percent of the capacity in use.
    pub buffer_usage_percent: u64,
    /// At least one window's duration of audio is held.
    pub is_ready_for_processing: bool,
    /// Samples held.
    pub samples_count: usize,
}

/// A session over samples of type `T`.
pub struct FlutterTranscriber<T> {
    pub audio_buffer: AudioRingBuffer<T>,
    pub scheduler: WindowScheduler,
    pub dispatcher: InferenceDispatcher,
    pub chunk_size_ms: u32,
    pub model_path: String,
}

/// The settings fit together: a positive rate, an overlap shorter than the
/// window, a chunk of at most a quarter of the window, and a buffer of
/// five windows that the machine can address.
pub open spec fn is_valid_configuration(
    sample_rate: u32,
    window_duration_ms: u32,
    overlap_duration_ms: u32,
    chunk_size_ms: u32,
) -> bool {
    &&& sample_rate > 0
    &&& overlap_duration_ms < window_duration_ms
    &&& chunk_size_ms <= window_duration_ms / CHUNKS_PER_WINDOW
    &&& window_duration_ms * BUFFER_WINDOWS <= u32::MAX
    &&& samples_in(sample_rate, (window_duration_ms * BUFFER_WINDOWS) as u32) <= usize::MAX
}

/// Decides [`is_valid_configuration`].
pub fn check_configuration(
    sample_rate: u32,
    window_duration_ms: u32,
    overlap_duration_ms: u32,
    chunk_size_ms: u32,
) -> (valid: bool)
    ensures
        valid == is_valid_configuration(
            sample_rate,
            window_duration_ms,
            overlap_duration_ms,
            chunk_size_ms,
        ),
{
    if sample_rate == 0 || overlap_duration_ms >= window_duration_ms {
        return false;
    }
    if chunk_size_ms > window_duration_ms / CHUNKS_PER_WINDOW {
        return false;
    }
    if window_duration_ms > u32::MAX / BUFFER_WINDOWS {
        return false;
    }
    samples_for(sample_rate, window_duration_ms * BUFFER_WINDOWS) <= usize::MAX as u64
}

impl<T: Copy> FlutterTranscriber<T> {
    /// The parts of the session agree on rate and window, and each is
    /// well formed.
    pub open spec fn wf(&self) -> bool {
        &&& self.audio_buffer.wf()
        &&& self.scheduler.wf()
        &&& self.audio_buffer.spec_sample_rate() == self.scheduler.sample_rate
        &&& self.audio_buffer.spec_max_buffer_duration_ms() == self.scheduler.window_duration_ms
            * BUFFER_WINDOWS
        &&& self.dispatcher.stats.window_duration_ms == self.scheduler.window_duration_ms
    }

    /// A session as it is right after its creation: nothing buffered,
    /// nothing claimed, nothing counted, idle.
    pub open spec fn is_fresh(
        &self,
        model_path: Seq<char>,
        language: Seq<char>,
        sample_rate: u32,
        window_duration_ms: u32,
        overlap_duration_ms: u32,
        chunk_size_ms: u32,
    ) -> bool {
        &&& self.wf()
        &&& self.audio_buffer@ == Seq::<T>::empty()
        &&& self.scheduler == (WindowScheduler {
            sample_rate,
            window_duration_ms,
            overlap_duration_ms,
            last_processed_mark: 0,
        })
        &&& !self.dispatcher.is_busy
        &&& language_view(self.dispatcher.language) == Some(language)
        &&& self.dispatcher.stats == ProcessingStats::spec_new(window_duration_ms)
        &&& self.chunk_size_ms == chunk_size_ms
        &&& self.model_path@ == model_path
    }

    /// A window is due and the backend is free.
    pub open spec fn should_dispatch(&self) -> bool {
        !self.dispatcher.is_busy && self.scheduler.is_ready(self.audio_buffer@.len() as u64)
    }

    /// The status of a buffer that holds `held` samples.
    pub open spec fn status_for(&self, held: nat) -> BufferStatus {
        let duration = duration_ms_of(held, self.scheduler.sample_rate);
        BufferStatus {
            current_duration_ms: duration as u64,
            buffer_usage_percent: spec_usage_percent(
                held,
                self.audio_buffer.spec_capacity() as nat,
            ) as u64,
            is_ready_for_processing: duration >= self.scheduler.window_duration_ms,
            samples_count: held as usize,
        }
    }

    /// `after` is `before` with one chunk of samples taken in: the
    /// buffer keeps the latest samples up to its capacity, each sample
    /// that left is counted as overflow, and nothing else changes.
    pub open spec fn chunk_added(before: Self, after: Self, audio_data: Seq<T>) -> bool {
        &&& after.audio_buffer@ == keep_latest(
            before.audio_buffer@ + audio_data,
            before.audio_buffer.spec_capacity() as nat,
        )
        &&& after.audio_buffer.spec_capacity() == before.audio_buffer.spec_capacity()
        &&& after.audio_buffer@.len() <= before.audio_buffer.spec_capacity()
        &&& after.scheduler == before.scheduler
        &&& after.dispatcher.is_busy == before.dispatcher.is_busy
        &&& after.dispatcher.language == before.dispatcher.language
        &&& after.dispatcher.stats == before.dispatcher.stats.spec_record_overflow(
            (before.audio_buffer@.len() + audio_data.len() - after.audio_buffer@.len()) as u64,
        )
        &&& after.chunk_size_ms == before.chunk_size_ms
        &&& after.model_path == before.model_path
    }

    /// `after` and `request` are what a poll for the next window makes of
    /// `before`: a request exactly when a window is due and the backend
    /// is free, holding the latest window's worth of samples; the
    /// watermark moved and the session busy. In every other case nothing
    /// changed.
    pub open spec fn window_dispatched(
        before: Self,
        after: Self,
        request: Option<DispatchRequest<T>>,
    ) -> bool {
        &&& request is Some <==> before.should_dispatch()
        &&& request is None ==> after == before
        &&& request is Some ==> {
            &&& request->Some_0.samples@ == keep_latest(
                before.audio_buffer@,
                before.scheduler.window_samples(),
            )
            &&& request->Some_0.samples@.len() == before.scheduler.window_samples()
            &&& request->Some_0.sample_rate == before.scheduler.sample_rate
            &&& language_view(request->Some_0.language) == language_view(
                before.dispatcher.language,
            )
            &&& after == (FlutterTranscriber {
                scheduler: before.scheduler.spec_advance(before.audio_buffer@.len() as u64),
                dispatcher: InferenceDispatcher { is_busy: true, ..before.dispatcher },
                ..before
            })
        }
    }

    /// `after` and `result` are what the outcome of the window in flight
    /// makes of `before`: idle again, the attempt counted once, the text
    /// handed on where there is any. With no window in flight nothing
    /// changed and the result is an error.
    pub open spec fn outcome_taken(
        before: Self,
        after: Self,
        outcome: Result<String, String>,
        latency_ms: u64,
        result: Result<Option<TranscriptionResult>, WhisperError>,
    ) -> bool {
        &&& !before.dispatcher.is_busy ==> after == before && result is Err
            && result->Err_0 is InvalidParameter
        &&& before.dispatcher.is_busy ==> after == (FlutterTranscriber {
            dispatcher: before.dispatcher.spec_complete(outcome, latency_ms),
            ..before
        })
        &&& before.dispatcher.is_busy && outcome is Err ==> result is Err
            && result->Err_0 is ProcessingError && result->Err_0.spec_detail() == outcome->Err_0@
        &&& before.dispatcher.is_busy && outcome is Ok ==> result is Ok && (result->Ok_0 is Some
            <==> is_success(outcome))
        &&& before.dispatcher.is_busy && outcome is Ok && result->Ok_0 is Some
            ==> is_transcription_of(
            result->Ok_0->Some_0,
            outcome->Ok_0@,
            latency_ms,
            before.scheduler.window_duration_ms,
        )
    }

    /// Sets up a session. `model_available` says whether the recognition
    /// backend can load the model at `model_path`.
    ///
    /// Fails with `InvalidConfiguration` exactly when the settings do not
    /// fit together, and with `ModelInitError` exactly when they do but
    /// the model is not available.
    pub fn new(
        model_path: String,
        language: String,
        sample_rate: u32,
        window_duration_ms: u32,
        overlap_duration_ms: u32,
        chunk_size_ms: u32,
        model_available: bool,
    ) -> (result: Result<Self, WhisperError>)
        ensures
            result is Ok <==> model_available && is_valid_configuration(
                sample_rate,
                window_duration_ms,
                overlap_duration_ms,
                chunk_size_ms,
            ),
            result is Err ==> (result->Err_0 is InvalidConfiguration <==> !is_valid_configuration(
                sample_rate,
                window_duration_ms,
                overlap_duration_ms,
                chunk_size_ms,
            )),
            result is Err ==> (result->Err_0 is ModelInitError <==> is_valid_configuration(
                sample_rate,
                window_duration_ms,
                overlap_duration_ms,
                chunk_size_ms,
            )),
            result is Err && result->Err_0 is ModelInitError ==> result->Err_0.spec_detail()
                == model_path@,
            result is Ok ==> result->Ok_0.is_fresh(
                model_path@,
                language@,
                sample_rate,
                window_duration_ms,
                overlap_duration_ms,
                chunk_size_ms,
            ),
    {
        if !check_configuration(
            sample_rate,
            window_duration_ms,
            overlap_duration_ms,
            chunk_size_ms,
        ) {
            return Err(
                WhisperError::InvalidConfiguration(
                    String::from_str("Window, overlap, chunk size and sample rate do not fit together"),
                ),
            );
        }
        if !model_available {
            return Err(WhisperError::ModelInitError(model_path));
        }
        let audio_buffer = match AudioRingBuffer::<T>::new(
            sample_rate,
            window_duration_ms * BUFFER_WINDOWS,
        ) {
            Ok(buffer) => buffer,
            Err(e) => {
                return Err(e);
            },
        };
        let scheduler = match WindowScheduler::new(
            sample_rate,
            window_duration_ms,
            overlap_duration_ms,
        ) {
            Ok(scheduler) => scheduler,
            Err(e) => {
                return Err(e);
            },
        };
        Ok(
            FlutterTranscriber {
                audio_buffer,
                scheduler,
                dispatcher: InferenceDispatcher::new(Some(language), window_duration_ms),
                chunk_size_ms,
                model_path,
            },
        )
    }

    /// Takes in one chunk of samples. The oldest samples leave where the
    /// buffer is full, and each one that leaves is counted as overflow.
    pub fn add_audio_chunk(&mut self, audio_data: &[T]) -> (status: BufferStatus)
        requires
            old(self).wf(),
        ensures
            final(self).wf(),
            Self::chunk_added(*old(self), *final(self), audio_data@),
            status == final(self).status_for(final(self).audio_buffer@.len()),
    {
        let occupancy = self.audio_buffer.append(audio_data);
        self.dispatcher.stats.record_overflow(occupancy.evicted as u64);
        let usage: u64 = self.audio_buffer.usage_percent();
        BufferStatus {
            current_duration_ms: occupancy.current_duration_ms,
            buffer_usage_percent: usage,
            is_ready_for_processing: occupancy.current_duration_ms
                >= self.scheduler.window_duration_ms as u64,
            samples_count: occupancy.samples_count,
        }
    }

    /// Hands out the next window for the recognition backend, if one is
    /// due and no other is in flight. The window is the latest
    /// window's worth of samples. Handing it out commits it: the
    /// watermark moves and the session turns busy until
    /// [`Self::complete_processing`] is called. In every other case
    /// nothing changes.
    pub fn process_if_ready(&mut self) -> (request: Option<DispatchRequest<T>>)
        requires
            old(self).wf(),
        ensures
            final(self).wf(),
            Self::window_dispatched(*old(self), *final(self), request),
    {
        if self.dispatcher.is_busy {
            return None;
        }
        let occupancy: u64 = self.audio_buffer.len() as u64;
        let range = match self.scheduler.poll(occupancy) {
            Some(range) => range,
            None => {
                return None;
            },
        };
        let window = self.audio_buffer.copy_range(range.start as usize, range.end as usize);
        assert(window@ =~= keep_latest(self.audio_buffer@, self.scheduler.window_samples()));
        let request = self.dispatcher.try_dispatch(window, self.scheduler.sample_rate);
        self.scheduler.advance(occupancy);
        request
    }

    /// Hands out the last window of a stream that has ended, if there is
    /// one worth it and no other is in flight: the window that is due, or
    /// else the samples beyond the watermark where they last longer than
    /// `min_tail_ms`. Handing it out claims every sample held and turns
    /// the session busy. In every other case nothing changes.
    pub fn process_remaining(&mut self, min_tail_ms: u32) -> (request: Option<DispatchRequest<T>>)
        requires
            old(self).wf(),
        ensures
            final(self).wf(),
            request is Some <==> !old(self).dispatcher.is_busy && old(self).scheduler.spec_poll_final(
                old(self).audio_buffer@.len() as u64,
                min_tail_ms,
            ) is Some,
            request is None ==> *final(self) == *old(self),
            request is Some ==> {
                let range = old(self).scheduler.spec_poll_final(
                    old(self).audio_buffer@.len() as u64,
                    min_tail_ms,
                )->Some_0;
                &&& request->Some_0.samples@ == old(self).audio_buffer@.subrange(
                    range.start as int,
                    range.end as int,
                )
                &&& request->Some_0.sample_rate == old(self).scheduler.sample_rate
                &&& language_view(request->Some_0.language) == language_view(
                    old(self).dispatcher.language,
                )
                &&& *final(self) == (FlutterTranscriber {
                    scheduler: old(self).scheduler.spec_finish(old(self).audio_buffer@.len() as u64),
                    dispatcher: InferenceDispatcher { is_busy: true, ..old(self).dispatcher },
                    ..*old(self)
                })
            },
    {
        if self.dispatcher.is_busy {
            return None;
        }
        let occupancy: u64 = self.audio_buffer.len() as u64;
        let range = match self.scheduler.poll_final(occupancy, min_tail_ms) {
            Some(range) => range,
            None => {
                return None;
            },
        };
        let window = self.audio_buffer.copy_range(range.start as usize, range.end as usize);
        let request = self.dispatcher.try_dispatch(window, self.scheduler.sample_rate);
        self.scheduler.finish(occupancy);
        request
    }

    /// Takes in what the recognition backend made of the window in
    /// flight: its text, or its failure in words, after `latency_ms`. The
    /// session turns idle whatever the outcome and the attempt is counted
    /// once. A silent window gives `Ok(None)`.
    ///
    /// Fails with `InvalidParameter` exactly when no window is in flight,
    /// and then changes nothing; with `ProcessingError` exactly when the
    /// backend failed.
    pub fn complete_processing(&mut self, outcome: Result<String, String>, latency_ms: u64) -> (result:
        Result<Option<TranscriptionResult>, WhisperError>)
        requires
            old(self).wf(),
        ensures
            final(self).wf(),
            Self::outcome_taken(*old(self), *final(self), outcome, latency_ms, result),
    {
        match self.dispatcher.complete(outcome, latency_ms) {
            Ok(transcription) => {
                if transcription.text.as_str().unicode_len() == 0 {
                    Ok(None)
                } else {
                    Ok(Some(transcription))
                }
            },
            Err(e) => Err(e),
        }
    }

    /// Compares a transcription with the text that was expected.
    pub fn validate_transcription(&self, transcribed: &str, expected: &str) -> (result:
        ValidationResult)
        ensures
            is_verdict_of(
                result,
                transcribed@,
                expected@,
                spec_normalize(transcribed@),
                spec_normalize(expected@),
            ),
    {
        compare(transcribed, expected)
    }

    /// A copy of the session's counters.
    pub fn get_stats(&self) -> (stats: ProcessingStats)
        ensures
            stats == self.dispatcher.stats,
    {
        self.dispatcher.stats.snapshot()
    }

    /// How full the buffer is, and whether a whole window is held.
    pub fn get_buffer_status(&self) -> (status: BufferStatus)
        requires
            self.wf(),
        ensures
            status == self.status_for(self.audio_buffer@.len()),
    {
        let duration: u64 = self.audio_buffer.occupancy_duration_ms();
        BufferStatus {
            current_duration_ms: duration,
            buffer_usage_percent: self.audio_buffer.usage_percent(),
            is_ready_for_processing: duration >= self.scheduler.window_duration_ms as u64,
            samples_count: self.audio_buffer.len(),
        }
    }
}

} // verus!
