//! A registry of transcription sessions, each under an identifier of the
//! caller's choosing.

use crate::dispatcher::{DispatchRequest, TranscriptionResult};
use crate::error::WhisperError;
use crate::flutter_transcriber::{is_valid_configuration, BufferStatus, FlutterTranscriber};
use crate::stats::ProcessingStats;
use crate::validation::{is_verdict_of, spec_normalize, ValidationResult};
use vstd::prelude::*;
use vstd::string::StringExecFns;

verus! {

/// The settings of one session.
#[derive(Debug, Clone, PartialEq, Eq)]
pub struct FrbTranscriberConfig {
    pub model_path: String,
    pub language: String,
    pub sample_rate: u32,
    pub window_duration_ms: u32,
    pub overlap_duration_ms: u32,
    pub chunk_size_ms: u32,
}

impl FrbTranscriberConfig {
    /// The settings for Arabic at 16 kHz with the given window and
    /// overlap, fed in chunks of 50 ms.
    pub open spec fn is_arabic_preset(
        self,
        model_path: Seq<char>,
        window_duration_ms: u32,
        overlap_duration_ms: u32,
    ) -> bool {
        &&& self.model_path@ == model_path
        &&& self.language@ == "ar"@
        &&& self.sample_rate == 16000
        &&& self.window_duration_ms == window_duration_ms
        &&& self.overlap_duration_ms == overlap_duration_ms
        &&& self.chunk_size_ms == 50
    }

    /// Builds the settings that [`Self::is_arabic_preset`] describes.
    pub fn arabic_preset(
        model_path: String,
        window_duration_ms: u32,
        overlap_duration_ms: u32,
    ) -> (config: Self)
        ensures
            config.is_arabic_preset(model_path@, window_duration_ms, overlap_duration_ms),
    {
        FrbTranscriberConfig {
            model_path,
            language: String::from_str("ar"),
            sample_rate: 16000,
            window_duration_ms,
            overlap_duration_ms,
            chunk_size_ms: 50,
        }
    }
}

impl Default for FrbTranscriberConfig {
    /// Arabic at 16 kHz, windows of two seconds that share half a
    /// second, with the smallest model.
    fn default() -> (config: Self)
        ensures
            config.is_arabic_preset("ggml-tiny.bin"@, 2000, 500),
    {
        FrbTranscriberConfig::arabic_preset(String::from_str("ggml-tiny.bin"), 2000, 500)
    }
}

/// What a health check reports of one session.
#[derive(Clone, Copy, Debug, PartialEq, Eq, Structural)]
pub struct HealthReport {
    pub buffer: BufferStatus,
    pub stats: ProcessingStats,
    /// Successful attempts over all attempts, in whole percent.
    pub success_rate_percent: u64,
    /// Window duration over mean latency, in thousandths.
    pub real_time_factor_permille: u64,
}

/// One registered session.
pub struct TranscriberInstance<T> {
    pub instance_id: String,
    pub transcriber: FlutterTranscriber<T>,
}

/// The sessions, in the order of their creation. No identifier occurs
/// twice.
pub struct FlutterTranscriberApi<T> {
    pub instances: Vec<TranscriberInstance<T>>,
}

impl<T: Copy> FlutterTranscriberApi<T> {
    /// The identifiers of the registered sessions, in order.
    pub open spec fn ids(&self) -> Seq<Seq<char>> {
        Seq::new(self.instances@.len(), |i: int| self.instances@[i].instance_id@)
    }

    /// Every session is well formed and no identifier occurs twice.
    pub open spec fn wf(&self) -> bool {
        &&& forall|i: int|
            0 <= i < self.instances@.len() ==> (#[trigger] self.instances@[i]).transcriber.wf()
        &&& self.ids().no_duplicates()
    }

    /// The place of the session registered under `id`.
    pub open spec fn position(&self, id: Seq<char>) -> int {
        self.ids().index_of(id)
    }

    /// `after` is `before` but for the session at place `i`, which keeps
    /// its identifier.
    pub open spec fn only_changed_at(before: Self, after: Self, i: int) -> bool {
        &&& after.instances@.len() == before.instances@.len()
        &&& after.instances@[i].instance_id == before.instances@[i].instance_id
        &&& forall|j: int|
            0 <= j < before.instances@.len() && j != i ==> after.instances@[j]
                == before.instances@[j]
    }

    /// A change to one well-formed session leaves the registry well
    /// formed, with the same identifiers.
    pub proof fn lemma_change_keeps_wf(before: Self, after: Self, i: int)
        requires
            before.wf(),
            0 <= i < before.instances@.len(),
            Self::only_changed_at(before, after, i),
            after.instances@[i].transcriber.wf(),
        ensures
            after.wf(),
            after.ids() == before.ids(),
    {
        assert(after.ids() =~= before.ids()) by {
            assert forall|j: int| 0 <= j < before.instances@.len() implies after.ids()[j]
                == before.ids()[j] by {
                if j != i {
                    assert(after.instances@[j] == before.instances@[j]);
                }
            }
        }
        assert forall|j: int| 0 <= j < after.instances@.len() implies (
        #[trigger] after.instances@[j]).transcriber.wf() by {
            if j != i {
                assert(after.instances@[j] == before.instances@[j]);
            }
        }
    }

    /// A registry without sessions.
    pub fn new() -> (api: Self)
        ensures
            api.wf(),
            api.instances@.len() == 0,
    {
        FlutterTranscriberApi { instances: Vec::new() }
    }

    /// The place of the session registered under `instance_id`, if any.
    pub fn find(&self, instance_id: &String) -> (place: Option<usize>)
        ensures
            place is Some <==> self.ids().contains(instance_id@),
            place is Some ==> place->Some_0 < self.instances@.len()
                && self.instances@[place->Some_0 as int].instance_id@ == instance_id@,
            place is Some && self.ids().no_duplicates() ==> place->Some_0 == self.position(
                instance_id@,
            ),
    {
        let mut i: usize = 0;
        while i < self.instances.len()
            invariant
                i <= self.instances@.len(),
                forall|j: int| 0 <= j < i ==> self.ids()[j] != instance_id@,
            decreases self.instances@.len() - i,
        {
            if self.instances[i].instance_id == *instance_id {
                assert(self.ids()[i as int] == instance_id@);
                proof {
                    if self.ids().no_duplicates() {
                        let p = self.ids().index_of(instance_id@);
                        assert(self.ids()[p] == instance_id@);
                    }
                }
                return Some(i);
            }
            i = i + 1;
        }
        None
    }

    /// The session registered under `instance_id`, if any, for reading.
    pub fn get(&self, instance_id: &String) -> (session: Option<&FlutterTranscriber<T>>)
        ensures
            session is Some <==> self.ids().contains(instance_id@),
            session is Some && self.ids().no_duplicates() ==> *session->Some_0
                == self.instances@[self.position(instance_id@)].transcriber,
    {
        match self.find(instance_id) {
            Some(place) => Some(&self.instances[place].transcriber),
            None => None,
        }
    }

    /// Adds one chunk of samples to a session.
    pub fn add_audio_chunk(&mut self, instance_id: String, audio_data: &[T]) -> (result: Result<
        BufferStatus,
        WhisperError,
    >)
        requires
            old(self).wf(),
        ensures
            final(self).wf(),
            result is Ok <==> old(self).ids().contains(instance_id@),
            result is Err ==> result->Err_0 == WhisperError::NotFound(instance_id),
            result is Err ==> *final(self) == *old(self),
            result is Ok ==> {
                let i = old(self).position(instance_id@);
                &&& Self::only_changed_at(*old(self), *final(self), i)
                &&& FlutterTranscriber::chunk_added(
                    old(self).instances@[i].transcriber,
                    final(self).instances@[i].transcriber,
                    audio_data@,
                )
                &&& result->Ok_0 == final(self).instances@[i].transcriber.status_for(
                    final(self).instances@[i].transcriber.audio_buffer@.len(),
                )
            },
    {
        let place = match self.find(&instance_id) {
            Some(place) => place,
            None => {
                return Err(WhisperError::NotFound(instance_id));
            },
        };
        let instance = &mut self.instances[place];
        let status = instance.transcriber.add_audio_chunk(audio_data);
        proof {
            Self::lemma_change_keeps_wf(*old(self), *self, place as int);
        }
        Ok(status)
    }

    /// Registers a new session under `instance_id`. `model_available`
    /// says whether the recognition backend can load the model that the
    /// settings name.
    ///
    /// Fails with `AlreadyExists` exactly when the identifier is taken;
    /// otherwise with `InvalidConfiguration` exactly when the settings do
    /// not fit together; otherwise with `ModelInitError` exactly when the
    /// model is not available. A failure leaves the registry as it was.
    pub fn create_transcriber(
        &mut self,
        instance_id: String,
        config: FrbTranscriberConfig,
        model_available: bool,
    ) -> (result: Result<(), WhisperError>)
        requires
            old(self).wf(),
        ensures
            final(self).wf(),
            Self::session_created(
                *old(self),
                *final(self),
                instance_id@,
                config,
                model_available,
                result,
            ),
    {
        if self.find(&instance_id).is_some() {
            return Err(WhisperError::AlreadyExists(instance_id));
        }
        let transcriber = match FlutterTranscriber::<T>::new(
            config.model_path,
            config.language,
            config.sample_rate,
            config.window_duration_ms,
            config.overlap_duration_ms,
            config.chunk_size_ms,
            model_available,
        ) {
            Ok(transcriber) => transcriber,
            Err(e) => {
                return Err(e);
            },
        };
        self.instances.push(TranscriberInstance { instance_id, transcriber });
        proof {
            let before = old(self).ids();
            let after = self.ids();
            assert(after =~= before.push(instance_id@));
            assert(after.no_duplicates()) by {
                assert forall|i: int, j: int|
                    0 <= i < after.len() && 0 <= j < after.len() && i != j implies after[i]
                    != after[j] by {
                    if i < before.len() && j < before.len() {
                        assert(before[i] != before[j]);
                    } else if i < before.len() {
                        assert(before.contains(before[i]));
                    } else {
                        assert(before.contains(before[j]));
                    }
                }
            }
            assert(self.instances@.drop_last() =~= old(self).instances@);
        }
        Ok(())
    }

    /// What [`Self::create_transcriber`] makes of `before`.
    pub open spec fn session_created(
        before: Self,
        after: Self,
        instance_id: Seq<char>,
        config: FrbTranscriberConfig,
        model_available: bool,
        result: Result<(), WhisperError>,
    ) -> bool {
        let taken = before.ids().contains(instance_id);
        let valid = is_valid_configuration(
            config.sample_rate,
            config.window_duration_ms,
            config.overlap_duration_ms,
            config.chunk_size_ms,
        );
        &&& result is Ok <==> !taken && valid && model_available
        &&& result is Err ==> after == before
        &&& result is Err ==> (result->Err_0 is AlreadyExists <==> taken)
        &&& result is Err && taken ==> result->Err_0.spec_detail() == instance_id
        &&& result is Err && !taken && valid ==> result->Err_0.spec_detail() == config.model_path@
        &&& result is Err ==> (result->Err_0 is InvalidConfiguration <==> !taken && !valid)
        &&& result is Err ==> (result->Err_0 is ModelInitError <==> !taken && valid)
        &&& result is Ok ==> {
            &&& after.instances@.len() == before.instances@.len() + 1
            &&& after.instances@.drop_last() == before.instances@
            &&& after.instances@.last().instance_id@ == instance_id
            &&& after.instances@.last().transcriber.is_fresh(
                config.model_path@,
                config.language@,
                config.sample_rate,
                config.window_duration_ms,
                config.overlap_duration_ms,
                config.chunk_size_ms,
            )
        }
    }

    /// Registers a session for Arabic with the default window of two
    /// seconds and overlap of half a second.
    pub fn create_arabic_transcriber(
        &mut self,
        instance_id: String,
        model_path: String,
        model_available: bool,
    ) -> (result: Result<(), WhisperError>)
        requires
            old(self).wf(),
        ensures
            final(self).wf(),
            exists|config: FrbTranscriberConfig|
                config.is_arabic_preset(model_path@, 2000, 500) && Self::session_created(
                    *old(self),
                    *final(self),
                    instance_id@,
                    config,
                    model_available,
                    result,
                ),
    {
        let config = FrbTranscriberConfig::arabic_preset(model_path, 2000, 500);
        self.create_transcriber(instance_id, config, model_available)
    }

    /// Registers a session for going over a recitation: windows of three
    /// seconds that share one second.
    pub fn create_murajaah_transcriber(
        &mut self,
        instance_id: String,
        model_path: String,
        model_available: bool,
    ) -> (result: Result<(), WhisperError>)
        requires
            old(self).wf(),
        ensures
            final(self).wf(),
            exists|config: FrbTranscriberConfig|
                config.is_arabic_preset(model_path@, 3000, 1000) && Self::session_created(
                    *old(self),
                    *final(self),
                    instance_id@,
                    config,
                    model_available,
                    result,
                ),
    {
        let config = FrbTranscriberConfig::arabic_preset(model_path, 3000, 1000);
        self.create_transcriber(instance_id, config, model_available)
    }

    /// Registers a session for fast response: windows of one and a half
    /// seconds that share 300 ms.
    pub fn create_fast_transcriber(
        &mut self,
        instance_id: String,
        model_path: String,
        model_available: bool,
    ) -> (result: Result<(), WhisperError>)
        requires
            old(self).wf(),
        ensures
            final(self).wf(),
            exists|config: FrbTranscriberConfig|
                config.is_arabic_preset(model_path@, 1500, 300) && Self::session_created(
                    *old(self),
                    *final(self),
                    instance_id@,
                    config,
                    model_available,
                    result,
                ),
    {
        let config = FrbTranscriberConfig::arabic_preset(model_path, 1500, 300);
        self.create_transcriber(instance_id, config, model_available)
    }

    /// Removes the session registered under `instance_id`; the others
    /// keep their order.
    ///
    /// Fails with `NotFound` exactly when no session has the identifier,
    /// and then changes nothing.
    pub fn destroy_transcriber(&mut self, instance_id: String) -> (result: Result<(), WhisperError>)
        requires
            old(self).wf(),
        ensures
            final(self).wf(),
            result is Ok <==> old(self).ids().contains(instance_id@),
            result is Err ==> result->Err_0 == WhisperError::NotFound(instance_id),
            result is Err ==> *final(self) == *old(self),
            result is Ok ==> final(self).instances@ == old(self).instances@.remove(
                old(self).position(instance_id@),
            ) && !final(self).ids().contains(instance_id@),
    {
        let place = match self.find(&instance_id) {
            Some(place) => place,
            None => {
                return Err(WhisperError::NotFound(instance_id));
            },
        };
        let _ = self.instances.remove(place);
        proof {
            let before = old(self).ids();
            let after = self.ids();
            assert(after =~= before.remove(place as int));
            assert forall|i: int, j: int|
                0 <= i < after.len() && 0 <= j < after.len() && i != j implies after[i]
                != after[j] by {
                let from_i = if i < place {
                    i
                } else {
                    i + 1
                };
                let from_j = if j < place {
                    j
                } else {
                    j + 1
                };
                assert(before[from_i] != before[from_j]);
            }
            assert forall|i: int| 0 <= i < after.len() implies after[i] != instance_id@ by {
                let from_i = if i < place {
                    i
                } else {
                    i + 1
                };
                assert(before[from_i] != before[place as int]);
            }
            assert forall|i: int| 0 <= i < self.instances@.len() implies (
            #[trigger] self.instances@[i]).transcriber.wf() by {
                let from_i = if i < place {
                    i
                } else {
                    i + 1
                };
                assert(self.instances@[i] == old(self).instances@[from_i]);
            }
        }
        Ok(())
    }

    /// The identifiers of the registered sessions, in the order of their
    /// creation.
    pub fn list_transcribers(&self) -> (ids: Vec<String>)
        ensures
            ids@.len() == self.ids().len(),
            forall|i: int| 0 <= i < ids@.len() ==> (#[trigger] ids@[i])@ == self.ids()[i],
    {
        let mut ids: Vec<String> = Vec::new();
        let mut i: usize = 0;
        while i < self.instances.len()
            invariant
                i <= self.instances@.len(),
                ids@.len() == i,
                forall|j: int| 0 <= j < i ==> (#[trigger] ids@[j])@ == self.ids()[j],
            decreases self.instances@.len() - i,
        {
            ids.push(String::from_str(self.instances[i].instance_id.as_str()));
            i = i + 1;
        }
        ids
    }

    /// Buffer occupancy and counters of one session. The registry stays
    /// as it is.
    ///
    /// Fails with `NotFound` exactly when no session has the identifier.
    pub fn health_check(&self, instance_id: String) -> (result: Result<HealthReport, WhisperError>)
        requires
            self.wf(),
        ensures
            result is Ok <==> self.ids().contains(instance_id@),
            result is Err ==> result->Err_0 == WhisperError::NotFound(instance_id),
            result is Ok ==> {
                let session = self.instances@[self.position(instance_id@)].transcriber;
                &&& result->Ok_0.buffer == session.status_for(session.audio_buffer@.len())
                &&& result->Ok_0.stats == session.dispatcher.stats
                &&& result->Ok_0.success_rate_percent
                    == session.dispatcher.stats.spec_success_rate_percent()
                &&& result->Ok_0.real_time_factor_permille
                    == session.dispatcher.stats.spec_real_time_factor_permille()
            },
    {
        let place = match self.find(&instance_id) {
            Some(place) => place,
            None => {
                return Err(WhisperError::NotFound(instance_id));
            },
        };
        let session = &self.instances[place].transcriber;
        let stats = session.get_stats();
        Ok(
            HealthReport {
                buffer: session.get_buffer_status(),
                stats,
                success_rate_percent: stats.success_rate_percent(),
                real_time_factor_permille: stats.real_time_factor_permille(),
            },
        )
    }

    /// Hands out the next window of a session for the recognition
    /// backend, if one is due and no other is in flight.
    ///
    /// Fails with `NotFound` exactly when no session has the identifier,
    /// and then changes nothing.
    pub fn process_if_ready(&mut self, instance_id: String) -> (result: Result<
        Option<DispatchRequest<T>>,
        WhisperError,
    >)
        requires
            old(self).wf(),
        ensures
            final(self).wf(),
            result is Ok <==> old(self).ids().contains(instance_id@),
            result is Err ==> result->Err_0 == WhisperError::NotFound(instance_id),
            result is Err ==> *final(self) == *old(self),
            result is Ok ==> {
                let i = old(self).position(instance_id@);
                &&& Self::only_changed_at(*old(self), *final(self), i)
                &&& FlutterTranscriber::window_dispatched(
                    old(self).instances@[i].transcriber,
                    final(self).instances@[i].transcriber,
                    result->Ok_0,
                )
            },
    {
        let place = match self.find(&instance_id) {
            Some(place) => place,
            None => {
                return Err(WhisperError::NotFound(instance_id));
            },
        };
        let instance = &mut self.instances[place];
        let request = instance.transcriber.process_if_ready();
        proof {
            Self::lemma_change_keeps_wf(*old(self), *self, place as int);
        }
        Ok(request)
    }

    /// Takes in what the recognition backend made of the window in
    /// flight of a session.
    ///
    /// Fails with `NotFound` exactly when no session has the identifier,
    /// and then changes nothing; with `InvalidParameter` when the session
    /// has no window in flight; with `ProcessingError` when the backend
    /// failed.
    pub fn complete_processing(
        &mut self,
        instance_id: String,
        outcome: Result<String, String>,
        latency_ms: u64,
    ) -> (result: Result<Option<TranscriptionResult>, WhisperError>)
        requires
            old(self).wf(),
        ensures
            final(self).wf(),
            !old(self).ids().contains(instance_id@) ==> result == Err::<
                Option<TranscriptionResult>,
                WhisperError,
            >(WhisperError::NotFound(instance_id)) && *final(self) == *old(self),
            old(self).ids().contains(instance_id@) ==> {
                let i = old(self).position(instance_id@);
                &&& Self::only_changed_at(*old(self), *final(self), i)
                &&& FlutterTranscriber::outcome_taken(
                    old(self).instances@[i].transcriber,
                    final(self).instances@[i].transcriber,
                    outcome,
                    latency_ms,
                    result,
                )
            },
    {
        let place = match self.find(&instance_id) {
            Some(place) => place,
            None => {
                return Err(WhisperError::NotFound(instance_id));
            },
        };
        let instance = &mut self.instances[place];
        let result = instance.transcriber.complete_processing(outcome, latency_ms);
        proof {
            Self::lemma_change_keeps_wf(*old(self), *self, place as int);
        }
        result
    }

    /// Compares a transcription with the text that was expected, on
    /// behalf of a session.
    ///
    /// Fails with `NotFound` exactly when no session has the identifier.
    pub fn validate_transcription(
        &self,
        instance_id: String,
        transcribed_text: String,
        expected_text: String,
    ) -> (result: Result<ValidationResult, WhisperError>)
        ensures
            result is Ok <==> self.ids().contains(instance_id@),
            result is Err ==> result->Err_0 == WhisperError::NotFound(instance_id),
            result is Ok ==> is_verdict_of(
                result->Ok_0,
                transcribed_text@,
                expected_text@,
                spec_normalize(transcribed_text@),
                spec_normalize(expected_text@),
            ),
    {
        let place = match self.find(&instance_id) {
            Some(place) => place,
            None => {
                return Err(WhisperError::NotFound(instance_id));
            },
        };
        Ok(
            self.instances[place].transcriber.validate_transcription(
                transcribed_text.as_str(),
                expected_text.as_str(),
            ),
        )
    }

    /// How full the buffer of a session is.
    ///
    /// Fails with `NotFound` exactly when no session has the identifier.
    pub fn get_buffer_status(&self, instance_id: String) -> (result: Result<
        BufferStatus,
        WhisperError,
    >)
        requires
            self.wf(),
        ensures
            result is Ok <==> self.ids().contains(instance_id@),
            result is Err ==> result->Err_0 == WhisperError::NotFound(instance_id),
            result is Ok ==> {
                let session = self.instances@[self.position(instance_id@)].transcriber;
                result->Ok_0 == session.status_for(session.audio_buffer@.len())
            },
    {
        let place = match self.find(&instance_id) {
            Some(place) => place,
            None => {
                return Err(WhisperError::NotFound(instance_id));
            },
        };
        Ok(self.instances[place].transcriber.get_buffer_status())
    }

    /// A copy of the counters of a session.
    ///
    /// Fails with `NotFound` exactly when no session has the identifier.
    pub fn get_processing_stats(&self, instance_id: String) -> (result: Result<
        ProcessingStats,
        WhisperError,
    >)
        requires
            self.wf(),
        ensures
            result is Ok <==> self.ids().contains(instance_id@),
            result is Err ==> result->Err_0 == WhisperError::NotFound(instance_id),
            result is Ok ==> result->Ok_0 == self.instances@[self.position(
                instance_id@,
            )].transcriber.dispatcher.stats,
    {
        let place = match self.find(&instance_id) {
            Some(place) => place,
            None => {
                return Err(WhisperError::NotFound(instance_id));
            },
        };
        Ok(self.instances[place].transcriber.get_stats())
    }
}

/// Removes every session and tells how many there were.
pub fn cleanup_all_transcribers<T: Copy>(api: &mut FlutterTranscriberApi<T>) -> (count: usize)
    ensures
        final(api).wf(),
        final(api).instances@.len() == 0,
        count == old(api).instances@.len(),
{
    let count: usize = api.instances.len();
    api.instances.clear();
    count
}

} // verus!
