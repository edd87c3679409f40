//! Sessions for Quran recitation, and the place where the verdict of an
//! outside validator joins a transcription.

use crate::dispatcher::TranscriptionResult;
use crate::error::WhisperError;
use crate::flutter_api::{FlutterTranscriberApi, FrbTranscriberConfig};
use vstd::prelude::*;
use vstd::string::StringExecFns;

verus! {

/// Marks the boundary to a validator that lives outside this library.
#[derive(Clone, Copy, Debug, PartialEq, Eq, Structural)]
pub struct ExternalValidationInterface;

/// The verdict of the outside validator on one transcription.
#[derive(Clone, Debug, PartialEq, Eq)]
pub struct FrbQuranValidation {
    pub is_valid: bool,
    pub similarity_permille: u32,
    pub correct_text: String,
    pub word_count_match: i32,
    pub ayah_position: i32,
}

/// A transcription together with the outside validator's verdict on it,
/// where a validator is registered.
#[derive(Clone, Debug, PartialEq, Eq)]
pub struct FrbTranscriptionWithQuranValidation {
    pub transcription: TranscriptionResult,
    pub quran_validation: Option<FrbQuranValidation>,
    pub timestamp: u64,
}

/// The settings of a recitation session.
#[derive(Clone, Debug, PartialEq, Eq)]
pub struct FrbQuranSessionConfig {
    pub model_path: String,
    pub window_duration_ms: u32,
    pub overlap_duration_ms: u32,
    pub reading_speed_wpm: u32,
    /// From 1, lenient, to 5, strict.
    pub strictness_level: u32,
}

/// The verse a reciter is expected to read next.
#[derive(Clone, Debug, PartialEq, Eq)]
pub struct FrbNextAyahInfo {
    pub surah_id: i32,
    pub ayah_id: i32,
    pub expected_text: String,
    pub ayah_length: i32,
    pub estimated_duration_ms: u32,
}

impl Default for FrbQuranSessionConfig {
    /// Windows of three seconds that share one second, a reading speed of
    /// 80 words a minute, medium strictness, the smallest model.
    fn default() -> (config: Self)
        ensures
            config.model_path@ == "ggml-tiny.bin"@,
            config.window_duration_ms == 3000,
            config.overlap_duration_ms == 1000,
            config.reading_speed_wpm == 80,
            config.strictness_level == 3,
    {
        FrbQuranSessionConfig {
            model_path: String::from_str("ggml-tiny.bin"),
            window_duration_ms: 3000,
            overlap_duration_ms: 1000,
            reading_speed_wpm: 80,
            strictness_level: 3,
        }
    }
}

/// The recitation services on top of the session registry.
#[derive(Clone, Copy, Debug, PartialEq, Eq, Structural)]
pub struct IntegratedFlutterApi;

impl IntegratedFlutterApi {
    /// Registers a session for recitation: Arabic at 16 kHz in chunks of
    /// 50 ms, with the window and overlap of the session's settings. It
    /// succeeds and fails as the registry's `create_transcriber` does.
    pub fn start_quran_session<T: Copy>(
        api: &mut FlutterTranscriberApi<T>,
        instance_id: String,
        surah_id: i32,
        starting_ayah_id: i32,
        session_config: FrbQuranSessionConfig,
        model_available: bool,
    ) -> (result: Result<(), WhisperError>)
        requires
            old(api).wf(),
        ensures
            final(api).wf(),
            exists|config: FrbTranscriberConfig|
                config.is_arabic_preset(
                    session_config.model_path@,
                    session_config.window_duration_ms,
                    session_config.overlap_duration_ms,
                ) && FlutterTranscriberApi::session_created(
                    *old(api),
                    *final(api),
                    instance_id@,
                    config,
                    model_available,
                    result,
                ),
    {
        let config = FrbTranscriberConfig::arabic_preset(
            session_config.model_path,
            session_config.window_duration_ms,
            session_config.overlap_duration_ms,
        );
        api.create_transcriber(instance_id, config, model_available)
    }

    /// The verse after the given one in the same chapter, with the
    /// opening formula as its expected text.
    ///
    /// Fails with `InvalidParameter` exactly when the verse number cannot
    /// be counted up.
    pub fn get_next_expected_ayah(current_surah_id: i32, current_ayah_id: i32) -> (result: Result<
        FrbNextAyahInfo,
        WhisperError,
    >)
        ensures
            result is Ok <==> current_ayah_id < i32::MAX,
            result is Err ==> result->Err_0 is InvalidParameter,
            result is Ok ==> {
                let next = result->Ok_0;
                &&& next.surah_id == current_surah_id
                &&& next.ayah_id == current_ayah_id + 1
                &&& next.expected_text@ == "بسم الله الرحمن الرحيم"@
                &&& next.ayah_length == 19
                &&& next.estimated_duration_ms == 5000
            },
    {
        if current_ayah_id == i32::MAX {
            return Err(WhisperError::InvalidParameter(String::from_str("No verse follows")));
        }
        Ok(
            FrbNextAyahInfo {
                surah_id: current_surah_id,
                ayah_id: current_ayah_id + 1,
                expected_text: String::from_str("بسم الله الرحمن الرحيم"),
                ayah_length: 19,
                estimated_duration_ms: 5000,
            },
        )
    }

    /// Joins a transcription with the outside validator's verdict on it
    /// and the time at which the two were joined.
    pub fn attach_quran_validation(
        transcription: TranscriptionResult,
        quran_validation: Option<FrbQuranValidation>,
        timestamp: u64,
    ) -> (joined: FrbTranscriptionWithQuranValidation)
        ensures
            joined.transcription == transcription,
            joined.quran_validation == quran_validation,
            joined.timestamp == timestamp,
    {
        FrbTranscriptionWithQuranValidation { transcription, quran_validation, timestamp }
    }
}

} // verus!
