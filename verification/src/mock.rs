//! A stand-in for the recognition backend that answers with fixed texts,
//! for trying the library without a model.

use crate::error::WhisperError;
use vstd::prelude::*;
use vstd::string::StringExecFns;

verus! {

/// The handle of the stand-in backend.
pub const MOCK_INSTANCE_ID: i32 = 999;

/// The fixed text for a language hint: one for Arabic, one for English,
/// and one for every other hint or none.
pub open spec fn mock_text(language: Option<Seq<char>>) -> Seq<char> {
    if language == Some("ar"@) {
        "بسم الله الرحمن الرحيم"@
    } else if language == Some("en"@) {
        "This is a mock transcription for testing."@
    } else {
        "Mock transcription text."@
    }
}

/// The fixed segments for a language hint, one per line.
pub open spec fn mock_segments(language: Option<Seq<char>>) -> Seq<char> {
    if language == Some("ar"@) {
        "بسم الله الرحمن الرحيم"@ + "\n"@ + "الحمد لله رب العالمين"@ + "\n"@
            + "الرحمن الرحيم"@ + "\n"@ + "مالك يوم الدين"@
    } else if language == Some("en"@) {
        "This is a mock transcription."@ + "\n"@ + "Using sliding window approach."@ + "\n"@
            + "For testing purposes only."@ + "\n"@ + "Without loading actual models."@
    } else {
        "Mock segment 1."@ + "\n"@ + "Mock segment 2."@ + "\n"@ + "Mock segment 3."@
    }
}

/// The language hint as plain characters.
pub open spec fn hint_view(language: Option<&str>) -> Option<Seq<char>> {
    match language {
        Some(text) => Some(text@),
        None => None,
    }
}

/// Whether the hint is the given language code.
fn hint_is(language: &Option<&str>, code: &str) -> (same: bool)
    ensures
        same == (hint_view(*language) == Some(code@)),
{
    match language {
        Some(text) => String::from_str(text) == String::from_str(code),
        None => false,
    }
}

/// Brings up the stand-in backend, which always succeeds.
pub fn init_mock() -> (result: Result<i32, WhisperError>)
    ensures
        result == Ok::<i32, WhisperError>(MOCK_INSTANCE_ID),
{
    Ok(MOCK_INSTANCE_ID)
}

/// Answers with the fixed text for the language hint, whatever the audio.
pub fn process_audio_mock<T>(audio_data: &[T], language: Option<&str>) -> (result: Result<
    String,
    WhisperError,
>)
    ensures
        result is Ok,
        result->Ok_0@ == mock_text(hint_view(language)),
{
    if hint_is(&language, "ar") {
        Ok(String::from_str("بسم الله الرحمن الرحيم"))
    } else if hint_is(&language, "en") {
        Ok(String::from_str("This is a mock transcription for testing."))
    } else {
        Ok(String::from_str("Mock transcription text."))
    }
}

/// Answers with the fixed segments for the language hint, one per line,
/// whatever the audio and the window settings.
pub fn process_audio_sliding_window_mock<T>(
    audio_data: &[T],
    window_size_ms: u32,
    step_size_ms: u32,
    sample_rate: i32,
    language: Option<&str>,
) -> (result: Result<String, WhisperError>)
    ensures
        result is Ok,
        result->Ok_0@ == mock_segments(hint_view(language)),
{
    if hint_is(&language, "ar") {
        Ok(
            String::from_str("بسم الله الرحمن الرحيم").concat("\n").concat(
                "الحمد لله رب العالمين",
            ).concat("\n").concat("الرحمن الرحيم").concat("\n").concat("مالك يوم الدين"),
        )
    } else if hint_is(&language, "en") {
        Ok(
            String::from_str("This is a mock transcription.").concat("\n").concat(
                "Using sliding window approach.",
            ).concat("\n").concat("For testing purposes only.").concat("\n").concat(
                "Without loading actual models.",
            ),
        )
    } else {
        Ok(
            String::from_str("Mock segment 1.").concat("\n").concat("Mock segment 2.").concat(
                "\n",
            ).concat("Mock segment 3."),
        )
    }
}

/// A word the stand-in accepts whatever the dictionary holds.
pub open spec fn is_always_valid(word: Seq<char>) -> bool {
    word == "test"@ || word == "mock"@ || word == "الله"@
}

/// Whether `word` is one of the words always accepted, or occurs in the
/// dictionary as it stands.
pub fn validate_word_mock(word: &str, global_data_words: &[&str]) -> (valid: bool)
    ensures
        valid == (is_always_valid(word@) || exists|i: int|
            0 <= i < global_data_words@.len() && (#[trigger] global_data_words@[i])@ == word@),
{
    let wanted = String::from_str(word);
    if wanted == String::from_str("test") || wanted == String::from_str("mock") || wanted
        == String::from_str("الله") {
        return true;
    }
    let mut i: usize = 0;
    while i < global_data_words.len()
        invariant
            i <= global_data_words@.len(),
            wanted@ == word@,
            forall|j: int| 0 <= j < i ==> (#[trigger] global_data_words@[j])@ != word@,
        decreases global_data_words@.len() - i,
    {
        if String::from_str(global_data_words[i]) == wanted {
            return true;
        }
        i = i + 1;
    }
    false
}

} // verus!
