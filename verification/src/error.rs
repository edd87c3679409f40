//! The error type shared by every fallible operation of the library.

use vstd::prelude::*;
use vstd::string::StringExecFns;

verus! {

/// What went wrong, with a short text for the person reading a log.
#[derive(Debug, Clone, PartialEq, Eq)]
pub enum WhisperError {
    /// The recognition backend could not be brought up for a model.
    ModelInitError(String),
    /// A model handle is not usable.
    InvalidModel(String),
    /// The recognition backend failed on one window.
    ProcessingError(String),
    /// A per-call argument is out of range.
    InvalidParameter(String),
    /// The audio handed in cannot be used.
    InvalidAudioData,
    /// A consistency failure inside the library's surroundings.
    InternalError(String),
    /// Window, overlap, sample rate or buffer length do not fit together.
    InvalidConfiguration(String),
    /// No session is registered under the identifier.
    NotFound(String),
    /// A session is already registered under the identifier.
    AlreadyExists(String),
    /// The sample buffer could not be reached.
    BufferError(String),
}

impl WhisperError {
    /// The fixed text that introduces each kind of error.
    pub open spec fn spec_prefix(self) -> Seq<char> {
        match self {
            WhisperError::ModelInitError(_) => "Failed to initialize model: "@,
            WhisperError::InvalidModel(_) => "Invalid model: "@,
            WhisperError::ProcessingError(_) => "Failed to process audio: "@,
            WhisperError::InvalidParameter(_) => "Invalid parameter: "@,
            WhisperError::InvalidAudioData => "Invalid audio data"@,
            WhisperError::InternalError(_) => "Internal error: "@,
            WhisperError::InvalidConfiguration(_) => "Invalid configuration: "@,
            WhisperError::NotFound(_) => "Not found: "@,
            WhisperError::AlreadyExists(_) => "Already exists: "@,
            WhisperError::BufferError(_) => "Buffer error: "@,
        }
    }

    /// The text carried by the error, empty where the kind carries none.
    pub open spec fn spec_detail(self) -> Seq<char> {
        match self {
            WhisperError::ModelInitError(m) => m@,
            WhisperError::InvalidModel(m) => m@,
            WhisperError::ProcessingError(m) => m@,
            WhisperError::InvalidParameter(m) => m@,
            WhisperError::InvalidAudioData => Seq::<char>::empty(),
            WhisperError::InternalError(m) => m@,
            WhisperError::InvalidConfiguration(m) => m@,
            WhisperError::NotFound(m) => m@,
            WhisperError::AlreadyExists(m) => m@,
            WhisperError::BufferError(m) => m@,
        }
    }

    /// The error as one line of text: the kind's prefix, then the detail.
    pub fn message(&self) -> (text: String)
        ensures
            text@ == self.spec_prefix() + self.spec_detail(),
    {
        match self {
            WhisperError::ModelInitError(m) => String::from_str("Failed to initialize model: ").concat(
                m.as_str(),
            ),
            WhisperError::InvalidModel(m) => String::from_str("Invalid model: ").concat(m.as_str()),
            WhisperError::ProcessingError(m) => String::from_str("Failed to process audio: ").concat(
                m.as_str(),
            ),
            WhisperError::InvalidParameter(m) => String::from_str("Invalid parameter: ").concat(
                m.as_str(),
            ),
            WhisperError::InvalidAudioData => {
                let text = String::from_str("Invalid audio data");
                assert(text@ =~= self.spec_prefix() + self.spec_detail());
                text
            },
            WhisperError::InternalError(m) => String::from_str("Internal error: ").concat(m.as_str()),
            WhisperError::InvalidConfiguration(m) => String::from_str(
                "Invalid configuration: ",
            ).concat(m.as_str()),
            WhisperError::NotFound(m) => String::from_str("Not found: ").concat(m.as_str()),
            WhisperError::AlreadyExists(m) => String::from_str("Already exists: ").concat(m.as_str()),
            WhisperError::BufferError(m) => String::from_str("Buffer error: ").concat(m.as_str()),
        }
    }
}

} // verus!
