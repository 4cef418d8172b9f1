//! Error taxonomy of the audio engine.

use vstd::prelude::*;

verus! {

/// Every way an engine operation can fail.
///
/// `NoDefaultDevice` is a startup-only condition; `UnsupportedSampleFormat`
/// is a construction-time condition that a total dispatcher rules out at
/// runtime; `DoubleStop` marks a caller protocol violation on the stop
/// signal. The remaining variants are per-call and recoverable.
#[derive(Clone, Copy, Debug, PartialEq, Eq, Structural)]
pub enum AudioError {
    DeviceEnumerationError,
    DeviceNotFound,
    NoDefaultDevice,
    UnsupportedSampleFormat,
    StreamSetupError,
    RecordingFileError,
    DoubleStop,
}

impl AudioError {
    /// The transport-safe rendering of this error.
    pub open spec fn spec_message(self) -> Seq<char> {
        match self {
            AudioError::DeviceEnumerationError => "audio devices could not be enumerated"@,
            AudioError::DeviceNotFound => "no audio device with that name exists"@,
            AudioError::NoDefaultDevice => "no default audio device is available"@,
            AudioError::UnsupportedSampleFormat => "the sample format is not supported"@,
            AudioError::StreamSetupError => "the audio stream could not be built"@,
            AudioError::RecordingFileError => "the recording file could not be created"@,
            AudioError::DoubleStop => "stop was signalled more than once"@,
        }
    }

    /// Renders the error as a message string for the command boundary.
    pub fn message(&self) -> (r: String)
        ensures
            r@ == self.spec_message(),
    {
        match self {
            AudioError::DeviceEnumerationError => "audio devices could not be enumerated".to_owned(),
            AudioError::DeviceNotFound => "no audio device with that name exists".to_owned(),
            AudioError::NoDefaultDevice => "no default audio device is available".to_owned(),
            AudioError::UnsupportedSampleFormat => "the sample format is not supported".to_owned(),
            AudioError::StreamSetupError => "the audio stream could not be built".to_owned(),
            AudioError::RecordingFileError => "the recording file could not be created".to_owned(),
            AudioError::DoubleStop => "stop was signalled more than once".to_owned(),
        }
    }
}

} // verus!
