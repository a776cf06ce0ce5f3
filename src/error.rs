use vstd::prelude::*;

verus! {

/// Failures of the recording subsystem. Payloads carry the driver's or the
/// codec's own description of what went wrong.
#[derive(Debug, PartialEq, Eq)]
pub enum AudioError {
    NoDefaultInputDevice,
    NoSupportedConfig,
    SupportedConfigsError(String),
    BuildStreamError(String),
    PlayStreamError(String),
    PauseStreamError(String),
    WavError(String),
    IoError(String),
    AlreadyRecording,
    NotRecording,
    BufferEmpty,
    NotInitialized,
}

/// Human-readable description of an audio failure.
pub open spec fn audio_error_text(e: AudioError) -> Seq<char> {
    match e {
        AudioError::NoDefaultInputDevice => "No default input device found"@,
        AudioError::NoSupportedConfig => "No supported input config found"@,
        AudioError::SupportedConfigsError(m) => "Failed to get supported input configs: "@ + m@,
        AudioError::BuildStreamError(m) => "Failed to build input stream: "@ + m@,
        AudioError::PlayStreamError(m) => "Failed to play stream: "@ + m@,
        AudioError::PauseStreamError(m) => "Failed to pause stream: "@ + m@,
        AudioError::WavError(m) => "WAV Error: "@ + m@,
        AudioError::IoError(m) => "IO Error: "@ + m@,
        AudioError::AlreadyRecording => "Recording is already in progress"@,
        AudioError::NotRecording => "Not currently recording"@,
        AudioError::BufferEmpty => "Audio buffer is unexpectedly empty"@,
        AudioError::NotInitialized => "Audio recorder components (device/config) not initialized"@,
    }
}

/// `prefix` followed by `detail`.
pub fn join_text(prefix: &str, detail: &String) -> (r: String)
    ensures
        r@ == prefix@ + detail@,
{
    let mut out = String::from_str(prefix);
    out.append(detail.as_str());
    out
}

impl AudioError {
    pub fn message(&self) -> (r: String)
        ensures
            r@ == audio_error_text(*self),
    {
        match self {
            AudioError::NoDefaultInputDevice => String::from_str("No default input device found"),
            AudioError::NoSupportedConfig => String::from_str("No supported input config found"),
            AudioError::SupportedConfigsError(m) => join_text("Failed to get supported input configs: ", m),
            AudioError::BuildStreamError(m) => join_text("Failed to build input stream: ", m),
            AudioError::PlayStreamError(m) => join_text("Failed to play stream: ", m),
            AudioError::PauseStreamError(m) => join_text("Failed to pause stream: ", m),
            AudioError::WavError(m) => join_text("WAV Error: ", m),
            AudioError::IoError(m) => join_text("IO Error: ", m),
            AudioError::AlreadyRecording => String::from_str("Recording is already in progress"),
            AudioError::NotRecording => String::from_str("Not currently recording"),
            AudioError::BufferEmpty => String::from_str("Audio buffer is unexpectedly empty"),
            AudioError::NotInitialized => String::from_str("Audio recorder components (device/config) not initialized"),
        }
    }
}

} // verus!
