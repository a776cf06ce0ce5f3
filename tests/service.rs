use dictator::commands::{CommandError, SimpleResult, TranscriptionResult};
use dictator::config::{ConfigError, DictatorConfig};
use dictator::error::AudioError;
use dictator::files::{cleanup_old_recordings, create_new_recording_file_path, FileError};
use dictator::whisper::{
    api_error, is_success_status, models_request, models_support_from_probe, require_model_listing,
    transcription_request, upload_file_name, SendFailure, WhisperError,
};

#[test]
fn recording_path_from_timestamp() {
    assert_eq!(
        create_new_recording_file_path("/cache/recordings", Some(1700000000)),
        Ok("/cache/recordings/1700000000.wav".to_string())
    );
    assert_eq!(create_new_recording_file_path("/cache/", Some(0)), Ok("/cache/0.wav".to_string()));
    assert_eq!(create_new_recording_file_path("", Some(42)), Ok("42.wav".to_string()));
    assert_eq!(
        create_new_recording_file_path("/r", Some(u64::MAX)),
        Ok("/r/18446744073709551615.wav".to_string())
    );
}

#[test]
fn recording_path_clock_before_epoch() {
    assert_eq!(create_new_recording_file_path("/r", None), Err(FileError::TimeError));
}

#[test]
fn cleanup_is_a_no_op() {
    assert_eq!(cleanup_old_recordings(), Ok(()));
}

#[test]
fn default_settings() {
    let c = DictatorConfig::default();
    assert_eq!(c.api_url, "http://localhost:9934");
    assert_eq!(c.api_key, "");
    assert_eq!(c.default_model, "");
    assert_eq!(c.theme, "catppuccinMocha");
    assert_eq!(c.clone().api_url, c.api_url);
}

#[test]
fn error_messages() {
    assert_eq!(AudioError::AlreadyRecording.message(), "Recording is already in progress");
    assert_eq!(AudioError::NotRecording.message(), "Not currently recording");
    assert_eq!(AudioError::WavError("disk full".to_string()).message(), "WAV Error: disk full");
    assert_eq!(FileError::TimeError.message(), "System time error");
    assert_eq!(ConfigError::Json("bad".to_string()).message(), "JSON Error: bad");
    assert_eq!(
        WhisperError::ApiError { status: 404, message: "nope".to_string() }.message(),
        "API Error (Status: 404): nope"
    );
    assert_eq!(
        CommandError::from_audio(&AudioError::BuildStreamError("busy".to_string())).message(),
        "Failed to build input stream: busy"
    );
    assert_eq!(CommandError::from_file(&FileError::NoProjectDirs).message(), "Could not find project directories");
    assert_eq!(CommandError::from_config(&ConfigError::Io("x".to_string())).message(), "IO Error: x");
    assert_eq!(
        CommandError::from_whisper(&WhisperError::ModelListingNotSupported).message(),
        "Model listing not supported by this API"
    );
    assert_eq!(CommandError::new("m".to_string()).message(), "m");
}

#[test]
fn command_results() {
    let s = SimpleResult::succeeded();
    assert!(s.success());
    assert_eq!(s.error(), None);
    let t = TranscriptionResult::transcribed("hello".to_string());
    assert!(t.success());
    assert_eq!(t.transcript(), Some("hello".to_string()));
    assert_eq!(t.error(), None);
}

#[test]
fn transcription_request_fields() {
    let r = transcription_request(&"http://h:1".to_string(), &"k".to_string(), &"".to_string());
    assert_eq!(r.url, "http://h:1/v1/audio/transcriptions");
    assert_eq!(r.bearer_token, Some("k".to_string()));
    assert_eq!(r.model, None);
    let r = transcription_request(&"u".to_string(), &"".to_string(), &"base".to_string());
    assert_eq!(r.bearer_token, None);
    assert_eq!(r.model, Some("base".to_string()));
    let m = models_request(&"u".to_string(), &"".to_string());
    assert_eq!(m.url, "u/v1/models");
    assert_eq!(m.bearer_token, None);
}

#[test]
fn status_and_probe_outcomes() {
    assert!(is_success_status(200));
    assert!(is_success_status(299));
    assert!(!is_success_status(300));
    assert!(!is_success_status(199));
    assert_eq!(models_support_from_probe(Ok(200)), Ok(true));
    assert_eq!(models_support_from_probe(Ok(404)), Ok(false));
    let down = SendFailure { connect_or_timeout: true, message: "refused".to_string() };
    assert_eq!(models_support_from_probe(Err(down)), Ok(false));
    let other = SendFailure { connect_or_timeout: false, message: "bad url".to_string() };
    assert_eq!(models_support_from_probe(Err(other)), Err(WhisperError::Reqwest("bad url".to_string())));
    assert_eq!(require_model_listing(true), Ok(()));
    assert_eq!(require_model_listing(false), Err(WhisperError::ModelListingNotSupported));
}

#[test]
fn api_errors_and_upload_names() {
    assert_eq!(
        api_error(500, Some("boom".to_string())),
        WhisperError::ApiError { status: 500, message: "boom".to_string() }
    );
    assert_eq!(
        api_error(401, None),
        WhisperError::ApiError { status: 401, message: "Failed to read error body".to_string() }
    );
    assert_eq!(upload_file_name(Some("1.wav".to_string())), "1.wav");
    assert_eq!(upload_file_name(None), "audio.wav");
}
