use vstd::prelude::*;
use crate::error::join_text;
use crate::files::{decimal, push_decimal};

verus! {

/// Failures of a transcription or model-listing request.
#[derive(Debug, PartialEq, Eq)]
pub enum WhisperError {
    Io(String),
    Reqwest(String),
    ApiError { status: u16, message: String },
    Json(String),
    FileNotFound(String),
    ModelListingNotSupported,
}

pub open spec fn whisper_error_text(e: WhisperError) -> Seq<char> {
    match e {
        WhisperError::Io(m) => "IO Error: "@ + m@,
        WhisperError::Reqwest(m) => "HTTP Request Error: "@ + m@,
        WhisperError::ApiError { status, message } =>
            "API Error (Status: "@ + decimal(status as nat) + "): "@ + message@,
        WhisperError::Json(m) => "JSON Error: "@ + m@,
        WhisperError::FileNotFound(m) => "File not found: "@ + m@,
        WhisperError::ModelListingNotSupported => "Model listing not supported by this API"@,
    }
}

impl WhisperError {
    pub fn message(&self) -> (r: String)
        ensures
            r@ == whisper_error_text(*self),
    {
        match self {
            WhisperError::Io(m) => join_text("IO Error: ", m),
            WhisperError::Reqwest(m) => join_text("HTTP Request Error: ", m),
            WhisperError::ApiError { status, message } => {
                let mut out = String::from_str("API Error (Status: ");
                push_decimal(&mut out, *status as u64);
                out.append("): ");
                out.append(message.as_str());
                out
            },
            WhisperError::Json(m) => join_text("JSON Error: ", m),
            WhisperError::FileNotFound(m) => join_text("File not found: ", m),
            WhisperError::ModelListingNotSupported => String::from_str("Model listing not supported by this API"),
        }
    }
}

/// The service's answer to a transcription request.
#[derive(Debug)]
pub struct WhisperResponse {
    pub text: String,
}

/// One model offered by the service.
#[derive(Debug)]
pub struct ModelInfo {
    pub id: String,
}

/// What to send for one request: the endpoint, the bearer token if any, and
/// the model form field if any.
#[derive(Debug)]
pub struct RequestPlan {
    pub url: String,
    pub bearer_token: Option<String>,
    pub model: Option<String>,
}

/// `Some(s)` when `s` is not empty.
pub open spec fn non_empty(s: Seq<char>, r: Option<String>) -> bool {
    match r {
        None => s.len() == 0,
        Some(v) => s.len() != 0 && v@ == s,
    }
}

fn non_empty_text(s: &String) -> (r: Option<String>)
    ensures
        non_empty(s@, r),
{
    if s.as_str().unicode_len() == 0 {
        None
    } else {
        Some(s.clone())
    }
}

/// The request that uploads a recording for transcription.
pub fn transcription_request(api_url: &String, api_key: &String, default_model: &String) -> (r: RequestPlan)
    ensures
        r.url@ == api_url@ + "/v1/audio/transcriptions"@,
        non_empty(api_key@, r.bearer_token),
        non_empty(default_model@, r.model),
{
    let mut url = api_url.clone();
    url.append("/v1/audio/transcriptions");
    RequestPlan { url, bearer_token: non_empty_text(api_key), model: non_empty_text(default_model) }
}

/// The request that lists (or probes for) the service's models.
pub fn models_request(api_url: &String, api_key: &String) -> (r: RequestPlan)
    ensures
        r.url@ == api_url@ + "/v1/models"@,
        non_empty(api_key@, r.bearer_token),
        r.model is None,
{
    let mut url = api_url.clone();
    url.append("/v1/models");
    RequestPlan { url, bearer_token: non_empty_text(api_key), model: None }
}

/// HTTP status in the 2xx range.
pub open spec fn success_status(status: u16) -> bool {
    200 <= status <= 299
}

pub fn is_success_status(status: u16) -> (r: bool)
    ensures
        r == success_status(status),
{
    200 <= status && status <= 299
}

/// The error for a response with a non-success status; the body is the
/// message, or a fixed note when the body could not be read (`None`).
pub fn api_error(status: u16, body: Option<String>) -> (r: WhisperError)
    ensures
        r matches WhisperError::ApiError { status: s, message: m } && s == status && match body {
            Some(b) => m@ == b@,
            None => m@ == "Failed to read error body"@,
        },
{
    let message = match body {
        Some(b) => b,
        None => String::from_str("Failed to read error body"),
    };
    WhisperError::ApiError { status, message }
}

/// How sending a request failed.
#[derive(Debug)]
pub struct SendFailure {
    /// The service could not be reached, or did not answer in time.
    pub connect_or_timeout: bool,
    pub message: String,
}

/// Whether the service offers model listing, from the outcome of probing the
/// models endpoint: a reply says yes exactly when its status is a success, an
/// unreachable service says no, and any other failure is reported.
pub fn models_support_from_probe(outcome: Result<u16, SendFailure>) -> (r: Result<bool, WhisperError>)
    ensures
        match outcome {
            Ok(status) => r == Ok::<bool, WhisperError>(success_status(status)),
            Err(f) => if f.connect_or_timeout {
                r == Ok::<bool, WhisperError>(false)
            } else {
                r matches Err(WhisperError::Reqwest(m)) && m@ == f.message@
            },
        },
{
    match outcome {
        Ok(status) => Ok(is_success_status(status)),
        Err(f) => if f.connect_or_timeout {
            Ok(false)
        } else {
            Err(WhisperError::Reqwest(f.message))
        },
    }
}

/// Model listing goes ahead only where the service supports it.
pub fn require_model_listing(supported: bool) -> (r: Result<(), WhisperError>)
    ensures
        supported <==> r is Ok,
        !supported ==> r == Err::<(), WhisperError>(WhisperError::ModelListingNotSupported),
{
    if supported {
        Ok(())
    } else {
        Err(WhisperError::ModelListingNotSupported)
    }
}

/// The file name sent with an upload: the recording's own name, or
/// `audio.wav` when the path has none.
pub fn upload_file_name(name: Option<String>) -> (r: String)
    ensures
        match name {
            Some(n) => r@ == n@,
            None => r@ == "audio.wav"@,
        },
{
    match name {
        Some(n) => n,
        None => String::from_str("audio.wav"),
    }
}

} // verus!
