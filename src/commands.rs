use vstd::prelude::*;
use crate::config::{config_error_text, ConfigError};
use crate::error::{audio_error_text, AudioError};
use crate::files::{file_error_text, FileError};
use crate::whisper::{whisper_error_text, WhisperError};

verus! {

/// The uniform error the command layer reports: a readable message.
#[derive(Debug)]
pub struct CommandError {
    message: String,
}

impl CommandError {
    pub closed spec fn text(&self) -> Seq<char> {
        self.message@
    }

    pub fn new(message: String) -> (r: Self)
        ensures
            r.text() == message@,
    {
        CommandError { message }
    }

    pub fn message(&self) -> (r: String)
        ensures
            r@ == self.text(),
    {
        self.message.clone()
    }
}

impl CommandError {
    pub fn from_audio(e: &AudioError) -> (r: Self)
        ensures
            r.text() == audio_error_text(*e),
    {
        CommandError { message: e.message() }
    }

    pub fn from_file(e: &FileError) -> (r: Self)
        ensures
            r.text() == file_error_text(*e),
    {
        CommandError { message: e.message() }
    }

    pub fn from_config(e: &ConfigError) -> (r: Self)
        ensures
            r.text() == config_error_text(*e),
    {
        CommandError { message: e.message() }
    }

    pub fn from_whisper(e: &WhisperError) -> (r: Self)
        ensures
            r.text() == whisper_error_text(*e),
    {
        CommandError { message: e.message() }
    }
}

/// The view of an optional text.
pub open spec fn opt_text(o: Option<String>) -> Option<Seq<char>> {
    match o {
        Some(t) => Some(t@),
        None => None,
    }
}

fn clone_opt_text(o: &Option<String>) -> (r: Option<String>)
    ensures
        opt_text(r) == opt_text(*o),
{
    match o {
        Some(t) => Some(t.clone()),
        None => None,
    }
}

/// Reply of a command that either succeeded or failed with a message.
#[derive(Debug)]
pub struct SimpleResult {
    success: bool,
    error: Option<String>,
}

impl SimpleResult {
    pub closed spec fn flag(&self) -> bool {
        self.success
    }

    pub closed spec fn error_text(&self) -> Option<Seq<char>> {
        opt_text(self.error)
    }

    pub fn succeeded() -> (r: Self)
        ensures
            r.flag(),
            r.error_text() is None,
    {
        SimpleResult { success: true, error: None }
    }

    pub fn success(&self) -> (r: bool)
        ensures
            r == self.flag(),
    {
        self.success
    }

    pub fn error(&self) -> (r: Option<String>)
        ensures
            opt_text(r) == self.error_text(),
    {
        clone_opt_text(&self.error)
    }
}

/// Reply of a stop command: the transcript, or the reason there is none.
#[derive(Debug)]
pub struct TranscriptionResult {
    success: bool,
    transcript: Option<String>,
    error: Option<String>,
}

impl TranscriptionResult {
    pub closed spec fn flag(&self) -> bool {
        self.success
    }

    pub closed spec fn transcript_text(&self) -> Option<Seq<char>> {
        opt_text(self.transcript)
    }

    pub closed spec fn error_text(&self) -> Option<Seq<char>> {
        opt_text(self.error)
    }

    pub fn transcribed(text: String) -> (r: Self)
        ensures
            r.flag(),
            r.transcript_text() == Some(text@),
            r.error_text() is None,
    {
        TranscriptionResult { success: true, transcript: Some(text), error: None }
    }

    pub fn success(&self) -> (r: bool)
        ensures
            r == self.flag(),
    {
        self.success
    }

    pub fn transcript(&self) -> (r: Option<String>)
        ensures
            opt_text(r) == self.transcript_text(),
    {
        clone_opt_text(&self.transcript)
    }

    pub fn error(&self) -> (r: Option<String>)
        ensures
            opt_text(r) == self.error_text(),
    {
        clone_opt_text(&self.error)
    }
}

} // verus!
