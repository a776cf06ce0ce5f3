//! Recording core of a desktop dictation tool: input-format negotiation, the
//! capture-session state machine shared with the audio driver callback, WAV
//! encoding, recording file naming, settings and transcription-request rules.
pub mod commands;
pub mod config;
pub mod error;
pub mod files;
pub mod negotiate;
pub mod recorder;
pub mod session;
pub mod wav;
pub mod whisper;
