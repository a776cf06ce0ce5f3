use vstd::prelude::*;
use crate::error::join_text;

verus! {

/// Failures while loading or saving the settings file.
#[derive(Debug, PartialEq, Eq)]
pub enum ConfigError {
    NoProjectDirs,
    Io(String),
    Json(String),
}

pub open spec fn config_error_text(e: ConfigError) -> Seq<char> {
    match e {
        ConfigError::NoProjectDirs => "Could not find project directories"@,
        ConfigError::Io(m) => "IO Error: "@ + m@,
        ConfigError::Json(m) => "JSON Error: "@ + m@,
    }
}

impl ConfigError {
    pub fn message(&self) -> (r: String)
        ensures
            r@ == config_error_text(*self),
    {
        match self {
            ConfigError::NoProjectDirs => String::from_str("Could not find project directories"),
            ConfigError::Io(m) => join_text("IO Error: ", m),
            ConfigError::Json(m) => join_text("JSON Error: ", m),
        }
    }
}

/// User settings: where the transcription service lives, how to authenticate,
/// which model to ask for, and the interface theme.
#[derive(Debug)]
pub struct DictatorConfig {
    pub api_url: String,
    pub api_key: String,
    pub default_model: String,
    pub theme: String,
}

impl Clone for DictatorConfig {
    fn clone(&self) -> (r: Self)
        ensures
            r@ == self@,
    {
        DictatorConfig {
            api_url: self.api_url.clone(),
            api_key: self.api_key.clone(),
            default_model: self.default_model.clone(),
            theme: self.theme.clone(),
        }
    }
}

/// The settings as four character sequences: url, key, model, theme.
impl View for DictatorConfig {
    type V = (Seq<char>, Seq<char>, Seq<char>, Seq<char>);

    open spec fn view(&self) -> Self::V {
        (self.api_url@, self.api_key@, self.default_model@, self.theme@)
    }
}

impl Default for DictatorConfig {
    /// A local service on port 9934, no key, no model, the dark theme.
    fn default() -> (r: Self)
        ensures
            r@ == ("http://localhost:9934"@, ""@, ""@, "catppuccinMocha"@),
    {
        DictatorConfig {
            api_url: String::from_str("http://localhost:9934"),
            api_key: String::from_str(""),
            default_model: String::from_str(""),
            theme: String::from_str("catppuccinMocha"),
        }
    }
}

} // verus!
