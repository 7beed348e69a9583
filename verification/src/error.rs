//! Error types for Karta.

use vstd::prelude::*;

verus! {

/// What went wrong. Errors that arise in outside libraries (I/O, parsing,
/// HTTP) are carried as the text that those libraries print for them.
#[derive(Debug, Clone, PartialEq)]
pub enum KartaError {
    Config(String),
    ProfileNotFound(String),
    Task(String),
    Telephony(String),
    VoiceEngine(String),
    Connection(String),
    Api(String),
    Io(String),
    Serialization(String),
    TomlParse(String),
    Http(String),
    Cancelled,
    EscalationRequired(String),
}

/// The message that an error prints.
pub open spec fn error_message(e: KartaError) -> Seq<char> {
    match e {
        KartaError::Config(s) => "Configuration error: "@ + s@,
        KartaError::ProfileNotFound(s) => "Principal profile not found at: "@ + s@,
        KartaError::Task(s) => "Task error: "@ + s@,
        KartaError::Telephony(s) => "Telephony error: "@ + s@,
        KartaError::VoiceEngine(s) => "Voice engine error: "@ + s@,
        KartaError::Connection(s) => "Connection failed: "@ + s@,
        KartaError::Api(s) => "API error: "@ + s@,
        KartaError::Io(s) => "IO error: "@ + s@,
        KartaError::Serialization(s) => "Serialization error: "@ + s@,
        KartaError::TomlParse(s) => "TOML parse error: "@ + s@,
        KartaError::Http(s) => "HTTP error: "@ + s@,
        KartaError::Cancelled => "User cancelled operation"@,
        KartaError::EscalationRequired(s) => "Escalation required: "@ + s@,
    }
}

fn prefixed(prefix: &str, s: &String) -> (r: String)
    ensures
        r@ == prefix@ + s@,
{
    let mut r = String::from_str(prefix);
    r.append(s.as_str());
    r
}

impl KartaError {
    /// The message that this error prints.
    pub fn message(&self) -> (r: String)
        ensures
            r@ == error_message(*self),
    {
        match self {
            KartaError::Config(s) => prefixed("Configuration error: ", s),
            KartaError::ProfileNotFound(s) => prefixed("Principal profile not found at: ", s),
            KartaError::Task(s) => prefixed("Task error: ", s),
            KartaError::Telephony(s) => prefixed("Telephony error: ", s),
            KartaError::VoiceEngine(s) => prefixed("Voice engine error: ", s),
            KartaError::Connection(s) => prefixed("Connection failed: ", s),
            KartaError::Api(s) => prefixed("API error: ", s),
            KartaError::Io(s) => prefixed("IO error: ", s),
            KartaError::Serialization(s) => prefixed("Serialization error: ", s),
            KartaError::TomlParse(s) => prefixed("TOML parse error: ", s),
            KartaError::Http(s) => prefixed("HTTP error: ", s),
            KartaError::Cancelled => String::from_str("User cancelled operation"),
            KartaError::EscalationRequired(s) => prefixed("Escalation required: ", s),
        }
    }
}

} // verus!
