//! Voice engines: speech and conversation with a language model.

pub mod engine;
pub mod gemini;
pub mod mock;

use vstd::prelude::*;

use crate::config::{VoiceConfig, VoiceProvider};
use crate::error::KartaError;
use crate::task::task::{copy_opt_text, opt_text};

verus! {

/// The voice engine that a configuration calls for.
#[derive(Debug)]
pub enum EngineSetup {
    Mock,
    Gemini { api_key: String, model: String },
    /// OpenAI's realtime API is configured but not available: the mock
    /// engine stands in for it.
    OpenAIUnavailable,
}

/// The model used where the configuration names none.
pub open spec fn default_gemini_model() -> Seq<char> {
    "gemini-2.0-flash-exp"@
}

/// Decide which voice engine to create: the configured one; a configuration
/// without the key its provider needs is refused.
pub fn engine_setup(config: &VoiceConfig) -> (r: Result<EngineSetup, KartaError>)
    ensures
        match config.provider {
            VoiceProvider::Mock => r matches Ok(EngineSetup::Mock),
            VoiceProvider::Gemini => match config.gemini_api_key {
                None => r matches Err(KartaError::Config(m)) && m@ == "Gemini API key required"@,
                Some(k) => r matches Ok(EngineSetup::Gemini { api_key, model })
                    && api_key@ == k@ && model@ == match opt_text(config.model) {
                        Some(m) => m,
                        None => default_gemini_model(),
                    },
            },
            VoiceProvider::OpenAI => match config.openai_api_key {
                None => r matches Err(KartaError::Config(m)) && m@ == "OpenAI API key required"@,
                Some(_) => r matches Ok(EngineSetup::OpenAIUnavailable),
            },
        },
{
    match config.provider {
        VoiceProvider::Mock => Ok(EngineSetup::Mock),
        VoiceProvider::Gemini => {
            let api_key = match copy_opt_text(&config.gemini_api_key) {
                Some(k) => k,
                None => return Err(KartaError::Config(String::from_str("Gemini API key required"))),
            };
            let model = match copy_opt_text(&config.model) {
                Some(m) => m,
                None => String::from_str("gemini-2.0-flash-exp"),
            };
            Ok(EngineSetup::Gemini { api_key, model })
        },
        VoiceProvider::OpenAI => {
            if config.openai_api_key.is_none() {
                return Err(KartaError::Config(String::from_str("OpenAI API key required")));
            }
            Ok(EngineSetup::OpenAIUnavailable)
        },
    }
}

} // verus!
