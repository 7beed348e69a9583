//! Configuration: the principal profile, the agent's personality, and the
//! telephony and voice settings.

pub mod agent;
pub mod principal;

use vstd::prelude::*;

use crate::config::agent::{is_default_agent, AgentConfig};
use crate::config::principal::{is_default_profile, PrincipalProfile};

verus! {

#[derive(Debug, Clone, Copy, PartialEq, Eq, Structural)]
pub enum TelephonyProvider {
    Mock,
    Twilio,
    Telnyx,
}

#[derive(Debug, Clone, Copy, PartialEq, Eq, Structural)]
pub enum VoiceProvider {
    Mock,
    Gemini,
    OpenAI,
}

/// The name by which `{:?}` shows a telephony provider.
pub open spec fn telephony_provider_name(p: TelephonyProvider) -> Seq<char> {
    match p {
        TelephonyProvider::Mock => "Mock"@,
        TelephonyProvider::Twilio => "Twilio"@,
        TelephonyProvider::Telnyx => "Telnyx"@,
    }
}

/// The name by which `{:?}` shows a voice provider.
pub open spec fn voice_provider_name(p: VoiceProvider) -> Seq<char> {
    match p {
        VoiceProvider::Mock => "Mock"@,
        VoiceProvider::Gemini => "Gemini"@,
        VoiceProvider::OpenAI => "OpenAI"@,
    }
}

impl TelephonyProvider {
    /// The name by which `{:?}` shows the provider.
    pub fn debug_text(&self) -> (s: String)
        ensures
            s@ == telephony_provider_name(*self),
    {
        match self {
            TelephonyProvider::Mock => String::from_str("Mock"),
            TelephonyProvider::Twilio => String::from_str("Twilio"),
            TelephonyProvider::Telnyx => String::from_str("Telnyx"),
        }
    }
}

impl VoiceProvider {
    /// The name by which `{:?}` shows the provider.
    pub fn debug_text(&self) -> (s: String)
        ensures
            s@ == voice_provider_name(*self),
    {
        match self {
            VoiceProvider::Mock => String::from_str("Mock"),
            VoiceProvider::Gemini => String::from_str("Gemini"),
            VoiceProvider::OpenAI => String::from_str("OpenAI"),
        }
    }
}

impl Default for TelephonyProvider {
    fn default() -> (p: TelephonyProvider)
        ensures
            p == TelephonyProvider::Mock,
    {
        TelephonyProvider::Mock
    }
}

impl Default for VoiceProvider {
    fn default() -> (p: VoiceProvider)
        ensures
            p == VoiceProvider::Mock,
    {
        VoiceProvider::Mock
    }
}

/// Telephony provider configuration.
#[derive(Debug, Clone)]
pub struct TelephonyConfig {
    pub provider: TelephonyProvider,
    pub twilio_account_sid: Option<String>,
    pub twilio_auth_token: Option<String>,
    pub twilio_phone_number: Option<String>,
    pub telnyx_api_key: Option<String>,
    pub telnyx_phone_number: Option<String>,
}

/// Voice engine configuration.
#[derive(Debug, Clone)]
pub struct VoiceConfig {
    pub provider: VoiceProvider,
    pub gemini_api_key: Option<String>,
    pub openai_api_key: Option<String>,
    pub model: Option<String>,
}

impl Default for TelephonyConfig {
    fn default() -> (c: TelephonyConfig)
        ensures
            c.provider == TelephonyProvider::Mock,
            c.twilio_account_sid is None,
            c.twilio_auth_token is None,
            c.twilio_phone_number is None,
            c.telnyx_api_key is None,
            c.telnyx_phone_number is None,
    {
        TelephonyConfig {
            provider: TelephonyProvider::Mock,
            twilio_account_sid: None,
            twilio_auth_token: None,
            twilio_phone_number: None,
            telnyx_api_key: None,
            telnyx_phone_number: None,
        }
    }
}

impl Default for VoiceConfig {
    fn default() -> (c: VoiceConfig)
        ensures
            c.provider == VoiceProvider::Mock,
            c.gemini_api_key is None,
            c.openai_api_key is None,
            c.model is None,
    {
        VoiceConfig { provider: VoiceProvider::Mock, gemini_api_key: None, openai_api_key: None, model: None }
    }
}

/// Complete Karta configuration.
#[derive(Debug, Clone)]
pub struct KartaConfig {
    pub principal: PrincipalProfile,
    pub agent: AgentConfig,
    pub telephony: TelephonyConfig,
    pub voice: VoiceConfig,
}

/// The values of the environment variables that configuration reads: each
/// is what reading the variable gave (`None` where it is unset or unreadable).
#[derive(Debug, Clone)]
pub struct EnvVars {
    /// `TWILIO_ACCOUNT_SID`
    pub twilio_account_sid: Option<String>,
    /// `TWILIO_AUTH_TOKEN`
    pub twilio_auth_token: Option<String>,
    /// `TWILIO_PHONE_NUMBER`
    pub twilio_phone_number: Option<String>,
    /// `TELNYX_API_KEY`
    pub telnyx_api_key: Option<String>,
    /// `TELNYX_PHONE_NUMBER`
    pub telnyx_phone_number: Option<String>,
    /// `GEMINI_API_KEY`
    pub gemini_api_key: Option<String>,
    /// `OPENAI_API_KEY`
    pub openai_api_key: Option<String>,
}

/// A variable is set when it holds a non-empty text.
pub open spec fn is_set(v: Option<String>) -> bool {
    v is Some && v->0@.len() > 0
}

/// A set variable replaces the configured value; an unset one leaves it.
pub open spec fn overridden(configured: Option<String>, env: Option<String>) -> Option<String> {
    if is_set(env) {
        env
    } else {
        configured
    }
}

/// The telephony settings after the environment is merged in: a Telnyx key
/// selects Telnyx, else a Twilio account selects Twilio.
pub open spec fn merged_telephony(c: TelephonyConfig, env: EnvVars) -> TelephonyConfig {
    TelephonyConfig {
        provider: if is_set(env.telnyx_api_key) {
            TelephonyProvider::Telnyx
        } else if is_set(env.twilio_account_sid) {
            TelephonyProvider::Twilio
        } else {
            c.provider
        },
        twilio_account_sid: overridden(c.twilio_account_sid, env.twilio_account_sid),
        twilio_auth_token: overridden(c.twilio_auth_token, env.twilio_auth_token),
        twilio_phone_number: overridden(c.twilio_phone_number, env.twilio_phone_number),
        telnyx_api_key: overridden(c.telnyx_api_key, env.telnyx_api_key),
        telnyx_phone_number: overridden(c.telnyx_phone_number, env.telnyx_phone_number),
    }
}

/// The voice settings after the environment is merged in: a Gemini key
/// selects Gemini; an OpenAI key selects OpenAI only where no Gemini key is
/// known at all.
pub open spec fn merged_voice(c: VoiceConfig, env: EnvVars) -> VoiceConfig {
    let gemini = overridden(c.gemini_api_key, env.gemini_api_key);
    VoiceConfig {
        provider: if is_set(env.openai_api_key) && gemini is None {
            VoiceProvider::OpenAI
        } else if is_set(env.gemini_api_key) {
            VoiceProvider::Gemini
        } else {
            c.provider
        },
        gemini_api_key: gemini,
        openai_api_key: overridden(c.openai_api_key, env.openai_api_key),
        model: c.model,
    }
}

/// Environment variables take precedence: each one that is set replaces the
/// configured value, each one that is not leaves it.
pub proof fn law_environment_takes_precedence(c: KartaConfig, env: EnvVars)
    ensures
        is_set(env.twilio_account_sid) ==> merged_telephony(c.telephony, env).twilio_account_sid
            == env.twilio_account_sid,
        !is_set(env.twilio_account_sid) ==> merged_telephony(c.telephony, env).twilio_account_sid
            == c.telephony.twilio_account_sid,
        is_set(env.twilio_auth_token) ==> merged_telephony(c.telephony, env).twilio_auth_token
            == env.twilio_auth_token,
        !is_set(env.twilio_auth_token) ==> merged_telephony(c.telephony, env).twilio_auth_token
            == c.telephony.twilio_auth_token,
        is_set(env.twilio_phone_number) ==> merged_telephony(c.telephony, env).twilio_phone_number
            == env.twilio_phone_number,
        !is_set(env.twilio_phone_number) ==> merged_telephony(c.telephony, env).twilio_phone_number
            == c.telephony.twilio_phone_number,
        is_set(env.telnyx_api_key) ==> merged_telephony(c.telephony, env).telnyx_api_key
            == env.telnyx_api_key && merged_telephony(c.telephony, env).provider
            == TelephonyProvider::Telnyx,
        !is_set(env.telnyx_api_key) ==> merged_telephony(c.telephony, env).telnyx_api_key
            == c.telephony.telnyx_api_key,
        is_set(env.telnyx_phone_number) ==> merged_telephony(c.telephony, env).telnyx_phone_number
            == env.telnyx_phone_number,
        !is_set(env.telnyx_phone_number) ==> merged_telephony(c.telephony, env).telnyx_phone_number
            == c.telephony.telnyx_phone_number,
        is_set(env.twilio_account_sid) && !is_set(env.telnyx_api_key) ==> merged_telephony(
            c.telephony,
            env,
        ).provider == TelephonyProvider::Twilio,
        !is_set(env.twilio_account_sid) && !is_set(env.telnyx_api_key) ==> merged_telephony(
            c.telephony,
            env,
        ).provider == c.telephony.provider,
        is_set(env.gemini_api_key) ==> merged_voice(c.voice, env).gemini_api_key == env.gemini_api_key
            && merged_voice(c.voice, env).provider == VoiceProvider::Gemini,
        !is_set(env.gemini_api_key) ==> merged_voice(c.voice, env).gemini_api_key
            == c.voice.gemini_api_key,
        is_set(env.openai_api_key) ==> merged_voice(c.voice, env).openai_api_key == env.openai_api_key,
        !is_set(env.openai_api_key) ==> merged_voice(c.voice, env).openai_api_key
            == c.voice.openai_api_key,
        merged_voice(c.voice, env).model == c.voice.model,
{
}

/// Merging the same environment twice gives what merging it once gives.
pub proof fn law_merge_idempotent(c: KartaConfig, env: EnvVars)
    ensures
        merged_telephony(merged_telephony(c.telephony, env), env) == merged_telephony(c.telephony, env),
        merged_voice(merged_voice(c.voice, env), env) == merged_voice(c.voice, env),
{
}

fn set_text(v: &Option<String>) -> (b: bool)
    ensures
        b == is_set(*v),
{
    match v {
        Some(s) => !s.as_str().is_empty(),
        None => false,
    }
}

impl KartaConfig {
    /// Merge environment variables into the configuration. Environment
    /// variables take precedence over configured values.
    pub fn merge_env(&mut self, env: EnvVars)
        ensures
            final(self).principal == old(self).principal,
            final(self).agent == old(self).agent,
            final(self).telephony == merged_telephony(old(self).telephony, env),
            final(self).voice == merged_voice(old(self).voice, env),
    {
        let ghost e = env;
        let EnvVars {
            twilio_account_sid,
            twilio_auth_token,
            twilio_phone_number,
            telnyx_api_key,
            telnyx_phone_number,
            gemini_api_key,
            openai_api_key,
        } = env;
        // Twilio
        if set_text(&twilio_account_sid) {
            self.telephony.twilio_account_sid = twilio_account_sid;
            self.telephony.provider = TelephonyProvider::Twilio;
        }
        if set_text(&twilio_auth_token) {
            self.telephony.twilio_auth_token = twilio_auth_token;
        }
        if set_text(&twilio_phone_number) {
            self.telephony.twilio_phone_number = twilio_phone_number;
        }
        // Telnyx
        if set_text(&telnyx_api_key) {
            self.telephony.telnyx_api_key = telnyx_api_key;
            self.telephony.provider = TelephonyProvider::Telnyx;
        }
        if set_text(&telnyx_phone_number) {
            self.telephony.telnyx_phone_number = telnyx_phone_number;
        }
        // Gemini
        if set_text(&gemini_api_key) {
            self.voice.gemini_api_key = gemini_api_key;
            self.voice.provider = VoiceProvider::Gemini;
        }
        // OpenAI, selected only where no Gemini key is known
        if set_text(&openai_api_key) {
            self.voice.openai_api_key = openai_api_key;
            if self.voice.gemini_api_key.is_none() {
                self.voice.provider = VoiceProvider::OpenAI;
            }
        }
    }

    /// The default configuration with the environment merged in.
    pub fn default_config(env: EnvVars) -> (c: KartaConfig)
        ensures
            is_default_profile(c.principal),
            is_default_agent(c.agent),
            c.telephony == merged_telephony(
                TelephonyConfig {
                    provider: TelephonyProvider::Mock,
                    twilio_account_sid: None,
                    twilio_auth_token: None,
                    twilio_phone_number: None,
                    telnyx_api_key: None,
                    telnyx_phone_number: None,
                },
                env,
            ),
            c.voice == merged_voice(
                VoiceConfig { provider: VoiceProvider::Mock, gemini_api_key: None, openai_api_key: None, model: None },
                env,
            ),
    {
        let mut config = KartaConfig {
            principal: PrincipalProfile::default(),
            agent: AgentConfig::default(),
            telephony: TelephonyConfig::default(),
            voice: VoiceConfig::default(),
        };
        config.merge_env(env);
        config
    }
}

} // verus!
