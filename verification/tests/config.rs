use karta::config::agent::{AgentConfig, NegotiationStyle, PatienceLevel, Tone, Verbosity};
use karta::config::principal::{default_max_auto_approve, PrincipalProfile, PrivacyLevel};
use karta::config::{EnvVars, KartaConfig, TelephonyProvider, VoiceProvider};

fn no_env() -> EnvVars {
    EnvVars {
        twilio_account_sid: None,
        twilio_auth_token: None,
        twilio_phone_number: None,
        telnyx_api_key: None,
        telnyx_phone_number: None,
        gemini_api_key: None,
        openai_api_key: None,
    }
}

fn s(x: &str) -> Option<String> {
    Some(x.to_string())
}

#[test]
fn without_environment_the_defaults_use_mock_providers() {
    let c = KartaConfig::default_config(no_env());
    assert_eq!(c.principal.name, "User");
    assert_eq!(c.agent.name, "Karta");
    assert_eq!(c.telephony.provider, TelephonyProvider::Mock);
    assert_eq!(c.voice.provider, VoiceProvider::Mock);
    assert!(c.telephony.twilio_account_sid.is_none());
}

#[test]
fn environment_variables_take_precedence() {
    let mut c = KartaConfig::default_config(no_env());
    c.telephony.twilio_account_sid = s("AC_file");
    c.telephony.twilio_auth_token = s("token_file");
    let env = EnvVars { twilio_account_sid: s("AC_env"), gemini_api_key: s("g"), ..no_env() };
    c.merge_env(env);
    assert_eq!(c.telephony.twilio_account_sid, s("AC_env"));
    assert_eq!(c.telephony.twilio_auth_token, s("token_file"));
    assert_eq!(c.telephony.provider, TelephonyProvider::Twilio);
    assert_eq!(c.voice.gemini_api_key, s("g"));
    assert_eq!(c.voice.provider, VoiceProvider::Gemini);
}

#[test]
fn an_empty_variable_counts_as_unset() {
    let mut c = KartaConfig::default_config(no_env());
    c.telephony.twilio_account_sid = s("AC_file");
    c.merge_env(EnvVars { twilio_account_sid: s(""), ..no_env() });
    assert_eq!(c.telephony.twilio_account_sid, s("AC_file"));
    assert_eq!(c.telephony.provider, TelephonyProvider::Mock);
}

#[test]
fn telnyx_wins_over_twilio_and_openai_only_without_gemini() {
    let env = EnvVars {
        twilio_account_sid: s("AC"),
        telnyx_api_key: s("KEY"),
        openai_api_key: s("sk"),
        ..no_env()
    };
    let c = KartaConfig::default_config(env);
    assert_eq!(c.telephony.provider, TelephonyProvider::Telnyx);
    assert_eq!(c.voice.provider, VoiceProvider::OpenAI);
    let env = EnvVars { openai_api_key: s("sk"), gemini_api_key: s("g"), ..no_env() };
    let c = KartaConfig::default_config(env);
    assert_eq!(c.voice.provider, VoiceProvider::Gemini);
    assert_eq!(c.voice.openai_api_key, s("sk"));
}

#[test]
fn merging_the_same_environment_twice_changes_nothing_more() {
    let env = || EnvVars { twilio_account_sid: s("AC"), openai_api_key: s("sk"), ..no_env() };
    let mut once = KartaConfig::default_config(no_env());
    once.merge_env(env());
    let mut twice = once.clone();
    twice.merge_env(env());
    assert_eq!(format!("{:?}", once.telephony), format!("{:?}", twice.telephony));
    assert_eq!(format!("{:?}", once.voice), format!("{:?}", twice.voice));
}

#[test]
fn provider_names_match_their_debug_rendering() {
    for p in [TelephonyProvider::Mock, TelephonyProvider::Twilio, TelephonyProvider::Telnyx] {
        assert_eq!(p.debug_text(), format!("{:?}", p));
    }
    for p in [VoiceProvider::Mock, VoiceProvider::Gemini, VoiceProvider::OpenAI] {
        assert_eq!(p.debug_text(), format!("{:?}", p));
    }
}

#[test]
fn the_never_list_wins_over_the_allowed_list() {
    let mut p = PrincipalProfile::default();
    assert!(p.can_share("name"));
    assert!(p.can_share("EMAIL"));
    assert!(!p.can_share("ssn"));
    assert!(!p.can_share("Password"));
    assert!(!p.can_share("favourite colour"));
    p.boundaries.share_never.push("phone".to_string());
    assert!(!p.can_share("phone"));
    p.values.privacy_level = PrivacyLevel::Open;
    assert!(p.can_share("favourite colour"));
    assert!(!p.can_share("credit_card"));
}

#[test]
fn commitments_and_escalations_match_contained_phrases() {
    let mut p = PrincipalProfile::default();
    assert!(p.commitment_requires_approval("Sign Legal Documents today"));
    assert!(p.commitment_requires_approval("financial agreements"));
    assert!(!p.commitment_requires_approval("a phone call"));
    assert!(!p.should_escalate("anything"));
    p.boundaries.always_escalate.push("refund".to_string());
    assert!(p.should_escalate("Ask for a REFUND"));
    assert!(!p.should_escalate("ask for a discount"));
}

#[test]
fn the_default_approval_limit_is_one_hundred() {
    let a = default_max_auto_approve();
    assert_eq!(f64::from_bits(a.bits), 100.0);
    assert_eq!(a.text, format!("{}", 100.0f64));
    let p = PrincipalProfile::default();
    assert_eq!(p.boundaries.max_auto_approve_amount.bits, a.bits);
}

#[test]
fn the_agent_prompt_states_personality_values_and_rules() {
    let c = AgentConfig::default();
    let p = c.to_system_prompt();
    let expected = "You are Karta, an AI assistant acting on behalf of a principal.\n\nPERSONALITY:\n- Tone: warm but professional\n- Negotiation approach: work collaboratively to find mutually beneficial solutions\n- Assertiveness: balanced - push when needed but don't be aggressive\n- Patience: reasonably patient\n- Verbosity: clear but not wordy\n\nCORE VALUES:\n- Respect: Always be respectful to the person on the other end\n- Persistence: Don't give up easily but know when to escalate\n- Transparency: Be upfront about acting on someone's behalf\n\nWhen on a call:\n1. Introduce yourself as Karta, calling on behalf of the principal\n2. Be warm but professional in all interactions\n3. work collaboratively to find mutually beneficial solutions\n4. If you need input from the principal, pause and request it\n5. Stay within the boundaries set by the principal\n";
    assert_eq!(p, expected);
    let mut d = AgentConfig::default();
    d.name = "Ava".to_string();
    d.personality.tone = Tone::Direct;
    d.personality.negotiation_style = NegotiationStyle::Anchoring;
    let q = d.to_system_prompt();
    assert!(q.starts_with("You are Ava, an AI assistant"));
    assert!(q.contains("- Tone: direct and efficient, minimal small talk\n"));
    assert!(q.contains("3. start with a strong position and negotiate from there\n"));
}

#[test]
fn patience_and_verbosity_show_in_the_prompt() {
    let base = AgentConfig::default();
    let mut patient = AgentConfig::default();
    patient.personality.patience = PatienceLevel::High;
    let mut brief = AgentConfig::default();
    brief.personality.verbosity = Verbosity::Terse;
    assert_ne!(base.to_system_prompt(), patient.to_system_prompt());
    assert_ne!(base.to_system_prompt(), brief.to_system_prompt());
    assert!(patient.to_system_prompt().contains("- Patience: very patient and understanding, willing to wait\n"));
    assert!(brief.to_system_prompt().contains("- Verbosity: very brief responses\n"));
    let mut quick = AgentConfig::default();
    quick.personality.patience = PatienceLevel::Low;
    quick.personality.verbosity = Verbosity::Detailed;
    let q = quick.to_system_prompt();
    assert!(q.contains("- Patience: prefer a quick resolution\n- Verbosity: thorough explanations\n\nCORE VALUES"));
}
