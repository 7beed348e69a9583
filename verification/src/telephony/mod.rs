//! Telephony: making and managing phone calls.

pub mod call;
pub mod mock;
pub mod provider;
pub mod telnyx;
pub mod twilio;

use vstd::prelude::*;

use crate::config::{TelephonyConfig, TelephonyProvider};
use crate::error::KartaError;
use crate::task::task::{copy_opt_text, opt_text};

verus! {

/// The telephony provider that a configuration calls for, with the
/// credentials it needs.
#[derive(Debug)]
pub enum ProviderSetup {
    Mock,
    Twilio { account_sid: String, auth_token: String, phone_number: String },
    Telnyx { api_key: String, phone_number: String },
}

fn required(value: &Option<String>, message: &str) -> (r: Result<String, KartaError>)
    ensures
        match *value {
            Some(s) => r is Ok && r->Ok_0@ == s@,
            None => r matches Err(KartaError::Config(m)) && m@ == message@,
        },
{
    match copy_opt_text(value) {
        Some(s) => Ok(s),
        None => Err(KartaError::Config(String::from_str(message))),
    }
}

/// The first missing Twilio credential's message, if one is missing.
pub open spec fn twilio_missing(c: TelephonyConfig) -> Option<Seq<char>> {
    if c.twilio_account_sid is None {
        Some("Twilio account SID required. Set TWILIO_ACCOUNT_SID in .env"@)
    } else if c.twilio_auth_token is None {
        Some("Twilio auth token required. Set TWILIO_AUTH_TOKEN in .env"@)
    } else if c.twilio_phone_number is None {
        Some("Twilio phone number required. Set TWILIO_PHONE_NUMBER in .env"@)
    } else {
        None
    }
}

/// The first missing Telnyx credential's message, if one is missing.
pub open spec fn telnyx_missing(c: TelephonyConfig) -> Option<Seq<char>> {
    if c.telnyx_api_key is None {
        Some("Telnyx API key required. Set TELNYX_API_KEY in .env"@)
    } else if c.telnyx_phone_number is None {
        Some("Telnyx phone number required. Set TELNYX_PHONE_NUMBER in .env"@)
    } else {
        None
    }
}

/// Decide which telephony provider to create: the configured one, with its
/// credentials; a configuration that lacks one is refused, naming the first
/// missing credential.
pub fn provider_setup(config: &TelephonyConfig) -> (r: Result<ProviderSetup, KartaError>)
    ensures
        match config.provider {
            TelephonyProvider::Mock => r matches Ok(ProviderSetup::Mock),
            TelephonyProvider::Twilio => match twilio_missing(*config) {
                Some(m) => r matches Err(KartaError::Config(t)) && t@ == m,
                None => r matches Ok(ProviderSetup::Twilio { account_sid, auth_token, phone_number })
                    && Some(account_sid@) == opt_text(config.twilio_account_sid)
                    && Some(auth_token@) == opt_text(config.twilio_auth_token)
                    && Some(phone_number@) == opt_text(config.twilio_phone_number),
            },
            TelephonyProvider::Telnyx => match telnyx_missing(*config) {
                Some(m) => r matches Err(KartaError::Config(t)) && t@ == m,
                None => r matches Ok(ProviderSetup::Telnyx { api_key, phone_number })
                    && Some(api_key@) == opt_text(config.telnyx_api_key)
                    && Some(phone_number@) == opt_text(config.telnyx_phone_number),
            },
        },
{
    match config.provider {
        TelephonyProvider::Mock => Ok(ProviderSetup::Mock),
        TelephonyProvider::Twilio => {
            let account_sid = required(
                &config.twilio_account_sid,
                "Twilio account SID required. Set TWILIO_ACCOUNT_SID in .env",
            )?;
            let auth_token = required(
                &config.twilio_auth_token,
                "Twilio auth token required. Set TWILIO_AUTH_TOKEN in .env",
            )?;
            let phone_number = required(
                &config.twilio_phone_number,
                "Twilio phone number required. Set TWILIO_PHONE_NUMBER in .env",
            )?;
            Ok(ProviderSetup::Twilio { account_sid, auth_token, phone_number })
        },
        TelephonyProvider::Telnyx => {
            let api_key = required(
                &config.telnyx_api_key,
                "Telnyx API key required. Set TELNYX_API_KEY in .env",
            )?;
            let phone_number = required(
                &config.telnyx_phone_number,
                "Telnyx phone number required. Set TELNYX_PHONE_NUMBER in .env",
            )?;
            Ok(ProviderSetup::Telnyx { api_key, phone_number })
        },
    }
}

} // verus!
