use karta::config::{TelephonyConfig, TelephonyProvider};
use karta::error::KartaError;
use karta::telephony::call::{AudioChunk, AudioDirection, Call, CallState};
use karta::telephony::mock::{MockConversation, MockTelephonyProvider};
use karta::telephony::provider::TelephonyEvent;
use karta::telephony::telnyx::TelnyxProvider;
use karta::telephony::twilio::TwilioProvider;
use karta::telephony::{provider_setup, ProviderSetup};

fn call() -> Call {
    Call::new("+1-555-0100".to_string(), "+1-555-0199".to_string())
}

#[test]
fn a_new_call_is_initiating() {
    let c = call();
    assert_eq!(c.state, CallState::Initiating);
    assert!(c.answered_at.is_none());
    assert!(c.is_active() == false && c.is_ended() == false);
    assert_eq!(c.duration_string(), "0:00");
}

#[test]
fn connecting_and_ending_a_call() {
    let mut c = call();
    c.connect();
    assert_eq!(c.state, CallState::Connected);
    assert!(c.is_active());
    c.end();
    assert_eq!(c.state, CallState::Ended);
    assert!(c.is_ended());
    assert!(!c.is_active());
    assert!(c.ended_at.is_some());
    assert!(c.duration_seconds.is_some());
}

#[test]
fn a_failed_call_keeps_its_reason() {
    let mut c = call();
    c.fail("busy signal".to_string());
    assert_eq!(c.state, CallState::Failed("busy signal".to_string()));
    assert!(c.is_ended());
    assert!(c.duration_seconds.is_none());
}

#[test]
fn durations_are_minutes_and_two_digit_seconds() {
    let mut c = call();
    for (secs, text) in [(0u32, "0:00"), (5, "0:05"), (65, "1:05"), (600, "10:00"), (3599, "59:59"), (3600, "60:00")] {
        c.duration_seconds = Some(secs);
        assert_eq!(c.duration_string(), text);
    }
}

#[test]
fn an_audio_chunk_keeps_its_data() {
    let a = AudioChunk::new(vec![1, 2, 3], AudioDirection::Inbound, 8000);
    assert_eq!(a.data, vec![1, 2, 3]);
    assert_eq!(a.direction, AudioDirection::Inbound);
    assert_eq!(a.sample_rate, 8000);
}

#[test]
fn the_mock_provider_connects_calls() {
    let mut p = MockTelephonyProvider::new();
    assert_eq!(p.name(), "mock");
    assert!(p.is_ready());
    assert_eq!(p.from_number(), "+1-555-KARTA");
    let c = p.begin_call("+1-555-0100");
    assert_eq!(c.state, CallState::Ringing);
    assert_eq!(c.from_number, "+1-555-KARTA");
    let c = p.complete_call(c);
    assert_eq!(c.state, CallState::Connected);
    assert!(c.answered_at.is_some());
    p.end_call(&c);
}

#[test]
fn the_appointment_script_follows_triggers() {
    let mut m = MockConversation::appointment_booking();
    assert_eq!(m.next_response().unwrap().response, "Thank you for calling Acme Medical. How can I help you today?");
    let r = m.find_response("I'd like an APPOINTMENT please").unwrap();
    assert_eq!(r.response, "I can help you schedule an appointment. What day works for you?");
    let r = m.find_response("Tuesday is good").unwrap();
    assert_eq!(r.response, "Great, I've scheduled you for Tuesday at 2pm. Can I get your phone number for confirmation?");
    let r = m.find_response("555 0100").unwrap();
    assert_eq!(r.response, "Perfect. You're all set for Tuesday at 2pm. We'll send a confirmation text. Is there anything else?");
    let r = m.find_response("nope").unwrap();
    assert_eq!(r.response, "Thank you for calling. Have a great day!");
    assert!(m.find_response("anything").is_none());
    assert!(m.next_response().is_none());
}

#[test]
fn the_rental_script_hands_out_replies_in_order() {
    let mut m = MockConversation::rental_inquiry();
    let mut seen = Vec::new();
    while let Some(r) = m.next_response() {
        seen.push(r.response.clone());
    }
    assert_eq!(seen.len(), 6);
    assert_eq!(seen[0], "Apex Properties, this is Sarah speaking. How can I help you?");
    assert_eq!(seen[3], "I appreciate the offer. The best I can do is $2,650 with a 12-month lease.");
    assert_eq!(m.responses[4].trigger, Some("18 month".to_string()));
}

#[test]
fn twilio_requests() {
    let p = TwilioProvider::new("AC123".to_string(), "tok".to_string(), "+15550000000".to_string());
    assert_eq!(p.name(), "twilio");
    assert!(p.is_ready());
    assert_eq!(p.calls_url(), "https://api.twilio.com/2010-04-01/Accounts/AC123/Calls.json");
    assert_eq!(p.call_url("CA9"), "https://api.twilio.com/2010-04-01/Accounts/AC123/Calls/CA9.json");
    let twiml = p.generate_twiml("Hi there");
    assert_eq!(
        twiml,
        "<?xml version=\"1.0\" encoding=\"UTF-8\"?>\n<Response>\n    <Say voice=\"Polly.Joanna\">Hi there</Say>\n    <Pause length=\"2\"/>\n    <Say voice=\"Polly.Joanna\">Goodbye!</Say>\n</Response>"
    );
    assert!(TwilioProvider::generate_twiml_custom("Test").contains("This was a test call from Karta. Goodbye!"));
    assert!(TwilioProvider::generate_twiml_custom("Test").contains("<Pause length=\"3\"/>"));
    let form = p.call_form("+1999", "Hi there");
    assert_eq!(form[0], ("To".to_string(), "+1999".to_string()));
    assert_eq!(form[1], ("From".to_string(), "+15550000000".to_string()));
    assert_eq!(form[2], ("Twiml".to_string(), twiml));
    assert_eq!(TwilioProvider::hangup_form(), vec![("Status".to_string(), "completed".to_string())]);
    let empty = TwilioProvider::new(String::new(), "t".to_string(), "n".to_string());
    assert!(!empty.is_ready());
}

#[test]
fn twilio_answers() {
    assert_eq!(TwilioProvider::create_call_outcome(true, String::new(), Some("CA1".to_string())), Ok("CA1".to_string()));
    assert_eq!(
        TwilioProvider::create_call_outcome(false, "bad number".to_string(), Some("CA1".to_string())),
        Err(KartaError::Telephony("Twilio API error: bad number".to_string()))
    );
    assert_eq!(
        TwilioProvider::create_call_outcome(true, String::new(), None),
        Err(KartaError::Telephony("Missing call SID in response".to_string()))
    );
}

#[test]
fn twilio_call_lifecycle() {
    let mut p = TwilioProvider::new("AC".to_string(), "t".to_string(), "+1".to_string());
    let c = p.begin_call("+2");
    assert_eq!(c.state, CallState::Initiating);
    let c = p.call_placed(c, "CA7".to_string());
    assert_eq!(c.state, CallState::Ringing);
    assert_eq!(c.provider_call_id, Some("CA7".to_string()));
    p.call_ended(&c);
}

#[test]
fn telnyx_requests_and_answers() {
    let mut p = TelnyxProvider::new("KEY".to_string(), "+1555".to_string());
    assert_eq!(p.name(), "telnyx");
    assert!(p.is_ready());
    assert_eq!(TelnyxProvider::calls_url(), "https://api.telnyx.com/v2/calls");
    let mut body = serde_json::Map::new();
    body.insert("connection_id".to_string(), serde_json::Value::String("your_connection_id".to_string()));
    body.insert("to".to_string(), serde_json::Value::String("+1 \"x\"".to_string()));
    body.insert("from".to_string(), serde_json::Value::String("+1555".to_string()));
    body.insert("webhook_url".to_string(), serde_json::Value::String("https://your-server.com/telnyx-webhook".to_string()));
    body.insert("stream_url".to_string(), serde_json::Value::String("wss://your-server.com/telnyx-stream".to_string()));
    let expected = serde_json::to_string(&serde_json::Value::Object(body)).unwrap();
    assert_eq!(p.call_body("+1 \"x\""), expected);
    assert_eq!(TelnyxProvider::hangup_body(), "{}");
    assert_eq!(TelnyxProvider::hangup_url("cc1"), "https://api.telnyx.com/v2/calls/cc1/actions/hangup");
    assert_eq!(
        TelnyxProvider::create_call_outcome(false, "nope".to_string(), None),
        Err(KartaError::Telephony("Telnyx API error: nope".to_string()))
    );
    assert_eq!(
        TelnyxProvider::create_call_outcome(true, String::new(), None),
        Err(KartaError::Telephony("Missing call_control_id in response".to_string()))
    );
    let c = p.begin_call("+2");
    let c = p.call_placed(c, "cc9".to_string());
    assert_eq!(c.provider_call_id, Some("cc9".to_string()));
    p.call_ended(&c);
}

fn telephony(provider: TelephonyProvider) -> TelephonyConfig {
    TelephonyConfig {
        provider,
        twilio_account_sid: None,
        twilio_auth_token: None,
        twilio_phone_number: None,
        telnyx_api_key: None,
        telnyx_phone_number: None,
    }
}

#[test]
fn provider_setup_names_the_first_missing_credential() {
    assert!(matches!(provider_setup(&telephony(TelephonyProvider::Mock)), Ok(ProviderSetup::Mock)));
    let mut t = telephony(TelephonyProvider::Twilio);
    assert_eq!(
        provider_setup(&t).err(),
        Some(KartaError::Config("Twilio account SID required. Set TWILIO_ACCOUNT_SID in .env".to_string()))
    );
    t.twilio_account_sid = Some("AC".to_string());
    assert_eq!(
        provider_setup(&t).err(),
        Some(KartaError::Config("Twilio auth token required. Set TWILIO_AUTH_TOKEN in .env".to_string()))
    );
    t.twilio_auth_token = Some("tok".to_string());
    assert_eq!(
        provider_setup(&t).err(),
        Some(KartaError::Config("Twilio phone number required. Set TWILIO_PHONE_NUMBER in .env".to_string()))
    );
    t.twilio_phone_number = Some("+1".to_string());
    match provider_setup(&t) {
        Ok(ProviderSetup::Twilio { account_sid, auth_token, phone_number }) => {
            assert_eq!((account_sid.as_str(), auth_token.as_str(), phone_number.as_str()), ("AC", "tok", "+1"));
        }
        other => panic!("unexpected {:?}", other),
    }
    let mut x = telephony(TelephonyProvider::Telnyx);
    assert_eq!(
        provider_setup(&x).err(),
        Some(KartaError::Config("Telnyx API key required. Set TELNYX_API_KEY in .env".to_string()))
    );
    x.telnyx_api_key = Some("K".to_string());
    assert_eq!(
        provider_setup(&x).err(),
        Some(KartaError::Config("Telnyx phone number required. Set TELNYX_PHONE_NUMBER in .env".to_string()))
    );
    x.telnyx_phone_number = Some("+2".to_string());
    assert!(matches!(provider_setup(&x), Ok(ProviderSetup::Telnyx { .. })));
}

#[test]
fn telephony_events_name_their_call() {
    let e = TelephonyEvent::CallEnded { call_id: 7, reason: "hangup".to_string() };
    match e.clone() {
        TelephonyEvent::CallEnded { call_id, reason } => {
            assert_eq!(call_id, 7);
            assert_eq!(reason, "hangup");
        }
        _ => unreachable!(),
    }
    let e = TelephonyEvent::Error { call_id: None, error: "lost".to_string() };
    assert!(format!("{:?}", e).contains("lost"));
}

#[test]
fn trigger_matching_ignores_ascii_case() {
    let inputs = ["i need an appointment next week", "Tuesday please", "no thanks"];
    let mut lower = MockConversation::appointment_booking();
    let mut upper = MockConversation::appointment_booking();
    for input in inputs {
        let a = lower.find_response(input).map(|r| r.response.clone());
        let b = upper.find_response(&input.to_ascii_uppercase()).map(|r| r.response.clone());
        assert_eq!(a, b);
    }
    let mut c = MockConversation::appointment_booking();
    assert_eq!(
        c.find_response("NEXT WEEK").unwrap().response,
        "I have availability on Tuesday at 2pm or Thursday at 10am. Which works better?"
    );
}
