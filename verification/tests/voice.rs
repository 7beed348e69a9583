use base64::Engine;
use karta::config::{VoiceConfig, VoiceProvider};
use karta::error::KartaError;
use karta::voice::engine::{standard_tools, Speaker, VoiceResponse, VoiceSessionConfig};
use karta::voice::gemini::{
    process_gemini_response, transcript_of_reply, FunctionCall, GeminiLiveEngine, GeminiResponse,
    InlineData, ModelTurn, Part, ServerContent, ToolCallResponse,
};
use karta::voice::mock::{MockVoiceEngine, ScriptedResponse};
use karta::voice::{engine_setup, EngineSetup};

fn text_part(t: &str) -> Part {
    Part { text: Some(t.to_string()), inline_data: None }
}

fn audio_part(mime: &str, data: &str) -> Part {
    Part { text: None, inline_data: Some(InlineData { mime_type: mime.to_string(), data: data.to_string() }) }
}

fn reply(parts: Vec<Part>, calls: Vec<FunctionCall>, complete: Option<bool>) -> GeminiResponse {
    GeminiResponse {
        server_content: Some(ServerContent { model_turn: Some(ModelTurn { parts }), turn_complete: complete }),
        tool_call: if calls.is_empty() { None } else { Some(ToolCallResponse { function_calls: calls }) },
    }
}

fn fcall(name: &str, args: &str, question: Option<&str>, reason: Option<&str>) -> FunctionCall {
    FunctionCall {
        name: name.to_string(),
        args: args.to_string(),
        question: question.map(|q| q.to_string()),
        reason: reason.map(|r| r.to_string()),
    }
}

#[test]
fn the_standard_tools_are_three_compact_schemas() {
    let tools = standard_tools();
    let names: Vec<_> = tools.iter().map(|t| t.name.clone()).collect();
    assert_eq!(names, vec!["request_principal_input", "end_call", "note"]);
    for t in &tools {
        let v: serde_json::Value = serde_json::from_str(&t.parameters).unwrap();
        assert_eq!(serde_json::to_string(&v).unwrap(), t.parameters);
        assert_eq!(v["type"], "object");
    }
    let input: serde_json::Value = serde_json::from_str(&tools[0].parameters).unwrap();
    assert_eq!(input["required"][0], "question");
    assert_eq!(input["properties"]["urgency"]["enum"][2], "high");
    let end: serde_json::Value = serde_json::from_str(&tools[1].parameters).unwrap();
    assert_eq!(end["properties"]["success"]["type"], "boolean");
}

#[test]
fn the_session_defaults() {
    let c = VoiceSessionConfig::default();
    assert_eq!(c.voice, "alloy");
    assert_eq!(c.language, "en-US");
    assert!(c.enable_interruption);
    assert_eq!(c.sample_rate, 16000);
    let r = VoiceResponse::default();
    assert!(r.response_text.is_none() && !r.needs_input && !r.should_end && r.tool_calls.is_empty());
}

#[test]
fn a_reply_gives_its_last_text_and_audio() {
    let pcm = vec![0u8, 1, 2, 250];
    let b64 = base64::engine::general_purpose::STANDARD.encode(&pcm);
    let r = process_gemini_response(&reply(
        vec![text_part("first"), audio_part("audio/pcm", &b64), text_part("second"), audio_part("image/png", &b64)],
        vec![],
        Some(true),
    ));
    assert_eq!(r.response_text, Some("second".to_string()));
    assert_eq!(r.response_audio, Some(pcm));
    assert!(r.tool_calls.is_empty());
    assert!(!r.needs_input && !r.should_end);
}

#[test]
fn audio_that_does_not_decode_is_ignored() {
    let r = process_gemini_response(&reply(vec![audio_part("audio/pcm", "***")], vec![], None));
    assert!(r.response_audio.is_none());
    let empty = process_gemini_response(&GeminiResponse { server_content: None, tool_call: None });
    assert!(empty.response_text.is_none() && empty.response_audio.is_none());
}

#[test]
fn tool_calls_ask_for_input_and_end_the_call() {
    let r = process_gemini_response(&reply(
        vec![],
        vec![
            fcall("note", "{\"category\":\"price\",\"content\":\"2650\"}", None, None),
            fcall("request_principal_input", "{\"question\":\"OK?\"}", Some("OK?"), None),
            fcall("end_call", "{\"reason\":\"done\",\"success\":true}", None, Some("done")),
        ],
        None,
    ));
    assert_eq!(r.tool_calls.len(), 3);
    assert_eq!(r.tool_calls[0].name, "note");
    assert_eq!(r.tool_calls[0].arguments, "{\"category\":\"price\",\"content\":\"2650\"}");
    assert!(r.needs_input);
    assert_eq!(r.input_prompt, Some("OK?".to_string()));
    assert!(r.should_end);
    assert_eq!(r.end_reason, Some("done".to_string()));
    let q = process_gemini_response(&reply(vec![], vec![fcall("request_principal_input", "{}", None, None)], None));
    assert!(q.needs_input);
    assert!(q.input_prompt.is_none());
}

#[test]
fn a_reply_becomes_transcript_lines() {
    let events = transcript_of_reply(&reply(vec![text_part("a"), audio_part("audio/x", "AA=="), text_part("b")], vec![], Some(true)));
    assert_eq!(events.len(), 2);
    assert_eq!(events[0].text, "a");
    assert_eq!(events[1].speaker, Speaker::Agent);
    assert!(events[1].is_final);
    let partial = transcript_of_reply(&reply(vec![text_part("c")], vec![], None));
    assert!(!partial[0].is_final);
    assert!(transcript_of_reply(&GeminiResponse { server_content: None, tool_call: None }).is_empty());
}

#[test]
fn gemini_messages() {
    let mut e = GeminiLiveEngine::new("KEY".to_string(), "gemini-x".to_string());
    assert_eq!(e.name(), "gemini-live");
    assert_eq!(
        e.websocket_url(),
        "wss://generativelanguage.googleapis.com/ws/google.ai.generativelanguage.v1beta.GenerativeService.BidiGenerateContent?key=KEY"
    );
    assert_eq!(e.text_message("hi"), Err(KartaError::VoiceEngine("Session not active".to_string())));
    assert_eq!(e.audio_message(&[1, 2]), Err(KartaError::VoiceEngine("Session not active".to_string())));
    assert!(!e.is_connected(true));
    let setup: serde_json::Value = serde_json::from_str(&e.setup_message("Be \"nice\"")).unwrap();
    assert_eq!(setup["model"], "models/gemini-x");
    assert_eq!(setup["system_instruction"]["parts"][0]["text"], "Be \"nice\"");
    assert_eq!(setup["generation_config"]["speech_config"]["voice_config"]["prebuilt_voice_config"]["voice_name"], "Aoede");
    assert_eq!(setup["tools"][0]["function_declarations"][1]["name"], "end_call");
    assert!(e.setup_message("p").starts_with("{\"model\":\"models/gemini-x\",\"generation_config\":"));
    e.session_started();
    assert!(e.is_connected(true));
    assert!(!e.is_connected(false));
    assert_eq!(
        e.text_message("hi \"you\"").unwrap(),
        "{\"turns\":[{\"role\":\"user\",\"parts\":[{\"text\":\"hi \\\"you\\\"\"}]}],\"turn_complete\":true}"
    );
    let audio = vec![0u8, 255, 16, 32, 64];
    let b64 = base64::engine::general_purpose::STANDARD.encode(&audio);
    assert_eq!(
        e.audio_message(&audio).unwrap(),
        format!("{{\"media_chunks\":[{{\"mime_type\":\"audio/pcm;rate=16000\",\"data\":\"{}\"}}]}}", b64)
    );
    e.end_session();
    assert!(!e.is_connected(true));
}

#[test]
fn engine_setup_needs_the_provider_key() {
    let base = VoiceConfig { provider: VoiceProvider::Mock, gemini_api_key: None, openai_api_key: None, model: None };
    assert!(matches!(engine_setup(&base), Ok(EngineSetup::Mock)));
    let g = VoiceConfig { provider: VoiceProvider::Gemini, ..base.clone() };
    assert_eq!(engine_setup(&g).err(), Some(KartaError::Config("Gemini API key required".to_string())));
    let g = VoiceConfig { gemini_api_key: Some("k".to_string()), ..g };
    match engine_setup(&g) {
        Ok(EngineSetup::Gemini { api_key, model }) => {
            assert_eq!(api_key, "k");
            assert_eq!(model, "gemini-2.0-flash-exp");
        }
        other => panic!("unexpected {:?}", other),
    }
    let o = VoiceConfig { provider: VoiceProvider::OpenAI, ..base.clone() };
    assert_eq!(engine_setup(&o).err(), Some(KartaError::Config("OpenAI API key required".to_string())));
    let o = VoiceConfig { openai_api_key: Some("sk".to_string()), ..o };
    assert!(matches!(engine_setup(&o), Ok(EngineSetup::OpenAIUnavailable)));
}

#[test]
fn the_mock_engine_follows_its_script() {
    let mut m = MockVoiceEngine::new();
    assert_eq!(m.name(), "mock");
    assert!(!m.is_connected());
    m.setup_appointment_flow();
    let long = "x".repeat(150);
    let start = m.start_session(&long);
    assert_eq!(start[0].speaker, Speaker::System);
    assert_eq!(start[0].text, format!("Session started. System: {}", "x".repeat(100)));
    assert!(m.is_connected());
    let (r, ev) = m.process_audio(&[0, 1]);
    assert_eq!(r.transcript_in, Some("Thank you for calling, how can I help you?".to_string()));
    assert_eq!(r.response_text.as_deref(), Some("Hello, this is Karta calling on behalf of the principal. I'd like to schedule an appointment."));
    assert_eq!(ev.len(), 2);
    assert_eq!(ev[0].speaker, Speaker::Remote);
    let (r, ev) = m.process_text("Tuesday?");
    assert!(r.needs_input);
    assert_eq!(r.input_prompt, Some("They offered Tuesday at 2pm. Does this work?".to_string()));
    assert_eq!(ev[0].speaker, Speaker::Principal);
    m.process_text("yes");
    let (r, _) = m.process_text("thanks");
    assert!(r.should_end);
    assert_eq!(r.end_reason, Some("Task completed".to_string()));
    let (r, _) = m.process_text("more?");
    assert_eq!(r.response_text.as_deref(), Some("I understand. Is there anything else I can help with?"));
    assert!(!r.should_end);
    let (audio, spoken) = m.speak("bye");
    assert!(audio.is_empty());
    assert_eq!(spoken[0].text, "bye");
    let end = m.end_session();
    assert_eq!(end[0].text, "Session ended");
    assert!(!m.is_connected());
}

#[test]
fn the_rental_script_asks_about_the_counter_offer() {
    let mut m = MockVoiceEngine::new();
    m.setup_rental_flow();
    m.add_response(ScriptedResponse {
        response_text: "extra".to_string(),
        needs_input: false,
        input_prompt: None,
        should_end: false,
    });
    m.start_session("p");
    m.process_text("a");
    m.process_text("b");
    let (r, _) = m.process_text("c");
    assert_eq!(
        r.input_prompt.as_deref(),
        Some("Counter offer: $2,650/12mo or $2,550/18mo. Your budget ceiling is $2,650. How should I proceed?")
    );
    m.process_text("d");
    let (r, _) = m.process_text("e");
    assert!(r.should_end);
    let (r, _) = m.process_text("f");
    assert_eq!(r.response_text.as_deref(), Some("extra"));
}
