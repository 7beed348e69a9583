use karta::config::{EnvVars, KartaConfig};
use karta::conversation::session::{ConversationSession, UIEvent};
use karta::conversation::state::{ConversationState, EndReason};
use karta::error::KartaError;
use karta::task::task::{Task, TaskEventType, TaskState, TaskTarget, TaskType};
use karta::telephony::call::Call;
use karta::voice::engine::VoiceResponse;

fn config() -> KartaConfig {
    KartaConfig::default_config(EnvVars {
        twilio_account_sid: None,
        twilio_auth_token: None,
        twilio_phone_number: None,
        telnyx_api_key: None,
        telnyx_phone_number: None,
        gemini_api_key: None,
        openai_api_key: None,
    })
}

fn session(phone: Option<&str>) -> ConversationSession {
    let task = Task::new(
        TaskType::BookAppointment,
        "Book a checkup".to_string(),
        TaskTarget { name: "Acme Medical".to_string(), phone: phone.map(|p| p.to_string()), context: None },
    );
    ConversationSession::new(task, config())
}

fn say(text: &str) -> VoiceResponse {
    VoiceResponse { response_text: Some(text.to_string()), ..VoiceResponse::default() }
}

#[test]
fn the_phone_to_call_is_the_targets() {
    assert_eq!(session(Some("+1-555-0123")).phone_to_call(), Ok("+1-555-0123".to_string()));
    assert_eq!(session(None).phone_to_call(), Err(KartaError::Task("No phone number for target".to_string())));
    assert_eq!(session(None).calling_status(), "Calling Acme Medical...");
}

#[test]
fn the_system_prompt_joins_agent_principal_task_and_instructions() {
    let s = session(Some("+1"));
    let p = s.generate_system_prompt();
    assert!(p.starts_with(&s.config().agent.to_system_prompt()));
    assert!(p.contains("Book a checkup"));
    assert!(p.contains("Acme Medical"));
    assert!(p.ends_with("5. When the task is complete, use end_call with success=true\n"));
}

#[test]
fn a_whole_call_completes_the_task() {
    let mut s = session(Some("+1-555-0123"));
    assert_eq!(*s.state(), ConversationState::NotStarted);
    s.call_initiated();
    assert_eq!(*s.state(), ConversationState::Initiating);
    let events = s.call_placed(Call::new("+1-555-0123".to_string(), "+1".to_string()), "+1-555-0123");
    assert!(matches!(&events[0], UIEvent::Status(m) if m == "Connected!"));
    assert!(matches!(&events[1], UIEvent::CallStateChanged(ConversationState::Connecting)));
    assert_eq!(s.task().state, TaskState::InProgress);
    assert_eq!(s.task().history[1].event_type, TaskEventType::CallStarted);
    assert_eq!(s.task().history[1].description, "Calling +1-555-0123");
    assert!(s.call().is_some());
    let r = VoiceResponse { transcript_in: Some("Hello".to_string()), ..say("Hi, this is Karta") };
    let (events, end) = s.handle_voice_response(&r);
    assert!(events.is_empty() && !end);
    assert_eq!(*s.state(), ConversationState::Active);
    assert!(s.should_continue(0));
    assert!(!s.should_continue(100));
    let ask = VoiceResponse { needs_input: true, input_prompt: Some("Tuesday?".to_string()), ..say("One moment") };
    let (events, _) = s.handle_voice_response(&ask);
    match &events[0] {
        UIEvent::NeedInput(ctx) => {
            assert_eq!(ctx.question, "Tuesday?");
            assert!(ctx.options.is_empty());
        }
        _ => panic!("expected a question"),
    }
    assert!(s.is_waiting_for_input());
    s.principal_input("Yes".to_string());
    assert_eq!(*s.state(), ConversationState::Active);
    let bye = VoiceResponse { should_end: true, end_reason: Some("booked".to_string()), ..say("Bye") };
    let (_, end) = s.handle_voice_response(&bye);
    assert!(end);
    assert_eq!(*s.state(), ConversationState::Ending);
    assert_eq!(s.task().history.last().unwrap().description, "Ending: booked");
    match s.finish() {
        UIEvent::TaskCompleted(ok, m) => {
            assert!(ok);
            assert_eq!(m, "Task completed successfully");
        }
        _ => panic!("expected completion"),
    }
    assert_eq!(*s.state(), ConversationState::Ended(EndReason::Completed));
    assert_eq!(s.task().state, TaskState::Completed);
    assert_eq!(s.task().history.last().unwrap().event_type, TaskEventType::CallEnded);
    assert!(!s.is_active());
}

#[test]
fn a_call_that_never_ends_properly_fails_the_task() {
    let mut s = session(Some("+1"));
    s.call_initiated();
    match s.finish() {
        UIEvent::TaskCompleted(ok, m) => {
            assert!(!ok);
            assert_eq!(m, "Task incomplete");
        }
        _ => panic!("expected completion"),
    }
    assert_eq!(s.task().state, TaskState::Failed("Call ended without completing task".to_string()));
    assert!(s.task().completed_at.is_some());
}
