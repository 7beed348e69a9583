use karta::conversation::state::{
    ConversationEvent, ConversationState, ConversationStateMachine, EndReason, Urgency,
    WaitingContext,
};

fn context() -> WaitingContext {
    WaitingContext {
        question: "Which day?".to_string(),
        options: vec!["Monday".to_string(), "Tuesday".to_string()],
        urgency: Urgency::Medium,
    }
}

fn started() -> ConversationStateMachine {
    let mut m = ConversationStateMachine::new();
    m.process_event(ConversationEvent::CallInitiated).unwrap();
    m.process_event(ConversationEvent::CallConnected).unwrap();
    m.process_event(ConversationEvent::RemoteSpoke("Hello?".to_string())).unwrap();
    m
}

#[test]
fn a_new_machine_has_not_started() {
    let m = ConversationStateMachine::new();
    assert_eq!(*m.state(), ConversationState::NotStarted);
    assert!(!m.is_active());
    assert!(!m.is_waiting_for_input());
    assert!(m.waiting_context().is_none());
    assert!(m.history().is_empty());
}

#[test]
fn the_usual_call_runs_from_start_to_completion() {
    let mut m = started();
    assert_eq!(*m.state(), ConversationState::Active);
    assert!(m.is_active());
    m.process_event(ConversationEvent::AgentSpoke("Hi".to_string())).unwrap();
    m.process_event(ConversationEvent::CallEnding(EndReason::Completed)).unwrap();
    assert_eq!(*m.state(), ConversationState::Ending);
    m.process_event(ConversationEvent::CallEnded).unwrap();
    assert_eq!(*m.state(), ConversationState::Ended(EndReason::Completed));
    assert!(!m.is_active());
    assert_eq!(m.history().len(), 6);
}

#[test]
fn the_history_is_a_chain_of_steps() {
    let m = started();
    let h = m.history();
    assert_eq!(h[0].from, ConversationState::NotStarted);
    assert_eq!(h[0].to, ConversationState::Initiating);
    assert_eq!(h[1].from, h[0].to);
    assert_eq!(h[2].from, h[1].to);
    assert_eq!(h[2].to, *m.state());
    assert_eq!(h[0].event, "CallInitiated");
    assert_eq!(h[2].event, "RemoteSpoke(\"Hello?\")");
}

#[test]
fn a_question_waits_for_the_principal_and_an_answer_resumes() {
    let mut m = started();
    m.process_event(ConversationEvent::NeedInput(context())).unwrap();
    assert!(m.is_waiting_for_input());
    assert!(m.is_active());
    assert_eq!(m.waiting_context().unwrap().question, "Which day?");
    m.process_event(ConversationEvent::PrincipalInput("Monday".to_string())).unwrap();
    assert_eq!(*m.state(), ConversationState::Active);
    assert!(m.waiting_context().is_none());
}

#[test]
fn an_invalid_event_is_refused_and_changes_nothing() {
    let mut m = ConversationStateMachine::new();
    let r = m.process_event(ConversationEvent::CallConnected);
    assert_eq!(r, Err("Invalid transition: NotStarted + CallConnected".to_string()));
    assert_eq!(*m.state(), ConversationState::NotStarted);
    assert!(m.history().is_empty());
}

#[test]
fn the_refusal_message_renders_both_sides_as_debug() {
    let mut m = started();
    m.process_event(ConversationEvent::NeedInput(context())).unwrap();
    let r = m.process_event(ConversationEvent::AudioReceived(vec![1, 2, 30]));
    assert_eq!(
        r,
        Err("Invalid transition: WaitingForPrincipal(WaitingContext { question: \"Which day?\", options: [\"Monday\", \"Tuesday\"], urgency: Medium }) + AudioReceived([1, 2, 30])".to_string())
    );
    let expected_state = format!("{:?}", ConversationState::WaitingForPrincipal(context()));
    assert_eq!(m.state().debug_text(), expected_state);
}

#[test]
fn ending_is_accepted_from_every_state() {
    let mut fresh = ConversationStateMachine::new();
    fresh.process_event(ConversationEvent::CallEnding(EndReason::Timeout)).unwrap();
    assert_eq!(*fresh.state(), ConversationState::Ending);
    let mut done = started();
    done.process_event(ConversationEvent::Error("line dropped".to_string())).unwrap();
    done.process_event(ConversationEvent::CallEnding(EndReason::RemoteEnded)).unwrap();
    assert_eq!(*done.state(), ConversationState::Ending);
}

#[test]
fn an_error_ends_the_conversation_from_every_state() {
    let mut m = ConversationStateMachine::new();
    m.process_event(ConversationEvent::Error("boom".to_string())).unwrap();
    assert_eq!(*m.state(), ConversationState::Ended(EndReason::Error("boom".to_string())));
    let mut w = started();
    w.process_event(ConversationEvent::NeedInput(context())).unwrap();
    w.process_event(ConversationEvent::Error("x".to_string())).unwrap();
    assert_eq!(*w.state(), ConversationState::Ended(EndReason::Error("x".to_string())));
}

#[test]
fn an_ended_conversation_refuses_ordinary_events() {
    let mut m = ConversationStateMachine::new();
    m.process_event(ConversationEvent::Error("boom".to_string())).unwrap();
    assert!(m.process_event(ConversationEvent::CallInitiated).is_err());
    assert!(m.process_event(ConversationEvent::CallEnded).is_err());
    assert_eq!(m.history().len(), 1);
}

#[test]
fn debug_texts_match_the_derived_rendering() {
    let events = vec![
        ConversationEvent::CallInitiated,
        ConversationEvent::Decision("take \"it\"\n".to_string()),
        ConversationEvent::CallEnding(EndReason::Failed("no slot".to_string())),
        ConversationEvent::NeedInput(context()),
        ConversationEvent::AudioReceived(vec![]),
    ];
    for e in &events {
        assert_eq!(e.debug_text(), format!("{:?}", e));
    }
    let reasons = vec![EndReason::PrincipalEnded, EndReason::Error("é".to_string()), EndReason::Timeout];
    for r in &reasons {
        assert_eq!(r.debug_text(), format!("{:?}", r));
    }
}

#[test]
fn a_call_ends_with_the_reason_it_was_ended_for() {
    let mut m = started();
    m.process_event(ConversationEvent::CallEnding(EndReason::Failed("no answer".to_string()))).unwrap();
    m.process_event(ConversationEvent::CallEnded).unwrap();
    assert_eq!(*m.state(), ConversationState::Ended(EndReason::Failed("no answer".to_string())));
    let mut t = started();
    t.process_event(ConversationEvent::CallEnding(EndReason::Timeout)).unwrap();
    t.process_event(ConversationEvent::CallEnding(EndReason::PrincipalEnded)).unwrap();
    t.process_event(ConversationEvent::CallEnded).unwrap();
    assert_eq!(*t.state(), ConversationState::Ended(EndReason::PrincipalEnded));
}
