use karta::conversation::session::UIEvent;
use karta::conversation::state::{ConversationState, EndReason, Urgency, WaitingContext};
use karta::task::task::{TaskBuilder, TaskType};
use karta::ui::backchannel::{status_text, Backchannel, KeyInput, MAX_TRANSCRIPT_LINES};
use karta::ui::colors::{BG_YELLOW, BLUE, BOLD, CYAN, DIM, GREEN, MAGENTA, RED, RESET, YELLOW};
use karta::ui::display::{format_state, format_task_summary, format_transcript, question_text, tagged_text};
use karta::voice::engine::{Speaker, TranscriptEvent};

fn line(speaker: Speaker, text: &str, is_final: bool) -> TranscriptEvent {
    TranscriptEvent { speaker, text: text.to_string(), is_final, timestamp: 0 }
}

fn key(c: char) -> KeyInput {
    KeyInput::Char { c, control: false }
}

#[test]
fn transcript_lines_are_labelled_by_speaker() {
    assert_eq!(
        format_transcript(&line(Speaker::Agent, "Hello", true)),
        format!("{}[KARTA]{}  Hello", CYAN, RESET)
    );
    assert_eq!(
        format_transcript(&line(Speaker::Remote, "Hi", false)),
        format!("{}[THEM ]{}… Hi", "\x1b[37m", RESET)
    );
    assert!(format_transcript(&line(Speaker::Principal, "x", true)).starts_with(&format!("{}[YOU  ]", GREEN)));
    assert!(format_transcript(&line(Speaker::System, "x", true)).starts_with(&format!("{}[SYS  ]", DIM)));
}

#[test]
fn states_are_shown_with_their_colors() {
    assert_eq!(format_state(&ConversationState::Active), format!("{}🟢 Active{}", GREEN, RESET));
    assert_eq!(format_state(&ConversationState::NotStarted), format!("{}⚪ Not started{}", DIM, RESET));
    assert_eq!(
        format_state(&ConversationState::Ended(EndReason::Failed("no slot".to_string()))),
        format!("{}⚫ Ended: no slot{}", DIM, RESET)
    );
    assert_eq!(
        format_state(&ConversationState::Ended(EndReason::RemoteEnded)),
        format!("{}⚫ Ended: they hung up{}", DIM, RESET)
    );
    let ctx = WaitingContext { question: "q".to_string(), options: vec![], urgency: Urgency::Low };
    assert_eq!(
        format_state(&ConversationState::WaitingForPrincipal(ctx)),
        format!("{}💬 Waiting for your input{}", MAGENTA, RESET)
    );
    assert_eq!(format_state(&ConversationState::OnHold), format!("{}⏸ On hold{}", YELLOW, RESET));
}

#[test]
fn the_task_summary_lists_what_is_set() {
    let t = TaskBuilder::new()
        .task_type(TaskType::Inquiry)
        .description("Ask".to_string())
        .target("Acme".to_string(), None)
        .flexible(vec!["a".to_string(), "b".to_string()])
        .build()
        .unwrap();
    assert_eq!(
        format_task_summary(&t),
        format!("{b}📋 Task:{r} Ask\n{b}📍 Target:{r} Acme\n{g}✓ Flexible:{r} a, b", b = BOLD, r = RESET, g = GREEN)
    );
    let t = TaskBuilder::new()
        .task_type(TaskType::Inquiry)
        .description("Ask".to_string())
        .target("Acme".to_string(), Some("+1".to_string()))
        .budget_ceiling(karta::amount::Amount { bits: 0x40a4b40000000000, text: "2650".to_string() })
        .firm(vec!["x".to_string()])
        .build()
        .unwrap();
    assert_eq!(
        format_task_summary(&t),
        format!(
            "{b}📋 Task:{r} Ask\n{b}📍 Target:{r} Acme\n{b}📞 Phone:{r} +1\n{b}💰 Budget ceiling:{r} $2650\n{red}✗ Firm:{r} x",
            b = BOLD,
            r = RESET,
            red = RED
        )
    );
}

#[test]
fn a_question_lists_numbered_suggestions() {
    let q = question_text("Which day?", &vec!["Mon".to_string(), "Tue".to_string()], "\n");
    assert_eq!(
        q,
        format!(
            "\n{y}💬 KARTA NEEDS INPUT:{r}\n   Which day?\n\n   Suggested responses:\n   {d}[1]{r} Mon\n   {d}[2]{r} Tue\n\n{g}>{r} ",
            y = BG_YELLOW,
            r = RESET,
            d = DIM,
            g = GREEN
        )
    );
    let plain = question_text("Ok?", &vec![], "\n");
    assert_eq!(plain, format!("\n{y}💬 KARTA NEEDS INPUT:{r}\n   Ok?\n\n{g}>{r} ", y = BG_YELLOW, r = RESET, g = GREEN));
    assert_eq!(tagged_text(BLUE, "[STATUS]", "ok"), format!("{}[STATUS]{} ok", BLUE, RESET));
}

#[test]
fn the_backchannel_shows_events() {
    let mut b = Backchannel::new();
    assert!(b.is_active());
    assert_eq!(status_text("Ready."), format!("\r\n{}[STATUS]{} Ready.\r\n{}>{} ", BLUE, RESET, GREEN, RESET));
    assert_eq!(
        b.handle_ui_event(UIEvent::Status("Calling".to_string())),
        format!("\r\x1b[K\r\n{}[STATUS]{} Calling\r\n", BLUE, RESET)
    );
    assert_eq!(
        b.handle_ui_event(UIEvent::Error("oops".to_string())),
        format!("\r\x1b[K\r\n{}[ERROR]{} oops\r\n", RED, RESET)
    );
    let ctx = WaitingContext { question: "Tuesday?".to_string(), options: vec!["yes".to_string()], urgency: Urgency::High };
    let out = b.handle_ui_event(UIEvent::NeedInput(ctx));
    assert_eq!(
        out,
        format!(
            "\r\n\n{y}💬 KARTA NEEDS INPUT:{r}\r\n   Tuesday?\r\n\r\n   Suggested responses:\r\n   {d}[1]{r} yes\r\n\r\n{g}>{r} ",
            y = BG_YELLOW,
            r = RESET,
            d = DIM,
            g = GREEN
        )
    );
    assert!(b.is_waiting_for_input());
    b.handle_key_event(key('h'));
    let out = b.handle_ui_event(UIEvent::CallStateChanged(ConversationState::Active));
    assert_eq!(out, format!("\r\x1b[K\r\n{g}🟢 Active{r}\r\n\r\x1b[K{g}>{r} h", g = GREEN, r = RESET));
    let out = b.handle_ui_event(UIEvent::TaskCompleted(false, "not done".to_string()));
    assert!(out.starts_with(&format!("\r\x1b[K\r\n{}[INCOMPLETE]{} not done\r\n", YELLOW, RESET)));
    assert!(!b.is_active());
}

#[test]
fn a_typed_line_is_submitted_exactly() {
    let mut b = Backchannel::new();
    for c in "Yes!".chars() {
        let o = b.handle_key_event(key(c));
        assert!(o.keep_running);
        assert!(o.submitted.is_none());
    }
    assert_eq!(b.input(), "Yes!");
    let o = b.handle_key_event(KeyInput::Enter);
    assert_eq!(o.submitted, Some("Yes!".to_string()));
    assert_eq!(o.output, format!("\r\x1b[K\r\n{}[YOU]{} Yes!\r\n", GREEN, RESET));
    assert_eq!(b.input(), "");
    assert!(!b.is_waiting_for_input());
    let o = b.handle_key_event(KeyInput::Enter);
    assert!(o.submitted.is_none());
    assert_eq!(o.output, "");
}

#[test]
fn backspace_undoes_and_escape_clears() {
    let mut b = Backchannel::new();
    b.handle_key_event(key('a'));
    b.handle_key_event(key('é'));
    let o = b.handle_key_event(KeyInput::Backspace);
    assert_eq!(b.input(), "a");
    assert_eq!(o.output, format!("\r\x1b[K{}>{} a", GREEN, RESET));
    b.handle_key_event(KeyInput::Esc);
    assert_eq!(b.input(), "");
    let o = b.handle_key_event(KeyInput::Backspace);
    assert_eq!(o.output, "");
    let o = b.handle_key_event(KeyInput::Other);
    assert!(o.keep_running);
}

#[test]
fn ctrl_c_stops_and_other_control_keys_type() {
    let mut b = Backchannel::new();
    let o = b.handle_key_event(KeyInput::Char { c: 'x', control: true });
    assert!(o.keep_running);
    assert_eq!(b.input(), "x");
    let o = b.handle_key_event(KeyInput::Char { c: 'c', control: true });
    assert!(!o.keep_running);
    assert_eq!(o.output, "\r\x1b[K\r\n\nExiting...\r\n");
    assert_eq!(b.input(), "x");
}

#[test]
fn the_transcript_keeps_the_newest_lines() {
    let mut b = Backchannel::new();
    for i in 0..(MAX_TRANSCRIPT_LINES + 5) {
        b.handle_ui_event(UIEvent::Transcript(line(Speaker::Agent, &format!("{}", i), true)));
    }
    let kept = b.transcript_lines();
    assert_eq!(kept.len(), MAX_TRANSCRIPT_LINES);
    assert_eq!(kept[0], format_transcript(&line(Speaker::Agent, "5", true)));
    assert_eq!(kept[MAX_TRANSCRIPT_LINES - 1], format_transcript(&line(Speaker::Agent, "104", true)));
}
