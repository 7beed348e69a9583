use karta::cli::{CallArgs, DemoScenario, TaskTypeArg, DEFAULT_TEST_MESSAGE};
use karta::commands::{
    apply_mock_mode, config_init_check, call_task, demo_config, demo_task, task_lines, tasks_to_list,
    test_call_credentials, validation_report,
};
use karta::config::{EnvVars, KartaConfig, TelephonyConfig, TelephonyProvider, VoiceProvider};
use karta::error::KartaError;
use karta::task::id::id_string;
use karta::task::memory::TaskMemory;
use karta::task::task::{Task, TaskState, TaskTarget, TaskType};

fn empty_env() -> EnvVars {
    EnvVars {
        twilio_account_sid: None,
        twilio_auth_token: None,
        twilio_phone_number: None,
        telnyx_api_key: None,
        telnyx_phone_number: None,
        gemini_api_key: None,
        openai_api_key: None,
    }
}

fn args() -> CallArgs {
    CallArgs {
        target: "Acme".to_string(),
        task: TaskTypeArg::Inquiry,
        phone: None,
        goal: None,
        budget_ceiling: None,
        flexible: vec![],
        firm: vec![],
        context: None,
    }
}

#[test]
fn task_type_arguments_name_task_types() {
    assert!(matches!(TaskType::from(TaskTypeArg::Appointment), TaskType::BookAppointment));
    assert!(matches!(TaskType::from(TaskTypeArg::Rental), TaskType::RentalAgreement));
    assert!(matches!(TaskType::from(TaskTypeArg::Reservation), TaskType::Reservation));
    assert!(matches!(TaskType::from(TaskTypeArg::Negotiation), TaskType::Negotiation));
    assert!(matches!(TaskType::from(TaskTypeArg::Inquiry), TaskType::Inquiry));
    assert!(matches!(TaskType::from(TaskTypeArg::FollowUp), TaskType::FollowUp));
}

#[test]
fn a_call_without_a_goal_contacts_the_target() {
    let t = call_task(args());
    assert_eq!(t.description, "Contact Acme");
    assert_eq!(t.context.goal, Some("Complete the task".to_string()));
    assert_eq!(t.target.context, Some(String::new()));
    assert_eq!(t.target.phone, None);
    assert!(t.boundaries.budget_ceiling.is_none());
    assert!(!karta::ui::display::format_task_summary(&t).contains("Budget ceiling"));
    assert!(matches!(t.task_type, TaskType::Inquiry));
}

#[test]
fn a_call_with_a_goal_is_described_by_it() {
    let a = CallArgs {
        task: TaskTypeArg::Negotiation,
        phone: Some("+1".to_string()),
        goal: Some("Lower the rent".to_string()),
        budget_ceiling: Some(karta::amount::Amount { bits: 2650f64.to_bits(), text: "2650".to_string() }),
        flexible: vec!["term".to_string()],
        firm: vec!["no fee".to_string()],
        context: Some("unit 4".to_string()),
        ..args()
    };
    let t = call_task(a);
    assert_eq!(t.description, "Lower the rent");
    assert_eq!(t.context.goal, Some("Lower the rent".to_string()));
    assert_eq!(t.target.phone, Some("+1".to_string()));
    assert_eq!(t.target.context, Some("unit 4".to_string()));
    assert_eq!(t.context.flexible, vec!["term".to_string()]);
    assert_eq!(t.context.firm, vec!["no fee".to_string()]);
    assert_eq!(t.boundaries.budget_ceiling.unwrap().text, "2650");
}

#[test]
fn mock_mode_switches_both_providers() {
    let mut c = KartaConfig::default_config(EnvVars { twilio_account_sid: Some("AC".to_string()), gemini_api_key: Some("g".to_string()), ..empty_env() });
    apply_mock_mode(&mut c);
    assert_eq!(c.telephony.provider, TelephonyProvider::Mock);
    assert_eq!(c.voice.provider, VoiceProvider::Mock);
    assert_eq!(c.telephony.twilio_account_sid, Some("AC".to_string()));
}

fn twilio() -> TelephonyConfig {
    TelephonyConfig {
        provider: TelephonyProvider::Twilio,
        twilio_account_sid: Some("AC".to_string()),
        twilio_auth_token: Some("tok".to_string()),
        twilio_phone_number: Some("+1".to_string()),
        telnyx_api_key: None,
        telnyx_phone_number: None,
    }
}

#[test]
fn a_test_call_needs_twilio_and_its_three_settings() {
    let c = test_call_credentials(&twilio()).ok().unwrap();
    assert_eq!((c.account_sid.as_str(), c.auth_token.as_str(), c.from_number.as_str()), ("AC", "tok", "+1"));
    let mock = TelephonyConfig { provider: TelephonyProvider::Mock, ..twilio() };
    assert_eq!(
        test_call_credentials(&mock).err(),
        Some(KartaError::Config("Twilio not configured. Set TWILIO_ACCOUNT_SID, TWILIO_AUTH_TOKEN, and TWILIO_PHONE_NUMBER in .env".to_string()))
    );
    let t = TelephonyConfig { twilio_account_sid: None, ..twilio() };
    assert_eq!(test_call_credentials(&t).err(), Some(KartaError::Config("TWILIO_ACCOUNT_SID not set".to_string())));
    let t = TelephonyConfig { twilio_auth_token: None, ..twilio() };
    assert_eq!(test_call_credentials(&t).err(), Some(KartaError::Config("TWILIO_AUTH_TOKEN not set".to_string())));
    let t = TelephonyConfig { twilio_phone_number: None, ..twilio() };
    assert_eq!(test_call_credentials(&t).err(), Some(KartaError::Config("TWILIO_PHONE_NUMBER not set".to_string())));
    assert!(DEFAULT_TEST_MESSAGE.starts_with("Hello! This is Karta"));
}

#[test]
fn task_listing_lines_show_the_short_id_and_summary() {
    let t = Task::new(
        TaskType::Reservation,
        "Table for two".to_string(),
        TaskTarget { name: "Bistro".to_string(), phone: None, context: None },
    );
    let lines = task_lines(&vec![&t]);
    assert_eq!(lines, vec![format!("  {} - [Reservation] Bistro - Table for two (Pending)", &id_string(t.id)[..8])]);
    assert_eq!(&id_string(t.id)[..8], &uuid::Uuid::from_u128(t.id).to_string()[..8]);
    assert!(task_lines(&vec![]).is_empty());
}

#[test]
fn the_validation_report_names_principal_agent_and_providers() {
    let c = KartaConfig::default_config(EnvVars { telnyx_api_key: Some("k".to_string()), ..empty_env() });
    assert_eq!(
        validation_report(&c),
        vec![
            "✓ Configuration is valid".to_string(),
            "  Principal: User".to_string(),
            "  Agent: Karta".to_string(),
            "  Telephony: Telnyx".to_string(),
            "  Voice: Mock".to_string(),
        ]
    );
}

#[test]
fn the_demo_runs_with_mock_providers() {
    let c = demo_config(EnvVars { gemini_api_key: Some("g".to_string()), ..empty_env() });
    assert_eq!(c.principal.name, "Demo User");
    assert_eq!(c.telephony.provider, TelephonyProvider::Mock);
    assert_eq!(c.voice.provider, VoiceProvider::Mock);
    assert_eq!(c.voice.gemini_api_key, Some("g".to_string()));
    assert_eq!(DemoScenario::Appointment.debug_text(), "Appointment");
    assert_eq!(DemoScenario::Rental.debug_text(), "Rental");
}

#[test]
fn the_demo_tasks() {
    let a = demo_task(DemoScenario::Appointment);
    assert_eq!(a.summary(), "[Appointment] Acme Medical Center - Book a doctor's appointment (Pending)");
    assert_eq!(a.target.phone, Some("+1-555-0123".to_string()));
    assert_eq!(a.context.flexible, vec!["specific day".to_string(), "morning vs afternoon".to_string()]);
    assert_eq!(a.context.firm, vec!["must be next week".to_string()]);
    assert!(a.boundaries.budget_ceiling.is_none());
    let r = demo_task(DemoScenario::Rental);
    assert_eq!(r.summary(), "[Rental] Apex Properties - Negotiate rental agreement (Pending)");
    assert_eq!(r.target.context, Some("123 Oak Street, 1BR apartment".to_string()));
    let ceiling = r.boundaries.budget_ceiling.unwrap();
    assert_eq!(f64::from_bits(ceiling.bits), 2650.0);
    assert_eq!(ceiling.text, format!("{}", 2650.0f64));
    assert_eq!(r.context.firm, vec!["no parking fee".to_string(), "price under $2,650".to_string()]);
}

#[test]
fn config_init_refuses_to_overwrite_without_force() {
    assert_eq!(
        config_init_check(true, false, "/home/u/.config/karta/config.toml"),
        Err(KartaError::Config("Config already exists at /home/u/.config/karta/config.toml. Use --force to overwrite.".to_string()))
    );
    assert_eq!(config_init_check(true, true, "p"), Ok(()));
    assert_eq!(config_init_check(false, false, "p"), Ok(()));
}

#[test]
fn task_listing_leaves_out_finished_tasks_unless_all_is_asked() {
    let mut m = TaskMemory::new();
    for (name, state) in [("A", TaskState::Preparing), ("B", TaskState::Completed), ("C", TaskState::InProgress), ("D", TaskState::Pending), ("E", TaskState::Processing)] {
        let mut t = Task::new(TaskType::Inquiry, "x".to_string(), TaskTarget { name: name.to_string(), phone: None, context: None });
        t.set_state(state);
        m.insert(t);
    }
    let names = |v: Vec<&Task>| v.iter().map(|t| t.target.name.clone()).collect::<Vec<_>>();
    let mut unfinished = names(tasks_to_list(&m, false, 10));
    unfinished.sort();
    assert_eq!(unfinished, vec!["A", "C", "D", "E"]);
    let first_two = names(tasks_to_list(&m, false, 2));
    assert_eq!(first_two.len(), 2);
    assert!(first_two.iter().all(|n| n != "B"));
    assert_eq!(names(tasks_to_list(&m, false, 3))[..2].to_vec(), first_two);
    assert_eq!(tasks_to_list(&m, false, 0).len(), 0);
    assert_eq!(tasks_to_list(&m, true, 10).len(), 5);
    assert_eq!(tasks_to_list(&m, true, 3).len(), 3);
}
