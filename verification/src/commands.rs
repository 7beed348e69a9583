//! The decisions behind the commands: the task a call is made for, the demo
//! set-up, the credentials a test call needs, and the texts that the task and
//! configuration commands print.

use vstd::prelude::*;

use crate::amount::{Amount, AmountView};
use crate::cli::{task_type_of, CallArgs, DemoScenario};
use crate::config::{
    merged_telephony, merged_voice, telephony_provider_name, voice_provider_name, EnvVars,
    KartaConfig, TelephonyConfig, TelephonyProvider, VoiceConfig, VoiceProvider,
};
use crate::config::agent::is_default_agent;
use crate::config::principal::default_profile_but_name;
use crate::error::KartaError;
use crate::task::id::{id_text, short_id};
use crate::task::memory::{first_n, sorted_by_recency, truncated, unfinished_task, views_of, TaskMemory};
use crate::task::task::{
    copy_opt_text, empty_context, no_boundaries, opt_text, task_summary, Task, TaskBoundariesView,
    TaskBuilder, TaskContextView, TaskStateView, TaskTargetView, TaskType, TaskTypeView, TaskView,
};
use crate::text::texts;

verus! {

/// `t` is a task just made: pending, with no history, and with the given
/// definition.
pub open spec fn fresh_task(
    t: TaskView,
    task_type: TaskTypeView,
    description: Seq<char>,
    target: TaskTargetView,
    context: TaskContextView,
    boundaries: TaskBoundariesView,
) -> bool {
    &&& t.task_type == task_type
    &&& t.description == description
    &&& t.target == target
    &&& t.context == context
    &&& t.boundaries == boundaries
    &&& t.state == TaskStateView::Pending
    &&& t.history.len() == 0
    &&& t.created_at == t.updated_at
    &&& t.completed_at is None
}

/// The text of an optional argument, or `default` where it was not given.
pub open spec fn text_or(o: Option<String>, default: Seq<char>) -> Seq<char> {
    match o {
        Some(s) => s@,
        None => default,
    }
}

/// The task that the call command describes. Without a goal the task is
/// described as contacting the target and aims to complete the task; without
/// a budget ceiling the task has none.
pub fn call_task(args: CallArgs) -> (t: Task)
    ensures
        t.wf(),
        fresh_task(
            t@,
            task_type_of(args.task)@,
            text_or(args.goal, "Contact "@ + args.target@),
            TaskTargetView {
                name: args.target@,
                phone: opt_text(args.phone),
                context: Some(text_or(args.context, Seq::empty())),
            },
            TaskContextView {
                goal: Some(text_or(args.goal, "Complete the task"@)),
                flexible: texts(args.flexible@),
                firm: texts(args.firm@),
                ..empty_context()
            },
            TaskBoundariesView {
                budget_ceiling: match args.budget_ceiling {
                    Some(a) => Some(a@),
                    None => None,
                },
                ..no_boundaries()
            },
        ),
{
    let ghost a = args;
    let CallArgs { target, task, phone, goal, budget_ceiling, flexible, firm, context } = args;
    let description = match copy_opt_text(&goal) {
        Some(g) => g,
        None => {
            let mut d = String::from_str("Contact ");
            d.append(target.as_str());
            d
        },
    };
    let context_text = match context {
        Some(c) => c,
        None => String::new(),
    };
    let goal_text = match goal {
        Some(g) => g,
        None => String::from_str("Complete the task"),
    };
    let builder = TaskBuilder::new()
        .task_type(TaskType::from(task))
        .description(description)
        .target_with_context(target, phone, context_text)
        .goal(goal_text)
        .flexible(flexible)
        .firm(firm);
    let builder = match budget_ceiling {
        Some(ceiling) => builder.budget_ceiling(ceiling),
        None => builder,
    };
    builder.build().unwrap()
}

/// Mock mode: both the telephony and the voice provider become the mock
/// ones, and nothing else changes.
pub fn apply_mock_mode(config: &mut KartaConfig)
    ensures
        final(config).principal == old(config).principal,
        final(config).agent == old(config).agent,
        final(config).telephony == (TelephonyConfig { provider: TelephonyProvider::Mock, ..old(config).telephony }),
        final(config).voice == (VoiceConfig { provider: VoiceProvider::Mock, ..old(config).voice }),
{
    config.telephony.provider = TelephonyProvider::Mock;
    config.voice.provider = VoiceProvider::Mock;
}

/// The Twilio credentials a test call is placed with.
pub struct TwilioCredentials {
    pub account_sid: String,
    pub auth_token: String,
    pub from_number: String,
}

/// Why a test call cannot be placed with a telephony configuration, if it
/// cannot: Twilio must be the provider, and its three settings must be there.
pub open spec fn test_call_refusal(t: TelephonyConfig) -> Option<Seq<char>> {
    if t.provider != TelephonyProvider::Twilio {
        Some("Twilio not configured. Set TWILIO_ACCOUNT_SID, TWILIO_AUTH_TOKEN, and TWILIO_PHONE_NUMBER in .env"@)
    } else if t.twilio_account_sid is None {
        Some("TWILIO_ACCOUNT_SID not set"@)
    } else if t.twilio_auth_token is None {
        Some("TWILIO_AUTH_TOKEN not set"@)
    } else if t.twilio_phone_number is None {
        Some("TWILIO_PHONE_NUMBER not set"@)
    } else {
        None
    }
}

/// The credentials for a test call, or the configuration error that refuses
/// it.
pub fn test_call_credentials(t: &TelephonyConfig) -> (r: Result<TwilioCredentials, KartaError>)
    ensures
        match test_call_refusal(*t) {
            Some(msg) => r matches Err(KartaError::Config(m)) && m@ == msg,
            None => r matches Ok(c) && Some(c.account_sid@) == opt_text(t.twilio_account_sid)
                && Some(c.auth_token@) == opt_text(t.twilio_auth_token) && Some(c.from_number@)
                == opt_text(t.twilio_phone_number),
        },
{
    if t.provider != TelephonyProvider::Twilio {
        return Err(
            KartaError::Config(
                String::from_str(
                    "Twilio not configured. Set TWILIO_ACCOUNT_SID, TWILIO_AUTH_TOKEN, and TWILIO_PHONE_NUMBER in .env",
                ),
            ),
        );
    }
    let account_sid = match &t.twilio_account_sid {
        Some(s) => s.clone(),
        None => return Err(KartaError::Config(String::from_str("TWILIO_ACCOUNT_SID not set"))),
    };
    let auth_token = match &t.twilio_auth_token {
        Some(s) => s.clone(),
        None => return Err(KartaError::Config(String::from_str("TWILIO_AUTH_TOKEN not set"))),
    };
    let from_number = match &t.twilio_phone_number {
        Some(s) => s.clone(),
        None => return Err(KartaError::Config(String::from_str("TWILIO_PHONE_NUMBER not set"))),
    };
    Ok(TwilioCredentials { account_sid, auth_token, from_number })
}

/// The tasks that `task list` shows, at most `limit` of them: with `all`, the
/// most recently updated tasks of every state, newest first; without it, the
/// tasks that are not finished (completed, failed and cancelled ones left
/// out), in the order in which the store hands them out.
pub fn tasks_to_list<'a>(memory: &'a TaskMemory, all: bool, limit: usize) -> (r: Vec<&'a Task>)
    ensures
        all ==> exists|sorted: Seq<TaskView>|
            #[trigger] sorted_by_recency(memory.tasks(), sorted) && views_of(r@) == first_n(
                sorted,
                limit as nat,
            ),
        !all ==> views_of(r@) == first_n(memory.tasks().filter(unfinished_task()), limit as nat),
{
    if all {
        memory.recent(limit)
    } else {
        truncated(memory.list_unfinished(), limit)
    }
}

/// A task as listings show it: the start of its identifier and its summary.
pub open spec fn task_line(t: TaskView) -> Seq<char> {
    "  "@ + id_text(t.id).subrange(0, 8) + " - "@ + task_summary(t)
}

/// The lines that list tasks, one per task, in order.
pub fn task_lines(tasks: &Vec<&Task>) -> (lines: Vec<String>)
    ensures
        texts(lines@) == views_of(tasks@).map_values(|t: TaskView| task_line(t)),
{
    let mut lines: Vec<String> = Vec::new();
    let n = tasks.len();
    let mut i: usize = 0;
    while i < n
        invariant
            n == tasks@.len(),
            i <= n,
            texts(lines@) == views_of(tasks@).take(i as int).map_values(|t: TaskView| task_line(t)),
        decreases n - i,
    {
        let t = tasks[i];
        let mut line = String::from_str("  ");
        line.append(short_id(t.id).as_str());
        line.append(" - ");
        line.append(t.summary().as_str());
        let ghost before = texts(lines@);
        lines.push(line);
        assert(texts(lines@) =~= before.push(task_line(t@)));
        assert(views_of(tasks@).take(i + 1).map_values(|t: TaskView| task_line(t)) =~= views_of(
            tasks@,
        ).take(i as int).map_values(|t: TaskView| task_line(t)).push(task_line(t@)));
        i = i + 1;
    }
    assert(views_of(tasks@).take(n as int) =~= views_of(tasks@));
    lines
}

/// Why `config init` refuses, if it does: a configuration already exists at
/// `path` and overwriting it was not asked for.
pub open spec fn init_refusal(exists: bool, force: bool, path: Seq<char>) -> Option<Seq<char>> {
    if exists && !force {
        Some("Config already exists at "@ + path + ". Use --force to overwrite."@)
    } else {
        None
    }
}

/// Whether `config init` may write a configuration at `path`.
pub fn config_init_check(exists: bool, force: bool, path: &str) -> (r: Result<(), KartaError>)
    ensures
        match init_refusal(exists, force, path@) {
            Some(m) => r matches Err(KartaError::Config(t)) && t@ == m,
            None => r is Ok,
        },
{
    if exists && !force {
        let mut m = String::from_str("Config already exists at ");
        m.append(path);
        m.append(". Use --force to overwrite.");
        Err(KartaError::Config(m))
    } else {
        Ok(())
    }
}

/// The lines that the validation of a configuration prints.
pub open spec fn validation_lines(c: KartaConfig) -> Seq<Seq<char>> {
    seq![
        "✓ Configuration is valid"@,
        "  Principal: "@ + c.principal.name@,
        "  Agent: "@ + c.agent.name@,
        "  Telephony: "@ + telephony_provider_name(c.telephony.provider),
        "  Voice: "@ + voice_provider_name(c.voice.provider),
    ]
}

fn labelled_line(label: &str, value: &str) -> (s: String)
    ensures
        s@ == label@ + value@,
{
    let mut s = String::from_str(label);
    s.append(value);
    s
}

/// What the validation of a valid configuration prints: the principal, the
/// agent, and the two providers.
pub fn validation_report(c: &KartaConfig) -> (lines: Vec<String>)
    ensures
        texts(lines@) == validation_lines(*c),
{
    let mut lines: Vec<String> = Vec::new();
    lines.push(String::from_str("✓ Configuration is valid"));
    lines.push(labelled_line("  Principal: ", c.principal.name.as_str()));
    lines.push(labelled_line("  Agent: ", c.agent.name.as_str()));
    lines.push(labelled_line("  Telephony: ", c.telephony.provider.debug_text().as_str()));
    lines.push(labelled_line("  Voice: ", c.voice.provider.debug_text().as_str()));
    assert(texts(lines@) =~= validation_lines(*c));
    lines
}

/// The configuration of a demo: the default configuration with the
/// environment merged in, for a principal named "Demo User", with the mock
/// telephony and voice providers.
pub fn demo_config(env: EnvVars) -> (c: KartaConfig)
    ensures
        c.principal.name@ == "Demo User"@,
        default_profile_but_name(c.principal),
        is_default_agent(c.agent),
        c.telephony == (TelephonyConfig {
            provider: TelephonyProvider::Mock,
            ..merged_telephony(
                TelephonyConfig {
                    provider: TelephonyProvider::Mock,
                    twilio_account_sid: None,
                    twilio_auth_token: None,
                    twilio_phone_number: None,
                    telnyx_api_key: None,
                    telnyx_phone_number: None,
                },
                env,
            )
        }),
        c.voice == (VoiceConfig {
            provider: VoiceProvider::Mock,
            ..merged_voice(
                VoiceConfig { provider: VoiceProvider::Mock, gemini_api_key: None, openai_api_key: None, model: None },
                env,
            )
        }),
{
    let mut config = KartaConfig::default_config(env);
    config.principal.name = String::from_str("Demo User");
    apply_mock_mode(&mut config);
    config
}

/// The rent ceiling of the rental demo: 2650 (the bits of `2650.0`).
pub open spec fn rental_demo_ceiling() -> AmountView {
    AmountView { bits: 0x40a4b40000000000u64, text: "2650"@ }
}

/// The task of a demo scenario.
pub open spec fn demo_task_is(t: TaskView, s: DemoScenario) -> bool {
    match s {
        DemoScenario::Appointment => fresh_task(
            t,
            TaskTypeView::BookAppointment,
            "Book a doctor's appointment"@,
            TaskTargetView { name: "Acme Medical Center"@, phone: Some("+1-555-0123"@), context: None },
            TaskContextView {
                goal: Some("Schedule a checkup appointment for next week"@),
                flexible: seq!["specific day"@, "morning vs afternoon"@],
                firm: seq!["must be next week"@],
                ..empty_context()
            },
            no_boundaries(),
        ),
        DemoScenario::Rental => fresh_task(
            t,
            TaskTypeView::RentalAgreement,
            "Negotiate rental agreement"@,
            TaskTargetView {
                name: "Apex Properties"@,
                phone: Some("+1-555-0456"@),
                context: Some("123 Oak Street, 1BR apartment"@),
            },
            TaskContextView {
                goal: Some("Negotiate rental price and complete agreement"@),
                flexible: seq!["lease length"@, "move-in date"@],
                firm: seq!["no parking fee"@, "price under $2,650"@],
                ..empty_context()
            },
            TaskBoundariesView { budget_ceiling: Some(rental_demo_ceiling()), ..no_boundaries() },
        ),
    }
}

fn texts_of2(a: &str, b: &str) -> (v: Vec<String>)
    ensures
        texts(v@) == seq![a@, b@],
{
    let v = vec![String::from_str(a), String::from_str(b)];
    assert(texts(v@) =~= seq![a@, b@]);
    v
}

/// The task of a demo scenario: a doctor's appointment, or a rental
/// negotiation with a ceiling of 2650.
pub fn demo_task(scenario: DemoScenario) -> (t: Task)
    ensures
        t.wf(),
        demo_task_is(t@, scenario),
{
    let builder = match scenario {
        DemoScenario::Appointment => {
            let firm = vec![String::from_str("must be next week")];
            assert(texts(firm@) =~= seq!["must be next week"@]);
            TaskBuilder::new()
                .task_type(TaskType::BookAppointment)
                .description(String::from_str("Book a doctor's appointment"))
                .target(String::from_str("Acme Medical Center"), Some(String::from_str("+1-555-0123")))
                .goal(String::from_str("Schedule a checkup appointment for next week"))
                .flexible(texts_of2("specific day", "morning vs afternoon"))
                .firm(firm)
        },
        DemoScenario::Rental => {
            TaskBuilder::new()
                .task_type(TaskType::RentalAgreement)
                .description(String::from_str("Negotiate rental agreement"))
                .target_with_context(
                    String::from_str("Apex Properties"),
                    Some(String::from_str("+1-555-0456")),
                    String::from_str("123 Oak Street, 1BR apartment"),
                )
                .goal(String::from_str("Negotiate rental price and complete agreement"))
                .budget_ceiling(Amount { bits: 0x40a4b40000000000u64, text: String::from_str("2650") })
                .flexible(texts_of2("lease length", "move-in date"))
                .firm(texts_of2("no parking fee", "price under $2,650"))
        },
    };
    builder.build().unwrap()
}

} // verus!
