//! Conversation session: the decisions of a call from start to finish.
//!
//! The program drives a session: it places the call, exchanges audio and
//! text with the voice engine, and shows what the session reports. Each step
//! comes here to update the task and the conversation state and to say what
//! the user interface is to show.

use vstd::prelude::*;

use crate::config::principal::PrivacyLevel;
use crate::config::KartaConfig;
use crate::conversation::state::{
    ConversationEvent, ConversationEventView, ConversationState, ConversationStateMachine,
    ConversationStateView, EndReason, EndReasonView, Urgency, WaitingContext, WaitingContextView,
    state_after, state_is_active,
};
use crate::error::KartaError;
use crate::task::task::{
    appended_event, opt_text, same_definition, state_change_text, task_type_debug, Task,
    TaskEventType, TaskState, TaskStateView, TaskView,
};
use crate::telephony::call::Call;
use crate::text::{join, joined, occurs_at, text_contains, texts};
use crate::voice::engine::{TranscriptEvent, VoiceResponse};

verus! {

/// Events sent to the UI.
#[derive(Debug, Clone)]
pub enum UIEvent {
    /// Status update
    Status(String),
    /// Transcript update
    Transcript(TranscriptEvent),
    /// Need input from principal
    NeedInput(WaitingContext),
    /// Call state changed
    CallStateChanged(ConversationState),
    /// Task completed
    TaskCompleted(bool, String),
    /// Error
    Error(String),
}

/// A conversation session: a single call from start to finish.
pub struct ConversationSession {
    task: Task,
    config: KartaConfig,
    state_machine: ConversationStateMachine,
    call: Option<Call>,
}

// ---------------------------------------------------------------------------
// The system prompt
// ---------------------------------------------------------------------------

pub open spec fn privacy_debug(p: PrivacyLevel) -> Seq<char> {
    match p {
        PrivacyLevel::Conservative => "Conservative"@,
        PrivacyLevel::Moderate => "Moderate"@,
        PrivacyLevel::Open => "Open"@,
    }
}

/// The principal's part of the prompt.
pub open spec fn principal_section(c: KartaConfig) -> Seq<char> {
    let p = c.principal;
    "\n\nPRINCIPAL INFORMATION:\n- Name: "@ + p.name@ + "\n- Location: "@ + match opt_text(p.location) {
        Some(l) => l,
        None => "Not specified"@,
    } + "\n- Privacy Level: "@ + privacy_debug(p.values.privacy_level)
        + "\n\nPRINCIPAL BOUNDARIES:\n- Max auto-approve amount: $"@
        + p.boundaries.max_auto_approve_amount.text@ + "\n- Can share: "@ + joined(
        texts(p.boundaries.share_allowed@),
        ", "@,
    ) + "\n- Never share: "@ + joined(texts(p.boundaries.share_never@), ", "@)
        + "\n- Requires approval: "@ + joined(
        texts(p.boundaries.never_commit_without_approval@),
        ", "@,
    ) + "\n"@
}

/// The task's part of the prompt, with the lines of its constraints.
pub open spec fn task_section(t: TaskView) -> Seq<char> {
    "\n\nCURRENT TASK:\n- Type: "@ + task_type_debug(t.task_type) + "\n- Target: "@ + t.target.name
        + "\n- Description: "@ + t.description + "\n- Goal: "@ + match t.context.goal {
        Some(g) => g,
        None => "Complete the task"@,
    } + "\n"@ + match t.boundaries.budget_ceiling {
        Some(a) => "- Budget ceiling: $"@ + a.text + "\n"@,
        None => Seq::empty(),
    } + if t.context.flexible.len() > 0 {
        "- Flexible on: "@ + joined(t.context.flexible, ", "@) + "\n"@
    } else {
        Seq::empty()
    } + if t.context.firm.len() > 0 {
        "- Firm on: "@ + joined(t.context.firm, ", "@) + "\n"@
    } else {
        Seq::empty()
    }
}

pub open spec fn instructions_section() -> Seq<char> {
    "\n\nINSTRUCTIONS:\n1. Make the call and accomplish the task\n2. Stay within the boundaries set by the principal\n3. If you need to make a decision outside your authority, use request_principal_input\n4. Be efficient but polite\n5. When the task is complete, use end_call with success=true\n"@
}

/// The system prompt of a session: the agent's personality, the principal,
/// the task, and the instructions.
pub open spec fn session_prompt(c: KartaConfig, t: TaskView) -> Seq<char> {
    crate::config::agent::agent_prompt(c.agent) + principal_section(c) + task_section(t)
        + instructions_section()
}

/// The line that lists the task's flexible points.
pub open spec fn flexible_line(t: TaskView) -> Seq<char> {
    "- Flexible on: "@ + joined(t.context.flexible, ", "@) + "\n"@
}

/// The line that lists the task's firm points.
pub open spec fn firm_line(t: TaskView) -> Seq<char> {
    "- Firm on: "@ + joined(t.context.firm, ", "@) + "\n"@
}

proof fn lemma_contains_middle(a: Seq<char>, b: Seq<char>, c: Seq<char>)
    ensures
        text_contains(a + b + c, b),
{
    assert((a + b + c).subrange(a.len() as int, (a.len() + b.len()) as int) =~= b);
    assert(occurs_at(a + b + c, b, a.len() as int));
}

proof fn lemma_contains_within(a: Seq<char>, b: Seq<char>, c: Seq<char>, x: Seq<char>)
    requires
        text_contains(b, x),
    ensures
        text_contains(a + b + c, x),
{
    let i = choose|i: int| occurs_at(b, x, i);
    let h = a + b + c;
    assert(h.subrange(a.len() + i, a.len() + i + x.len()) =~= b.subrange(i, i + x.len()));
    assert(occurs_at(h, x, a.len() + i));
}

/// The prompt tells the agent where it may bend and where it may not: the
/// task's flexible points, joined by ", ", follow "- Flexible on: ", and its
/// firm points follow "- Firm on: ", the flexible line first where both are
/// there.
pub proof fn law_prompt_lists_flexible_and_firm_points(c: KartaConfig, t: TaskView)
    ensures
        t.context.flexible.len() > 0 ==> text_contains(session_prompt(c, t), flexible_line(t)),
        t.context.firm.len() > 0 ==> text_contains(session_prompt(c, t), firm_line(t)),
        t.context.flexible.len() > 0 && t.context.firm.len() > 0 ==> text_contains(
            session_prompt(c, t),
            flexible_line(t) + firm_line(t),
        ),
{
    let head = "\n\nCURRENT TASK:\n- Type: "@ + task_type_debug(t.task_type) + "\n- Target: "@ + t.target.name
        + "\n- Description: "@ + t.description + "\n- Goal: "@ + match t.context.goal {
        Some(g) => g,
        None => "Complete the task"@,
    } + "\n"@ + match t.boundaries.budget_ceiling {
        Some(a) => "- Budget ceiling: $"@ + a.text + "\n"@,
        None => Seq::empty(),
    };
    let f = if t.context.flexible.len() > 0 { flexible_line(t) } else { Seq::empty() };
    let r = if t.context.firm.len() > 0 { firm_line(t) } else { Seq::empty() };
    let ts = task_section(t);
    assert(ts == head + f + r);
    let pre = crate::config::agent::agent_prompt(c.agent) + principal_section(c);
    let post = instructions_section();
    assert(session_prompt(c, t) == pre + ts + post);
    if t.context.flexible.len() > 0 {
        assert(head + f + r =~= head + f + (r + Seq::<char>::empty()));
        lemma_contains_middle(head, f, r);
        lemma_contains_within(pre, ts, post, f);
    }
    if t.context.firm.len() > 0 {
        assert(head + f + r =~= (head + f) + r + Seq::<char>::empty());
        lemma_contains_middle(head + f, r, Seq::<char>::empty());
        lemma_contains_within(pre, ts, post, r);
    }
    if t.context.flexible.len() > 0 && t.context.firm.len() > 0 {
        assert(head + f + r =~= head + (f + r) + Seq::<char>::empty());
        lemma_contains_middle(head, f + r, Seq::<char>::empty());
        lemma_contains_within(pre, ts, post, f + r);
    }
}

/// The goal that the prompt gives: the task's goal, or completing the task
/// where it has none.
pub open spec fn goal_text(t: TaskView) -> Seq<char> {
    match t.context.goal {
        Some(g) => g,
        None => "Complete the task"@,
    }
}

/// The prompt shows the task the agent is calling about: its target, its
/// description and its goal each after their own label, and the budget
/// ceiling, where the task has one.
pub proof fn law_prompt_shows_the_task(c: KartaConfig, t: TaskView)
    ensures
        text_contains(
            session_prompt(c, t),
            "- Target: "@ + t.target.name + "\n- Description: "@ + t.description + "\n- Goal: "@ + goal_text(t)
                + "\n"@,
        ),
        t.boundaries.budget_ceiling matches Some(a) ==> text_contains(
            session_prompt(c, t),
            "- Budget ceiling: $"@ + a.text + "\n"@,
        ),
{
    let a0 = "\n\nCURRENT TASK:\n- Type: "@ + task_type_debug(t.task_type) + "\n"@;
    let m = "- Target: "@ + t.target.name + "\n- Description: "@ + t.description + "\n- Goal: "@ + goal_text(t)
        + "\n"@;
    let b = match t.boundaries.budget_ceiling {
        Some(a) => "- Budget ceiling: $"@ + a.text + "\n"@,
        None => Seq::empty(),
    };
    let f = if t.context.flexible.len() > 0 { flexible_line(t) } else { Seq::empty() };
    let r = if t.context.firm.len() > 0 { firm_line(t) } else { Seq::empty() };
    let ts = task_section(t);
    reveal_strlit("\n- Target: ");
    reveal_strlit("- Target: ");
    reveal_strlit("\n");
    assert("\n- Target: "@ =~= "\n"@ + "- Target: "@);
    assert(ts =~= a0 + m + (b + f + r));
    lemma_contains_middle(a0, m, b + f + r);
    assert(ts =~= (a0 + m) + b + (f + r));
    lemma_contains_middle(a0 + m, b, f + r);
    let pre = crate::config::agent::agent_prompt(c.agent) + principal_section(c);
    let post = instructions_section();
    assert(session_prompt(c, t) == pre + ts + post);
    lemma_contains_within(pre, ts, post, m);
    lemma_contains_within(pre, ts, post, b);
}

/// The prompt shows whose behalf the agent acts on, and what it may and may
/// not share: the principal's name and location, then what may be shared,
/// what must never be shared and what needs approval, each list after its own
/// label.
pub proof fn law_prompt_shows_the_principal(c: KartaConfig, t: TaskView)
    ensures
        text_contains(
            session_prompt(c, t),
            "- Name: "@ + c.principal.name@ + "\n- Location: "@ + match opt_text(c.principal.location) {
                Some(l) => l,
                None => "Not specified"@,
            } + "\n"@,
        ),
        text_contains(
            session_prompt(c, t),
            "- Can share: "@ + joined(texts(c.principal.boundaries.share_allowed@), ", "@) + "\n- Never share: "@
                + joined(texts(c.principal.boundaries.share_never@), ", "@) + "\n- Requires approval: "@
                + joined(texts(c.principal.boundaries.never_commit_without_approval@), ", "@) + "\n"@,
        ),
{
    let p = c.principal;
    let a0 = "\n\nPRINCIPAL INFORMATION:\n"@;
    let n = "- Name: "@ + p.name@ + "\n- Location: "@ + match opt_text(p.location) {
        Some(l) => l,
        None => "Not specified"@,
    } + "\n"@;
    let mid = "- Privacy Level: "@ + privacy_debug(p.values.privacy_level)
        + "\n\nPRINCIPAL BOUNDARIES:\n- Max auto-approve amount: $"@ + p.boundaries.max_auto_approve_amount.text@
        + "\n"@;
    let sh = "- Can share: "@ + joined(texts(p.boundaries.share_allowed@), ", "@) + "\n- Never share: "@
        + joined(texts(p.boundaries.share_never@), ", "@) + "\n- Requires approval: "@
        + joined(texts(p.boundaries.never_commit_without_approval@), ", "@) + "\n"@;
    let ps = principal_section(c);
    reveal_strlit("\n\nPRINCIPAL INFORMATION:\n- Name: ");
    reveal_strlit("\n\nPRINCIPAL INFORMATION:\n");
    reveal_strlit("- Name: ");
    reveal_strlit("\n- Privacy Level: ");
    reveal_strlit("- Privacy Level: ");
    reveal_strlit("\n- Can share: ");
    reveal_strlit("- Can share: ");
    reveal_strlit("\n");
    assert("\n\nPRINCIPAL INFORMATION:\n- Name: "@ =~= "\n\nPRINCIPAL INFORMATION:\n"@ + "- Name: "@);
    assert("\n- Privacy Level: "@ =~= "\n"@ + "- Privacy Level: "@);
    assert("\n- Can share: "@ =~= "\n"@ + "- Can share: "@);
    assert(ps =~= a0 + n + (mid + sh));
    lemma_contains_middle(a0, n, mid + sh);
    assert(ps =~= (a0 + n + mid) + sh + Seq::<char>::empty());
    lemma_contains_middle(a0 + n + mid, sh, Seq::<char>::empty());
    let pre = crate::config::agent::agent_prompt(c.agent);
    let post = task_section(t) + instructions_section();
    assert(session_prompt(c, t) =~= pre + ps + post);
    lemma_contains_within(pre, ps, post, n);
    lemma_contains_within(pre, ps, post, sh);
}

fn privacy_text(p: PrivacyLevel) -> (s: &'static str)
    ensures
        s@ == privacy_debug(p),
{
    match p {
        PrivacyLevel::Conservative => "Conservative",
        PrivacyLevel::Moderate => "Moderate",
        PrivacyLevel::Open => "Open",
    }
}

fn principal_section_text(config: &KartaConfig) -> (s: String)
    ensures
        s@ == principal_section(*config),
{
    let principal = &config.principal;
    let mut s = String::from_str("\n\nPRINCIPAL INFORMATION:\n- Name: ");
    s.append(principal.name.as_str());
    s.append("\n- Location: ");
    match &principal.location {
        Some(l) => s.append(l.as_str()),
        None => s.append("Not specified"),
    }
    s.append("\n- Privacy Level: ");
    s.append(privacy_text(principal.values.privacy_level));
    s.append("\n\nPRINCIPAL BOUNDARIES:\n- Max auto-approve amount: $");
    s.append(principal.boundaries.max_auto_approve_amount.text.as_str());
    s.append("\n- Can share: ");
    s.append(join(&principal.boundaries.share_allowed, ", ").as_str());
    s.append("\n- Never share: ");
    s.append(join(&principal.boundaries.share_never, ", ").as_str());
    s.append("\n- Requires approval: ");
    s.append(join(&principal.boundaries.never_commit_without_approval, ", ").as_str());
    s.append("\n");
    s
}

fn optional_line(label: &str, value: Option<String>) -> (s: String)
    ensures
        s@ == match value {
            Some(v) => label@ + v@ + "\n"@,
            None => Seq::<char>::empty(),
        },
{
    match value {
        Some(v) => {
            let mut s = String::from_str(label);
            s.append(v.as_str());
            s.append("\n");
            s
        },
        None => String::new(),
    }
}

fn task_section_text(task: &Task) -> (s: String)
    ensures
        s@ == task_section(task@),
{
    let mut s = String::from_str("\n\nCURRENT TASK:\n- Type: ");
    s.append(task.task_type.debug_text().as_str());
    s.append("\n- Target: ");
    s.append(task.target.name.as_str());
    s.append("\n- Description: ");
    s.append(task.description.as_str());
    s.append("\n- Goal: ");
    match &task.context.goal {
        Some(g) => s.append(g.as_str()),
        None => s.append("Complete the task"),
    }
    s.append("\n");
    let budget = match &task.boundaries.budget_ceiling {
        Some(c) => Some(c.text.clone()),
        None => None,
    };
    s.append(optional_line("- Budget ceiling: $", budget).as_str());
    let flexible = if task.context.flexible.len() > 0 {
        Some(join(&task.context.flexible, ", "))
    } else {
        None
    };
    s.append(optional_line("- Flexible on: ", flexible).as_str());
    let firm = if task.context.firm.len() > 0 {
        Some(join(&task.context.firm, ", "))
    } else {
        None
    };
    s.append(optional_line("- Firm on: ", firm).as_str());
    s
}

// ---------------------------------------------------------------------------
// Steps
// ---------------------------------------------------------------------------

/// The state after each part of a voice response has been taken in: what was
/// heard, what the agent said, a request for input, and the end of the call.
pub open spec fn state_after_response(s: ConversationStateView, ending: EndReasonView, r: VoiceResponse) -> ConversationStateView {
    let s1 = match r.transcript_in {
        Some(t) => state_after(s, ending, ConversationEventView::RemoteSpoke(t@)),
        None => s,
    };
    let s2 = match r.response_text {
        Some(t) => state_after(s1, ending, ConversationEventView::AgentSpoke(t@)),
        None => s1,
    };
    let s3 = if r.needs_input {
        state_after(s2, ending, ConversationEventView::NeedInput(input_request(r)))
    } else {
        s2
    };
    if r.should_end {
        state_after(s3, ending, ConversationEventView::CallEnding(EndReasonView::Completed))
    } else {
        s3
    }
}

/// The state in which the UI is told of a request for input.
pub open spec fn state_when_asking(s: ConversationStateView, ending: EndReasonView, r: VoiceResponse) -> ConversationStateView {
    let s1 = match r.transcript_in {
        Some(t) => state_after(s, ending, ConversationEventView::RemoteSpoke(t@)),
        None => s,
    };
    let s2 = match r.response_text {
        Some(t) => state_after(s1, ending, ConversationEventView::AgentSpoke(t@)),
        None => s1,
    };
    state_after(s2, ending, ConversationEventView::NeedInput(input_request(r)))
}

/// The request for input that a response makes: its prompt (empty where it
/// has none), no options, medium urgency.
pub open spec fn input_request(r: VoiceResponse) -> WaitingContextView {
    WaitingContextView {
        question: match r.input_prompt {
            Some(q) => q@,
            None => Seq::empty(),
        },
        options: Seq::empty(),
        urgency: Urgency::Medium,
    }
}

/// The note a task gets when the agent ends the call.
pub open spec fn ending_note(r: VoiceResponse) -> Seq<char> {
    "Ending: "@ + match r.end_reason {
        Some(t) => t@,
        None => "completed"@,
    }
}

/// What a voice response does to a call: a request to end leaves it ending,
/// whatever state it was in; otherwise a live call that is asked for input
/// waits for the principal with the response's question, and one that is not
/// stays live; a connecting call goes live once the callee is heard.
pub proof fn law_voice_response_moves_the_call(s: ConversationStateView, ending: EndReasonView, r: VoiceResponse)
    ensures
        r.should_end ==> state_after_response(s, ending, r) == ConversationStateView::Ending,
        s == ConversationStateView::Active && r.needs_input && !r.should_end ==> state_after_response(s, ending, r)
            == ConversationStateView::WaitingForPrincipal(
            WaitingContextView {
                question: match r.input_prompt {
                    Some(q) => q@,
                    None => Seq::empty(),
                },
                options: Seq::empty(),
                urgency: Urgency::Medium,
            },
        ),
        s == ConversationStateView::Active && !r.needs_input && !r.should_end ==> state_after_response(s, ending, r)
            == ConversationStateView::Active,
        s == ConversationStateView::Connecting && r.transcript_in is Some && !r.needs_input && !r.should_end
            ==> state_after_response(s, ending, r) == ConversationStateView::Active,
{
}

impl ConversationSession {
    pub closed spec fn task_view(&self) -> TaskView {
        self.task@
    }

    pub closed spec fn conversation(&self) -> ConversationStateView {
        self.state_machine@.state
    }

    /// The reason given with the latest call ending.
    pub closed spec fn ending_reason(&self) -> EndReasonView {
        self.state_machine@.ending
    }

    pub closed spec fn configuration(&self) -> KartaConfig {
        self.config
    }

    pub closed spec fn current_call(&self) -> Option<Call> {
        self.call
    }

    /// The task's maps keep their keys distinct.
    pub closed spec fn wf(&self) -> bool {
        self.task.wf()
    }

    /// Create a new conversation session: not started, no call.
    pub fn new(task: Task, config: KartaConfig) -> (s: ConversationSession)
        requires
            task.wf(),
        ensures
            s.wf(),
            s.task_view() == task@,
            s.configuration() == config,
            s.conversation() == ConversationStateView::NotStarted,
            s.ending_reason() == EndReasonView::Completed,
            s.current_call() is None,
    {
        ConversationSession { task, config, state_machine: ConversationStateMachine::new(), call: None }
    }

    /// Get the current task
    pub fn task(&self) -> (t: &Task)
        ensures
            t@ == self.task_view(),
    {
        &self.task
    }

    /// Get the current state
    pub fn state(&self) -> (s: &ConversationState)
        ensures
            s@ == self.conversation(),
    {
        self.state_machine.state()
    }

    /// The session's configuration.
    pub fn config(&self) -> (c: &KartaConfig)
        ensures
            *c == self.configuration(),
    {
        &self.config
    }

    /// The call, once placed.
    pub fn call(&self) -> (c: Option<&Call>)
        ensures
            match self.current_call() {
                Some(x) => c is Some && c->0@ == x@,
                None => c is None,
            },
    {
        match &self.call {
            Some(c) => Some(c),
            None => None,
        }
    }

    /// The conversation is under way.
    pub fn is_active(&self) -> (b: bool)
        ensures
            b == state_is_active(self.conversation()),
    {
        self.state_machine.is_active()
    }

    /// The conversation waits for the principal.
    pub fn is_waiting_for_input(&self) -> (b: bool)
        ensures
            b == self.conversation() is WaitingForPrincipal,
    {
        self.state_machine.is_waiting_for_input()
    }

    /// Generate the system prompt for the voice engine
    pub fn generate_system_prompt(&self) -> (p: String)
        ensures
            p@ == session_prompt(self.configuration(), self.task_view()),
    {
        let mut prompt = self.config.agent.to_system_prompt();
        prompt.append(principal_section_text(&self.config).as_str());
        prompt.append(task_section_text(&self.task).as_str());
        prompt.append(
            "\n\nINSTRUCTIONS:\n1. Make the call and accomplish the task\n2. Stay within the boundaries set by the principal\n3. If you need to make a decision outside your authority, use request_principal_input\n4. Be efficient but polite\n5. When the task is complete, use end_call with success=true\n",
        );
        prompt
    }

    /// The phone number to call: the target's; a target without one is refused.
    pub fn phone_to_call(&self) -> (r: Result<String, KartaError>)
        ensures
            match self.task_view().target.phone {
                Some(p) => r is Ok && r->Ok_0@ == p,
                None => r matches Err(KartaError::Task(m)) && m@ == "No phone number for target"@,
            },
    {
        match &self.task.target.phone {
            Some(p) => Ok(p.clone()),
            None => Err(KartaError::Task(String::from_str("No phone number for target"))),
        }
    }

    /// The status line shown while calling.
    pub fn calling_status(&self) -> (s: String)
        ensures
            s@ == "Calling "@ + self.task_view().target.name + "..."@,
    {
        let mut s = String::from_str("Calling ");
        s.append(self.task.target.name.as_str());
        s.append("...");
        s
    }

    /// The call is being placed.
    pub fn call_initiated(&mut self)
        ensures
            final(self).wf() == old(self).wf(),
            final(self).conversation() == state_after(old(self).conversation(), old(self).ending_reason(), ConversationEventView::CallInitiated),
            final(self).ending_reason() == old(self).ending_reason(),
            final(self).task_view() == old(self).task_view(),
            final(self).configuration() == old(self).configuration(),
            final(self).current_call() == old(self).current_call(),
    {
        let _ = self.state_machine.process_event(ConversationEvent::CallInitiated);
    }

    /// The call was placed to `phone`: the session keeps it, the task is in
    /// progress and records the call, and the conversation connects. The UI
    /// is told that the call connected and in which state it is.
    pub fn call_placed(&mut self, call: Call, phone: &str) -> (events: Vec<UIEvent>)
        requires
            old(self).wf(),
        ensures
            final(self).wf(),
            final(self).current_call() == Some(call),
            final(self).configuration() == old(self).configuration(),
            ({
                let t0 = old(self).task_view();
                let t1 = final(self).task_view();
                &&& same_definition(t1, t0)
                &&& t1.state == TaskStateView::InProgress
                &&& t1.history.len() == t0.history.len() + 2
                &&& t1.history[t0.history.len() as int].event_type == TaskEventType::StateChange
                &&& t1.history[t0.history.len() as int].description == state_change_text(t0.state, TaskStateView::InProgress)
                &&& t1.history[t0.history.len() + 1int].event_type == TaskEventType::CallStarted
                &&& t1.history[t0.history.len() + 1int].description == "Calling "@ + phone@
                &&& t1.history.take(t0.history.len() as int) == t0.history
            }),
            final(self).conversation() == state_after(old(self).conversation(), old(self).ending_reason(), ConversationEventView::CallConnected),
            final(self).ending_reason() == old(self).ending_reason(),
            events@.len() == 2,
            events@[0] matches UIEvent::Status(m) && m@ == "Connected!"@,
            events@[1] matches UIEvent::CallStateChanged(s) && s@ == final(self).conversation(),
    {
        self.call = Some(call);
        let ghost t0 = self.task@;
        self.task.set_state(TaskState::InProgress);
        let ghost t_mid = self.task@;
        let mut text = String::from_str("Calling ");
        text.append(phone);
        self.task.add_event(TaskEventType::CallStarted, text);
        assert(self.task@.history.drop_last().drop_last() =~= t0.history);
        assert(self.task@.history.take(t0.history.len() as int) =~= t0.history);
        let _ = self.state_machine.process_event(ConversationEvent::CallConnected);
        let mut events: Vec<UIEvent> = Vec::new();
        events.push(UIEvent::Status(String::from_str("Connected!")));
        events.push(UIEvent::CallStateChanged(self.state_machine.state().duplicate()));
        events
    }

    /// Whether the conversation loop goes on: while the conversation is
    /// under way, for at most a hundred rounds.
    pub fn should_continue(&self, rounds: usize) -> (b: bool)
        ensures
            b == (state_is_active(self.conversation()) && rounds < 100),
    {
        self.state_machine.is_active() && rounds < 100
    }

    /// The principal answered while the conversation waited for them.
    pub fn principal_input(&mut self, input: String)
        ensures
            final(self).wf() == old(self).wf(),
            final(self).conversation() == state_after(old(self).conversation(), old(self).ending_reason(), ConversationEventView::PrincipalInput(input@)),
            final(self).ending_reason() == old(self).ending_reason(),
            final(self).task_view() == old(self).task_view(),
            final(self).configuration() == old(self).configuration(),
            final(self).current_call() == old(self).current_call(),
    {
        let _ = self.state_machine.process_event(ConversationEvent::PrincipalInput(input));
    }

    /// Handle a response from the voice engine: what was heard and said moves
    /// the conversation on; a request for input makes it wait for the
    /// principal and tells the UI; a request to end notes the reason in the
    /// task and ends the conversation. Returns whether the call should end.
    pub fn handle_voice_response(&mut self, response: &VoiceResponse) -> (r: (Vec<UIEvent>, bool))
        requires
            old(self).wf(),
        ensures
            final(self).wf(),
            final(self).configuration() == old(self).configuration(),
            final(self).current_call() == old(self).current_call(),
            final(self).conversation() == state_after_response(old(self).conversation(), old(self).ending_reason(), *response),
            final(self).ending_reason() == if response.should_end {
                EndReasonView::Completed
            } else {
                old(self).ending_reason()
            },
            r.1 == response.should_end,
            response.needs_input ==> {
                &&& r.0@.len() == 2
                &&& r.0@[0] matches UIEvent::NeedInput(c) && c@ == input_request(*response)
                &&& r.0@[1] matches UIEvent::CallStateChanged(s) && s@ == state_when_asking(
                    old(self).conversation(),
                    old(self).ending_reason(),
                    *response,
                )
            },
            !response.needs_input ==> r.0@.len() == 0,
            response.should_end ==> {
                &&& same_definition(final(self).task_view(), old(self).task_view())
                &&& final(self).task_view().state == old(self).task_view().state
                &&& appended_event(
                    old(self).task_view().history,
                    final(self).task_view().history,
                    TaskEventType::Note,
                    ending_note(*response),
                    Map::empty(),
                )
            },
            !response.should_end ==> final(self).task_view() == old(self).task_view(),
    {
        if let Some(text) = &response.transcript_in {
            let _ = self.state_machine.process_event(ConversationEvent::RemoteSpoke(text.clone()));
        }
        if let Some(text) = &response.response_text {
            let _ = self.state_machine.process_event(ConversationEvent::AgentSpoke(text.clone()));
        }
        let mut events: Vec<UIEvent> = Vec::new();
        if response.needs_input {
            let question = match &response.input_prompt {
                Some(q) => q.clone(),
                None => String::new(),
            };
            let ctx = WaitingContext { question, options: Vec::new(), urgency: Urgency::Medium };
            assert(ctx@.options =~= Seq::<Seq<char>>::empty());
            let copy = ctx.duplicate();
            let _ = self.state_machine.process_event(ConversationEvent::NeedInput(copy));
            events.push(UIEvent::NeedInput(ctx));
            events.push(UIEvent::CallStateChanged(self.state_machine.state().duplicate()));
        }
        if response.should_end {
            let mut note = String::from_str("Ending: ");
            match &response.end_reason {
                Some(t) => note.append(t.as_str()),
                None => note.append("completed"),
            }
            self.task.add_event(TaskEventType::Note, note);
            let _ = self.state_machine.process_event(ConversationEvent::CallEnding(EndReason::Completed));
            return (events, true);
        }
        (events, false)
    }

    /// Finish the session once the call is over: the conversation takes the
    /// end of the call; the task is completed where the conversation ended
    /// having completed, failed otherwise, and records the end of the call.
    /// The UI is told of the outcome.
    pub fn finish(&mut self) -> (e: UIEvent)
        requires
            old(self).wf(),
        ensures
            final(self).wf(),
            final(self).configuration() == old(self).configuration(),
            final(self).current_call() == old(self).current_call(),
            final(self).conversation() == state_after(old(self).conversation(), old(self).ending_reason(), ConversationEventView::CallEnded),
            final(self).ending_reason() == old(self).ending_reason(),
            ({
                let success = final(self).conversation() == ConversationStateView::Ended(EndReasonView::Completed);
                let t0 = old(self).task_view();
                let t1 = final(self).task_view();
                &&& same_definition(t1, t0)
                &&& t1.state == if success {
                    TaskStateView::Completed
                } else {
                    TaskStateView::Failed("Call ended without completing task"@)
                }
                &&& t1.completed_at is Some
                &&& t1.history.len() == t0.history.len() + 2
                &&& t1.history.take(t0.history.len() as int) == t0.history
                &&& t1.history[t0.history.len() as int].event_type == TaskEventType::StateChange
                &&& t1.history[t0.history.len() as int].description == state_change_text(t0.state, t1.state)
                &&& t1.history[t0.history.len() + 1int].event_type == TaskEventType::CallEnded
                &&& t1.history[t0.history.len() + 1int].description == "Call ended"@
                &&& e matches UIEvent::TaskCompleted(ok, m) && ok == success && m@ == if success {
                    "Task completed successfully"@
                } else {
                    "Task incomplete"@
                }
            }),
    {
        let _ = self.state_machine.process_event(ConversationEvent::CallEnded);
        let success = matches!(self.state_machine.state(), ConversationState::Ended(EndReason::Completed));
        let ghost t0 = self.task@;
        let new_state = if success {
            TaskState::Completed
        } else {
            TaskState::Failed(String::from_str("Call ended without completing task"))
        };
        self.task.set_state(new_state);
        self.task.add_event(TaskEventType::CallEnded, String::from_str("Call ended"));
        assert(self.task@.history.drop_last().drop_last() =~= t0.history);
        assert(self.task@.history.take(t0.history.len() as int) =~= t0.history);
        let message = if success {
            String::from_str("Task completed successfully")
        } else {
            String::from_str("Task incomplete")
        };
        UIEvent::TaskCompleted(success, message)
    }
}

} // verus!
