//! Conversation state machine.

use vstd::prelude::*;

use crate::clock::now_micros;
use crate::text::{copy_strings, debug_quoted, decimal, decimal_string, join, joined, quoted_debug_text, texts};

verus! {

/// How urgently the principal's input is needed.
#[derive(Debug, Clone, Copy, PartialEq, Eq, Structural)]
pub enum Urgency {
    Low,
    Medium,
    High,
}

/// Context for when the conversation waits for the principal's input.
#[derive(Debug, Clone, PartialEq)]
pub struct WaitingContext {
    /// The question being asked
    pub question: String,
    /// Suggested options (if any)
    pub options: Vec<String>,
    /// How urgently the input is needed
    pub urgency: Urgency,
}

/// Reason for ending the conversation.
#[derive(Debug, Clone, PartialEq)]
pub enum EndReason {
    /// Task completed successfully
    Completed,
    /// Task failed
    Failed(String),
    /// Principal requested end
    PrincipalEnded,
    /// Other party ended the call
    RemoteEnded,
    /// Technical error
    Error(String),
    /// Timed out
    Timeout,
}

/// Current state of a conversation.
#[derive(Debug, Clone, PartialEq)]
pub enum ConversationState {
    /// Not yet started
    NotStarted,
    /// Initiating the call
    Initiating,
    /// Waiting for the call to connect
    Connecting,
    /// Call is connected, conversation active
    Active,
    /// Waiting for principal input
    WaitingForPrincipal(WaitingContext),
    /// Call is on hold
    OnHold,
    /// Wrapping up the call
    Ending,
    /// Call has ended
    Ended(EndReason),
}

/// Events that can occur during a conversation.
#[derive(Debug, Clone)]
pub enum ConversationEvent {
    /// Call initiated
    CallInitiated,
    /// Call connected
    CallConnected,
    /// Received audio from remote
    AudioReceived(Vec<u8>),
    /// Agent spoke
    AgentSpoke(String),
    /// Remote party spoke
    RemoteSpoke(String),
    /// Need principal input
    NeedInput(WaitingContext),
    /// Principal provided input
    PrincipalInput(String),
    /// Agent decided something
    Decision(String),
    /// Call ending
    CallEnding(EndReason),
    /// Call ended
    CallEnded,
    /// Error occurred
    Error(String),
}

/// One recorded step of the state machine.
#[derive(Debug, Clone)]
pub struct StateTransition {
    pub from: ConversationState,
    pub to: ConversationState,
    /// The `{:?}` rendering of the event that caused the step
    pub event: String,
    /// When the step happened, in microseconds since the Unix epoch
    pub timestamp: i64,
}

/// Manages conversation state transitions.
pub struct ConversationStateMachine {
    state: ConversationState,
    history: Vec<StateTransition>,
    /// The reason given with the latest call ending; the conversation ends
    /// with it once the call has ended.
    ending_reason: EndReason,
}

// ---------------------------------------------------------------------------
// Mathematical models
// ---------------------------------------------------------------------------

pub struct WaitingContextView {
    pub question: Seq<char>,
    pub options: Seq<Seq<char>>,
    pub urgency: Urgency,
}

pub enum EndReasonView {
    Completed,
    Failed(Seq<char>),
    PrincipalEnded,
    RemoteEnded,
    Error(Seq<char>),
    Timeout,
}

pub enum ConversationStateView {
    NotStarted,
    Initiating,
    Connecting,
    Active,
    WaitingForPrincipal(WaitingContextView),
    OnHold,
    Ending,
    Ended(EndReasonView),
}

pub enum ConversationEventView {
    CallInitiated,
    CallConnected,
    AudioReceived(Seq<u8>),
    AgentSpoke(Seq<char>),
    RemoteSpoke(Seq<char>),
    NeedInput(WaitingContextView),
    PrincipalInput(Seq<char>),
    Decision(Seq<char>),
    CallEnding(EndReasonView),
    CallEnded,
    Error(Seq<char>),
}

pub struct StateTransitionView {
    pub from: ConversationStateView,
    pub to: ConversationStateView,
    pub event: Seq<char>,
    pub timestamp: i64,
}

pub struct StateMachineView {
    pub state: ConversationStateView,
    pub history: Seq<StateTransitionView>,
    /// The reason given with the latest call ending (completed before any).
    pub ending: EndReasonView,
}

impl View for WaitingContext {
    type V = WaitingContextView;

    open spec fn view(&self) -> WaitingContextView {
        WaitingContextView { question: self.question@, options: texts(self.options@), urgency: self.urgency }
    }
}

impl View for EndReason {
    type V = EndReasonView;

    open spec fn view(&self) -> EndReasonView {
        match self {
            EndReason::Completed => EndReasonView::Completed,
            EndReason::Failed(m) => EndReasonView::Failed(m@),
            EndReason::PrincipalEnded => EndReasonView::PrincipalEnded,
            EndReason::RemoteEnded => EndReasonView::RemoteEnded,
            EndReason::Error(m) => EndReasonView::Error(m@),
            EndReason::Timeout => EndReasonView::Timeout,
        }
    }
}

impl View for ConversationState {
    type V = ConversationStateView;

    open spec fn view(&self) -> ConversationStateView {
        match self {
            ConversationState::NotStarted => ConversationStateView::NotStarted,
            ConversationState::Initiating => ConversationStateView::Initiating,
            ConversationState::Connecting => ConversationStateView::Connecting,
            ConversationState::Active => ConversationStateView::Active,
            ConversationState::WaitingForPrincipal(c) => ConversationStateView::WaitingForPrincipal(c@),
            ConversationState::OnHold => ConversationStateView::OnHold,
            ConversationState::Ending => ConversationStateView::Ending,
            ConversationState::Ended(r) => ConversationStateView::Ended(r@),
        }
    }
}

impl View for ConversationEvent {
    type V = ConversationEventView;

    open spec fn view(&self) -> ConversationEventView {
        match self {
            ConversationEvent::CallInitiated => ConversationEventView::CallInitiated,
            ConversationEvent::CallConnected => ConversationEventView::CallConnected,
            ConversationEvent::AudioReceived(a) => ConversationEventView::AudioReceived(a@),
            ConversationEvent::AgentSpoke(t) => ConversationEventView::AgentSpoke(t@),
            ConversationEvent::RemoteSpoke(t) => ConversationEventView::RemoteSpoke(t@),
            ConversationEvent::NeedInput(c) => ConversationEventView::NeedInput(c@),
            ConversationEvent::PrincipalInput(t) => ConversationEventView::PrincipalInput(t@),
            ConversationEvent::Decision(t) => ConversationEventView::Decision(t@),
            ConversationEvent::CallEnding(r) => ConversationEventView::CallEnding(r@),
            ConversationEvent::CallEnded => ConversationEventView::CallEnded,
            ConversationEvent::Error(t) => ConversationEventView::Error(t@),
        }
    }
}

impl View for StateTransition {
    type V = StateTransitionView;

    open spec fn view(&self) -> StateTransitionView {
        StateTransitionView { from: self.from@, to: self.to@, event: self.event@, timestamp: self.timestamp }
    }
}

impl View for ConversationStateMachine {
    type V = StateMachineView;

    closed spec fn view(&self) -> StateMachineView {
        StateMachineView {
            state: self.state@,
            history: self.history@.map_values(|t: StateTransition| t@),
            ending: self.ending_reason@,
        }
    }
}

// ---------------------------------------------------------------------------
// The transition table
// ---------------------------------------------------------------------------

/// The state that `event` leads to from state `s`, or `None` where the pair
/// is not a valid transition; `ending` is the reason given with the latest
/// call ending, with which an ended call ends. The arms are tried in order.
pub open spec fn next_state(s: ConversationStateView, ending: EndReasonView, e: ConversationEventView) -> Option<
    ConversationStateView,
> {
    match (s, e) {
        (ConversationStateView::NotStarted, ConversationEventView::CallInitiated) => Some(
            ConversationStateView::Initiating,
        ),
        (ConversationStateView::Initiating, ConversationEventView::CallConnected) => Some(
            ConversationStateView::Connecting,
        ),
        (ConversationStateView::Connecting, ConversationEventView::AudioReceived(_)) => Some(
            ConversationStateView::Active,
        ),
        (ConversationStateView::Connecting, ConversationEventView::RemoteSpoke(_)) => Some(
            ConversationStateView::Active,
        ),
        (ConversationStateView::Active, ConversationEventView::AudioReceived(_)) => Some(
            ConversationStateView::Active,
        ),
        (ConversationStateView::Active, ConversationEventView::AgentSpoke(_)) => Some(
            ConversationStateView::Active,
        ),
        (ConversationStateView::Active, ConversationEventView::RemoteSpoke(_)) => Some(
            ConversationStateView::Active,
        ),
        (ConversationStateView::Active, ConversationEventView::Decision(_)) => Some(
            ConversationStateView::Active,
        ),
        (ConversationStateView::Active, ConversationEventView::NeedInput(ctx)) => Some(
            ConversationStateView::WaitingForPrincipal(ctx),
        ),
        (
            ConversationStateView::WaitingForPrincipal(_),
            ConversationEventView::PrincipalInput(_),
        ) => Some(ConversationStateView::Active),
        (_, ConversationEventView::CallEnding(_)) => Some(ConversationStateView::Ending),
        (ConversationStateView::Ending, ConversationEventView::CallEnded) => Some(
            ConversationStateView::Ended(ending),
        ),
        (_, ConversationEventView::Error(msg)) => Some(
            ConversationStateView::Ended(EndReasonView::Error(msg)),
        ),
        _ => None,
    }
}

/// The state after `event`: the next state where the transition is valid,
/// the same state where it is refused.
pub open spec fn state_after(s: ConversationStateView, ending: EndReasonView, e: ConversationEventView) -> ConversationStateView {
    match next_state(s, ending, e) {
        Some(n) => n,
        None => s,
    }
}

/// The reason kept after `event`: the one given with a call ending (which is
/// always accepted), otherwise the one kept before.
pub open spec fn ending_after(ending: EndReasonView, e: ConversationEventView) -> EndReasonView {
    match e {
        ConversationEventView::CallEnding(r) => r,
        _ => ending,
    }
}

/// The recorded transitions form a chain: the first leaves the not-started
/// state, each one leaves the state that the one before it entered, and the
/// last one enters the current state.
pub open spec fn history_chained(m: StateMachineView) -> bool {
    let h = m.history;
    &&& h.len() == 0 ==> m.state == ConversationStateView::NotStarted
    &&& h.len() > 0 ==> h[0].from == ConversationStateView::NotStarted && h.last().to == m.state
    &&& forall|i: int| 0 < i < h.len() ==> #[trigger] h[i].from == h[i - 1].to
}

/// The conversation is under way: started and not yet ended.
pub open spec fn state_is_active(s: ConversationStateView) -> bool {
    !(s is NotStarted || s is Ended)
}

// ---------------------------------------------------------------------------
// Laws of the transition table
// ---------------------------------------------------------------------------

/// From every state, a call that is ending is accepted and the conversation
/// moves to ending.
pub proof fn law_ending_accepted_from_every_state(s: ConversationStateView, ending: EndReasonView, r: EndReasonView)
    ensures
        next_state(s, ending, ConversationEventView::CallEnding(r)) == Some(ConversationStateView::Ending),
        ending_after(ending, ConversationEventView::CallEnding(r)) == r,
{
}

/// From every state, an error ends the conversation with that error.
pub proof fn law_error_ends_from_every_state(s: ConversationStateView, ending: EndReasonView, msg: Seq<char>)
    ensures
        next_state(s, ending, ConversationEventView::Error(msg)) == Some(
            ConversationStateView::Ended(EndReasonView::Error(msg)),
        ),
{
}

/// An ended conversation refuses every event but a call ending and an error.
pub proof fn law_ended_refuses_other_events(r: EndReasonView, ending: EndReasonView, e: ConversationEventView)
    requires
        !(e is CallEnding || e is Error),
    ensures
        next_state(ConversationStateView::Ended(r), ending, e) is None,
{
}

/// A conversation waiting for the principal leaves that state only on the
/// principal's input, a call ending or an error; on the input it is active
/// again.
pub proof fn law_waiting_left_by_input(c: WaitingContextView, ending: EndReasonView, e: ConversationEventView)
    ensures
        e is PrincipalInput ==> next_state(ConversationStateView::WaitingForPrincipal(c), ending, e) == Some(
            ConversationStateView::Active,
        ),
        !(e is PrincipalInput || e is CallEnding || e is Error) ==> next_state(
            ConversationStateView::WaitingForPrincipal(c),
            ending,
            e,
        ) is None,
{
}

/// A call ends with the reason given when it was ending: after a call ending
/// for reason `r`, the end of the call gives `Ended(r)`, whatever reason was
/// kept before.
pub proof fn law_call_ends_with_its_reason(s: ConversationStateView, ending: EndReasonView, r: EndReasonView)
    ensures
        ({
            let e1 = ConversationEventView::CallEnding(r);
            let s1 = state_after(s, ending, e1);
            let k1 = ending_after(ending, e1);
            next_state(s1, k1, ConversationEventView::CallEnded) == Some(ConversationStateView::Ended(r))
        }),
{
}

/// A call goes live step by step: it is initiated, then connects, and it is
/// active as soon as anything is heard from the callee, audio or speech.
pub proof fn law_call_goes_live(ending: EndReasonView, audio: Seq<u8>, words: Seq<char>)
    ensures
        next_state(ConversationStateView::NotStarted, ending, ConversationEventView::CallInitiated) == Some(ConversationStateView::Initiating),
        next_state(ConversationStateView::Initiating, ending, ConversationEventView::CallConnected) == Some(ConversationStateView::Connecting),
        next_state(ConversationStateView::Connecting, ending, ConversationEventView::AudioReceived(audio)) == Some(ConversationStateView::Active),
        next_state(ConversationStateView::Connecting, ending, ConversationEventView::RemoteSpoke(words)) == Some(ConversationStateView::Active),
{
}

/// An active call stays active on audio, on either side speaking and on a
/// decision, and waits for the principal, with the given context, when input
/// is needed.
pub proof fn law_active_call_events(ending: EndReasonView, audio: Seq<u8>, words: Seq<char>, c: WaitingContextView)
    ensures
        next_state(ConversationStateView::Active, ending, ConversationEventView::AudioReceived(audio)) == Some(ConversationStateView::Active),
        next_state(ConversationStateView::Active, ending, ConversationEventView::AgentSpoke(words)) == Some(ConversationStateView::Active),
        next_state(ConversationStateView::Active, ending, ConversationEventView::RemoteSpoke(words)) == Some(ConversationStateView::Active),
        next_state(ConversationStateView::Active, ending, ConversationEventView::Decision(words)) == Some(ConversationStateView::Active),
        next_state(ConversationStateView::Active, ending, ConversationEventView::NeedInput(c)) == Some(ConversationStateView::WaitingForPrincipal(c)),
{
}

/// Events out of their order are refused: before the call is initiated only
/// its initiation counts; while initiating only the connection; while
/// connecting only something heard from the callee; an active call is not
/// initiated or connected again, takes no principal input unasked and does
/// not end without ending first; an ending call only ends; a call on hold
/// takes nothing. A call ending or an error is accepted everywhere.
pub proof fn law_out_of_order_events_refused(ending: EndReasonView, e: ConversationEventView)
    ensures
        !(e is CallInitiated || e is CallEnding || e is Error) ==> next_state(ConversationStateView::NotStarted, ending, e) is None,
        !(e is CallConnected || e is CallEnding || e is Error) ==> next_state(ConversationStateView::Initiating, ending, e) is None,
        !(e is AudioReceived || e is RemoteSpoke || e is CallEnding || e is Error) ==> next_state(
            ConversationStateView::Connecting,
            ending,
            e,
        ) is None,
        (e is CallInitiated || e is CallConnected || e is PrincipalInput || e is CallEnded) ==> next_state(
            ConversationStateView::Active,
            ending,
            e,
        ) is None,
        !(e is CallEnded || e is CallEnding || e is Error) ==> next_state(ConversationStateView::Ending, ending, e) is None,
        !(e is CallEnding || e is Error) ==> next_state(ConversationStateView::OnHold, ending, e) is None,
{
}

/// A conversation that waits for the principal is under way.
pub proof fn law_waiting_is_active(c: WaitingContextView)
    ensures
        state_is_active(ConversationStateView::WaitingForPrincipal(c)),
{
}

/// The only way into the ended state is a call that ended after ending, or an
/// error: no other valid transition leads there.
pub proof fn law_only_ending_or_error_ends(s: ConversationStateView, ending: EndReasonView, e: ConversationEventView)
    requires
        next_state(s, ending, e) matches Some(n) && n is Ended,
    ensures
        e is Error || (e is CallEnded && s is Ending),
{
}

// ---------------------------------------------------------------------------
// `{:?}` renderings
// ---------------------------------------------------------------------------

/// `[a, b, c]`: the rendering of a list whose items render as given.
pub open spec fn debug_list(items: Seq<Seq<char>>) -> Seq<char> {
    "["@ + joined(items, ", "@) + "]"@
}

pub open spec fn urgency_debug(u: Urgency) -> Seq<char> {
    match u {
        Urgency::Low => "Low"@,
        Urgency::Medium => "Medium"@,
        Urgency::High => "High"@,
    }
}

pub open spec fn quoted_all(items: Seq<Seq<char>>) -> Seq<Seq<char>> {
    items.map_values(|t: Seq<char>| quoted_debug_text(t))
}

pub open spec fn context_debug(c: WaitingContextView) -> Seq<char> {
    "WaitingContext { question: "@ + quoted_debug_text(c.question) + ", options: "@ + debug_list(
        quoted_all(c.options),
    ) + ", urgency: "@ + urgency_debug(c.urgency) + " }"@
}

pub open spec fn reason_debug(r: EndReasonView) -> Seq<char> {
    match r {
        EndReasonView::Completed => "Completed"@,
        EndReasonView::Failed(m) => "Failed("@ + quoted_debug_text(m) + ")"@,
        EndReasonView::PrincipalEnded => "PrincipalEnded"@,
        EndReasonView::RemoteEnded => "RemoteEnded"@,
        EndReasonView::Error(m) => "Error("@ + quoted_debug_text(m) + ")"@,
        EndReasonView::Timeout => "Timeout"@,
    }
}

/// `{:?}` of a conversation state.
pub open spec fn state_debug(s: ConversationStateView) -> Seq<char> {
    match s {
        ConversationStateView::NotStarted => "NotStarted"@,
        ConversationStateView::Initiating => "Initiating"@,
        ConversationStateView::Connecting => "Connecting"@,
        ConversationStateView::Active => "Active"@,
        ConversationStateView::WaitingForPrincipal(c) => "WaitingForPrincipal("@ + context_debug(c)
            + ")"@,
        ConversationStateView::OnHold => "OnHold"@,
        ConversationStateView::Ending => "Ending"@,
        ConversationStateView::Ended(r) => "Ended("@ + reason_debug(r) + ")"@,
    }
}

pub open spec fn bytes_debug(b: Seq<u8>) -> Seq<char> {
    debug_list(b.map_values(|x: u8| decimal(x as nat)))
}

/// `{:?}` of a conversation event.
pub open spec fn event_debug(e: ConversationEventView) -> Seq<char> {
    match e {
        ConversationEventView::CallInitiated => "CallInitiated"@,
        ConversationEventView::CallConnected => "CallConnected"@,
        ConversationEventView::AudioReceived(a) => "AudioReceived("@ + bytes_debug(a) + ")"@,
        ConversationEventView::AgentSpoke(t) => "AgentSpoke("@ + quoted_debug_text(t) + ")"@,
        ConversationEventView::RemoteSpoke(t) => "RemoteSpoke("@ + quoted_debug_text(t) + ")"@,
        ConversationEventView::NeedInput(c) => "NeedInput("@ + context_debug(c) + ")"@,
        ConversationEventView::PrincipalInput(t) => "PrincipalInput("@ + quoted_debug_text(t)
            + ")"@,
        ConversationEventView::Decision(t) => "Decision("@ + quoted_debug_text(t) + ")"@,
        ConversationEventView::CallEnding(r) => "CallEnding("@ + reason_debug(r) + ")"@,
        ConversationEventView::CallEnded => "CallEnded"@,
        ConversationEventView::Error(t) => "Error("@ + quoted_debug_text(t) + ")"@,
    }
}

/// The message with which an invalid transition is refused.
pub open spec fn invalid_transition_message(
    s: ConversationStateView,
    e: ConversationEventView,
) -> Seq<char> {
    "Invalid transition: "@ + state_debug(s) + " + "@ + event_debug(e)
}

fn wrapped(prefix: &str, inner: String, suffix: &str) -> (r: String)
    ensures
        r@ == prefix@ + inner@ + suffix@,
{
    let mut r = String::from_str(prefix);
    r.append(inner.as_str());
    r.append(suffix);
    r
}

fn list_debug_text(items: &Vec<String>) -> (r: String)
    ensures
        r@ == debug_list(texts(items@)),
{
    wrapped("[", join(items, ", "), "]")
}

fn urgency_debug_text(u: Urgency) -> (r: &'static str)
    ensures
        r@ == urgency_debug(u),
{
    match u {
        Urgency::Low => "Low",
        Urgency::Medium => "Medium",
        Urgency::High => "High",
    }
}

impl WaitingContext {
    /// The `{:?}` rendering of this context.
    pub fn debug_text(&self) -> (r: String)
        ensures
            r@ == context_debug(self@),
    {
        let mut quoted: Vec<String> = Vec::new();
        let n = self.options.len();
        let mut i: usize = 0;
        while i < n
            invariant
                n == self.options@.len(),
                i <= n,
                texts(quoted@) =~= quoted_all(texts(self.options@)).take(i as int),
            decreases n - i,
        {
            let q = debug_quoted(self.options[i].as_str());
            let ghost prev = quoted@;
            quoted.push(q);
            assert(texts(quoted@) =~= texts(prev).push(q@));
            i = i + 1;
        }
        assert(quoted_all(texts(self.options@)).take(n as int) =~= quoted_all(texts(self.options@)));
        let mut r = String::from_str("WaitingContext { question: ");
        r.append(debug_quoted(self.question.as_str()).as_str());
        r.append(", options: ");
        r.append(list_debug_text(&quoted).as_str());
        r.append(", urgency: ");
        r.append(urgency_debug_text(self.urgency));
        r.append(" }");
        r
    }

    /// A copy with the same contents.
    pub fn duplicate(&self) -> (r: WaitingContext)
        ensures
            r@ == self@,
    {
        WaitingContext {
            question: self.question.clone(),
            options: copy_strings(&self.options),
            urgency: self.urgency,
        }
    }
}

impl EndReason {
    /// The `{:?}` rendering of this reason.
    pub fn debug_text(&self) -> (r: String)
        ensures
            r@ == reason_debug(self@),
    {
        match self {
            EndReason::Completed => String::from_str("Completed"),
            EndReason::Failed(m) => wrapped("Failed(", debug_quoted(m.as_str()), ")"),
            EndReason::PrincipalEnded => String::from_str("PrincipalEnded"),
            EndReason::RemoteEnded => String::from_str("RemoteEnded"),
            EndReason::Error(m) => wrapped("Error(", debug_quoted(m.as_str()), ")"),
            EndReason::Timeout => String::from_str("Timeout"),
        }
    }

    /// A copy with the same contents.
    pub fn duplicate(&self) -> (r: EndReason)
        ensures
            r@ == self@,
    {
        match self {
            EndReason::Completed => EndReason::Completed,
            EndReason::Failed(m) => EndReason::Failed(m.clone()),
            EndReason::PrincipalEnded => EndReason::PrincipalEnded,
            EndReason::RemoteEnded => EndReason::RemoteEnded,
            EndReason::Error(m) => EndReason::Error(m.clone()),
            EndReason::Timeout => EndReason::Timeout,
        }
    }
}

impl ConversationState {
    /// The `{:?}` rendering of this state.
    pub fn debug_text(&self) -> (r: String)
        ensures
            r@ == state_debug(self@),
    {
        match self {
            ConversationState::NotStarted => String::from_str("NotStarted"),
            ConversationState::Initiating => String::from_str("Initiating"),
            ConversationState::Connecting => String::from_str("Connecting"),
            ConversationState::Active => String::from_str("Active"),
            ConversationState::WaitingForPrincipal(c) => wrapped(
                "WaitingForPrincipal(",
                c.debug_text(),
                ")",
            ),
            ConversationState::OnHold => String::from_str("OnHold"),
            ConversationState::Ending => String::from_str("Ending"),
            ConversationState::Ended(r) => wrapped("Ended(", r.debug_text(), ")"),
        }
    }

    /// A copy with the same contents.
    pub fn duplicate(&self) -> (r: ConversationState)
        ensures
            r@ == self@,
    {
        match self {
            ConversationState::NotStarted => ConversationState::NotStarted,
            ConversationState::Initiating => ConversationState::Initiating,
            ConversationState::Connecting => ConversationState::Connecting,
            ConversationState::Active => ConversationState::Active,
            ConversationState::WaitingForPrincipal(c) => ConversationState::WaitingForPrincipal(
                c.duplicate(),
            ),
            ConversationState::OnHold => ConversationState::OnHold,
            ConversationState::Ending => ConversationState::Ending,
            ConversationState::Ended(r) => ConversationState::Ended(r.duplicate()),
        }
    }
}

fn bytes_debug_text(a: &Vec<u8>) -> (r: String)
    ensures
        r@ == bytes_debug(a@),
{
    let mut parts: Vec<String> = Vec::new();
    let n = a.len();
    let mut i: usize = 0;
    while i < n
        invariant
            n == a@.len(),
            i <= n,
            texts(parts@) =~= a@.map_values(|x: u8| decimal(x as nat)).take(i as int),
        decreases n - i,
    {
        let d = decimal_string(a[i] as u64);
        let ghost prev = parts@;
        parts.push(d);
        assert(texts(parts@) =~= texts(prev).push(d@));
        i = i + 1;
    }
    assert(a@.map_values(|x: u8| decimal(x as nat)).take(n as int) =~= a@.map_values(
        |x: u8| decimal(x as nat),
    ));
    list_debug_text(&parts)
}

impl ConversationEvent {
    /// The `{:?}` rendering of this event.
    pub fn debug_text(&self) -> (r: String)
        ensures
            r@ == event_debug(self@),
    {
        match self {
            ConversationEvent::CallInitiated => String::from_str("CallInitiated"),
            ConversationEvent::CallConnected => String::from_str("CallConnected"),
            ConversationEvent::AudioReceived(a) => wrapped(
                "AudioReceived(",
                bytes_debug_text(a),
                ")",
            ),
            ConversationEvent::AgentSpoke(t) => wrapped(
                "AgentSpoke(",
                debug_quoted(t.as_str()),
                ")",
            ),
            ConversationEvent::RemoteSpoke(t) => wrapped(
                "RemoteSpoke(",
                debug_quoted(t.as_str()),
                ")",
            ),
            ConversationEvent::NeedInput(c) => wrapped("NeedInput(", c.debug_text(), ")"),
            ConversationEvent::PrincipalInput(t) => wrapped(
                "PrincipalInput(",
                debug_quoted(t.as_str()),
                ")",
            ),
            ConversationEvent::Decision(t) => wrapped("Decision(", debug_quoted(t.as_str()), ")"),
            ConversationEvent::CallEnding(r) => wrapped("CallEnding(", r.debug_text(), ")"),
            ConversationEvent::CallEnded => String::from_str("CallEnded"),
            ConversationEvent::Error(t) => wrapped("Error(", debug_quoted(t.as_str()), ")"),
        }
    }
}

// ---------------------------------------------------------------------------
// The machine
// ---------------------------------------------------------------------------

impl ConversationStateMachine {
    pub fn new() -> (m: ConversationStateMachine)
        ensures
            m@.state == ConversationStateView::NotStarted,
            m@.history == Seq::<StateTransitionView>::empty(),
            m@.ending == EndReasonView::Completed,
            history_chained(m@),
    {
        let m = ConversationStateMachine {
            state: ConversationState::NotStarted,
            history: Vec::new(),
            ending_reason: EndReason::Completed,
        };
        assert(m@.history =~= Seq::<StateTransitionView>::empty());
        m
    }

    /// Get current state
    pub fn state(&self) -> (s: &ConversationState)
        ensures
            s@ == self@.state,
    {
        &self.state
    }

    /// Determine the next state based on current state and event; the event is
    /// consumed so that a waiting context moves into the new state.
    fn next_state_of(&self, event: ConversationEvent) -> (r: Option<(ConversationState, Option<EndReason>)>)
        ensures
            match next_state(self@.state, self@.ending, event@) {
                Some(n) => r matches Some((t, k)) && t@ == n && match event@ {
                    ConversationEventView::CallEnding(reason) => k matches Some(x) && x@ == reason,
                    _ => k is None,
                },
                None => r is None,
            },
    {
        match (&self.state, event) {
            (ConversationState::NotStarted, ConversationEvent::CallInitiated) => Some(
                (ConversationState::Initiating, None),
            ),
            (ConversationState::Initiating, ConversationEvent::CallConnected) => Some(
                (ConversationState::Connecting, None),
            ),
            (ConversationState::Connecting, ConversationEvent::AudioReceived(_)) => Some(
                (ConversationState::Active, None),
            ),
            (ConversationState::Connecting, ConversationEvent::RemoteSpoke(_)) => Some(
                (ConversationState::Active, None),
            ),
            (ConversationState::Active, ConversationEvent::AudioReceived(_)) => Some(
                (ConversationState::Active, None),
            ),
            (ConversationState::Active, ConversationEvent::AgentSpoke(_)) => Some(
                (ConversationState::Active, None),
            ),
            (ConversationState::Active, ConversationEvent::RemoteSpoke(_)) => Some(
                (ConversationState::Active, None),
            ),
            (ConversationState::Active, ConversationEvent::Decision(_)) => Some(
                (ConversationState::Active, None),
            ),
            (ConversationState::Active, ConversationEvent::NeedInput(ctx)) => Some(
                (ConversationState::WaitingForPrincipal(ctx), None),
            ),
            (ConversationState::WaitingForPrincipal(_), ConversationEvent::PrincipalInput(_)) => Some(
                (ConversationState::Active, None),
            ),
            (_, ConversationEvent::CallEnding(reason)) => Some((ConversationState::Ending, Some(reason))),
            (ConversationState::Ending, ConversationEvent::CallEnded) => Some(
                (ConversationState::Ended(self.ending_reason.duplicate()), None),
            ),
            (_, ConversationEvent::Error(msg)) => Some(
                (ConversationState::Ended(EndReason::Error(msg)), None),
            ),
            _ => None,
        }
    }

    /// Process an event and transition state. A valid event moves the machine
    /// to the next state and records the step; an invalid one leaves the
    /// machine as it was and is refused with a message naming both.
    pub fn process_event(&mut self, event: ConversationEvent) -> (r: Result<(), String>)
        ensures
            match next_state(old(self)@.state, old(self)@.ending, event@) {
                Some(n) => {
                    &&& r is Ok
                    &&& final(self)@.state == n
                    &&& final(self)@.ending == ending_after(old(self)@.ending, event@)
                    &&& final(self)@.history.len() == old(self)@.history.len() + 1
                    &&& final(self)@.history.drop_last() == old(self)@.history
                    &&& final(self)@.history.last().from == old(self)@.state
                    &&& final(self)@.history.last().to == n
                    &&& final(self)@.history.last().event == event_debug(event@)
                },
                None => {
                    &&& r is Err
                    &&& r->Err_0@ == invalid_transition_message(old(self)@.state, event@)
                    &&& final(self)@ == old(self)@
                },
            },
            history_chained(old(self)@) ==> history_chained(final(self)@),
    {
        let ghost e = event@;
        let event_text = event.debug_text();
        match self.next_state_of(event) {
            Some((new_state, reason)) => {
                if let Some(reason) = reason {
                    self.ending_reason = reason;
                }
                let to = new_state.duplicate();
                let mut from = new_state;
                std::mem::swap(&mut self.state, &mut from);
                let transition = StateTransition { from, to, event: event_text, timestamp: now_micros() };
                let ghost before = self.history@;
                self.history.push(transition);
                assert(self.history@.drop_last() =~= before);
                assert(self@.history.drop_last() =~= old(self)@.history);
                proof {
                    if history_chained(old(self)@) {
                        let h = self@.history;
                        let oh = old(self)@.history;
                        assert forall|i: int| 0 < i < h.len() implies #[trigger] h[i].from == h[i - 1].to by {
                            assert(h[i - 1] == oh[i - 1]);
                            if i < h.len() - 1 {
                                assert(h[i] == oh[i]);
                            }
                        }
                        if oh.len() > 0 {
                            assert(h[0] == oh[0]);
                        }
                    }
                }
                Ok(())
            },
            None => {
                let mut msg = String::from_str("Invalid transition: ");
                msg.append(self.state.debug_text().as_str());
                msg.append(" + ");
                msg.append(event_text.as_str());
                Err(msg)
            },
        }
    }

    /// Check if the conversation is still active
    pub fn is_active(&self) -> (b: bool)
        ensures
            b == state_is_active(self@.state),
    {
        !matches!(self.state, ConversationState::NotStarted | ConversationState::Ended(_))
    }

    /// Check if we're waiting for principal input
    pub fn is_waiting_for_input(&self) -> (b: bool)
        ensures
            b == self@.state is WaitingForPrincipal,
    {
        matches!(self.state, ConversationState::WaitingForPrincipal(_))
    }

    /// Get the waiting context if waiting for input
    pub fn waiting_context(&self) -> (r: Option<&WaitingContext>)
        ensures
            match self@.state {
                ConversationStateView::WaitingForPrincipal(c) => r is Some && r->0@ == c,
                _ => r is None,
            },
    {
        match &self.state {
            ConversationState::WaitingForPrincipal(ctx) => Some(ctx),
            _ => None,
        }
    }

    /// Get the conversation history
    pub fn history(&self) -> (h: &[StateTransition])
        ensures
            h@.map_values(|t: StateTransition| t@) == self@.history,
    {
        self.history.as_slice()
    }
}

impl Default for ConversationStateMachine {
    fn default() -> (m: ConversationStateMachine)
        ensures
            m@.state == ConversationStateView::NotStarted,
            m@.history == Seq::<StateTransitionView>::empty(),
            m@.ending == EndReasonView::Completed,
    {
        Self::new()
    }
}

} // verus!
