//! Mock voice engine for testing and development: a scripted agent.

use vstd::prelude::*;

use crate::clock::now_micros;
use crate::voice::engine::{Speaker, ToolCall, TranscriptEvent, VoiceResponse};
use crate::task::task::opt_text;

verus! {

/// A scripted response for testing.
pub struct ScriptedResponse {
    pub response_text: String,
    pub needs_input: bool,
    pub input_prompt: Option<String>,
    pub should_end: bool,
}

pub struct ScriptedView {
    pub response_text: Seq<char>,
    pub needs_input: bool,
    pub input_prompt: Option<Seq<char>>,
    pub should_end: bool,
}

impl View for ScriptedResponse {
    type V = ScriptedView;

    open spec fn view(&self) -> ScriptedView {
        ScriptedView {
            response_text: self.response_text@,
            needs_input: self.needs_input,
            input_prompt: opt_text(self.input_prompt),
            should_end: self.should_end,
        }
    }
}

pub open spec fn scripted_views(s: Seq<ScriptedResponse>) -> Seq<ScriptedView> {
    s.map_values(|r: ScriptedResponse| r@)
}

pub open spec fn history_views(s: Seq<(Speaker, String)>) -> Seq<(Speaker, Seq<char>)> {
    s.map_values(|e: (Speaker, String)| (e.0, e.1@))
}

/// The reply to give when the script is used up.
pub open spec fn fallback_reply() -> Seq<char> {
    "I understand. Is there anything else I can help with?"@
}

/// What the mock remote party is heard to say.
pub open spec fn mock_heard() -> Seq<char> {
    "Thank you for calling, how can I help you?"@
}

/// `r` is the response made of the next scripted reply, or the fallback
/// reply where there is none.
pub open spec fn response_from_script(next: Option<ScriptedView>, r: VoiceResponse) -> bool {
    &&& r.response_audio is None
    &&& r.tool_calls@.len() == 0
    &&& match next {
        Some(s) => {
            &&& opt_text(r.response_text) == Some(s.response_text)
            &&& r.needs_input == s.needs_input
            &&& opt_text(r.input_prompt) == s.input_prompt
            &&& r.should_end == s.should_end
            &&& opt_text(r.end_reason) == if s.should_end {
                Some("Task completed"@)
            } else {
                None
            }
        },
        None => {
            &&& opt_text(r.response_text) == Some(fallback_reply())
            &&& !r.needs_input
            &&& r.input_prompt is None
            &&& !r.should_end
            &&& r.end_reason is None
        },
    }
}

/// A transcript event says `text` for `speaker`, finally.
pub open spec fn says(e: TranscriptEvent, speaker: Speaker, text: Seq<char>) -> bool {
    e.speaker == speaker && e.text@ == text && e.is_final
}

fn event(speaker: Speaker, text: &str) -> (e: TranscriptEvent)
    ensures
        says(e, speaker, text@),
{
    TranscriptEvent { speaker, text: String::from_str(text), is_final: true, timestamp: now_micros() }
}

fn scripted(text: &str, needs_input: bool, prompt: Option<&str>, should_end: bool) -> (r: ScriptedResponse)
    ensures
        r@ == (ScriptedView {
            response_text: text@,
            needs_input,
            input_prompt: match prompt {
                Some(p) => Some(p@),
                None => None,
            },
            should_end,
        }),
{
    ScriptedResponse {
        response_text: String::from_str(text),
        needs_input,
        input_prompt: match prompt {
            Some(p) => Some(String::from_str(p)),
            None => None,
        },
        should_end,
    }
}

/// Mock voice engine: hands out a script of agent replies in order and keeps
/// the conversation's history.
pub struct MockVoiceEngine {
    session_active: bool,
    system_prompt: String,
    conversation_history: Vec<(Speaker, String)>,
    scripted_responses: Vec<ScriptedResponse>,
}

impl MockVoiceEngine {
    pub closed spec fn active(&self) -> bool {
        self.session_active
    }

    pub closed spec fn prompt(&self) -> Seq<char> {
        self.system_prompt@
    }

    /// Who said what, in order.
    pub closed spec fn history(&self) -> Seq<(Speaker, Seq<char>)> {
        history_views(self.conversation_history@)
    }

    /// The replies still to come, in order.
    pub closed spec fn script(&self) -> Seq<ScriptedView> {
        scripted_views(self.scripted_responses@)
    }

    pub open spec fn next_scripted(&self) -> Option<ScriptedView> {
        if self.script().len() > 0 {
            Some(self.script()[0])
        } else {
            None
        }
    }

    pub open spec fn rest_of_script(&self) -> Seq<ScriptedView> {
        if self.script().len() > 0 {
            self.script().drop_first()
        } else {
            self.script()
        }
    }

    pub fn new() -> (e: MockVoiceEngine)
        ensures
            !e.active(),
            e.prompt() == Seq::<char>::empty(),
            e.history() == Seq::<(Speaker, Seq<char>)>::empty(),
            e.script() == Seq::<ScriptedView>::empty(),
    {
        let e = MockVoiceEngine {
            session_active: false,
            system_prompt: String::new(),
            conversation_history: Vec::new(),
            scripted_responses: Vec::new(),
        };
        assert(e.history() =~= Seq::<(Speaker, Seq<char>)>::empty());
        assert(e.script() =~= Seq::<ScriptedView>::empty());
        e
    }

    /// Get the engine name
    pub fn name(&self) -> (s: &'static str)
        ensures
            s@ == "mock"@,
    {
        "mock"
    }

    /// Add a scripted response at the end of the script.
    pub fn add_response(&mut self, response: ScriptedResponse)
        ensures
            final(self).script() == old(self).script().push(response@),
            final(self).history() == old(self).history(),
            final(self).active() == old(self).active(),
            final(self).prompt() == old(self).prompt(),
    {
        let ghost r = response@;
        self.scripted_responses.push(response);
        assert(self.script() =~= old(self).script().push(r));
    }

    /// Set up a mock appointment booking conversation
    pub fn setup_appointment_flow(&mut self)
        ensures
            final(self).script() == seq![
                ScriptedView { response_text: "Hello, this is Karta calling on behalf of the principal. I'd like to schedule an appointment."@, needs_input: false, input_prompt: None, should_end: false },
                ScriptedView { response_text: "Thank you. Would next Tuesday at 2pm work? Let me confirm with the principal."@, needs_input: true, input_prompt: Some("They offered Tuesday at 2pm. Does this work?"@), should_end: false },
                ScriptedView { response_text: "Yes, Tuesday at 2pm works perfectly. Could you please send a confirmation?"@, needs_input: false, input_prompt: None, should_end: false },
                ScriptedView { response_text: "Thank you so much for your help. Have a great day!"@, needs_input: false, input_prompt: None, should_end: true },
            ],
            final(self).history() == old(self).history(),
            final(self).active() == old(self).active(),
            final(self).prompt() == old(self).prompt(),
    {
        let mut s: Vec<ScriptedResponse> = Vec::new();
        s.push(scripted("Hello, this is Karta calling on behalf of the principal. I'd like to schedule an appointment.", false, None, false));
        s.push(scripted("Thank you. Would next Tuesday at 2pm work? Let me confirm with the principal.", true, Some("They offered Tuesday at 2pm. Does this work?"), false));
        s.push(scripted("Yes, Tuesday at 2pm works perfectly. Could you please send a confirmation?", false, None, false));
        s.push(scripted("Thank you so much for your help. Have a great day!", false, None, true));
        self.scripted_responses = s;
        assert(self.script() =~= seq![
            ScriptedView { response_text: "Hello, this is Karta calling on behalf of the principal. I'd like to schedule an appointment."@, needs_input: false, input_prompt: None, should_end: false },
            ScriptedView { response_text: "Thank you. Would next Tuesday at 2pm work? Let me confirm with the principal."@, needs_input: true, input_prompt: Some("They offered Tuesday at 2pm. Does this work?"@), should_end: false },
            ScriptedView { response_text: "Yes, Tuesday at 2pm works perfectly. Could you please send a confirmation?"@, needs_input: false, input_prompt: None, should_end: false },
            ScriptedView { response_text: "Thank you so much for your help. Have a great day!"@, needs_input: false, input_prompt: None, should_end: true },
        ]);
    }

    /// Set up a mock rental negotiation conversation
    pub fn setup_rental_flow(&mut self)
        ensures
            final(self).script() == seq![
                ScriptedView { response_text: "Hi, this is Karta calling on behalf of the principal regarding the Oak Street property."@, needs_input: false, input_prompt: None, should_end: false },
                ScriptedView { response_text: "I understand the listed price is $2,800. The principal was hoping for something closer to $2,450 with an extended lease term. Would that be possible?"@, needs_input: false, input_prompt: None, should_end: false },
                ScriptedView { response_text: "They're offering $2,650 for 12 months, or $2,550 for 18 months. Let me check with the principal."@, needs_input: true, input_prompt: Some("Counter offer: $2,650/12mo or $2,550/18mo. Your budget ceiling is $2,650. How should I proceed?"@), should_end: false },
                ScriptedView { response_text: "The principal has approved $2,550 for 18 months. We'd like to proceed with the application."@, needs_input: false, input_prompt: None, should_end: false },
                ScriptedView { response_text: "Thank you. Please send the application to the principal's email. We look forward to it."@, needs_input: false, input_prompt: None, should_end: true },
            ],
            final(self).history() == old(self).history(),
            final(self).active() == old(self).active(),
            final(self).prompt() == old(self).prompt(),
    {
        let mut s: Vec<ScriptedResponse> = Vec::new();
        s.push(scripted("Hi, this is Karta calling on behalf of the principal regarding the Oak Street property.", false, None, false));
        s.push(scripted("I understand the listed price is $2,800. The principal was hoping for something closer to $2,450 with an extended lease term. Would that be possible?", false, None, false));
        s.push(scripted("They're offering $2,650 for 12 months, or $2,550 for 18 months. Let me check with the principal.", true, Some("Counter offer: $2,650/12mo or $2,550/18mo. Your budget ceiling is $2,650. How should I proceed?"), false));
        s.push(scripted("The principal has approved $2,550 for 18 months. We'd like to proceed with the application.", false, None, false));
        s.push(scripted("Thank you. Please send the application to the principal's email. We look forward to it.", false, None, true));
        self.scripted_responses = s;
        assert(self.script() =~= seq![
            ScriptedView { response_text: "Hi, this is Karta calling on behalf of the principal regarding the Oak Street property."@, needs_input: false, input_prompt: None, should_end: false },
            ScriptedView { response_text: "I understand the listed price is $2,800. The principal was hoping for something closer to $2,450 with an extended lease term. Would that be possible?"@, needs_input: false, input_prompt: None, should_end: false },
            ScriptedView { response_text: "They're offering $2,650 for 12 months, or $2,550 for 18 months. Let me check with the principal."@, needs_input: true, input_prompt: Some("Counter offer: $2,650/12mo or $2,550/18mo. Your budget ceiling is $2,650. How should I proceed?"@), should_end: false },
            ScriptedView { response_text: "The principal has approved $2,550 for 18 months. We'd like to proceed with the application."@, needs_input: false, input_prompt: None, should_end: false },
            ScriptedView { response_text: "Thank you. Please send the application to the principal's email. We look forward to it."@, needs_input: false, input_prompt: None, should_end: true },
        ]);
    }

    /// The next scripted reply as a response, taking it off the script; the
    /// fallback reply where the script is used up.
    fn get_next_response(&mut self) -> (r: VoiceResponse)
        ensures
            response_from_script(old(self).next_scripted(), r),
            r.transcript_in is None,
            final(self).script() == old(self).rest_of_script(),
            final(self).history() == old(self).history(),
            final(self).active() == old(self).active(),
            final(self).prompt() == old(self).prompt(),
    {
        if self.scripted_responses.len() > 0 {
            let s = self.scripted_responses.remove(0);
            assert(self.script() =~= old(self).script().drop_first());
            let end_reason = if s.should_end {
                Some(String::from_str("Task completed"))
            } else {
                None
            };
            VoiceResponse {
                transcript_in: None,
                response_text: Some(s.response_text),
                response_audio: None,
                needs_input: s.needs_input,
                input_prompt: s.input_prompt,
                tool_calls: Vec::new(),
                should_end: s.should_end,
                end_reason,
            }
        } else {
            VoiceResponse {
                transcript_in: None,
                response_text: Some(String::from_str("I understand. Is there anything else I can help with?")),
                response_audio: None,
                needs_input: false,
                input_prompt: None,
                tool_calls: Vec::new(),
                should_end: false,
                end_reason: None,
            }
        }
    }

    fn remember(&mut self, speaker: Speaker, text: &str)
        ensures
            final(self).history() == old(self).history().push((speaker, text@)),
            final(self).script() == old(self).script(),
            final(self).active() == old(self).active(),
            final(self).prompt() == old(self).prompt(),
    {
        self.conversation_history.push((speaker, String::from_str(text)));
        assert(self.history() =~= old(self).history().push((speaker, text@)));
    }

    /// Start a session: the prompt is kept, the history cleared, and the
    /// transcript gets a system line with the prompt's first hundred characters.
    pub fn start_session(&mut self, system_prompt: &str) -> (events: Vec<TranscriptEvent>)
        ensures
            final(self).active(),
            final(self).prompt() == system_prompt@,
            final(self).history() == Seq::<(Speaker, Seq<char>)>::empty(),
            final(self).script() == old(self).script(),
            events@.len() == 1,
            says(
                events@[0],
                Speaker::System,
                "Session started. System: "@ + system_prompt@.take(
                    if system_prompt@.len() < 100 {
                        system_prompt@.len() as int
                    } else {
                        100
                    },
                ),
            ),
    {
        self.session_active = true;
        self.system_prompt = String::from_str(system_prompt);
        self.conversation_history = Vec::new();
        assert(self.history() =~= Seq::<(Speaker, Seq<char>)>::empty());
        let len = system_prompt.unicode_len();
        let cut = if len < 100 {
            len
        } else {
            100
        };
        let head = system_prompt.substring_char(0, cut);
        let mut text = String::from_str("Session started. System: ");
        text.append(head);
        assert(system_prompt@.subrange(0, cut as int) =~= system_prompt@.take(cut as int));
        let mut events: Vec<TranscriptEvent> = Vec::new();
        events.push(event(Speaker::System, text.as_str()));
        events
    }

    /// End the current session; the transcript gets a system line.
    pub fn end_session(&mut self) -> (events: Vec<TranscriptEvent>)
        ensures
            !final(self).active(),
            final(self).prompt() == old(self).prompt(),
            final(self).history() == old(self).history(),
            final(self).script() == old(self).script(),
            events@.len() == 1,
            says(events@[0], Speaker::System, "Session ended"@),
    {
        self.session_active = false;
        let mut events: Vec<TranscriptEvent> = Vec::new();
        events.push(event(Speaker::System, "Session ended"));
        events
    }

    /// Process incoming audio: the mock hears the remote party's greeting and
    /// answers with the next scripted reply.
    pub fn process_audio(&mut self, audio: &[u8]) -> (r: (VoiceResponse, Vec<TranscriptEvent>))
        ensures
            response_from_script(old(self).next_scripted(), r.0),
            opt_text(r.0.transcript_in) == Some(mock_heard()),
            final(self).script() == old(self).rest_of_script(),
            final(self).active() == old(self).active(),
            final(self).prompt() == old(self).prompt(),
            final(self).history() == old(self).history().push((Speaker::Remote, mock_heard())).push(
                (Speaker::Agent, r.0.response_text->0@),
            ),
            r.1@.len() == 2,
            says(r.1@[0], Speaker::Remote, mock_heard()),
            says(r.1@[1], Speaker::Agent, r.0.response_text->0@),
    {
        let heard = "Thank you for calling, how can I help you?";
        self.remember(Speaker::Remote, heard);
        let mut events: Vec<TranscriptEvent> = Vec::new();
        events.push(event(Speaker::Remote, heard));
        let mut response = self.get_next_response();
        response.transcript_in = Some(String::from_str(heard));
        if let Some(text) = &response.response_text {
            self.remember(Speaker::Agent, text.as_str());
            events.push(event(Speaker::Agent, text.as_str()));
        }
        (response, events)
    }

    /// Process the principal's words: recorded, then answered with the next
    /// scripted reply.
    pub fn process_text(&mut self, text: &str) -> (r: (VoiceResponse, Vec<TranscriptEvent>))
        ensures
            response_from_script(old(self).next_scripted(), r.0),
            r.0.transcript_in is None,
            final(self).script() == old(self).rest_of_script(),
            final(self).active() == old(self).active(),
            final(self).prompt() == old(self).prompt(),
            final(self).history() == old(self).history().push((Speaker::Principal, text@)).push(
                (Speaker::Agent, r.0.response_text->0@),
            ),
            r.1@.len() == 2,
            says(r.1@[0], Speaker::Principal, text@),
            says(r.1@[1], Speaker::Agent, r.0.response_text->0@),
    {
        self.remember(Speaker::Principal, text);
        let mut events: Vec<TranscriptEvent> = Vec::new();
        events.push(event(Speaker::Principal, text));
        let response = self.get_next_response();
        if let Some(t) = &response.response_text {
            self.remember(Speaker::Agent, t.as_str());
            events.push(event(Speaker::Agent, t.as_str()));
        }
        (response, events)
    }

    /// Have the agent say something: recorded; the mock makes no audio.
    pub fn speak(&mut self, text: &str) -> (r: (Vec<u8>, Vec<TranscriptEvent>))
        ensures
            r.0@.len() == 0,
            final(self).history() == old(self).history().push((Speaker::Agent, text@)),
            final(self).script() == old(self).script(),
            final(self).active() == old(self).active(),
            final(self).prompt() == old(self).prompt(),
            r.1@.len() == 1,
            says(r.1@[0], Speaker::Agent, text@),
    {
        self.remember(Speaker::Agent, text);
        let mut events: Vec<TranscriptEvent> = Vec::new();
        events.push(event(Speaker::Agent, text));
        (Vec::new(), events)
    }

    /// Check if the engine is connected: a session is under way.
    pub fn is_connected(&self) -> (b: bool)
        ensures
            b == self.active(),
    {
        self.session_active
    }
}

} // verus!
