//! Mock telephony for testing and development: simulated calls and scripted
//! conversations.

use vstd::prelude::*;

use crate::task::task::opt_text;
use crate::telephony::call::{Call, CallLog, CallState, CallStateView, CallView, ended_in_log, same_call};
use crate::text::{
    ascii_uppercase, is_ascii_text, lemma_ascii_uppercase_same_form, lowercase_form, str_contains, text_contains,
    to_lowercase,
};

verus! {

/// Mock telephony provider: calls connect after a short delay and are kept
/// in a log of calls made.
pub struct MockTelephonyProvider {
    from_number: String,
    active_calls: CallLog,
}

impl MockTelephonyProvider {
    /// The calls made, in order.
    pub closed spec fn calls(&self) -> Seq<CallView> {
        self.active_calls.calls()
    }

    pub closed spec fn number(&self) -> Seq<char> {
        self.from_number@
    }

    pub fn new() -> (p: MockTelephonyProvider)
        ensures
            p.number() == "+1-555-KARTA"@,
            p.calls() == Seq::<CallView>::empty(),
    {
        MockTelephonyProvider { from_number: String::from_str("+1-555-KARTA"), active_calls: CallLog::new() }
    }

    /// Get the provider name
    pub fn name(&self) -> (s: &'static str)
        ensures
            s@ == "mock"@,
    {
        "mock"
    }

    /// The first half of placing a call: the call, ringing.
    pub fn begin_call(&self, to_number: &str) -> (c: Call)
        ensures
            c@.to_number == to_number@,
            c@.from_number == self.number(),
            c@.state == CallStateView::Ringing,
            c@.answered_at is None,
            c@.ended_at is None,
            c@.provider_call_id is None,
    {
        let mut call = Call::new(String::from_str(to_number), self.from_number.clone());
        call.state = CallState::Ringing;
        call
    }

    /// The second half of placing a call: it connects and is recorded.
    pub fn complete_call(&mut self, call: Call) -> (c: Call)
        ensures
            final(self).number() == old(self).number(),
            same_call(c@, call@),
            c@.state == CallStateView::Connected,
            c@.answered_at is Some,
            final(self).calls() == old(self).calls().push(c@),
    {
        let mut call = call;
        call.connect();
        self.active_calls.record(call.duplicate());
        call
    }

    /// End a call: the recorded call with the same identifier, if any, ends.
    pub fn end_call(&mut self, call: &Call)
        ensures
            final(self).number() == old(self).number(),
            ended_in_log(old(self).calls(), final(self).calls(), call@.id),
    {
        self.active_calls.end(call.id);
    }

    /// Check if the provider is connected/ready
    pub fn is_ready(&self) -> (b: bool)
        ensures
            b,
    {
        true
    }

    /// Get the phone number this provider calls from
    pub fn from_number(&self) -> (s: &str)
        ensures
            s@ == self.number(),
    {
        self.from_number.as_str()
    }
}

// ---------------------------------------------------------------------------
// Scripted conversations
// ---------------------------------------------------------------------------

pub struct MockResponse {
    /// What the mock "hears" (trigger phrase)
    pub trigger: Option<String>,
    /// What the mock responds with
    pub response: String,
    /// Delay before responding (milliseconds)
    pub delay_ms: u64,
}

/// Simulated conversation for testing: scripted replies of the other party,
/// handed out in order.
pub struct MockConversation {
    /// Scripted responses from the "other party"
    pub responses: Vec<MockResponse>,
    current_index: usize,
}

pub struct MockResponseView {
    pub trigger: Option<Seq<char>>,
    pub response: Seq<char>,
    pub delay_ms: u64,
}

impl View for MockResponse {
    type V = MockResponseView;

    open spec fn view(&self) -> MockResponseView {
        MockResponseView { trigger: opt_text(self.trigger), response: self.response@, delay_ms: self.delay_ms }
    }
}

pub open spec fn response_views(s: Seq<MockResponse>) -> Seq<MockResponseView> {
    s.map_values(|r: MockResponse| r@)
}

/// A scripted reply is triggered by an input that contains its trigger
/// phrase, ignoring case. Replies without a trigger are never triggered.
pub open spec fn triggered_by(r: MockResponseView, input: Seq<char>) -> bool {
    match r.trigger {
        Some(t) => text_contains(lowercase_form(input), lowercase_form(t)),
        None => false,
    }
}

/// Reply `j` is the first from `from` on that `input` triggers.
pub open spec fn first_triggered(s: Seq<MockResponseView>, input: Seq<char>, from: int, j: int) -> bool {
    &&& from <= j < s.len()
    &&& triggered_by(s[j], input)
    &&& forall|l: int| from <= l < j ==> !triggered_by(s[l], input)
}

/// Trigger matching ignores case: an ASCII input and its upper-case form
/// trigger the same replies, so finding a reply gives the same result and the
/// same position for both.
pub proof fn law_triggers_ignore_case(s: Seq<MockResponseView>, a: Seq<char>, from: int)
    requires
        is_ascii_text(a),
    ensures
        forall|i: int|
            0 <= i < s.len() ==> triggered_by(#[trigger] s[i], a) == triggered_by(s[i], ascii_uppercase(a)),
        forall|j: int| #[trigger] first_triggered(s, a, from, j) == first_triggered(s, ascii_uppercase(a), from, j),
{
    lemma_ascii_uppercase_same_form(a);
}

fn reply(trigger: Option<&str>, response: &str, delay_ms: u64) -> (r: MockResponse)
    ensures
        r@.trigger == match trigger {
            Some(t) => Some(t@),
            None => None::<Seq<char>>,
        },
        r@.response == response@,
        r@.delay_ms == delay_ms,
{
    MockResponse {
        trigger: match trigger {
            Some(t) => Some(String::from_str(t)),
            None => None,
        },
        response: String::from_str(response),
        delay_ms,
    }
}

impl MockConversation {
    /// How far the script has been handed out.
    pub closed spec fn position(&self) -> nat {
        self.current_index as nat
    }

    /// The position lies within the script: at most every reply has been
    /// handed out.
    pub open spec fn wf(&self) -> bool {
        self.position() <= self.script().len()
    }

    /// The scripted replies, as values.
    pub closed spec fn script(&self) -> Seq<MockResponseView> {
        response_views(self.responses@)
    }

    /// The scripted replies, which the public `responses` field holds.
    pub fn scripted(&self) -> (r: &Vec<MockResponse>)
        ensures
            response_views(r@) == self.script(),
    {
        &self.responses
    }

    /// Create a mock conversation for appointment booking
    pub fn appointment_booking() -> (c: MockConversation)
        ensures
            c.wf(),
            c.position() == 0,
            c.script() == seq![
                MockResponseView { trigger: None, response: "Thank you for calling Acme Medical. How can I help you today?"@, delay_ms: 1000 },
                MockResponseView { trigger: Some("appointment"@), response: "I can help you schedule an appointment. What day works for you?"@, delay_ms: 500 },
                MockResponseView { trigger: Some("next week"@), response: "I have availability on Tuesday at 2pm or Thursday at 10am. Which works better?"@, delay_ms: 500 },
                MockResponseView { trigger: Some("tuesday"@), response: "Great, I've scheduled you for Tuesday at 2pm. Can I get your phone number for confirmation?"@, delay_ms: 500 },
                MockResponseView { trigger: None, response: "Perfect. You're all set for Tuesday at 2pm. We'll send a confirmation text. Is there anything else?"@, delay_ms: 500 },
                MockResponseView { trigger: Some("no"@), response: "Thank you for calling. Have a great day!"@, delay_ms: 500 },
            ],
    {
        let mut responses: Vec<MockResponse> = Vec::new();
        responses.push(reply(None, "Thank you for calling Acme Medical. How can I help you today?", 1000));
        responses.push(reply(Some("appointment"), "I can help you schedule an appointment. What day works for you?", 500));
        responses.push(reply(Some("next week"), "I have availability on Tuesday at 2pm or Thursday at 10am. Which works better?", 500));
        responses.push(reply(Some("tuesday"), "Great, I've scheduled you for Tuesday at 2pm. Can I get your phone number for confirmation?", 500));
        responses.push(reply(None, "Perfect. You're all set for Tuesday at 2pm. We'll send a confirmation text. Is there anything else?", 500));
        responses.push(reply(Some("no"), "Thank you for calling. Have a great day!", 500));
        let c = MockConversation { responses, current_index: 0 };
        assert(c.script() =~= seq![
            MockResponseView { trigger: None, response: "Thank you for calling Acme Medical. How can I help you today?"@, delay_ms: 1000 },
            MockResponseView { trigger: Some("appointment"@), response: "I can help you schedule an appointment. What day works for you?"@, delay_ms: 500 },
            MockResponseView { trigger: Some("next week"@), response: "I have availability on Tuesday at 2pm or Thursday at 10am. Which works better?"@, delay_ms: 500 },
            MockResponseView { trigger: Some("tuesday"@), response: "Great, I've scheduled you for Tuesday at 2pm. Can I get your phone number for confirmation?"@, delay_ms: 500 },
            MockResponseView { trigger: None, response: "Perfect. You're all set for Tuesday at 2pm. We'll send a confirmation text. Is there anything else?"@, delay_ms: 500 },
            MockResponseView { trigger: Some("no"@), response: "Thank you for calling. Have a great day!"@, delay_ms: 500 },
        ]);
        c
    }

    /// Create a mock conversation for rental inquiry
    pub fn rental_inquiry() -> (c: MockConversation)
        ensures
            c.wf(),
            c.position() == 0,
            c.script() == seq![
                MockResponseView { trigger: None, response: "Apex Properties, this is Sarah speaking. How can I help you?"@, delay_ms: 1000 },
                MockResponseView { trigger: Some("rental"@), response: "Yes, I can help with that. Which unit are you inquiring about?"@, delay_ms: 500 },
                MockResponseView { trigger: Some("oak"@), response: "The unit on Oak Street is $2,800 per month. It's a beautiful 1-bedroom."@, delay_ms: 500 },
                MockResponseView { trigger: Some("2500"@), response: "I appreciate the offer. The best I can do is $2,650 with a 12-month lease."@, delay_ms: 500 },
                MockResponseView { trigger: Some("18 month"@), response: "For an 18-month lease, I could do $2,550. Would that work?"@, delay_ms: 500 },
                MockResponseView { trigger: Some("yes"@), response: "Excellent! I'll email the application to you. What email should I use?"@, delay_ms: 500 },
            ],
    {
        let mut responses: Vec<MockResponse> = Vec::new();
        responses.push(reply(None, "Apex Properties, this is Sarah speaking. How can I help you?", 1000));
        responses.push(reply(Some("rental"), "Yes, I can help with that. Which unit are you inquiring about?", 500));
        responses.push(reply(Some("oak"), "The unit on Oak Street is $2,800 per month. It's a beautiful 1-bedroom.", 500));
        responses.push(reply(Some("2500"), "I appreciate the offer. The best I can do is $2,650 with a 12-month lease.", 500));
        responses.push(reply(Some("18 month"), "For an 18-month lease, I could do $2,550. Would that work?", 500));
        responses.push(reply(Some("yes"), "Excellent! I'll email the application to you. What email should I use?", 500));
        let c = MockConversation { responses, current_index: 0 };
        assert(c.script() =~= seq![
            MockResponseView { trigger: None, response: "Apex Properties, this is Sarah speaking. How can I help you?"@, delay_ms: 1000 },
            MockResponseView { trigger: Some("rental"@), response: "Yes, I can help with that. Which unit are you inquiring about?"@, delay_ms: 500 },
            MockResponseView { trigger: Some("oak"@), response: "The unit on Oak Street is $2,800 per month. It's a beautiful 1-bedroom."@, delay_ms: 500 },
            MockResponseView { trigger: Some("2500"@), response: "I appreciate the offer. The best I can do is $2,650 with a 12-month lease."@, delay_ms: 500 },
            MockResponseView { trigger: Some("18 month"@), response: "For an 18-month lease, I could do $2,550. Would that work?"@, delay_ms: 500 },
            MockResponseView { trigger: Some("yes"@), response: "Excellent! I'll email the application to you. What email should I use?"@, delay_ms: 500 },
        ]);
        c
    }

    /// Get the next response: the one at the current position, which then
    /// moves on; none once the script is used up.
    pub fn next_response(&mut self) -> (r: Option<&MockResponse>)
        requires
            old(self).wf(),
        ensures
            final(self).wf(),
            final(self).script() == old(self).script(),
            if old(self).position() < old(self).script().len() {
                &&& r is Some
                &&& r->0@ == old(self).script()[old(self).position() as int]
                &&& final(self).position() == old(self).position() + 1
            } else {
                r is None && final(self).position() == old(self).position()
            },
    {
        if self.current_index < self.responses.len() {
            let i = self.current_index;
            self.current_index = self.current_index + 1;
            Some(&self.responses[i])
        } else {
            None
        }
    }

    fn triggered_at(&self, i: usize, input_lower: &String) -> (b: bool)
        requires
            i < self.responses@.len(),
        ensures
            b == match self.script()[i as int].trigger {
                Some(t) => text_contains(input_lower@, lowercase_form(t)),
                None => false,
            },
    {
        match &self.responses[i].trigger {
            Some(t) => {
                let t_lower = to_lowercase(t.as_str());
                str_contains(input_lower.as_str(), t_lower.as_str())
            },
            None => false,
        }
    }

    /// Find a response matching the input: the first reply from the current
    /// position on whose trigger the input contains (ignoring case), moving
    /// past it; failing that, the reply at the current position, moving on
    /// by one; failing that (script used up), none.
    pub fn find_response(&mut self, input: &str) -> (r: Option<&MockResponse>)
        requires
            old(self).wf(),
        ensures
            final(self).wf(),
            final(self).script() == old(self).script(),
            ({
                let s = old(self).script();
                let p = old(self).position() as int;
                if exists|j: int| first_triggered(s, input@, p, j) {
                    let j = choose|j: int| first_triggered(s, input@, p, j);
                    &&& r is Some
                    &&& r->0@ == s[j]
                    &&& final(self).position() == j + 1
                } else if p < s.len() {
                    &&& r is Some
                    &&& r->0@ == s[p]
                    &&& final(self).position() == p + 1
                } else {
                    r is None && final(self).position() == p
                }
            }),
    {
        let input_lower = to_lowercase(input);
        let n = self.responses.len();
        let start = self.current_index;
        let mut i = start;
        while i < n
            invariant
                n == self.responses@.len(),
                start == self.current_index,
                self.current_index <= n,
                start <= i <= n,
                input_lower@ == lowercase_form(input@),
                self.responses@ == old(self).responses@,
                self.current_index == old(self).current_index,
                forall|l: int| start <= l < i ==> !triggered_by(self.script()[l], input@),
            decreases n - i,
        {
            if self.triggered_at(i, &input_lower) {
                self.current_index = i + 1;
                proof {
                    let s = self.script();
                    assert(first_triggered(s, input@, start as int, i as int));
                    let j = choose|j: int| first_triggered(s, input@, start as int, j);
                    if j < i {
                        assert(!triggered_by(s[j], input@));
                    }
                    if i < j {
                        assert(!triggered_by(s[i as int], input@));
                    }
                }
                return Some(&self.responses[i]);
            }
            i = i + 1;
        }
        proof {
            let s = self.script();
            if exists|j: int| first_triggered(s, input@, start as int, j) {
                let j = choose|j: int| first_triggered(s, input@, start as int, j);
                assert(!triggered_by(s[j], input@));
            }
        }
        if self.current_index < n {
            let k = self.current_index;
            self.current_index = k + 1;
            Some(&self.responses[k])
        } else {
            None
        }
    }
}

} // verus!
