//! Twilio telephony: the requests Karta makes of Twilio's REST API and what
//! it makes of the answers. The HTTP exchange itself is the program's.

use vstd::prelude::*;

use crate::error::KartaError;
use crate::telephony::call::{Call, CallLog, CallState, CallStateView, CallView, ended_in_log, same_call};

verus! {

/// Twilio telephony provider.
pub struct TwilioProvider {
    account_sid: String,
    auth_token: String,
    from_number: String,
    active_calls: CallLog,
}

/// The state of a Twilio Media Streams connection (the audio of a call over a
/// WebSocket); the connection itself is not made yet.
pub struct TwilioMediaStream {}

/// The TwiML that speaks a message, pauses, and says goodbye.
pub open spec fn twiml(message: Seq<char>) -> Seq<char> {
    "<?xml version=\"1.0\" encoding=\"UTF-8\"?>\n<Response>\n    <Say voice=\"Polly.Joanna\">"@ + message
        + "</Say>\n    <Pause length=\"2\"/>\n    <Say voice=\"Polly.Joanna\">Goodbye!</Say>\n</Response>"@
}

/// The TwiML of a test call with a custom message.
pub open spec fn twiml_custom(message: Seq<char>) -> Seq<char> {
    "<?xml version=\"1.0\" encoding=\"UTF-8\"?>\n<Response>\n    <Say voice=\"Polly.Joanna\">"@ + message
        + "</Say>\n    <Pause length=\"3\"/>\n    <Say voice=\"Polly.Joanna\">This was a test call from Karta. Goodbye!</Say>\n</Response>"@
}

/// The endpoint at which calls of an account are created.
pub open spec fn twilio_calls_url(account_sid: Seq<char>) -> Seq<char> {
    "https://api.twilio.com/2010-04-01/Accounts/"@ + account_sid + "/Calls.json"@
}

/// The endpoint of one call of an account.
pub open spec fn twilio_call_url(account_sid: Seq<char>, call_sid: Seq<char>) -> Seq<char> {
    "https://api.twilio.com/2010-04-01/Accounts/"@ + account_sid + "/Calls/"@ + call_sid + ".json"@
}

pub open spec fn pair_views(v: Seq<(String, String)>) -> Seq<(Seq<char>, Seq<char>)> {
    v.map_values(|p: (String, String)| (p.0@, p.1@))
}

/// What a call-creation request comes to: an error status is refused with
/// the body's text; a success gives the call's SID, or is refused where the
/// answer names none.
pub open spec fn twilio_create_outcome(
    success: bool,
    error_text: Seq<char>,
    call_sid: Option<Seq<char>>,
) -> Result<Seq<char>, Seq<char>> {
    if !success {
        Err("Twilio API error: "@ + error_text)
    } else {
        match call_sid {
            Some(s) => Ok(s),
            None => Err("Missing call SID in response"@),
        }
    }
}

fn pair(a: &str, b: &str) -> (p: (String, String))
    ensures
        p.0@ == a@,
        p.1@ == b@,
{
    (String::from_str(a), String::from_str(b))
}

impl TwilioProvider {
    pub closed spec fn account(&self) -> Seq<char> {
        self.account_sid@
    }

    pub closed spec fn token(&self) -> Seq<char> {
        self.auth_token@
    }

    pub closed spec fn number(&self) -> Seq<char> {
        self.from_number@
    }

    /// The calls placed, in order.
    pub closed spec fn calls(&self) -> Seq<CallView> {
        self.active_calls.calls()
    }

    pub fn new(account_sid: String, auth_token: String, from_number: String) -> (p: TwilioProvider)
        ensures
            p.account() == account_sid@,
            p.token() == auth_token@,
            p.number() == from_number@,
            p.calls() == Seq::<CallView>::empty(),
    {
        TwilioProvider { account_sid, auth_token, from_number, active_calls: CallLog::new() }
    }

    /// Get the provider name
    pub fn name(&self) -> (s: &'static str)
        ensures
            s@ == "twilio"@,
    {
        "twilio"
    }

    pub fn account_sid(&self) -> (s: &str)
        ensures
            s@ == self.account(),
    {
        self.account_sid.as_str()
    }

    pub fn auth_token(&self) -> (s: &str)
        ensures
            s@ == self.token(),
    {
        self.auth_token.as_str()
    }

    /// Get the phone number this provider calls from
    pub fn from_number(&self) -> (s: &str)
        ensures
            s@ == self.number(),
    {
        self.from_number.as_str()
    }

    /// Check if we have credentials: both the account and the token are given.
    pub fn is_ready(&self) -> (b: bool)
        ensures
            b == (self.account().len() > 0 && self.token().len() > 0),
    {
        !self.account_sid.as_str().is_empty() && !self.auth_token.as_str().is_empty()
    }

    /// Generate TwiML for the call
    pub fn generate_twiml(&self, message: &str) -> (t: String)
        ensures
            t@ == twiml(message@),
    {
        let mut t = String::from_str(
            "<?xml version=\"1.0\" encoding=\"UTF-8\"?>\n<Response>\n    <Say voice=\"Polly.Joanna\">",
        );
        t.append(message);
        t.append(
            "</Say>\n    <Pause length=\"2\"/>\n    <Say voice=\"Polly.Joanna\">Goodbye!</Say>\n</Response>",
        );
        t
    }

    /// Generate TwiML with a custom message
    pub fn generate_twiml_custom(message: &str) -> (t: String)
        ensures
            t@ == twiml_custom(message@),
    {
        let mut t = String::from_str(
            "<?xml version=\"1.0\" encoding=\"UTF-8\"?>\n<Response>\n    <Say voice=\"Polly.Joanna\">",
        );
        t.append(message);
        t.append(
            "</Say>\n    <Pause length=\"3\"/>\n    <Say voice=\"Polly.Joanna\">This was a test call from Karta. Goodbye!</Say>\n</Response>",
        );
        t
    }

    /// The message that a call placed by `make_call` speaks.
    pub fn default_call_message() -> (s: &'static str)
        ensures
            s@ == "Hello! This is Karta, your AI assistant. I'm calling to let you know that the system is working. Have a great day!"@,
    {
        "Hello! This is Karta, your AI assistant. I'm calling to let you know that the system is working. Have a great day!"
    }

    /// Where calls are created.
    pub fn calls_url(&self) -> (u: String)
        ensures
            u@ == twilio_calls_url(self.account()),
    {
        let mut u = String::from_str("https://api.twilio.com/2010-04-01/Accounts/");
        u.append(self.account_sid.as_str());
        u.append("/Calls.json");
        u
    }

    /// Where one call is updated.
    pub fn call_url(&self, call_sid: &str) -> (u: String)
        ensures
            u@ == twilio_call_url(self.account(), call_sid@),
    {
        let mut u = String::from_str("https://api.twilio.com/2010-04-01/Accounts/");
        u.append(self.account_sid.as_str());
        u.append("/Calls/");
        u.append(call_sid);
        u.append(".json");
        u
    }

    /// The form that creates a call to `to_number` speaking `message`.
    pub fn call_form(&self, to_number: &str, message: &str) -> (f: Vec<(String, String)>)
        ensures
            pair_views(f@) == seq![("To"@, to_number@), ("From"@, self.number()), ("Twiml"@, twiml(message@))],
    {
        let mut f: Vec<(String, String)> = Vec::new();
        f.push(pair("To", to_number));
        f.push(pair("From", self.from_number.as_str()));
        let t = self.generate_twiml(message);
        f.push(pair("Twiml", t.as_str()));
        assert(pair_views(f@) =~= seq![("To"@, to_number@), ("From"@, self.number()), ("Twiml"@, twiml(message@))]);
        f
    }

    /// The form that hangs a call up.
    pub fn hangup_form() -> (f: Vec<(String, String)>)
        ensures
            pair_views(f@) == seq![("Status"@, "completed"@)],
    {
        let mut f: Vec<(String, String)> = Vec::new();
        f.push(pair("Status", "completed"));
        assert(pair_views(f@) =~= seq![("Status"@, "completed"@)]);
        f
    }

    /// Interpret the answer to a call-creation request: whether its status was
    /// a success, its text where it was not, and the `sid` it names.
    pub fn create_call_outcome(success: bool, error_text: String, call_sid: Option<String>) -> (r:
        Result<String, KartaError>)
        ensures
            match twilio_create_outcome(
                success,
                error_text@,
                match call_sid {
                    Some(s) => Some(s@),
                    None => None,
                },
            ) {
                Ok(s) => r is Ok && r->Ok_0@ == s,
                Err(m) => r matches Err(KartaError::Telephony(t)) && t@ == m,
            },
    {
        if !success {
            let mut m = String::from_str("Twilio API error: ");
            m.append(error_text.as_str());
            return Err(KartaError::Telephony(m));
        }
        match call_sid {
            Some(s) => Ok(s),
            None => Err(KartaError::Telephony(String::from_str("Missing call SID in response"))),
        }
    }

    /// The call object for a call about to be placed: initiating.
    pub fn begin_call(&self, to_number: &str) -> (c: Call)
        ensures
            c@.to_number == to_number@,
            c@.from_number == self.number(),
            c@.state == CallStateView::Initiating,
            c@.answered_at is None,
            c@.provider_call_id is None,
    {
        Call::new(String::from_str(to_number), self.from_number.clone())
    }

    /// Twilio accepted the call: it rings under the given SID and is recorded.
    pub fn call_placed(&mut self, call: Call, call_sid: String) -> (c: Call)
        ensures
            final(self).account() == old(self).account(),
            final(self).token() == old(self).token(),
            final(self).number() == old(self).number(),
            c@.id == call@.id,
            c@.to_number == call@.to_number,
            c@.from_number == call@.from_number,
            c@.provider_call_id == Some(call_sid@),
            c@.state == CallStateView::Ringing,
            final(self).calls() == old(self).calls().push(c@),
    {
        let mut call = call;
        call.provider_call_id = Some(call_sid);
        call.state = CallState::Ringing;
        self.active_calls.record(call.duplicate());
        call
    }

    /// The local side of ending a call: the recorded call ends.
    pub fn call_ended(&mut self, call: &Call)
        ensures
            final(self).account() == old(self).account(),
            final(self).token() == old(self).token(),
            final(self).number() == old(self).number(),
            ended_in_log(old(self).calls(), final(self).calls(), call@.id),
    {
        self.active_calls.end(call.id);
    }
}

} // verus!
