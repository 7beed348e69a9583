//! Telnyx telephony: the requests Karta makes of Telnyx's call-control API
//! and what it makes of the answers. The HTTP exchange itself is the
//! program's.

use vstd::prelude::*;

use crate::error::KartaError;
use crate::json::{json_member, json_string_text, push_string_member};
use crate::telephony::call::{Call, CallLog, CallState, CallStateView, CallView, ended_in_log};

verus! {

/// Telnyx telephony provider.
pub struct TelnyxProvider {
    api_key: String,
    from_number: String,
    active_calls: CallLog,
}

/// The body that creates a call: a JSON object with its members in key order.
pub open spec fn telnyx_call_body(to: Seq<char>, from: Seq<char>) -> Seq<char> {
    "{"@ + json_member("connection_id"@, json_string_text("your_connection_id"@)) + ","@
        + json_member("from"@, json_string_text(from)) + ","@ + json_member(
        "stream_url"@,
        json_string_text("wss://your-server.com/telnyx-stream"@),
    ) + ","@ + json_member("to"@, json_string_text(to)) + ","@ + json_member(
        "webhook_url"@,
        json_string_text("https://your-server.com/telnyx-webhook"@),
    ) + "}"@
}

/// The endpoint that hangs a call up.
pub open spec fn telnyx_hangup_url(call_control_id: Seq<char>) -> Seq<char> {
    "https://api.telnyx.com/v2/calls/"@ + call_control_id + "/actions/hangup"@
}

/// What a call-creation request comes to.
pub open spec fn telnyx_create_outcome(
    success: bool,
    error_text: Seq<char>,
    call_control_id: Option<Seq<char>>,
) -> Result<Seq<char>, Seq<char>> {
    if !success {
        Err("Telnyx API error: "@ + error_text)
    } else {
        match call_control_id {
            Some(s) => Ok(s),
            None => Err("Missing call_control_id in response"@),
        }
    }
}

impl TelnyxProvider {
    pub closed spec fn key(&self) -> Seq<char> {
        self.api_key@
    }

    pub closed spec fn number(&self) -> Seq<char> {
        self.from_number@
    }

    /// The calls placed, in order.
    pub closed spec fn calls(&self) -> Seq<CallView> {
        self.active_calls.calls()
    }

    pub fn new(api_key: String, from_number: String) -> (p: TelnyxProvider)
        ensures
            p.key() == api_key@,
            p.number() == from_number@,
            p.calls() == Seq::<CallView>::empty(),
    {
        TelnyxProvider { api_key, from_number, active_calls: CallLog::new() }
    }

    /// Get the provider name
    pub fn name(&self) -> (s: &'static str)
        ensures
            s@ == "telnyx"@,
    {
        "telnyx"
    }

    pub fn api_key(&self) -> (s: &str)
        ensures
            s@ == self.key(),
    {
        self.api_key.as_str()
    }

    /// Get the phone number this provider calls from
    pub fn from_number(&self) -> (s: &str)
        ensures
            s@ == self.number(),
    {
        self.from_number.as_str()
    }

    /// Check if we have a key.
    pub fn is_ready(&self) -> (b: bool)
        ensures
            b == (self.key().len() > 0),
    {
        !self.api_key.as_str().is_empty()
    }

    /// Where calls are created.
    pub fn calls_url() -> (u: &'static str)
        ensures
            u@ == "https://api.telnyx.com/v2/calls"@,
    {
        "https://api.telnyx.com/v2/calls"
    }

    /// The JSON body that creates a call to `to_number`.
    pub fn call_body(&self, to_number: &str) -> (b: String)
        ensures
            b@ == telnyx_call_body(to_number@, self.number()),
    {
        let mut b = String::from_str("{");
        push_string_member(&mut b, "connection_id", "your_connection_id");
        b.append(",");
        push_string_member(&mut b, "from", self.from_number.as_str());
        b.append(",");
        push_string_member(&mut b, "stream_url", "wss://your-server.com/telnyx-stream");
        b.append(",");
        push_string_member(&mut b, "to", to_number);
        b.append(",");
        push_string_member(&mut b, "webhook_url", "https://your-server.com/telnyx-webhook");
        b.append("}");
        b
    }

    /// The JSON body of a hang-up request: an empty object.
    pub fn hangup_body() -> (b: &'static str)
        ensures
            b@ == "{}"@,
    {
        "{}"
    }

    /// Where a call is hung up.
    pub fn hangup_url(call_control_id: &str) -> (u: String)
        ensures
            u@ == telnyx_hangup_url(call_control_id@),
    {
        let mut u = String::from_str("https://api.telnyx.com/v2/calls/");
        u.append(call_control_id);
        u.append("/actions/hangup");
        u
    }

    /// Interpret the answer to a call-creation request: whether its status was
    /// a success, its text where it was not, and the `data.call_control_id`
    /// it names.
    pub fn create_call_outcome(success: bool, error_text: String, call_control_id: Option<String>) -> (r:
        Result<String, KartaError>)
        ensures
            match telnyx_create_outcome(
                success,
                error_text@,
                match call_control_id {
                    Some(s) => Some(s@),
                    None => None,
                },
            ) {
                Ok(s) => r is Ok && r->Ok_0@ == s,
                Err(m) => r matches Err(KartaError::Telephony(t)) && t@ == m,
            },
    {
        if !success {
            let mut m = String::from_str("Telnyx API error: ");
            m.append(error_text.as_str());
            return Err(KartaError::Telephony(m));
        }
        match call_control_id {
            Some(s) => Ok(s),
            None => Err(KartaError::Telephony(String::from_str("Missing call_control_id in response"))),
        }
    }

    /// The call object for a call about to be placed: initiating.
    pub fn begin_call(&self, to_number: &str) -> (c: Call)
        ensures
            c@.to_number == to_number@,
            c@.from_number == self.number(),
            c@.state == CallStateView::Initiating,
            c@.answered_at is None,
            c@.provider_call_id is None,
    {
        Call::new(String::from_str(to_number), self.from_number.clone())
    }

    /// Telnyx accepted the call: it rings under the given control id and is
    /// recorded.
    pub fn call_placed(&mut self, call: Call, call_control_id: String) -> (c: Call)
        ensures
            final(self).key() == old(self).key(),
            final(self).number() == old(self).number(),
            c@.id == call@.id,
            c@.to_number == call@.to_number,
            c@.from_number == call@.from_number,
            c@.provider_call_id == Some(call_control_id@),
            c@.state == CallStateView::Ringing,
            final(self).calls() == old(self).calls().push(c@),
    {
        let mut call = call;
        call.provider_call_id = Some(call_control_id);
        call.state = CallState::Ringing;
        self.active_calls.record(call.duplicate());
        call
    }

    /// The local side of ending a call: the recorded call ends.
    pub fn call_ended(&mut self, call: &Call)
        ensures
            final(self).key() == old(self).key(),
            final(self).number() == old(self).number(),
            ended_in_log(old(self).calls(), final(self).calls(), call@.id),
    {
        self.active_calls.end(call.id);
    }
}

} // verus!
