//! Call representation and state.

use vstd::prelude::*;

use crate::clock::{new_id, now_micros};
use crate::task::task::{copy_opt_text, opt_text};
use crate::text::{decimal, decimal_string};

verus! {

/// State of a phone call.
#[derive(Debug, Clone, PartialEq)]
pub enum CallState {
    /// Call is being initiated
    Initiating,
    /// Phone is ringing
    Ringing,
    /// Call is connected and active
    Connected,
    /// Call is on hold
    OnHold,
    /// Call ended normally
    Ended,
    /// Call failed to connect
    Failed(String),
    /// Call was not answered
    NoAnswer,
    /// Line was busy
    Busy,
}

/// An active or completed phone call. Times are microseconds since the Unix
/// epoch.
#[derive(Debug, Clone)]
pub struct Call {
    /// Unique call identifier (the 128-bit value of a UUID)
    pub id: u128,
    /// The phone number being called
    pub to_number: String,
    /// The phone number calling from
    pub from_number: String,
    /// Current state of the call
    pub state: CallState,
    /// When the call was initiated
    pub initiated_at: i64,
    /// When the call was answered (if applicable)
    pub answered_at: Option<i64>,
    /// When the call ended (if applicable)
    pub ended_at: Option<i64>,
    /// Duration in seconds (if ended)
    pub duration_seconds: Option<u32>,
    /// Provider-specific call ID
    pub provider_call_id: Option<String>,
}

pub enum CallStateView {
    Initiating,
    Ringing,
    Connected,
    OnHold,
    Ended,
    Failed(Seq<char>),
    NoAnswer,
    Busy,
}

pub struct CallView {
    pub id: u128,
    pub to_number: Seq<char>,
    pub from_number: Seq<char>,
    pub state: CallStateView,
    pub initiated_at: i64,
    pub answered_at: Option<i64>,
    pub ended_at: Option<i64>,
    pub duration_seconds: Option<u32>,
    pub provider_call_id: Option<Seq<char>>,
}

impl View for CallState {
    type V = CallStateView;

    open spec fn view(&self) -> CallStateView {
        match self {
            CallState::Initiating => CallStateView::Initiating,
            CallState::Ringing => CallStateView::Ringing,
            CallState::Connected => CallStateView::Connected,
            CallState::OnHold => CallStateView::OnHold,
            CallState::Ended => CallStateView::Ended,
            CallState::Failed(s) => CallStateView::Failed(s@),
            CallState::NoAnswer => CallStateView::NoAnswer,
            CallState::Busy => CallStateView::Busy,
        }
    }
}

impl View for Call {
    type V = CallView;

    open spec fn view(&self) -> CallView {
        CallView {
            id: self.id,
            to_number: self.to_number@,
            from_number: self.from_number@,
            state: self.state@,
            initiated_at: self.initiated_at,
            answered_at: self.answered_at,
            ended_at: self.ended_at,
            duration_seconds: self.duration_seconds,
            provider_call_id: opt_text(self.provider_call_id),
        }
    }
}

/// Whole seconds from `from` to `to` (microsecond times), rounded toward zero.
pub open spec fn whole_seconds_between(from: i64, to: i64) -> int {
    let d = to - from;
    if d >= 0 {
        d / 1_000_000
    } else {
        -((-d) / 1_000_000)
    }
}

/// Two-digit rendering of a value below one hundred, as `{:02}` prints it.
pub open spec fn two_digits(n: nat) -> Seq<char> {
    if n < 10 {
        seq!['0'] + decimal(n)
    } else {
        decimal(n)
    }
}

/// `M:SS` for a number of seconds.
pub open spec fn minutes_seconds(secs: nat) -> Seq<char> {
    decimal(secs / 60) + ":"@ + two_digits(secs % 60)
}

pub open spec fn call_is_active(s: CallStateView) -> bool {
    s is Connected || s is OnHold || s is Ringing
}

pub open spec fn call_is_ended(s: CallStateView) -> bool {
    s is Ended || s is Failed || s is NoAnswer || s is Busy
}

/// No call is both active and ended.
pub proof fn law_ended_calls_are_not_active(s: CallStateView)
    ensures
        !(call_is_active(s) && call_is_ended(s)),
{
}

/// The two calls are the same call: same identity, numbers, start and
/// provider identifier.
pub open spec fn same_call(a: CallView, b: CallView) -> bool {
    &&& a.id == b.id
    &&& a.to_number == b.to_number
    &&& a.from_number == b.from_number
    &&& a.initiated_at == b.initiated_at
    &&& a.provider_call_id == b.provider_call_id
}

impl CallState {
    /// A copy with the same contents.
    pub fn duplicate(&self) -> (r: CallState)
        ensures
            r@ == self@,
    {
        match self {
            CallState::Initiating => CallState::Initiating,
            CallState::Ringing => CallState::Ringing,
            CallState::Connected => CallState::Connected,
            CallState::OnHold => CallState::OnHold,
            CallState::Ended => CallState::Ended,
            CallState::Failed(s) => CallState::Failed(s.clone()),
            CallState::NoAnswer => CallState::NoAnswer,
            CallState::Busy => CallState::Busy,
        }
    }
}

fn two_digit_string(n: u64) -> (s: String)
    requires
        n < 100,
    ensures
        s@ == two_digits(n as nat),
{
    if n < 10 {
        let mut s = String::from_str("0");
        s.append(decimal_string(n).as_str());
        proof {
            reveal_strlit("0");
        }
        assert(s@ =~= seq!['0'] + decimal(n as nat));
        s
    } else {
        decimal_string(n)
    }
}

impl Call {
    /// Create a new call: initiating now, not yet answered or ended.
    pub fn new(to_number: String, from_number: String) -> (c: Call)
        ensures
            c@.to_number == to_number@,
            c@.from_number == from_number@,
            c@.state == CallStateView::Initiating,
            c@.answered_at is None,
            c@.ended_at is None,
            c@.duration_seconds is None,
            c@.provider_call_id is None,
    {
        Call {
            id: new_id(),
            to_number,
            from_number,
            state: CallState::Initiating,
            initiated_at: now_micros(),
            answered_at: None,
            ended_at: None,
            duration_seconds: None,
            provider_call_id: None,
        }
    }

    /// A copy with the same contents.
    pub fn duplicate(&self) -> (r: Call)
        ensures
            r@ == self@,
    {
        Call {
            id: self.id,
            to_number: self.to_number.clone(),
            from_number: self.from_number.clone(),
            state: self.state.duplicate(),
            initiated_at: self.initiated_at,
            answered_at: self.answered_at,
            ended_at: self.ended_at,
            duration_seconds: self.duration_seconds,
            provider_call_id: copy_opt_text(&self.provider_call_id),
        }
    }

    /// Mark the call as connected, answered now.
    pub fn connect(&mut self)
        ensures
            same_call(final(self)@, old(self)@),
            final(self)@.state == CallStateView::Connected,
            final(self)@.answered_at is Some,
            final(self)@.ended_at == old(self)@.ended_at,
            final(self)@.duration_seconds == old(self)@.duration_seconds,
    {
        self.state = CallState::Connected;
        self.answered_at = Some(now_micros());
    }

    /// End the call now. An answered call gets its duration: the whole
    /// seconds from answering to ending (cut to 32 bits as `as u32` does).
    pub fn end(&mut self)
        ensures
            same_call(final(self)@, old(self)@),
            final(self)@.state == CallStateView::Ended,
            final(self)@.answered_at == old(self)@.answered_at,
            final(self)@.ended_at is Some,
            match old(self)@.answered_at {
                Some(a) => final(self)@.duration_seconds == Some(
                    whole_seconds_between(a, final(self)@.ended_at->0) as u32,
                ),
                None => final(self)@.duration_seconds == old(self)@.duration_seconds,
            },
    {
        let now = now_micros();
        self.state = CallState::Ended;
        self.ended_at = Some(now);
        if let Some(answered) = self.answered_at {
            let d: i128 = now as i128 - answered as i128;
            let secs: i128 = if d >= 0 {
                d / 1_000_000
            } else {
                -((-d) / 1_000_000)
            };
            self.duration_seconds = Some(secs as u32);
        }
    }

    /// Mark the call as failed, ending now.
    pub fn fail(&mut self, reason: String)
        ensures
            same_call(final(self)@, old(self)@),
            final(self)@.state == CallStateView::Failed(reason@),
            final(self)@.answered_at == old(self)@.answered_at,
            final(self)@.ended_at is Some,
            final(self)@.duration_seconds == old(self)@.duration_seconds,
    {
        self.state = CallState::Failed(reason);
        self.ended_at = Some(now_micros());
    }

    /// Check if the call is active
    pub fn is_active(&self) -> (b: bool)
        ensures
            b == call_is_active(self@.state),
    {
        matches!(self.state, CallState::Connected | CallState::OnHold | CallState::Ringing)
    }

    /// Check if the call has ended
    pub fn is_ended(&self) -> (b: bool)
        ensures
            b == call_is_ended(self@.state),
    {
        matches!(self.state, CallState::Ended | CallState::Failed(_) | CallState::NoAnswer | CallState::Busy)
    }

    /// Get call duration as a formatted string: `M:SS`, or `0:00` without one.
    pub fn duration_string(&self) -> (s: String)
        ensures
            s@ == match self.duration_seconds {
                Some(secs) => minutes_seconds(secs as nat),
                None => "0:00"@,
            },
    {
        match self.duration_seconds {
            Some(secs) => {
                let mins = secs / 60;
                let remaining_secs = secs % 60;
                let mut s = decimal_string(mins as u64);
                s.append(":");
                s.append(two_digit_string(remaining_secs as u64).as_str());
                s
            },
            None => String::from_str("0:00"),
        }
    }
}

/// Audio stream direction.
#[derive(Debug, Clone, Copy, PartialEq, Eq, Structural)]
pub enum AudioDirection {
    /// Audio from the remote party (incoming)
    Inbound,
    /// Audio to be sent to the remote party (outgoing)
    Outbound,
}

/// Audio data chunk.
#[derive(Debug, Clone)]
pub struct AudioChunk {
    /// The audio data
    pub data: Vec<u8>,
    /// Direction of the audio
    pub direction: AudioDirection,
    /// Sample rate (e.g., 8000, 16000)
    pub sample_rate: u32,
    /// Timestamp, in microseconds since the Unix epoch
    pub timestamp: i64,
}

impl AudioChunk {
    pub fn new(data: Vec<u8>, direction: AudioDirection, sample_rate: u32) -> (c: AudioChunk)
        ensures
            c.data == data,
            c.direction == direction,
            c.sample_rate == sample_rate,
    {
        AudioChunk { data, direction, sample_rate, timestamp: now_micros() }
    }
}

pub open spec fn call_views(s: Seq<Call>) -> Seq<CallView> {
    s.map_values(|c: Call| c@)
}

/// `after` is `before` with the first call of identifier `id`, if any, ended:
/// that call keeps its identity and is ended at some time; every other call
/// is unchanged.
pub open spec fn ended_in_log(before: Seq<CallView>, after: Seq<CallView>, id: u128) -> bool {
    &&& after.len() == before.len()
    &&& forall|i: int|
        0 <= i < before.len() ==> {
            let b = #[trigger] before[i];
            let a = after[i];
            if b.id == id && (forall|j: int| 0 <= j < i ==> before[j].id != id) {
                same_call(a, b) && a.state == CallStateView::Ended && a.ended_at is Some
            } else {
                a == b
            }
        }
}

/// The calls a provider has placed, in order.
pub struct CallLog {
    calls: Vec<Call>,
}

impl CallLog {
    pub closed spec fn calls(&self) -> Seq<CallView> {
        call_views(self.calls@)
    }

    pub fn new() -> (l: CallLog)
        ensures
            l.calls() == Seq::<CallView>::empty(),
    {
        let l = CallLog { calls: Vec::new() };
        assert(l.calls() =~= Seq::<CallView>::empty());
        l
    }

    /// Record a call at the end of the log.
    pub fn record(&mut self, call: Call)
        ensures
            final(self).calls() == old(self).calls().push(call@),
    {
        let ghost before = self.calls@;
        let ghost v = call@;
        self.calls.push(call);
        assert(call_views(self.calls@) =~= call_views(before).push(v));
    }

    /// End the first recorded call with identifier `id`, if there is one.
    pub fn end(&mut self, id: u128)
        ensures
            ended_in_log(old(self).calls(), final(self).calls(), id),
    {
        let n = self.calls.len();
        let mut i: usize = 0;
        while i < n
            invariant
                n == self.calls@.len(),
                self.calls@ == old(self).calls@,
                i <= n,
                forall|j: int| 0 <= j < i ==> old(self).calls()[j].id != id,
            decreases n - i,
        {
            if self.calls[i].id == id {
                let mut c = self.calls[i].duplicate();
                let ghost orig = c@;
                c.end();
                let ghost before = call_views(self.calls@);
                let ghost ended = c@;
                self.calls.set(i, c);
                assert(call_views(self.calls@) =~= before.update(i as int, ended));
                assert(before == old(self).calls());
                assert(orig == before[i as int]);
                assert forall|k: int| 0 <= k < before.len() implies {
                    let b = #[trigger] before[k];
                    let a = self.calls()[k];
                    if b.id == id && (forall|j: int| 0 <= j < k ==> before[j].id != id) {
                        same_call(a, b) && a.state == CallStateView::Ended && a.ended_at is Some
                    } else {
                        a == b
                    }
                } by {
                    if k < i {
                        assert(self.calls()[k] == before[k]);
                    } else if k > i {
                        assert(self.calls()[k] == before[k]);
                        if before[k].id == id {
                            assert(before[i as int].id == id);
                        }
                    } else {
                        assert(self.calls()[k] == ended);
                    }
                }
                return;
            }
            i = i + 1;
        }
    }
}

} // verus!
