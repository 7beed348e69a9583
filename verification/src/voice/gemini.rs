//! Gemini Live: the messages Karta sends to Google's real-time voice API and
//! what it makes of the replies. The WebSocket itself is the program's; the
//! library composes each message as JSON text, and takes each reply as the
//! values it reads from it.

use base64::Engine;
use vstd::prelude::*;

use crate::error::KartaError;
use crate::clock::now_micros;
use crate::json::{json_string, json_string_text};
use crate::text::{has_prefix, str_starts_with};
use crate::voice::engine::{
    standard_tool_views, standard_tools, ToolCall, ToolDefinition, ToolDefinitionView,
    TranscriptEvent, Speaker, VoiceResponse,
};

verus! {

// ---------------------------------------------------------------------------
// Base64
// ---------------------------------------------------------------------------

/// The standard (padded) base64 text of some bytes.
pub uninterp spec fn base64_text(data: Seq<u8>) -> Seq<char>;

/// The bytes that a text decodes to under standard base64, or `None` where
/// it is not valid base64.
pub uninterp spec fn base64_bytes(text: Seq<char>) -> Option<Seq<u8>>;

/// Encodes bytes with `base64::engine::general_purpose::STANDARD.encode`.
/// The contract names the result. (`encode` panics where the encoded length
/// overflows `usize`; `requires` keeps the input below that.)
#[verifier::external_body]
fn base64_encode(data: &[u8]) -> (r: String)
    requires
        data@.len() / 3 * 4 + 4 <= usize::MAX,
    ensures
        r@ == base64_text(data@),
{
    base64::engine::general_purpose::STANDARD.encode(data)
}

/// Decodes text with `base64::engine::general_purpose::STANDARD.decode`,
/// giving `None` for the decoding error. The contract names the result.
#[verifier::external_body]
fn base64_decode(data: &str) -> (r: Option<Vec<u8>>)
    ensures
        match base64_bytes(data@) {
            Some(b) => r is Some && r->0@ == b,
            None => r is None,
        },
{
    base64::engine::general_purpose::STANDARD.decode(data).ok()
}

// ---------------------------------------------------------------------------
// Replies from Gemini: the values the library reads from them
// ---------------------------------------------------------------------------

#[derive(Debug, Clone)]
pub struct InlineData {
    pub mime_type: String,
    pub data: String,
}

#[derive(Debug, Clone)]
pub struct Part {
    pub text: Option<String>,
    pub inline_data: Option<InlineData>,
}

#[derive(Debug, Clone)]
pub struct ModelTurn {
    pub parts: Vec<Part>,
}

#[derive(Debug, Clone)]
pub struct ServerContent {
    pub model_turn: Option<ModelTurn>,
    pub turn_complete: Option<bool>,
}

/// A function call in a reply: its name, its arguments as JSON text, and the
/// string members `question` and `reason` of the arguments where they are
/// strings.
#[derive(Debug, Clone)]
pub struct FunctionCall {
    pub name: String,
    pub args: String,
    pub question: Option<String>,
    pub reason: Option<String>,
}

#[derive(Debug, Clone)]
pub struct ToolCallResponse {
    pub function_calls: Vec<FunctionCall>,
}

/// A reply from Gemini.
#[derive(Debug, Clone)]
pub struct GeminiResponse {
    pub server_content: Option<ServerContent>,
    pub tool_call: Option<ToolCallResponse>,
}

/// The parts of the model's turn in a reply (none where there is no turn).
pub open spec fn reply_parts(r: GeminiResponse) -> Seq<Part> {
    match r.server_content {
        Some(sc) => match sc.model_turn {
            Some(t) => t.parts@,
            None => Seq::empty(),
        },
        None => Seq::empty(),
    }
}

/// The function calls of a reply (none where it has no tool call).
pub open spec fn reply_calls(r: GeminiResponse) -> Seq<FunctionCall> {
    match r.tool_call {
        Some(tc) => tc.function_calls@,
        None => Seq::empty(),
    }
}

/// The text of the last part that has one.
pub open spec fn last_text(parts: Seq<Part>) -> Option<Seq<char>>
    decreases parts.len(),
{
    if parts.len() == 0 {
        None
    } else {
        match parts.last().text {
            Some(t) => Some(t@),
            None => last_text(parts.drop_last()),
        }
    }
}

/// The audio a part carries: inline data of an `audio/` type that decodes.
pub open spec fn part_audio(p: Part) -> Option<Seq<u8>> {
    match p.inline_data {
        Some(d) => if has_prefix(d.mime_type@, "audio/"@) {
            base64_bytes(d.data@)
        } else {
            None
        },
        None => None,
    }
}

/// The audio of the last part that carries some.
pub open spec fn last_audio(parts: Seq<Part>) -> Option<Seq<u8>>
    decreases parts.len(),
{
    if parts.len() == 0 {
        None
    } else {
        match part_audio(parts.last()) {
            Some(a) => Some(a),
            None => last_audio(parts.drop_last()),
        }
    }
}

pub open spec fn calls_named(calls: Seq<FunctionCall>, name: Seq<char>) -> bool {
    exists|i: int| 0 <= i < calls.len() && calls[i].name@ == name
}

/// The question of the last request for input that asks one.
pub open spec fn last_question(calls: Seq<FunctionCall>) -> Option<Seq<char>>
    decreases calls.len(),
{
    if calls.len() == 0 {
        None
    } else if calls.last().name@ == "request_principal_input"@ && calls.last().question is Some {
        Some(calls.last().question->0@)
    } else {
        last_question(calls.drop_last())
    }
}

/// The reason of the last request to end the call that gives one.
pub open spec fn last_reason(calls: Seq<FunctionCall>) -> Option<Seq<char>>
    decreases calls.len(),
{
    if calls.len() == 0 {
        None
    } else if calls.last().name@ == "end_call"@ && calls.last().reason is Some {
        Some(calls.last().reason->0@)
    } else {
        last_reason(calls.drop_last())
    }
}

pub open spec fn opt_view(o: Option<String>) -> Option<Seq<char>> {
    match o {
        Some(s) => Some(s@),
        None => None,
    }
}

pub open spec fn opt_bytes(o: Option<Vec<u8>>) -> Option<Seq<u8>> {
    match o {
        Some(b) => Some(b@),
        None => None,
    }
}

/// What the engine makes of a reply: the last text and audio of the model's
/// turn, every function call as a tool call, a request for the principal's
/// input where the model asks for one, and the end of the call where the
/// model calls for it.
pub open spec fn response_of_reply(reply: GeminiResponse, r: VoiceResponse) -> bool {
    let parts = reply_parts(reply);
    let calls = reply_calls(reply);
    &&& r.transcript_in is None
    &&& opt_view(r.response_text) == last_text(parts)
    &&& opt_bytes(r.response_audio) == last_audio(parts)
    &&& r.tool_calls@.len() == calls.len()
    &&& forall|i: int|
        0 <= i < calls.len() ==> (#[trigger] r.tool_calls@[i]).name@ == calls[i].name@
            && r.tool_calls@[i].arguments@ == calls[i].args@
    &&& r.needs_input == calls_named(calls, "request_principal_input"@)
    &&& opt_view(r.input_prompt) == last_question(calls)
    &&& r.should_end == calls_named(calls, "end_call"@)
    &&& opt_view(r.end_reason) == last_reason(calls)
}

fn is_named(s: &String, name: &str) -> (b: bool)
    ensures
        b == (s@ == name@),
{
    let n = String::from_str(name);
    *s == n
}

/// Process a reply from Gemini into a voice response.
pub fn process_gemini_response(reply: &GeminiResponse) -> (r: VoiceResponse)
    ensures
        response_of_reply(*reply, r),
{
    let mut response = VoiceResponse::default();
    let empty: Vec<Part> = Vec::new();
    let parts: &Vec<Part> = match &reply.server_content {
        Some(sc) => match &sc.model_turn {
            Some(t) => &t.parts,
            None => &empty,
        },
        None => &empty,
    };
    assert(parts@ == reply_parts(*reply));
    let n = parts.len();
    let mut i: usize = 0;
    while i < n
        invariant
            n == parts@.len(),
            i <= n,
            opt_view(response.response_text) == last_text(parts@.take(i as int)),
            opt_bytes(response.response_audio) == last_audio(parts@.take(i as int)),
            response.transcript_in is None,
            !response.needs_input,
            response.input_prompt is None,
            response.tool_calls@.len() == 0,
            !response.should_end,
            response.end_reason is None,
        decreases n - i,
    {
        let part = &parts[i];
        assert(parts@.take(i + 1).drop_last() =~= parts@.take(i as int));
        if let Some(text) = &part.text {
            response.response_text = Some(text.clone());
        }
        if let Some(inline_data) = &part.inline_data {
            if str_starts_with(inline_data.mime_type.as_str(), "audio/") {
                if let Some(audio) = base64_decode(inline_data.data.as_str()) {
                    response.response_audio = Some(audio);
                }
            }
        }
        i = i + 1;
    }
    assert(parts@.take(n as int) =~= parts@);
    let no_calls: Vec<FunctionCall> = Vec::new();
    let calls: &Vec<FunctionCall> = match &reply.tool_call {
        Some(tc) => &tc.function_calls,
        None => &no_calls,
    };
    assert(calls@ == reply_calls(*reply));
    let m = calls.len();
    let mut j: usize = 0;
    while j < m
        invariant
            m == calls@.len(),
            j <= m,
            opt_view(response.response_text) == last_text(parts@),
            opt_bytes(response.response_audio) == last_audio(parts@),
            response.transcript_in is None,
            response.tool_calls@.len() == j,
            forall|k: int|
                0 <= k < j ==> (#[trigger] response.tool_calls@[k]).name@ == calls@[k].name@
                    && response.tool_calls@[k].arguments@ == calls@[k].args@,
            response.needs_input == calls_named(calls@.take(j as int), "request_principal_input"@),
            opt_view(response.input_prompt) == last_question(calls@.take(j as int)),
            response.should_end == calls_named(calls@.take(j as int), "end_call"@),
            opt_view(response.end_reason) == last_reason(calls@.take(j as int)),
        decreases m - j,
    {
        let fc = &calls[j];
        let ghost before = calls@.take(j as int);
        let ghost after = calls@.take(j + 1);
        assert(after.drop_last() =~= before);
        assert(after.last() == calls@[j as int]);
        response.tool_calls.push(ToolCall { name: fc.name.clone(), arguments: fc.args.clone() });
        if is_named(&fc.name, "request_principal_input") {
            response.needs_input = true;
            if let Some(q) = &fc.question {
                response.input_prompt = Some(q.clone());
            }
        }
        if is_named(&fc.name, "end_call") {
            response.should_end = true;
            if let Some(reason) = &fc.reason {
                response.end_reason = Some(reason.clone());
            }
        }
        proof {
            if calls_named(after, "request_principal_input"@) && !(calls@[j as int].name@ == "request_principal_input"@) {
                let k = choose|k: int| 0 <= k < after.len() && after[k].name@ == "request_principal_input"@;
                assert(before[k].name@ == "request_principal_input"@);
            }
            if calls_named(before, "request_principal_input"@) {
                let k = choose|k: int| 0 <= k < before.len() && before[k].name@ == "request_principal_input"@;
                assert(after[k].name@ == "request_principal_input"@);
            }
            if calls_named(after, "end_call"@) && !(calls@[j as int].name@ == "end_call"@) {
                let k = choose|k: int| 0 <= k < after.len() && after[k].name@ == "end_call"@;
                assert(before[k].name@ == "end_call"@);
            }
            if calls_named(before, "end_call"@) {
                let k = choose|k: int| 0 <= k < before.len() && before[k].name@ == "end_call"@;
                assert(after[k].name@ == "end_call"@);
            }
            if calls@[j as int].name@ == "request_principal_input"@ {
                assert(after[j as int].name@ == "request_principal_input"@);
            }
            if calls@[j as int].name@ == "end_call"@ {
                assert(after[j as int].name@ == "end_call"@);
            }
        }
        j = j + 1;
    }
    assert(calls@.take(m as int) =~= calls@);
    response
}

/// Parts that carry text.
pub open spec fn text_part() -> spec_fn(Part) -> bool {
    |p: Part| p.text is Some
}

/// The transcript of a reply: one final-or-partial agent line per text part.
pub open spec fn reply_transcript(reply: GeminiResponse, events: Seq<TranscriptEvent>) -> bool {
    let texts = reply_parts(reply).filter(text_part());
    let is_final = match reply.server_content {
        Some(sc) => match sc.turn_complete {
            Some(b) => b,
            None => false,
        },
        None => false,
    };
    &&& events.len() == texts.len()
    &&& forall|i: int|
        0 <= i < events.len() ==> {
            &&& (#[trigger] events[i]).speaker == Speaker::Agent
            &&& events[i].text@ == texts[i].text->0@
            &&& events[i].is_final == is_final
        }
}

/// The transcript events that a reply produces, one per text part of the
/// model's turn, final where the reply completes the turn.
pub fn transcript_of_reply(reply: &GeminiResponse) -> (v: Vec<TranscriptEvent>)
    ensures
        reply_transcript(*reply, v@),
{
    let mut v: Vec<TranscriptEvent> = Vec::new();
    let (parts, is_final) = match &reply.server_content {
        Some(sc) => {
            let f = match sc.turn_complete {
                Some(b) => b,
                None => false,
            };
            match &sc.model_turn {
                Some(t) => (Some(&t.parts), f),
                None => (None, f),
            }
        },
        None => (None, false),
    };
    if let Some(parts) = parts {
        let n = parts.len();
        let ghost pred = text_part();
        let mut i: usize = 0;
        while i < n
            invariant
                n == parts@.len(),
                parts@ == reply_parts(*reply),
                pred == text_part(),
                i <= n,
                v@.len() == parts@.take(i as int).filter(pred).len(),
                forall|k: int|
                    0 <= k < v@.len() ==> {
                        &&& (#[trigger] v@[k]).speaker == Speaker::Agent
                        &&& v@[k].text@ == parts@.take(i as int).filter(pred)[k].text->0@
                        &&& v@[k].is_final == is_final
                    },
            decreases n - i,
        {
            let ghost before = parts@.take(i as int);
            let ghost p = parts@[i as int];
            proof {
                assert(parts@.take(i + 1) =~= before.push(p));
                before.lemma_filter_push(p, pred);
            }
            if let Some(text) = &parts[i].text {
                assert(pred(p));
                let ghost prev = v@;
                v.push(TranscriptEvent { speaker: Speaker::Agent, text: text.clone(), is_final, timestamp: now_micros() });
                assert(before.push(p).filter(pred) == before.filter(pred).push(p));
                assert(v@.len() == prev.len() + 1);
            } else {
                assert(!pred(p));
            }
            i = i + 1;
        }
        assert(parts@.take(n as int) =~= parts@);
    } else {
        proof {
            reveal(Seq::filter);
        }
        assert(reply_parts(*reply).filter(text_part()) =~= Seq::<Part>::empty());
    }
    v
}

// ---------------------------------------------------------------------------
// Messages to Gemini
// ---------------------------------------------------------------------------

/// The JSON text of the session setup: the model, audio and text replies in
/// the Aoede voice, the system prompt, and the standard tools.
pub open spec fn setup_message(model: Seq<char>, system_prompt: Seq<char>) -> Seq<char> {
    "{\"model\":"@ + json_string_text("models/"@ + model)
        + ",\"generation_config\":{\"response_modalities\":[\"AUDIO\",\"TEXT\"],\"speech_config\":{\"voice_config\":{\"prebuilt_voice_config\":{\"voice_name\":\"Aoede\"}}}},\"system_instruction\":{\"parts\":[{\"text\":"@
        + json_string_text(system_prompt) + "}]},\"tools\":[{\"function_declarations\":"@
        + declarations(standard_tool_views()) + "}]}"@
}

/// One function declaration.
pub open spec fn declaration(t: ToolDefinitionView) -> Seq<char> {
    "{\"name\":"@ + json_string_text(t.name) + ",\"description\":"@ + json_string_text(t.description)
        + ",\"parameters\":"@ + t.parameters + "}"@
}

/// A JSON array of function declarations.
pub open spec fn declarations(ts: Seq<ToolDefinitionView>) -> Seq<char> {
    "["@ + declaration_items(ts) + "]"@
}

pub open spec fn declaration_items(ts: Seq<ToolDefinitionView>) -> Seq<char>
    decreases ts.len(),
{
    if ts.len() == 0 {
        Seq::empty()
    } else if ts.len() == 1 {
        declaration(ts[0])
    } else {
        declaration_items(ts.drop_last()) + ","@ + declaration(ts.last())
    }
}

/// The JSON text that sends the principal's words as a complete user turn.
pub open spec fn text_message(text: Seq<char>) -> Seq<char> {
    "{\"turns\":[{\"role\":\"user\",\"parts\":[{\"text\":"@ + json_string_text(text)
        + "}]}],\"turn_complete\":true}"@
}

/// The JSON text that streams a chunk of 16 kHz PCM audio.
pub open spec fn audio_message(audio: Seq<u8>) -> Seq<char> {
    "{\"media_chunks\":[{\"mime_type\":\"audio/pcm;rate=16000\",\"data\":"@ + json_string_text(
        base64_text(audio),
    ) + "}]}"@
}

/// The WebSocket endpoint of the live API for a key.
pub open spec fn gemini_websocket_url(api_key: Seq<char>) -> Seq<char> {
    "wss://generativelanguage.googleapis.com/ws/google.ai.generativelanguage.v1beta.GenerativeService.BidiGenerateContent?key="@
        + api_key
}

fn declaration_text(t: &ToolDefinition) -> (s: String)
    ensures
        s@ == declaration(t@),
{
    let mut s = String::from_str("{\"name\":");
    s.append(json_string(t.name.as_str()).as_str());
    s.append(",\"description\":");
    s.append(json_string(t.description.as_str()).as_str());
    s.append(",\"parameters\":");
    s.append(t.parameters.as_str());
    s.append("}");
    s
}

fn declarations_text(ts: &Vec<ToolDefinition>) -> (s: String)
    ensures
        s@ == declarations(ts@.map_values(|t: ToolDefinition| t@)),
{
    let ghost views = ts@.map_values(|t: ToolDefinition| t@);
    let mut items = String::new();
    let n = ts.len();
    let mut i: usize = 0;
    while i < n
        invariant
            n == ts@.len(),
            views == ts@.map_values(|t: ToolDefinition| t@),
            i <= n,
            items@ == declaration_items(views.take(i as int)),
        decreases n - i,
    {
        assert(views.take(i + 1).drop_last() =~= views.take(i as int));
        if i > 0 {
            items.append(",");
        }
        items.append(declaration_text(&ts[i]).as_str());
        i = i + 1;
    }
    assert(views.take(n as int) =~= views);
    let mut s = String::from_str("[");
    s.append(items.as_str());
    s.append("]");
    s
}

/// The state of a Gemini Live session that the library keeps: the key, the
/// model, and whether the session is under way.
pub struct GeminiLiveEngine {
    api_key: String,
    model: String,
    session_active: bool,
}

impl GeminiLiveEngine {
    pub closed spec fn key(&self) -> Seq<char> {
        self.api_key@
    }

    pub closed spec fn model_name(&self) -> Seq<char> {
        self.model@
    }

    pub closed spec fn active(&self) -> bool {
        self.session_active
    }

    pub fn new(api_key: String, model: String) -> (e: GeminiLiveEngine)
        ensures
            e.key() == api_key@,
            e.model_name() == model@,
            !e.active(),
    {
        GeminiLiveEngine { api_key, model, session_active: false }
    }

    /// Get the engine name
    pub fn name(&self) -> (s: &'static str)
        ensures
            s@ == "gemini-live"@,
    {
        "gemini-live"
    }

    /// Get the WebSocket URL for Gemini Live
    pub fn websocket_url(&self) -> (u: String)
        ensures
            u@ == gemini_websocket_url(self.key()),
    {
        let mut u = String::from_str(
            "wss://generativelanguage.googleapis.com/ws/google.ai.generativelanguage.v1beta.GenerativeService.BidiGenerateContent?key=",
        );
        u.append(self.api_key.as_str());
        u
    }

    /// The setup message that opens a session with a system prompt.
    pub fn setup_message(&self, system_prompt: &str) -> (m: String)
        ensures
            m@ == setup_message(self.model_name(), system_prompt@),
    {
        let mut model = String::from_str("models/");
        model.append(self.model.as_str());
        let mut m = String::from_str("{\"model\":");
        m.append(json_string(model.as_str()).as_str());
        m.append(
            ",\"generation_config\":{\"response_modalities\":[\"AUDIO\",\"TEXT\"],\"speech_config\":{\"voice_config\":{\"prebuilt_voice_config\":{\"voice_name\":\"Aoede\"}}}},\"system_instruction\":{\"parts\":[{\"text\":",
        );
        m.append(json_string(system_prompt).as_str());
        m.append("}]},\"tools\":[{\"function_declarations\":");
        let tools = standard_tools();
        m.append(declarations_text(&tools).as_str());
        m.append("}]}");
        m
    }

    /// The session is under way (its setup was sent).
    pub fn session_started(&mut self)
        ensures
            final(self).active(),
            final(self).key() == old(self).key(),
            final(self).model_name() == old(self).model_name(),
    {
        self.session_active = true;
    }

    /// End the current session
    pub fn end_session(&mut self)
        ensures
            !final(self).active(),
            final(self).key() == old(self).key(),
            final(self).model_name() == old(self).model_name(),
    {
        self.session_active = false;
    }

    /// The message that sends incoming audio; refused outside a session.
    pub fn audio_message(&self, audio: &[u8]) -> (r: Result<String, KartaError>)
        requires
            audio@.len() / 3 * 4 + 4 <= usize::MAX,
        ensures
            self.active() ==> r is Ok && r->Ok_0@ == audio_message(audio@),
            !self.active() ==> (r matches Err(KartaError::VoiceEngine(m)) && m@ == "Session not active"@),
    {
        if !self.session_active {
            return Err(KartaError::VoiceEngine(String::from_str("Session not active")));
        }
        let data = base64_encode(audio);
        let mut m = String::from_str("{\"media_chunks\":[{\"mime_type\":\"audio/pcm;rate=16000\",\"data\":");
        m.append(json_string(data.as_str()).as_str());
        m.append("}]}");
        Ok(m)
    }

    /// The message that sends text as a complete user turn; refused outside
    /// a session.
    pub fn text_message(&self, text: &str) -> (r: Result<String, KartaError>)
        ensures
            self.active() ==> r is Ok && r->Ok_0@ == text_message(text@),
            !self.active() ==> (r matches Err(KartaError::VoiceEngine(m)) && m@ == "Session not active"@),
    {
        if !self.session_active {
            return Err(KartaError::VoiceEngine(String::from_str("Session not active")));
        }
        let mut m = String::from_str("{\"turns\":[{\"role\":\"user\",\"parts\":[{\"text\":");
        m.append(json_string(text).as_str());
        m.append("}]}],\"turn_complete\":true}");
        Ok(m)
    }

    /// Check if the engine is connected: in a session, with a socket open.
    pub fn is_connected(&self, socket_open: bool) -> (b: bool)
        ensures
            b == (self.active() && socket_open),
    {
        self.session_active && socket_open
    }
}

} // verus!
