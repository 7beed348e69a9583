//! What voice engines produce: responses, transcripts, and the tools the
//! conversational model may call.

use vstd::prelude::*;

verus! {

/// Who is speaking.
#[derive(Debug, Clone, Copy, PartialEq, Eq, Structural)]
pub enum Speaker {
    /// The agent (Karta)
    Agent,
    /// The remote party (person on the phone)
    Remote,
    /// The principal (the user)
    Principal,
    /// System message
    System,
}

/// A tool call requested by the agent; its arguments are JSON text.
#[derive(Debug, Clone)]
pub struct ToolCall {
    pub name: String,
    pub arguments: String,
}

/// Response from the voice engine.
#[derive(Debug, Clone)]
pub struct VoiceResponse {
    /// What was heard (speech-to-text)
    pub transcript_in: Option<String>,
    /// The agent's response text
    pub response_text: Option<String>,
    /// The agent's response audio
    pub response_audio: Option<Vec<u8>>,
    /// Whether the agent needs principal input
    pub needs_input: bool,
    /// Question for the principal (if needs_input is true)
    pub input_prompt: Option<String>,
    /// Tool calls the agent wants to make
    pub tool_calls: Vec<ToolCall>,
    /// Whether the conversation should end
    pub should_end: bool,
    /// Reason for ending (if should_end is true)
    pub end_reason: Option<String>,
}

impl Default for VoiceResponse {
    /// A response that hears, says and asks nothing.
    fn default() -> (r: VoiceResponse)
        ensures
            r.transcript_in is None,
            r.response_text is None,
            r.response_audio is None,
            !r.needs_input,
            r.input_prompt is None,
            r.tool_calls@.len() == 0,
            !r.should_end,
            r.end_reason is None,
    {
        VoiceResponse {
            transcript_in: None,
            response_text: None,
            response_audio: None,
            needs_input: false,
            input_prompt: None,
            tool_calls: Vec::new(),
            should_end: false,
            end_reason: None,
        }
    }
}

/// Real-time transcript event.
#[derive(Debug, Clone)]
pub struct TranscriptEvent {
    /// Who is speaking
    pub speaker: Speaker,
    /// The text (may be partial)
    pub text: String,
    /// Whether this is a final transcript or partial
    pub is_final: bool,
    /// Timestamp, in microseconds since the Unix epoch
    pub timestamp: i64,
}

/// Configuration for the voice session.
#[derive(Debug, Clone)]
pub struct VoiceSessionConfig {
    /// System prompt for the AI
    pub system_prompt: String,
    /// Voice to use for TTS
    pub voice: String,
    /// Language
    pub language: String,
    /// Whether to enable interruption handling
    pub enable_interruption: bool,
    /// Sample rate for audio
    pub sample_rate: u32,
}

impl Default for VoiceSessionConfig {
    fn default() -> (c: VoiceSessionConfig)
        ensures
            c.system_prompt@ == Seq::<char>::empty(),
            c.voice@ == "alloy"@,
            c.language@ == "en-US"@,
            c.enable_interruption,
            c.sample_rate == 16000,
    {
        VoiceSessionConfig {
            system_prompt: String::new(),
            voice: String::from_str("alloy"),
            language: String::from_str("en-US"),
            enable_interruption: true,
            sample_rate: 16000,
        }
    }
}

/// Tool definition for the voice engine; its parameters are a JSON schema,
/// as JSON text.
#[derive(Debug, Clone)]
pub struct ToolDefinition {
    pub name: String,
    pub description: String,
    pub parameters: String,
}

pub struct ToolDefinitionView {
    pub name: Seq<char>,
    pub description: Seq<char>,
    pub parameters: Seq<char>,
}

impl View for ToolDefinition {
    type V = ToolDefinitionView;

    open spec fn view(&self) -> ToolDefinitionView {
        ToolDefinitionView { name: self.name@, description: self.description@, parameters: self.parameters@ }
    }
}

/// The schema of `request_principal_input`: a question (required), optional
/// suggested responses, and an urgency of low, medium or high.
pub open spec fn request_input_schema() -> Seq<char> {
    "{\"properties\":{\"options\":{\"description\":\"Optional suggested responses\",\"items\":{\"type\":\"string\"},\"type\":\"array\"},\"question\":{\"description\":\"The question to ask the principal\",\"type\":\"string\"},\"urgency\":{\"description\":\"How urgent is this input needed\",\"enum\":[\"low\",\"medium\",\"high\"],\"type\":\"string\"}},\"required\":[\"question\"],\"type\":\"object\"}"@
}

/// The schema of `end_call`: a reason and a success flag, both required.
pub open spec fn end_call_schema() -> Seq<char> {
    "{\"properties\":{\"reason\":{\"description\":\"Why the call is ending\",\"type\":\"string\"},\"success\":{\"description\":\"Whether the task was completed successfully\",\"type\":\"boolean\"}},\"required\":[\"reason\",\"success\"],\"type\":\"object\"}"@
}

/// The schema of `note`: a category and a content, both required.
pub open spec fn note_schema() -> Seq<char> {
    "{\"properties\":{\"category\":{\"description\":\"Category of the note (e.g., 'price', 'date', 'contact')\",\"type\":\"string\"},\"content\":{\"description\":\"The note content\",\"type\":\"string\"}},\"required\":[\"category\",\"content\"],\"type\":\"object\"}"@
}

/// The standard tools, in order.
pub open spec fn standard_tool_views() -> Seq<ToolDefinitionView> {
    seq![
        ToolDefinitionView {
            name: "request_principal_input"@,
            description: "Request input from the principal when you need guidance or approval"@,
            parameters: request_input_schema(),
        },
        ToolDefinitionView {
            name: "end_call"@,
            description: "End the current call"@,
            parameters: end_call_schema(),
        },
        ToolDefinitionView {
            name: "note"@,
            description: "Record an important note or piece of information"@,
            parameters: note_schema(),
        },
    ]
}

fn tool(name: &str, description: &str, parameters: &str) -> (t: ToolDefinition)
    ensures
        t@ == (ToolDefinitionView { name: name@, description: description@, parameters: parameters@ }),
{
    ToolDefinition {
        name: String::from_str(name),
        description: String::from_str(description),
        parameters: String::from_str(parameters),
    }
}

/// Standard tools available to the voice engine
pub fn standard_tools() -> (v: Vec<ToolDefinition>)
    ensures
        v@.map_values(|t: ToolDefinition| t@) == standard_tool_views(),
{
    let mut v: Vec<ToolDefinition> = Vec::new();
    v.push(
        tool(
            "request_principal_input",
            "Request input from the principal when you need guidance or approval",
            "{\"properties\":{\"options\":{\"description\":\"Optional suggested responses\",\"items\":{\"type\":\"string\"},\"type\":\"array\"},\"question\":{\"description\":\"The question to ask the principal\",\"type\":\"string\"},\"urgency\":{\"description\":\"How urgent is this input needed\",\"enum\":[\"low\",\"medium\",\"high\"],\"type\":\"string\"}},\"required\":[\"question\"],\"type\":\"object\"}",
        ),
    );
    v.push(
        tool(
            "end_call",
            "End the current call",
            "{\"properties\":{\"reason\":{\"description\":\"Why the call is ending\",\"type\":\"string\"},\"success\":{\"description\":\"Whether the task was completed successfully\",\"type\":\"boolean\"}},\"required\":[\"reason\",\"success\"],\"type\":\"object\"}",
        ),
    );
    v.push(
        tool(
            "note",
            "Record an important note or piece of information",
            "{\"properties\":{\"category\":{\"description\":\"Category of the note (e.g., 'price', 'date', 'contact')\",\"type\":\"string\"},\"content\":{\"description\":\"The note content\",\"type\":\"string\"}},\"required\":[\"category\",\"content\"],\"type\":\"object\"}",
        ),
    );
    assert(v@.map_values(|t: ToolDefinition| t@) =~= standard_tool_views());
    v
}

} // verus!
