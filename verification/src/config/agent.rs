//! Agent configuration: the agent's personality and operating style.

use vstd::prelude::*;

verus! {

#[derive(Debug, Clone, Copy, PartialEq, Eq, Structural)]
pub enum Tone {
    /// Professional and businesslike
    Professional,
    /// Warm but professional
    WarmProfessional,
    /// Friendly and casual
    Friendly,
    /// Very direct, no small talk
    Direct,
}

#[derive(Debug, Clone, Copy, PartialEq, Eq, Structural)]
pub enum NegotiationStyle {
    /// Work together to find solutions
    Collaborative,
    /// Collaborative but firm on key points
    CollaborativeFirm,
    /// Start with strong position, negotiate down
    Anchoring,
    /// Accept reasonable offers quickly
    Accommodating,
}

#[derive(Debug, Clone, Copy, PartialEq, Eq, Structural)]
pub enum PatienceLevel {
    /// Will wait and be very understanding
    High,
    /// Reasonable patience
    Medium,
    /// Prefers quick resolution
    Low,
}

#[derive(Debug, Clone, Copy, PartialEq, Eq, Structural)]
pub enum AssertivenessLevel {
    /// Very gentle, avoids pushback
    Low,
    /// Balanced assertiveness
    Moderate,
    /// Pushes firmly for outcomes
    High,
}

#[derive(Debug, Clone, Copy, PartialEq, Eq, Structural)]
pub enum Verbosity {
    /// Very brief responses
    Terse,
    /// Clear but not wordy
    Concise,
    /// Thorough explanations
    Detailed,
}

impl Default for Tone {
    fn default() -> (r: Tone)
        ensures
            r == Tone::WarmProfessional,
    {
        Tone::WarmProfessional
    }
}

impl Default for NegotiationStyle {
    fn default() -> (r: NegotiationStyle)
        ensures
            r == NegotiationStyle::Collaborative,
    {
        NegotiationStyle::Collaborative
    }
}

impl Default for PatienceLevel {
    fn default() -> (r: PatienceLevel)
        ensures
            r == PatienceLevel::Medium,
    {
        PatienceLevel::Medium
    }
}

impl Default for AssertivenessLevel {
    fn default() -> (r: AssertivenessLevel)
        ensures
            r == AssertivenessLevel::Moderate,
    {
        AssertivenessLevel::Moderate
    }
}

impl Default for Verbosity {
    fn default() -> (r: Verbosity)
        ensures
            r == Verbosity::Concise,
    {
        Verbosity::Concise
    }
}

/// The agent's personality: how it shows up in conversations.
#[derive(Debug, Clone, Copy, PartialEq, Eq, Structural)]
pub struct AgentPersonality {
    pub tone: Tone,
    pub negotiation_style: NegotiationStyle,
    pub patience: PatienceLevel,
    pub assertiveness: AssertivenessLevel,
    pub verbosity: Verbosity,
}

#[derive(Debug, Clone)]
pub struct AgentCustomValue {
    pub name: String,
    pub principle: String,
}

/// The agent's operating values: its principles.
#[derive(Debug, Clone)]
pub struct AgentValues {
    /// Respect for others on the call
    pub respect: String,
    /// Persistence in achieving goals
    pub persistence: String,
    /// Transparency about being an AI assistant
    pub transparency: String,
    /// Additional custom values
    pub custom: Vec<AgentCustomValue>,
}

/// Operational parameters.
#[derive(Debug, Clone, Copy, PartialEq, Eq, Structural)]
pub struct AgentOperations {
    /// Maximum call duration in minutes before escalating
    pub max_call_duration_minutes: u32,
    /// How many times to retry a failed call
    pub retry_attempts: u32,
    /// Seconds to wait between retries
    pub retry_delay_seconds: u32,
    /// Whether to record calls (for review)
    pub record_calls: bool,
}

/// Agent configuration: Karta's personality.
#[derive(Debug, Clone)]
pub struct AgentConfig {
    /// The agent's name (what it calls itself)
    pub name: String,
    pub personality: AgentPersonality,
    pub values: AgentValues,
    pub operations: AgentOperations,
}

// ---------------------------------------------------------------------------
// Defaults
// ---------------------------------------------------------------------------

pub fn default_agent_name() -> (s: String)
    ensures
        s@ == "Karta"@,
{
    String::from_str("Karta")
}

pub fn default_respect() -> (s: String)
    ensures
        s@ == "Always be respectful to the person on the other end"@,
{
    String::from_str("Always be respectful to the person on the other end")
}

pub fn default_persistence() -> (s: String)
    ensures
        s@ == "Don't give up easily but know when to escalate"@,
{
    String::from_str("Don't give up easily but know when to escalate")
}

pub fn default_transparency() -> (s: String)
    ensures
        s@ == "Be upfront about acting on someone's behalf"@,
{
    String::from_str("Be upfront about acting on someone's behalf")
}

/// The call duration limit that a configuration file gets where it names none.
pub fn default_max_call_duration() -> (m: u32)
    ensures
        m == 30,
{
    30
}

/// The number of retries that a configuration file gets where it names none.
pub fn default_retry_attempts() -> (n: u32)
    ensures
        n == 3,
{
    3
}

/// The delay between retries that a configuration file gets where it names none.
pub fn default_retry_delay() -> (s: u32)
    ensures
        s == 60,
{
    60
}

impl Default for AgentPersonality {
    fn default() -> (p: AgentPersonality)
        ensures
            p == (AgentPersonality {
                tone: Tone::WarmProfessional,
                negotiation_style: NegotiationStyle::Collaborative,
                patience: PatienceLevel::Medium,
                assertiveness: AssertivenessLevel::Moderate,
                verbosity: Verbosity::Concise,
            }),
    {
        AgentPersonality {
            tone: Tone::default(),
            negotiation_style: NegotiationStyle::default(),
            patience: PatienceLevel::default(),
            assertiveness: AssertivenessLevel::default(),
            verbosity: Verbosity::default(),
        }
    }
}

impl Default for AgentValues {
    fn default() -> (v: AgentValues)
        ensures
            v.respect@ == "Always be respectful to the person on the other end"@,
            v.persistence@ == "Don't give up easily but know when to escalate"@,
            v.transparency@ == "Be upfront about acting on someone's behalf"@,
            v.custom@.len() == 0,
    {
        AgentValues {
            respect: default_respect(),
            persistence: default_persistence(),
            transparency: default_transparency(),
            custom: Vec::new(),
        }
    }
}

impl Default for AgentOperations {
    /// All limits zero and no recording (the values a configuration file's
    /// omitted fields get are those of the `default_*` functions instead).
    fn default() -> (o: AgentOperations)
        ensures
            o == (AgentOperations {
                max_call_duration_minutes: 0,
                retry_attempts: 0,
                retry_delay_seconds: 0,
                record_calls: false,
            }),
    {
        AgentOperations {
            max_call_duration_minutes: 0,
            retry_attempts: 0,
            retry_delay_seconds: 0,
            record_calls: false,
        }
    }
}

/// The default agent: Karta, warm but professional, collaborative, with the
/// default principles and no operational limits set.
pub open spec fn is_default_agent(c: AgentConfig) -> bool {
    &&& c.name@ == "Karta"@
    &&& c.personality == (AgentPersonality {
        tone: Tone::WarmProfessional,
        negotiation_style: NegotiationStyle::Collaborative,
        patience: PatienceLevel::Medium,
        assertiveness: AssertivenessLevel::Moderate,
        verbosity: Verbosity::Concise,
    })
    &&& c.values.respect@ == "Always be respectful to the person on the other end"@
    &&& c.values.persistence@ == "Don't give up easily but know when to escalate"@
    &&& c.values.transparency@ == "Be upfront about acting on someone's behalf"@
    &&& c.values.custom@.len() == 0
    &&& c.operations == (AgentOperations {
        max_call_duration_minutes: 0,
        retry_attempts: 0,
        retry_delay_seconds: 0,
        record_calls: false,
    })
}

impl Default for AgentConfig {
    fn default() -> (c: AgentConfig)
        ensures
            is_default_agent(c),
    {
        AgentConfig {
            name: default_agent_name(),
            personality: AgentPersonality::default(),
            values: AgentValues::default(),
            operations: AgentOperations::default(),
        }
    }
}

// ---------------------------------------------------------------------------
// The system prompt
// ---------------------------------------------------------------------------

pub open spec fn tone_description(t: Tone) -> Seq<char> {
    match t {
        Tone::Professional => "professional and businesslike"@,
        Tone::WarmProfessional => "warm but professional"@,
        Tone::Friendly => "friendly and approachable"@,
        Tone::Direct => "direct and efficient, minimal small talk"@,
    }
}

pub open spec fn negotiation_description(n: NegotiationStyle) -> Seq<char> {
    match n {
        NegotiationStyle::Collaborative => "work collaboratively to find mutually beneficial solutions"@,
        NegotiationStyle::CollaborativeFirm => "be collaborative but firm on key points"@,
        NegotiationStyle::Anchoring => "start with a strong position and negotiate from there"@,
        NegotiationStyle::Accommodating => "be accommodating and accept reasonable offers"@,
    }
}

pub open spec fn assertiveness_description(a: AssertivenessLevel) -> Seq<char> {
    match a {
        AssertivenessLevel::Low => "gentle and avoid confrontation"@,
        AssertivenessLevel::Moderate => "balanced - push when needed but don't be aggressive"@,
        AssertivenessLevel::High => "assertive in pursuing the goals"@,
    }
}

pub open spec fn patience_description(p: PatienceLevel) -> Seq<char> {
    match p {
        PatienceLevel::High => "very patient and understanding, willing to wait"@,
        PatienceLevel::Medium => "reasonably patient"@,
        PatienceLevel::Low => "prefer a quick resolution"@,
    }
}

pub open spec fn verbosity_description(v: Verbosity) -> Seq<char> {
    match v {
        Verbosity::Terse => "very brief responses"@,
        Verbosity::Concise => "clear but not wordy"@,
        Verbosity::Detailed => "thorough explanations"@,
    }
}

/// The prompt up to the agent's patience: who it is, its tone, negotiation
/// approach and assertiveness.
pub open spec fn prompt_opening(c: AgentConfig) -> Seq<char> {
    "You are "@ + c.name@ + ", an AI assistant acting on behalf of a principal.\n\nPERSONALITY:\n- Tone: "@
        + tone_description(c.personality.tone) + "\n- Negotiation approach: "@
        + negotiation_description(c.personality.negotiation_style) + "\n- Assertiveness: "@
        + assertiveness_description(c.personality.assertiveness) + "\n- Patience: "@
}

/// The prompt after the agent's verbosity: its values and how it behaves on
/// a call.
pub open spec fn prompt_closing(c: AgentConfig) -> Seq<char> {
    "\n\nCORE VALUES:\n- Respect: "@ + c.values.respect@ + "\n- Persistence: "@ + c.values.persistence@
        + "\n- Transparency: "@ + c.values.transparency@
        + "\n\nWhen on a call:\n1. Introduce yourself as "@ + c.name@
        + ", calling on behalf of the principal\n2. Be "@ + tone_description(c.personality.tone)
        + " in all interactions\n3. "@ + negotiation_description(c.personality.negotiation_style)
        + "\n4. If you need input from the principal, pause and request it\n5. Stay within the boundaries set by the principal\n"@
}

/// The system prompt that encodes the agent's personality and values: every
/// part of the personality has a line of its own.
pub open spec fn agent_prompt(c: AgentConfig) -> Seq<char> {
    prompt_opening(c) + patience_description(c.personality.patience) + "\n- Verbosity: "@
        + verbosity_description(c.personality.verbosity) + prompt_closing(c)
}

/// The prompt encodes the agent's patience and verbosity: two agents that
/// differ in either one, and agree on what comes before it in the prompt,
/// get different prompts.
pub proof fn law_prompt_shows_patience_and_verbosity(a: AgentConfig, b: AgentConfig)
    requires
        a.name@ == b.name@,
        a.personality.tone == b.personality.tone,
        a.personality.negotiation_style == b.personality.negotiation_style,
        a.personality.assertiveness == b.personality.assertiveness,
    ensures
        a.personality.patience != b.personality.patience ==> agent_prompt(a) != agent_prompt(b),
        a.personality.patience == b.personality.patience && a.personality.verbosity
            != b.personality.verbosity ==> agent_prompt(a) != agent_prompt(b),
{
    reveal_strlit("very patient and understanding, willing to wait");
    reveal_strlit("reasonably patient");
    reveal_strlit("prefer a quick resolution");
    reveal_strlit("very brief responses");
    reveal_strlit("clear but not wordy");
    reveal_strlit("thorough explanations");
    reveal_strlit("\n- Verbosity: ");
    let o = prompt_opening(a);
    assert(o == prompt_opening(b));
    let pa = patience_description(a.personality.patience);
    let pb = patience_description(b.personality.patience);
    let va = verbosity_description(a.personality.verbosity);
    let vb = verbosity_description(b.personality.verbosity);
    let mid = "\n- Verbosity: "@;
    let i = o.len() as int;
    assert(agent_prompt(a) == o + pa + mid + va + prompt_closing(a));
    assert(agent_prompt(b) == o + pb + mid + vb + prompt_closing(b));
    if a.personality.patience != b.personality.patience {
        assert(pa.len() > 0 && pb.len() > 0);
        assert(pa[0] != pb[0]);
        assert(agent_prompt(a)[i] == pa[0]);
        assert(agent_prompt(b)[i] == pb[0]);
    } else if a.personality.verbosity != b.personality.verbosity {
        let j = (o.len() + pa.len() + mid.len()) as int;
        assert(va.len() > 0 && vb.len() > 0);
        assert(va[0] != vb[0]);
        assert(agent_prompt(a)[j] == va[0]);
        assert(agent_prompt(b)[j] == vb[0]);
    }
}

fn patience_text(p: PatienceLevel) -> (s: &'static str)
    ensures
        s@ == patience_description(p),
{
    match p {
        PatienceLevel::High => "very patient and understanding, willing to wait",
        PatienceLevel::Medium => "reasonably patient",
        PatienceLevel::Low => "prefer a quick resolution",
    }
}

fn verbosity_text(v: Verbosity) -> (s: &'static str)
    ensures
        s@ == verbosity_description(v),
{
    match v {
        Verbosity::Terse => "very brief responses",
        Verbosity::Concise => "clear but not wordy",
        Verbosity::Detailed => "thorough explanations",
    }
}

fn tone_text(t: Tone) -> (s: &'static str)
    ensures
        s@ == tone_description(t),
{
    match t {
        Tone::Professional => "professional and businesslike",
        Tone::WarmProfessional => "warm but professional",
        Tone::Friendly => "friendly and approachable",
        Tone::Direct => "direct and efficient, minimal small talk",
    }
}

fn negotiation_text(n: NegotiationStyle) -> (s: &'static str)
    ensures
        s@ == negotiation_description(n),
{
    match n {
        NegotiationStyle::Collaborative => "work collaboratively to find mutually beneficial solutions",
        NegotiationStyle::CollaborativeFirm => "be collaborative but firm on key points",
        NegotiationStyle::Anchoring => "start with a strong position and negotiate from there",
        NegotiationStyle::Accommodating => "be accommodating and accept reasonable offers",
    }
}

fn assertiveness_text(a: AssertivenessLevel) -> (s: &'static str)
    ensures
        s@ == assertiveness_description(a),
{
    match a {
        AssertivenessLevel::Low => "gentle and avoid confrontation",
        AssertivenessLevel::Moderate => "balanced - push when needed but don't be aggressive",
        AssertivenessLevel::High => "assertive in pursuing the goals",
    }
}

impl AgentConfig {
    /// Generate a system prompt that encodes the agent's personality
    pub fn to_system_prompt(&self) -> (p: String)
        ensures
            p@ == agent_prompt(*self),
    {
        let tone = tone_text(self.personality.tone);
        let negotiation = negotiation_text(self.personality.negotiation_style);
        let mut p = String::from_str("You are ");
        p.append(self.name.as_str());
        p.append(", an AI assistant acting on behalf of a principal.\n\nPERSONALITY:\n- Tone: ");
        p.append(tone);
        p.append("\n- Negotiation approach: ");
        p.append(negotiation);
        p.append("\n- Assertiveness: ");
        p.append(assertiveness_text(self.personality.assertiveness));
        p.append("\n- Patience: ");
        let ghost opening = p@;
        p.append(patience_text(self.personality.patience));
        p.append("\n- Verbosity: ");
        p.append(verbosity_text(self.personality.verbosity));
        let ghost upto = p@;
        p.append("\n\nCORE VALUES:\n- Respect: ");
        p.append(self.values.respect.as_str());
        p.append("\n- Persistence: ");
        p.append(self.values.persistence.as_str());
        p.append("\n- Transparency: ");
        p.append(self.values.transparency.as_str());
        p.append("\n\nWhen on a call:\n1. Introduce yourself as ");
        p.append(self.name.as_str());
        p.append(", calling on behalf of the principal\n2. Be ");
        p.append(tone);
        p.append(" in all interactions\n3. ");
        p.append(negotiation);
        p.append(
            "\n4. If you need input from the principal, pause and request it\n5. Stay within the boundaries set by the principal\n",
        );
        assert(opening == prompt_opening(*self));
        assert(p@ =~= upto + prompt_closing(*self));
        p
    }
}

} // verus!
