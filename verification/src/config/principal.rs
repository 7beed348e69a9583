//! Principal profile: the values, boundaries and preferences of the person
//! Karta acts for.

use vstd::prelude::*;

use crate::amount::Amount;
use crate::text::{lowercase_text, str_contains, text_contains, texts, to_lowercase};

verus! {

#[derive(Debug, Clone, Copy, PartialEq, Eq, Structural)]
pub enum PrivacyLevel {
    /// Share minimal information, only what's absolutely required
    Conservative,
    /// Share reasonable information where it helps the call
    Moderate,
    /// Share freely to expedite tasks
    Open,
}

#[derive(Debug, Clone, Copy, PartialEq, Eq, Structural)]
pub enum RiskLevel {
    /// Very careful with financial decisions
    Low,
    /// Reasonable risk tolerance
    Moderate,
    /// Willing to take calculated risks
    High,
}

#[derive(Debug, Clone, Copy, PartialEq, Eq, Structural)]
pub enum TimeSensitivity {
    /// Take time to get things right
    Relaxed,
    /// Balance speed and thoroughness
    Balanced,
    /// Prioritize speed
    Urgent,
}

#[derive(Debug, Clone, Copy, PartialEq, Eq, Structural)]
pub enum CommunicationStyle {
    /// Professional and courteous
    Professional,
    /// Warm and friendly
    Friendly,
    /// Direct and efficient
    Direct,
}

#[derive(Debug, Clone, Copy, PartialEq, Eq, Structural)]
pub enum VoicemailStrategy {
    /// Leave a message and wait
    LeaveMessage,
    /// Keep calling back
    KeepTrying,
    /// Escalate to principal
    Escalate,
}

impl Default for PrivacyLevel {
    fn default() -> (r: PrivacyLevel)
        ensures
            r == PrivacyLevel::Moderate,
    {
        PrivacyLevel::Moderate
    }
}

impl Default for RiskLevel {
    fn default() -> (r: RiskLevel)
        ensures
            r == RiskLevel::Moderate,
    {
        RiskLevel::Moderate
    }
}

impl Default for TimeSensitivity {
    fn default() -> (r: TimeSensitivity)
        ensures
            r == TimeSensitivity::Balanced,
    {
        TimeSensitivity::Balanced
    }
}

impl Default for CommunicationStyle {
    fn default() -> (r: CommunicationStyle)
        ensures
            r == CommunicationStyle::Professional,
    {
        CommunicationStyle::Professional
    }
}

impl Default for VoicemailStrategy {
    fn default() -> (r: VoicemailStrategy)
        ensures
            r == VoicemailStrategy::LeaveMessage,
    {
        VoicemailStrategy::LeaveMessage
    }
}

#[derive(Debug, Clone)]
pub struct CustomValue {
    pub name: String,
    pub description: String,
}

/// The principal's core values that guide agent behavior.
#[derive(Debug, Clone)]
pub struct PrincipalValues {
    /// Honesty policy - how transparent should the agent be?
    pub honesty: String,
    /// Privacy stance - how protective of the principal's information?
    pub privacy_level: PrivacyLevel,
    /// Financial risk tolerance
    pub financial_risk: RiskLevel,
    /// Time sensitivity - how important is speed vs. thoroughness?
    pub time_sensitivity: TimeSensitivity,
    /// Custom values
    pub custom: Vec<CustomValue>,
}

/// Hard boundaries that must never be crossed. Each list holds no text twice.
#[derive(Debug, Clone)]
pub struct PrincipalBoundaries {
    /// Maximum amount the agent can approve without checking with the principal
    pub max_auto_approve_amount: Amount,
    /// Information that CAN be shared
    pub share_allowed: Vec<String>,
    /// Information that must NEVER be shared
    pub share_never: Vec<String>,
    /// Commitments that require the principal's explicit approval
    pub never_commit_without_approval: Vec<String>,
    /// Actions that should always escalate to the principal
    pub always_escalate: Vec<String>,
}

/// Preferences for how things should be handled.
#[derive(Debug, Clone)]
pub struct PrincipalPreferences {
    /// Preferred times for appointments
    pub preferred_times: Vec<String>,
    /// Communication style preference
    pub communication_style: CommunicationStyle,
    /// How long to wait on hold before escalating
    pub hold_patience_minutes: u32,
    /// Whether to accept voicemail or keep trying
    pub voicemail_strategy: VoicemailStrategy,
}

/// The principal profile: the person Karta acts on behalf of.
#[derive(Debug, Clone)]
pub struct PrincipalProfile {
    pub name: String,
    pub location: Option<String>,
    pub email: Option<String>,
    pub phone: Option<String>,
    /// Core values that guide the agent
    pub values: PrincipalValues,
    /// Hard boundaries the agent must never cross
    pub boundaries: PrincipalBoundaries,
    /// Preferences for how things should be done
    pub preferences: PrincipalPreferences,
}

// ---------------------------------------------------------------------------
// Defaults
// ---------------------------------------------------------------------------

/// No text occurs twice.
pub open spec fn distinct_texts(s: Seq<Seq<char>>) -> bool {
    forall|i: int, j: int| 0 <= i < j < s.len() ==> s[i] != s[j]
}

pub fn default_honesty() -> (s: String)
    ensures
        s@ == "Always disclose AI status if directly asked"@,
{
    String::from_str("Always disclose AI status if directly asked")
}

pub fn default_privacy() -> (p: PrivacyLevel)
    ensures
        p == PrivacyLevel::Moderate,
{
    PrivacyLevel::Moderate
}

/// One hundred, the default limit for approving amounts without asking.
pub fn default_max_auto_approve() -> (a: Amount)
    ensures
        a.bits == 0x4059000000000000u64,
        a.text@ == "100"@,
{
    Amount { bits: 0x4059000000000000u64, text: String::from_str("100") }
}


pub open spec fn default_share_never_texts() -> Seq<Seq<char>> {
    seq!["ssn"@, "bank_account"@, "credit_card"@, "password"@]
}

pub open spec fn default_never_commit_texts() -> Seq<Seq<char>> {
    seq!["in-person meetings"@, "financial agreements"@, "legal documents"@]
}

pub open spec fn default_share_allowed_texts() -> Seq<Seq<char>> {
    seq!["name"@, "email"@, "phone"@]
}

pub fn default_share_never() -> (v: Vec<String>)
    ensures
        texts(v@) == default_share_never_texts(),
        distinct_texts(texts(v@)),
{
    let mut v: Vec<String> = Vec::new();
    v.push(String::from_str("ssn"));
    v.push(String::from_str("bank_account"));
    v.push(String::from_str("credit_card"));
    v.push(String::from_str("password"));
    proof {
        reveal_strlit("ssn");
        reveal_strlit("bank_account");
        reveal_strlit("credit_card");
        reveal_strlit("password");
    }
    assert(texts(v@) =~= default_share_never_texts());
    assert("ssn"@.len() == 3 && "bank_account"@.len() == 12 && "credit_card"@.len() == 11
        && "password"@.len() == 8);
    v
}

pub fn default_never_commit() -> (v: Vec<String>)
    ensures
        texts(v@) == default_never_commit_texts(),
        distinct_texts(texts(v@)),
{
    let mut v: Vec<String> = Vec::new();
    v.push(String::from_str("in-person meetings"));
    v.push(String::from_str("financial agreements"));
    v.push(String::from_str("legal documents"));
    proof {
        reveal_strlit("in-person meetings");
        reveal_strlit("financial agreements");
        reveal_strlit("legal documents");
    }
    assert(texts(v@) =~= default_never_commit_texts());
    assert("in-person meetings"@.len() == 18 && "financial agreements"@.len() == 20
        && "legal documents"@.len() == 15);
    v
}

fn default_share_allowed() -> (v: Vec<String>)
    ensures
        texts(v@) == default_share_allowed_texts(),
        distinct_texts(texts(v@)),
{
    let mut v: Vec<String> = Vec::new();
    v.push(String::from_str("name"));
    v.push(String::from_str("email"));
    v.push(String::from_str("phone"));
    proof {
        reveal_strlit("name");
        reveal_strlit("email");
        reveal_strlit("phone");
    }
    assert(texts(v@) =~= default_share_allowed_texts());
    assert("name"@.len() == 4 && "email"@.len() == 5 && "phone"@.len() == 5);
    assert("email"@[0] != "phone"@[0]);
    v
}

pub fn default_hold_patience() -> (m: u32)
    ensures
        m == 15,
{
    15
}

impl Default for PrincipalValues {
    fn default() -> (v: PrincipalValues)
        ensures
            v.honesty@ == "Always disclose AI status if directly asked"@,
            v.privacy_level == PrivacyLevel::Moderate,
            v.financial_risk == RiskLevel::Moderate,
            v.time_sensitivity == TimeSensitivity::Balanced,
            v.custom@.len() == 0,
    {
        PrincipalValues {
            honesty: default_honesty(),
            privacy_level: default_privacy(),
            financial_risk: RiskLevel::default(),
            time_sensitivity: TimeSensitivity::default(),
            custom: Vec::new(),
        }
    }
}

impl PrincipalBoundaries {
    /// No list holds a text twice.
    pub open spec fn wf(&self) -> bool {
        &&& distinct_texts(texts(self.share_allowed@))
        &&& distinct_texts(texts(self.share_never@))
        &&& distinct_texts(texts(self.never_commit_without_approval@))
        &&& distinct_texts(texts(self.always_escalate@))
    }
}

impl Default for PrincipalBoundaries {
    fn default() -> (b: PrincipalBoundaries)
        ensures
            b.wf(),
            b.max_auto_approve_amount.bits == 0x4059000000000000u64,
            b.max_auto_approve_amount.text@ == "100"@,
            texts(b.share_allowed@) == default_share_allowed_texts(),
            texts(b.share_never@) == default_share_never_texts(),
            texts(b.never_commit_without_approval@) == default_never_commit_texts(),
            b.always_escalate@.len() == 0,
    {
        let b = PrincipalBoundaries {
            max_auto_approve_amount: default_max_auto_approve(),
            share_allowed: default_share_allowed(),
            share_never: default_share_never(),
            never_commit_without_approval: default_never_commit(),
            always_escalate: Vec::new(),
        };
        assert(texts(b.always_escalate@) =~= Seq::<Seq<char>>::empty());
        b
    }
}

impl Default for PrincipalPreferences {
    fn default() -> (p: PrincipalPreferences)
        ensures
            p.preferred_times@.len() == 0,
            p.communication_style == CommunicationStyle::Professional,
            p.hold_patience_minutes == 0,
            p.voicemail_strategy == VoicemailStrategy::LeaveMessage,
    {
        PrincipalPreferences {
            preferred_times: Vec::new(),
            communication_style: CommunicationStyle::default(),
            hold_patience_minutes: 0,
            voicemail_strategy: VoicemailStrategy::default(),
        }
    }
}

/// Everything of the default profile but the name: nothing personal, the
/// default values and preferences, and the default boundaries (approval up to
/// 100; name, email and phone may be shared; the usual never-share and
/// approval lists; nothing that always escalates).
pub open spec fn default_profile_but_name(p: PrincipalProfile) -> bool {
    &&& p.location is None
    &&& p.email is None
    &&& p.phone is None
    &&& p.values.honesty@ == "Always disclose AI status if directly asked"@
    &&& p.values.privacy_level == PrivacyLevel::Moderate
    &&& p.values.financial_risk == RiskLevel::Moderate
    &&& p.values.time_sensitivity == TimeSensitivity::Balanced
    &&& p.values.custom@.len() == 0
    &&& p.boundaries.wf()
    &&& p.boundaries.max_auto_approve_amount.bits == 0x4059000000000000u64
    &&& p.boundaries.max_auto_approve_amount.text@ == "100"@
    &&& texts(p.boundaries.share_allowed@) == default_share_allowed_texts()
    &&& texts(p.boundaries.share_never@) == default_share_never_texts()
    &&& texts(p.boundaries.never_commit_without_approval@) == default_never_commit_texts()
    &&& p.boundaries.always_escalate@.len() == 0
    &&& p.preferences.preferred_times@.len() == 0
    &&& p.preferences.communication_style == CommunicationStyle::Professional
    &&& p.preferences.hold_patience_minutes == 0
    &&& p.preferences.voicemail_strategy == VoicemailStrategy::LeaveMessage
}

/// The default profile: a principal named "User".
pub open spec fn is_default_profile(p: PrincipalProfile) -> bool {
    p.name@ == "User"@ && default_profile_but_name(p)
}

impl Default for PrincipalProfile {
    fn default() -> (p: PrincipalProfile)
        ensures
            is_default_profile(p),
    {
        PrincipalProfile {
            name: String::from_str("User"),
            location: None,
            email: None,
            phone: None,
            values: PrincipalValues::default(),
            boundaries: PrincipalBoundaries::default(),
            preferences: PrincipalPreferences::default(),
        }
    }
}

// ---------------------------------------------------------------------------
// Boundaries
// ---------------------------------------------------------------------------

/// Some item of `list` equals `item`, ignoring case.
pub open spec fn listed_ignoring_case(list: Seq<Seq<char>>, item: Seq<char>) -> bool {
    exists|i: int| 0 <= i < list.len() && lowercase_text(list[i]) == lowercase_text(item)
}

/// Some item of `list` occurs in `text`, ignoring case.
pub open spec fn mentions_any(list: Seq<Seq<char>>, text: Seq<char>) -> bool {
    exists|i: int| 0 <= i < list.len() && text_contains(lowercase_text(text), lowercase_text(list[i]))
}

/// Whether the agent may share a kind of information: never if it is on the
/// never-share list, otherwise if it is on the allowed list, otherwise only
/// under an open privacy level.
pub open spec fn may_share(p: PrincipalProfile, info: Seq<char>) -> bool {
    if listed_ignoring_case(texts(p.boundaries.share_never@), info) {
        false
    } else if listed_ignoring_case(texts(p.boundaries.share_allowed@), info) {
        true
    } else {
        p.values.privacy_level == PrivacyLevel::Open
    }
}

/// The never-share list wins: what it names is never shared, whatever the
/// allowed list and the privacy level say.
pub proof fn law_never_list_wins(p: PrincipalProfile, info: Seq<char>)
    requires
        listed_ignoring_case(texts(p.boundaries.share_never@), info),
    ensures
        !may_share(p, info),
{
}

/// Below the never-share list, the allowed list grants sharing; what neither
/// list names is shared only under an open privacy level.
pub proof fn law_allowed_list_then_privacy_level(p: PrincipalProfile, info: Seq<char>)
    ensures
        !listed_ignoring_case(texts(p.boundaries.share_never@), info) && listed_ignoring_case(
            texts(p.boundaries.share_allowed@),
            info,
        ) ==> may_share(p, info),
        !listed_ignoring_case(texts(p.boundaries.share_never@), info) && !listed_ignoring_case(
            texts(p.boundaries.share_allowed@),
            info,
        ) ==> (may_share(p, info) <==> p.values.privacy_level == PrivacyLevel::Open),
{
}

/// Sharing does not depend on how an item is capitalised.
pub proof fn law_sharing_ignores_case(p: PrincipalProfile, a: Seq<char>, b: Seq<char>)
    requires
        lowercase_text(a) == lowercase_text(b),
    ensures
        may_share(p, a) == may_share(p, b),
{
}

proof fn lemma_listed(list: Seq<String>, item: Seq<char>, found: bool)
    requires
        found == exists|i: int| 0 <= i < list.len() && lowercase_text(list[i]@) == lowercase_text(item),
    ensures
        found == listed_ignoring_case(texts(list), item),
{
    if found {
        let i = choose|i: int| 0 <= i < list.len() && lowercase_text(list[i]@) == lowercase_text(item);
        assert(texts(list)[i] == list[i]@);
    }
    if listed_ignoring_case(texts(list), item) {
        let i = choose|i: int|
            0 <= i < texts(list).len() && lowercase_text(texts(list)[i]) == lowercase_text(item);
        assert(texts(list)[i] == list[i]@);
    }
}

fn any_equal_ignoring_case(list: &Vec<String>, item_lower: &String) -> (b: bool)
    ensures
        b == exists|i: int| 0 <= i < list@.len() && lowercase_text(list@[i]@) == item_lower@,
{
    let n = list.len();
    let mut i: usize = 0;
    while i < n
        invariant
            n == list@.len(),
            i <= n,
            forall|j: int| 0 <= j < i ==> lowercase_text(list@[j]@) != item_lower@,
        decreases n - i,
    {
        let l = to_lowercase(list[i].as_str());
        if l == *item_lower {
            return true;
        }
        i = i + 1;
    }
    false
}

fn any_mentioned(list: &Vec<String>, text_lower: &String) -> (b: bool)
    ensures
        b == exists|i: int|
            0 <= i < list@.len() && text_contains(text_lower@, lowercase_text(list@[i]@)),
{
    let n = list.len();
    let mut i: usize = 0;
    while i < n
        invariant
            n == list@.len(),
            i <= n,
            forall|j: int| 0 <= j < i ==> !text_contains(text_lower@, lowercase_text(list@[j]@)),
        decreases n - i,
    {
        let l = to_lowercase(list[i].as_str());
        if str_contains(text_lower.as_str(), l.as_str()) {
            return true;
        }
        i = i + 1;
    }
    false
}

impl PrincipalProfile {
    /// Check if a piece of information can be shared
    pub fn can_share(&self, info_type: &str) -> (b: bool)
        ensures
            b == may_share(*self, info_type@),
    {
        let info_lower = to_lowercase(info_type);
        let never = any_equal_ignoring_case(&self.boundaries.share_never, &info_lower);
        proof {
            lemma_listed(self.boundaries.share_never@, info_type@, never);
        }
        if never {
            return false;
        }
        let allowed = any_equal_ignoring_case(&self.boundaries.share_allowed, &info_lower);
        proof {
            lemma_listed(self.boundaries.share_allowed@, info_type@, allowed);
        }
        if allowed {
            return true;
        }
        match self.values.privacy_level {
            PrivacyLevel::Conservative => false,
            PrivacyLevel::Moderate => false,
            PrivacyLevel::Open => true,
        }
    }

    /// Check if a commitment type requires explicit approval
    pub fn commitment_requires_approval(&self, commitment_type: &str) -> (b: bool)
        ensures
            b == mentions_any(texts(self.boundaries.never_commit_without_approval@), commitment_type@),
    {
        let text_lower = to_lowercase(commitment_type);
        let r = any_mentioned(&self.boundaries.never_commit_without_approval, &text_lower);
        proof {
            if r {
                let i = choose|i: int|
                    0 <= i < self.boundaries.never_commit_without_approval@.len() && text_contains(
                        text_lower@,
                        lowercase_text(self.boundaries.never_commit_without_approval@[i]@),
                    );
                assert(texts(self.boundaries.never_commit_without_approval@)[i]
                    == self.boundaries.never_commit_without_approval@[i]@);
            }
        }
        r
    }

    /// Check if something should always escalate
    pub fn should_escalate(&self, action: &str) -> (b: bool)
        ensures
            b == mentions_any(texts(self.boundaries.always_escalate@), action@),
    {
        let text_lower = to_lowercase(action);
        let r = any_mentioned(&self.boundaries.always_escalate, &text_lower);
        proof {
            if r {
                let i = choose|i: int|
                    0 <= i < self.boundaries.always_escalate@.len() && text_contains(
                        text_lower@,
                        lowercase_text(self.boundaries.always_escalate@[i]@),
                    );
                assert(texts(self.boundaries.always_escalate@)[i]
                    == self.boundaries.always_escalate@[i]@);
            }
        }
        r
    }
}

} // verus!
