//! The backchannel: the terminal through which the principal follows a call
//! and answers Karta's questions. This module holds its state and decides,
//! for each event and each key, what changes and what is written to the
//! terminal; the terminal loop itself runs outside the library.

use vstd::prelude::*;

use crate::conversation::session::UIEvent;
use crate::conversation::state::{WaitingContext, WaitingContextView};
use crate::text::texts;
use crate::ui::colors::{BLUE, GREEN, RED, RESET, YELLOW};
use crate::ui::display::{
    format_state, format_transcript, question_body, question_body_text, state_line, tagged,
    tagged_text, transcript_line,
};

verus! {

/// How many transcript lines the backchannel keeps.
pub const MAX_TRANSCRIPT_LINES: usize = 100;

/// A key press, as far as the backchannel tells keys apart.
pub enum KeyInput {
    /// A character key; `control` is set when Ctrl was held.
    Char { c: char, control: bool },
    Enter,
    Backspace,
    Esc,
    /// Any other key.
    Other,
}

/// What a key press leads to.
pub struct KeyOutcome {
    /// Whether the terminal loop goes on.
    pub keep_running: bool,
    /// The text written to the terminal.
    pub output: String,
    /// The line the principal submitted, to be handed to the session.
    pub submitted: Option<String>,
}

/// The backchannel terminal interface
pub struct Backchannel {
    input_buffer: String,
    waiting_for_input: bool,
    waiting_context: Option<WaitingContext>,
    transcript: Vec<String>,
    max_transcript_lines: usize,
    active: bool,
}

pub struct BackchannelView {
    pub input: Seq<char>,
    pub waiting: bool,
    pub context: Option<WaitingContextView>,
    pub transcript: Seq<Seq<char>>,
    pub max_lines: nat,
    pub active: bool,
}

impl View for Backchannel {
    type V = BackchannelView;

    closed spec fn view(&self) -> BackchannelView {
        BackchannelView {
            input: self.input_buffer@,
            waiting: self.waiting_for_input,
            context: match self.waiting_context {
                Some(c) => Some(c@),
                None => None,
            },
            transcript: texts(self.transcript@),
            max_lines: self.max_transcript_lines as nat,
            active: self.active,
        }
    }
}

/// Erases the terminal line and moves to its start.
pub open spec fn clear_line() -> Seq<char> {
    "\r\x1b[K"@
}

/// A line written over the current one.
pub open spec fn over_line(text: Seq<char>) -> Seq<char> {
    clear_line() + text
}

/// A line of its own between two line breaks.
pub open spec fn framed(text: Seq<char>) -> Seq<char> {
    "\r\n"@ + text + "\r\n"@
}

/// The input line: the prompt and what the principal has typed so far.
pub open spec fn input_line(input: Seq<char>) -> Seq<char> {
    clear_line() + GREEN@ + ">"@ + RESET@ + " "@ + input
}

/// The status line and prompt shown when the backchannel starts.
pub open spec fn status_block(message: Seq<char>) -> Seq<char> {
    framed(tagged(BLUE@, "[STATUS]"@, message)) + GREEN@ + ">"@ + RESET@ + " "@
}

/// `lines` with its first line dropped once it holds more than `max` lines.
pub open spec fn trimmed(lines: Seq<Seq<char>>, max: nat) -> Seq<Seq<char>> {
    if lines.len() > max {
        lines.drop_first()
    } else {
        lines
    }
}

/// What handling a UI event writes, before the input line is redrawn.
pub open spec fn event_text(e: UIEvent) -> Seq<char> {
    match e {
        UIEvent::Status(m) => over_line(framed(tagged(BLUE@, "[STATUS]"@, m@))),
        UIEvent::Transcript(t) => over_line(framed(transcript_line(t))),
        UIEvent::NeedInput(ctx) => "\r\n\n"@ + question_body(ctx@.question, ctx@.options, "\r\n"@),
        UIEvent::CallStateChanged(s) => over_line(framed(state_line(s@))),
        UIEvent::TaskCompleted(success, m) => if success {
            over_line(framed(tagged(GREEN@, "[SUCCESS]"@, m@)))
        } else {
            over_line(framed(tagged(YELLOW@, "[INCOMPLETE]"@, m@)))
        },
        UIEvent::Error(m) => over_line(framed(tagged(RED@, "[ERROR]"@, m@))),
    }
}

/// The backchannel after a UI event.
pub open spec fn after_event(b: BackchannelView, e: UIEvent) -> BackchannelView {
    match e {
        UIEvent::Transcript(t) => BackchannelView {
            transcript: trimmed(b.transcript.push(transcript_line(t)), b.max_lines),
            ..b
        },
        UIEvent::NeedInput(ctx) => BackchannelView { waiting: true, context: Some(ctx@), ..b },
        UIEvent::TaskCompleted(_, _) => BackchannelView { active: false, ..b },
        _ => b,
    }
}

/// Everything written for a UI event: its text, then the input line again
/// where the principal has typed something.
pub open spec fn event_output(b: BackchannelView, e: UIEvent) -> Seq<char> {
    event_text(e) + if b.input.len() > 0 {
        input_line(b.input)
    } else {
        Seq::empty()
    }
}

/// The backchannel after a key press.
pub open spec fn after_key(b: BackchannelView, k: KeyInput) -> BackchannelView {
    match k {
        KeyInput::Char { c, control } => if control && c == 'c' {
            b
        } else {
            BackchannelView { input: b.input.push(c), ..b }
        },
        KeyInput::Enter => if b.input.len() > 0 {
            BackchannelView { input: Seq::empty(), waiting: false, context: None, ..b }
        } else {
            b
        },
        KeyInput::Backspace => if b.input.len() > 0 {
            BackchannelView { input: b.input.drop_last(), ..b }
        } else {
            b
        },
        KeyInput::Esc => BackchannelView { input: Seq::empty(), ..b },
        KeyInput::Other => b,
    }
}

/// What a key press writes.
pub open spec fn key_output(b: BackchannelView, k: KeyInput) -> Seq<char> {
    match k {
        KeyInput::Char { c, control } => if control && c == 'c' {
            over_line("\r\n\nExiting...\r\n"@)
        } else {
            input_line(b.input.push(c))
        },
        KeyInput::Enter => if b.input.len() > 0 {
            over_line(framed(tagged(GREEN@, "[YOU]"@, b.input)))
        } else {
            Seq::empty()
        },
        KeyInput::Backspace => if b.input.len() > 0 {
            input_line(b.input.drop_last())
        } else {
            Seq::empty()
        },
        KeyInput::Esc => input_line(Seq::empty()),
        KeyInput::Other => Seq::empty(),
    }
}

/// Whether a key press ends the terminal loop: only Ctrl+C does.
pub open spec fn key_quits(k: KeyInput) -> bool {
    k matches KeyInput::Char { c, control } && control && c == 'c'
}

/// What a key press hands to the session: the typed line, on Enter with
/// something typed.
pub open spec fn key_submits(b: BackchannelView, k: KeyInput) -> Option<Seq<char>> {
    if k is Enter && b.input.len() > 0 {
        Some(b.input)
    } else {
        None
    }
}

/// The keys that type the characters of `cs`, in order, without Ctrl.
pub open spec fn typing(cs: Seq<char>) -> Seq<KeyInput> {
    cs.map_values(|ch: char| plain_key(ch))
}

/// The key that types `ch`, without Ctrl.
pub open spec fn plain_key(ch: char) -> KeyInput {
    KeyInput::Char { c: ch, control: false }
}

/// The backchannel after a run of key presses.
pub open spec fn after_keys(b: BackchannelView, keys: Seq<KeyInput>) -> BackchannelView
    decreases keys.len(),
{
    if keys.len() == 0 {
        b
    } else {
        after_key(after_keys(b, keys.drop_last()), keys.last())
    }
}

/// Typing characters appends them to the input and changes nothing else.
pub proof fn law_typing_appends(b: BackchannelView, cs: Seq<char>)
    ensures
        after_keys(b, typing(cs)) == (BackchannelView { input: b.input + cs, ..b }),
    decreases cs.len(),
{
    if cs.len() == 0 {
        assert(b.input + cs =~= b.input);
    } else {
        let t = typing(cs);
        let d = typing(cs.drop_last());
        assert(t.len() == cs.len());
        assert(d.len() == cs.len() - 1);
        assert forall|i: int| 0 <= i < d.len() implies #[trigger] t.drop_last()[i] == d[i] by {
            assert(t[i] == plain_key(cs[i]));
            assert(d[i] == plain_key(cs.drop_last()[i]));
        }
        assert(t.drop_last() =~= d);
        assert(t.last() == plain_key(cs.last()));
        law_typing_appends(b, cs.drop_last());
        assert(b.input + cs.drop_last() + seq![cs.last()] =~= b.input + cs);
        assert((b.input + cs.drop_last()).push(cs.last()) =~= b.input + cs);
    }
}

/// A line typed into an empty input and sent with Enter is handed to the
/// session exactly as typed; the input is then empty and no question is
/// pending.
pub proof fn law_typed_line_is_submitted(b: BackchannelView, line: Seq<char>)
    requires
        b.input.len() == 0,
        line.len() > 0,
    ensures
        key_submits(after_keys(b, typing(line)), KeyInput::Enter) == Some(line),
        after_key(after_keys(b, typing(line)), KeyInput::Enter).input.len() == 0,
        !after_key(after_keys(b, typing(line)), KeyInput::Enter).waiting,
        after_key(after_keys(b, typing(line)), KeyInput::Enter).context is None,
{
    law_typing_appends(b, line);
    assert(b.input + line =~= line);
}

/// Backspace undoes the typing of one character.
pub proof fn law_backspace_undoes_typing(b: BackchannelView, c: char)
    ensures
        after_key(after_key(b, KeyInput::Char { c, control: false }), KeyInput::Backspace) == b,
{
    assert(b.input.push(c).drop_last() =~= b.input);
}

/// Esc empties the input and changes nothing else.
pub proof fn law_escape_clears(b: BackchannelView)
    ensures
        after_key(b, KeyInput::Esc) == (BackchannelView { input: Seq::empty(), ..b }),
        key_submits(after_key(b, KeyInput::Esc), KeyInput::Enter) is None,
{
}

/// The kept transcript never holds more than its limit: adding a line to a
/// transcript within the limit keeps it within the limit, and keeps the newest
/// line last.
pub proof fn law_transcript_bounded(lines: Seq<Seq<char>>, line: Seq<char>, max: nat)
    requires
        lines.len() <= max,
        max > 0,
    ensures
        trimmed(lines.push(line), max).len() <= max,
        trimmed(lines.push(line), max).last() == line,
{
}

fn over(text: &str) -> (s: String)
    ensures
        s@ == over_line(text@),
{
    let mut s = String::from_str("\r\x1b[K");
    s.append(text);
    s
}

fn framed_text(text: &str) -> (s: String)
    ensures
        s@ == framed(text@),
{
    let mut s = String::from_str("\r\n");
    s.append(text);
    s.append("\r\n");
    s
}

fn input_line_text(input: &str) -> (s: String)
    ensures
        s@ == input_line(input@),
{
    let mut s = String::from_str("\r\x1b[K");
    s.append(GREEN);
    s.append(">");
    s.append(RESET);
    s.append(" ");
    s.append(input);
    s
}

/// The status line and prompt shown when the backchannel starts.
pub fn status_text(message: &str) -> (s: String)
    ensures
        s@ == status_block(message@),
{
    let t = tagged_text(BLUE, "[STATUS]", message);
    let mut s = framed_text(t.as_str());
    s.append(GREEN);
    s.append(">");
    s.append(RESET);
    s.append(" ");
    s
}

impl Backchannel {
    /// The backchannel keeps at most `max_lines` transcript lines.
    pub open spec fn wf(&self) -> bool {
        self@.transcript.len() <= self@.max_lines
    }

    /// Create a new backchannel interface
    pub fn new() -> (b: Backchannel)
        ensures
            b.wf(),
            b@ == (BackchannelView {
                input: Seq::empty(),
                waiting: false,
                context: None,
                transcript: Seq::empty(),
                max_lines: MAX_TRANSCRIPT_LINES as nat,
                active: true,
            }),
    {
        let b = Backchannel {
            input_buffer: String::new(),
            waiting_for_input: false,
            waiting_context: None,
            transcript: Vec::new(),
            max_transcript_lines: MAX_TRANSCRIPT_LINES,
            active: true,
        };
        assert(texts(b.transcript@) =~= Seq::<Seq<char>>::empty());
        b
    }

    /// Whether the session is still going on.
    pub fn is_active(&self) -> (r: bool)
        ensures
            r == self@.active,
    {
        self.active
    }

    /// Whether Karta is waiting for the principal's answer.
    pub fn is_waiting_for_input(&self) -> (r: bool)
        ensures
            r == self@.waiting,
    {
        self.waiting_for_input
    }

    /// What the principal has typed so far.
    pub fn input(&self) -> (r: &str)
        ensures
            r@ == self@.input,
    {
        self.input_buffer.as_str()
    }

    /// The transcript lines kept so far, oldest first.
    pub fn transcript_lines(&self) -> (r: &Vec<String>)
        ensures
            texts(r@) == self@.transcript,
    {
        &self.transcript
    }

    /// Handle a UI event: update the state and return what is written to the
    /// terminal.
    pub fn handle_ui_event(&mut self, event: UIEvent) -> (out: String)
        requires
            old(self).wf(),
        ensures
            final(self).wf(),
            final(self)@ == after_event(old(self)@, event),
            out@ == event_output(old(self)@, event),
    {
        let ghost e = event;
        let mut out = match event {
            UIEvent::Status(msg) => {
                let t = tagged_text(BLUE, "[STATUS]", msg.as_str());
                let f = framed_text(t.as_str());
                over(f.as_str())
            },
            UIEvent::Transcript(transcript) => {
                let formatted = format_transcript(&transcript);
                let f = framed_text(formatted.as_str());
                let line = over(f.as_str());
                let ghost before = texts(self.transcript@);
                self.transcript.push(formatted);
                assert(texts(self.transcript@) =~= before.push(transcript_line(transcript)));
                if self.transcript.len() > self.max_transcript_lines {
                    let ghost pushed = texts(self.transcript@);
                    self.transcript.remove(0);
                    assert(texts(self.transcript@) =~= pushed.drop_first());
                }
                line
            },
            UIEvent::NeedInput(ctx) => {
                let body = question_body_text(ctx.question.as_str(), &ctx.options, "\r\n");
                let mut s = String::from_str("\r\n\n");
                s.append(body.as_str());
                self.waiting_for_input = true;
                self.waiting_context = Some(ctx);
                s
            },
            UIEvent::CallStateChanged(state) => {
                let f = framed_text(format_state(&state).as_str());
                over(f.as_str())
            },
            UIEvent::TaskCompleted(success, msg) => {
                let t = if success {
                    tagged_text(GREEN, "[SUCCESS]", msg.as_str())
                } else {
                    tagged_text(YELLOW, "[INCOMPLETE]", msg.as_str())
                };
                self.active = false;
                let f = framed_text(t.as_str());
                over(f.as_str())
            },
            UIEvent::Error(msg) => {
                let t = tagged_text(RED, "[ERROR]", msg.as_str());
                let f = framed_text(t.as_str());
                over(f.as_str())
            },
        };
        if self.input_buffer.as_str().unicode_len() > 0 {
            let line = input_line_text(self.input_buffer.as_str());
            out.append(line.as_str());
        }
        out
    }

    /// Handle a key press: update the input line and return what is written,
    /// whether the loop goes on, and the line submitted, if any.
    pub fn handle_key_event(&mut self, key: KeyInput) -> (r: KeyOutcome)
        requires
            old(self).wf(),
        ensures
            final(self).wf(),
            final(self)@ == after_key(old(self)@, key),
            r.output@ == key_output(old(self)@, key),
            r.keep_running == !key_quits(key),
            match r.submitted {
                Some(s) => key_submits(old(self)@, key) == Some(s@),
                None => key_submits(old(self)@, key) is None,
            },
    {
        match key {
            KeyInput::Char { c, control } => {
                if control && c == 'c' {
                    return KeyOutcome {
                        keep_running: false,
                        output: over("\r\n\nExiting...\r\n"),
                        submitted: None,
                    };
                }
                self.input_buffer.push(c);
                KeyOutcome {
                    keep_running: true,
                    output: input_line_text(self.input_buffer.as_str()),
                    submitted: None,
                }
            },
            KeyInput::Enter => {
                if self.input_buffer.as_str().unicode_len() > 0 {
                    let input = self.input_buffer.clone();
                    self.input_buffer = String::new();
                    let t = tagged_text(GREEN, "[YOU]", input.as_str());
                    let f = framed_text(t.as_str());
                    self.waiting_for_input = false;
                    self.waiting_context = None;
                    KeyOutcome { keep_running: true, output: over(f.as_str()), submitted: Some(input) }
                } else {
                    KeyOutcome { keep_running: true, output: String::new(), submitted: None }
                }
            },
            KeyInput::Backspace => {
                if self.input_buffer.as_str().unicode_len() > 0 {
                    self.input_buffer.pop();
                    KeyOutcome {
                        keep_running: true,
                        output: input_line_text(self.input_buffer.as_str()),
                        submitted: None,
                    }
                } else {
                    KeyOutcome { keep_running: true, output: String::new(), submitted: None }
                }
            },
            KeyInput::Esc => {
                self.input_buffer = String::new();
                KeyOutcome {
                    keep_running: true,
                    output: input_line_text(self.input_buffer.as_str()),
                    submitted: None,
                }
            },
            KeyInput::Other => KeyOutcome {
                keep_running: true,
                output: String::new(),
                submitted: None,
            },
        }
    }
}

} // verus!
