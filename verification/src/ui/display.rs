//! Display texts for terminal output.

use vstd::prelude::*;

use crate::conversation::state::{ConversationState, ConversationStateView, EndReason, EndReasonView};
use crate::task::task::{Task, TaskView};
use crate::text::{decimal, decimal_string, join, joined, texts};
use crate::ui::colors::{BG_YELLOW, BOLD, CYAN, DIM, GREEN, MAGENTA, RED, RESET, WHITE, YELLOW};
use crate::voice::engine::{Speaker, TranscriptEvent};

verus! {

/// The label and color of a speaker in the transcript.
pub open spec fn speaker_label(s: Speaker) -> (Seq<char>, Seq<char>) {
    match s {
        Speaker::Agent => ("KARTA"@, CYAN@),
        Speaker::Remote => ("THEM "@, WHITE@),
        Speaker::Principal => ("YOU  "@, GREEN@),
        Speaker::System => ("SYS  "@, DIM@),
    }
}

/// A transcript line: the colored speaker label, a mark for partial text,
/// and the text.
pub open spec fn transcript_line(e: TranscriptEvent) -> Seq<char> {
    let (label, color) = speaker_label(e.speaker);
    color + "["@ + label + "]"@ + RESET@ + if e.is_final {
        " "@
    } else {
        "…"@
    } + " "@ + e.text@
}

/// Format a transcript event for display
pub fn format_transcript(event: &TranscriptEvent) -> (s: String)
    ensures
        s@ == transcript_line(*event),
{
    let (prefix, color) = match event.speaker {
        Speaker::Agent => ("KARTA", CYAN),
        Speaker::Remote => ("THEM ", WHITE),
        Speaker::Principal => ("YOU  ", GREEN),
        Speaker::System => ("SYS  ", DIM),
    };
    let marker = if event.is_final {
        " "
    } else {
        "…"
    };
    let mut s = String::from_str(color);
    s.append("[");
    s.append(prefix);
    s.append("]");
    s.append(RESET);
    s.append(marker);
    s.append(" ");
    s.append(event.text.as_str());
    s
}

/// The lines of a task summary: the task and the target, then the phone, the
/// budget ceiling, and what is flexible and firm, each where there is one.
pub open spec fn task_summary_lines(t: TaskView) -> Seq<Seq<char>> {
    let base = seq![
        BOLD@ + "📋 Task:"@ + RESET@ + " "@ + t.description,
        BOLD@ + "📍 Target:"@ + RESET@ + " "@ + t.target.name,
    ];
    let with_phone = match t.target.phone {
        Some(p) => base.push(BOLD@ + "📞 Phone:"@ + RESET@ + " "@ + p),
        None => base,
    };
    let with_budget = match t.boundaries.budget_ceiling {
        Some(a) => with_phone.push(BOLD@ + "💰 Budget ceiling:"@ + RESET@ + " "@ + ("$"@ + a.text)),
        None => with_phone,
    };
    let with_flexible = if t.context.flexible.len() > 0 {
        with_budget.push(GREEN@ + "✓ Flexible:"@ + RESET@ + " "@ + joined(t.context.flexible, ", "@))
    } else {
        with_budget
    };
    if t.context.firm.len() > 0 {
        with_flexible.push(RED@ + "✗ Firm:"@ + RESET@ + " "@ + joined(t.context.firm, ", "@))
    } else {
        with_flexible
    }
}

fn labelled(style: &str, label: &str, value: &str) -> (s: String)
    ensures
        s@ == style@ + label@ + RESET@ + " "@ + value@,
{
    let mut s = String::from_str(style);
    s.append(label);
    s.append(RESET);
    s.append(" ");
    s.append(value);
    s
}

/// Format task summary for display
pub fn format_task_summary(task: &Task) -> (s: String)
    ensures
        s@ == joined(task_summary_lines(task@), "\n"@),
{
    let mut lines: Vec<String> = Vec::new();
    lines.push(labelled(BOLD, "📋 Task:", task.description.as_str()));
    lines.push(labelled(BOLD, "📍 Target:", task.target.name.as_str()));
    let ghost t = task@;
    proof {
        assert(texts(lines@) =~= seq![
            BOLD@ + "📋 Task:"@ + RESET@ + " "@ + t.description,
            BOLD@ + "📍 Target:"@ + RESET@ + " "@ + t.target.name,
        ]);
    }
    let ghost base = texts(lines@);
    if let Some(phone) = &task.target.phone {
        lines.push(labelled(BOLD, "📞 Phone:", phone.as_str()));
        assert(texts(lines@) =~= base.push(BOLD@ + "📞 Phone:"@ + RESET@ + " "@ + phone@));
    }
    let ghost with_phone = texts(lines@);
    if let Some(ceiling) = &task.boundaries.budget_ceiling {
        let mut value = String::from_str("$");
        value.append(ceiling.text.as_str());
        lines.push(labelled(BOLD, "💰 Budget ceiling:", value.as_str()));
        assert(texts(lines@) =~= with_phone.push(
            BOLD@ + "💰 Budget ceiling:"@ + RESET@ + " "@ + ("$"@ + ceiling.text@),
        ));
    }
    let ghost with_budget = texts(lines@);
    if task.context.flexible.len() > 0 {
        let j = join(&task.context.flexible, ", ");
        lines.push(labelled(GREEN, "✓ Flexible:", j.as_str()));
        assert(texts(lines@) =~= with_budget.push(GREEN@ + "✓ Flexible:"@ + RESET@ + " "@ + j@));
    }
    let ghost with_flexible = texts(lines@);
    if task.context.firm.len() > 0 {
        let j = join(&task.context.firm, ", ");
        lines.push(labelled(RED, "✗ Firm:", j.as_str()));
        assert(texts(lines@) =~= with_flexible.push(RED@ + "✗ Firm:"@ + RESET@ + " "@ + j@));
    }
    proof {
        assert(texts(lines@) =~= task_summary_lines(t));
    }
    join(&lines, "\n")
}

pub open spec fn reason_label(r: EndReasonView) -> Seq<char> {
    match r {
        EndReasonView::Completed => "completed"@,
        EndReasonView::Failed(m) => m,
        EndReasonView::PrincipalEnded => "you ended"@,
        EndReasonView::RemoteEnded => "they hung up"@,
        EndReasonView::Error(m) => m,
        EndReasonView::Timeout => "timeout"@,
    }
}

/// The display of a conversation state.
pub open spec fn state_line(s: ConversationStateView) -> Seq<char> {
    match s {
        ConversationStateView::NotStarted => DIM@ + "⚪ Not started"@ + RESET@,
        ConversationStateView::Initiating => YELLOW@ + "🔄 Initiating..."@ + RESET@,
        ConversationStateView::Connecting => YELLOW@ + "📞 Connecting..."@ + RESET@,
        ConversationStateView::Active => GREEN@ + "🟢 Active"@ + RESET@,
        ConversationStateView::WaitingForPrincipal(_) => MAGENTA@ + "💬 Waiting for your input"@ + RESET@,
        ConversationStateView::OnHold => YELLOW@ + "⏸ On hold"@ + RESET@,
        ConversationStateView::Ending => YELLOW@ + "🔚 Ending..."@ + RESET@,
        ConversationStateView::Ended(r) => DIM@ + "⚫ Ended: "@ + reason_label(r) + RESET@,
    }
}

fn styled(style: &str, text: &str) -> (s: String)
    ensures
        s@ == style@ + text@ + RESET@,
{
    let mut s = String::from_str(style);
    s.append(text);
    s.append(RESET);
    s
}

/// Format conversation state
pub fn format_state(state: &ConversationState) -> (s: String)
    ensures
        s@ == state_line(state@),
{
    match state {
        ConversationState::NotStarted => styled(DIM, "⚪ Not started"),
        ConversationState::Initiating => styled(YELLOW, "🔄 Initiating..."),
        ConversationState::Connecting => styled(YELLOW, "📞 Connecting..."),
        ConversationState::Active => styled(GREEN, "🟢 Active"),
        ConversationState::WaitingForPrincipal(_) => styled(MAGENTA, "💬 Waiting for your input"),
        ConversationState::OnHold => styled(YELLOW, "⏸ On hold"),
        ConversationState::Ending => styled(YELLOW, "🔚 Ending..."),
        ConversationState::Ended(reason) => {
            let reason_str: &str = match reason {
                EndReason::Completed => "completed",
                EndReason::Failed(msg) => msg.as_str(),
                EndReason::PrincipalEnded => "you ended",
                EndReason::RemoteEnded => "they hung up",
                EndReason::Error(msg) => msg.as_str(),
                EndReason::Timeout => "timeout",
            };
            let mut s = String::from_str(DIM);
            s.append("⚫ Ended: ");
            s.append(reason_str);
            s.append(RESET);
            s
        },
    }
}

/// `   [n] option` lines of suggested responses, numbered from one, each
/// ending with `line_end`.
pub open spec fn option_lines(options: Seq<Seq<char>>, line_end: Seq<char>) -> Seq<char>
    decreases options.len(),
{
    if options.len() == 0 {
        Seq::empty()
    } else {
        option_lines(options.drop_last(), line_end) + "   "@ + DIM@ + "["@ + decimal(options.len())
            + "]"@ + RESET@ + " "@ + options.last() + line_end
    }
}

/// The body of the block that asks the principal a question: the banner,
/// the question, the numbered suggestions where there are any, and the input
/// prompt, with lines ending in `line_end`.
pub open spec fn question_body(question: Seq<char>, options: Seq<Seq<char>>, line_end: Seq<char>) -> Seq<char> {
    BG_YELLOW@ + "💬 KARTA NEEDS INPUT:"@ + RESET@ + line_end + "   "@ + question + line_end + if options.len() > 0 {
        line_end + "   Suggested responses:"@ + line_end + option_lines(options, line_end)
    } else {
        Seq::empty()
    } + line_end + GREEN@ + ">"@ + RESET@ + " "@
}

/// The block that asks the principal a question: an empty line, then the
/// body.
pub open spec fn question_block(question: Seq<char>, options: Seq<Seq<char>>, line_end: Seq<char>) -> Seq<char> {
    line_end + question_body(question, options, line_end)
}

/// The body of the block that asks the principal a question.
pub fn question_body_text(question: &str, options: &Vec<String>, line_end: &str) -> (s: String)
    ensures
        s@ == question_body(question@, texts(options@), line_end@),
{
    let mut s = String::from_str(BG_YELLOW);
    s.append("💬 KARTA NEEDS INPUT:");
    s.append(RESET);
    s.append(line_end);
    s.append("   ");
    s.append(question);
    s.append(line_end);
    let mut listed = String::new();
    if options.len() > 0 {
        listed.append(line_end);
        listed.append("   Suggested responses:");
        listed.append(line_end);
        let ghost intro = listed@;
        let n = options.len();
        let mut i: usize = 0;
        while i < n
            invariant
                n == options@.len(),
                i <= n,
                listed@ == intro + option_lines(texts(options@).take(i as int), line_end@),
            decreases n - i,
        {
            assert(texts(options@).take(i + 1).drop_last() =~= texts(options@).take(i as int));
            listed.append("   ");
            listed.append(DIM);
            listed.append("[");
            listed.append(decimal_string((i + 1) as u64).as_str());
            listed.append("]");
            listed.append(RESET);
            listed.append(" ");
            listed.append(options[i].as_str());
            listed.append(line_end);
            i = i + 1;
        }
        assert(texts(options@).take(n as int) =~= texts(options@));
    }
    s.append(listed.as_str());
    s.append(line_end);
    s.append(GREEN);
    s.append(">");
    s.append(RESET);
    s.append(" ");
    s
}

/// The block that asks the principal a question, as the plain display
/// prints it (lines joined by `line_end`).
pub fn question_text(question: &str, options: &Vec<String>, line_end: &str) -> (s: String)
    ensures
        s@ == question_block(question@, texts(options@), line_end@),
{
    let mut s = String::from_str(line_end);
    let body = question_body_text(question, options, line_end);
    s.append(body.as_str());
    s
}

/// A line tagged with a colored label: `[STATUS]`, `[ERROR]` and the like.
pub open spec fn tagged(color: Seq<char>, tag: Seq<char>, message: Seq<char>) -> Seq<char> {
    color + tag + RESET@ + " "@ + message
}

/// The text of a tagged line.
pub fn tagged_text(color: &str, tag: &str, message: &str) -> (s: String)
    ensures
        s@ == tagged(color@, tag@, message@),
{
    let mut s = String::from_str(color);
    s.append(tag);
    s.append(RESET);
    s.append(" ");
    s.append(message);
    s
}

} // verus!
