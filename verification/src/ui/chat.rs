//! The transcript as lines: the welcome card, a card per turn (the question,
//! the tools it ran, the answer), standalone entries, and the status banners;
//! with the anchors of the questions for the history sidebar. Colours and
//! glyphs are the drawing code's part.

use vstd::prelude::*;
use crate::mode::{mode_label, AgentMode};
use crate::text::{
    chars_of, concat2, concat3, decimal, decimal_string, owned, string_of, trim, trim_str,
    to_uppercase, uppercase,
};
use crate::tools::{lines_of, split_lines};
use super::suggestions::{first_line, first_line_of};
use super::theme::{spin, spin_frames};
use super::{max2, min2, same_input, same_status, AppState, ChatEntry, HistoryAnchor};

verus! {

broadcast use vstd::string::group_string_axioms;

/// At most this many lines of a tool's output are shown.
pub const TOOL_LINES: usize = 16;

/// The accent colour of a card or banner.
#[derive(Clone, Copy, PartialEq, Eq, Structural, Debug)]
pub enum Accent {
    Mode,
    User,
    Tool,
    Error,
    Busy,
    Warn,
}

/// The style of a line of text inside a card.
#[derive(Clone, Copy, PartialEq, Eq, Structural, Debug)]
pub enum BodyStyle {
    Dim,
    Question,
    Answer,
    ToolText,
    Faint,
    Muted,
    Error,
}

/// One line of the transcript.
pub enum ChatLine {
    Blank,
    /// The welcome title: the mode's name and "agent".
    Title,
    /// "local agent runtime" under the title.
    Subtitle,
    CardOpen { label: String, accent: Accent },
    CardBridge { label: String, accent: Accent },
    CardClose,
    Body { text: String, style: BodyStyle },
    /// A standalone system line.
    Note { text: String },
    Banner { text: String, accent: Accent },
}

/// A transcript line with its texts as character sequences.
pub enum LineView {
    Blank,
    Title,
    Subtitle,
    CardOpen(Seq<char>, Accent),
    CardBridge(Seq<char>, Accent),
    CardClose,
    Body(Seq<char>, BodyStyle),
    Note(Seq<char>),
    Banner(Seq<char>, Accent),
}

impl ChatLine {
    pub open spec fn view(&self) -> LineView {
        match self {
            ChatLine::Blank => LineView::Blank,
            ChatLine::Title => LineView::Title,
            ChatLine::Subtitle => LineView::Subtitle,
            ChatLine::CardOpen { label, accent } => LineView::CardOpen(label@, *accent),
            ChatLine::CardBridge { label, accent } => LineView::CardBridge(label@, *accent),
            ChatLine::CardClose => LineView::CardClose,
            ChatLine::Body { text, style } => LineView::Body(text@, *style),
            ChatLine::Note { text } => LineView::Note(text@),
            ChatLine::Banner { text, accent } => LineView::Banner(text@, *accent),
        }
    }
}

/// The views of a list of lines.
pub open spec fn lviews(s: Seq<ChatLine>) -> Seq<LineView> {
    s.map_values(|l: ChatLine| l.view())
}

/// An anchor as (line, preview).
pub open spec fn aviews(s: Seq<HistoryAnchor>) -> Seq<(nat, Seq<char>)> {
    s.map_values(|a: HistoryAnchor| (a.line as nat, a.preview@))
}

// ---------------------------------------------------------------------------
// The pieces
// ---------------------------------------------------------------------------

/// Each line of `text` as a body line of style `st`.
pub open spec fn body_lines(text: Seq<char>, st: BodyStyle) -> Seq<LineView> {
    split_lines(text).map_values(|l: Seq<char>| LineView::Body(l, st))
}

/// The body lines of a card's text; an empty text still shows one empty line.
pub open spec fn card_text(text: Seq<char>, st: BodyStyle) -> Seq<LineView> {
    if text.len() == 0 {
        seq![LineView::Body(Seq::empty(), st)]
    } else {
        body_lines(text, st)
    }
}

/// The welcome card shown on an empty transcript.
pub open spec fn welcome_lines(mode: AgentMode, has_token: bool) -> Seq<LineView> {
    seq![
        LineView::Blank,
        LineView::Title,
        LineView::Subtitle,
        LineView::Blank,
        LineView::CardOpen("WELCOME"@, Accent::Mode),
        LineView::Body("Zero-config terminal agent. Full machine access via tools."@, BodyStyle::Dim),
        LineView::Body("Type / for commands. ctrl+enter for newline."@, BodyStyle::Dim),
        LineView::Blank,
        if has_token {
            LineView::Body("Mode: "@ + mode_label(mode) + " — ask anything"@, BodyStyle::Dim)
        } else {
            LineView::Body("Start: /token  or wait for the setup dialog"@, BodyStyle::Dim)
        },
        LineView::Body("/help  /settings  /history  /mode god|base  /clear"@, BodyStyle::Dim),
        LineView::CardClose,
        LineView::Blank,
    ]
}

/// The shown part of a tool's output: its first `TOOL_LINES` lines and a
/// count of the rest.
pub open spec fn output_lines(out: Seq<char>) -> Seq<LineView> {
    let rows = split_lines(out);
    if rows.len() > TOOL_LINES {
        rows.take(TOOL_LINES as int).map_values(|l: Seq<char>| LineView::Body(l, BodyStyle::Faint))
            + seq![
            LineView::Body(
                "… "@ + decimal((rows.len() - TOOL_LINES) as nat) + " more lines"@,
                BodyStyle::Faint,
            ),
        ]
    } else {
        rows.map_values(|l: Seq<char>| LineView::Body(l, BodyStyle::Faint))
    }
}

/// What a finished or failed tool shows under its header.
pub open spec fn tool_outcome(result: Option<String>, error: Option<String>) -> Seq<LineView> {
    match result {
        Some(out) => if trim(out@).len() == 0 {
            seq![]
        } else {
            output_lines(out@)
        },
        None => match error {
            Some(e) => seq![LineView::Body(e@, BodyStyle::Error)],
            None => seq![],
        },
    }
}

/// The label of a tool entry: its name, with the spinner while it runs.
pub open spec fn tool_label(e: ChatEntry, spinner: nat) -> Seq<char> {
    match e {
        ChatEntry::Tool { name, result, error, .. } => if result is None && error is None {
            name@ + " "@ + spin_frames()[(spinner % 8) as int]
        } else {
            name@
        },
        _ => Seq::empty(),
    }
}

/// An entry shown inside a turn's card.
pub open spec fn inline_lines(e: ChatEntry, spinner: nat) -> Seq<LineView> {
    match e {
        ChatEntry::Tool { name, args, result, error } => seq![
            LineView::Body("▸ "@ + tool_label(e, spinner), BodyStyle::ToolText),
        ] + (if args@.len() > 0 {
            seq![LineView::Body("   "@ + args@, BodyStyle::ToolText)]
        } else {
            seq![]
        }) + tool_outcome(result, error),
        ChatEntry::System { content } => body_lines(content@, BodyStyle::Muted),
        ChatEntry::Error { message } => seq![
            LineView::Body("error: "@ + message@, BodyStyle::Error),
        ],
        _ => seq![],
    }
}

/// An entry shown outside any turn.
pub open spec fn standalone_lines(e: ChatEntry, spinner: nat) -> Seq<LineView> {
    seq![LineView::Blank] + match e {
        ChatEntry::Assistant { content } => seq![LineView::CardOpen("AGENT"@, Accent::Mode)]
            + body_lines(content@, BodyStyle::Answer) + seq![LineView::CardClose],
        ChatEntry::System { content } => split_lines(content@).map_values(
            |l: Seq<char>| LineView::Note(l),
        ),
        ChatEntry::Tool { name, args, result, error } => seq![
            LineView::CardOpen(uppercase(tool_label(e, spinner)), Accent::Tool),
        ] + (if args@.len() > 0 {
            seq![LineView::Body("▸ "@ + args@, BodyStyle::ToolText)]
        } else {
            seq![]
        }) + tool_outcome(result, error) + seq![LineView::CardClose],
        ChatEntry::Error { message } => seq![
            LineView::CardOpen("ERROR"@, Accent::Error),
            LineView::Body(message@, BodyStyle::Error),
            LineView::CardClose,
        ],
        ChatEntry::User { .. } => seq![],
    }
}

/// The answer closing a turn's card.
pub open spec fn answer_lines(content: Seq<char>) -> Seq<LineView> {
    seq![LineView::CardBridge("AGENT"@, Accent::Mode)] + card_text(content, BodyStyle::Answer)
        + seq![LineView::CardClose]
}

/// The rest of a turn from entry `j` on: the inline entries up to and
/// including the first answer; the lines, the index after the turn, and
/// whether an answer came.
pub open spec fn turn_rest(es: Seq<ChatEntry>, j: int, spinner: nat) -> (Seq<LineView>, int, bool)
    decreases es.len() - j,
{
    if j < 0 || j >= es.len() {
        (seq![], j, false)
    } else {
        match es[j] {
            ChatEntry::Assistant { content } => (answer_lines(content@), j + 1, true),
            _ => {
                let r = turn_rest(es, j + 1, spinner);
                (inline_lines(es[j], spinner) + r.0, r.1, r.2)
            },
        }
    }
}

/// The history preview of a question: its first line, trimmed.
pub open spec fn question_preview(content: Seq<char>) -> Seq<char> {
    trim(first_line(content))
}

/// Whether a question gets an anchor: a non-empty preview that is not a
/// command.
pub open spec fn anchored(content: Seq<char>) -> bool {
    question_preview(content).len() > 0 && question_preview(content)[0] != '/'
}

/// The lines of the entries from `i` on, and their anchors, when `base` lines
/// come before them.
pub open spec fn entries_from(es: Seq<ChatEntry>, i: int, base: nat, spinner: nat) -> (
    Seq<LineView>,
    Seq<(nat, Seq<char>)>,
)
    decreases es.len() - i, 0int,
{
    if i < 0 || i >= es.len() {
        (seq![], seq![])
    } else {
        match es[i] {
            ChatEntry::User { content } => {
                let r = turn_rest(es, i + 1, spinner);
                proof {
                    lemma_turn_rest_advances(es, i + 1, spinner);
                }
                let lines = seq![LineView::CardOpen("YOU"@, Accent::User)] + card_text(
                    content@,
                    BodyStyle::Question,
                ) + r.0 + (if r.2 {
                    seq![]
                } else {
                    seq![LineView::CardClose]
                }) + seq![LineView::Blank];
                let rest = entries_from(es, r.1, base + lines.len(), spinner);
                let anchors = if anchored(content@) {
                    seq![(base, question_preview(content@))]
                } else {
                    seq![]
                };
                (lines + rest.0, anchors + rest.1)
            },
            _ => {
                let lines = standalone_lines(es[i], spinner);
                let rest = entries_from(es, i + 1, base + lines.len(), spinner);
                (lines + rest.0, rest.1)
            },
        }
    }
}

/// A turn ends after where it starts, and within the entries.
pub proof fn lemma_turn_rest_advances(es: Seq<ChatEntry>, j: int, spinner: nat)
    requires
        0 <= j,
    ensures
        j <= turn_rest(es, j, spinner).1,
        turn_rest(es, j, spinner).1 <= es.len() || turn_rest(es, j, spinner).1 == j,
    decreases es.len() - j,
{
    if j < es.len() {
        match es[j] {
            ChatEntry::Assistant { .. } => {},
            _ => {
                lemma_turn_rest_advances(es, j + 1, spinner);
            },
        }
    }
}

/// Some tool entry is still running.
pub open spec fn any_running(es: Seq<ChatEntry>) -> bool {
    exists|k: int| 0 <= k < es.len() && (#[trigger] es[k]).running()
}

/// The whole transcript of `state`, and the anchors of its questions.
pub open spec fn transcript(state: AppState) -> (Seq<LineView>, Seq<(nat, Seq<char>)>) {
    let es = state.entries@;
    let welcome = if es.len() == 0 && !state.is_thinking && !state.awaiting_approval {
        welcome_lines(state.mode, state.has_token)
    } else {
        seq![]
    };
    let body = entries_from(es, 0, welcome.len(), state.spinner_frame as nat);
    let thinking = if state.is_thinking && !any_running(es) {
        seq![
            LineView::Blank,
            LineView::Banner("thinking "@ + spin_frames()[(state.spinner_frame % 8) as int], Accent::Busy),
        ]
    } else {
        seq![]
    };
    let approval = if state.awaiting_approval {
        seq![
            LineView::Blank,
            LineView::Banner(
                "approve? "@ + match state.approval_summary {
                    Some(s) => s@,
                    None => "action required"@,
                },
                Accent::Warn,
            ),
        ]
    } else {
        seq![]
    };
    (welcome + body.0 + thinking + approval, body.1)
}

// ---------------------------------------------------------------------------
// Building the lines
// ---------------------------------------------------------------------------

/// Appends a line.
fn push_line(lines: &mut Vec<ChatLine>, l: ChatLine)
    ensures
        lviews(final(lines)@) == lviews(old(lines)@).push(l.view()),
{
    let ghost before = lines@;
    lines.push(l);
    assert(lviews(lines@) =~= lviews(before).push(l.view()));
}

/// Appends the lines of `rows` in the shape `f` gives them.
fn push_bodies(lines: &mut Vec<ChatLine>, rows: &Vec<Vec<char>>, upto: usize, st: BodyStyle)
    requires
        upto <= rows@.len(),
    ensures
        lviews(final(lines)@) == lviews(old(lines)@) + rows@.take(upto as int).map_values(
            |r: Vec<char>| LineView::Body(r@, st),
        ),
{
    let ghost start = lviews(lines@);
    let mut k: usize = 0;
    while k < upto
        invariant
            k <= upto <= rows@.len(),
            lviews(lines@) == start + rows@.take(k as int).map_values(
                |r: Vec<char>| LineView::Body(r@, st),
            ),
        decreases upto - k,
    {
        let t = string_of(&rows[k]);
        push_line(lines, ChatLine::Body { text: t, style: st });
        assert(rows@.take(k + 1) =~= rows@.take(k as int).push(rows@[k as int]));
        assert(lviews(lines@) =~= start + rows@.take(k + 1).map_values(
            |r: Vec<char>| LineView::Body(r@, st),
        ));
        k += 1;
    }
}

/// The rows of `v` mapped as a whole.
proof fn lemma_rows_views(rows: Seq<Vec<char>>, text_rows: Seq<Seq<char>>, n: int, st: BodyStyle)
    requires
        rows.len() == text_rows.len(),
        forall|i: int| 0 <= i < rows.len() ==> (#[trigger] rows[i])@ == text_rows[i],
        0 <= n <= rows.len(),
    ensures
        rows.take(n).map_values(|r: Vec<char>| LineView::Body(r@, st)) == text_rows.take(
            n,
        ).map_values(|l: Seq<char>| LineView::Body(l, st)),
{
    assert(rows.take(n).map_values(|r: Vec<char>| LineView::Body(r@, st)) =~= text_rows.take(
        n,
    ).map_values(|l: Seq<char>| LineView::Body(l, st)));
}

/// Appends each line of `text` as a body line.
fn push_text(lines: &mut Vec<ChatLine>, text: &str, st: BodyStyle)
    ensures
        lviews(final(lines)@) == lviews(old(lines)@) + body_lines(text@, st),
{
    let v = chars_of(text);
    let rows = lines_of(&v);
    push_bodies(lines, &rows, rows.len(), st);
    proof {
        lemma_rows_views(rows@, split_lines(text@), rows@.len() as int, st);
        assert(rows@.take(rows@.len() as int) =~= rows@);
        assert(split_lines(text@).take(rows@.len() as int) =~= split_lines(text@));
    }
}

/// Appends the body of a card.
fn push_card_text(lines: &mut Vec<ChatLine>, text: &str, st: BodyStyle)
    ensures
        lviews(final(lines)@) == lviews(old(lines)@) + card_text(text@, st),
{
    if text.is_empty() {
        let ghost before = lviews(lines@);
        push_line(lines, ChatLine::Body { text: String::new(), style: st });
        assert(lviews(lines@) =~= before + card_text(text@, st));
    } else {
        push_text(lines, text, st);
    }
}

/// Appends the shown part of a tool's output.
fn push_output(lines: &mut Vec<ChatLine>, out: &str)
    ensures
        lviews(final(lines)@) == lviews(old(lines)@) + output_lines(out@),
{
    let ghost start = lviews(lines@);
    let v = chars_of(out);
    let rows = lines_of(&v);
    let ghost tr = split_lines(out@);
    if rows.len() > TOOL_LINES {
        push_bodies(lines, &rows, TOOL_LINES, BodyStyle::Faint);
        let n = decimal_string(rows.len() - TOOL_LINES);
        let t = concat3("… ", n.as_str(), " more lines");
        let ghost mid = lviews(lines@);
        push_line(lines, ChatLine::Body { text: t, style: BodyStyle::Faint });
        proof {
            lemma_rows_views(rows@, tr, TOOL_LINES as int, BodyStyle::Faint);
            assert(lviews(lines@) =~= start + output_lines(out@));
        }
    } else {
        push_bodies(lines, &rows, rows.len(), BodyStyle::Faint);
        proof {
            lemma_rows_views(rows@, tr, rows@.len() as int, BodyStyle::Faint);
            assert(rows@.take(rows@.len() as int) =~= rows@);
            assert(tr.take(rows@.len() as int) =~= tr);
        }
    }
}

/// Appends what a tool shows under its header.
fn push_outcome(lines: &mut Vec<ChatLine>, result: &Option<String>, error: &Option<String>)
    ensures
        lviews(final(lines)@) == lviews(old(lines)@) + tool_outcome(*result, *error),
{
    let ghost before = lviews(lines@);
    match result {
        Some(out) => {
            let t = trim_str(out.as_str());
            if !t.as_str().is_empty() {
                push_output(lines, out.as_str());
            } else {
                assert(lviews(lines@) =~= before + tool_outcome(*result, *error));
            }
        },
        None => match error {
            Some(e) => {
                push_line(lines, ChatLine::Body { text: e.clone(), style: BodyStyle::Error });
                assert(lviews(lines@) =~= before + tool_outcome(*result, *error));
            },
            None => {
                assert(lviews(lines@) =~= before + tool_outcome(*result, *error));
            },
        },
    }
}

/// The label of a tool entry.
fn label_of(e: &ChatEntry, spinner: usize) -> (r: String)
    ensures
        r@ == tool_label(*e, spinner as nat),
{
    match e {
        ChatEntry::Tool { name, result, error, .. } => {
            if result.is_none() && error.is_none() {
                concat3(name.as_str(), " ", spin(spinner))
            } else {
                name.clone()
            }
        },
        _ => String::new(),
    }
}

/// Appends an entry shown inside a turn's card.
fn push_inline(lines: &mut Vec<ChatLine>, e: &ChatEntry, spinner: usize)
    ensures
        lviews(final(lines)@) == lviews(old(lines)@) + inline_lines(*e, spinner as nat),
{
    let ghost before = lviews(lines@);
    match e {
        ChatEntry::Tool { args, result, error, .. } => {
            let label = label_of(e, spinner);
            push_line(lines, ChatLine::Body { text: concat2("▸ ", label.as_str()), style: BodyStyle::ToolText });
            let ghost l1 = lviews(lines@);
            if !args.as_str().is_empty() {
                push_line(lines, ChatLine::Body { text: concat2("   ", args.as_str()), style: BodyStyle::ToolText });
            }
            let ghost l2 = lviews(lines@);
            assert(l2 =~= l1 + (if args@.len() > 0 {
                seq![LineView::Body("   "@ + args@, BodyStyle::ToolText)]
            } else {
                seq![]
            }));
            push_outcome(lines, result, error);
            assert(lviews(lines@) =~= before + inline_lines(*e, spinner as nat));
        },
        ChatEntry::System { content } => {
            push_text(lines, content.as_str(), BodyStyle::Muted);
        },
        ChatEntry::Error { message } => {
            push_line(lines, ChatLine::Body { text: concat2("error: ", message.as_str()), style: BodyStyle::Error });
        },
        _ => {
            assert(lviews(lines@) =~= before + inline_lines(*e, spinner as nat));
        },
    }
}

/// Appends an entry shown outside any turn.
fn push_standalone(lines: &mut Vec<ChatLine>, e: &ChatEntry, spinner: usize)
    ensures
        lviews(final(lines)@) == lviews(old(lines)@) + standalone_lines(*e, spinner as nat),
{
    let ghost before = lviews(lines@);
    push_line(lines, ChatLine::Blank);
    let ghost b1 = lviews(lines@);
    match e {
        ChatEntry::Assistant { content } => {
            push_line(lines, ChatLine::CardOpen { label: owned("AGENT"), accent: Accent::Mode });
            push_text(lines, content.as_str(), BodyStyle::Answer);
            push_line(lines, ChatLine::CardClose);
            assert(lviews(lines@) =~= before + standalone_lines(*e, spinner as nat));
        },
        ChatEntry::System { content } => {
            let v = chars_of(content.as_str());
            let rows = lines_of(&v);
            let mut k: usize = 0;
            while k < rows.len()
                invariant
                    k <= rows@.len(),
                    rows@.len() == split_lines(content@).len(),
                    forall|i: int| 0 <= i < rows@.len() ==> (#[trigger] rows@[i])@ == split_lines(
                        content@,
                    )[i],
                    lviews(lines@) == b1 + split_lines(content@).take(k as int).map_values(
                        |l: Seq<char>| LineView::Note(l),
                    ),
                decreases rows@.len() - k,
            {
                let t = string_of(&rows[k]);
                push_line(lines, ChatLine::Note { text: t });
                assert(split_lines(content@).take(k + 1) =~= split_lines(content@).take(
                    k as int,
                ).push(split_lines(content@)[k as int]));
                assert(lviews(lines@) =~= b1 + split_lines(content@).take(k + 1).map_values(
                    |l: Seq<char>| LineView::Note(l),
                ));
                k += 1;
            }
            assert(split_lines(content@).take(rows@.len() as int) =~= split_lines(content@));
            assert(lviews(lines@) =~= before + standalone_lines(*e, spinner as nat));
        },
        ChatEntry::Tool { args, result, error, .. } => {
            let label = label_of(e, spinner);
            let up = to_uppercase(label.as_str());
            push_line(lines, ChatLine::CardOpen { label: up, accent: Accent::Tool });
            let ghost l1 = lviews(lines@);
            if !args.as_str().is_empty() {
                push_line(lines, ChatLine::Body { text: concat2("▸ ", args.as_str()), style: BodyStyle::ToolText });
            }
            let ghost l2 = lviews(lines@);
            assert(l2 =~= l1 + (if args@.len() > 0 {
                seq![LineView::Body("▸ "@ + args@, BodyStyle::ToolText)]
            } else {
                seq![]
            }));
            push_outcome(lines, result, error);
            push_line(lines, ChatLine::CardClose);
            assert(lviews(lines@) =~= before + standalone_lines(*e, spinner as nat));
        },
        ChatEntry::Error { message } => {
            push_line(lines, ChatLine::CardOpen { label: owned("ERROR"), accent: Accent::Error });
            push_line(lines, ChatLine::Body { text: message.clone(), style: BodyStyle::Error });
            push_line(lines, ChatLine::CardClose);
            assert(lviews(lines@) =~= before + standalone_lines(*e, spinner as nat));
        },
        ChatEntry::User { .. } => {
            assert(lviews(lines@) =~= before + standalone_lines(*e, spinner as nat));
        },
    }
}

/// Appends the welcome card.
fn push_welcome(lines: &mut Vec<ChatLine>, mode: AgentMode, has_token: bool)
    ensures
        lviews(final(lines)@) == lviews(old(lines)@) + welcome_lines(mode, has_token),
{
    let ghost before = lviews(lines@);
    push_line(lines, ChatLine::Blank);
    push_line(lines, ChatLine::Title);
    push_line(lines, ChatLine::Subtitle);
    push_line(lines, ChatLine::Blank);
    push_line(lines, ChatLine::CardOpen { label: owned("WELCOME"), accent: Accent::Mode });
    push_line(lines, ChatLine::Body {
        text: owned("Zero-config terminal agent. Full machine access via tools."),
        style: BodyStyle::Dim,
    });
    push_line(lines, ChatLine::Body {
        text: owned("Type / for commands. ctrl+enter for newline."),
        style: BodyStyle::Dim,
    });
    push_line(lines, ChatLine::Blank);
    if !has_token {
        push_line(lines, ChatLine::Body {
            text: owned("Start: /token  or wait for the setup dialog"),
            style: BodyStyle::Dim,
        });
    } else {
        let t = concat3("Mode: ", mode.label(), " — ask anything");
        push_line(lines, ChatLine::Body { text: t, style: BodyStyle::Dim });
    }
    push_line(lines, ChatLine::Body {
        text: owned("/help  /settings  /history  /mode god|base  /clear"),
        style: BodyStyle::Dim,
    });
    push_line(lines, ChatLine::CardClose);
    push_line(lines, ChatLine::Blank);
    assert(lviews(lines@) =~= before + welcome_lines(mode, has_token));
}

/// Whether some tool entry is still running.
fn some_running(es: &Vec<ChatEntry>) -> (r: bool)
    ensures
        r == any_running(es@),
{
    let mut k: usize = 0;
    while k < es.len()
        invariant
            k <= es@.len(),
            forall|j: int| 0 <= j < k ==> !(#[trigger] es@[j]).running(),
        decreases es@.len() - k,
    {
        if es[k].is_running() {
            return true;
        }
        k += 1;
    }
    false
}

/// The transcript of `state` as lines, and the anchors of its questions: the
/// line where each question's card opens and its preview.
pub fn build_chat_lines(state: &AppState) -> (r: (Vec<ChatLine>, Vec<HistoryAnchor>))
    ensures
        lviews(r.0@) == transcript(*state).0,
        aviews(r.1@) == transcript(*state).1,
{
    let es = &state.entries;
    let n = es.len();
    let spinner = state.spinner_frame;
    let ghost sp = spinner as nat;
    let mut lines: Vec<ChatLine> = Vec::new();
    let mut anchors: Vec<HistoryAnchor> = Vec::new();
    if n == 0 && !state.is_thinking && !state.awaiting_approval {
        push_welcome(&mut lines, state.mode, state.has_token);
    }
    assert(lviews(Seq::<ChatLine>::empty()) =~= Seq::<LineView>::empty());
    let ghost welcome = lviews(lines@);
    let ghost total = entries_from(es@, 0, lines@.len(), sp);
    assert(aviews(anchors@) =~= Seq::<(nat, Seq<char>)>::empty());
    let mut idx: usize = 0;
    while idx < n
        invariant
            n == es@.len(),
            es == &state.entries,
            sp == spinner as nat,
            spinner == state.spinner_frame,
            idx <= n,
            lviews(lines@) + entries_from(es@, idx as int, lines@.len(), sp).0 == welcome + total.0,
            aviews(anchors@) + entries_from(es@, idx as int, lines@.len(), sp).1 == total.1,
        decreases n - idx,
    {
        let ghost i0 = idx as int;
        let ghost base_lines = lviews(lines@);
        let ghost base = lines@.len();
        let ghost base_anchors = aviews(anchors@);
        match &es[idx] {
            ChatEntry::User { content } => {
                let first = first_line_of(content.as_str());
                let preview = trim_str(first.as_str());
                let pv = chars_of(preview.as_str());
                if pv.len() > 0 && pv[0] != '/' {
                    let line_at = lines.len();
                    anchors.push(HistoryAnchor { line: line_at, preview });
                    assert(aviews(anchors@) =~= base_anchors.push((base, question_preview(content@))));
                } else {
                    assert(!anchored(content@));
                }
                push_line(&mut lines, ChatLine::CardOpen { label: owned("YOU"), accent: Accent::User });
                push_card_text(&mut lines, content.as_str(), BodyStyle::Question);
                let ghost head = lviews(lines@);
                let ghost tr = turn_rest(es@, i0 + 1, sp);
                proof {
                    lemma_turn_rest_advances(es@, i0 + 1, sp);
                }
                idx += 1;
                let mut got = false;
                while idx < n
                    invariant_except_break
                        !got,
                        lviews(lines@) + turn_rest(es@, idx as int, sp).0 == head + tr.0,
                        turn_rest(es@, idx as int, sp).1 == tr.1,
                        turn_rest(es@, idx as int, sp).2 == tr.2,
                    invariant
                        n == es@.len(),
                        es == &state.entries,
                        sp == spinner as nat,
                        i0 < idx <= n,
                    ensures
                        lviews(lines@) == head + tr.0,
                        idx == tr.1,
                        got == tr.2,
                    decreases n - idx,
                {
                    match &es[idx] {
                        ChatEntry::Assistant { content: answer } => {
                            let ghost before = lviews(lines@);
                            push_line(&mut lines, ChatLine::CardBridge { label: owned("AGENT"), accent: Accent::Mode });
                            push_card_text(&mut lines, answer.as_str(), BodyStyle::Answer);
                            push_line(&mut lines, ChatLine::CardClose);
                            assert(lviews(lines@) =~= before + answer_lines(answer@));
                            got = true;
                            idx += 1;
                            break;
                        },
                        entry => {
                            let ghost before = lviews(lines@);
                            push_inline(&mut lines, entry, spinner);
                            assert(lviews(lines@) + turn_rest(es@, idx + 1, sp).0 =~= before + turn_rest(es@, idx as int, sp).0);
                            idx += 1;
                        },
                    }
                }
                proof {
                    if idx >= n {
                        assert(turn_rest(es@, idx as int, sp).0 =~= Seq::<LineView>::empty());
                    }
                }
                if !got {
                    push_line(&mut lines, ChatLine::CardClose);
                }
                push_line(&mut lines, ChatLine::Blank);
                proof {
                    let turn = seq![LineView::CardOpen("YOU"@, Accent::User)] + card_text(
                        content@,
                        BodyStyle::Question,
                    ) + tr.0 + (if tr.2 {
                        seq![]
                    } else {
                        seq![LineView::CardClose]
                    }) + seq![LineView::Blank];
                    assert(lviews(lines@) =~= base_lines + turn);
                    assert(lines@.len() == base + turn.len());
                    let e = entries_from(es@, i0, base, sp);
                    let rest = entries_from(es@, idx as int, lines@.len(), sp);
                    assert(e.0 == turn + rest.0);
                    assert(lviews(lines@) + rest.0 =~= base_lines + e.0);
                    assert(aviews(anchors@) + rest.1 =~= base_anchors + e.1);
                }
            },
            entry => {
                push_standalone(&mut lines, entry, spinner);
                idx += 1;
                proof {
                    let e = entries_from(es@, i0, base, sp);
                    let rest = entries_from(es@, idx as int, lines@.len(), sp);
                    assert(lviews(lines@) + rest.0 =~= base_lines + e.0);
                }
            },
        }
    }
    let ghost body_end = lviews(lines@);
    proof {
        assert(body_end == welcome + total.0);
        assert(aviews(anchors@) == total.1);
    }
    let ghost tt = transcript(*state);
    proof {
        let w = if es@.len() == 0 && !state.is_thinking && !state.awaiting_approval {
            welcome_lines(state.mode, state.has_token)
        } else {
            seq![]
        };
        assert(welcome =~= w);
        assert(total == entries_from(es@, 0, w.len(), sp));
    }
    if state.is_thinking && !some_running(es) {
        push_line(&mut lines, ChatLine::Blank);
        let t = concat2("thinking ", spin(spinner));
        push_line(&mut lines, ChatLine::Banner { text: t, accent: Accent::Busy });
    }
    let ghost after_thinking = lviews(lines@);
    proof {
        let th = if state.is_thinking && !any_running(es@) {
            seq![
                LineView::Blank,
                LineView::Banner("thinking "@ + spin_frames()[(state.spinner_frame % 8) as int], Accent::Busy),
            ]
        } else {
            seq![]
        };
        assert(after_thinking =~= body_end + th);
    }
    if state.awaiting_approval {
        push_line(&mut lines, ChatLine::Blank);
        let t = match &state.approval_summary {
            Some(s) => concat2("approve? ", s.as_str()),
            None => owned("approve? action required"),
        };
        proof {
            reveal_strlit("approve? action required");
            reveal_strlit("approve? ");
            reveal_strlit("action required");
        }
        push_line(&mut lines, ChatLine::Banner { text: t, accent: Accent::Warn });
    }
    proof {
        let summary = state.approval_summary;
        let ap = if state.awaiting_approval {
            seq![
                LineView::Blank,
                LineView::Banner(
                    "approve? "@ + match summary {
                        Some(s) => s@,
                        None => "action required"@,
                    },
                    Accent::Warn,
                ),
            ]
        } else {
            seq![]
        };
        reveal_strlit("approve? action required");
        reveal_strlit("approve? ");
        reveal_strlit("action required");
        assert("approve? action required"@ =~= "approve? "@ + "action required"@);
        assert(lviews(lines@) =~= after_thinking + ap);
        assert(lviews(lines@) =~= tt.0);
    }
    (lines, anchors)
}

impl AppState {
    /// Takes in a freshly built transcript of `line_count` lines with its
    /// `anchors`, shown in a viewport `height` rows high: keeps the sidebar's
    /// pick on an anchor, records the sizes, and keeps the scroll offset in
    /// range (at the end while following).
    pub fn place_transcript(&mut self, line_count: usize, anchors: Vec<HistoryAnchor>, height: u16)
        ensures
            final(self).history_anchors@ == anchors@,
            final(self).sidebar_pick == (if old(self).sidebar_pick >= anchors@.len() && anchors@.len()
                > 0 {
                (anchors@.len() - 1) as usize
            } else {
                old(self).sidebar_pick
            }),
            final(self).last_line_count == max2(line_count as int, 1),
            final(self).chat_viewport == max2(height as int, 1),
            final(self).scroll == (if old(self).following {
                final(self).max_scroll_spec()
            } else {
                min2(old(self).scroll as int, final(self).max_scroll_spec())
            }),
            final(self).following == old(self).following,
            final(self).scroll_target == old(self).scroll_target,
            final(self).sidebar_open == old(self).sidebar_open,
            final(self).sidebar_scroll == old(self).sidebar_scroll,
            final(self).sidebar_viewport == old(self).sidebar_viewport,
            same_input(*old(self), *final(self)),
            same_status(*old(self), *final(self)),
    {
        let n = anchors.len();
        self.history_anchors = anchors;
        if self.sidebar_pick >= n && n > 0 {
            self.sidebar_pick = n - 1;
        }
        self.last_line_count = if line_count >= 1 {
            line_count
        } else {
            1
        };
        self.chat_viewport = if height >= 1 {
            height as usize
        } else {
            1
        };
        if self.following {
            self.scroll = self.max_scroll();
        }
        let m = self.max_scroll();
        if self.scroll > m {
            self.scroll = m;
        }
    }
}

} // verus!
