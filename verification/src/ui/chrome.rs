//! The small decisions of the frame around the transcript: the status the
//! header shows, the glyph of the rail, the key hints of the footer and the
//! placeholder of an empty input.

use vstd::prelude::*;
use super::suggestions::{palette_visible, visible};
use super::theme::{pulse, pulse_frames, spin, spin_frames};
use super::AppState;

verus! {

broadcast use vstd::string::group_string_axioms;

/// The colour of the header's status.
#[derive(Clone, Copy, PartialEq, Eq, Structural, Debug)]
pub enum StatusTone {
    Ready,
    Busy,
    Warn,
}

/// The header's status: its label, its icon and its colour.
pub fn header_status(state: &AppState) -> (r: (&'static str, &'static str, StatusTone))
    ensures
        state.awaiting_approval ==> r.0@ == "APPROVE"@ && r.1@ == "!"@ && r.2 == StatusTone::Warn,
        !state.awaiting_approval && state.is_thinking ==> r.0@ == "BUSY"@ && r.1@
            == spin_frames()[(state.spinner_frame % 8) as int] && r.2 == StatusTone::Busy,
        !state.awaiting_approval && !state.is_thinking ==> r.0@ == "READY"@ && r.1@
            == pulse_frames()[(state.spinner_frame % 8) as int] && r.2 == StatusTone::Ready,
{
    if state.awaiting_approval {
        ("APPROVE", "!", StatusTone::Warn)
    } else if state.is_thinking {
        ("BUSY", spin(state.spinner_frame), StatusTone::Busy)
    } else {
        ("READY", pulse(state.spinner_frame), StatusTone::Ready)
    }
}

/// The glyph the rail repeats: the spinner while thinking, `!` while an
/// approval waits, else a bar.
pub fn rail_glyph(state: &AppState) -> (r: &'static str)
    ensures
        state.is_thinking ==> r@ == spin_frames()[(state.spinner_frame % 8) as int],
        !state.is_thinking && state.awaiting_approval ==> r@ == "!"@,
        !state.is_thinking && !state.awaiting_approval ==> r@ == "┃"@,
{
    if state.is_thinking {
        spin(state.spinner_frame)
    } else if state.awaiting_approval {
        "!"
    } else {
        "┃"
    }
}

/// The placeholder of an empty input.
pub fn placeholder(state: &AppState) -> (r: &'static str)
    ensures
        !state.editable() ==> r@ == "waiting..."@,
        state.editable() && state.has_token ==> r@ == "message or /command  (ctrl+enter newline)"@,
        state.editable() && !state.has_token ==> r@ == "set token to start — type /token"@,
{
    if !state.can_edit_input() {
        "waiting..."
    } else if state.has_token {
        "message or /command  (ctrl+enter newline)"
    } else {
        "set token to start — type /token"
    }
}

/// Which hints the footer shows.
#[derive(Clone, Copy, PartialEq, Eq, Structural, Debug)]
pub enum FooterHints {
    /// A panel is open (with `esc close` where it may be closed).
    Panel,
    Approval,
    Palette,
    Sidebar,
    Typing,
    Idle,
}

/// The footer's hints for `state`.
pub open spec fn footer_for(state: AppState) -> FooterHints {
    if state.overlay !is Inactive {
        FooterHints::Panel
    } else if state.awaiting_approval {
        FooterHints::Approval
    } else if palette_visible(state) {
        FooterHints::Palette
    } else if state.sidebar_open {
        FooterHints::Sidebar
    } else if state.input@.len() > 0 {
        FooterHints::Typing
    } else {
        FooterHints::Idle
    }
}

/// The footer's hints.
pub fn footer_hints(state: &AppState) -> (r: FooterHints)
    ensures
        r == footer_for(*state),
{
    if state.has_overlay() {
        FooterHints::Panel
    } else if state.awaiting_approval {
        FooterHints::Approval
    } else if visible(state) {
        FooterHints::Palette
    } else if state.sidebar_open {
        FooterHints::Sidebar
    } else if !state.input.as_str().is_empty() {
        FooterHints::Typing
    } else {
        FooterHints::Idle
    }
}

/// The key hints of each footer: key and what it does.
pub open spec fn hint_table(h: FooterHints) -> Seq<(Seq<char>, Seq<char>)> {
    match h {
        FooterHints::Panel => seq![("enter"@, "confirm"@), ("esc"@, "close"@)],
        FooterHints::Approval => seq![("y"@, "approve"@), ("n"@, "deny"@), ("esc"@, "cancel"@)],
        FooterHints::Palette => seq![("up/down"@, "pick"@), ("tab"@, "fill"@), ("enter"@, "run"@)],
        FooterHints::Sidebar => seq![("up/down"@, "pick"@), ("enter"@, "jump"@), ("esc"@, "close"@)],
        FooterHints::Typing => seq![
            ("ctrl+enter"@, "newline"@),
            ("enter"@, "send"@),
            ("up/down"@, "move"@),
        ],
        FooterHints::Idle => seq![
            ("/history"@, "sidebar"@),
            ("h"@, "toggle"@),
            ("^b"@, "toggle"@),
            ("/"@, "cmds"@),
            ("enter"@, "send"@),
        ],
    }
}

/// The key hints of a footer.
pub fn hint_keys(h: FooterHints) -> (r: Vec<(&'static str, &'static str)>)
    ensures
        r@.map_values(|p: (&'static str, &'static str)| (p.0@, p.1@)) == hint_table(h),
{
    let r = match h {
        FooterHints::Panel => vec![("enter", "confirm"), ("esc", "close")],
        FooterHints::Approval => vec![("y", "approve"), ("n", "deny"), ("esc", "cancel")],
        FooterHints::Palette => vec![("up/down", "pick"), ("tab", "fill"), ("enter", "run")],
        FooterHints::Sidebar => vec![("up/down", "pick"), ("enter", "jump"), ("esc", "close")],
        FooterHints::Typing => vec![("ctrl+enter", "newline"), ("enter", "send"), ("up/down", "move")],
        FooterHints::Idle => vec![
            ("/history", "sidebar"),
            ("h", "toggle"),
            ("^b", "toggle"),
            ("/", "cmds"),
            ("enter", "send"),
        ],
    };
    assert(r@.map_values(|p: (&'static str, &'static str)| (p.0@, p.1@)) =~= hint_table(h));
    r
}

} // verus!
