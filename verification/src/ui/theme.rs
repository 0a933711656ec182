//! The animation frames, the mode titles, and the colours and styles of the
//! interface.

use vstd::prelude::*;
use crate::mode::AgentMode;

verus! {

/// The spinner frames.
pub open spec fn spin_frames() -> Seq<Seq<char>> {
    seq!["⣾"@, "⣽"@, "⣻"@, "⢿"@, "⡿"@, "⣟"@, "⣯"@, "⣷"@]
}

/// The pulse frames.
pub open spec fn pulse_frames() -> Seq<Seq<char>> {
    seq!["○"@, "◔"@, "◑"@, "◕"@, "●"@, "◕"@, "◑"@, "◔"@]
}

/// The spinner glyph of animation frame `frame` (the frames repeat).
pub fn spin(frame: usize) -> (r: &'static str)
    ensures
        r@ == spin_frames()[(frame % 8) as int],
{
    let frames: [&'static str; 8] = ["⣾", "⣽", "⣻", "⢿", "⡿", "⣟", "⣯", "⣷"];
    let r = frames[frame % 8];
    assert(frames@.map_values(|s: &str| s@) =~= spin_frames());
    assert(r@ == frames@.map_values(|s: &str| s@)[(frame % 8) as int]);
    r
}

/// The pulse glyph of animation frame `frame` (the frames repeat).
pub fn pulse(frame: usize) -> (r: &'static str)
    ensures
        r@ == pulse_frames()[(frame % 8) as int],
{
    let frames: [&'static str; 8] = ["○", "◔", "◑", "◕", "●", "◕", "◑", "◔"];
    let r = frames[frame % 8];
    assert(frames@.map_values(|s: &str| s@) =~= pulse_frames());
    assert(r@ == frames@.map_values(|s: &str| s@)[(frame % 8) as int]);
    r
}

/// The header title of a mode.
pub fn mode_title(mode: AgentMode) -> (r: &'static str)
    ensures
        r@ == (match mode {
            AgentMode::God => "GOD"@,
            AgentMode::Base => "BASE"@,
        }),
{
    match mode {
        AgentMode::God => "GOD",
        AgentMode::Base => "BASE",
    }
}

// ---------------------------------------------------------------------------
// Colours and styles
// ---------------------------------------------------------------------------

/// A colour as red, green and blue.
#[derive(Clone, Copy, PartialEq, Eq, Structural, Debug)]
pub struct Rgb {
    pub r: u8,
    pub g: u8,
    pub b: u8,
}

/// The colours of the interface.
#[derive(Clone, Copy, PartialEq, Eq, Structural, Debug)]
pub enum Swatch {
    Void,
    Bg,
    Panel,
    Inset,
    Elevated,
    SelectedGlow,
    Text,
    Bright,
    Dim,
    Muted,
    Faint,
    Rule,
    Border,
    BorderFocus,
    AccentGod,
    AccentBase,
    AccentOk,
    AccentBusy,
    AccentWarn,
    AccentErr,
    AccentTool,
    AccentUser,
}

/// The colour of a swatch.
pub open spec fn swatch_rgb(s: Swatch) -> Rgb {
    match s {
        Swatch::Void => Rgb { r: 8, g: 8, b: 8 },
        Swatch::Bg => Rgb { r: 12, g: 12, b: 12 },
        Swatch::Panel => Rgb { r: 20, g: 20, b: 20 },
        Swatch::Inset => Rgb { r: 14, g: 14, b: 14 },
        Swatch::Elevated => Rgb { r: 26, g: 26, b: 26 },
        Swatch::SelectedGlow => Rgb { r: 48, g: 48, b: 48 },
        Swatch::Text => Rgb { r: 235, g: 235, b: 235 },
        Swatch::Bright => Rgb { r: 255, g: 255, b: 255 },
        Swatch::Dim => Rgb { r: 160, g: 160, b: 160 },
        Swatch::Muted => Rgb { r: 100, g: 100, b: 100 },
        Swatch::Faint => Rgb { r: 58, g: 58, b: 58 },
        Swatch::Rule => Rgb { r: 34, g: 34, b: 34 },
        Swatch::Border => Rgb { r: 48, g: 48, b: 48 },
        Swatch::BorderFocus => Rgb { r: 130, g: 130, b: 130 },
        Swatch::AccentGod => Rgb { r: 245, g: 245, b: 245 },
        Swatch::AccentBase => Rgb { r: 212, g: 168, b: 88 },
        Swatch::AccentOk => Rgb { r: 110, g: 210, b: 150 },
        Swatch::AccentBusy => Rgb { r: 130, g: 175, b: 255 },
        Swatch::AccentWarn => Rgb { r: 230, g: 175, b: 90 },
        Swatch::AccentErr => Rgb { r: 235, g: 105, b: 105 },
        Swatch::AccentTool => Rgb { r: 160, g: 195, b: 255 },
        Swatch::AccentUser => Rgb { r: 130, g: 195, b: 255 },
    }
}

/// The colour of a swatch.
pub fn color(s: Swatch) -> (c: Rgb)
    ensures
        c == swatch_rgb(s),
{
    match s {
        Swatch::Void => Rgb { r: 8, g: 8, b: 8 },
        Swatch::Bg => Rgb { r: 12, g: 12, b: 12 },
        Swatch::Panel => Rgb { r: 20, g: 20, b: 20 },
        Swatch::Inset => Rgb { r: 14, g: 14, b: 14 },
        Swatch::Elevated => Rgb { r: 26, g: 26, b: 26 },
        Swatch::SelectedGlow => Rgb { r: 48, g: 48, b: 48 },
        Swatch::Text => Rgb { r: 235, g: 235, b: 235 },
        Swatch::Bright => Rgb { r: 255, g: 255, b: 255 },
        Swatch::Dim => Rgb { r: 160, g: 160, b: 160 },
        Swatch::Muted => Rgb { r: 100, g: 100, b: 100 },
        Swatch::Faint => Rgb { r: 58, g: 58, b: 58 },
        Swatch::Rule => Rgb { r: 34, g: 34, b: 34 },
        Swatch::Border => Rgb { r: 48, g: 48, b: 48 },
        Swatch::BorderFocus => Rgb { r: 130, g: 130, b: 130 },
        Swatch::AccentGod => Rgb { r: 245, g: 245, b: 245 },
        Swatch::AccentBase => Rgb { r: 212, g: 168, b: 88 },
        Swatch::AccentOk => Rgb { r: 110, g: 210, b: 150 },
        Swatch::AccentBusy => Rgb { r: 130, g: 175, b: 255 },
        Swatch::AccentWarn => Rgb { r: 230, g: 175, b: 90 },
        Swatch::AccentErr => Rgb { r: 235, g: 105, b: 105 },
        Swatch::AccentTool => Rgb { r: 160, g: 195, b: 255 },
        Swatch::AccentUser => Rgb { r: 130, g: 195, b: 255 },
    }
}

/// A text style: foreground and background colours, and bold or not.
#[derive(Clone, Copy, PartialEq, Eq, Structural, Debug)]
pub struct Tint {
    pub fg: Option<Rgb>,
    pub bg: Option<Rgb>,
    pub bold: bool,
}

/// The style with these swatches.
pub open spec fn tint_of(fg: Option<Swatch>, bg: Option<Swatch>, bold: bool) -> Tint {
    Tint {
        fg: match fg {
            Some(s) => Some(swatch_rgb(s)),
            None => None,
        },
        bg: match bg {
            Some(s) => Some(swatch_rgb(s)),
            None => None,
        },
        bold,
    }
}

/// The style with these swatches.
fn tint(fg: Option<Swatch>, bg: Option<Swatch>, bold: bool) -> (t: Tint)
    ensures
        t == tint_of(fg, bg, bold),
{
    Tint {
        fg: match fg {
            Some(s) => Some(color(s)),
            None => None,
        },
        bg: match bg {
            Some(s) => Some(color(s)),
            None => None,
        },
        bold,
    }
}

/// The accent colour of a mode.
pub fn mode_accent(mode: AgentMode) -> (c: Rgb)
    ensures
        c == swatch_rgb(match mode {
            AgentMode::God => Swatch::AccentGod,
            AgentMode::Base => Swatch::AccentBase,
        }),
{
    match mode {
        AgentMode::God => color(Swatch::AccentGod),
        AgentMode::Base => color(Swatch::AccentBase),
    }
}

/// The bold accent of a mode.
pub fn accent(mode: AgentMode) -> (t: Tint)
    ensures
        t == (Tint { fg: Some(swatch_rgb(match mode {
            AgentMode::God => Swatch::AccentGod,
            AgentMode::Base => Swatch::AccentBase,
        })), bg: None, bold: true }),
{
    Tint { fg: Some(mode_accent(mode)), bg: None, bold: true }
}

/// A colour as bold text.
pub fn accent_fg(c: Rgb) -> (t: Tint)
    ensures
        t == (Tint { fg: Some(c), bg: None, bold: true }),
{
    Tint { fg: Some(c), bg: None, bold: true }
}

/// The cursor cell, inverted while it blinks on.
pub fn cursor_block(blink: bool) -> (t: Tint)
    ensures
        blink ==> t == tint_of(Some(Swatch::Inset), Some(Swatch::Bright), false),
        !blink ==> t == tint_of(Some(Swatch::Bright), Some(Swatch::Elevated), false),
{
    if blink {
        tint(Some(Swatch::Inset), Some(Swatch::Bright), false)
    } else {
        tint(Some(Swatch::Bright), Some(Swatch::Elevated), false)
    }
}

/// The background of the transcript.
pub fn bg() -> (t: Tint)
    ensures
        t == tint_of(None, Some(Swatch::Bg), false),
{
    tint(None, Some(Swatch::Bg), false)
}

/// The background behind everything (rail, panel scrim).
pub fn void() -> (t: Tint)
    ensures
        t == tint_of(None, Some(Swatch::Void), false),
{
    tint(None, Some(Swatch::Void), false)
}

/// The background of panels.
pub fn panel() -> (t: Tint)
    ensures
        t == tint_of(None, Some(Swatch::Panel), false),
{
    tint(None, Some(Swatch::Panel), false)
}

/// The background of sunken areas.
pub fn inset() -> (t: Tint)
    ensures
        t == tint_of(None, Some(Swatch::Inset), false),
{
    tint(None, Some(Swatch::Inset), false)
}

/// The background of raised areas (input, palette).
pub fn elevated() -> (t: Tint)
    ensures
        t == tint_of(None, Some(Swatch::Elevated), false),
{
    tint(None, Some(Swatch::Elevated), false)
}

/// Plain text.
pub fn text() -> (t: Tint)
    ensures
        t == tint_of(Some(Swatch::Text), None, false),
{
    tint(Some(Swatch::Text), None, false)
}

/// Emphasised text.
pub fn bright() -> (t: Tint)
    ensures
        t == tint_of(Some(Swatch::Bright), None, true),
{
    tint(Some(Swatch::Bright), None, true)
}

/// Secondary text.
pub fn dim() -> (t: Tint)
    ensures
        t == tint_of(Some(Swatch::Dim), None, false),
{
    tint(Some(Swatch::Dim), None, false)
}

/// Quiet text.
pub fn muted() -> (t: Tint)
    ensures
        t == tint_of(Some(Swatch::Muted), None, false),
{
    tint(Some(Swatch::Muted), None, false)
}

/// Barely visible text.
pub fn ghost() -> (t: Tint)
    ensures
        t == tint_of(Some(Swatch::Faint), None, false),
{
    tint(Some(Swatch::Faint), None, false)
}

/// A selected row.
pub fn selected_glow() -> (t: Tint)
    ensures
        t == tint_of(Some(Swatch::Bright), Some(Swatch::SelectedGlow), false),
{
    tint(Some(Swatch::Bright), Some(Swatch::SelectedGlow), false)
}

/// Borders.
pub fn border() -> (t: Tint)
    ensures
        t == tint_of(Some(Swatch::Border), None, false),
{
    tint(Some(Swatch::Border), None, false)
}

/// The border of the focused input.
pub fn border_focus() -> (t: Tint)
    ensures
        t == tint_of(Some(Swatch::BorderFocus), None, false),
{
    tint(Some(Swatch::BorderFocus), None, false)
}

/// Dividing rules.
pub fn rule() -> (t: Tint)
    ensures
        t == tint_of(Some(Swatch::Rule), None, false),
{
    tint(Some(Swatch::Rule), None, false)
}

/// The input prompt.
pub fn prompt() -> (t: Tint)
    ensures
        t == tint_of(Some(Swatch::Muted), None, false),
{
    tint(Some(Swatch::Muted), None, false)
}

/// Typed text and commands.
pub fn cmd() -> (t: Tint)
    ensures
        t == tint_of(Some(Swatch::Bright), None, false),
{
    tint(Some(Swatch::Bright), None, false)
}

/// A good status.
pub fn status_ok() -> (t: Tint)
    ensures
        t == tint_of(Some(Swatch::AccentOk), None, false),
{
    tint(Some(Swatch::AccentOk), None, false)
}

/// A busy status.
pub fn status_busy() -> (t: Tint)
    ensures
        t == tint_of(Some(Swatch::AccentBusy), None, false),
{
    tint(Some(Swatch::AccentBusy), None, false)
}

/// A status that needs attention.
pub fn status_warn() -> (t: Tint)
    ensures
        t == tint_of(Some(Swatch::AccentWarn), None, false),
{
    tint(Some(Swatch::AccentWarn), None, false)
}

/// An error.
pub fn status_err() -> (t: Tint)
    ensures
        t == tint_of(Some(Swatch::AccentErr), None, false),
{
    tint(Some(Swatch::AccentErr), None, false)
}

/// The backdrop behind a panel.
pub fn overlay_scrim() -> (t: Tint)
    ensures
        t == tint_of(Some(Swatch::Faint), Some(Swatch::Void), false),
{
    tint(Some(Swatch::Faint), Some(Swatch::Void), false)
}

/// The body of a panel.
pub fn overlay_body() -> (t: Tint)
    ensures
        t == tint_of(Some(Swatch::Text), Some(Swatch::Panel), false),
{
    tint(Some(Swatch::Text), Some(Swatch::Panel), false)
}

/// An input field of a panel.
pub fn overlay_field() -> (t: Tint)
    ensures
        t == tint_of(Some(Swatch::Text), Some(Swatch::Inset), false),
{
    tint(Some(Swatch::Text), Some(Swatch::Inset), false)
}

/// A label in a panel.
pub fn overlay_label() -> (t: Tint)
    ensures
        t == tint_of(Some(Swatch::Muted), None, false),
{
    tint(Some(Swatch::Muted), None, false)
}

/// A value in a panel.
pub fn overlay_value() -> (t: Tint)
    ensures
        t == tint_of(Some(Swatch::Dim), None, false),
{
    tint(Some(Swatch::Dim), None, false)
}

/// The active choice in a panel.
pub fn overlay_active() -> (t: Tint)
    ensures
        t == tint_of(Some(Swatch::AccentOk), None, false),
{
    tint(Some(Swatch::AccentOk), None, false)
}

/// Quiet borders in a panel.
pub fn overlay_muted_border() -> (t: Tint)
    ensures
        t == tint_of(Some(Swatch::Rule), None, false),
{
    tint(Some(Swatch::Rule), None, false)
}

/// The text of a question.
pub fn question_text() -> (t: Tint)
    ensures
        t == tint_of(Some(Swatch::Dim), None, false),
{
    tint(Some(Swatch::Dim), None, false)
}

/// The text of an answer.
pub fn answer_text() -> (t: Tint)
    ensures
        t == tint_of(Some(Swatch::Text), None, false),
{
    tint(Some(Swatch::Text), None, false)
}

/// Tool lines in the transcript.
pub fn tool_text() -> (t: Tint)
    ensures
        t == tint_of(Some(Swatch::Muted), None, false),
{
    tint(Some(Swatch::Muted), None, false)
}

} // verus!
