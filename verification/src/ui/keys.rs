//! What a key press does in the main view: which of the interface's actions
//! it selects, in the order the shortcuts take precedence, and what the
//! application is asked to do afterwards (quit, answer an approval, run a
//! command, send a prompt).

use vstd::prelude::*;
use crate::text::{blen, chars_of, is_boundary, str_eq, string_of, trim, trim_str};
use super::input::{palette_after, usage_of};
use super::overlay::{inserted, next_boundary, prev_boundary, removed_before, KeyCode, Overlay};
use super::wrap::{cursor_line, inner_w, moved_cursor, scroll_for_cursor, visual_segs};
use super::suggestions::{first_line, first_line_of, palette_visible, visible};
use super::{max2, sat_sub, same_input, same_scrolling, same_sidebar, same_status, AppState};
use crate::text::width;

verus! {

broadcast use vstd::string::group_string_axioms;

/// A key press with its modifiers.
#[derive(Clone, Copy, Debug)]
pub struct KeyPress {
    pub code: KeyCode,
    pub ctrl: bool,
    pub shift: bool,
    pub alt: bool,
}

/// The action a key selects.
#[derive(Clone, Copy, PartialEq, Eq, Structural, Debug)]
pub enum KeyCase {
    /// A panel is open: the key is the panel's.
    ToPanel,
    Approve,
    Deny,
    Ignore,
    Quit,
    CloseSidebar,
    ClearInput,
    ToggleSidebar,
    SidebarUp,
    SidebarDown,
    JumpToPick,
    CompleteSuggestion,
    SuggestionUp,
    SuggestionDown,
    CursorUpLine,
    CursorDownLine,
    ScrollUp,
    ScrollDown,
    PageUp,
    PageDown,
    CursorLeft,
    CursorRight,
    CursorHome,
    CursorEnd,
    Newline,
    Submit,
    Backspace,
    Type(char),
}

/// The action `k` selects in state `s`: the first shortcut whose condition
/// holds.
pub open spec fn key_case(s: AppState, k: KeyPress) -> KeyCase {
    let showing = palette_visible(s);
    let edit = s.editable();
    let empty = s.input@.len() == 0;
    if s.overlay !is Inactive {
        KeyCase::ToPanel
    } else if s.awaiting_approval {
        match k.code {
            KeyCode::Char(c) => if c == 'y' || c == 'Y' {
                KeyCase::Approve
            } else if c == 'n' || c == 'N' {
                KeyCase::Deny
            } else {
                KeyCase::Ignore
            },
            KeyCode::Esc => KeyCase::Deny,
            _ => KeyCase::Ignore,
        }
    } else {
        match k.code {
            KeyCode::Char(c) => if (c == 'c' || c == 'q') && k.ctrl {
                KeyCase::Quit
            } else if c == 'b' && k.ctrl {
                KeyCase::ToggleSidebar
            } else if c == 'h' && empty && edit {
                KeyCase::ToggleSidebar
            } else if c == 'k' && empty {
                KeyCase::ScrollUp
            } else if (c == 'j' || c == 'J') && k.ctrl && edit {
                KeyCase::Newline
            } else if c == 'j' && empty {
                KeyCase::ScrollDown
            } else if edit {
                KeyCase::Type(c)
            } else {
                KeyCase::Ignore
            },
            KeyCode::Esc => if s.sidebar_open {
                KeyCase::CloseSidebar
            } else if edit {
                KeyCase::ClearInput
            } else {
                KeyCase::Ignore
            },
            KeyCode::Up => if s.sidebar_open {
                KeyCase::SidebarUp
            } else if showing {
                KeyCase::SuggestionUp
            } else if edit && !empty {
                KeyCase::CursorUpLine
            } else {
                KeyCase::ScrollUp
            },
            KeyCode::Down => if s.sidebar_open {
                KeyCase::SidebarDown
            } else if showing {
                KeyCase::SuggestionDown
            } else if edit && !empty {
                KeyCase::CursorDownLine
            } else {
                KeyCase::ScrollDown
            },
            KeyCode::Enter => if s.sidebar_open {
                KeyCase::JumpToPick
            } else if !s.is_thinking && (k.shift || k.ctrl || k.alt) && edit {
                KeyCase::Newline
            } else if !s.is_thinking {
                KeyCase::Submit
            } else {
                KeyCase::Ignore
            },
            KeyCode::Tab => if showing {
                KeyCase::CompleteSuggestion
            } else {
                KeyCase::Ignore
            },
            KeyCode::PageUp => KeyCase::PageUp,
            KeyCode::PageDown => KeyCase::PageDown,
            KeyCode::Left => if edit {
                KeyCase::CursorLeft
            } else {
                KeyCase::Ignore
            },
            KeyCode::Right => if edit {
                KeyCase::CursorRight
            } else {
                KeyCase::Ignore
            },
            KeyCode::Home => if edit {
                KeyCase::CursorHome
            } else {
                KeyCase::Ignore
            },
            KeyCode::End => if edit {
                KeyCase::CursorEnd
            } else {
                KeyCase::Ignore
            },
            KeyCode::Backspace => if edit {
                KeyCase::Backspace
            } else {
                KeyCase::Ignore
            },
            KeyCode::Other => KeyCase::Ignore,
        }
    }
}

impl AppState {
    /// The action the key `k` selects.
    pub fn route_key(&self, k: KeyPress) -> (r: KeyCase)
        ensures
            r == key_case(*self, k),
    {
        if self.has_overlay() {
            return KeyCase::ToPanel;
        }
        if self.awaiting_approval {
            return match k.code {
                KeyCode::Char(c) => if c == 'y' || c == 'Y' {
                    KeyCase::Approve
                } else if c == 'n' || c == 'N' {
                    KeyCase::Deny
                } else {
                    KeyCase::Ignore
                },
                KeyCode::Esc => KeyCase::Deny,
                _ => KeyCase::Ignore,
            };
        }
        let showing = visible(self);
        let edit = self.can_edit_input();
        let empty = self.input.as_str().is_empty();
        match k.code {
            KeyCode::Char(c) => if (c == 'c' || c == 'q') && k.ctrl {
                KeyCase::Quit
            } else if c == 'b' && k.ctrl {
                KeyCase::ToggleSidebar
            } else if c == 'h' && empty && edit {
                KeyCase::ToggleSidebar
            } else if c == 'k' && empty {
                KeyCase::ScrollUp
            } else if (c == 'j' || c == 'J') && k.ctrl && edit {
                KeyCase::Newline
            } else if c == 'j' && empty {
                KeyCase::ScrollDown
            } else if edit {
                KeyCase::Type(c)
            } else {
                KeyCase::Ignore
            },
            KeyCode::Esc => if self.sidebar_open {
                KeyCase::CloseSidebar
            } else if edit {
                KeyCase::ClearInput
            } else {
                KeyCase::Ignore
            },
            KeyCode::Up => if self.sidebar_open {
                KeyCase::SidebarUp
            } else if showing {
                KeyCase::SuggestionUp
            } else if edit && !empty {
                KeyCase::CursorUpLine
            } else {
                KeyCase::ScrollUp
            },
            KeyCode::Down => if self.sidebar_open {
                KeyCase::SidebarDown
            } else if showing {
                KeyCase::SuggestionDown
            } else if edit && !empty {
                KeyCase::CursorDownLine
            } else {
                KeyCase::ScrollDown
            },
            KeyCode::Enter => if self.sidebar_open {
                KeyCase::JumpToPick
            } else if !self.is_thinking && (k.shift || k.ctrl || k.alt) && edit {
                KeyCase::Newline
            } else if !self.is_thinking {
                KeyCase::Submit
            } else {
                KeyCase::Ignore
            },
            KeyCode::Tab => if showing {
                KeyCase::CompleteSuggestion
            } else {
                KeyCase::Ignore
            },
            KeyCode::PageUp => KeyCase::PageUp,
            KeyCode::PageDown => KeyCase::PageDown,
            KeyCode::Left => if edit {
                KeyCase::CursorLeft
            } else {
                KeyCase::Ignore
            },
            KeyCode::Right => if edit {
                KeyCase::CursorRight
            } else {
                KeyCase::Ignore
            },
            KeyCode::Home => if edit {
                KeyCase::CursorHome
            } else {
                KeyCase::Ignore
            },
            KeyCode::End => if edit {
                KeyCase::CursorEnd
            } else {
                KeyCase::Ignore
            },
            KeyCode::Backspace => if edit {
                KeyCase::Backspace
            } else {
                KeyCase::Ignore
            },
            KeyCode::Other => KeyCase::Ignore,
        }
    }
}

/// What the application is to do after a key.
pub enum KeyOutcome {
    /// Nothing changed.
    Nothing,
    /// The view changed: draw it again.
    Redraw,
    Quit,
    /// A panel is open: hand the key to it.
    ToPanel,
    /// The user answered the approval prompt.
    Answer(bool),
    /// Run this slash command.
    Command(String),
    /// Send this prompt to the agent.
    Prompt(String),
}

/// The state keys may be handled in: the cursor on a boundary, and the
/// counters that keys advance below their limits.
pub open spec fn key_ready(s: AppState) -> bool {
    &&& s.cursor_ok()
    &&& s.sidebar_scroll + max2(s.sidebar_viewport as int, 1) <= usize::MAX
    &&& s.history_anchors@.len() > 0 ==> s.sidebar_pick < s.history_anchors@.len()
    &&& s.sidebar_pick < usize::MAX
    &&& s.suggestion_pick < usize::MAX
    &&& forall|i: int|
        0 <= i < s.suggestion_matches@.len() ==> blen(#[trigger] s.suggestion_matches@[i]@) + 4
            <= usize::MAX
    &&& s.scroll + max2(s.page_spec(), 1) <= usize::MAX
}

/// The width the input wraps at: its recorded width, at least 20.
pub open spec fn wrap_width_of(s: AppState) -> u16 {
    if s.hitboxes.input_wrap_width >= 20 {
        s.hitboxes.input_wrap_width
    } else {
        20
    }
}

/// After an edit of the input of `s`, the input box of `t` scrolls to show
/// the cursor (wrapped at the width the last frame gave it).
pub open spec fn shows_cursor(t: AppState, s: AppState) -> bool {
    t.input_scroll == scroll_for_cursor(
        t.input@,
        t.cursor as int,
        s.input_scroll as int,
        wrap_width_of(s) as int,
    )
}

/// The command the palette has picked, or the empty text.
pub open spec fn picked_command(s: AppState) -> Seq<char> {
    if s.suggestion_pick < s.suggestion_matches@.len() {
        s.suggestion_matches@[s.suggestion_pick as int]@
    } else {
        Seq::empty()
    }
}

/// Enter completes the picked command instead of sending: the palette is
/// shown and the input is neither that command nor one that runs as typed.
pub open spec fn enter_completes(s: AppState) -> bool {
    let cur = trim(s.input@);
    &&& palette_visible(s)
    &&& cur != picked_command(s)
    &&& cur != "/help"@
    &&& cur != "/clear"@
    &&& cur != "/settings"@
    &&& cur != "/history"@
}

/// The line a sent input runs as a command: its first line, trimmed.
pub open spec fn command_line(s: AppState) -> Seq<char> {
    trim(first_line(trim(s.input@)))
}

impl AppState {
    /// Whether keys may be handled now.
    pub fn ready_for_keys(&self) -> (r: bool)
        ensures
            r == key_ready(*self),
    {
        if !self.cursor_ok_now() {
            return false;
        }
        let vp: usize = if self.sidebar_viewport >= 1 {
            self.sidebar_viewport
        } else {
            1
        };
        if self.sidebar_scroll > usize::MAX - vp {
            return false;
        }
        if self.history_anchors.len() > 0 && self.sidebar_pick >= self.history_anchors.len() {
            return false;
        }
        if self.sidebar_pick == usize::MAX || self.suggestion_pick == usize::MAX {
            return false;
        }
        let mut i: usize = 0;
        while i < self.suggestion_matches.len()
            invariant
                i <= self.suggestion_matches@.len(),
                forall|j: int|
                    0 <= j < i ==> blen(#[trigger] self.suggestion_matches@[j]@) + 4 <= usize::MAX,
            decreases self.suggestion_matches@.len() - i,
        {
            let v = chars_of(self.suggestion_matches[i]);
            if crate::text::blen_exceeds(&v, usize::MAX - 4) {
                return false;
            }
            i += 1;
        }
        let page: usize = if self.chat_viewport >= 2 {
            self.chat_viewport - 1
        } else {
            1
        };
        if self.scroll > usize::MAX - page {
            return false;
        }
        true
    }

    /// Carries out the action the key `k` selects and says what the
    /// application is to do next.
    pub fn handle_key(&mut self, k: KeyPress) -> (r: KeyOutcome)
        requires
            key_ready(*old(self)),
        ensures
            ({
                let s = *old(self);
                let t = *final(self);
                match key_case(s, k) {
                    KeyCase::ToPanel => r is ToPanel && t == s,
                    KeyCase::Ignore => r is Nothing && t == s,
                    KeyCase::Quit => r is Quit && t == s,
                    KeyCase::Approve => r == KeyOutcome::Answer(true) && !t.awaiting_approval
                        && t.approval_summary is None && t.is_thinking && t.entries == s.entries,
                    KeyCase::Deny => r == KeyOutcome::Answer(false) && !t.awaiting_approval
                        && t.approval_summary is None && t.is_thinking && t.entries == s.entries,
                    KeyCase::CloseSidebar => r is Redraw && !t.sidebar_open && same_input(t, s),
                    KeyCase::ClearInput => r is Redraw && t.input@.len() == 0 && t.cursor == 0
                        && t.input_scroll == 0 && t.suggestion_matches@.len() == 0,
                    KeyCase::ToggleSidebar => r is Redraw && t.sidebar_open == !s.sidebar_open,
                    KeyCase::SidebarUp => r is Redraw && t.sidebar_pick == super::pick_up(s.sidebar_pick as int, s.history_anchors@.len() as int),
                    KeyCase::SidebarDown => r is Redraw && t.sidebar_pick == super::pick_down(s.sidebar_pick as int, s.history_anchors@.len() as int),
                    KeyCase::JumpToPick => r is Redraw && t.sidebar_pick == s.sidebar_pick
                        && t.scroll == s.scroll && (s.sidebar_pick < s.history_anchors@.len() ==> {
                        let target = super::min2(
                            s.history_anchors@[s.sidebar_pick as int].line as int,
                            s.max_scroll_spec(),
                        );
                        t.scroll_target == (if s.scroll == target {
                            None::<usize>
                        } else {
                            Some(target as usize)
                        })
                    }),
                    KeyCase::CompleteSuggestion => r is Redraw && (s.suggestion_pick
                        < s.suggestion_matches@.len() ==> t.input@ == usage_of(
                        s.suggestion_matches@[s.suggestion_pick as int],
                    ) && t.cursor == blen(t.input@) && t.input_scroll == 0 && palette_after(
                        s.suggestion_pick,
                        t.input@,
                        t,
                    )),
                    KeyCase::SuggestionUp => r is Redraw && t.suggestion_pick == super::pick_up(s.suggestion_pick as int, s.suggestion_matches@.len() as int),
                    KeyCase::SuggestionDown => r is Redraw && t.suggestion_pick == super::pick_down(s.suggestion_pick as int, s.suggestion_matches@.len() as int),
                    KeyCase::CursorUpLine => r is Redraw && t.input == s.input && ({
                        let segs = visual_segs(s.input@, inner_w(wrap_width_of(s) as int));
                        let vis = cursor_line(segs, s.cursor as int);
                        if segs.len() == 0 || vis == 0 {
                            t.cursor == s.cursor && t.input_scroll == s.input_scroll
                        } else {
                            t.cursor == moved_cursor(segs, vis, vis - 1, s.cursor as int)
                                && shows_cursor(t, s)
                        }
                    }),
                    KeyCase::CursorDownLine => r is Redraw && t.input == s.input && ({
                        let segs = visual_segs(s.input@, inner_w(wrap_width_of(s) as int));
                        let vis = cursor_line(segs, s.cursor as int);
                        if segs.len() == 0 || vis + 1 >= segs.len() {
                            t.cursor == s.cursor && t.input_scroll == s.input_scroll
                        } else {
                            t.cursor == moved_cursor(segs, vis, vis + 1, s.cursor as int)
                                && shows_cursor(t, s)
                        }
                    }),
                    KeyCase::ScrollUp => r is Redraw && t.scroll == sat_sub(s.scroll as int, 1),
                    KeyCase::ScrollDown => r is Redraw && t.scroll == super::min2(
                        s.scroll + 1,
                        s.max_scroll_spec(),
                    ),
                    KeyCase::PageUp => r is Redraw && t.scroll == sat_sub(
                        s.scroll as int,
                        s.page_spec(),
                    ),
                    KeyCase::PageDown => r is Redraw && t.scroll == super::min2(
                        s.scroll + s.page_spec(),
                        s.max_scroll_spec(),
                    ),
                    KeyCase::CursorLeft => r is Redraw && t.input == s.input && t.cursor == (
                    if s.cursor == 0 {
                        0
                    } else {
                        prev_boundary(s.input@, s.cursor as int)
                    }) && t.input_scroll == s.input_scroll,
                    KeyCase::CursorRight => r is Redraw && t.input == s.input && t.cursor == (
                    if s.cursor >= blen(s.input@) {
                        s.cursor as int
                    } else {
                        next_boundary(s.input@, s.cursor as int)
                    }) && t.input_scroll == s.input_scroll,
                    KeyCase::CursorHome => r is Redraw && t.input == s.input && t.cursor == 0
                        && shows_cursor(t, s),
                    KeyCase::CursorEnd => r is Redraw && t.input == s.input && t.cursor == blen(
                        s.input@,
                    ) && shows_cursor(t, s),
                    KeyCase::Newline => r is Redraw && t.input@ == inserted(
                        s.input@,
                        s.cursor as int,
                        '\n',
                    ) && t.cursor == s.cursor + 1 && palette_after(s.suggestion_pick, t.input@, t)
                        && shows_cursor(t, s),
                    KeyCase::Backspace => r is Redraw && (s.cursor > 0 ==> t.input@ == removed_before(
                        s.input@,
                        s.cursor as int,
                    ) && t.cursor == prev_boundary(s.input@, s.cursor as int) && palette_after(
                        s.suggestion_pick,
                        t.input@,
                        t,
                    )) && (s.cursor == 0 ==> t.input == s.input && t.cursor == s.cursor)
                        && shows_cursor(t, s),
                    KeyCase::Type(c) => r is Redraw && t.input@ == inserted(
                        s.input@,
                        s.cursor as int,
                        c,
                    ) && t.cursor == s.cursor + width(c) && palette_after(
                        s.suggestion_pick,
                        t.input@,
                        t,
                    ) && shows_cursor(t, s),
                    KeyCase::Submit => if enter_completes(s) {
                        &&& r is Redraw
                        &&& s.suggestion_pick < s.suggestion_matches@.len() ==> t.input@
                            == usage_of(s.suggestion_matches@[s.suggestion_pick as int])
                        &&& s.suggestion_pick >= s.suggestion_matches@.len() ==> t == s
                    } else if trim(s.input@).len() == 0 {
                        r is Nothing && t == s
                    } else {
                        &&& t.input@.len() == 0
                        &&& t.cursor == 0
                        &&& same_status(t, s)
                        &&& if command_line(s).len() > 0 && command_line(s)[0] == '/' {
                            r matches KeyOutcome::Command(c) && c@ == command_line(s)
                        } else {
                            r matches KeyOutcome::Prompt(p) && p@ == trim(s.input@)
                        }
                    },
                }
            }),
    {
        let case = self.route_key(k);
        let w: u16 = if self.hitboxes.input_wrap_width >= 20 {
            self.hitboxes.input_wrap_width
        } else {
            20
        };
        match case {
            KeyCase::ToPanel => KeyOutcome::ToPanel,
            KeyCase::Ignore => KeyOutcome::Nothing,
            KeyCase::Quit => KeyOutcome::Quit,
            KeyCase::Approve => {
                self.clear_approval();
                KeyOutcome::Answer(true)
            },
            KeyCase::Deny => {
                self.clear_approval();
                KeyOutcome::Answer(false)
            },
            KeyCase::CloseSidebar => {
                self.close_sidebar();
                KeyOutcome::Redraw
            },
            KeyCase::ClearInput => {
                self.clear_input();
                KeyOutcome::Redraw
            },
            KeyCase::ToggleSidebar => {
                self.toggle_sidebar();
                KeyOutcome::Redraw
            },
            KeyCase::SidebarUp => {
                self.sidebar_up();
                KeyOutcome::Redraw
            },
            KeyCase::SidebarDown => {
                self.sidebar_down();
                KeyOutcome::Redraw
            },
            KeyCase::JumpToPick => {
                self.jump_to_sidebar_pick();
                KeyOutcome::Redraw
            },
            KeyCase::CompleteSuggestion => {
                let pick = self.suggestion_pick;
                self.apply_suggestion(pick);
                KeyOutcome::Redraw
            },
            KeyCase::SuggestionUp => {
                self.suggestion_up();
                KeyOutcome::Redraw
            },
            KeyCase::SuggestionDown => {
                self.suggestion_down();
                KeyOutcome::Redraw
            },
            KeyCase::CursorUpLine => {
                self.move_cursor_up_line(w);
                KeyOutcome::Redraw
            },
            KeyCase::CursorDownLine => {
                self.move_cursor_down_line(w);
                KeyOutcome::Redraw
            },
            KeyCase::ScrollUp => {
                self.scroll_up(1);
                KeyOutcome::Redraw
            },
            KeyCase::ScrollDown => {
                self.scroll_down(1);
                KeyOutcome::Redraw
            },
            KeyCase::PageUp => {
                self.page_up();
                KeyOutcome::Redraw
            },
            KeyCase::PageDown => {
                self.page_down();
                KeyOutcome::Redraw
            },
            KeyCase::CursorLeft => {
                self.move_cursor_left();
                KeyOutcome::Redraw
            },
            KeyCase::CursorRight => {
                self.move_cursor_right();
                KeyOutcome::Redraw
            },
            KeyCase::CursorHome => {
                self.cursor = 0;
                self.ensure_input_scroll(w);
                KeyOutcome::Redraw
            },
            KeyCase::CursorEnd => {
                let v = chars_of(self.input.as_str());
                self.cursor = crate::text::byte_len(&v);
                self.ensure_input_scroll(w);
                KeyOutcome::Redraw
            },
            KeyCase::Newline => {
                self.insert_newline();
                self.ensure_input_scroll(w);
                KeyOutcome::Redraw
            },
            KeyCase::Backspace => {
                self.backspace();
                self.ensure_input_scroll(w);
                KeyOutcome::Redraw
            },
            KeyCase::Type(c) => {
                self.insert_char(c);
                self.ensure_input_scroll(w);
                KeyOutcome::Redraw
            },
            KeyCase::Submit => self.submit(),
        }
    }

    /// Enter in the input: completes the picked command, or takes the input
    /// away as a command or a prompt.
    fn submit(&mut self) -> (r: KeyOutcome)
        requires
            key_ready(*old(self)),
            old(self).overlay is Inactive,
        ensures
            ({
                let s = *old(self);
                let t = *final(self);
                if enter_completes(s) {
                    &&& r is Redraw
                    &&& s.suggestion_pick < s.suggestion_matches@.len() ==> t.input@ == usage_of(
                        s.suggestion_matches@[s.suggestion_pick as int],
                    )
                    &&& s.suggestion_pick >= s.suggestion_matches@.len() ==> t == s
                } else if trim(s.input@).len() == 0 {
                    r is Nothing && t == s
                } else {
                    &&& t.input@.len() == 0
                    &&& t.cursor == 0
                    &&& same_status(t, s)
                    &&& if command_line(s).len() > 0 && command_line(s)[0] == '/' {
                        r matches KeyOutcome::Command(c) && c@ == command_line(s)
                    } else {
                        r matches KeyOutcome::Prompt(p) && p@ == trim(s.input@)
                    }
                }
            }),
    {
        let current = trim_str(self.input.as_str());
        if visible(self) {
            let pick = self.suggestion_pick;
            let cmd: &str = if pick < self.suggestion_matches.len() {
                self.suggestion_matches[pick]
            } else {
                ""
            };
            proof {
                reveal_strlit("");
                assert(cmd@ == picked_command(*self));
            }
            let c = current.as_str();
            if !str_eq(c, cmd) && !str_eq(c, "/help") && !str_eq(c, "/clear") && !str_eq(
                c,
                "/settings",
            ) && !str_eq(c, "/history") {
                self.apply_suggestion(pick);
                return KeyOutcome::Redraw;
            }
        }
        if current.as_str().is_empty() {
            return KeyOutcome::Nothing;
        }
        let first = first_line_of(current.as_str());
        let line = trim_str(first.as_str());
        self.clear_input();
        let lv = chars_of(line.as_str());
        if lv.len() > 0 && lv[0] == '/' {
            KeyOutcome::Command(line)
        } else {
            KeyOutcome::Prompt(current)
        }
    }

    /// Whether the cursor stands on a boundary and the input leaves room.
    fn cursor_ok_now(&self) -> (r: bool)
        ensures
            r == self.cursor_ok(),
    {
        self.input_has_room() && self.cursor_on_boundary()
    }
}

} // verus!
