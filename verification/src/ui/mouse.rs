//! What the mouse does in the main view: the wheel scrolls the area under
//! the pointer, a click toggles the sidebar, jumps to a question, completes
//! a command, places the cursor or scrolls the transcript to a line.

use vstd::prelude::*;
use crate::text::blen;
use super::input::{palette_after, usage_of};
use super::keys::{key_ready, wrap_width_of};
use super::wrap::{click_offset, inner_w, input_viewport, visual_segs, PROMPT_COLS};
use super::{max2, min2, sat_sub, AppState, Rect};

verus! {

/// The kind of a mouse event.
#[derive(Clone, Copy, Debug)]
pub enum MouseKind {
    ScrollUp,
    ScrollDown,
    LeftDown,
    Other,
}

/// Where a wheel turn scrolls.
#[derive(Clone, Copy, PartialEq, Eq, Structural, Debug)]
pub enum WheelArea {
    SidebarList,
    Input,
    Chat,
    Palette,
    Nowhere,
}

/// The area a wheel turn at `(c, r)` scrolls, the first that holds the cell.
pub open spec fn wheel_area(s: AppState, c: u16, r: u16) -> WheelArea {
    if s.sidebar_open && (s.hitboxes.sidebar matches Some(b) && b.has(c, r)) {
        WheelArea::SidebarList
    } else if s.hitboxes.input_text.has(c, r) && s.editable() {
        WheelArea::Input
    } else if s.hitboxes.chat_inner.has(c, r) {
        WheelArea::Chat
    } else if s.hitboxes.suggestions matches Some(b) && b.has(c, r) {
        WheelArea::Palette
    } else {
        WheelArea::Nowhere
    }
}

/// The payload of the first row of `rows` that holds `(c, r)`.
pub open spec fn row_hit(rows: Seq<(Rect, usize)>, c: u16, r: u16) -> Option<usize>
    decreases rows.len(),
{
    if rows.len() == 0 {
        None
    } else if rows[0].0.has(c, r) {
        Some(rows[0].1)
    } else {
        row_hit(rows.drop_first(), c, r)
    }
}

/// The payload of the first row that holds `(c, r)`.
fn first_row_hit(rows: &Vec<(Rect, usize)>, c: u16, r: u16) -> (h: Option<usize>)
    ensures
        h == row_hit(rows@, c, r),
{
    let mut i: usize = 0;
    assert(rows@.skip(0) =~= rows@);
    while i < rows.len()
        invariant
            i <= rows@.len(),
            row_hit(rows@, c, r) == row_hit(rows@.skip(i as int), c, r),
        decreases rows@.len() - i,
    {
        let (rect, idx) = rows[i];
        assert(rows@.skip(i as int).drop_first() =~= rows@.skip(i + 1));
        assert(rows@.skip(i as int)[0] == rows@[i as int]);
        if rect.contains(c, r) {
            return Some(idx);
        }
        i += 1;
    }
    assert(rows@.skip(i as int).len() == 0);
    None
}

/// The state mouse events may be handled in: as for keys, with room for the
/// counters the wheel and clicks advance.
pub open spec fn mouse_ready(s: AppState) -> bool {
    &&& key_ready(s)
    &&& s.sidebar_scroll < usize::MAX
    &&& s.scroll + 3 <= usize::MAX
    &&& s.hitboxes.input_text.x + PROMPT_COLS <= u16::MAX
    &&& s.input_scroll + u16::MAX <= usize::MAX
}

/// Where a smooth scroll toward `line` of `s` heads: the line, clamped to the
/// last page, or nowhere when the view is already there.
pub open spec fn jump_target(s: AppState, line: int) -> Option<usize> {
    let target = min2(line, s.max_scroll_spec());
    if s.scroll == target {
        None
    } else {
        Some(target as usize)
    }
}

/// The transcript line shown on row `r` of the chat of `s`.
pub open spec fn chat_click_line(s: AppState, r: u16) -> int {
    min2(s.scroll + sat_sub(r as int, s.hitboxes.chat_inner.y as int), usize::MAX as int)
}

impl AppState {
    /// Whether mouse events may be handled now.
    pub fn ready_for_mouse(&self) -> (r: bool)
        ensures
            r == mouse_ready(*self),
    {
        self.ready_for_keys() && self.sidebar_scroll < usize::MAX && self.scroll <= usize::MAX - 3
            && self.hitboxes.input_text.x <= u16::MAX - PROMPT_COLS && self.input_scroll
            <= usize::MAX - 65535
    }

    /// Handles a mouse event at `(column, row)`; returns whether the view
    /// changed.
    pub fn handle_mouse(&mut self, kind: MouseKind, column: u16, row: u16) -> (redraw: bool)
        requires
            mouse_ready(*old(self)),
        ensures
            ({
                let s = *old(self);
                let t = *final(self);
                let c = column;
                let r = row;
                match kind {
                    MouseKind::ScrollUp => match wheel_area(s, c, r) {
                        WheelArea::SidebarList => redraw && t.sidebar_scroll == sat_sub(
                            s.sidebar_scroll as int,
                            1,
                        ),
                        WheelArea::Input => redraw && t.input_scroll == sat_sub(
                            s.input_scroll as int,
                            1,
                        ) && t.input == s.input,
                        WheelArea::Chat => redraw && t.scroll == sat_sub(s.scroll as int, 3),
                        WheelArea::Palette => redraw && t.suggestion_pick == super::pick_up(s.suggestion_pick as int, s.suggestion_matches@.len() as int),
                        WheelArea::Nowhere => !redraw && t == s,
                    },
                    MouseKind::ScrollDown => match wheel_area(s, c, r) {
                        WheelArea::SidebarList => redraw && t.sidebar_scroll == min2(
                            s.sidebar_scroll + 1,
                            sat_sub(
                                s.history_anchors@.len() as int,
                                max2(s.sidebar_viewport as int, 1),
                            ),
                        ),
                        WheelArea::Input => redraw && t.input == s.input && ({
                            let n = visual_segs(s.input@, inner_w(wrap_width_of(s) as int)).len() as int;
                            t.input_scroll == min2(s.input_scroll + 1, sat_sub(n, input_viewport(n)))
                        }),
                        WheelArea::Chat => redraw && t.scroll == min2(
                            s.scroll + 3,
                            s.max_scroll_spec(),
                        ),
                        WheelArea::Palette => redraw && t.suggestion_pick == super::pick_down(s.suggestion_pick as int, s.suggestion_matches@.len() as int),
                        WheelArea::Nowhere => !redraw && t == s,
                    },
                    MouseKind::LeftDown => {
                        let toggle = s.hitboxes.sidebar_toggle.has(c, r);
                        let side = if toggle {
                            None
                        } else {
                            row_hit(s.hitboxes.sidebar_rows@, c, r)
                        };
                        let pal = row_hit(s.hitboxes.suggestion_rows@, c, r);
                        let field = s.hitboxes.input_text.has(c, r) || s.hitboxes.input_outer.has(
                            c,
                            r,
                        );
                        let chat = s.hitboxes.chat_inner.has(c, r);
                        &&& redraw == (toggle || side is Some || pal is Some || field || chat)
                        &&& toggle ==> t.sidebar_open == !s.sidebar_open
                        &&& !toggle && side is None ==> t.sidebar_open == s.sidebar_open
                        &&& side matches Some(k) ==> (k < s.history_anchors@.len() ==> t.sidebar_pick == k
                            && t.scroll_target == jump_target(s, s.history_anchors@[k as int].line as int))
                        &&& pal matches Some(k) ==> (k < s.suggestion_matches@.len() ==> t.input@ == usage_of(s.suggestion_matches@[k as int])
                            && t.cursor == blen(t.input@) && t.input_scroll == 0 && palette_after(k, t.input@, t))
                        &&& !toggle && side is None && pal is None && field ==> t.cursor
                            == click_offset(c, r, s.hitboxes.input_text, s.input@, s.input_scroll as int)
                        &&& !toggle && side is None && pal is None && !field && chat ==> t.scroll == s.scroll
                            && !t.following && t.scroll_target == jump_target(s, chat_click_line(s, r))
                        &&& !redraw ==> t == s
                    },
                    MouseKind::Other => !redraw && t == s,
                }
            }),
    {
        match kind {
            MouseKind::ScrollUp => {
                let area = self.wheel_area_of(column, row);
                match area {
                    WheelArea::SidebarList => {
                        self.scroll_sidebar_list_up();
                        true
                    },
                    WheelArea::Input => {
                        let w = self.wrap_width();
                        self.scroll_input_up(w);
                        true
                    },
                    WheelArea::Chat => {
                        self.scroll_up(3);
                        true
                    },
                    WheelArea::Palette => {
                        self.suggestion_up();
                        true
                    },
                    WheelArea::Nowhere => false,
                }
            },
            MouseKind::ScrollDown => {
                let area = self.wheel_area_of(column, row);
                match area {
                    WheelArea::SidebarList => {
                        self.scroll_sidebar_list_down();
                        true
                    },
                    WheelArea::Input => {
                        let w = self.wrap_width();
                        self.scroll_input_down(w);
                        true
                    },
                    WheelArea::Chat => {
                        self.scroll_down(3);
                        true
                    },
                    WheelArea::Palette => {
                        self.suggestion_down();
                        true
                    },
                    WheelArea::Nowhere => false,
                }
            },
            MouseKind::LeftDown => self.click(column, row),
            MouseKind::Other => false,
        }
    }

    /// The width the input wraps at: its recorded width, at least 20.
    fn wrap_width(&self) -> (w: u16)
        ensures
            w == wrap_width_of(*self),
    {
        if self.hitboxes.input_wrap_width >= 20 {
            self.hitboxes.input_wrap_width
        } else {
            20
        }
    }

    /// The area a wheel turn at `(c, r)` scrolls.
    fn wheel_area_of(&self, c: u16, r: u16) -> (a: WheelArea)
        ensures
            a == wheel_area(*self, c, r),
    {
        let in_sidebar = match self.hitboxes.sidebar {
            Some(b) => b.contains(c, r),
            None => false,
        };
        if self.sidebar_open && in_sidebar {
            WheelArea::SidebarList
        } else if self.hitboxes.input_text.contains(c, r) && self.can_edit_input() {
            WheelArea::Input
        } else if self.hitboxes.chat_inner.contains(c, r) {
            WheelArea::Chat
        } else {
            let in_palette = match self.hitboxes.suggestions {
                Some(b) => b.contains(c, r),
                None => false,
            };
            if in_palette {
                WheelArea::Palette
            } else {
                WheelArea::Nowhere
            }
        }
    }

    /// A left click at `(c, r)`.
    fn click(&mut self, c: u16, r: u16) -> (redraw: bool)
        requires
            mouse_ready(*old(self)),
        ensures
            ({
                let s = *old(self);
                let t = *final(self);
                let toggle = s.hitboxes.sidebar_toggle.has(c, r);
                let side = if toggle {
                    None
                } else {
                    row_hit(s.hitboxes.sidebar_rows@, c, r)
                };
                let pal = row_hit(s.hitboxes.suggestion_rows@, c, r);
                let field = s.hitboxes.input_text.has(c, r) || s.hitboxes.input_outer.has(c, r);
                let chat = s.hitboxes.chat_inner.has(c, r);
                &&& redraw == (toggle || side is Some || pal is Some || field || chat)
                &&& toggle ==> t.sidebar_open == !s.sidebar_open
                &&& !toggle && side is None ==> t.sidebar_open == s.sidebar_open
                &&& side matches Some(k) ==> (k < s.history_anchors@.len() ==> t.sidebar_pick == k
                            && t.scroll_target == jump_target(s, s.history_anchors@[k as int].line as int))
                &&& pal matches Some(k) ==> (k < s.suggestion_matches@.len() ==> t.input@ == usage_of(s.suggestion_matches@[k as int])
                            && t.cursor == blen(t.input@) && t.input_scroll == 0 && palette_after(k, t.input@, t))
                &&& !toggle && side is None && pal is None && field ==> t.cursor == click_offset(
                    c,
                    r,
                    s.hitboxes.input_text,
                    s.input@,
                    s.input_scroll as int,
                )
                &&& !toggle && side is None && pal is None && !field && chat ==> t.scroll == s.scroll
                    && !t.following && t.scroll_target == jump_target(s, chat_click_line(s, r))
                &&& !redraw ==> t == s
            }),
    {
        let mut redraw = false;
        if self.hitboxes.sidebar_toggle.contains(c, r) {
            self.toggle_sidebar();
            redraw = true;
        }
        if !redraw {
            match first_row_hit(&self.hitboxes.sidebar_rows, c, r) {
                Some(idx) => {
                    self.jump_to_history(idx);
                    redraw = true;
                },
                None => {},
            }
        }
        match first_row_hit(&self.hitboxes.suggestion_rows, c, r) {
            Some(idx) => {
                self.apply_suggestion(idx);
                redraw = true;
            },
            None => {},
        }
        if !redraw && (self.hitboxes.input_text.contains(c, r) || self.hitboxes.input_outer.contains(
            c,
            r,
        )) {
            let area = self.hitboxes.input_text;
            self.set_cursor_from_click(c, r, area);
            redraw = true;
        }
        if !redraw && self.hitboxes.chat_inner.contains(c, r) {
            let rel = r.saturating_sub(self.hitboxes.chat_inner.y) as usize;
            let line = self.scroll.saturating_add(rel);
            self.scroll_to_line(line);
            redraw = true;
        }
        redraw
    }
}

} // verus!
