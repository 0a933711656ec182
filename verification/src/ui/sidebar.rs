//! The history sidebar: the questions of the transcript, one per row.

use vstd::prelude::*;
use crate::text::{chars_of, concat2, string_of_range, trim, trim_chars};
use super::suggestions::{first_line, first_line_of};
use super::{max2, min2, pick_down, pick_up, sat_sub, AppState, HistoryAnchor, Rect};

verus! {

broadcast use vstd::string::group_string_axioms;

/// The width of the open sidebar.
pub const OPEN_WIDTH: u16 = 32;

/// The width of the closed sidebar's tab.
pub const TAB_WIDTH: u16 = 4;

/// The columns the sidebar takes.
pub fn width(state: &AppState) -> (w: u16)
    ensures
        w == (if state.sidebar_open {
            OPEN_WIDTH
        } else {
            TAB_WIDTH
        }),
{
    if state.sidebar_open {
        OPEN_WIDTH
    } else {
        TAB_WIDTH
    }
}

/// The last of the first `n` anchors that starts at or above line `lim`, or 0.
pub open spec fn last_anchor_until(a: Seq<HistoryAnchor>, lim: int, n: int) -> int
    decreases n,
{
    if n <= 0 {
        0
    } else if a[n - 1].line <= lim {
        n - 1
    } else {
        last_anchor_until(a, lim, n - 1)
    }
}

/// The question the view is showing: the last one that starts at or above the
/// line after the top line of the view (the first when none does).
pub open spec fn active_index(a: Seq<HistoryAnchor>, scroll: usize) -> Option<int> {
    if a.len() == 0 {
        None
    } else {
        Some(last_anchor_until(a, min2(scroll + 1, usize::MAX as int), a.len() as int))
    }
}

/// The scroll offset of a list that keeps row `pick` in a view of `vp` rows.
pub open spec fn keep_visible(pick: int, scroll: int, vp: int) -> int {
    let v = max2(vp, 1);
    if pick < scroll {
        pick
    } else if pick >= scroll + v {
        pick + 1 - v
    } else {
        scroll
    }
}

/// What `truncate_preview` shows: the trimmed first line, cut to fit `max`
/// columns with an ellipsis.
pub open spec fn preview(s: Seq<char>, max: int) -> Seq<char> {
    let one = trim(first_line(s));
    if one.len() <= max {
        one
    } else {
        one.take(sat_sub(max, 2)) + "…"@
    }
}

/// The first line of a question, trimmed and cut to `max` characters.
pub fn truncate_preview(s: &str, max: usize) -> (r: String)
    ensures
        r@ == preview(s@, max as int),
{
    let fl = first_line_of(s);
    let fv = chars_of(fl.as_str());
    let one = trim_chars(&fv);
    if one.len() <= max {
        return string_of_range(&one, 0, one.len());
    }
    let keep = max.saturating_sub(2);
    let head = string_of_range(&one, 0, keep);
    proof {
        assert(one@.subrange(0, keep as int) =~= one@.take(keep as int));
        assert(one@.subrange(0, one@.len() as int) =~= one@);
    }
    concat2(head.as_str(), "…")
}

impl AppState {
    /// The index of the question the view is showing.
    pub fn active_history_index(&self) -> (r: Option<usize>)
        ensures
            r matches Some(i) ==> active_index(self.history_anchors@, self.scroll) == Some(
                i as int,
            ) && i < self.history_anchors@.len(),
            r is None ==> active_index(self.history_anchors@, self.scroll) is None,
    {
        let n = self.history_anchors.len();
        if n == 0 {
            return None;
        }
        let lim = self.scroll.saturating_add(1);
        let mut i = n;
        while i > 0
            invariant
                i <= n == self.history_anchors@.len(),
                lim == min2(self.scroll + 1, usize::MAX as int),
                last_anchor_until(self.history_anchors@, lim as int, n as int)
                    == last_anchor_until(self.history_anchors@, lim as int, i as int),
            decreases i,
        {
            if self.history_anchors[i - 1].line <= lim {
                return Some(i - 1);
            }
            i -= 1;
        }
        Some(0)
    }

    fn ensure_sidebar_pick_visible(&mut self)
        requires
            old(self).sidebar_scroll + max2(old(self).sidebar_viewport as int, 1) <= usize::MAX,
        ensures
            final(self).sidebar_scroll == keep_visible(
                old(self).sidebar_pick as int,
                old(self).sidebar_scroll as int,
                old(self).sidebar_viewport as int,
            ),
            final(self).sidebar_pick == old(self).sidebar_pick,
            final(self).sidebar_open == old(self).sidebar_open,
            final(self).history_anchors == old(self).history_anchors,
            final(self).sidebar_viewport == old(self).sidebar_viewport,
            super::same_scrolling(*final(self), *old(self)),
            super::same_input(*final(self), *old(self)),
            super::same_status(*final(self), *old(self)),
    {
        let viewport = if self.sidebar_viewport >= 1 {
            self.sidebar_viewport
        } else {
            1
        };
        if self.sidebar_pick < self.sidebar_scroll {
            self.sidebar_scroll = self.sidebar_pick;
        } else if self.sidebar_pick >= self.sidebar_scroll + viewport {
            self.sidebar_scroll = self.sidebar_pick - viewport + 1;
        }
    }

    /// Opens the sidebar on the question in view (the last when there is none).
    pub fn open_sidebar(&mut self)
        requires
            old(self).sidebar_scroll + max2(old(self).sidebar_viewport as int, 1) <= usize::MAX,
        ensures
            final(self).sidebar_open,
            final(self).sidebar_pick == (match active_index(
                old(self).history_anchors@,
                old(self).scroll,
            ) {
                Some(i) => i,
                None => 0,
            }),
            final(self).sidebar_scroll == keep_visible(
                final(self).sidebar_pick as int,
                old(self).sidebar_scroll as int,
                old(self).sidebar_viewport as int,
            ),
            final(self).history_anchors == old(self).history_anchors,
            final(self).sidebar_viewport == old(self).sidebar_viewport,
            super::same_scrolling(*final(self), *old(self)),
            super::same_input(*final(self), *old(self)),
            super::same_status(*final(self), *old(self)),
    {
        self.sidebar_open = true;
        self.sidebar_pick = match self.active_history_index() {
            Some(i) => i,
            None => self.history_anchors.len().saturating_sub(1),
        };
        self.ensure_sidebar_pick_visible();
    }

    /// Closes the sidebar.
    pub fn close_sidebar(&mut self)
        ensures
            !final(self).sidebar_open,
            final(self).sidebar_pick == old(self).sidebar_pick,
            final(self).sidebar_scroll == old(self).sidebar_scroll,
            final(self).history_anchors == old(self).history_anchors,
            final(self).sidebar_viewport == old(self).sidebar_viewport,
            super::same_scrolling(*final(self), *old(self)),
            super::same_input(*final(self), *old(self)),
            super::same_status(*final(self), *old(self)),
    {
        self.sidebar_open = false;
    }

    /// Opens a closed sidebar, closes an open one.
    pub fn toggle_sidebar(&mut self)
        requires
            old(self).sidebar_scroll + max2(old(self).sidebar_viewport as int, 1) <= usize::MAX,
        ensures
            final(self).sidebar_open == !old(self).sidebar_open,
            old(self).sidebar_open ==> final(self).sidebar_pick == old(self).sidebar_pick
                && final(self).sidebar_scroll == old(self).sidebar_scroll,
            !old(self).sidebar_open ==> final(self).sidebar_pick == (match active_index(
                old(self).history_anchors@,
                old(self).scroll,
            ) {
                Some(i) => i,
                None => 0,
            }),
            final(self).history_anchors == old(self).history_anchors,
            final(self).sidebar_viewport == old(self).sidebar_viewport,
            super::same_scrolling(*final(self), *old(self)),
            super::same_input(*final(self), *old(self)),
            super::same_status(*final(self), *old(self)),
    {
        if self.sidebar_open {
            self.close_sidebar();
        } else {
            self.open_sidebar();
        }
    }

    /// Highlights the question above, wrapping to the last.
    pub fn sidebar_up(&mut self)
        requires
            old(self).history_anchors@.len() > 0 ==> old(self).sidebar_pick
                < old(self).history_anchors@.len(),
            old(self).sidebar_scroll + max2(old(self).sidebar_viewport as int, 1) <= usize::MAX,
        ensures
            final(self).sidebar_pick == pick_up(
                old(self).sidebar_pick as int,
                old(self).history_anchors@.len() as int,
            ),
            old(self).history_anchors@.len() > 0 ==> final(self).sidebar_scroll == keep_visible(
                final(self).sidebar_pick as int,
                old(self).sidebar_scroll as int,
                old(self).sidebar_viewport as int,
            ),
            final(self).sidebar_open == old(self).sidebar_open,
            final(self).history_anchors == old(self).history_anchors,
            final(self).sidebar_viewport == old(self).sidebar_viewport,
            super::same_scrolling(*final(self), *old(self)),
            super::same_input(*final(self), *old(self)),
            super::same_status(*final(self), *old(self)),
    {
        if self.history_anchors.len() == 0 {
            return;
        }
        if self.sidebar_pick == 0 {
            self.sidebar_pick = self.history_anchors.len() - 1;
        } else {
            self.sidebar_pick -= 1;
        }
        self.ensure_sidebar_pick_visible();
    }

    /// Highlights the question below, wrapping to the first.
    pub fn sidebar_down(&mut self)
        requires
            old(self).sidebar_pick < usize::MAX,
            old(self).sidebar_scroll + max2(old(self).sidebar_viewport as int, 1) <= usize::MAX,
        ensures
            final(self).sidebar_pick == pick_down(
                old(self).sidebar_pick as int,
                old(self).history_anchors@.len() as int,
            ),
            old(self).history_anchors@.len() > 0 ==> final(self).sidebar_scroll == keep_visible(
                final(self).sidebar_pick as int,
                old(self).sidebar_scroll as int,
                old(self).sidebar_viewport as int,
            ),
            final(self).sidebar_open == old(self).sidebar_open,
            final(self).history_anchors == old(self).history_anchors,
            final(self).sidebar_viewport == old(self).sidebar_viewport,
            super::same_scrolling(*final(self), *old(self)),
            super::same_input(*final(self), *old(self)),
            super::same_status(*final(self), *old(self)),
    {
        if self.history_anchors.len() == 0 {
            return;
        }
        self.sidebar_pick = (self.sidebar_pick + 1) % self.history_anchors.len();
        self.ensure_sidebar_pick_visible();
    }

    /// Scrolls the question list one row up.
    pub fn scroll_sidebar_list_up(&mut self)
        ensures
            final(self).sidebar_scroll == sat_sub(old(self).sidebar_scroll as int, 1),
            final(self).sidebar_pick == old(self).sidebar_pick,
            final(self).sidebar_open == old(self).sidebar_open,
            final(self).history_anchors == old(self).history_anchors,
            final(self).sidebar_viewport == old(self).sidebar_viewport,
            super::same_scrolling(*final(self), *old(self)),
            super::same_input(*final(self), *old(self)),
            super::same_status(*final(self), *old(self)),
    {
        self.sidebar_scroll = self.sidebar_scroll.saturating_sub(1);
    }

    /// Scrolls the question list one row down, no further than its last page.
    pub fn scroll_sidebar_list_down(&mut self)
        requires
            old(self).sidebar_scroll < usize::MAX,
        ensures
            final(self).sidebar_scroll == min2(
                old(self).sidebar_scroll + 1,
                sat_sub(
                    old(self).history_anchors@.len() as int,
                    max2(old(self).sidebar_viewport as int, 1),
                ),
            ),
            final(self).sidebar_pick == old(self).sidebar_pick,
            final(self).sidebar_open == old(self).sidebar_open,
            final(self).history_anchors == old(self).history_anchors,
            final(self).sidebar_viewport == old(self).sidebar_viewport,
            super::same_scrolling(*final(self), *old(self)),
            super::same_input(*final(self), *old(self)),
            super::same_status(*final(self), *old(self)),
    {
        let viewport = if self.sidebar_viewport >= 1 {
            self.sidebar_viewport
        } else {
            1
        };
        let max = self.history_anchors.len().saturating_sub(viewport);
        let s = self.sidebar_scroll + 1;
        self.sidebar_scroll = if s <= max {
            s
        } else {
            max
        };
    }

    /// Highlights question `idx` and scrolls the transcript to it smoothly.
    pub fn jump_to_history(&mut self, idx: usize)
        ensures
            idx >= old(self).history_anchors@.len() ==> *final(self) == *old(self),
            idx < old(self).history_anchors@.len() ==> {
                let line = old(self).history_anchors@[idx as int].line;
                let target = min2(line as int, old(self).max_scroll_spec());
                &&& final(self).sidebar_pick == idx
                &&& !final(self).following
                &&& final(self).scroll == old(self).scroll
                &&& final(self).scroll_target == (if old(self).scroll == target {
                    None::<usize>
                } else {
                    Some(target as usize)
                })
            },
            final(self).sidebar_open == old(self).sidebar_open,
            final(self).sidebar_scroll == old(self).sidebar_scroll,
            final(self).history_anchors == old(self).history_anchors,
            final(self).last_line_count == old(self).last_line_count,
            final(self).chat_viewport == old(self).chat_viewport,
            super::same_input(*final(self), *old(self)),
            super::same_status(*final(self), *old(self)),
    {
        if idx < self.history_anchors.len() {
            let line = self.history_anchors[idx].line;
            self.sidebar_pick = idx;
            self.begin_smooth_scroll_to(line);
        }
    }

    /// Scrolls the transcript to the highlighted question.
    pub fn jump_to_sidebar_pick(&mut self)
        ensures
            old(self).sidebar_pick >= old(self).history_anchors@.len() ==> *final(self) == *old(
                self,
            ),
            old(self).sidebar_pick < old(self).history_anchors@.len() ==> {
                let line = old(self).history_anchors@[old(self).sidebar_pick as int].line;
                let target = min2(line as int, old(self).max_scroll_spec());
                &&& final(self).sidebar_pick == old(self).sidebar_pick
                &&& !final(self).following
                &&& final(self).scroll_target == (if old(self).scroll == target {
                    None::<usize>
                } else {
                    Some(target as usize)
                })
            },
            final(self).scroll == old(self).scroll,
            final(self).history_anchors == old(self).history_anchors,
            super::same_input(*final(self), *old(self)),
            super::same_status(*final(self), *old(self)),
    {
        let pick = self.sidebar_pick;
        self.jump_to_history(pick);
    }
}

impl AppState {
    /// Takes in the height of the sidebar's list: records it as the viewport
    /// and keeps the list's scroll offset in range.
    pub fn place_sidebar_list(&mut self, height: u16)
        ensures
            final(self).sidebar_viewport == max2(height as int, 1),
            old(self).history_anchors@.len() > 0 ==> final(self).sidebar_scroll == min2(
                old(self).sidebar_scroll as int,
                sat_sub(old(self).history_anchors@.len() as int, max2(height as int, 1)),
            ),
            old(self).history_anchors@.len() == 0 ==> final(self).sidebar_scroll == old(self).sidebar_scroll,
            final(self).sidebar_pick == old(self).sidebar_pick,
            final(self).sidebar_open == old(self).sidebar_open,
            final(self).history_anchors == old(self).history_anchors,
            super::same_scrolling(*final(self), *old(self)),
            super::same_input(*final(self), *old(self)),
            super::same_status(*final(self), *old(self)),
    {
        let viewport: usize = if height >= 1 {
            height as usize
        } else {
            1
        };
        self.sidebar_viewport = viewport;
        let count = self.history_anchors.len();
        if count > 0 {
            let max_scroll = count.saturating_sub(viewport);
            if self.sidebar_scroll > max_scroll {
                self.sidebar_scroll = max_scroll;
            }
        }
    }
}

/// `a + k`, held at `u16::MAX`.
pub open spec fn sat_add_u16(a: u16, k: int) -> int {
    min2(a + k, u16::MAX as int)
}

/// A row of the history list: where it stands, the question whose preview
/// it shows, and the index it goes by (its number is one more; it is
/// highlighted when that index is the pick, and a click on `cell` jumps to
/// it).
pub struct SidebarRow {
    pub cell: Rect,
    pub question: usize,
    pub index: usize,
    pub selected: bool,
}

/// The rows of the history list in `list`, from question `scroll` on: one
/// row per question while the viewport and the questions last. Row `k` shows
/// question `scroll + k`; as the list has always been drawn, it goes by that
/// position counted once more from `scroll` (index `2 * scroll + k`), and its
/// cell stands `scroll + k` lines into the list (the line offset taken as a
/// `u16`, the sum held at `u16::MAX`).
pub fn sidebar_rows(list: Rect, scroll: usize, viewport: usize, count: usize, pick: usize) -> (r: Vec<
    SidebarRow,
>)
    requires
        count + scroll <= usize::MAX,
    ensures
        r@.len() == min2(viewport as int, sat_sub(count as int, scroll as int)),
        forall|k: int|
            0 <= k < r@.len() ==> {
                let at = scroll + k;
                &&& (#[trigger] r@[k]).question == at
                &&& r@[k].index == at + scroll
                &&& r@[k].cell == Rect {
                    x: list.x,
                    y: sat_add_u16(list.y, (at as u16) as int) as u16,
                    width: list.width,
                    height: 1,
                }
                &&& r@[k].selected == (at + scroll == pick)
            },
{
    let left: usize = count.saturating_sub(scroll);
    let n: usize = if viewport <= left {
        viewport
    } else {
        left
    };
    let mut r: Vec<SidebarRow> = Vec::new();
    let mut k: usize = 0;
    while k < n
        invariant
            k <= n,
            n == min2(viewport as int, sat_sub(count as int, scroll as int)),
            count + scroll <= usize::MAX,
            r@.len() == k,
            forall|j: int|
                0 <= j < k ==> {
                    let at = scroll + j;
                    &&& (#[trigger] r@[j]).question == at
                    &&& r@[j].index == at + scroll
                    &&& r@[j].cell == Rect {
                        x: list.x,
                        y: sat_add_u16(list.y, (at as u16) as int) as u16,
                        width: list.width,
                        height: 1,
                    }
                    &&& r@[j].selected == (at + scroll == pick)
                },
        decreases n - k,
    {
        let at = scroll + k;
        let y: u16 = list.y.saturating_add(at as u16);
        let index = at + scroll;
        r.push(SidebarRow {
            cell: Rect { x: list.x, y, width: list.width, height: 1 },
            question: at,
            index,
            selected: index == pick,
        });
        k += 1;
    }
    r
}

} // verus!
