//! Editing the input box.

use vstd::prelude::*;
use crate::commands::{suggestion_table, suggestions, CommandSuggestion};
use crate::text::{
    blen, byte_len, char_index_of_byte, char_width, chars_before, chars_of, is_boundary,
    lemma_blen_bounds, lemma_blen_take_mono, lemma_boundary_unique, owned, width,
};
use super::overlay::{
    field_ok, inserted, insert_at, lemma_inserted_blen, lemma_removed_blen, next_boundary,
    next_char_end, prev_boundary, prev_char_start, remove_at, removed_before, Overlay,
};
use super::suggestions::{first_line, first_line_of, offered, refresh_matches_first_line};
use super::{pick_down, pick_up, AppState};

verus! {

broadcast use vstd::string::group_string_axioms;

/// The palette after the input changed to `input`: the offered commands for its
/// first line, and the highlight kept if it still exists.
pub open spec fn palette_after(old_pick: usize, input: Seq<char>, s: AppState) -> bool {
    &&& s.suggestion_matches@ == offered(first_line(input))
    &&& s.suggestion_pick == (if old_pick < offered(first_line(input)).len() {
        old_pick
    } else {
        0
    })
}

impl AppState {
    /// Typing is possible: the agent is idle, no approval is pending, no panel is open.
    pub open spec fn editable(self) -> bool {
        !self.is_thinking && !self.awaiting_approval && self.overlay is Inactive
    }

    /// The cursor stands on a character boundary of the input (editing and
    /// moving slice the input there), and the input's encoding leaves room
    /// for one more character in `usize`.
    pub open spec fn cursor_ok(self) -> bool {
        field_ok(self.input@, self.cursor as int)
    }

    /// Whether typing is possible.
    pub fn can_edit_input(&self) -> (r: bool)
        ensures
            r == self.editable(),
    {
        !self.is_thinking && !self.awaiting_approval && !self.has_overlay()
    }

    /// Whether the cursor stands on a character boundary of the input.
    pub fn cursor_on_boundary(&self) -> (r: bool)
        ensures
            r == is_boundary(self.input@, self.cursor as int),
    {
        let v = chars_of(self.input.as_str());
        char_index_of_byte(&v, self.cursor).is_some()
    }

    /// Whether the input's encoding leaves room for one more character.
    pub fn input_has_room(&self) -> (r: bool)
        ensures
            r == (blen(self.input@) + 4 <= usize::MAX),
    {
        let v = chars_of(self.input.as_str());
        !crate::text::blen_exceeds(&v, usize::MAX - 4)
    }

    fn refresh_input_suggestions(&mut self)
        ensures
            palette_after(old(self).suggestion_pick, old(self).input@, *final(self)),
            final(self).input == old(self).input,
            final(self).cursor == old(self).cursor,
            final(self).input_scroll == old(self).input_scroll,
            super::same_scrolling(*final(self), *old(self)),
            super::same_sidebar(*final(self), *old(self)),
            super::same_status(*final(self), *old(self)),
    {
        let fl = first_line_of(self.input.as_str());
        refresh_matches_first_line(self, fl.as_str());
    }

    /// Types `c` at the cursor (when typing is possible).
    pub fn insert_char(&mut self, c: char)
        requires
            old(self).cursor_ok(),
        ensures
            !old(self).editable() ==> *final(self) == *old(self),
            old(self).editable() ==> {
                &&& final(self).input@ == inserted(old(self).input@, old(self).cursor as int, c)
                &&& final(self).cursor == old(self).cursor + width(c)
                &&& palette_after(old(self).suggestion_pick, final(self).input@, *final(self))
            },
            is_boundary(final(self).input@, final(self).cursor as int),
            blen(final(self).input@) <= blen(old(self).input@) + 4,
            final(self).input_scroll == old(self).input_scroll,
            super::same_scrolling(*final(self), *old(self)),
            super::same_sidebar(*final(self), *old(self)),
            super::same_status(*final(self), *old(self)),
    {
        if !self.can_edit_input() {
            return;
        }
        let v = chars_of(self.input.as_str());
        let k = char_index_of_byte(&v, self.cursor).unwrap();
        let w = char_width(c);
        let new_input = insert_at(&v, k, c);
        proof {
            lemma_inserted_blen(v@, k as int, c);
            lemma_blen_take_mono(v@, k as int, v@.len() as int);
            assert(v@.take(v@.len() as int) =~= v@);
            lemma_boundary_unique(new_input@, k + 1, self.cursor + w);
        }
        self.input = new_input;
        self.cursor = self.cursor + w;
        self.refresh_input_suggestions();
    }

    /// Starts a new line at the cursor (when typing is possible).
    pub fn insert_newline(&mut self)
        requires
            old(self).cursor_ok(),
        ensures
            !old(self).editable() ==> *final(self) == *old(self),
            old(self).editable() ==> {
                &&& final(self).input@ == inserted(old(self).input@, old(self).cursor as int, '\n')
                &&& final(self).cursor == old(self).cursor + 1
                &&& palette_after(old(self).suggestion_pick, final(self).input@, *final(self))
            },
            is_boundary(final(self).input@, final(self).cursor as int),
            blen(final(self).input@) <= blen(old(self).input@) + 4,
            final(self).input_scroll == old(self).input_scroll,
            super::same_scrolling(*final(self), *old(self)),
            super::same_sidebar(*final(self), *old(self)),
            super::same_status(*final(self), *old(self)),
    {
        self.insert_char('\n');
    }

    /// Deletes the character before the cursor (when typing is possible).
    pub fn backspace(&mut self)
        requires
            old(self).cursor_ok(),
        ensures
            !old(self).editable() || old(self).cursor == 0 ==> *final(self) == *old(self),
            old(self).editable() && old(self).cursor > 0 ==> {
                &&& final(self).input@ == removed_before(old(self).input@, old(self).cursor as int)
                &&& final(self).cursor == prev_boundary(old(self).input@, old(self).cursor as int)
                &&& palette_after(old(self).suggestion_pick, final(self).input@, *final(self))
            },
            final(self).cursor_ok(),
            final(self).input_scroll == old(self).input_scroll,
            super::same_scrolling(*final(self), *old(self)),
            super::same_sidebar(*final(self), *old(self)),
            super::same_status(*final(self), *old(self)),
    {
        if !self.can_edit_input() || self.cursor == 0 {
            return;
        }
        let v = chars_of(self.input.as_str());
        let prev = prev_char_start(&v, self.cursor);
        let k = char_index_of_byte(&v, self.cursor).unwrap();
        let new_input = remove_at(&v, k - 1);
        proof {
            let s = v@;
            assert(s.take(k - 1) + s.skip(k as int) == new_input@);
            let t = new_input@;
            lemma_removed_blen(s, k as int);
            lemma_boundary_unique(t, k - 1, prev as int);
        }
        self.input = new_input;
        self.cursor = prev;
        self.refresh_input_suggestions();
    }

    /// Moves the cursor one character left.
    pub fn move_cursor_left(&mut self)
        requires
            old(self).cursor_ok(),
        ensures
            final(self).cursor == (if old(self).cursor == 0 {
                0
            } else {
                prev_boundary(old(self).input@, old(self).cursor as int)
            }),
            final(self).cursor_ok(),
            final(self).input == old(self).input,
            final(self).input_scroll == old(self).input_scroll,
            final(self).suggestion_pick == old(self).suggestion_pick,
            final(self).suggestion_matches == old(self).suggestion_matches,
            super::same_scrolling(*final(self), *old(self)),
            super::same_sidebar(*final(self), *old(self)),
            super::same_status(*final(self), *old(self)),
    {
        if self.cursor == 0 {
            return;
        }
        let v = chars_of(self.input.as_str());
        let prev = prev_char_start(&v, self.cursor);
        proof {
            lemma_boundary_unique(v@, chars_before(v@, self.cursor as int) - 1, prev as int);
        }
        self.cursor = prev;
    }

    /// Moves the cursor one character right.
    pub fn move_cursor_right(&mut self)
        requires
            old(self).cursor_ok(),
        ensures
            final(self).cursor == (if old(self).cursor >= blen(old(self).input@) {
                old(self).cursor as int
            } else {
                next_boundary(old(self).input@, old(self).cursor as int)
            }),
            final(self).cursor_ok(),
            final(self).input == old(self).input,
            final(self).input_scroll == old(self).input_scroll,
            final(self).suggestion_pick == old(self).suggestion_pick,
            final(self).suggestion_matches == old(self).suggestion_matches,
            super::same_scrolling(*final(self), *old(self)),
            super::same_sidebar(*final(self), *old(self)),
            super::same_status(*final(self), *old(self)),
    {
        let v = chars_of(self.input.as_str());
        let n = byte_len(&v);
        if self.cursor >= n {
            return;
        }
        let next = next_char_end(&v, self.cursor);
        proof {
            lemma_boundary_unique(v@, chars_before(v@, self.cursor as int) + 1, next as int);
        }
        self.cursor = next;
    }

    /// Empties the input and the palette.
    pub fn clear_input(&mut self)
        ensures
            final(self).input@.len() == 0,
            final(self).cursor == 0,
            final(self).input_scroll == 0,
            final(self).suggestion_pick == 0,
            final(self).suggestion_matches@.len() == 0,
            final(self).cursor_ok(),
            super::same_scrolling(*final(self), *old(self)),
            super::same_sidebar(*final(self), *old(self)),
            super::same_status(*final(self), *old(self)),
    {
        self.input = String::new();
        self.cursor = 0;
        self.input_scroll = 0;
        self.suggestion_pick = 0;
        self.suggestion_matches = Vec::new();
        proof {
            assert(self.input@.take(0) =~= Seq::<char>::empty());
            lemma_boundary_unique(self.input@, 0, 0);
        }
    }

    /// Fills the input with the usage of the offered command at `index`.
    pub fn apply_suggestion(&mut self, index: usize)
        requires
            index < old(self).suggestion_matches@.len() ==> blen(
                old(self).suggestion_matches@[index as int]@,
            ) + 4 <= usize::MAX,
        ensures
            index >= old(self).suggestion_matches@.len() ==> *final(self) == *old(self),
            index < old(self).suggestion_matches@.len() ==> {
                &&& final(self).input@ == usage_of(old(self).suggestion_matches@[index as int])
                &&& final(self).cursor == blen(final(self).input@)
                &&& final(self).input_scroll == 0
                &&& palette_after(index, final(self).input@, *final(self))
                &&& final(self).cursor_ok()
            },
            super::same_scrolling(*final(self), *old(self)),
            super::same_sidebar(*final(self), *old(self)),
            super::same_status(*final(self), *old(self)),
    {
        if index >= self.suggestion_matches.len() {
            return;
        }
        let cmd = self.suggestion_matches[index];
        let usage = usage_for(cmd);
        self.input = owned(usage);
        let v = chars_of(self.input.as_str());
        proof {
            lemma_usage_short(cmd);
            lemma_blen_bounds(v@);
        }
        assert(blen(v@) + 4 <= usize::MAX);
        self.cursor = byte_len(&v);
        proof {
            assert(v@.take(v@.len() as int) =~= v@);
            lemma_boundary_unique(v@, v@.len() as int, self.cursor as int);
        }
        self.suggestion_pick = index;
        self.input_scroll = 0;
        self.refresh_input_suggestions();
    }

    /// Highlights the offered command above, wrapping to the last.
    pub fn suggestion_up(&mut self)
        ensures
            final(self).suggestion_pick == pick_up(
                old(self).suggestion_pick as int,
                old(self).suggestion_matches@.len() as int,
            ),
            final(self).suggestion_matches == old(self).suggestion_matches,
            final(self).input == old(self).input,
            final(self).cursor == old(self).cursor,
            final(self).input_scroll == old(self).input_scroll,
            super::same_scrolling(*final(self), *old(self)),
            super::same_sidebar(*final(self), *old(self)),
            super::same_status(*final(self), *old(self)),
    {
        if self.suggestion_matches.is_empty() {
            return;
        }
        if self.suggestion_pick == 0 {
            self.suggestion_pick = self.suggestion_matches.len() - 1;
        } else {
            self.suggestion_pick -= 1;
        }
    }

    /// Highlights the offered command below, wrapping to the first.
    pub fn suggestion_down(&mut self)
        requires
            old(self).suggestion_pick < usize::MAX,
        ensures
            final(self).suggestion_pick == pick_down(
                old(self).suggestion_pick as int,
                old(self).suggestion_matches@.len() as int,
            ),
            final(self).suggestion_matches == old(self).suggestion_matches,
            final(self).input == old(self).input,
            final(self).cursor == old(self).cursor,
            final(self).input_scroll == old(self).input_scroll,
            super::same_scrolling(*final(self), *old(self)),
            super::same_sidebar(*final(self), *old(self)),
            super::same_status(*final(self), *old(self)),
    {
        if self.suggestion_matches.is_empty() {
            return;
        }
        self.suggestion_pick = (self.suggestion_pick + 1) % self.suggestion_matches.len();
    }
}

/// The usage text of the palette entry for `cmd` (`cmd` itself when none).
pub open spec fn usage_of(cmd: &'static str) -> Seq<char> {
    let t = suggestion_table();
    if exists|i: int| 0 <= i < t.len() && t[i].cmd@ == cmd@ {
        t[first_entry(t, cmd@, 0)].usage@
    } else {
        cmd@
    }
}

/// The index of the first palette entry at or after `from` for `cmd`.
pub open spec fn first_entry(t: Seq<CommandSuggestion>, cmd: Seq<char>, from: int) -> int
    decreases t.len() - from,
{
    if from >= t.len() {
        from
    } else if t[from].cmd@ == cmd {
        from
    } else {
        first_entry(t, cmd, from + 1)
    }
}

proof fn lemma_first_entry(t: Seq<CommandSuggestion>, cmd: Seq<char>, from: int, i: int)
    requires
        0 <= from <= i < t.len(),
        t[i].cmd@ == cmd,
        forall|k: int| from <= k < i ==> t[k].cmd@ != cmd,
    ensures
        first_entry(t, cmd, from) == i,
    decreases i - from,
{
    if from < i {
        lemma_first_entry(t, cmd, from + 1, i);
    }
}

/// The usage text for `cmd`.
fn usage_for(cmd: &'static str) -> (r: &'static str)
    ensures
        r@ == usage_of(cmd),
{
    let table = suggestions();
    let mut i: usize = 0;
    while i < table.len()
        invariant
            i <= table@.len(),
            table@ == suggestion_table(),
            forall|k: int| 0 <= k < i ==> table@[k].cmd@ != cmd@,
        decreases table@.len() - i,
    {
        if crate::text::str_eq(table[i].cmd, cmd) {
            proof {
                lemma_first_entry(table@, cmd@, 0, i as int);
            }
            return table[i].usage;
        }
        i += 1;
    }
    cmd
}

/// Palette texts are short.
proof fn lemma_usage_short(cmd: &'static str)
    ensures
        usage_of(cmd) == cmd@ || usage_of(cmd).len() <= 16,
{
    reveal_strlit("/token ");
    reveal_strlit("/mode ");
    reveal_strlit("/settings");
    reveal_strlit("/clear");
    reveal_strlit("/history ");
    reveal_strlit("/help");
    let t = suggestion_table();
    if exists|i: int| 0 <= i < t.len() && t[i].cmd@ == cmd@ {
        let i = first_entry(t, cmd@, 0);
        let w = choose|i: int| 0 <= i < t.len() && t[i].cmd@ == cmd@;
        lemma_first_entry_bound(t, cmd@, 0, w);
    }
}

proof fn lemma_first_entry_bound(t: Seq<CommandSuggestion>, cmd: Seq<char>, from: int, w: int)
    requires
        0 <= from <= w < t.len(),
        t[w].cmd@ == cmd,
    ensures
        from <= first_entry(t, cmd, from) <= w,
    decreases w - from,
{
    if from < w && t[from].cmd@ != cmd {
        lemma_first_entry_bound(t, cmd, from + 1, w);
    }
}

} // verus!
