//! The command palette shown while a command is typed.

use vstd::prelude::*;
use crate::commands::{matching_suggestions, suggestions_for, CommandSuggestion};
use crate::text::{chars_of, find_char, starts_with, string_of_range, vec_find_char, vec_starts_with_str};
use super::AppState;

verus! {

broadcast use vstd::string::group_string_axioms;

/// The first line of `s` as `str::lines` yields it (a `\r` before the first
/// `\n` is dropped), or `s` itself when it has no line break; empty for an
/// empty `s`.
pub open spec fn first_line(s: Seq<char>) -> Seq<char> {
    let i = find_char(s, '\n');
    if i < s.len() {
        let l = s.take(i as int);
        if l.len() > 0 && l.last() == '\r' {
            l.drop_last()
        } else {
            l
        }
    } else {
        s
    }
}

/// The first line of `s`.
pub fn first_line_of(s: &str) -> (r: String)
    ensures
        r@ == first_line(s@),
{
    let v = chars_of(s);
    let i = vec_find_char(&v, '\n');
    if i < v.len() {
        if i > 0 && v[i - 1] == '\r' {
            let r = string_of_range(&v, 0, i - 1);
            assert(v@.take(i as int).drop_last() =~= v@.subrange(0, i - 1));
            r
        } else {
            let r = string_of_range(&v, 0, i);
            assert(v@.take(i as int) =~= v@.subrange(0, i as int));
            r
        }
    } else {
        let r = string_of_range(&v, 0, i);
        assert(v@ =~= v@.subrange(0, i as int));
        r
    }
}

/// The commands offered for the typed text `line`.
pub open spec fn offered(line: Seq<char>) -> Seq<&'static str> {
    suggestions_for(line).map_values(|s: CommandSuggestion| s.cmd)
}

/// Whether the palette is shown: typing is possible, the first line starts a
/// command and something fits.
pub open spec fn palette_visible(state: AppState) -> bool {
    state.editable() && starts_with(first_line(state.input@), "/"@)
        && state.suggestion_matches@.len() > 0
}

/// Whether the palette is shown.
pub fn visible(state: &AppState) -> (r: bool)
    ensures
        r == palette_visible(*state),
{
    if !state.can_edit_input() {
        return false;
    }
    let fl = first_line_of(state.input.as_str());
    let v = chars_of(fl.as_str());
    vec_starts_with_str(&v, "/") && !state.suggestion_matches.is_empty()
}

/// The rows the palette takes: at most five entries and a border, or none.
pub fn height(state: &AppState) -> (r: u16)
    ensures
        r == (if palette_visible(*state) {
            (if state.suggestion_matches@.len() <= 5 {
                state.suggestion_matches@.len()
            } else {
                5
            }) + 2
        } else {
            0
        }),
{
    if !visible(state) {
        return 0;
    }
    let n = state.suggestion_matches.len();
    let rows: u16 = if n <= 5 {
        n as u16
    } else {
        5
    };
    rows + 2
}

/// Recomputes the offered commands for the first line of the input; the
/// highlighted row goes back to the top when it no longer exists.
pub fn refresh_matches_first_line(state: &mut AppState, first_line: &str)
    ensures
        final(state).suggestion_matches@ == offered(first_line@),
        final(state).suggestion_pick == (if old(state).suggestion_pick < offered(first_line@).len() {
            old(state).suggestion_pick
        } else {
            0
        }),
        final(state).input == old(state).input,
        final(state).cursor == old(state).cursor,
        final(state).input_scroll == old(state).input_scroll,
        super::same_scrolling(*final(state), *old(state)),
        super::same_sidebar(*final(state), *old(state)),
        super::same_status(*final(state), *old(state)),
{
    let found = matching_suggestions(first_line);
    let mut cmds: Vec<&'static str> = Vec::new();
    let mut i: usize = 0;
    while i < found.len()
        invariant
            i <= found@.len(),
            found@ == suggestions_for(first_line@),
            cmds@ == found@.take(i as int).map_values(|s: CommandSuggestion| s.cmd),
        decreases found@.len() - i,
    {
        cmds.push(found[i].cmd);
        i += 1;
        assert(cmds@ =~= found@.take(i as int).map_values(|s: CommandSuggestion| s.cmd));
    }
    assert(found@.take(found@.len() as int) =~= found@);
    state.suggestion_matches = cmds;
    if state.suggestion_pick >= state.suggestion_matches.len() {
        state.suggestion_pick = 0;
    }
}

} // verus!
