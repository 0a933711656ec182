//! The modal panels: token entry and settings.

use vstd::prelude::*;
use crate::mode::AgentMode;
use crate::text::{
    blen, chars_before, chars_of, char_index_of_byte, char_width, is_boundary, lemma_blen_take_mono,
    lemma_blen_take_step, lemma_boundary_unique, owned, string_of, trim, trim_str,
};
use super::AppState;

verus! {

broadcast use vstd::string::group_string_axioms;

/// The rows of the settings panel.
pub const SETTINGS_ROWS: usize = 3;

/// The panel shown over the interface, if any.
#[derive(Clone, Debug)]
pub enum Overlay {
    /// No panel is open.
    Inactive,
    TokenEntry { input: String, cursor: usize, error: Option<String>, dismissable: bool },
    Settings { pick: usize, masked_token: String, mode: AgentMode, config_path: String },
}

impl Default for Overlay {
    fn default() -> (o: Self)
        ensures
            o is Inactive,
    {
        Overlay::Inactive
    }
}

/// What a key pressed in a panel asks the application to do.
#[derive(Debug)]
pub enum OverlayAction {
    /// Nothing for the application to do.
    Nothing,
    Close,
    SaveToken(String),
    SetMode(AgentMode),
    OpenToken,
}

/// The keys the panels react to.
#[derive(Clone, Copy, Debug)]
pub enum KeyCode {
    Esc,
    Enter,
    Backspace,
    Left,
    Right,
    Home,
    End,
    Up,
    Down,
    PageUp,
    PageDown,
    Tab,
    Char(char),
    Other,
}

/// Unicode control characters (`char::is_control`): the `Cc` category.
pub open spec fn is_control_char(c: char) -> bool {
    (c as u32) <= 0x1f || (0x7f <= (c as u32) && (c as u32) <= 0x9f)
}

/// The state of the token field.
pub struct TokenField {
    pub input: String,
    pub cursor: usize,
    pub error: Option<String>,
}

/// The byte offset of the character boundary just before `cursor`.
pub open spec fn prev_boundary(s: Seq<char>, cursor: int) -> int {
    blen(s.take(chars_before(s, cursor) - 1)) as int
}

/// The byte offset of the character boundary just after `cursor`.
pub open spec fn next_boundary(s: Seq<char>, cursor: int) -> int {
    blen(s.take(chars_before(s, cursor) + 1)) as int
}

/// `s` with `c` inserted at the boundary `cursor`.
pub open spec fn inserted(s: Seq<char>, cursor: int, c: char) -> Seq<char> {
    let k = chars_before(s, cursor);
    s.take(k) + seq![c] + s.skip(k)
}

/// `s` without the character that ends at the boundary `cursor`.
pub open spec fn removed_before(s: Seq<char>, cursor: int) -> Seq<char> {
    let k = chars_before(s, cursor);
    s.take(k - 1) + s.skip(k)
}

/// The outcome of a key in the token field: the action and the field after it.
pub open spec fn token_key(
    input: Seq<char>,
    cursor: int,
    error: Option<Seq<char>>,
    dismissable: bool,
    code: KeyCode,
) -> (ActionView, Seq<char>, int, Option<Seq<char>>) {
    let unchanged = (ActionView::Nothing, input, cursor, error);
    match code {
        KeyCode::Esc => if dismissable {
            (ActionView::Close, input, cursor, None)
        } else {
            unchanged
        },
        KeyCode::Enter => if trim(input).len() == 0 {
            (ActionView::Nothing, input, cursor, Some("Token cannot be empty"@))
        } else {
            (ActionView::SaveToken(trim(input)), input, cursor, error)
        },
        KeyCode::Backspace => if cursor > 0 {
            (
                ActionView::Nothing,
                removed_before(input, cursor),
                prev_boundary(input, cursor),
                None,
            )
        } else {
            unchanged
        },
        KeyCode::Left => (
            ActionView::Nothing,
            input,
            if cursor > 0 {
                prev_boundary(input, cursor)
            } else {
                cursor
            },
            error,
        ),
        KeyCode::Right => (
            ActionView::Nothing,
            input,
            if cursor < blen(input) {
                next_boundary(input, cursor)
            } else {
                cursor
            },
            error,
        ),
        KeyCode::Home => (ActionView::Nothing, input, 0, error),
        KeyCode::End => (ActionView::Nothing, input, blen(input) as int, error),
        KeyCode::Char(c) => if !is_control_char(c) {
            (ActionView::Nothing, inserted(input, cursor, c), cursor + crate::text::width(c), None)
        } else {
            unchanged
        },
        _ => unchanged,
    }
}

/// An action as plain values.
pub enum ActionView {
    Nothing,
    Close,
    SaveToken(Seq<char>),
    SetMode(AgentMode),
    OpenToken,
}

/// The plain-value view of an action.
pub open spec fn action_view(a: OverlayAction) -> ActionView {
    match a {
        OverlayAction::Nothing => ActionView::Nothing,
        OverlayAction::Close => ActionView::Close,
        OverlayAction::SaveToken(t) => ActionView::SaveToken(t@),
        OverlayAction::SetMode(m) => ActionView::SetMode(m),
        OverlayAction::OpenToken => ActionView::OpenToken,
    }
}

/// The text of an optional string.
pub open spec fn opt_view(s: Option<String>) -> Option<Seq<char>> {
    match s {
        Some(t) => Some(t@),
        None => None,
    }
}

/// Where the cursor of the token field may stand: on a character boundary
/// whose encoding fits in `usize` (editing slices the field there).
pub open spec fn field_ok(input: Seq<char>, cursor: int) -> bool {
    is_boundary(input, cursor) && blen(input) + 4 <= usize::MAX
}

/// The character that stands for each character of a hidden token.
pub const MASK_CHAR: char = '•';

/// What the token field shows: the token hidden character by character (or a
/// placeholder while it is empty) and the index, in characters, of the cursor.
pub struct MaskedField {
    pub shown: String,
    pub cursor: usize,
    pub placeholder: bool,
}

/// The token field for `input` with its cursor at byte `cursor`.
pub fn masked_field(input: &str, cursor: usize) -> (f: MaskedField)
    requires
        field_ok(input@, cursor as int),
    ensures
        f.placeholder == (input@.len() == 0),
        f.placeholder ==> f.shown@ == "paste your key here"@ && f.cursor == 0,
        !f.placeholder ==> f.shown@ == Seq::new(input@.len(), |i: int| MASK_CHAR) && f.cursor
            == chars_before(input@, cursor as int),
{
    let v = chars_of(input);
    if v.len() == 0 {
        return MaskedField { shown: owned("paste your key here"), cursor: 0, placeholder: true };
    }
    let mut shown: Vec<char> = Vec::new();
    let mut i: usize = 0;
    while i < v.len()
        invariant
            i <= v@.len(),
            shown@ == Seq::new(i as nat, |j: int| MASK_CHAR),
        decreases v@.len() - i,
    {
        shown.push(MASK_CHAR);
        i += 1;
        assert(shown@ =~= Seq::new(i as nat, |j: int| MASK_CHAR));
    }
    let k = char_index_of_byte(&v, cursor).unwrap();
    MaskedField { shown: string_of(&shown), cursor: k, placeholder: false }
}

/// The byte offset before the character that ends at byte `cursor`.
pub(crate) fn prev_char_start(v: &Vec<char>, cursor: usize) -> (r: usize)
    requires
        is_boundary(v@, cursor as int),
        cursor > 0,
    ensures
        r == prev_boundary(v@, cursor as int),
        chars_before(v@, cursor as int) >= 1,
        r < cursor,
{
    let k = char_index_of_byte(v, cursor).unwrap();
    proof {
        if k == 0 {
            assert(v@.take(0) =~= Seq::<char>::empty());
            assert(blen(Seq::<char>::empty()) == 0);
        }
        lemma_blen_take_step(v@, k - 1);
    }
    cursor - char_width(v[k - 1])
}

/// The byte offset after the character that starts at byte `cursor`.
pub(crate) fn next_char_end(v: &Vec<char>, cursor: usize) -> (r: usize)
    requires
        is_boundary(v@, cursor as int),
        cursor < blen(v@),
        blen(v@) <= usize::MAX,
    ensures
        r == next_boundary(v@, cursor as int),
        chars_before(v@, cursor as int) < v@.len(),
        r > cursor,
        r <= blen(v@),
{
    let k = char_index_of_byte(v, cursor).unwrap();
    proof {
        assert(v@.take(v@.len() as int) =~= v@);
        if k == v@.len() {
        }
        lemma_blen_take_step(v@, k as int);
        lemma_blen_take_mono(v@, k + 1, v@.len() as int);
    }
    cursor + char_width(v[k])
}

/// `s` with `c` inserted before the character at index `k`.
pub(crate) fn insert_at(v: &Vec<char>, k: usize, c: char) -> (r: String)
    requires
        k <= v@.len(),
    ensures
        r@ == v@.take(k as int) + seq![c] + v@.skip(k as int),
{
    let mut w: Vec<char> = Vec::new();
    let mut i: usize = 0;
    while i < v.len()
        invariant
            i <= v@.len(),
            k <= v@.len(),
            w@ == (if i <= k {
                v@.take(i as int)
            } else {
                v@.take(k as int) + seq![c] + v@.subrange(k as int, i as int)
            }),
        decreases v@.len() - i,
    {
        if i == k {
            w.push(c);
        }
        w.push(v[i]);
        i += 1;
        assert(w@ =~= (if i <= k {
            v@.take(i as int)
        } else {
            v@.take(k as int) + seq![c] + v@.subrange(k as int, i as int)
        }));
    }
    if k == v.len() {
        w.push(c);
    }
    assert(w@ =~= v@.take(k as int) + seq![c] + v@.skip(k as int));
    string_of(&w)
}

/// `s` without the character at index `k`.
pub(crate) fn remove_at(v: &Vec<char>, k: usize) -> (r: String)
    requires
        k < v@.len(),
    ensures
        r@ == v@.take(k as int) + v@.skip(k + 1),
{
    let mut w: Vec<char> = Vec::new();
    let mut i: usize = 0;
    while i < v.len()
        invariant
            i <= v@.len(),
            k < v@.len(),
            w@ == (if i <= k {
                v@.take(i as int)
            } else {
                v@.take(k as int) + v@.subrange(k + 1, i as int)
            }),
        decreases v@.len() - i,
    {
        if i != k {
            w.push(v[i]);
        }
        i += 1;
        assert(w@ =~= (if i <= k {
            v@.take(i as int)
        } else {
            v@.take(k as int) + v@.subrange(k + 1, i as int)
        }));
    }
    assert(w@ =~= v@.take(k as int) + v@.skip(k + 1));
    string_of(&w)
}

/// Handles a key in the token field: editing, moving the cursor, saving
/// (a blank token is refused) and cancelling when the panel may be dismissed.
pub fn handle_token_key(
    input: &mut String,
    cursor: &mut usize,
    error: &mut Option<String>,
    dismissable: bool,
    code: KeyCode,
) -> (r: OverlayAction)
    requires
        field_ok(old(input)@, *old(cursor) as int),
    ensures
        (action_view(r), final(input)@, *final(cursor) as int, opt_view(*final(error))) == token_key(
            old(input)@,
            *old(cursor) as int,
            opt_view(*old(error)),
            dismissable,
            code,
        ),
        is_boundary(final(input)@, *final(cursor) as int),
        blen(final(input)@) <= blen(old(input)@) + 4,
{
    let v = chars_of(input.as_str());
    match code {
        KeyCode::Esc => {
            if dismissable {
                *error = None;
                OverlayAction::Close
            } else {
                OverlayAction::Nothing
            }
        },
        KeyCode::Enter => {
            let token = trim_str(input.as_str());
            if token.as_str().is_empty() {
                *error = Some(owned("Token cannot be empty"));
                return OverlayAction::Nothing;
            }
            OverlayAction::SaveToken(token)
        },
        KeyCode::Backspace => {
            if *cursor == 0 {
                return OverlayAction::Nothing;
            }
            let prev = prev_char_start(&v, *cursor);
            let k = char_index_of_byte(&v, *cursor).unwrap();
            let new_input = remove_at(&v, k - 1);
            proof {
                let s = v@;
                assert(s.take(k - 1) + s.skip(k as int) == new_input@);
                lemma_blen_take_mono(s, k - 1, s.len() as int);
                let t = new_input@;
                assert(t.take(k - 1) =~= s.take(k - 1));
                lemma_removed_blen(s, k as int);
                lemma_boundary_unique(t, k - 1, prev as int);
            }
            *input = new_input;
            *cursor = prev;
            *error = None;
            OverlayAction::Nothing
        },
        KeyCode::Left => {
            if *cursor > 0 {
                let prev = prev_char_start(&v, *cursor);
                proof {
                    lemma_boundary_unique(v@, chars_before(v@, *old(cursor) as int) - 1, prev as int);
                }
                *cursor = prev;
            }
            OverlayAction::Nothing
        },
        KeyCode::Right => {
            proof {
                crate::text::lemma_blen_bounds(v@);
            }
            if *cursor < crate::text::byte_len(&v) {
                let next = next_char_end(&v, *cursor);
                proof {
                    lemma_boundary_unique(v@, chars_before(v@, *old(cursor) as int) + 1, next as int);
                }
                *cursor = next;
            }
            OverlayAction::Nothing
        },
        KeyCode::Home => {
            proof {
                lemma_boundary_unique(v@, 0, 0);
            }
            *cursor = 0;
            OverlayAction::Nothing
        },
        KeyCode::End => {
            let n = crate::text::byte_len(&v);
            proof {
                assert(v@.take(v@.len() as int) =~= v@);
                lemma_boundary_unique(v@, v@.len() as int, n as int);
            }
            *cursor = n;
            OverlayAction::Nothing
        },
        KeyCode::Char(c) => {
            if is_control(c) {
                return OverlayAction::Nothing;
            }
            let k = char_index_of_byte(&v, *cursor).unwrap();
            let w = char_width(c);
            let new_input = insert_at(&v, k, c);
            proof {
                lemma_inserted_blen(v@, k as int, c);
                lemma_blen_take_mono(v@, k as int, v@.len() as int);
                assert(v@.take(v@.len() as int) =~= v@);
                lemma_boundary_unique(new_input@, k + 1, *old(cursor) + w);
            }
            *input = new_input;
            *cursor = *cursor + w;
            *error = None;
            OverlayAction::Nothing
        },
        _ => OverlayAction::Nothing,
    }
}

/// Whether `c` is a control character.
pub fn is_control(c: char) -> (r: bool)
    ensures
        r == is_control_char(c),
{
    let u = c as u32;
    u <= 0x1f || (0x7f <= u && u <= 0x9f)
}

/// Byte lengths around an inserted character.
pub proof fn lemma_inserted_blen(s: Seq<char>, k: int, c: char)
    requires
        0 <= k <= s.len(),
    ensures
        ({
            let t = s.take(k) + seq![c] + s.skip(k);
            &&& t.take(k + 1) == s.take(k).push(c)
            &&& blen(t.take(k + 1)) == blen(s.take(k)) + crate::text::width(c)
            &&& blen(t) == blen(s) + crate::text::width(c)
            &&& t.take(k) == s.take(k)
        }),
{
    let t = s.take(k) + seq![c] + s.skip(k);
    assert(t.take(k + 1) =~= s.take(k).push(c));
    assert(t.take(k) =~= s.take(k));
    crate::text::lemma_blen_push(s.take(k), c);
    crate::text::lemma_blen_concat(s.take(k).push(c), s.skip(k));
    assert(t =~= s.take(k).push(c) + s.skip(k));
    crate::text::lemma_blen_concat(s.take(k), s.skip(k));
    assert(s.take(k) + s.skip(k) =~= s);
}

/// Byte lengths around a removed character.
pub proof fn lemma_removed_blen(s: Seq<char>, k: int)
    requires
        1 <= k <= s.len(),
    ensures
        ({
            let t = s.take(k - 1) + s.skip(k);
            &&& t.take(k - 1) == s.take(k - 1)
            &&& blen(t) + crate::text::width(s[k - 1]) == blen(s)
        }),
{
    let t = s.take(k - 1) + s.skip(k);
    assert(t.take(k - 1) =~= s.take(k - 1));
    crate::text::lemma_blen_concat(s.take(k - 1), s.skip(k));
    lemma_blen_take_step(s, k - 1);
    crate::text::lemma_blen_concat(s.take(k), s.skip(k));
    assert(s.take(k) + s.skip(k) =~= s);
}

/// The settings row above `pick`, staying on the first.
pub open spec fn row_up(pick: int) -> int {
    if pick >= 1 {
        pick - 1
    } else {
        0
    }
}

/// The settings row below `pick`, staying on the last.
pub open spec fn row_down(pick: int) -> int {
    if pick + 1 <= SETTINGS_ROWS - 1 {
        pick + 1
    } else {
        SETTINGS_ROWS - 1
    }
}

/// The outcome of a key in the settings panel: the action, the row and the
/// mode the panel shows.
pub open spec fn settings_key(pick: int, mode: AgentMode, code: KeyCode) -> (ActionView, int, AgentMode) {
    match code {
        KeyCode::Esc => (ActionView::Close, pick, mode),
        KeyCode::Up => (ActionView::Nothing, row_up(pick), mode),
        KeyCode::Down => (ActionView::Nothing, row_down(pick), mode),
        KeyCode::Enter => if pick == 0 {
            (ActionView::OpenToken, pick, mode)
        } else if pick == 1 {
            (ActionView::SetMode(AgentMode::Base), pick, AgentMode::Base)
        } else if pick == 2 {
            (ActionView::SetMode(AgentMode::God), pick, AgentMode::God)
        } else {
            (ActionView::Nothing, pick, mode)
        },
        KeyCode::Char(c) => if c == 'k' || c == 'K' {
            (ActionView::Nothing, row_up(pick), mode)
        } else if c == 'j' || c == 'J' {
            (ActionView::Nothing, row_down(pick), mode)
        } else {
            (ActionView::Nothing, pick, mode)
        },
        _ => (ActionView::Nothing, pick, mode),
    }
}

/// Handles a key in the settings panel.
pub fn handle_settings_key(pick: &mut usize, mode: &mut AgentMode, code: KeyCode) -> (r:
    OverlayAction)
    requires
        *old(pick) < usize::MAX,
    ensures
        (action_view(r), *final(pick) as int, *final(mode)) == settings_key(
            *old(pick) as int,
            *old(mode),
            code,
        ),
{
    match code {
        KeyCode::Esc => OverlayAction::Close,
        KeyCode::Up => {
            *pick = pick.saturating_sub(1);
            OverlayAction::Nothing
        },
        KeyCode::Down => {
            *pick = if *pick + 1 <= SETTINGS_ROWS - 1 {
                *pick + 1
            } else {
                SETTINGS_ROWS - 1
            };
            OverlayAction::Nothing
        },
        KeyCode::Enter => {
            if *pick == 0 {
                OverlayAction::OpenToken
            } else if *pick == 1 {
                *mode = AgentMode::Base;
                OverlayAction::SetMode(AgentMode::Base)
            } else if *pick == 2 {
                *mode = AgentMode::God;
                OverlayAction::SetMode(AgentMode::God)
            } else {
                OverlayAction::Nothing
            }
        },
        KeyCode::Char(c) => {
            if c == 'k' || c == 'K' {
                *pick = pick.saturating_sub(1);
            } else if c == 'j' || c == 'J' {
                *pick = if *pick + 1 <= SETTINGS_ROWS - 1 {
                    *pick + 1
                } else {
                    SETTINGS_ROWS - 1
                };
            }
            OverlayAction::Nothing
        },
        _ => OverlayAction::Nothing,
    }
}

/// What a settings row says.
pub enum RowKind {
    Token,
    Mode(AgentMode),
}

/// One row of the settings panel.
pub struct SettingsRow {
    pub label: &'static str,
    pub value: String,
    pub hint: &'static str,
    pub row_kind: RowKind,
}

/// The hint of a mode row: `active` for the current mode, else `select`.
pub open spec fn mode_hint(row: AgentMode, current: AgentMode) -> Seq<char> {
    if row == current {
        "active"@
    } else {
        "select"@
    }
}

fn hint_for(row: AgentMode, current: AgentMode) -> (r: &'static str)
    ensures
        r@ == mode_hint(row, current),
{
    if row == current {
        "active"
    } else {
        "select"
    }
}

/// The three rows of the settings panel: the token, then the two modes.
pub fn settings_items(masked_token: &str, mode: AgentMode) -> (r: Vec<SettingsRow>)
    ensures
        r@.len() == SETTINGS_ROWS,
        r@[0].label@ == "Token"@ && r@[0].value@ == masked_token@ && r@[0].hint@ == "change"@
            && r@[0].row_kind is Token,
        r@[1].label@ == "Mode"@ && r@[1].value@ == "base"@ && r@[1].hint@ == mode_hint(
            AgentMode::Base,
            mode,
        ) && r@[1].row_kind == RowKind::Mode(AgentMode::Base),
        r@[2].label@ == "Mode"@ && r@[2].value@ == "god"@ && r@[2].hint@ == mode_hint(
            AgentMode::God,
            mode,
        ) && r@[2].row_kind == RowKind::Mode(AgentMode::God),
{
    let mut r: Vec<SettingsRow> = Vec::new();
    r.push(
        SettingsRow {
            label: "Token",
            value: owned(masked_token),
            hint: "change",
            row_kind: RowKind::Token,
        },
    );
    r.push(
        SettingsRow {
            label: "Mode",
            value: owned("base"),
            hint: hint_for(AgentMode::Base, mode),
            row_kind: RowKind::Mode(AgentMode::Base),
        },
    );
    r.push(
        SettingsRow {
            label: "Mode",
            value: owned("god"),
            hint: hint_for(AgentMode::God, mode),
            row_kind: RowKind::Mode(AgentMode::God),
        },
    );
    r
}

impl AppState {
    /// Whether a panel is open.
    pub fn has_overlay(&self) -> (r: bool)
        ensures
            r == self.overlay !is Inactive,
    {
        match self.overlay {
            Overlay::Inactive => false,
            _ => true,
        }
    }

    /// Whether the open panel may be closed with Esc.
    pub fn overlay_hint_esc(&self) -> (r: bool)
        ensures
            r == (match self.overlay {
                Overlay::Inactive => false,
                Overlay::TokenEntry { dismissable, .. } => dismissable,
                Overlay::Settings { .. } => true,
            }),
    {
        match &self.overlay {
            Overlay::Inactive => false,
            Overlay::TokenEntry { dismissable, .. } => *dismissable,
            Overlay::Settings { .. } => true,
        }
    }

    /// Opens an empty token field; `dismissable` says whether Esc closes it.
    pub fn open_token_overlay(&mut self, dismissable: bool)
        ensures
            final(self).overlay matches Overlay::TokenEntry { input, cursor, error, dismissable: d }
                && input@.len() == 0 && cursor == 0 && error is None && d == dismissable,
            final(self).cursor_blink,
            final(self).entries == old(self).entries,
            super::same_scrolling(*final(self), *old(self)),
            super::same_input(*final(self), *old(self)),
            super::same_sidebar(*final(self), *old(self)),
            final(self).mode == old(self).mode,
            final(self).has_token == old(self).has_token,
            final(self).is_thinking == old(self).is_thinking,
            final(self).awaiting_approval == old(self).awaiting_approval,
    {
        self.overlay = Overlay::TokenEntry {
            input: String::new(),
            cursor: 0,
            error: None,
            dismissable,
        };
        self.cursor_blink = true;
    }

    /// Opens the settings panel on its first row.
    pub fn open_settings_overlay(&mut self, masked_token: String, mode: AgentMode, config_path: String)
        ensures
            final(self).overlay == (Overlay::Settings {
                pick: 0,
                masked_token,
                mode,
                config_path,
            }),
            final(self).entries == old(self).entries,
            super::same_scrolling(*final(self), *old(self)),
            super::same_input(*final(self), *old(self)),
            super::same_sidebar(*final(self), *old(self)),
            final(self).mode == old(self).mode,
            final(self).has_token == old(self).has_token,
            final(self).is_thinking == old(self).is_thinking,
            final(self).awaiting_approval == old(self).awaiting_approval,
    {
        self.overlay = Overlay::Settings { pick: 0, masked_token, mode, config_path };
    }

    /// Closes the panel.
    pub fn close_overlay(&mut self)
        ensures
            final(self).overlay is Inactive,
            final(self).entries == old(self).entries,
            super::same_scrolling(*final(self), *old(self)),
            super::same_input(*final(self), *old(self)),
            super::same_sidebar(*final(self), *old(self)),
            final(self).mode == old(self).mode,
            final(self).has_token == old(self).has_token,
            final(self).is_thinking == old(self).is_thinking,
            final(self).awaiting_approval == old(self).awaiting_approval,
    {
        self.overlay = Overlay::Inactive;
    }

    /// The state a panel may be given keys in: a token field's cursor on a
    /// boundary, a settings row below `usize::MAX`.
    pub open spec fn overlay_ok(self) -> bool {
        match self.overlay {
            Overlay::TokenEntry { input, cursor, .. } => field_ok(input@, cursor as int),
            Overlay::Settings { pick, .. } => pick < usize::MAX,
            Overlay::Inactive => true,
        }
    }

    /// Whether the open panel may be given keys now.
    pub fn ready_for_panel_keys(&self) -> (r: bool)
        ensures
            r == self.overlay_ok(),
    {
        match &self.overlay {
            Overlay::TokenEntry { input, cursor, .. } => {
                let v = crate::text::chars_of(input.as_str());
                !crate::text::blen_exceeds(&v, usize::MAX - 4)
                    && crate::text::char_index_of_byte(&v, *cursor).is_some()
            },
            Overlay::Settings { pick, .. } => *pick < usize::MAX,
            Overlay::Inactive => true,
        }
    }

    /// Hands a key to the open panel.
    pub fn handle_overlay_key(&mut self, code: KeyCode) -> (r: OverlayAction)
        requires
            old(self).overlay_ok(),
        ensures
            old(self).overlay is Inactive ==> r is Nothing && final(self).overlay is Inactive,
            old(self).overlay matches Overlay::TokenEntry { input, cursor, error, dismissable } ==> (
            final(self).overlay matches Overlay::TokenEntry {
                input: i2,
                cursor: c2,
                error: e2,
                dismissable: d2,
            } && d2 == dismissable && (action_view(r), i2@, c2 as int, opt_view(e2)) == token_key(
                input@,
                cursor as int,
                opt_view(error),
                dismissable,
                code,
            )),
            old(self).overlay matches Overlay::Settings { pick, masked_token, mode, config_path } ==> (
            final(self).overlay matches Overlay::Settings {
                pick: p2,
                masked_token: t2,
                mode: m2,
                config_path: c2,
            } && t2 == masked_token && c2 == config_path && (action_view(r), p2 as int, m2)
                == settings_key(pick as int, mode, code)),
            final(self).overlay matches Overlay::TokenEntry { input, cursor, .. } ==> is_boundary(
                input@,
                cursor as int,
            ),
            final(self).entries == old(self).entries,
            super::same_scrolling(*final(self), *old(self)),
            super::same_input(*final(self), *old(self)),
            super::same_sidebar(*final(self), *old(self)),
    {
        let mut ov = Overlay::Inactive;
        std::mem::swap(&mut ov, &mut self.overlay);
        match ov {
            Overlay::Inactive => OverlayAction::Nothing,
            Overlay::TokenEntry { mut input, mut cursor, mut error, dismissable } => {
                let a = handle_token_key(&mut input, &mut cursor, &mut error, dismissable, code);
                self.overlay = Overlay::TokenEntry { input, cursor, error, dismissable };
                a
            },
            Overlay::Settings { mut pick, masked_token, mut mode, config_path } => {
                let a = handle_settings_key(&mut pick, &mut mode, code);
                self.overlay = Overlay::Settings { pick, masked_token, mode, config_path };
                a
            },
        }
    }
}

} // verus!
