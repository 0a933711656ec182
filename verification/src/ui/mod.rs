//! The interface state: the chat transcript, scrolling, the input box, the
//! history sidebar, the command palette and the modal panels. Drawing is done
//! by the application from this state.

pub mod chat;
pub mod chrome;
pub mod input;
pub mod keys;
pub mod mouse;
pub mod overlay;
pub mod session;
pub mod sidebar;
pub mod suggestions;
pub mod theme;
pub mod wrap;

use vstd::prelude::*;
use crate::mode::AgentMode;
use crate::text::owned;
use self::overlay::Overlay;

verus! {

broadcast use vstd::string::group_string_axioms;

/// A screen rectangle in cells.
#[derive(Clone, Copy, Debug)]
pub struct Rect {
    pub x: u16,
    pub y: u16,
    pub width: u16,
    pub height: u16,
}

impl Rect {
    /// The cell `(column, row)` lies inside (the right and bottom edges
    /// saturate at `u16::MAX`).
    pub open spec fn has(self, column: u16, row: u16) -> bool {
        self.x <= column && (column as int) < (if self.x + self.width > u16::MAX {
            u16::MAX as int
        } else {
            self.x + self.width
        }) && self.y <= row && (row as int) < (if self.y + self.height > u16::MAX {
            u16::MAX as int
        } else {
            self.y + self.height
        })
    }

    /// Whether the cell `(column, row)` lies inside.
    pub fn contains(&self, column: u16, row: u16) -> (r: bool)
        ensures
            r == self.has(column, row),
    {
        let right = self.x.saturating_add(self.width);
        let bottom = self.y.saturating_add(self.height);
        column >= self.x && column < right && row >= self.y && row < bottom
    }
}

impl Default for Rect {
    fn default() -> (r: Self)
        ensures
            r.x == 0 && r.y == 0 && r.width == 0 && r.height == 0,
    {
        Rect { x: 0, y: 0, width: 0, height: 0 }
    }
}

/// Where the last frame drew the clickable parts.
#[derive(Clone)]
pub struct Hitboxes {
    pub chat: Rect,
    pub chat_inner: Rect,
    pub input_outer: Rect,
    pub input_text: Rect,
    pub suggestions: Option<Rect>,
    pub suggestion_rows: Vec<(Rect, usize)>,
    pub input_wrap_width: u16,
    pub sidebar_toggle: Rect,
    pub sidebar: Option<Rect>,
    pub sidebar_rows: Vec<(Rect, usize)>,
}

impl Default for Hitboxes {
    fn default() -> (h: Self)
        ensures
            h.suggestions is None && h.sidebar is None && h.suggestion_rows@.len() == 0
                && h.sidebar_rows@.len() == 0 && h.input_wrap_width == 0,
    {
        Hitboxes {
            chat: Rect::default(),
            chat_inner: Rect::default(),
            input_outer: Rect::default(),
            input_text: Rect::default(),
            suggestions: None,
            suggestion_rows: Vec::new(),
            input_wrap_width: 0,
            sidebar_toggle: Rect::default(),
            sidebar: None,
            sidebar_rows: Vec::new(),
        }
    }
}

/// One entry of the transcript.
#[derive(Clone)]
pub enum ChatEntry {
    User { content: String },
    Assistant { content: String },
    System { content: String },
    Tool { name: String, args: String, result: Option<String>, error: Option<String> },
    Error { message: String },
}

impl ChatEntry {
    /// A tool entry that has neither a result nor an error yet.
    pub open spec fn running(self) -> bool {
        self matches ChatEntry::Tool { result: None, error: None, .. }
    }

    /// Whether this is a tool still running.
    pub fn is_running(&self) -> (r: bool)
        ensures
            r == self.running(),
    {
        match self {
            ChatEntry::Tool { result: None, error: None, .. } => true,
            _ => false,
        }
    }
}

/// A question in the transcript: the line it starts at and its first line.
#[derive(Clone, Debug)]
pub struct HistoryAnchor {
    pub line: usize,
    pub preview: String,
}

/// The whole interface state.
pub struct AppState {
    pub mode: AgentMode,
    pub has_token: bool,
    pub entries: Vec<ChatEntry>,
    pub input: String,
    /// Byte offset of the cursor in `input`.
    pub cursor: usize,
    pub is_thinking: bool,
    pub awaiting_approval: bool,
    pub approval_summary: Option<String>,
    pub spinner_frame: usize,
    pub cursor_blink: bool,
    pub suggestion_pick: usize,
    pub suggestion_matches: Vec<&'static str>,
    pub hitboxes: Hitboxes,
    /// First transcript line shown.
    pub scroll: usize,
    pub last_line_count: usize,
    pub chat_viewport: usize,
    /// Whether the view sticks to the newest line.
    pub following: bool,
    pub overlay: Overlay,
    pub input_scroll: usize,
    pub sidebar_open: bool,
    pub sidebar_pick: usize,
    pub sidebar_scroll: usize,
    pub history_anchors: Vec<HistoryAnchor>,
    pub sidebar_viewport: usize,
    /// Where a smooth scroll is heading.
    pub scroll_target: Option<usize>,
}

/// `a - b`, or 0.
pub open spec fn sat_sub(a: int, b: int) -> int {
    if a >= b {
        a - b
    } else {
        0
    }
}

/// The larger of two numbers.
pub open spec fn max2(a: int, b: int) -> int {
    if a >= b {
        a
    } else {
        b
    }
}

/// The pick after moving down in a list of `n` items (wrapping around).
pub open spec fn pick_down(pick: int, n: int) -> int {
    if n == 0 {
        pick
    } else {
        (pick + 1) % n
    }
}

/// The pick after moving up in a list of `n` items (wrapping around).
pub open spec fn pick_up(pick: int, n: int) -> int {
    if n == 0 {
        pick
    } else if pick == 0 {
        n - 1
    } else {
        pick - 1
    }
}

/// The smaller of two numbers.
pub open spec fn min2(a: int, b: int) -> int {
    if a <= b {
        a
    } else {
        b
    }
}

/// The fields of the transcript's scrolling.
pub open spec fn same_scrolling(a: AppState, b: AppState) -> bool {
    &&& a.scroll == b.scroll
    &&& a.scroll_target == b.scroll_target
    &&& a.following == b.following
    &&& a.last_line_count == b.last_line_count
    &&& a.chat_viewport == b.chat_viewport
}

/// The fields of the input box and the palette.
pub open spec fn same_input(a: AppState, b: AppState) -> bool {
    &&& a.input == b.input
    &&& a.cursor == b.cursor
    &&& a.input_scroll == b.input_scroll
    &&& a.suggestion_pick == b.suggestion_pick
    &&& a.suggestion_matches == b.suggestion_matches
}

/// The fields of the history sidebar.
pub open spec fn same_sidebar(a: AppState, b: AppState) -> bool {
    &&& a.sidebar_open == b.sidebar_open
    &&& a.sidebar_pick == b.sidebar_pick
    &&& a.sidebar_scroll == b.sidebar_scroll
    &&& a.history_anchors == b.history_anchors
    &&& a.sidebar_viewport == b.sidebar_viewport
}

/// The remaining fields: the session's status, transcript and panels.
pub open spec fn same_status(a: AppState, b: AppState) -> bool {
    &&& a.mode == b.mode
    &&& a.has_token == b.has_token
    &&& a.entries == b.entries
    &&& a.is_thinking == b.is_thinking
    &&& a.awaiting_approval == b.awaiting_approval
    &&& a.approval_summary == b.approval_summary
    &&& a.spinner_frame == b.spinner_frame
    &&& a.cursor_blink == b.cursor_blink
    &&& a.overlay == b.overlay
    &&& a.hitboxes == b.hitboxes
}

impl AppState {
    /// The largest useful scroll offset.
    pub open spec fn max_scroll_spec(self) -> int {
        sat_sub(self.last_line_count as int, max2(self.chat_viewport as int, 1))
    }

    /// A fresh state: empty transcript and input, following the newest line.
    pub fn new(mode: AgentMode, has_token: bool) -> (s: Self)
        ensures
            s.mode == mode,
            s.has_token == has_token,
            s.entries@.len() == 0,
            s.input@.len() == 0,
            s.cursor == 0,
            !s.is_thinking,
            !s.awaiting_approval,
            s.approval_summary is None,
            s.spinner_frame == 0,
            s.cursor_blink,
            s.suggestion_pick == 0,
            s.suggestion_matches@.len() == 0,
            s.scroll == 0,
            s.last_line_count == 0,
            s.chat_viewport == 1,
            s.following,
            s.overlay is Inactive,
            s.input_scroll == 0,
            !s.sidebar_open,
            s.sidebar_pick == 0,
            s.sidebar_scroll == 0,
            s.history_anchors@.len() == 0,
            s.sidebar_viewport == 1,
            s.scroll_target is None,
    {
        AppState {
            mode,
            has_token,
            entries: Vec::new(),
            input: String::new(),
            cursor: 0,
            is_thinking: false,
            awaiting_approval: false,
            approval_summary: None,
            spinner_frame: 0,
            cursor_blink: true,
            suggestion_pick: 0,
            suggestion_matches: Vec::new(),
            hitboxes: Hitboxes::default(),
            scroll: 0,
            last_line_count: 0,
            chat_viewport: 1,
            following: true,
            overlay: Overlay::Inactive,
            input_scroll: 0,
            sidebar_open: false,
            sidebar_pick: 0,
            sidebar_scroll: 0,
            history_anchors: Vec::new(),
            sidebar_viewport: 1,
            scroll_target: None,
        }
    }

    /// The largest useful scroll offset: the line count less one viewport.
    pub fn max_scroll(&self) -> (r: usize)
        ensures
            r == self.max_scroll_spec(),
    {
        let vp = if self.chat_viewport >= 1 {
            self.chat_viewport
        } else {
            1
        };
        self.last_line_count.saturating_sub(vp)
    }

    /// Records the mode shown in the header.
    pub fn set_mode(&mut self, mode: AgentMode)
        ensures
            final(self).mode == mode,
            final(self).has_token == old(self).has_token,
            same_scrolling(*final(self), *old(self)),
            same_input(*final(self), *old(self)),
            same_sidebar(*final(self), *old(self)),
            final(self).entries == old(self).entries,
            final(self).overlay == old(self).overlay,
    {
        self.mode = mode;
    }

    /// Records whether a token is set.
    pub fn set_has_token(&mut self, has_token: bool)
        ensures
            final(self).has_token == has_token,
            final(self).mode == old(self).mode,
            same_scrolling(*final(self), *old(self)),
            same_input(*final(self), *old(self)),
            same_sidebar(*final(self), *old(self)),
            final(self).entries == old(self).entries,
            final(self).overlay == old(self).overlay,
    {
        self.has_token = has_token;
    }

    /// Empties the transcript, drops a pending approval and the history list.
    pub fn clear_chat(&mut self)
        ensures
            final(self).entries@.len() == 0,
            !final(self).awaiting_approval,
            final(self).approval_summary is None,
            final(self).history_anchors@.len() == 0,
            final(self).sidebar_pick == 0,
            final(self).sidebar_scroll == 0,
            final(self).sidebar_open == old(self).sidebar_open,
            final(self).is_thinking == old(self).is_thinking,
            same_scrolling(*final(self), *old(self)),
            same_input(*final(self), *old(self)),
    {
        self.entries = Vec::new();
        self.awaiting_approval = false;
        self.approval_summary = None;
        self.history_anchors = Vec::new();
        self.sidebar_pick = 0;
        self.sidebar_scroll = 0;
    }

    /// Appends an entry and jumps to the newest line.
    fn push_entry(&mut self, e: ChatEntry)
        ensures
            final(self).entries@ == old(self).entries@.push(e),
            final(self).following,
            final(self).scroll_target is None,
            final(self).scroll == old(self).max_scroll_spec(),
            final(self).last_line_count == old(self).last_line_count,
            final(self).chat_viewport == old(self).chat_viewport,
            same_input(*final(self), *old(self)),
            same_sidebar(*final(self), *old(self)),
            final(self).is_thinking == old(self).is_thinking,
            final(self).awaiting_approval == old(self).awaiting_approval,
            final(self).approval_summary == old(self).approval_summary,
            final(self).overlay == old(self).overlay,
            final(self).mode == old(self).mode,
            final(self).has_token == old(self).has_token,
    {
        self.entries.push(e);
        self.scroll_to_bottom();
    }

    /// Appends the user's message.
    pub fn push_user(&mut self, content: &str)
        ensures
            final(self).entries@.len() == old(self).entries@.len() + 1,
            final(self).entries@.last() matches ChatEntry::User { content: c } && c@ == content@,
            final(self).entries@.drop_last() == old(self).entries@,
            final(self).following,
            final(self).scroll == old(self).max_scroll_spec(),
            same_input(*final(self), *old(self)),
            same_sidebar(*final(self), *old(self)),
            final(self).is_thinking == old(self).is_thinking,
            final(self).awaiting_approval == old(self).awaiting_approval,
            final(self).approval_summary == old(self).approval_summary,
            final(self).overlay == old(self).overlay,
            final(self).mode == old(self).mode,
            final(self).has_token == old(self).has_token,
    {
        self.push_entry(ChatEntry::User { content: owned(content) });
        assert(self.entries@.drop_last() =~= old(self).entries@);
    }

    /// Appends the agent's answer.
    pub fn push_assistant(&mut self, content: &str)
        ensures
            final(self).entries@.len() == old(self).entries@.len() + 1,
            final(self).entries@.last() matches ChatEntry::Assistant { content: c } && c@
                == content@,
            final(self).entries@.drop_last() == old(self).entries@,
            final(self).following,
            final(self).scroll == old(self).max_scroll_spec(),
            same_input(*final(self), *old(self)),
            same_sidebar(*final(self), *old(self)),
            final(self).is_thinking == old(self).is_thinking,
            final(self).awaiting_approval == old(self).awaiting_approval,
            final(self).approval_summary == old(self).approval_summary,
            final(self).overlay == old(self).overlay,
            final(self).mode == old(self).mode,
            final(self).has_token == old(self).has_token,
    {
        self.push_entry(ChatEntry::Assistant { content: owned(content) });
        assert(self.entries@.drop_last() =~= old(self).entries@);
    }

    /// Appends a system notice.
    pub fn push_system(&mut self, content: &str)
        ensures
            final(self).entries@.len() == old(self).entries@.len() + 1,
            final(self).entries@.last() matches ChatEntry::System { content: c } && c@
                == content@,
            final(self).entries@.drop_last() == old(self).entries@,
            final(self).following,
            final(self).scroll == old(self).max_scroll_spec(),
            same_input(*final(self), *old(self)),
            same_sidebar(*final(self), *old(self)),
            final(self).is_thinking == old(self).is_thinking,
            final(self).awaiting_approval == old(self).awaiting_approval,
            final(self).overlay == old(self).overlay,
            final(self).mode == old(self).mode,
            final(self).has_token == old(self).has_token,
            final(self).approval_summary == old(self).approval_summary,
    {
        self.push_entry(ChatEntry::System { content: owned(content) });
        assert(self.entries@.drop_last() =~= old(self).entries@);
    }

    /// Appends a running tool entry.
    pub fn start_tool(&mut self, name: &str, args: &str)
        ensures
            final(self).entries@.len() == old(self).entries@.len() + 1,
            final(self).entries@.last() matches ChatEntry::Tool { name: n, args: a, result, error }
                && n@ == name@ && a@ == args@ && result is None && error is None,
            final(self).entries@.drop_last() == old(self).entries@,
            final(self).following,
            final(self).scroll == old(self).max_scroll_spec(),
            same_input(*final(self), *old(self)),
            same_sidebar(*final(self), *old(self)),
            final(self).is_thinking == old(self).is_thinking,
            final(self).awaiting_approval == old(self).awaiting_approval,
            final(self).approval_summary == old(self).approval_summary,
            final(self).overlay == old(self).overlay,
            final(self).mode == old(self).mode,
            final(self).has_token == old(self).has_token,
    {
        self.push_entry(
            ChatEntry::Tool { name: owned(name), args: owned(args), result: None, error: None },
        );
        assert(self.entries@.drop_last() =~= old(self).entries@);
    }

    /// Appends an error entry.
    pub fn push_error(&mut self, message: &str)
        ensures
            final(self).entries@.len() == old(self).entries@.len() + 1,
            final(self).entries@.last() matches ChatEntry::Error { message: m } && m@ == message@,
            final(self).entries@.drop_last() == old(self).entries@,
            final(self).following,
            final(self).scroll == old(self).max_scroll_spec(),
            same_input(*final(self), *old(self)),
            same_sidebar(*final(self), *old(self)),
            final(self).is_thinking == old(self).is_thinking,
            final(self).awaiting_approval == old(self).awaiting_approval,
            final(self).approval_summary == old(self).approval_summary,
            final(self).overlay == old(self).overlay,
            final(self).mode == old(self).mode,
            final(self).has_token == old(self).has_token,
    {
        self.push_entry(ChatEntry::Error { message: owned(message) });
        assert(self.entries@.drop_last() =~= old(self).entries@);
    }

    /// Sets the outcome of the last entry when it is a tool.
    fn finish_tool(&mut self, result: Option<String>, error: Option<String>)
        ensures
            final(self).entries@.len() == old(self).entries@.len(),
            forall|i: int|
                0 <= i < old(self).entries@.len() - 1 ==> final(self).entries@[i] == old(
                    self,
                ).entries@[i],
            old(self).entries@.len() > 0 ==> (match old(self).entries@.last() {
                ChatEntry::Tool { name, args, .. } => final(self).entries@.last()
                    == ChatEntry::Tool { name, args, result, error },
                e => final(self).entries@.last() == e,
            }),
            final(self).following,
            final(self).scroll == old(self).max_scroll_spec(),
            same_input(*final(self), *old(self)),
            same_sidebar(*final(self), *old(self)),
            final(self).is_thinking == old(self).is_thinking,
            final(self).awaiting_approval == old(self).awaiting_approval,
            final(self).approval_summary == old(self).approval_summary,
            final(self).overlay == old(self).overlay,
            final(self).mode == old(self).mode,
            final(self).has_token == old(self).has_token,
    {
        let n = self.entries.len();
        if n > 0 {
            let updated = match &self.entries[n - 1] {
                ChatEntry::Tool { name, args, .. } => Some(
                    ChatEntry::Tool { name: name.clone(), args: args.clone(), result, error },
                ),
                _ => None,
            };
            if let Some(e) = updated {
                self.entries.set(n - 1, e);
            }
        }
        self.scroll_to_bottom();
    }

    /// Records the result of the running tool (the last entry, if a tool).
    pub fn complete_tool(&mut self, result: &str)
        ensures
            final(self).entries@.len() == old(self).entries@.len(),
            forall|i: int|
                0 <= i < old(self).entries@.len() - 1 ==> final(self).entries@[i] == old(
                    self,
                ).entries@[i],
            old(self).entries@.len() > 0 ==> (match old(self).entries@.last() {
                ChatEntry::Tool { name, args, .. } => final(self).entries@.last() matches
                    ChatEntry::Tool { name: n, args: a, result: Some(r), error: None } && n == name
                    && a == args && r@ == result@,
                e => final(self).entries@.last() == e,
            }),
            final(self).following,
            same_input(*final(self), *old(self)),
            same_sidebar(*final(self), *old(self)),
            final(self).is_thinking == old(self).is_thinking,
            final(self).awaiting_approval == old(self).awaiting_approval,
            final(self).approval_summary == old(self).approval_summary,
            final(self).overlay == old(self).overlay,
            final(self).mode == old(self).mode,
            final(self).has_token == old(self).has_token,
    {
        self.finish_tool(Some(owned(result)), None);
    }

    /// Records the failure of the running tool (the last entry, if a tool).
    pub fn fail_tool(&mut self, error: &str)
        ensures
            final(self).entries@.len() == old(self).entries@.len(),
            forall|i: int|
                0 <= i < old(self).entries@.len() - 1 ==> final(self).entries@[i] == old(
                    self,
                ).entries@[i],
            old(self).entries@.len() > 0 ==> (match old(self).entries@.last() {
                ChatEntry::Tool { name, args, .. } => final(self).entries@.last() matches
                    ChatEntry::Tool { name: n, args: a, result: None, error: Some(m) } && n == name
                    && a == args && m@ == error@,
                e => final(self).entries@.last() == e,
            }),
            final(self).following,
            same_input(*final(self), *old(self)),
            same_sidebar(*final(self), *old(self)),
            final(self).is_thinking == old(self).is_thinking,
            final(self).awaiting_approval == old(self).awaiting_approval,
            final(self).approval_summary == old(self).approval_summary,
            final(self).overlay == old(self).overlay,
            final(self).mode == old(self).mode,
            final(self).has_token == old(self).has_token,
    {
        self.finish_tool(None, Some(owned(error)));
    }

    /// Shows an approval prompt; the agent waits.
    pub fn request_approval(&mut self, summary: &str)
        ensures
            final(self).awaiting_approval,
            final(self).approval_summary matches Some(s) && s@ == summary@,
            !final(self).is_thinking,
            final(self).entries == old(self).entries,
            same_scrolling(*final(self), *old(self)),
            same_input(*final(self), *old(self)),
            same_sidebar(*final(self), *old(self)),
            final(self).mode == old(self).mode,
            final(self).has_token == old(self).has_token,
            final(self).overlay == old(self).overlay,
    {
        self.awaiting_approval = true;
        self.approval_summary = Some(owned(summary));
        self.is_thinking = false;
    }

    /// Hides the approval prompt; the agent works again.
    pub fn clear_approval(&mut self)
        ensures
            !final(self).awaiting_approval,
            final(self).approval_summary is None,
            final(self).is_thinking,
            final(self).entries == old(self).entries,
            same_scrolling(*final(self), *old(self)),
            same_input(*final(self), *old(self)),
            same_sidebar(*final(self), *old(self)),
            final(self).mode == old(self).mode,
            final(self).has_token == old(self).has_token,
            final(self).overlay == old(self).overlay,
    {
        self.awaiting_approval = false;
        self.approval_summary = None;
        self.is_thinking = true;
    }

    /// Jumps to the newest line and follows it.
    pub fn scroll_to_bottom(&mut self)
        ensures
            final(self).following,
            final(self).scroll_target is None,
            final(self).scroll == old(self).max_scroll_spec(),
            final(self).last_line_count == old(self).last_line_count,
            final(self).chat_viewport == old(self).chat_viewport,
            same_input(*final(self), *old(self)),
            same_sidebar(*final(self), *old(self)),
            same_status(*final(self), *old(self)),
    {
        self.cancel_smooth_scroll();
        self.following = true;
        self.scroll = self.max_scroll();
    }

    /// Scrolls `n` lines up and stops following.
    pub fn scroll_up(&mut self, n: usize)
        ensures
            !final(self).following,
            final(self).scroll_target is None,
            final(self).scroll == sat_sub(old(self).scroll as int, n as int),
            final(self).last_line_count == old(self).last_line_count,
            final(self).chat_viewport == old(self).chat_viewport,
            same_input(*final(self), *old(self)),
            same_sidebar(*final(self), *old(self)),
            same_status(*final(self), *old(self)),
    {
        self.cancel_smooth_scroll();
        self.following = false;
        self.scroll = self.scroll.saturating_sub(n);
    }

    /// Scrolls `n` lines down, no further than the last page; follows again at
    /// the bottom.
    pub fn scroll_down(&mut self, n: usize)
        requires
            old(self).scroll + n <= usize::MAX,
        ensures
            final(self).scroll == min2(old(self).scroll + n, old(self).max_scroll_spec()),
            final(self).following == (final(self).scroll >= old(self).max_scroll_spec()),
            final(self).scroll_target is None,
            final(self).last_line_count == old(self).last_line_count,
            final(self).chat_viewport == old(self).chat_viewport,
            same_input(*final(self), *old(self)),
            same_sidebar(*final(self), *old(self)),
            same_status(*final(self), *old(self)),
    {
        self.cancel_smooth_scroll();
        let m = self.max_scroll();
        let s = self.scroll + n;
        self.scroll = if s <= m {
            s
        } else {
            m
        };
        self.following = self.scroll >= m;
    }

    /// One page: the viewport less one line, at least one line.
    pub open spec fn page_spec(self) -> int {
        max2(sat_sub(self.chat_viewport as int, 1), 1)
    }

    fn page(&self) -> (r: usize)
        ensures
            r == self.page_spec(),
    {
        let p = self.chat_viewport.saturating_sub(1);
        if p >= 1 {
            p
        } else {
            1
        }
    }

    /// Scrolls one page up.
    pub fn page_up(&mut self)
        ensures
            !final(self).following,
            final(self).scroll == sat_sub(old(self).scroll as int, old(self).page_spec()),
            final(self).scroll_target is None,
            final(self).last_line_count == old(self).last_line_count,
            final(self).chat_viewport == old(self).chat_viewport,
            same_input(*final(self), *old(self)),
            same_sidebar(*final(self), *old(self)),
            same_status(*final(self), *old(self)),
    {
        let p = self.page();
        self.scroll_up(p);
    }

    /// Scrolls one page down.
    pub fn page_down(&mut self)
        requires
            old(self).scroll + old(self).page_spec() <= usize::MAX,
        ensures
            final(self).scroll == min2(
                old(self).scroll + old(self).page_spec(),
                old(self).max_scroll_spec(),
            ),
            final(self).following == (final(self).scroll >= old(self).max_scroll_spec()),
            final(self).scroll_target is None,
            final(self).last_line_count == old(self).last_line_count,
            final(self).chat_viewport == old(self).chat_viewport,
            same_input(*final(self), *old(self)),
            same_sidebar(*final(self), *old(self)),
            same_status(*final(self), *old(self)),
    {
        let p = self.page();
        self.scroll_down(p);
    }

    /// Starts a smooth scroll to `line` (clamped to the last page).
    pub fn scroll_to_line(&mut self, line: usize)
        ensures
            !final(self).following,
            final(self).scroll == old(self).scroll,
            final(self).scroll_target == (if old(self).scroll == min2(
                line as int,
                old(self).max_scroll_spec(),
            ) {
                None::<usize>
            } else {
                Some(min2(line as int, old(self).max_scroll_spec()) as usize)
            }),
            final(self).last_line_count == old(self).last_line_count,
            final(self).chat_viewport == old(self).chat_viewport,
            same_input(*final(self), *old(self)),
            same_sidebar(*final(self), *old(self)),
            same_status(*final(self), *old(self)),
    {
        self.begin_smooth_scroll_to(line);
    }

    /// Starts a smooth scroll to `line` (clamped to the last page); stops
    /// following.
    pub fn begin_smooth_scroll_to(&mut self, line: usize)
        ensures
            !final(self).following,
            final(self).scroll == old(self).scroll,
            final(self).scroll_target == (if old(self).scroll == min2(
                line as int,
                old(self).max_scroll_spec(),
            ) {
                None::<usize>
            } else {
                Some(min2(line as int, old(self).max_scroll_spec()) as usize)
            }),
            final(self).last_line_count == old(self).last_line_count,
            final(self).chat_viewport == old(self).chat_viewport,
            same_input(*final(self), *old(self)),
            same_sidebar(*final(self), *old(self)),
            same_status(*final(self), *old(self)),
    {
        self.following = false;
        let m = self.max_scroll();
        let target = if line <= m {
            line
        } else {
            m
        };
        if self.scroll == target {
            self.scroll_target = None;
        } else {
            self.scroll_target = Some(target);
        }
    }

    /// Stops a smooth scroll where it is.
    pub fn cancel_smooth_scroll(&mut self)
        ensures
            final(self).scroll_target is None,
            final(self).scroll == old(self).scroll,
            final(self).following == old(self).following,
            final(self).last_line_count == old(self).last_line_count,
            final(self).chat_viewport == old(self).chat_viewport,
            same_input(*final(self), *old(self)),
            same_sidebar(*final(self), *old(self)),
            same_status(*final(self), *old(self)),
    {
        self.scroll_target = None;
    }

    /// Whether a smooth scroll is under way.
    pub fn is_animating_scroll(&self) -> (r: bool)
        ensures
            r == self.scroll_target is Some,
    {
        self.scroll_target.is_some()
    }

    /// One step of a smooth scroll toward its target: 28% of the distance,
    /// rounded up, at least one and at most five lines. Returns whether it moved.
    pub fn tick_smooth_scroll(&mut self) -> (moved: bool)
        ensures
            moved == (old(self).scroll_target matches Some(t) && t != old(self).scroll),
            !moved ==> final(self).scroll == old(self).scroll && final(self).scroll_target is None,
            moved ==> final(self).scroll == smooth_step(
                old(self).scroll as int,
                old(self).scroll_target->0 as int,
            ) && final(self).scroll_target == old(self).scroll_target,
            final(self).following == old(self).following,
            final(self).last_line_count == old(self).last_line_count,
            final(self).chat_viewport == old(self).chat_viewport,
            same_input(*final(self), *old(self)),
            same_sidebar(*final(self), *old(self)),
            same_status(*final(self), *old(self)),
    {
        let target = match self.scroll_target {
            None => {
                return false;
            },
            Some(t) => t,
        };
        if self.scroll == target {
            self.scroll_target = None;
            return false;
        }
        if target > self.scroll {
            let d = target - self.scroll;
            let step = smooth_step_len(d);
            let s = self.scroll.saturating_add(step);
            self.scroll = if s <= target {
                s
            } else {
                target
            };
        } else {
            let d = self.scroll - target;
            let step = smooth_step_len(d);
            let s = self.scroll.saturating_sub(step);
            self.scroll = if s >= target {
                s
            } else {
                target
            };
        }
        true
    }

    /// Whether the interface animates and must be drawn again soon.
    pub open spec fn busy(self) -> bool {
        self.is_thinking || self.awaiting_approval || self.editable() || self.overlay !is Inactive
            || self.scroll_target is Some
    }

    /// Whether the next frame must be drawn.
    pub fn needs_redraw(&self) -> (r: bool)
        ensures
            r == self.busy(),
    {
        self.is_thinking || self.awaiting_approval || self.can_edit_input() || self.has_overlay()
            || self.is_animating_scroll()
    }

    /// Advances the animations by one frame: the spinner (while busy), the
    /// cursor's blink (every ten frames while typing is possible) and a smooth
    /// scroll.
    pub fn tick(&mut self)
        ensures
            final(self).spinner_frame == (if old(self).busy() {
                if old(self).spinner_frame == usize::MAX {
                    0
                } else {
                    old(self).spinner_frame + 1
                }
            } else {
                old(self).spinner_frame as int
            }),
            final(self).cursor_blink == (if old(self).editable() || old(self).overlay !is Inactive {
                final(self).spinner_frame % 20 < 10
            } else {
                old(self).cursor_blink
            }),
            final(self).scroll_target is None ==> final(self).scroll == old(self).scroll
                || old(self).scroll_target is Some,
            old(self).scroll_target is Some && old(self).scroll_target->0 != old(self).scroll
                ==> final(self).scroll == smooth_step(
                old(self).scroll as int,
                old(self).scroll_target->0 as int,
            ),
            final(self).following == old(self).following,
            same_input(*final(self), *old(self)),
            same_sidebar(*final(self), *old(self)),
            final(self).entries == old(self).entries,
            final(self).overlay == old(self).overlay,
    {
        if self.is_thinking || self.awaiting_approval || self.can_edit_input() || self.has_overlay()
            || self.is_animating_scroll() {
            self.spinner_frame = self.spinner_frame.wrapping_add(1);
        }
        if self.can_edit_input() || self.has_overlay() {
            self.cursor_blink = self.spinner_frame % 20 < 10;
        }
        self.tick_smooth_scroll();
    }
}

/// The length of one smooth-scroll step for the distance `d > 0`: 28% of
/// it rounded up (`⌈7d/25⌉`), between one and five lines.
pub open spec fn smooth_step_len_spec(d: int) -> int {
    let s = (7 * d + 24) / 25;
    if s < 1 {
        1
    } else if s > 5 {
        5
    } else {
        s
    }
}

/// Where one smooth-scroll step from `scroll` toward `target` lands.
pub open spec fn smooth_step(scroll: int, target: int) -> int {
    if target > scroll {
        min2(scroll + smooth_step_len_spec(target - scroll), target)
    } else {
        max2(scroll - smooth_step_len_spec(scroll - target), target)
    }
}

fn smooth_step_len(d: usize) -> (r: usize)
    ensures
        r == smooth_step_len_spec(d as int),
        1 <= r <= 5,
{
    if d >= 18 {
        return 5;
    }
    let s = (7 * d + 24) / 25;
    if s < 1 {
        1
    } else if s > 5 {
        5
    } else {
        s
    }
}

} // verus!
