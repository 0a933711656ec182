//! How the interface reacts to what happens outside it: the agent's progress
//! reports, the outcome of saving the settings, and the replies of slash
//! commands.

use vstd::prelude::*;
use crate::agent::AgentUpdate;
use crate::commands::{
    is_clear_marker, is_history_close_marker, is_history_open_marker, is_history_toggle_marker,
    is_open_settings_marker, is_open_token_marker,
};
use crate::errors::{error_text, AppError};
use crate::mode::{mode_description, mode_label, AgentMode};
use crate::settings::{mask_defined, masked, stored_mode, token_present, Settings};
use crate::text::{concat2, concat4, owned};
use super::overlay::Overlay;
use super::{max2, same_input, same_scrolling, same_sidebar, AppState, ChatEntry};

verus! {

broadcast use vstd::string::group_string_axioms;

/// The notice shown when the agent asks for approval.
pub open spec fn approval_notice(summary: Seq<char>) -> Seq<char> {
    "Approval required: "@ + summary
}

/// The notice shown after the mode was changed and saved.
pub open spec fn mode_notice(mode: AgentMode) -> Seq<char> {
    "Mode set to "@ + mode_label(mode) + " — "@ + mode_description(mode)
}

impl AppState {
    /// Takes in one progress report of the running turn.
    pub fn apply_update(&mut self, update: AgentUpdate)
        ensures
            same_input(*final(self), *old(self)),
            same_sidebar(*final(self), *old(self)),
            final(self).mode == old(self).mode,
            final(self).has_token == old(self).has_token,
            final(self).overlay == old(self).overlay,
            match update {
                AgentUpdate::StartTool { name, args } => {
                    &&& final(self).entries@.drop_last() == old(self).entries@
                    &&& final(self).entries@.last() matches ChatEntry::Tool {
                        name: n,
                        args: a,
                        result: None,
                        error: None,
                    } && n@ == name@ && a@ == args@
                    &&& final(self).is_thinking == old(self).is_thinking
                    &&& final(self).awaiting_approval == old(self).awaiting_approval
                },
                AgentUpdate::CompleteTool(out) => {
                    &&& final(self).entries@.len() == old(self).entries@.len()
                    &&& old(self).entries@.len() > 0 ==> (match old(self).entries@.last() {
                        ChatEntry::Tool { name, args, .. } => final(self).entries@.last() matches
                            ChatEntry::Tool { name: n, args: a, result: Some(r), error: None }
                            && n == name && a == args && r@ == out@,
                        e => final(self).entries@.last() == e,
                    })
                    &&& forall|i: int|
                        0 <= i < old(self).entries@.len() - 1 ==> final(self).entries@[i] == old(self).entries@[i]
                    &&& final(self).is_thinking == old(self).is_thinking
                    &&& final(self).awaiting_approval == old(self).awaiting_approval
                },
                AgentUpdate::FailTool(err) => {
                    &&& final(self).entries@.len() == old(self).entries@.len()
                    &&& old(self).entries@.len() > 0 ==> (match old(self).entries@.last() {
                        ChatEntry::Tool { name, args, .. } => final(self).entries@.last() matches
                            ChatEntry::Tool { name: n, args: a, result: None, error: Some(m) }
                            && n == name && a == args && m@ == err@,
                        e => final(self).entries@.last() == e,
                    })
                    &&& forall|i: int|
                        0 <= i < old(self).entries@.len() - 1 ==> final(self).entries@[i] == old(self).entries@[i]
                    &&& final(self).is_thinking == old(self).is_thinking
                    &&& final(self).awaiting_approval == old(self).awaiting_approval
                },
                AgentUpdate::Assistant(text) => {
                    &&& final(self).entries@.drop_last() == old(self).entries@
                    &&& final(self).entries@.last() matches ChatEntry::Assistant { content: c }
                        && c@ == text@
                    &&& !final(self).is_thinking
                    &&& final(self).awaiting_approval == old(self).awaiting_approval
                },
                AgentUpdate::Error(message) => {
                    &&& final(self).entries@.drop_last() == old(self).entries@
                    &&& final(self).entries@.last() matches ChatEntry::Error { message: m } && m@
                        == message@
                    &&& !final(self).is_thinking
                    &&& final(self).awaiting_approval == old(self).awaiting_approval
                },
                AgentUpdate::ApprovalNeeded { summary } => {
                    &&& final(self).entries@.drop_last() == old(self).entries@
                    &&& final(self).entries@.last() matches ChatEntry::System { content: c } && c@
                        == approval_notice(summary@)
                    &&& final(self).awaiting_approval
                    &&& final(self).approval_summary matches Some(s) && s@ == summary@
                    &&& !final(self).is_thinking
                },
                AgentUpdate::Done => {
                    &&& final(self).entries == old(self).entries
                    &&& final(self).is_thinking == (old(self).is_thinking
                        && old(self).awaiting_approval)
                    &&& final(self).awaiting_approval == old(self).awaiting_approval
                },
            },
    {
        match &update {
            AgentUpdate::StartTool { name, args } => {
                self.start_tool(name.as_str(), args.as_str());
            },
            AgentUpdate::CompleteTool(out) => {
                self.complete_tool(out.as_str());
            },
            AgentUpdate::FailTool(err) => {
                self.fail_tool(err.as_str());
            },
            AgentUpdate::Assistant(text) => {
                self.is_thinking = false;
                self.push_assistant(text.as_str());
            },
            AgentUpdate::Error(message) => {
                self.is_thinking = false;
                self.push_error(message.as_str());
            },
            AgentUpdate::ApprovalNeeded { summary } => {
                self.request_approval(summary.as_str());
                let notice = concat2("Approval required: ", summary.as_str());
                self.push_system(notice.as_str());
            },
            AgentUpdate::Done => {
                if !self.awaiting_approval {
                    self.is_thinking = false;
                }
            },
        }
    }

    /// After a new token was stored and the settings written (`saved` is the
    /// outcome of the write): on success the token counts as set and the
    /// panel closes with a notice; on failure the token panel shows why.
    pub fn token_saved(&mut self, saved: Result<(), AppError>) -> (r: Option<String>)
        ensures
            saved is Ok ==> {
                &&& final(self).has_token
                &&& final(self).overlay is Inactive
                &&& r matches Some(m) && m@ == "API token saved."@
            },
            saved matches Err(e) ==> {
                &&& r is None
                &&& final(self).has_token == old(self).has_token
                &&& match old(self).overlay {
                    Overlay::TokenEntry { input, cursor, dismissable, .. } => final(self).overlay matches Overlay::TokenEntry {
                        input: i,
                        cursor: c,
                        error: Some(m),
                        dismissable: d,
                    } && i == input && c == cursor && d == dismissable && m@ == "Failed to save: "@
                        + error_text(e),
                    o => final(self).overlay == o,
                }
            },
            final(self).entries == old(self).entries,
            final(self).mode == old(self).mode,
            same_scrolling(*final(self), *old(self)),
            same_input(*final(self), *old(self)),
            same_sidebar(*final(self), *old(self)),
    {
        match &saved {
            Ok(()) => {
                self.set_has_token(true);
                self.close_overlay();
                Some(owned("API token saved."))
            },
            Err(e) => {
                let why = e.message();
                let text = concat2("Failed to save: ", why.as_str());
                let replaced = match &self.overlay {
                    Overlay::TokenEntry { input, cursor, dismissable, .. } => Some(
                        Overlay::TokenEntry {
                            input: input.clone(),
                            cursor: *cursor,
                            error: Some(text),
                            dismissable: *dismissable,
                        },
                    ),
                    _ => None,
                };
                match replaced {
                    Some(o) => {
                        self.overlay = o;
                    },
                    None => {},
                }
                None
            },
        }
    }

    /// After the mode was changed in the settings and the settings written
    /// (`saved` is the outcome of the write): on success the interface and
    /// an open settings panel show the new mode, token and path; the notice
    /// to show is returned either way.
    pub fn mode_saved(
        &mut self,
        mode: AgentMode,
        masked_token: String,
        config_path: String,
        saved: Result<(), AppError>,
    ) -> (r: String)
        ensures
            saved is Ok ==> {
                &&& final(self).mode == mode
                &&& r@ == mode_notice(mode)
                &&& match old(self).overlay {
                    Overlay::Settings { pick, .. } => final(self).overlay == (Overlay::Settings {
                        pick,
                        masked_token,
                        mode,
                        config_path,
                    }),
                    o => final(self).overlay == o,
                }
            },
            saved matches Err(e) ==> {
                &&& r@ == "Failed to save mode: "@ + error_text(e)
                &&& final(self).mode == old(self).mode
                &&& final(self).overlay == old(self).overlay
            },
            final(self).entries == old(self).entries,
            final(self).has_token == old(self).has_token,
            same_scrolling(*final(self), *old(self)),
            same_input(*final(self), *old(self)),
            same_sidebar(*final(self), *old(self)),
    {
        match &saved {
            Ok(()) => {
                self.set_mode(mode);
                let replaced = match &self.overlay {
                    Overlay::Settings { pick, .. } => Some(
                        Overlay::Settings { pick: *pick, masked_token, mode, config_path },
                    ),
                    _ => None,
                };
                match replaced {
                    Some(o) => {
                        self.overlay = o;
                    },
                    None => {},
                }
                concat4("Mode set to ", mode.label(), " — ", mode.description())
            },
            Err(e) => {
                let why = e.message();
                concat2("Failed to save mode: ", why.as_str())
            },
        }
    }
}

/// The notice after the history sidebar was opened or closed.
pub open spec fn sidebar_notice(open: bool) -> Seq<char> {
    if open {
        "History sidebar opened."@
    } else {
        "History sidebar closed."@
    }
}

impl AppState {
    /// Reacts to the reply of a slash command, with the settings as the
    /// command left them; `config_path` is where they are stored. Returns
    /// whether the agent's conversation is to be forgotten too.
    pub fn apply_command_reply(&mut self, reply: &str, settings: &Settings, config_path: &str) -> (clear: bool)
        requires
            old(self).sidebar_scroll + max2(old(self).sidebar_viewport as int, 1) <= usize::MAX,
            reply@ == "__OPEN_SETTINGS__"@ ==> mask_defined(settings.api_key@),
        ensures
            clear == (reply@ == "__CLEAR__"@),
            final(self).mode == stored_mode(settings.mode@),
            final(self).has_token == token_present(settings.api_key@),
            reply@ == "__CLEAR__"@ ==> {
                &&& final(self).entries@.len() == 1
                &&& final(self).entries@[0] matches ChatEntry::System { content: c } && c@
                    == "Conversation cleared."@
            },
            reply@ == "__OPEN_TOKEN__"@ ==> {
                &&& final(self).entries == old(self).entries
                &&& final(self).overlay matches Overlay::TokenEntry {
                    input,
                    cursor,
                    error,
                    dismissable,
                } && input@.len() == 0 && cursor == 0 && error is None && dismissable
                    == token_present(settings.api_key@)
            },
            reply@ == "__OPEN_SETTINGS__"@ ==> {
                &&& final(self).entries == old(self).entries
                &&& final(self).overlay matches Overlay::Settings {
                    pick,
                    masked_token,
                    mode,
                    config_path: p,
                } && pick == 0 && masked_token@ == masked(settings.api_key@) && mode
                    == stored_mode(settings.mode@) && p@ == config_path@
            },
            reply@ == "__HISTORY_TOGGLE__"@ ==> {
                &&& final(self).sidebar_open == !old(self).sidebar_open
                &&& final(self).entries@.drop_last() == old(self).entries@
                &&& final(self).entries@.last() matches ChatEntry::System { content: c } && c@
                    == sidebar_notice(final(self).sidebar_open)
            },
            reply@ == "__HISTORY_OPEN__"@ ==> {
                &&& final(self).sidebar_open
                &&& final(self).entries@.drop_last() == old(self).entries@
                &&& final(self).entries@.last() matches ChatEntry::System { content: c } && c@
                    == sidebar_notice(true)
            },
            reply@ == "__HISTORY_CLOSE__"@ ==> {
                &&& !final(self).sidebar_open
                &&& final(self).entries@.drop_last() == old(self).entries@
                &&& final(self).entries@.last() matches ChatEntry::System { content: c } && c@
                    == sidebar_notice(false)
            },
            reply@ != "__CLEAR__"@ && reply@ != "__OPEN_TOKEN__"@ && reply@ != "__OPEN_SETTINGS__"@
                && reply@ != "__HISTORY_TOGGLE__"@ && reply@ != "__HISTORY_OPEN__"@ && reply@
                != "__HISTORY_CLOSE__"@ ==> {
                &&& final(self).entries@.drop_last() == old(self).entries@
                &&& final(self).entries@.last() matches ChatEntry::System { content: c } && c@
                    == reply@
                &&& final(self).overlay == old(self).overlay
                &&& final(self).sidebar_open == old(self).sidebar_open
            },
            same_input(*final(self), *old(self)),
    {
        proof {
            reveal_strlit("__CLEAR__");
            reveal_strlit("__OPEN_TOKEN__");
            reveal_strlit("__OPEN_SETTINGS__");
            reveal_strlit("__HISTORY_TOGGLE__");
            reveal_strlit("__HISTORY_OPEN__");
            reveal_strlit("__HISTORY_CLOSE__");
            assert("__OPEN_TOKEN__"@[2] != "__CLEAR__"@[2]);
            assert("__HISTORY_TOGGLE__"@.len() != "__CLEAR__"@.len());
            assert("__HISTORY_OPEN__"@.len() != "__CLEAR__"@.len());
            assert("__HISTORY_TOGGLE__"@.len() != "__OPEN_TOKEN__"@.len());
            assert("__HISTORY_OPEN__"@.len() != "__OPEN_TOKEN__"@.len());
            assert("__HISTORY_TOGGLE__"@.len() != "__OPEN_SETTINGS__"@.len());
            assert("__HISTORY_OPEN__"@.len() != "__OPEN_SETTINGS__"@.len());
            assert("__HISTORY_OPEN__"@.len() != "__HISTORY_TOGGLE__"@.len());
            assert("__HISTORY_CLOSE__"@[2] != "__OPEN_SETTINGS__"@[2]);
            assert("__HISTORY_CLOSE__"@.len() != "__CLEAR__"@.len());
            assert("__HISTORY_CLOSE__"@.len() != "__OPEN_TOKEN__"@.len());
            assert("__HISTORY_CLOSE__"@.len() != "__HISTORY_TOGGLE__"@.len());
            assert("__HISTORY_CLOSE__"@.len() != "__HISTORY_OPEN__"@.len());
        }
        let mut clear = false;
        if is_clear_marker(reply) {
            clear = true;
            self.clear_chat();
            self.push_system("Conversation cleared.");
        } else if is_open_token_marker(reply) {
            self.open_token_overlay(settings.has_token());
        } else if is_open_settings_marker(reply) {
            let masked_token = settings.masked_token();
            self.open_settings_overlay(masked_token, settings.mode(), owned(config_path));
        } else if is_history_toggle_marker(reply) {
            self.toggle_sidebar();
            if self.sidebar_open {
                self.push_system("History sidebar opened.");
            } else {
                self.push_system("History sidebar closed.");
            }
        } else if is_history_open_marker(reply) {
            self.open_sidebar();
            self.push_system("History sidebar opened.");
        } else if is_history_close_marker(reply) {
            self.close_sidebar();
            self.push_system("History sidebar closed.");
        } else {
            self.push_system(reply);
        }
        self.set_mode(settings.mode());
        self.set_has_token(settings.has_token());
        clear
    }
}

impl AppState {
    /// Starts a turn with the prompt `input` when the agent has a token
    /// (`has_token`): the prompt joins the transcript and the view waits for
    /// the agent. Without a token the token panel opens instead. Returns
    /// whether the turn is to start.
    pub fn begin_prompt(&mut self, input: &str, has_token: bool) -> (start: bool)
        ensures
            start == has_token,
            has_token ==> {
                &&& final(self).entries@.drop_last() == old(self).entries@
                &&& final(self).entries@.last() matches ChatEntry::User { content: c } && c@
                    == input@
                &&& final(self).is_thinking
                &&& final(self).overlay == old(self).overlay
            },
            !has_token ==> {
                &&& final(self).entries == old(self).entries
                &&& final(self).overlay matches Overlay::TokenEntry {
                    input: i,
                    cursor,
                    error,
                    dismissable,
                } && i@.len() == 0 && cursor == 0 && error is None && !dismissable
                &&& final(self).is_thinking == old(self).is_thinking
            },
            same_input(*final(self), *old(self)),
    {
        if !has_token {
            self.open_token_overlay(false);
            return false;
        }
        self.push_user(input);
        self.is_thinking = true;
        true
    }

    /// Whether the running turn has settled: the agent neither works nor
    /// waits for an approval.
    pub fn turn_settled(&self) -> (r: bool)
        ensures
            r == (!self.is_thinking && !self.awaiting_approval),
    {
        !self.is_thinking && !self.awaiting_approval
    }
}

} // verus!
