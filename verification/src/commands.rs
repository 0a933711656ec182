//! Slash commands typed into the input box.

use vstd::prelude::*;
use crate::mode::{mode_description, mode_label, parse_mode, AgentMode};
use crate::settings::{stored_mode, Settings};
use crate::text::{
    chars_of, concat2, concat3, find_char, lowercase, lowercase_chars, owned, seq_eq, starts_with,
    string_of, string_of_range, trim, trim_chars, vec_eq_str, vec_find_char, vec_starts_with,
    vec_starts_with_str,
};

verus! {

broadcast use vstd::string::group_string_axioms;

/// What handling a line of input produced.
pub enum CommandResult {
    /// A command; `reply` is shown to the user (or is one of the markers below).
    Handled { reply: String },
    /// The line is no command.
    NotACommand,
    /// A command that changed the settings, which must now be saved: on success
    /// the user is shown `saved`, on failure `failed`, `": "` and the error.
    Persist { saved: String, failed: String },
}

/// The plain-value view of a [`CommandResult`].
pub enum CommandOutcome {
    Handled(Seq<char>),
    NotACommand,
    Persist(Seq<char>, Seq<char>),
}

impl View for CommandResult {
    type V = CommandOutcome;

    open spec fn view(&self) -> CommandOutcome {
        match self {
            CommandResult::Handled { reply } => CommandOutcome::Handled(reply@),
            CommandResult::NotACommand => CommandOutcome::NotACommand,
            CommandResult::Persist { saved, failed } => CommandOutcome::Persist(saved@, failed@),
        }
    }
}

/// The text of `/help`.
pub const HELP_TEXT: &'static str = "Commands:
  /token         open token entry (or /token <key>)
  /mode base     safe mode — harmful actions need approval
  /mode god      unrestricted mode
  /mode          show current mode
  /settings      open settings panel
  /clear         clear conversation
  /history       toggle question history sidebar
  /history open  open history sidebar
  /history close close history sidebar
  /help          show this help";

/// The word of a command line (up to the first space).
pub open spec fn command_word(t: Seq<char>) -> Seq<char> {
    t.take(find_char(t, ' ') as int)
}

/// The argument of a command line (after the first space, trimmed).
pub open spec fn command_arg(t: Seq<char>) -> Seq<char> {
    let i = find_char(t, ' ');
    if i < t.len() {
        trim(t.skip(i as int + 1))
    } else {
        Seq::empty()
    }
}

/// The reply to `/mode` without an argument.
pub open spec fn mode_status(m: AgentMode) -> Seq<char> {
    "Mode: "@ + mode_label(m) + " — "@ + mode_description(m) + "\nUse /mode base or /mode god"@
}

/// The confirmation after switching to `m`.
pub open spec fn mode_set_reply(m: AgentMode) -> Seq<char> {
    "Mode set to "@ + mode_label(m) + " — "@ + mode_description(m)
}

/// The reply to `/history` with the (lowercased) argument `a`.
pub open spec fn history_reply(a: Seq<char>) -> Seq<char> {
    if a == ""@ || a == "toggle"@ {
        "__HISTORY_TOGGLE__"@
    } else if a == "open"@ {
        "__HISTORY_OPEN__"@
    } else if a == "close"@ {
        "__HISTORY_CLOSE__"@
    } else {
        "Use /history open, /history close, or /history toggle"@
    }
}

/// What a line of input yields, given the stored mode name.
pub open spec fn command_outcome(input: Seq<char>, stored: Seq<char>) -> CommandOutcome {
    let t = trim(input);
    let cmd = lowercase(command_word(t));
    let arg = command_arg(t);
    if !starts_with(t, "/"@) {
        CommandOutcome::NotACommand
    } else if cmd == "/help"@ || cmd == "/commands"@ {
        CommandOutcome::Handled(HELP_TEXT@)
    } else if cmd == "/token"@ || cmd == "/apikey"@ || cmd == "/key"@ {
        if arg.len() == 0 {
            CommandOutcome::Handled("__OPEN_TOKEN__"@)
        } else {
            CommandOutcome::Persist("API token saved."@, "Failed to save token"@)
        }
    } else if cmd == "/mode"@ {
        if arg.len() == 0 {
            CommandOutcome::Handled(mode_status(stored_mode(stored)))
        } else {
            match parse_mode(arg) {
                Some(m) => CommandOutcome::Persist(mode_set_reply(m), "Failed to save mode"@),
                None => CommandOutcome::Handled("Unknown mode. Use /mode base or /mode god"@),
            }
        }
    } else if cmd == "/settings"@ {
        CommandOutcome::Handled("__OPEN_SETTINGS__"@)
    } else if cmd == "/clear"@ {
        CommandOutcome::Handled("__CLEAR__"@)
    } else if cmd == "/history"@ || cmd == "/sidebar"@ {
        CommandOutcome::Handled(history_reply(lowercase(arg)))
    } else {
        CommandOutcome::Handled("Unknown command: "@ + cmd + ". Type /help"@)
    }
}

/// The token after a line of input (a `/token <key>` line sets it).
pub open spec fn command_token(input: Seq<char>, api_key: Seq<char>) -> Seq<char> {
    let t = trim(input);
    let cmd = lowercase(command_word(t));
    let arg = command_arg(t);
    if starts_with(t, "/"@) && !(cmd == "/help"@ || cmd == "/commands"@) && (cmd == "/token"@
        || cmd == "/apikey"@ || cmd == "/key"@) && arg.len() > 0 {
        arg
    } else {
        api_key
    }
}

/// The stored mode name after a line of input (`/mode <name>` sets it).
pub open spec fn command_mode(input: Seq<char>, stored: Seq<char>) -> Seq<char> {
    let t = trim(input);
    let cmd = lowercase(command_word(t));
    let arg = command_arg(t);
    if starts_with(t, "/"@) && !(cmd == "/help"@ || cmd == "/commands"@) && !(cmd == "/token"@
        || cmd == "/apikey"@ || cmd == "/key"@) && cmd == "/mode"@ && arg.len() > 0 && parse_mode(
        arg,
    ) is Some {
        mode_label(parse_mode(arg)->0)
    } else {
        stored
    }
}

/// Handles a line of input: commands answer, and `/token <key>` and
/// `/mode <name>` change `settings` and ask for them to be saved.
pub fn handle(input: &str, settings: &mut Settings) -> (r: CommandResult)
    ensures
        r@ == command_outcome(input@, old(settings).mode@),
        final(settings).api_key@ == command_token(input@, old(settings).api_key@),
        final(settings).mode@ == command_mode(input@, old(settings).mode@),
        starts_with(trim(input@), "/"@) && vstd::utf8::is_ascii_chars(command_word(trim(input@)))
            ==> lowercase(command_word(trim(input@))) == crate::text::ascii_lowercase(
            command_word(trim(input@)),
        ),
{
    let iv = chars_of(input);
    let t = trim_chars(&iv);
    if !vec_starts_with_str(&t, "/") {
        return CommandResult::NotACommand;
    }
    let sp = vec_find_char(&t, ' ');
    let word = string_of_range(&t, 0, sp);
    proof {
        assert(t@.subrange(0, sp as int) =~= t@.take(sp as int));
    }
    let cmd_s = crate::text::to_lowercase(word.as_str());
    let cmd = chars_of(cmd_s.as_str());
    let arg: Vec<char> = if sp < t.len() {
        let rest = string_of_range(&t, sp + 1, t.len());
        proof {
            assert(t@.subrange(sp + 1, t@.len() as int) =~= t@.skip(sp + 1));
        }
        let rv = chars_of(rest.as_str());
        trim_chars(&rv)
    } else {
        Vec::new()
    };
    assert(arg@ == command_arg(t@));
    if vec_eq_str(&cmd, "/help") || vec_eq_str(&cmd, "/commands") {
        CommandResult::Handled { reply: owned(HELP_TEXT) }
    } else if vec_eq_str(&cmd, "/token") || vec_eq_str(&cmd, "/apikey") || vec_eq_str(
        &cmd,
        "/key",
    ) {
        if arg.len() == 0 {
            return CommandResult::Handled { reply: owned("__OPEN_TOKEN__") };
        }
        settings.api_key = string_of(&arg);
        CommandResult::Persist {
            saved: owned("API token saved."),
            failed: owned("Failed to save token"),
        }
    } else if vec_eq_str(&cmd, "/mode") {
        if arg.len() == 0 {
            let mode = settings.mode();
            return CommandResult::Handled {
                reply: mode_status_text(mode),
            };
        }
        let arg_s = string_of(&arg);
        match AgentMode::from_str(arg_s.as_str()) {
            Some(mode) => {
                settings.set_mode(mode);
                CommandResult::Persist {
                    saved: concat3(
                        concat2("Mode set to ", mode.label()).as_str(),
                        " — ",
                        mode.description(),
                    ),
                    failed: owned("Failed to save mode"),
                }
            },
            None => CommandResult::Handled {
                reply: owned("Unknown mode. Use /mode base or /mode god"),
            },
        }
    } else if vec_eq_str(&cmd, "/settings") {
        CommandResult::Handled { reply: owned("__OPEN_SETTINGS__") }
    } else if vec_eq_str(&cmd, "/clear") {
        CommandResult::Handled { reply: owned("__CLEAR__") }
    } else if vec_eq_str(&cmd, "/history") || vec_eq_str(&cmd, "/sidebar") {
        let a = lowercase_chars(&arg);
        let reply = if vec_eq_str(&a, "") || vec_eq_str(&a, "toggle") {
            owned("__HISTORY_TOGGLE__")
        } else if vec_eq_str(&a, "open") {
            owned("__HISTORY_OPEN__")
        } else if vec_eq_str(&a, "close") {
            owned("__HISTORY_CLOSE__")
        } else {
            owned("Use /history open, /history close, or /history toggle")
        };
        CommandResult::Handled { reply }
    } else {
        CommandResult::Handled {
            reply: concat3("Unknown command: ", cmd_s.as_str(), ". Type /help"),
        }
    }
}

/// The reply to `/mode` without an argument.
fn mode_status_text(mode: AgentMode) -> (r: String)
    ensures
        r@ == mode_status(mode),
{
    let a = concat3("Mode: ", mode.label(), " — ");
    concat3(a.as_str(), mode.description(), "\nUse /mode base or /mode god")
}

/// The reply once the settings that a command changed were saved (`error`
/// is `None`) or failed to save.
pub fn reply_after_save(saved: &str, failed: &str, error: Option<&str>) -> (r: String)
    ensures
        error is None ==> r@ == saved@,
        error matches Some(e) ==> r@ == failed@ + ": "@ + e@,
{
    match error {
        None => owned(saved),
        Some(e) => concat3(failed, ": ", e),
    }
}

/// The reply of `/clear`.
pub fn is_clear_marker(reply: &str) -> (r: bool)
    ensures
        r == (reply@ == "__CLEAR__"@),
{
    crate::text::str_eq(reply, "__CLEAR__")
}

/// The reply of a bare `/token`.
pub fn is_open_token_marker(reply: &str) -> (r: bool)
    ensures
        r == (reply@ == "__OPEN_TOKEN__"@),
{
    crate::text::str_eq(reply, "__OPEN_TOKEN__")
}

/// The reply of `/settings`.
pub fn is_open_settings_marker(reply: &str) -> (r: bool)
    ensures
        r == (reply@ == "__OPEN_SETTINGS__"@),
{
    crate::text::str_eq(reply, "__OPEN_SETTINGS__")
}

/// The reply of `/history` and `/history toggle`.
pub fn is_history_toggle_marker(reply: &str) -> (r: bool)
    ensures
        r == (reply@ == "__HISTORY_TOGGLE__"@),
{
    crate::text::str_eq(reply, "__HISTORY_TOGGLE__")
}

/// The reply of `/history open`.
pub fn is_history_open_marker(reply: &str) -> (r: bool)
    ensures
        r == (reply@ == "__HISTORY_OPEN__"@),
{
    crate::text::str_eq(reply, "__HISTORY_OPEN__")
}

/// The reply of `/history close`.
pub fn is_history_close_marker(reply: &str) -> (r: bool)
    ensures
        r == (reply@ == "__HISTORY_CLOSE__"@),
{
    crate::text::str_eq(reply, "__HISTORY_CLOSE__")
}

} // verus!

verus! {

/// An entry of the command palette.
#[derive(Clone, Copy, Debug)]
pub struct CommandSuggestion {
    /// The command word.
    pub cmd: &'static str,
    /// What it does.
    pub desc: &'static str,
    /// What picking it fills into the input.
    pub usage: &'static str,
}

/// The command palette, in display order.
pub open spec fn suggestion_table() -> Seq<CommandSuggestion> {
    seq![
        CommandSuggestion { cmd: "/token", desc: "set your API token", usage: "/token " },
        CommandSuggestion { cmd: "/mode", desc: "switch base or god mode", usage: "/mode " },
        CommandSuggestion { cmd: "/settings", desc: "open settings panel", usage: "/settings" },
        CommandSuggestion { cmd: "/clear", desc: "clear conversation", usage: "/clear" },
        CommandSuggestion {
            cmd: "/history",
            desc: "open/close question history",
            usage: "/history ",
        },
        CommandSuggestion { cmd: "/help", desc: "list all commands", usage: "/help" },
    ]
}

/// The command palette, in display order.
pub fn suggestions() -> (r: Vec<CommandSuggestion>)
    ensures
        r@ == suggestion_table(),
{
    let r = vec![
        CommandSuggestion { cmd: "/token", desc: "set your API token", usage: "/token " },
        CommandSuggestion { cmd: "/mode", desc: "switch base or god mode", usage: "/mode " },
        CommandSuggestion { cmd: "/settings", desc: "open settings panel", usage: "/settings" },
        CommandSuggestion { cmd: "/clear", desc: "clear conversation", usage: "/clear" },
        CommandSuggestion {
            cmd: "/history",
            desc: "open/close question history",
            usage: "/history ",
        },
        CommandSuggestion { cmd: "/help", desc: "list all commands", usage: "/help" },
    ];
    assert(r@ =~= suggestion_table());
    r
}

/// A palette entry fits the (lowercased) typed text `q` when one is a prefix of
/// the other.
pub open spec fn suggestion_fits(q: Seq<char>, cmd: Seq<char>) -> bool {
    starts_with(cmd, q) || starts_with(q, cmd)
}

/// The palette entries offered for the typed text `input`, in palette order.
pub open spec fn suggestions_for(input: Seq<char>) -> Seq<CommandSuggestion> {
    if starts_with(input, "/"@) {
        suggestion_table().filter(|s: CommandSuggestion| suggestion_fits(lowercase(input), s.cmd@))
    } else {
        Seq::empty()
    }
}

/// The palette entries that fit what was typed (none unless it starts with `/`).
pub fn matching_suggestions(input: &str) -> (r: Vec<CommandSuggestion>)
    ensures
        r@ == suggestions_for(input@),
{
    let iv = chars_of(input);
    if !vec_starts_with_str(&iv, "/") {
        return Vec::new();
    }
    let qs = crate::text::to_lowercase(input);
    let q = chars_of(qs.as_str());
    let ghost pred = |s: CommandSuggestion| suggestion_fits(lowercase(input@), s.cmd@);
    let all = suggestions();
    let mut r: Vec<CommandSuggestion> = Vec::new();
    let mut i: usize = 0;
    assert(all@.take(0) =~= Seq::<CommandSuggestion>::empty());
    proof {
        reveal(Seq::filter);
    }
    while i < 6
        invariant
            i <= 6,
            all@ == suggestion_table(),
            all@.len() == 6,
            q@ == lowercase(input@),
            pred == (|s: CommandSuggestion| suggestion_fits(lowercase(input@), s.cmd@)),
            r@ == all@.take(i as int).filter(pred),
        decreases 6 - i,
    {
        let s = all[i];
        let c = chars_of(s.cmd);
        let fits = vec_starts_with(&c, &q) || vec_starts_with(&q, &c);
        proof {
            reveal(Seq::filter);
            assert(all@.take(i + 1).drop_last() =~= all@.take(i as int));
            assert(all@.take(i + 1).last() == s);
        }
        if fits {
            r.push(s);
        }
        i += 1;
    }
    assert(all@.take(6) =~= all@);
    r
}

} // verus!
