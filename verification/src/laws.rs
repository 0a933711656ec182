//! Properties of the library as a whole: the approval policy of the two
//! modes, the round trips of editing and settings, and the shape of the
//! transcript and the conversation.

use vstd::prelude::*;
use crate::agent::{tool_plan, PlanView};
use crate::commands::{command_arg, command_mode, command_outcome, command_word, CommandOutcome};
use crate::turn::{expects, rewound, turn_step, ActionView, Log, Stage, TurnEvent};
use crate::llm::{declared_tools, PartView};
use crate::api_error::ascii_upper;
use crate::mode::{
    access_approval, approval_needed, mode_description, parse_mode, contains_any, harmful_shell, harmful_write, SHELL_PATTERNS, lemma_mode_label_roundtrip, mode_label,
    sensitive_path, AgentMode,
};
use crate::settings::{
    auth_reply, mask_defined, masked, sanitized, stored_ascii_mode, token_present, AUTH_ERROR_MARKS,
    RATE_LIMIT_MARKS,
};
use crate::text::{ascii_lower, ascii_lowercase, contains, find_char, is_ws, lemma_find_char, trim_end, trim_start, lemma_blen_encode, lowercase, occurs_at, starts_with, blen, chars_before, is_boundary, lemma_blen_push, lemma_boundary_unique, trim, width};
use crate::tool_args::{lookup, str_arg, ArgValue, ToolArgs};
use crate::search::{capped, glob_matches, matching_paths, WalkEntry};
use crate::tools::{grep_from, split_lines, MAX_MATCHES, MAX_RESULTS};
use crate::ui::chat::{
    anchored, card_text, entries_from, lemma_turn_rest_advances, standalone_lines, transcript,
    turn_rest, welcome_lines, Accent, BodyStyle, LineView,
};
use crate::ui::overlay::{inserted, prev_boundary, removed_before};
use crate::ui::keys::{key_case, KeyCase, KeyPress};
use crate::ui::overlay::KeyCode;
use crate::ui::{max2, min2, pick_down, pick_up, smooth_step, AppState, ChatEntry};

use vstd::utf8::{is_ascii_chars, is_ascii_chars_encode_utf8};

verus! {

// ---------------------------------------------------------------------------
// Approval policy
// ---------------------------------------------------------------------------

/// In god mode no tool call ever waits for approval.
pub proof fn law_god_mode_never_asks(tool: Seq<char>, args: ToolArgs)
    ensures
        approval_needed(AgentMode::God, tool, args) is None,
{
}

/// In base mode, deleting always asks first, whatever the arguments.
pub proof fn law_delete_always_asks(args: ToolArgs)
    ensures
        approval_needed(AgentMode::Base, "delete_file"@, args) == Some(
            "delete: "@ + str_arg(args, "path"@),
        ),
{
    reveal_strlit("delete_file");
    reveal_strlit("run_shell");
    reveal_strlit("write_file");
    reveal_strlit("edit_file");
    reveal_strlit("create_dir");
    assert("delete_file"@ != "run_shell"@ && "delete_file"@ != "write_file"@ && "delete_file"@
        != "edit_file"@ && "delete_file"@ != "create_dir"@) by {
        assert("delete_file"@[0] != "run_shell"@[0]);
        assert("delete_file"@[0] != "write_file"@[0]);
        assert("delete_file"@[0] != "edit_file"@[0]);
        assert("delete_file"@[1] != "create_dir"@[1]);
    }
}

/// In base mode, fetching a URL always asks first, whatever the arguments.
pub proof fn law_http_always_asks(args: ToolArgs)
    ensures
        approval_needed(AgentMode::Base, "http_get"@, args) == Some("http: "@ + str_arg(args, "url"@)),
{
    reveal_strlit("http_get");
    reveal_strlit("run_shell");
    reveal_strlit("write_file");
    reveal_strlit("edit_file");
    reveal_strlit("create_dir");
    reveal_strlit("delete_file");
    reveal_strlit("move_file");
    reveal_strlit("read_file");
    reveal_strlit("list_dir");
    reveal_strlit("grep");
    reveal_strlit("search_files");
    assert("http_get"@[0] != "run_shell"@[0]);
    assert("http_get"@[0] != "write_file"@[0]);
    assert("http_get"@[0] != "edit_file"@[0]);
    assert("http_get"@[0] != "create_dir"@[0]);
    assert("http_get"@[0] != "delete_file"@[0]);
    assert("http_get"@[0] != "move_file"@[0]);
    assert("http_get"@[0] != "read_file"@[0]);
    assert("http_get"@[0] != "list_dir"@[0]);
    assert("http_get"@[0] != "grep"@[0]);
    assert("http_get"@[0] != "search_files"@[0]);
}

/// The environment report never asks, in either mode.
pub proof fn law_env_info_never_asks(mode: AgentMode, args: ToolArgs)
    ensures
        approval_needed(mode, "env_info"@, args) is None,
{
    reveal_strlit("env_info");
    reveal_strlit("run_shell");
    reveal_strlit("write_file");
    reveal_strlit("edit_file");
    reveal_strlit("create_dir");
    reveal_strlit("delete_file");
    reveal_strlit("move_file");
    reveal_strlit("read_file");
    reveal_strlit("list_dir");
    reveal_strlit("grep");
    reveal_strlit("search_files");
    reveal_strlit("http_get");
    assert("env_info"@[0] != "run_shell"@[0]);
    assert("env_info"@[0] != "write_file"@[0]);
    assert("env_info"@[1] != "edit_file"@[1]);
    assert("env_info"@[0] != "create_dir"@[0]);
    assert("env_info"@[0] != "delete_file"@[0]);
    assert("env_info"@[0] != "move_file"@[0]);
    assert("env_info"@[0] != "read_file"@[0]);
    assert("env_info"@[0] != "list_dir"@[0]);
    assert("env_info"@[0] != "grep"@[0]);
    assert("env_info"@[0] != "search_files"@[0]);
    assert("env_info"@[0] != "http_get"@[0]);
}

/// In base mode the reading tools ask exactly when their path is sensitive.
pub proof fn law_reads_ask_iff_sensitive(tool: Seq<char>, args: ToolArgs)
    requires
        tool == "read_file"@ || tool == "list_dir"@ || tool == "grep"@,
    ensures
        approval_needed(AgentMode::Base, tool, args) is Some <==> str_arg(args, "path"@).len() > 0
            && sensitive_path(str_arg(args, "path"@)),
{
    reveal_strlit("run_shell");
    reveal_strlit("write_file");
    reveal_strlit("edit_file");
    reveal_strlit("create_dir");
    reveal_strlit("delete_file");
    reveal_strlit("move_file");
    reveal_strlit("read_file");
    reveal_strlit("list_dir");
    reveal_strlit("grep");
    assert(tool != "run_shell"@ && tool != "write_file"@ && tool != "edit_file"@ && tool
        != "create_dir"@ && tool != "delete_file"@ && tool != "move_file"@) by {
        if tool == "read_file"@ {
            assert(tool[1] != "run_shell"@[1]);
            assert(tool[0] != "write_file"@[0] && tool[0]
                != "edit_file"@[0] && tool[0] != "create_dir"@[0] && tool[0] != "delete_file"@[0]
                && tool[0] != "move_file"@[0]);
        } else if tool == "list_dir"@ {
            assert(tool[0] != "run_shell"@[0] && tool[0] != "write_file"@[0] && tool[0]
                != "edit_file"@[0] && tool[0] != "create_dir"@[0] && tool[0] != "delete_file"@[0]
                && tool[0] != "move_file"@[0]);
        } else {
            assert(tool[0] != "run_shell"@[0] && tool[0] != "write_file"@[0] && tool[0]
                != "edit_file"@[0] && tool[0] != "create_dir"@[0] && tool[0] != "delete_file"@[0]
                && tool[0] != "move_file"@[0]);
        }
    }
}

/// Every tool the model is told of is one the dispatcher knows: a call of it
/// is never refused as an unknown tool, whatever its arguments.
pub proof fn law_declared_tools_are_dispatched(i: int, args: ToolArgs)
    requires
        0 <= i < declared_tools().len(),
    ensures
        tool_plan(declared_tools()[i].0, args) != PlanView::Refused(
            "Unknown tool: "@ + declared_tools()[i].0,
        ),
{
    reveal_strlit("Unknown tool: ");
    reveal_strlit("Missing command");
    reveal_strlit("Missing path");
    let n = declared_tools()[i].0;
    assert(("Unknown tool: "@ + n)[0] == 'U');
    assert("Missing command"@[0] == 'M' && "Missing path"@[0] == 'M');
}

/// In base mode the writing tools ask exactly when their path is sensitive
/// or climbs with `..`.
pub proof fn law_writes_ask_iff_harmful(tool: Seq<char>, args: ToolArgs)
    requires
        tool == "write_file"@ || tool == "edit_file"@ || tool == "create_dir"@,
    ensures
        approval_needed(AgentMode::Base, tool, args) is Some <==> str_arg(args, "path"@).len() > 0
            && harmful_write(str_arg(args, "path"@)),
{
    reveal_strlit("run_shell");
    reveal_strlit("write_file");
    reveal_strlit("edit_file");
    reveal_strlit("create_dir");
    assert(tool[0] != "run_shell"@[0]);
}

/// In base mode a move asks exactly when either end is sensitive or climbs
/// with `..`.
pub proof fn law_moves_ask_iff_harmful(args: ToolArgs)
    ensures
        approval_needed(AgentMode::Base, "move_file"@, args) is Some <==> harmful_write(
            str_arg(args, "from"@),
        ) || harmful_write(str_arg(args, "to"@)),
{
    reveal_strlit("move_file");
    reveal_strlit("run_shell");
    reveal_strlit("write_file");
    reveal_strlit("edit_file");
    reveal_strlit("create_dir");
    reveal_strlit("delete_file");
    assert("move_file"@[0] != "run_shell"@[0]);
    assert("move_file"@[0] != "write_file"@[0]);
    assert("move_file"@[0] != "edit_file"@[0]);
    assert("move_file"@[0] != "create_dir"@[0]);
    assert("move_file"@[0] != "delete_file"@[0]);
}

/// What occurs in `x` occurs in `x + y`.
proof fn lemma_contains_grows(x: Seq<char>, y: Seq<char>, p: Seq<char>)
    requires
        contains(x, p),
    ensures
        contains(x + y, p),
{
    let i = choose|i: int| occurs_at(x, p, i);
    assert((x + y).subrange(i, i + p.len()) =~= x.subrange(i, i + p.len()));
    assert(occurs_at(x + y, p, i));
}

/// A harmful shell command stays harmful with more text after it. Stated of
/// commands whose lowercase only lowercases ASCII letters: `is_harmful_shell`
/// states that of every ASCII command it is given.
pub proof fn law_harmful_shell_grows(cmd: Seq<char>, more: Seq<char>)
    requires
        lowercase(cmd) == ascii_lowercase(cmd),
        lowercase(cmd + more) == ascii_lowercase(cmd + more),
        harmful_shell(cmd),
    ensures
        harmful_shell(cmd + more),
{
    let lc = lowercase(cmd);
    let lm = ascii_lowercase(more);
    assert(ascii_lowercase(cmd + more) =~= lc + lm);
    let lw = lc + lm;
    if contains_any(lc, SHELL_PATTERNS@) {
        let i = choose|i: int| 0 <= i < SHELL_PATTERNS@.len() && contains(lc, (#[trigger] SHELL_PATTERNS@[i])@);
        lemma_contains_grows(lc, lm, SHELL_PATTERNS@[i]@);
        assert(contains_any(lw, SHELL_PATTERNS@));
    } else if contains(lc, "rm"@) && (contains(lc, " -r"@) || contains(lc, " -rf"@)) {
        lemma_contains_grows(lc, lm, "rm"@);
        if contains(lc, " -r"@) {
            lemma_contains_grows(lc, lm, " -r"@);
        } else {
            lemma_contains_grows(lc, lm, " -rf"@);
        }
    } else {
        let n = "sudo"@.len() as int;
        assert(starts_with(lc, "sudo"@));
        assert(lw.take(n) =~= lc.take(n));
        assert(starts_with(lw, "sudo"@));
    }
}

/// Upper-casing the ASCII letters of a command (`str::to_ascii_uppercase`)
/// changes nothing about whether it is harmful. Stated of commands whose
/// lowercase only lowercases ASCII letters, as above.
pub proof fn law_harmful_shell_ignores_case(cmd: Seq<char>)
    requires
        lowercase(cmd) == ascii_lowercase(cmd),
        lowercase(cmd.map_values(|c: char| ascii_upper(c))) == ascii_lowercase(
            cmd.map_values(|c: char| ascii_upper(c)),
        ),
    ensures
        harmful_shell(cmd.map_values(|c: char| ascii_upper(c))) == harmful_shell(cmd),
{
    let up = cmd.map_values(|c: char| ascii_upper(c));
    assert forall|i: int| 0 <= i < up.len() implies ascii_lower(#[trigger] up[i]) == ascii_lower(cmd[i]) by {
        assert(up[i] == ascii_upper(cmd[i]));
    }
    assert(ascii_lowercase(up) =~= ascii_lowercase(cmd));
}

/// A tool call is executed only when no approval is needed for it, or right
/// after the user approved it; a call that needs approval is never executed
/// on the model's reply alone, but asked about.
pub proof fn law_execute_only_when_approved(
    stage: Stage,
    mode: AgentMode,
    mark: nat,
    log: Log,
    ev: TurnEvent,
)
    requires
        expects(stage, ev),
    ensures
        turn_step(stage, mode, mark, log, ev).0 is Execute ==> {
            ||| stage is Approval && ev == TurnEvent::Approval(Some(true))
            ||| ev matches TurnEvent::Reply(Some(p)) && p.function_call matches Some(fc)
                && approval_needed(mode, fc.name@, fc.args) is None
        },
        ev matches TurnEvent::Reply(Some(p)) ==> (p.function_call matches Some(fc) ==> (
        approval_needed(mode, fc.name@, fc.args) matches Some(s) ==> turn_step(
            stage,
            mode,
            mark,
            log,
            ev,
        ).0 == ActionView::AskApproval(s) && turn_step(stage, mode, mark, log, ev).2 == Stage::Approval(
            fc.name@,
            fc.args,
        ))),
{
}

/// A failed step ends the turn and takes the conversation back to where the
/// turn began.
pub proof fn law_failed_turn_goes_back(stage: Stage, mode: AgentMode, mark: nat, log: Log, ev: TurnEvent)
    requires
        expects(stage, ev),
    ensures
        ({
            let (a, us, st, after) = turn_step(stage, mode, mark, log, ev);
            us.len() > 0 && us[0] is Error ==> a is Finish && st is Over && after == rewound(log, mark)
                && us.last() is Done
        }),
{
}

// ---------------------------------------------------------------------------
// Editing the input
// ---------------------------------------------------------------------------

/// Typing a character and deleting it with backspace gives back the text and
/// the cursor: `inserted` is what `AppState::insert_char` is stated to make of
/// the input, and `removed_before` and `prev_boundary` what `AppState::backspace`
/// is stated to make of the input and the cursor.
pub proof fn law_backspace_undoes_insert(s: Seq<char>, cursor: int, c: char)
    requires
        is_boundary(s, cursor),
    ensures
        removed_before(inserted(s, cursor, c), cursor + width(c)) == s,
        prev_boundary(inserted(s, cursor, c), cursor + width(c)) == cursor,
{
    let k = chars_before(s, cursor);
    let t = inserted(s, cursor, c);
    assert(0 <= k <= s.len() && blen(s.take(k)) == cursor);
    assert(t.take(k + 1) =~= s.take(k).push(c));
    lemma_blen_push(s.take(k), c);
    lemma_boundary_unique(t, k + 1, cursor + width(c));
    assert(t.take(k) =~= s.take(k));
    assert(t.skip(k + 1) =~= s.skip(k));
    assert(s.take(k) + s.skip(k) =~= s);
}

// ---------------------------------------------------------------------------
// Settings
// ---------------------------------------------------------------------------

/// A stored mode name selects that mode again.
pub proof fn law_mode_name_round_trip(m: AgentMode)
    ensures
        vstd::utf8::is_ascii_chars(mode_label(m)),
        stored_ascii_mode(mode_label(m)) == m,
{
    lemma_mode_label_roundtrip(m);
}

/// A token of at most eight bytes is never shown, not even in part.
pub proof fn law_short_token_hidden(key: Seq<char>)
    requires
        trim(key).len() > 0,
        blen(trim(key)) <= 8,
    ensures
        masked(key) == "••••••••"@,
{
}

/// A token is set exactly when the settings panel shows something other
/// than `not set` for it.
pub proof fn law_token_set_iff_shown(key: Seq<char>)
    requires
        mask_defined(key),
    ensures
        token_present(key) <==> masked(key) != "not set"@,
{
    reveal_strlit("not set");
    reveal_strlit("••••••••");
    reveal_strlit("…");
    let k = trim(key);
    if k.len() > 0 && masked(key) == "not set"@ {
        if blen(k) <= 8 {
            assert(masked(key)[0] != "not set"@[0]);
        } else {
            let c4 = chars_before(k, 4);
            assert(0 <= c4 <= k.len());
            let t = chars_before(k, blen(k) - 4);
            assert(0 <= t <= k.len());
            let m = masked(key);
            assert(m == k.take(c4) + "…"@ + k.skip(t));
            assert(m.len() == c4 + 1 + (k.len() - t));
            assert(m[c4] == '…');
            assert(c4 < 7);
            assert(m[c4] == "not set"@[c4]);
        }
    }
}

/// What has a character that `s` lacks does not occur in `s`.
proof fn lemma_lacks(s: Seq<char>, p: Seq<char>, j: int)
    requires
        0 <= j < p.len(),
        forall|i: int| 0 <= i < s.len() ==> s[i] != p[j],
    ensures
        !contains(s, p),
{
    if contains(s, p) {
        let i = choose|i: int| occurs_at(s, p, i);
        assert(s.subrange(i, i + p.len())[j] == s[i + j]);
    }
}

/// What has two neighbouring characters that never stand side by side in
/// `s` does not occur in `s`.
proof fn lemma_lacks_pair(s: Seq<char>, p: Seq<char>, j: int)
    requires
        0 <= j < p.len() - 1,
        forall|i: int| #![trigger s[i]] 0 <= i < s.len() - 1 ==> !(s[i] == p[j] && s[i + 1] == p[j + 1]),
    ensures
        !contains(s, p),
{
    if contains(s, p) {
        let i = choose|i: int| occurs_at(s, p, i);
        assert(s.subrange(i, i + p.len())[j] == s[i + j]);
        assert(s.subrange(i, i + p.len())[j + 1] == s[i + j + 1]);
    }
}

/// `Invalid or missing API token. Use /token to set one.` is sanitized to itself.
proof fn lemma_auth_reply_settles()
    requires
        is_ascii_chars("Invalid or missing API token. Use /token to set one."@) ==> lowercase("Invalid or missing API token. Use /token to set one."@) == ascii_lowercase("Invalid or missing API token. Use /token to set one."@),
    ensures
        sanitized("Invalid or missing API token. Use /token to set one."@) == "Invalid or missing API token. Use /token to set one."@,
{
    reveal_strlit("Invalid or missing API token. Use /token to set one.");
    reveal_strlit("429");
    reveal_strlit("connection");
    reveal_strlit("empty");
    reveal_strlit("network");
    reveal_strlit("quota exceeded");
    reveal_strlit("quota limit");
    reveal_strlit("rate limit");
    reveal_strlit("rate_limit");
    reveal_strlit("resource_exhausted");
    reveal_strlit("timeout");
    reveal_strlit("too many requests");
    let f = "Invalid or missing API token. Use /token to set one."@;
    let l = ascii_lowercase(f);
    assert forall|i: int| 0 <= i < f.len() implies '\0' <= #[trigger] f[i] <= '\u{7f}' by {
        assert(f[i] == "Invalid or missing API token. Use /token to set one."@[i]);
    }
    assert(lowercase(f) == l);
    assert forall|i: int| 0 <= i < l.len() implies l[i] != '4' && l[i] != '_' && l[i] != 'c' && l[i] != 'q' && l[i] != 'w' && l[i] != 'y' by {
        assert(l[i] == ascii_lower(f[i]));
        assert(f[i] == "Invalid or missing API token. Use /token to set one."@[i]);
    }
    assert forall|i: int| #![trigger l[i]] 0 <= i < l.len() - 1 implies !(l[i] == 'r' && l[i + 1] == 'a') && !(l[i] == 't' && l[i + 1] == 'i') by {
        assert(l[i] == ascii_lower(f[i]));
        assert(l[i + 1] == ascii_lower(f[i + 1]));
        assert(f[i] == "Invalid or missing API token. Use /token to set one."@[i]);
        assert(f[i + 1] == "Invalid or missing API token. Use /token to set one."@[i + 1]);
    }
    assert forall|x: int| 0 <= x < RATE_LIMIT_MARKS@.len() implies !contains(l, (#[trigger] RATE_LIMIT_MARKS@[x])@) by {
        if x == 0 {
            lemma_lacks(l, "429"@, 0);
        } else if x == 1 {
            lemma_lacks(l, "resource_exhausted"@, 6);
        } else if x == 2 {
            lemma_lacks(l, "quota exceeded"@, 0);
        } else if x == 3 {
            lemma_lacks(l, "quota limit"@, 0);
        } else if x == 4 {
            lemma_lacks_pair(l, "rate limit"@, 0);
        } else if x == 5 {
            lemma_lacks(l, "rate_limit"@, 4);
        } else if x == 6 {
            lemma_lacks(l, "too many requests"@, 7);
        }
    }
    lemma_lacks(l, "network"@, 3);
    lemma_lacks(l, "connection"@, 0);
    lemma_lacks_pair(l, "timeout"@, 0);
    lemma_lacks(l, "empty"@, 4);
    is_ascii_chars_encode_utf8(f);
    lemma_blen_encode(f);
}

/// `API rate limit reached. Try again shortly.` is sanitized to itself.
proof fn lemma_rate_reply_settles()
    requires
        is_ascii_chars("API rate limit reached. Try again shortly."@) ==> lowercase("API rate limit reached. Try again shortly."@) == ascii_lowercase("API rate limit reached. Try again shortly."@),
    ensures
        sanitized("API rate limit reached. Try again shortly."@) == "API rate limit reached. Try again shortly."@,
{
    reveal_strlit("API rate limit reached. Try again shortly.");
    reveal_strlit("401");
    reveal_strlit("403");
    reveal_strlit("429");
    reveal_strlit("api key");
    reveal_strlit("api_key_invalid");
    reveal_strlit("apikey");
    reveal_strlit("permission denied");
    reveal_strlit("quota exceeded");
    reveal_strlit("quota limit");
    reveal_strlit("rate limit");
    reveal_strlit("rate_limit");
    reveal_strlit("resource_exhausted");
    reveal_strlit("too many requests");
    let f = "API rate limit reached. Try again shortly."@;
    let l = ascii_lowercase(f);
    assert forall|i: int| 0 <= i < f.len() implies '\0' <= #[trigger] f[i] <= '\u{7f}' by {
        assert(f[i] == "API rate limit reached. Try again shortly."@[i]);
    }
    assert(lowercase(f) == l);
    assert forall|i: int| 0 <= i < l.len() implies l[i] != '4' && l[i] != '_' && l[i] != 'k' && l[i] != 'q' && l[i] != 'u' by {
        assert(l[i] == ascii_lower(f[i]));
        assert(f[i] == "API rate limit reached. Try again shortly."@[i]);
    }
    assert forall|i: int| #![trigger l[i]] 0 <= i < l.len() - 1 implies !(l[i] == 'p' && l[i + 1] == 'e') by {
        assert(l[i] == ascii_lower(f[i]));
        assert(l[i + 1] == ascii_lower(f[i + 1]));
        assert(f[i] == "API rate limit reached. Try again shortly."@[i]);
        assert(f[i + 1] == "API rate limit reached. Try again shortly."@[i + 1]);
    }
    assert forall|x: int| 0 <= x < AUTH_ERROR_MARKS@.len() implies !contains(l, (#[trigger] AUTH_ERROR_MARKS@[x])@) by {
        if x == 0 {
            lemma_lacks(l, "api key"@, 4);
        } else if x == 1 {
            lemma_lacks(l, "apikey"@, 3);
        } else if x == 2 {
            lemma_lacks(l, "api_key_invalid"@, 3);
        } else if x == 3 {
            lemma_lacks_pair(l, "permission denied"@, 0);
        } else if x == 4 {
            lemma_lacks(l, "401"@, 0);
        } else if x == 5 {
            lemma_lacks(l, "403"@, 0);
        }
    }
    assert forall|j: int| 0 <= j < 10 implies l[4 + j] == "rate limit"@[j] by {
        assert(l[4 + j] == ascii_lower(f[4 + j]));
        assert(f[4 + j] == "API rate limit reached. Try again shortly."@[4 + j]);
    }
    assert(l.subrange(4, 14) =~= "rate limit"@);
    assert(occurs_at(l, "rate limit"@, 4));
    assert(contains(l, RATE_LIMIT_MARKS@[4]@));
}

/// `Connection failed. Check your network.` is sanitized to itself.
proof fn lemma_connection_reply_settles()
    requires
        is_ascii_chars("Connection failed. Check your network."@) ==> lowercase("Connection failed. Check your network."@) == ascii_lowercase("Connection failed. Check your network."@),
    ensures
        sanitized("Connection failed. Check your network."@) == "Connection failed. Check your network."@,
{
    reveal_strlit("Connection failed. Check your network.");
    reveal_strlit("401");
    reveal_strlit("403");
    reveal_strlit("429");
    reveal_strlit("api key");
    reveal_strlit("api_key_invalid");
    reveal_strlit("apikey");
    reveal_strlit("connection");
    reveal_strlit("network");
    reveal_strlit("permission denied");
    reveal_strlit("quota exceeded");
    reveal_strlit("quota limit");
    reveal_strlit("rate limit");
    reveal_strlit("rate_limit");
    reveal_strlit("resource_exhausted");
    reveal_strlit("timeout");
    reveal_strlit("too many requests");
    let f = "Connection failed. Check your network."@;
    let l = ascii_lowercase(f);
    assert forall|i: int| 0 <= i < f.len() implies '\0' <= #[trigger] f[i] <= '\u{7f}' by {
        assert(f[i] == "Connection failed. Check your network."@[i]);
    }
    assert(lowercase(f) == l);
    assert forall|i: int| 0 <= i < l.len() implies l[i] != '4' && l[i] != '_' && l[i] != 'm' && l[i] != 'p' && l[i] != 'q' && l[i] != 's' by {
        assert(l[i] == ascii_lower(f[i]));
        assert(f[i] == "Connection failed. Check your network."@[i]);
    }
    assert forall|x: int| 0 <= x < AUTH_ERROR_MARKS@.len() implies !contains(l, (#[trigger] AUTH_ERROR_MARKS@[x])@) by {
        if x == 0 {
            lemma_lacks(l, "api key"@, 1);
        } else if x == 1 {
            lemma_lacks(l, "apikey"@, 1);
        } else if x == 2 {
            lemma_lacks(l, "api_key_invalid"@, 1);
        } else if x == 3 {
            lemma_lacks(l, "permission denied"@, 0);
        } else if x == 4 {
            lemma_lacks(l, "401"@, 0);
        } else if x == 5 {
            lemma_lacks(l, "403"@, 0);
        }
    }
    assert forall|x: int| 0 <= x < RATE_LIMIT_MARKS@.len() implies !contains(l, (#[trigger] RATE_LIMIT_MARKS@[x])@) by {
        if x == 0 {
            lemma_lacks(l, "429"@, 0);
        } else if x == 1 {
            lemma_lacks(l, "resource_exhausted"@, 2);
        } else if x == 2 {
            lemma_lacks(l, "quota exceeded"@, 0);
        } else if x == 3 {
            lemma_lacks(l, "quota limit"@, 0);
        } else if x == 4 {
            lemma_lacks(l, "rate limit"@, 7);
        } else if x == 5 {
            lemma_lacks(l, "rate_limit"@, 4);
        } else if x == 6 {
            lemma_lacks(l, "too many requests"@, 4);
        }
    }
    assert forall|j: int| 0 <= j < 10 implies l[0 + j] == "connection"@[j] by {
        assert(l[0 + j] == ascii_lower(f[0 + j]));
        assert(f[0 + j] == "Connection failed. Check your network."@[0 + j]);
    }
    assert(l.subrange(0, 10) =~= "connection"@);
    assert(occurs_at(l, "connection"@, 0));
}

/// `No response received. Try again.` is sanitized to itself.
proof fn lemma_empty_reply_settles()
    requires
        is_ascii_chars("No response received. Try again."@) ==> lowercase("No response received. Try again."@) == ascii_lowercase("No response received. Try again."@),
    ensures
        sanitized("No response received. Try again."@) == "No response received. Try again."@,
{
    reveal_strlit("No response received. Try again.");
    reveal_strlit("401");
    reveal_strlit("403");
    reveal_strlit("429");
    reveal_strlit("api key");
    reveal_strlit("api_key_invalid");
    reveal_strlit("apikey");
    reveal_strlit("connection");
    reveal_strlit("empty");
    reveal_strlit("network");
    reveal_strlit("permission denied");
    reveal_strlit("quota exceeded");
    reveal_strlit("quota limit");
    reveal_strlit("rate limit");
    reveal_strlit("rate_limit");
    reveal_strlit("resource_exhausted");
    reveal_strlit("timeout");
    reveal_strlit("too many requests");
    let f = "No response received. Try again."@;
    let l = ascii_lowercase(f);
    assert forall|i: int| 0 <= i < f.len() implies '\0' <= #[trigger] f[i] <= '\u{7f}' by {
        assert(f[i] == "No response received. Try again."@[i]);
    }
    assert(lowercase(f) == l);
    assert forall|i: int| 0 <= i < l.len() implies l[i] != '4' && l[i] != '_' && l[i] != 'k' && l[i] != 'l' && l[i] != 'm' && l[i] != 'q' && l[i] != 'u' && l[i] != 'w' by {
        assert(l[i] == ascii_lower(f[i]));
        assert(f[i] == "No response received. Try again."@[i]);
    }
    assert forall|i: int| #![trigger l[i]] 0 <= i < l.len() - 1 implies !(l[i] == 'c' && l[i + 1] == 'o') by {
        assert(l[i] == ascii_lower(f[i]));
        assert(l[i + 1] == ascii_lower(f[i + 1]));
        assert(f[i] == "No response received. Try again."@[i]);
        assert(f[i + 1] == "No response received. Try again."@[i + 1]);
    }
    assert forall|x: int| 0 <= x < AUTH_ERROR_MARKS@.len() implies !contains(l, (#[trigger] AUTH_ERROR_MARKS@[x])@) by {
        if x == 0 {
            lemma_lacks(l, "api key"@, 4);
        } else if x == 1 {
            lemma_lacks(l, "apikey"@, 3);
        } else if x == 2 {
            lemma_lacks(l, "api_key_invalid"@, 3);
        } else if x == 3 {
            lemma_lacks(l, "permission denied"@, 3);
        } else if x == 4 {
            lemma_lacks(l, "401"@, 0);
        } else if x == 5 {
            lemma_lacks(l, "403"@, 0);
        }
    }
    assert forall|x: int| 0 <= x < RATE_LIMIT_MARKS@.len() implies !contains(l, (#[trigger] RATE_LIMIT_MARKS@[x])@) by {
        if x == 0 {
            lemma_lacks(l, "429"@, 0);
        } else if x == 1 {
            lemma_lacks(l, "resource_exhausted"@, 4);
        } else if x == 2 {
            lemma_lacks(l, "quota exceeded"@, 0);
        } else if x == 3 {
            lemma_lacks(l, "quota limit"@, 0);
        } else if x == 4 {
            lemma_lacks(l, "rate limit"@, 5);
        } else if x == 5 {
            lemma_lacks(l, "rate_limit"@, 4);
        } else if x == 6 {
            lemma_lacks(l, "too many requests"@, 4);
        }
    }
    lemma_lacks(l, "network"@, 3);
    lemma_lacks_pair(l, "connection"@, 0);
    lemma_lacks(l, "timeout"@, 2);
    lemma_lacks(l, "empty"@, 1);
    is_ascii_chars_encode_utf8(f);
    lemma_blen_encode(f);
}

/// `Something went wrong. Check /settings.` is sanitized to itself.
proof fn lemma_vague_reply_settles()
    requires
        is_ascii_chars("Something went wrong. Check /settings."@) ==> lowercase("Something went wrong. Check /settings."@) == ascii_lowercase("Something went wrong. Check /settings."@),
    ensures
        sanitized("Something went wrong. Check /settings."@) == "Something went wrong. Check /settings."@,
{
    reveal_strlit("Something went wrong. Check /settings.");
    reveal_strlit("401");
    reveal_strlit("403");
    reveal_strlit("429");
    reveal_strlit("api key");
    reveal_strlit("api_key_invalid");
    reveal_strlit("apikey");
    reveal_strlit("connection");
    reveal_strlit("empty");
    reveal_strlit("network");
    reveal_strlit("permission denied");
    reveal_strlit("quota exceeded");
    reveal_strlit("quota limit");
    reveal_strlit("rate limit");
    reveal_strlit("rate_limit");
    reveal_strlit("resource_exhausted");
    reveal_strlit("timeout");
    reveal_strlit("too many requests");
    let f = "Something went wrong. Check /settings."@;
    let l = ascii_lowercase(f);
    assert forall|i: int| 0 <= i < f.len() implies '\0' <= #[trigger] f[i] <= '\u{7f}' by {
        assert(f[i] == "Something went wrong. Check /settings."@[i]);
    }
    assert(lowercase(f) == l);
    assert forall|i: int| 0 <= i < l.len() implies l[i] != '4' && l[i] != 'a' && l[i] != 'p' && l[i] != 'q' && l[i] != 'u' by {
        assert(l[i] == ascii_lower(f[i]));
        assert(f[i] == "Something went wrong. Check /settings."@[i]);
    }
    assert forall|i: int| #![trigger l[i]] 0 <= i < l.len() - 1 implies !(l[i] == 'c' && l[i + 1] == 'o') && !(l[i] == 'n' && l[i + 1] == 'e') by {
        assert(l[i] == ascii_lower(f[i]));
        assert(l[i + 1] == ascii_lower(f[i + 1]));
        assert(f[i] == "Something went wrong. Check /settings."@[i]);
        assert(f[i + 1] == "Something went wrong. Check /settings."@[i + 1]);
    }
    assert forall|x: int| 0 <= x < AUTH_ERROR_MARKS@.len() implies !contains(l, (#[trigger] AUTH_ERROR_MARKS@[x])@) by {
        if x == 0 {
            lemma_lacks(l, "api key"@, 0);
        } else if x == 1 {
            lemma_lacks(l, "apikey"@, 0);
        } else if x == 2 {
            lemma_lacks(l, "api_key_invalid"@, 0);
        } else if x == 3 {
            lemma_lacks(l, "permission denied"@, 0);
        } else if x == 4 {
            lemma_lacks(l, "401"@, 0);
        } else if x == 5 {
            lemma_lacks(l, "403"@, 0);
        }
    }
    assert forall|x: int| 0 <= x < RATE_LIMIT_MARKS@.len() implies !contains(l, (#[trigger] RATE_LIMIT_MARKS@[x])@) by {
        if x == 0 {
            lemma_lacks(l, "429"@, 0);
        } else if x == 1 {
            lemma_lacks(l, "resource_exhausted"@, 4);
        } else if x == 2 {
            lemma_lacks(l, "quota exceeded"@, 0);
        } else if x == 3 {
            lemma_lacks(l, "quota limit"@, 0);
        } else if x == 4 {
            lemma_lacks(l, "rate limit"@, 1);
        } else if x == 5 {
            lemma_lacks(l, "rate_limit"@, 1);
        } else if x == 6 {
            lemma_lacks(l, "too many requests"@, 5);
        }
    }
    lemma_lacks_pair(l, "network"@, 0);
    lemma_lacks_pair(l, "connection"@, 0);
    lemma_lacks(l, "timeout"@, 5);
    lemma_lacks(l, "empty"@, 2);
    is_ascii_chars_encode_utf8(f);
    lemma_blen_encode(f);
}


/// Sanitizing an error message a second time changes nothing. Stated where
/// lowercasing the sanitized message, if it is ASCII, lowercases its ASCII
/// letters only, as `sanitize_error` states of every ASCII message it is given.
pub proof fn law_sanitize_settles(msg: Seq<char>)
    requires
        is_ascii_chars(sanitized(msg)) ==> lowercase(sanitized(msg)) == ascii_lowercase(
            sanitized(msg),
        ),
    ensures
        sanitized(sanitized(msg)) == sanitized(msg),
{
    let r = sanitized(msg);
    if r == auth_reply() {
        lemma_auth_reply_settles();
    } else if r == "API rate limit reached. Try again shortly."@ {
        lemma_rate_reply_settles();
    } else if r == "Connection failed. Check your network."@ {
        lemma_connection_reply_settles();
    } else if r == "No response received. Try again."@ {
        lemma_empty_reply_settles();
    } else if r == "Something went wrong. Check /settings."@ {
        lemma_vague_reply_settles();
    }
}

// ---------------------------------------------------------------------------
// Conversation
// ---------------------------------------------------------------------------

/// Going back to a mark forgets exactly what was added after it.
pub proof fn law_rewind_forgets_turn(
    before: Seq<(Seq<char>, Seq<PartView>)>,
    added: Seq<(Seq<char>, Seq<PartView>)>,
)
    ensures
        (before + added).take(before.len() as int) == before,
{
    assert((before + added).take(before.len() as int) =~= before);
}

// ---------------------------------------------------------------------------
// Transcript
// ---------------------------------------------------------------------------

/// Every anchor of the entries from `i` on points at the line where its
/// question's card opens.
pub proof fn lemma_anchors_open_questions(es: Seq<ChatEntry>, i: int, base: nat, sp: nat)
    requires
        0 <= i,
    ensures
        forall|k: int|
            0 <= k < entries_from(es, i, base, sp).1.len() ==> {
                let a = #[trigger] entries_from(es, i, base, sp).1[k];
                &&& base <= a.0 < base + entries_from(es, i, base, sp).0.len()
                &&& entries_from(es, i, base, sp).0[a.0 - base] == LineView::CardOpen(
                    "YOU"@,
                    Accent::User,
                )
            },
    decreases es.len() - i,
{
    if i < es.len() {
        let r = entries_from(es, i, base, sp);
        match es[i] {
            ChatEntry::User { content } => {
                let t = turn_rest(es, i + 1, sp);
                lemma_turn_rest_advances(es, i + 1, sp);
                let lines = seq![LineView::CardOpen("YOU"@, Accent::User)] + card_text(
                    content@,
                    BodyStyle::Question,
                ) + t.0 + (if t.2 {
                    seq![]
                } else {
                    seq![LineView::CardClose]
                }) + seq![LineView::Blank];
                let nb = base + lines.len();
                lemma_anchors_open_questions(es, t.1, nb, sp);
                let rest = entries_from(es, t.1, nb, sp);
                assert(r.0 == lines + rest.0);
                assert(lines[0] == LineView::CardOpen("YOU"@, Accent::User));
                assert forall|k: int| 0 <= k < r.1.len() implies {
                    let a = #[trigger] r.1[k];
                    &&& base <= a.0 < base + r.0.len()
                    &&& r.0[a.0 - base] == LineView::CardOpen("YOU"@, Accent::User)
                } by {
                    if anchored(content@) {
                        if k > 0 {
                            assert(r.1[k] == rest.1[k - 1]);
                        }
                    } else {
                        assert(r.1[k] == rest.1[k]);
                    }
                }
            },
            _ => {
                let lines = standalone_lines(es[i], sp);
                let nb = base + lines.len();
                lemma_anchors_open_questions(es, i + 1, nb, sp);
                let rest = entries_from(es, i + 1, nb, sp);
                assert forall|k: int| 0 <= k < r.1.len() implies {
                    let a = #[trigger] r.1[k];
                    &&& base <= a.0 < base + r.0.len()
                    &&& r.0[a.0 - base] == LineView::CardOpen("YOU"@, Accent::User)
                } by {
                    assert(r.1[k] == rest.1[k]);
                }
            },
        }
    }
}

/// Every anchor of the history sidebar points at the line of the transcript
/// where its question's card opens, so jumping to it shows the question.
pub proof fn law_anchors_open_questions(state: AppState)
    ensures
        forall|k: int|
            0 <= k < transcript(state).1.len() ==> {
                let a = #[trigger] transcript(state).1[k];
                &&& a.0 < transcript(state).0.len()
                &&& transcript(state).0[a.0 as int] == LineView::CardOpen("YOU"@, Accent::User)
            },
{
    let es = state.entries@;
    let welcome = if es.len() == 0 && !state.is_thinking && !state.awaiting_approval {
        welcome_lines(state.mode, state.has_token)
    } else {
        seq![]
    };
    let sp = state.spinner_frame as nat;
    lemma_anchors_open_questions(es, 0, welcome.len(), sp);
    let body = entries_from(es, 0, welcome.len(), sp);
    let t = transcript(state);
    assert forall|k: int| 0 <= k < t.1.len() implies {
        let a = #[trigger] t.1[k];
        &&& a.0 < t.0.len()
        &&& t.0[a.0 as int] == LineView::CardOpen("YOU"@, Accent::User)
    } by {
        let a = t.1[k];
        assert(a == body.1[k]);
        assert(welcome.len() <= a.0 < welcome.len() + body.0.len());
        assert(t.0[a.0 as int] == body.0[a.0 - welcome.len()]);
    }
}

// ---------------------------------------------------------------------------
// Search
// ---------------------------------------------------------------------------

/// `path` is the path of an entry of `es` whose name the glob of `pattern`
/// matches.
pub open spec fn from_matching_entry(pattern: Seq<char>, es: Seq<WalkEntry>, path: Seq<char>) -> bool {
    exists|j: int| 0 <= j < es.len() && (#[trigger] es[j]).path@ == path && glob_matches(pattern, es[j].name@)
}

/// A search reports at most `MAX_RESULTS` paths, each that of an entry whose
/// name the glob matches.
pub proof fn law_search_reports_matches(pattern: Seq<char>, es: Seq<WalkEntry>)
    ensures
        capped(matching_paths(pattern, es)).len() <= MAX_RESULTS,
        forall|k: int|
            0 <= k < capped(matching_paths(pattern, es)).len() ==> from_matching_entry(
                pattern,
                es,
                #[trigger] capped(matching_paths(pattern, es))[k],
            ),
{
    lemma_matching_paths_from_entries(pattern, es);
    let m = matching_paths(pattern, es);
    assert forall|k: int| 0 <= k < capped(m).len() implies from_matching_entry(
        pattern,
        es,
        #[trigger] capped(m)[k],
    ) by {
        assert(capped(m)[k] == m[k]);
    }
}

/// Each matching path is that of a matching entry.
proof fn lemma_matching_paths_from_entries(pattern: Seq<char>, es: Seq<WalkEntry>)
    ensures
        forall|k: int|
            0 <= k < matching_paths(pattern, es).len() ==> from_matching_entry(
                pattern,
                es,
                #[trigger] matching_paths(pattern, es)[k],
            ),
    decreases es.len(),
{
    if es.len() > 0 {
        let init = es.drop_last();
        lemma_matching_paths_from_entries(pattern, init);
        let rest = matching_paths(pattern, init);
        let m = matching_paths(pattern, es);
        assert forall|k: int| 0 <= k < m.len() implies from_matching_entry(
            pattern,
            es,
            #[trigger] m[k],
        ) by {
            if k < rest.len() {
                assert(m[k] == rest[k]);
                assert(from_matching_entry(pattern, init, rest[k]));
                let j = choose|j: int|
                    0 <= j < init.len() && (#[trigger] init[j]).path@ == rest[k] && glob_matches(
                        pattern,
                        init[j].name@,
                    );
                assert(es[j] == init[j]);
            } else {
                let j = es.len() - 1;
                assert(glob_matches(pattern, es[j].name@));
                assert(es[j].path@ == m[k]);
            }
        }
    }
}

/// The lines that a grep takes from one file never outnumber the room left.
proof fn lemma_grep_from_fits(
    path: Seq<char>,
    lines: Seq<Seq<char>>,
    i: int,
    needle: Seq<char>,
    ignore_case: bool,
    room: int,
)
    requires
        room >= 1,
    ensures
        grep_from(path, lines, i, needle, ignore_case, room).len() <= room,
    decreases lines.len() - i,
{
    if 0 <= i < lines.len() {
        if room - 1 > 0 {
            lemma_grep_from_fits(path, lines, i + 1, needle, ignore_case, room - 1);
        }
        lemma_grep_from_fits(path, lines, i + 1, needle, ignore_case, room);
    }
}

/// Grepping a file into a list of fewer than `MAX_MATCHES` matches leaves at
/// most `MAX_MATCHES` in it, and keeps the matches already there first.
pub proof fn law_grep_stays_capped(
    before: Seq<Seq<char>>,
    path: Seq<char>,
    lines: Seq<Seq<char>>,
    needle: Seq<char>,
    ignore_case: bool,
)
    requires
        before.len() < MAX_MATCHES,
    ensures
        ({
            let after = before + grep_from(
                path,
                lines,
                0,
                needle,
                ignore_case,
                MAX_MATCHES - before.len(),
            );
            &&& after.len() <= MAX_MATCHES
            &&& after.take(before.len() as int) == before
        }),
{
    lemma_grep_from_fits(path, lines, 0, needle, ignore_case, MAX_MATCHES - before.len());
    let after = before + grep_from(path, lines, 0, needle, ignore_case, MAX_MATCHES - before.len());
    assert(after.take(before.len() as int) =~= before);
}

// ---------------------------------------------------------------------------
// Scrolling
// ---------------------------------------------------------------------------

/// A smooth-scroll step moves toward its target by one to five lines and
/// never past it, so a smooth scroll reaches its target.
pub proof fn law_smooth_step_approaches(scroll: int, target: int)
    requires
        scroll != target,
    ensures
        min2(scroll, target) <= smooth_step(scroll, target) <= max2(scroll, target),
        smooth_step(scroll, target) != scroll,
        1 <= (if target > scroll { smooth_step(scroll, target) - scroll } else { scroll - smooth_step(scroll, target) }) <= 5,
{
}

// ---------------------------------------------------------------------------
// Picking in lists
// ---------------------------------------------------------------------------

/// Moving the pick down and then up again (in the palette or the history
/// sidebar) comes back to the same item, and so does up then down.
pub proof fn law_pick_down_up_returns(pick: int, n: int)
    requires
        0 <= pick < n,
    ensures
        pick_up(pick_down(pick, n), n) == pick,
        pick_down(pick_up(pick, n), n) == pick,
{
    assert((pick + 1) % n == (if pick + 1 < n { pick + 1 } else { 0 })) by (nonlinear_arith)
        requires
            0 <= pick < n,
    ;
    let up = if pick == 0 { n - 1 } else { pick - 1 };
    assert((up + 1) % n == (if up + 1 < n { up + 1 } else { 0 })) by (nonlinear_arith)
        requires
            0 <= up < n,
    ;
}

// ---------------------------------------------------------------------------
// Shell approval and keys
// ---------------------------------------------------------------------------

/// In base mode a shell command asks exactly when it is non-empty and
/// harmful, and the prompt shows the command.
pub proof fn law_shell_asks_iff_harmful(args: ToolArgs)
    ensures
        approval_needed(AgentMode::Base, "run_shell"@, args) == (if str_arg(args, "command"@).len() > 0
            && harmful_shell(str_arg(args, "command"@)) {
            Some("shell: "@ + str_arg(args, "command"@))
        } else {
            None
        }),
{
}

/// In base mode the commands the docs name as harmful ask first: one that
/// deletes recursively (`rm -rf`), one run with `sudo`, and a shutdown (in
/// any case of letters).
pub proof fn law_named_harmful_commands_ask(args: ToolArgs)
    requires
        str_arg(args, "command"@).len() > 0,
        ({
            let l = lowercase(str_arg(args, "command"@));
            ||| contains(l, "rm -rf"@)
            ||| starts_with(l, "sudo"@)
            ||| contains(l, "shutdown"@)
        }),
    ensures
        approval_needed(AgentMode::Base, "run_shell"@, args) == Some(
            "shell: "@ + str_arg(args, "command"@),
        ),
{
    let cmd = str_arg(args, "command"@);
    let l = lowercase(cmd);
    reveal_strlit("rm -rf");
    reveal_strlit("shutdown");
    reveal_strlit("sudo");
    assert(SHELL_PATTERNS@[0] == "rm -rf");
    assert(SHELL_PATTERNS@[19] == "shutdown");
    if contains(l, "rm -rf"@) {
        assert(contains(l, SHELL_PATTERNS@[0]@));
    } else if contains(l, "shutdown"@) {
        assert(contains(l, SHELL_PATTERNS@[19]@));
    }
    assert(harmful_shell(cmd));
}

/// In the main view, idle, with typing possible and the sidebar closed,
/// Enter sends the input, and Enter with Shift, Ctrl or Alt starts a new line
/// in it instead.
pub proof fn law_enter_sends_or_breaks_line(s: AppState, k: KeyPress)
    requires
        s.overlay is Inactive,
        !s.awaiting_approval,
        !s.is_thinking,
        !s.sidebar_open,
        k.code is Enter,
    ensures
        key_case(s, k) == (if k.shift || k.ctrl || k.alt {
            KeyCase::Newline
        } else {
            KeyCase::Submit
        }),
{
}

// ---------------------------------------------------------------------------
// Optional arguments of tool calls
// ---------------------------------------------------------------------------

/// The boolean a call gives for `key`, or `default` when it gives none.
pub open spec fn given_flag(args: ToolArgs, key: Seq<char>, default: bool) -> bool {
    match lookup(args.entries@, key) {
        Some(ArgValue::Bool(b)) => b,
        _ => default,
    }
}

/// The optional arguments of a call keep the defaults the tools are declared
/// with: an edit replaces only the first occurrence unless the call says
/// `replace_all`, grep matches case exactly unless the call says
/// `ignore_case`, and a search walks eight levels deep unless the call gives
/// `max_depth`.
pub proof fn law_optional_arguments_default(args: ToolArgs)
    ensures
        tool_plan("edit_file"@, args) matches PlanView::Call(c) && c.kind == 6 && c.flag
            == given_flag(args, "replace_all"@, false),
        tool_plan("grep"@, args) matches PlanView::Call(c) && c.kind == 5 && c.flag == given_flag(
            args,
            "ignore_case"@,
            false,
        ),
        tool_plan("search_files"@, args) matches PlanView::Call(c) && c.kind == 4 && c.number == ((
        match lookup(args.entries@, "max_depth"@) {
            Some(ArgValue::UInt(n)) => n,
            _ => 8u64,
        }) as usize) as nat,
{
    reveal_strlit("run_shell");
    reveal_strlit("read_file");
    reveal_strlit("write_file");
    reveal_strlit("list_dir");
    reveal_strlit("search_files");
    reveal_strlit("grep");
    reveal_strlit("edit_file");
    assert("edit_file"@[0] != "run_shell"@[0] && "edit_file"@[0] != "read_file"@[0]);
    assert("edit_file"@[0] != "write_file"@[0] && "edit_file"@[0] != "list_dir"@[0]
        && "edit_file"@[0] != "search_files"@[0] && "edit_file"@[0] != "grep"@[0]);
    assert("grep"@[0] != "run_shell"@[0] && "grep"@[0] != "read_file"@[0] && "grep"@[0]
        != "write_file"@[0] && "grep"@[0] != "list_dir"@[0] && "grep"@[0] != "search_files"@[0]);
    assert("search_files"@[0] != "run_shell"@[0] && "search_files"@[0] != "read_file"@[0]
        && "search_files"@[0] != "write_file"@[0] && "search_files"@[0] != "list_dir"@[0]);
}

// ---------------------------------------------------------------------------
// Switching modes by command
// ---------------------------------------------------------------------------

/// The mode names, in any case of letters: `base` and `safe` select base
/// mode, `god` and `unrestricted` god mode.
pub proof fn law_mode_names(s: Seq<char>)
    ensures
        lowercase(s) == "base"@ || lowercase(s) == "safe"@ ==> parse_mode(s) == Some(AgentMode::Base),
        lowercase(s) == "god"@ || lowercase(s) == "unrestricted"@ ==> parse_mode(s) == Some(
            AgentMode::God,
        ),
{
    reveal_strlit("base");
    reveal_strlit("safe");
    reveal_strlit("god");
    reveal_strlit("unrestricted");
    assert("god"@[0] != "base"@[0] && "god"@[0] != "safe"@[0]);
    assert("unrestricted"@[0] != "base"@[0] && "unrestricted"@[0] != "safe"@[0]);
}

/// `/mode` followed by a mode name switches to that mode: the new mode is
/// stored under its label and asked to be saved, with a confirmation naming
/// it. Stated where lowercasing `/mode` gives `/mode`, as `commands::handle`
/// states of every ASCII command word.
pub proof fn law_mode_command_switches(a: Seq<char>, stored: Seq<char>, m: AgentMode)
    requires
        a.len() > 0,
        !is_ws(a[0]),
        !is_ws(a.last()),
        parse_mode(a) == Some(m),
        lowercase("/mode"@) == "/mode"@,
    ensures
        command_outcome("/mode "@ + a, stored) == CommandOutcome::Persist(
            "Mode set to "@ + mode_label(m) + " — "@ + mode_description(m),
            "Failed to save mode"@,
        ),
        command_mode("/mode "@ + a, stored) == mode_label(m),
{
    reveal_strlit("/mode ");
    reveal_strlit("/mode");
    reveal_strlit("/");
    reveal_strlit("/help");
    reveal_strlit("/commands");
    reveal_strlit("/token");
    reveal_strlit("/apikey");
    reveal_strlit("/key");
    let line = "/mode "@ + a;
    assert(line[0] == '/');
    assert(!is_ws(line[0]));
    assert(trim_start(line) == line);
    assert(line.last() == a.last());
    assert(trim_end(line) == line);
    assert(trim(line) == line);
    assert(trim_start(a) == a);
    assert(trim_end(a) == a);
    assert(line.take(1) =~= "/"@);
    assert(starts_with(line, "/"@));
    lemma_find_char(line, ' ', 5);
    assert(line.take(5) =~= "/mode"@);
    assert(command_word(line) == "/mode"@);
    assert(line.skip(6) =~= a);
    assert(command_arg(line) == a);
    assert("/mode"@[1] != "/help"@[1]);
    assert("/mode"@ != "/commands"@ && "/mode"@ != "/token"@ && "/mode"@ != "/apikey"@
        && "/mode"@ != "/key"@) by {
        assert("/mode"@[1] != "/commands"@[1]);
        assert("/mode"@[1] != "/token"@[1]);
        assert("/mode"@[1] != "/apikey"@[1]);
        assert("/mode"@[1] != "/key"@[1]);
    }
}

// ---------------------------------------------------------------------------
// Answers in the transcript
// ---------------------------------------------------------------------------

/// A question answered right away is shown as one card: the question, then
/// under `AGENT` every line of the answer in order (as `str::lines` splits
/// it), then the card's end and a blank line, and after it the rest of the
/// conversation.
pub proof fn law_answer_shown_whole(es: Seq<ChatEntry>, i: int, base: nat, spinner: nat)
    requires
        0 <= i,
        i + 1 < es.len(),
        es[i] is User,
        es[i + 1] is Assistant,
        es[i + 1]->Assistant_content@.len() > 0,
    ensures
        ({
            let q = es[i]->User_content@;
            let a = es[i + 1]->Assistant_content@;
            let card = seq![LineView::CardOpen("YOU"@, Accent::User)] + card_text(q, BodyStyle::Question)
                + seq![LineView::CardBridge("AGENT"@, Accent::Mode)] + split_lines(a).map_values(
                |l: Seq<char>| LineView::Body(l, BodyStyle::Answer),
            ) + seq![LineView::CardClose, LineView::Blank];
            entries_from(es, i, base, spinner).0 == card + entries_from(
                es,
                i + 2,
                base + card.len(),
                spinner,
            ).0
        }),
{
    let q = es[i]->User_content@;
    let a = es[i + 1]->Assistant_content@;
    let r = turn_rest(es, i + 1, spinner);
    assert(r == (crate::ui::chat::answer_lines(a), i + 2, true));
    let lines = seq![LineView::CardOpen("YOU"@, Accent::User)] + card_text(q, BodyStyle::Question)
        + r.0 + seq![] + seq![LineView::Blank];
    let card = seq![LineView::CardOpen("YOU"@, Accent::User)] + card_text(q, BodyStyle::Question)
        + seq![LineView::CardBridge("AGENT"@, Accent::Mode)] + split_lines(a).map_values(
        |l: Seq<char>| LineView::Body(l, BodyStyle::Answer),
    ) + seq![LineView::CardClose, LineView::Blank];
    assert(lines =~= card);
}

} // verus!
