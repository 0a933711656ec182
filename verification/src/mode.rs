//! Agent modes and the approval policy of the base mode.

use vstd::prelude::*;
use crate::text::{
    ascii_lowercase, chars_of, concat2, concat3, concat4, contains, lemma_ascii_lowercase_of_lower,
    lowercase, starts_with, to_lowercase, trim, trim_chars, vec_contains_str, vec_eq_str,
    vec_starts_with_str,
};
use crate::tool_args::{str_arg, ToolArgs};

verus! {

broadcast use vstd::string::group_string_axioms;

/// How freely the agent may act.
#[derive(Clone, Copy, Debug, PartialEq, Eq, Structural)]
pub enum AgentMode {
    /// Harmful actions require the user's approval.
    Base,
    /// Nothing requires approval.
    God,
}

impl Default for AgentMode {
    fn default() -> (m: Self)
        ensures
            m == AgentMode::Base,
    {
        AgentMode::Base
    }
}

/// The mode a (case-insensitive) name denotes.
pub open spec fn parse_mode(s: Seq<char>) -> Option<AgentMode> {
    mode_by_lowercase(lowercase(s))
}

/// The mode an already lowercased name denotes.
pub open spec fn mode_by_lowercase(l: Seq<char>) -> Option<AgentMode> {
    if l == "base"@ || l == "safe"@ {
        Some(AgentMode::Base)
    } else if l == "god"@ || l == "unrestricted"@ {
        Some(AgentMode::God)
    } else {
        None
    }
}

/// The short name of a mode.
pub open spec fn mode_label(m: AgentMode) -> Seq<char> {
    match m {
        AgentMode::Base => "base"@,
        AgentMode::God => "god"@,
    }
}

/// The one-line description of a mode.
pub open spec fn mode_description(m: AgentMode) -> Seq<char> {
    match m {
        AgentMode::Base => "harmful actions need your approval"@,
        AgentMode::God => "fully unrestricted"@,
    }
}

impl AgentMode {
    /// Parses `base`/`safe` and `god`/`unrestricted`, in any case.
    pub fn from_str(s: &str) -> (r: Option<Self>)
        ensures
            r == parse_mode(s@),
            vstd::utf8::is_ascii_chars(s@) ==> r == mode_by_lowercase(ascii_lowercase(s@)),
    {
        let l = to_lowercase(s);
        let lv = chars_of(l.as_str());
        if vec_eq_str(&lv, "base") || vec_eq_str(&lv, "safe") {
            Some(AgentMode::Base)
        } else if vec_eq_str(&lv, "god") || vec_eq_str(&lv, "unrestricted") {
            Some(AgentMode::God)
        } else {
            None
        }
    }

    /// `"base"` or `"god"`.
    pub fn label(self) -> (r: &'static str)
        ensures
            r@ == mode_label(self),
    {
        match self {
            AgentMode::Base => "base",
            AgentMode::God => "god",
        }
    }

    /// What the mode means for the user.
    pub fn description(self) -> (r: &'static str)
        ensures
            r@ == mode_description(self),
    {
        match self {
            AgentMode::Base => "harmful actions need your approval",
            AgentMode::God => "fully unrestricted",
        }
    }
}

/// Every mode's label is ASCII and parses back to that mode.
pub proof fn lemma_mode_label_roundtrip(m: AgentMode)
    ensures
        vstd::utf8::is_ascii_chars(mode_label(m)),
        mode_by_lowercase(ascii_lowercase(mode_label(m))) == Some(m),
{
    reveal_strlit("base");
    reveal_strlit("god");
    reveal_strlit("safe");
    reveal_strlit("unrestricted");
    lemma_ascii_lowercase_of_lower(mode_label(m));
}

// ---------------------------------------------------------------------------
// Approval policy
// ---------------------------------------------------------------------------

/// Command fragments that mark a shell command as harmful (matched against the
/// lowercased command).
pub const SHELL_PATTERNS: [&'static str; 38] = [
    "rm -rf",
    "rm -fr",
    "rm -r /",
    "sudo rm",
    "dd if=",
    "mkfs.",
    "mkfs ",
    "> /dev/sd",
    "shred ",
    "chmod -r 777",
    "chmod 777 /",
    "chown -r",
    ":(){:|:&};:",
    "curl | sh",
    "curl | bash",
    "wget | sh",
    "wget | bash",
    "| sh",
    "| bash",
    "shutdown",
    "reboot",
    "poweroff",
    "init 0",
    "init 6",
    "systemctl stop",
    "systemctl disable",
    "kill -9 1",
    "killall",
    "pkill -9",
    "> /etc/",
    "tee /etc/",
    "mv / ",
    "cp /dev/zero",
    "fdisk ",
    "parted ",
    "cryptsetup ",
    "iptables -f",
    "nft flush",
];

/// Path fragments that mark a path as sensitive.
pub const SENSITIVE_PATHS: [&'static str; 18] = [
    "/etc/passwd",
    "/etc/shadow",
    "/etc/sudoers",
    "/boot",
    "/sys",
    "/proc",
    "/dev",
    "/usr/bin",
    "/usr/sbin",
    "/bin",
    "/sbin",
    "/lib",
    "/lib64",
    "/.ssh",
    "/.gnupg",
    "/.bashrc",
    "/.profile",
    "/.config/systemd",
];

/// Some fragment of `frags` occurs in `s`.
pub open spec fn contains_any(s: Seq<char>, frags: Seq<&str>) -> bool {
    exists|i: int| 0 <= i < frags.len() && contains(s, (#[trigger] frags[i])@)
}

/// A shell command that base mode treats as harmful.
pub open spec fn harmful_shell(cmd: Seq<char>) -> bool {
    let lower = lowercase(cmd);
    ||| contains_any(lower, SHELL_PATTERNS@)
    ||| contains(lower, "rm"@) && (contains(lower, " -r"@) || contains(lower, " -rf"@))
    ||| starts_with(lower, "sudo"@)
}

/// A path that touches system or credential locations.
pub open spec fn sensitive_path(path: Seq<char>) -> bool {
    let p = trim(path);
    ||| contains_any(p, SENSITIVE_PATHS@)
    ||| starts_with(p, "/etc/"@)
    ||| starts_with(p, "/boot/"@)
    ||| starts_with(p, "/dev/"@)
}

/// A path that base mode does not let the agent write without approval.
pub open spec fn harmful_write(path: Seq<char>) -> bool {
    sensitive_path(path) || contains(path, ".."@)
}

/// Approval for reading at `path`.
pub open spec fn access_approval(path: Seq<char>) -> Option<Seq<char>> {
    if path.len() == 0 {
        None
    } else if sensitive_path(path) {
        Some("access: "@ + path)
    } else {
        None
    }
}

/// Approval for writing at `path` with the action named `action`.
pub open spec fn write_approval(path: Seq<char>, action: Seq<char>) -> Option<Seq<char>> {
    if path.len() == 0 {
        None
    } else if harmful_write(path) {
        Some(action + ": "@ + path)
    } else {
        None
    }
}

/// The approval summary base mode asks for before moving `from` to `to`.
pub open spec fn move_approval(from: Seq<char>, to: Seq<char>) -> Option<Seq<char>> {
    if harmful_write(from) {
        Some("move from: "@ + from)
    } else if harmful_write(to) {
        Some("move to: "@ + to)
    } else if sensitive_path(from) || sensitive_path(to) {
        Some("move: "@ + from + " → "@ + to)
    } else {
        None
    }
}

/// The summary of the approval that a tool call needs, if it needs one.
pub open spec fn approval_needed(mode: AgentMode, tool: Seq<char>, args: ToolArgs) -> Option<
    Seq<char>,
> {
    if mode == AgentMode::God {
        None
    } else if tool == "run_shell"@ {
        let cmd = str_arg(args, "command"@);
        if cmd.len() == 0 {
            None
        } else if harmful_shell(cmd) {
            Some("shell: "@ + cmd)
        } else {
            None
        }
    } else if tool == "write_file"@ || tool == "edit_file"@ {
        write_approval(str_arg(args, "path"@), tool)
    } else if tool == "create_dir"@ {
        write_approval(str_arg(args, "path"@), "create_dir"@)
    } else if tool == "delete_file"@ {
        Some("delete: "@ + str_arg(args, "path"@))
    } else if tool == "move_file"@ {
        move_approval(str_arg(args, "from"@), str_arg(args, "to"@))
    } else if tool == "read_file"@ || tool == "list_dir"@ || tool == "grep"@ {
        access_approval(str_arg(args, "path"@))
    } else if tool == "search_files"@ {
        access_approval(str_arg(args, "root"@))
    } else if tool == "http_get"@ {
        Some("http: "@ + str_arg(args, "url"@))
    } else {
        None
    }
}

/// Whether some fragment of `frags` occurs in `s`.
fn vec_contains_any<const N: usize>(s: &Vec<char>, frags: &[&str; N]) -> (r: bool)
    ensures
        r == contains_any(s@, frags@),
{
    let mut i: usize = 0;
    while i < N
        invariant
            i <= N == frags@.len(),
            forall|k: int| 0 <= k < i ==> !contains(s@, (#[trigger] frags@[k])@),
        decreases N - i,
    {
        if vec_contains_str(s, frags[i]) {
            return true;
        }
        i += 1;
    }
    false
}

/// Whether base mode treats the shell command `cmd` as harmful.
pub fn is_harmful_shell(cmd: &str) -> (r: bool)
    ensures
        r == harmful_shell(cmd@),
        vstd::utf8::is_ascii_chars(cmd@) ==> lowercase(cmd@) == ascii_lowercase(cmd@),
{
    let lower_s = to_lowercase(cmd);
    let lower = chars_of(lower_s.as_str());
    vec_contains_any(&lower, &SHELL_PATTERNS) || (vec_contains_str(&lower, "rm") && (
    vec_contains_str(&lower, " -r") || vec_contains_str(&lower, " -rf")))
        || vec_starts_with_str(&lower, "sudo")
}

/// Whether `path` (trimmed) touches a sensitive location.
pub fn is_sensitive_path(path: &str) -> (r: bool)
    ensures
        r == sensitive_path(path@),
{
    let v = chars_of(path);
    let p = trim_chars(&v);
    vec_contains_any(&p, &SENSITIVE_PATHS) || vec_starts_with_str(&p, "/etc/")
        || vec_starts_with_str(&p, "/boot/") || vec_starts_with_str(&p, "/dev/")
}

/// Whether base mode asks before writing at `path`.
pub fn is_harmful_write(path: &str) -> (r: bool)
    ensures
        r == harmful_write(path@),
{
    let v = chars_of(path);
    is_sensitive_path(path) || vec_contains_str(&v, "..")
}

/// The approval needed to read at `path`.
pub fn approval_access(path: &str) -> (r: Option<String>)
    ensures
        r matches Some(s) ==> access_approval(path@) == Some(s@),
        r is None ==> access_approval(path@) is None,
{
    if path.is_empty() {
        return None;
    }
    if is_sensitive_path(path) {
        Some(concat2("access: ", path))
    } else {
        None
    }
}

/// The approval needed to perform `action` at `path`.
pub fn approval_write(path: &str, action: &str) -> (r: Option<String>)
    ensures
        r matches Some(s) ==> write_approval(path@, action@) == Some(s@),
        r is None ==> write_approval(path@, action@) is None,
{
    if path.is_empty() {
        return None;
    }
    if is_harmful_write(path) {
        Some(concat3(action, ": ", path))
    } else {
        None
    }
}

/// The approval summary for a tool call, or `None` when it may run at once.
pub fn needs_approval(mode: AgentMode, tool: &str, args: &ToolArgs) -> (r: Option<String>)
    ensures
        r matches Some(s) ==> approval_needed(mode, tool@, *args) == Some(s@),
        r is None ==> approval_needed(mode, tool@, *args) is None,
{
    if mode == AgentMode::God {
        return None;
    }
    let t = chars_of(tool);
    if vec_eq_str(&t, "run_shell") {
        let cmd = args.str_or_empty("command");
        if cmd.as_str().is_empty() {
            return None;
        }
        if is_harmful_shell(cmd.as_str()) {
            Some(concat2("shell: ", cmd.as_str()))
        } else {
            None
        }
    } else if vec_eq_str(&t, "write_file") || vec_eq_str(&t, "edit_file") {
        let path = args.str_or_empty("path");
        approval_write(path.as_str(), tool)
    } else if vec_eq_str(&t, "create_dir") {
        let path = args.str_or_empty("path");
        approval_write(path.as_str(), "create_dir")
    } else if vec_eq_str(&t, "delete_file") {
        let path = args.str_or_empty("path");
        Some(concat2("delete: ", path.as_str()))
    } else if vec_eq_str(&t, "move_file") {
        let from = args.str_or_empty("from");
        let to = args.str_or_empty("to");
        if is_harmful_write(from.as_str()) {
            return Some(concat2("move from: ", from.as_str()));
        }
        if is_harmful_write(to.as_str()) {
            return Some(concat2("move to: ", to.as_str()));
        }
        if is_sensitive_path(from.as_str()) || is_sensitive_path(to.as_str()) {
            return Some(concat4("move: ", from.as_str(), " → ", to.as_str()));
        }
        None
    } else if vec_eq_str(&t, "read_file") || vec_eq_str(&t, "list_dir") || vec_eq_str(
        &t,
        "grep",
    ) {
        let path = args.str_or_empty("path");
        approval_access(path.as_str())
    } else if vec_eq_str(&t, "search_files") {
        let root = args.str_or_empty("root");
        approval_access(root.as_str())
    } else if vec_eq_str(&t, "http_get") {
        let url = args.str_or_empty("url");
        Some(concat2("http: ", url.as_str()))
    } else {
        None
    }
}

} // verus!
