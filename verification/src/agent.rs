//! The decisions of an agent turn: what the model's reply asks for, which tool
//! runs with which arguments, what the user and the model are told afterwards.
//! The application performs the requests, the tools and the approval prompts.

use vstd::prelude::*;
use crate::errors::{error_text, AppError};
use crate::mode::{approval_needed, needs_approval, AgentMode};
use crate::settings::{sanitize_error, sanitized, stored_mode, token_present, Settings};
use crate::llm::{conversation, Message, PartView};
use crate::text::{
    chars_of, concat2, concat3, concat4, decimal, decimal_string, owned, string_of_range,
    vec_eq_str,
};
use crate::tool_args::{bool_arg, opt_str_arg, str_arg, u64_arg, ToolArgs};

verus! {

broadcast use vstd::string::group_string_axioms;

/// Tool output longer than this many characters is cut before it reaches the model.
pub const MAX_TOOL_OUTPUT: usize = 12000;

/// What a running turn reports to the interface.
pub enum AgentUpdate {
    StartTool { name: String, args: String },
    CompleteTool(String),
    FailTool(String),
    Assistant(String),
    Error(String),
    ApprovalNeeded { summary: String },
    Done,
}

/// The system prompt of the god mode.
pub open spec fn god_prompt() -> Seq<char> {
    "You are a helpful PC assistant with full access to the user's machine.
Tools: run_shell, read_file, write_file, list_dir, search_files, grep, edit_file,
delete_file, create_dir, move_file, http_get, env_info.
Use tools for system info, files, search, and network — never guess.
Be concise and practical."@
}

/// The system prompt of the base mode.
pub open spec fn base_prompt() -> Seq<char> {
    "You are a helpful PC assistant with access to the user's machine.
Tools: run_shell, read_file, write_file, list_dir, search_files, grep, edit_file,
delete_file, create_dir, move_file, http_get, env_info.
Prefer read-only tools when possible. Destructive or sensitive actions may need approval.
Be concise and practical."@
}

/// The system prompt sent with every request in mode `mode`.
pub fn system_prompt(mode: AgentMode) -> (r: &'static str)
    ensures
        r@ == (match mode {
            AgentMode::God => god_prompt(),
            AgentMode::Base => base_prompt(),
        }),
{
    match mode {
        AgentMode::God => {
            "You are a helpful PC assistant with full access to the user's machine.
Tools: run_shell, read_file, write_file, list_dir, search_files, grep, edit_file,
delete_file, create_dir, move_file, http_get, env_info.
Use tools for system info, files, search, and network — never guess.
Be concise and practical."
        },
        AgentMode::Base => {
            "You are a helpful PC assistant with access to the user's machine.
Tools: run_shell, read_file, write_file, list_dir, search_files, grep, edit_file,
delete_file, create_dir, move_file, http_get, env_info.
Prefer read-only tools when possible. Destructive or sensitive actions may need approval.
Be concise and practical."
        },
    }
}

// ---------------------------------------------------------------------------
// Tool output
// ---------------------------------------------------------------------------

/// `text` cut to its first `max` characters, with a note of its full length
/// in characters.
pub open spec fn truncated(text: Seq<char>, max: nat) -> Seq<char> {
    if text.len() <= max {
        text
    } else {
        text.take(max as int) + "\n… truncated ("@ + decimal(text.len()) + " chars total)"@
    }
}

/// What the model is told about a tool's result.
pub open spec fn tool_output(result: Result<String, AppError>) -> Seq<char> {
    match result {
        Ok(text) => truncated(text@, MAX_TOOL_OUTPUT as nat),
        Err(AppError::Denied) => "Denied by user"@,
        Err(e) => "Error: "@ + error_text(e),
    }
}

/// What the model is told about a tool's result (output of over
/// `MAX_TOOL_OUTPUT` characters is cut).
pub fn truncate_tool_output(result: &Result<String, AppError>) -> (r: String)
    ensures
        r@ == tool_output(*result),
{
    match result {
        Ok(text) => {
            let v = chars_of(text.as_str());
            if v.len() <= MAX_TOOL_OUTPUT {
                text.clone()
            } else {
                let head = string_of_range(&v, 0, MAX_TOOL_OUTPUT);
                proof {
                    assert(v@.subrange(0, MAX_TOOL_OUTPUT as int) =~= v@.take(MAX_TOOL_OUTPUT as int));
                }
                let count = decimal_string(v.len());
                concat4(head.as_str(), "\n… truncated (", count.as_str(), " chars total)")
            }
        },
        Err(AppError::Denied) => owned("Denied by user"),
        Err(err) => {
            let m = err.message();
            concat2("Error: ", m.as_str())
        },
    }
}

// ---------------------------------------------------------------------------
// Tool calls
// ---------------------------------------------------------------------------

/// How a tool call is shown in the chat.
pub open spec fn tool_args_display(name: Seq<char>, args: ToolArgs) -> Seq<char> {
    if name == "run_shell"@ {
        "command: "@ + str_arg(args, "command"@)
    } else if name == "read_file"@ || name == "list_dir"@ || name == "delete_file"@ || name
        == "create_dir"@ {
        "path: "@ + str_arg(args, "path"@)
    } else if name == "write_file"@ || name == "edit_file"@ {
        "path: "@ + str_arg(args, "path"@)
    } else if name == "search_files"@ {
        "root: "@ + str_arg(args, "root"@) + "  pattern: "@ + str_arg(args, "pattern"@)
    } else if name == "grep"@ {
        "path: "@ + str_arg(args, "path"@) + "  pattern: "@ + str_arg(args, "pattern"@)
    } else if name == "move_file"@ {
        "from: "@ + str_arg(args, "from"@) + "  to: "@ + str_arg(args, "to"@)
    } else if name == "http_get"@ {
        "url: "@ + str_arg(args, "url"@)
    } else if name == "env_info"@ {
        "system info"@
    } else {
        args.json@
    }
}

/// The text shown for a tool call.
pub fn format_tool_args(name: &str, args: &ToolArgs) -> (r: String)
    ensures
        r@ == tool_args_display(name@, *args),
{
    let n = chars_of(name);
    if vec_eq_str(&n, "run_shell") {
        let c = args.str_or_empty("command");
        concat2("command: ", c.as_str())
    } else if vec_eq_str(&n, "read_file") || vec_eq_str(&n, "list_dir") || vec_eq_str(
        &n,
        "delete_file",
    ) || vec_eq_str(&n, "create_dir") {
        let p = args.str_or_empty("path");
        concat2("path: ", p.as_str())
    } else if vec_eq_str(&n, "write_file") || vec_eq_str(&n, "edit_file") {
        let p = args.str_or_empty("path");
        concat2("path: ", p.as_str())
    } else if vec_eq_str(&n, "search_files") {
        let a = args.str_or_empty("root");
        let b = args.str_or_empty("pattern");
        concat4("root: ", a.as_str(), "  pattern: ", b.as_str())
    } else if vec_eq_str(&n, "grep") {
        let a = args.str_or_empty("path");
        let b = args.str_or_empty("pattern");
        concat4("path: ", a.as_str(), "  pattern: ", b.as_str())
    } else if vec_eq_str(&n, "move_file") {
        let a = args.str_or_empty("from");
        let b = args.str_or_empty("to");
        concat4("from: ", a.as_str(), "  to: ", b.as_str())
    } else if vec_eq_str(&n, "http_get") {
        let u = args.str_or_empty("url");
        concat2("url: ", u.as_str())
    } else if vec_eq_str(&n, "env_info") {
        owned("system info")
    } else {
        args.json.clone()
    }
}

/// A tool invocation with its arguments read.
pub enum ToolCall {
    Shell { command: String },
    ReadFile { path: String },
    WriteFile { path: String, content: String },
    ListDir { path: String },
    SearchFiles { root: String, pattern: String, max_depth: usize },
    Grep { path: String, pattern: String, ignore_case: bool },
    EditFile { path: String, old_text: String, new_text: String, replace_all: bool },
    DeleteFile { path: String },
    CreateDir { path: String },
    MoveFile { from: String, to: String },
    HttpGet { url: String },
    EnvInfo,
}

/// The plain-value view of a tool invocation: its kind, its string arguments
/// in declaration order, and its flag and number.
pub struct ToolCallView {
    pub kind: nat,
    pub strs: Seq<Seq<char>>,
    pub flag: bool,
    pub number: nat,
}

impl View for ToolCall {
    type V = ToolCallView;

    open spec fn view(&self) -> ToolCallView {
        match self {
            ToolCall::Shell { command } => ToolCallView {
                kind: 0,
                strs: seq![command@],
                flag: false,
                number: 0,
            },
            ToolCall::ReadFile { path } => ToolCallView {
                kind: 1,
                strs: seq![path@],
                flag: false,
                number: 0,
            },
            ToolCall::WriteFile { path, content } => ToolCallView {
                kind: 2,
                strs: seq![path@, content@],
                flag: false,
                number: 0,
            },
            ToolCall::ListDir { path } => ToolCallView {
                kind: 3,
                strs: seq![path@],
                flag: false,
                number: 0,
            },
            ToolCall::SearchFiles { root, pattern, max_depth } => ToolCallView {
                kind: 4,
                strs: seq![root@, pattern@],
                flag: false,
                number: *max_depth as nat,
            },
            ToolCall::Grep { path, pattern, ignore_case } => ToolCallView {
                kind: 5,
                strs: seq![path@, pattern@],
                flag: *ignore_case,
                number: 0,
            },
            ToolCall::EditFile { path, old_text, new_text, replace_all } => ToolCallView {
                kind: 6,
                strs: seq![path@, old_text@, new_text@],
                flag: *replace_all,
                number: 0,
            },
            ToolCall::DeleteFile { path } => ToolCallView {
                kind: 7,
                strs: seq![path@],
                flag: false,
                number: 0,
            },
            ToolCall::CreateDir { path } => ToolCallView {
                kind: 8,
                strs: seq![path@],
                flag: false,
                number: 0,
            },
            ToolCall::MoveFile { from, to } => ToolCallView {
                kind: 9,
                strs: seq![from@, to@],
                flag: false,
                number: 0,
            },
            ToolCall::HttpGet { url } => ToolCallView {
                kind: 10,
                strs: seq![url@],
                flag: false,
                number: 0,
            },
            ToolCall::EnvInfo => ToolCallView { kind: 11, strs: seq![], flag: false, number: 0 },
        }
    }
}

/// A planned call, or the error the dispatcher answers with.
pub enum PlanView {
    Call(ToolCallView),
    Refused(Seq<char>),
}

/// The call that a tool name and its arguments select, or the error.
pub open spec fn tool_plan(name: Seq<char>, args: ToolArgs) -> PlanView {
    let mk = |kind: nat, strs: Seq<Seq<char>>, flag: bool, number: nat|
        ToolCallView { kind, strs, flag, number };
    if name == "run_shell"@ {
        let c = str_arg(args, "command"@);
        if c.len() == 0 {
            PlanView::Refused("Missing command"@)
        } else {
            PlanView::Call(mk(0, seq![c], false, 0))
        }
    } else if name == "read_file"@ {
        let p = str_arg(args, "path"@);
        if p.len() == 0 {
            PlanView::Refused("Missing path"@)
        } else {
            PlanView::Call(mk(1, seq![p], false, 0))
        }
    } else if name == "write_file"@ {
        let p = str_arg(args, "path"@);
        if p.len() == 0 {
            PlanView::Refused("Missing path"@)
        } else {
            PlanView::Call(mk(2, seq![p, str_arg(args, "content"@)], false, 0))
        }
    } else if name == "list_dir"@ {
        let p = str_arg(args, "path"@);
        if p.len() == 0 {
            PlanView::Refused("Missing path"@)
        } else {
            PlanView::Call(mk(3, seq![p], false, 0))
        }
    } else if name == "search_files"@ {
        PlanView::Call(
            mk(
                4,
                seq![str_arg(args, "root"@), str_arg(args, "pattern"@)],
                false,
                (u64_arg(args, "max_depth"@, 8) as usize) as nat,
            ),
        )
    } else if name == "grep"@ {
        PlanView::Call(
            mk(
                5,
                seq![str_arg(args, "path"@), str_arg(args, "pattern"@)],
                bool_arg(args, "ignore_case"@, false),
                0,
            ),
        )
    } else if name == "edit_file"@ {
        PlanView::Call(
            mk(
                6,
                seq![
                    str_arg(args, "path"@),
                    str_arg(args, "old_text"@),
                    str_arg(args, "new_text"@),
                ],
                bool_arg(args, "replace_all"@, false),
                0,
            ),
        )
    } else if name == "delete_file"@ {
        PlanView::Call(mk(7, seq![str_arg(args, "path"@)], false, 0))
    } else if name == "create_dir"@ {
        PlanView::Call(mk(8, seq![str_arg(args, "path"@)], false, 0))
    } else if name == "move_file"@ {
        PlanView::Call(mk(9, seq![str_arg(args, "from"@), str_arg(args, "to"@)], false, 0))
    } else if name == "http_get"@ {
        PlanView::Call(mk(10, seq![str_arg(args, "url"@)], false, 0))
    } else if name == "env_info"@ {
        PlanView::Call(mk(11, seq![], false, 0))
    } else {
        PlanView::Refused("Unknown tool: "@ + name)
    }
}

/// The view of a planning result.
pub open spec fn plan_view(r: Result<ToolCall, AppError>) -> PlanView {
    match r {
        Ok(c) => PlanView::Call(c@),
        Err(AppError::Tool(m)) => PlanView::Refused(m@),
        Err(_) => PlanView::Refused(Seq::empty()),
    }
}

/// Selects the tool a call names and reads its arguments; the tools that the
/// dispatcher checks for a missing argument are refused without one.
pub fn plan_tool(name: &str, args: &ToolArgs) -> (r: Result<ToolCall, AppError>)
    ensures
        r is Ok || r matches Err(AppError::Tool(_)),
        plan_view(r) == tool_plan(name@, *args),
{
    let n = chars_of(name);
    if vec_eq_str(&n, "run_shell") {
        let command = args.str_or_empty("command");
        if command.as_str().is_empty() {
            return Err(AppError::Tool(owned("Missing command")));
        }
        Ok(ToolCall::Shell { command })
    } else if vec_eq_str(&n, "read_file") {
        let path = args.str_or_empty("path");
        if path.as_str().is_empty() {
            return Err(AppError::Tool(owned("Missing path")));
        }
        Ok(ToolCall::ReadFile { path })
    } else if vec_eq_str(&n, "write_file") {
        let path = args.str_or_empty("path");
        let content = args.str_or_empty("content");
        if path.as_str().is_empty() {
            return Err(AppError::Tool(owned("Missing path")));
        }
        Ok(ToolCall::WriteFile { path, content })
    } else if vec_eq_str(&n, "list_dir") {
        let path = args.str_or_empty("path");
        if path.as_str().is_empty() {
            return Err(AppError::Tool(owned("Missing path")));
        }
        Ok(ToolCall::ListDir { path })
    } else if vec_eq_str(&n, "search_files") {
        let root = args.str_or_empty("root");
        let pattern = args.str_or_empty("pattern");
        let depth = args.u64_or("max_depth", 8) as usize;
        Ok(ToolCall::SearchFiles { root, pattern, max_depth: depth })
    } else if vec_eq_str(&n, "grep") {
        let path = args.str_or_empty("path");
        let pattern = args.str_or_empty("pattern");
        let ignore_case = args.bool_or("ignore_case", false);
        Ok(ToolCall::Grep { path, pattern, ignore_case })
    } else if vec_eq_str(&n, "edit_file") {
        let path = args.str_or_empty("path");
        let old_text = args.str_or_empty("old_text");
        let new_text = args.str_or_empty("new_text");
        let replace_all = args.bool_or("replace_all", false);
        Ok(ToolCall::EditFile { path, old_text, new_text, replace_all })
    } else if vec_eq_str(&n, "delete_file") {
        Ok(ToolCall::DeleteFile { path: args.str_or_empty("path") })
    } else if vec_eq_str(&n, "create_dir") {
        Ok(ToolCall::CreateDir { path: args.str_or_empty("path") })
    } else if vec_eq_str(&n, "move_file") {
        let from = args.str_or_empty("from");
        let to = args.str_or_empty("to");
        Ok(ToolCall::MoveFile { from, to })
    } else if vec_eq_str(&n, "http_get") {
        Ok(ToolCall::HttpGet { url: args.str_or_empty("url") })
    } else if vec_eq_str(&n, "env_info") {
        Ok(ToolCall::EnvInfo)
    } else {
        Err(AppError::Tool(concat2("Unknown tool: ", name)))
    }
}

// ---------------------------------------------------------------------------
// The steps of a turn
// ---------------------------------------------------------------------------

/// The function call of a reply.
pub struct FunctionCallPart {
    pub name: String,
    pub args: ToolArgs,
}

/// The first part of the model's first candidate.
pub struct ReplyPart {
    pub text: Option<String>,
    pub function_call: Option<FunctionCallPart>,
}

/// The answer to an approval prompt: `None` when the prompt went unanswered
/// because the channel closed.
pub fn approval_outcome(answer: Option<bool>) -> (r: Result<(), AppError>)
    ensures
        answer == Some(true) <==> r is Ok,
        answer == Some(false) ==> r matches Err(AppError::Denied),
        answer is None ==> (r matches Err(AppError::Api(m)) && m@ == "Approval channel closed"@),
{
    match answer {
        None => Err(AppError::Api(owned("Approval channel closed"))),
        Some(false) => Err(AppError::Denied),
        Some(true) => Ok(()),
    }
}

/// What follows a tool's run: the update for the interface, and the result
/// text recorded for the model.
pub struct ToolReport {
    pub update: AgentUpdate,
    pub recorded: String,
}

/// The update and the recorded result for a tool's outcome.
pub fn tool_report(result: &Result<String, AppError>) -> (r: ToolReport)
    ensures
        r.recorded@ == tool_output(*result),
        result is Ok ==> (r.update matches AgentUpdate::CompleteTool(o) && o@ == tool_output(
            *result,
        )),
        result matches Err(AppError::Denied) ==> (r.update matches AgentUpdate::FailTool(m)
            && m@ == "Denied by user"@),
        result matches Err(e) ==> (e !is Denied ==> (r.update matches AgentUpdate::FailTool(m)
            && m@ == error_text(*e))),
{
    let output = truncate_tool_output(result);
    match result {
        Ok(_) => ToolReport { update: AgentUpdate::CompleteTool(output.clone()), recorded: output },
        Err(AppError::Denied) => ToolReport {
            update: AgentUpdate::FailTool(owned("Denied by user")),
            recorded: owned("Denied by user"),
        },
        Err(e) => ToolReport { update: AgentUpdate::FailTool(e.message()), recorded: output },
    }
}

/// The update a failed turn ends with.
pub fn turn_error_update(err: &AppError) -> (r: AgentUpdate)
    ensures
        r matches AgentUpdate::Error(m) && m@ == sanitized(error_text(*err)),
{
    let m = err.message();
    AgentUpdate::Error(sanitize_error(m.as_str()))
}

// ---------------------------------------------------------------------------
// The agent: settings and conversation
// ---------------------------------------------------------------------------

#[verifier::external_type_specification]
#[verifier::external_body]
pub struct ExClient(reqwest::Client);

/// The agent: the HTTP client it talks to the model with, the settings, and
/// the conversation so far.
pub struct Agent {
    client: reqwest::Client,
    settings: Settings,
    history: Vec<Message>,
}

impl Agent {
    /// The settings.
    pub closed spec fn conf(&self) -> Settings {
        self.settings
    }

    /// The HTTP client it was made with.
    pub closed spec fn http(&self) -> reqwest::Client {
        self.client
    }

    /// The conversation so far.
    pub closed spec fn log(&self) -> Seq<(Seq<char>, Seq<PartView>)> {
        conversation(self.history@)
    }

    /// An agent with `settings` and no conversation yet.
    pub fn new(client: reqwest::Client, settings: Settings) -> (a: Agent)
        ensures
            a.conf() == settings,
            a.http() == client,
            a.log() == Seq::<(Seq<char>, Seq<PartView>)>::empty(),
    {
        let a = Agent { client, settings, history: Vec::new() };
        assert(a.log() =~= Seq::<(Seq<char>, Seq<PartView>)>::empty());
        a
    }

    /// The HTTP client.
    pub fn client(&self) -> (r: &reqwest::Client)
        ensures
            *r == self.http(),
    {
        &self.client
    }

    /// The settings.
    pub fn settings(&self) -> (r: &Settings)
        ensures
            *r == self.conf(),
    {
        &self.settings
    }

    /// The settings, to change them.
    pub fn settings_mut(&mut self) -> (r: &mut Settings)
        ensures
            *r == old(self).conf(),
            final(self).conf() == *final(r),
            final(self).log() == old(self).log(),
            final(self).http() == old(self).http(),
    {
        &mut self.settings
    }

    /// The conversation so far.
    pub fn history(&self) -> (r: &Vec<Message>)
        ensures
            conversation(r@) == self.log(),
    {
        &self.history
    }

    /// Forgets the conversation.
    pub fn clear_history(&mut self)
        ensures
            final(self).log() == Seq::<(Seq<char>, Seq<PartView>)>::empty(),
            final(self).conf() == old(self).conf(),
            final(self).http() == old(self).http(),
    {
        self.history.clear();
        assert(self.log() =~= Seq::<(Seq<char>, Seq<PartView>)>::empty());
    }

    /// Whether an API token is set.
    pub fn has_token(&self) -> (r: bool)
        ensures
            r == token_present(self.conf().api_key@),
    {
        self.settings.has_token()
    }

    /// The mode a turn runs in; without a token the turn is refused.
    pub fn begin_turn(&self) -> (r: Result<AgentMode, AppError>)
        ensures
            r is Ok <==> token_present(self.conf().api_key@),
            r matches Ok(m) ==> m == stored_mode(self.conf().mode@),
            r matches Err(e) ==> e is Api && error_text(e)
                == "No API token set. Use /token <your-key>"@,
    {
        if !self.settings.has_token() {
            return Err(AppError::Api(owned("No API token set. Use /token <your-key>")));
        }
        Ok(self.settings.mode())
    }

    /// Adds the user's message to the conversation.
    pub fn push_user(&mut self, text: &str)
        ensures
            final(self).log() == old(self).log().push(("user"@, seq![PartView::Text(text@)])),
            final(self).conf() == old(self).conf(),
            final(self).http() == old(self).http(),
    {
        let m = Message::user_text(text);
        self.record(m);
    }

    /// Adds a message to the conversation.
    pub fn record(&mut self, m: Message)
        ensures
            final(self).log() == old(self).log().push(m.view()),
            final(self).conf() == old(self).conf(),
            final(self).http() == old(self).http(),
    {
        let ghost v = m.view();
        self.history.push(m);
        assert(self.log() =~= old(self).log().push(v));
    }

    /// The number of messages so far.
    pub fn history_len(&self) -> (n: usize)
        ensures
            n == self.log().len(),
    {
        self.history.len()
    }

    /// Goes back to the first `mark` messages, forgetting what a failed turn
    /// added.
    pub fn rewind(&mut self, mark: usize)
        ensures
            final(self).log() == (if mark <= old(self).log().len() {
                old(self).log().take(mark as int)
            } else {
                old(self).log()
            }),
            final(self).conf() == old(self).conf(),
            final(self).http() == old(self).http(),
    {
        self.history.truncate(mark);
        assert(self.log() =~= (if mark <= old(self).log().len() {
            old(self).log().take(mark as int)
        } else {
            old(self).log()
        }));
    }
}

} // verus!
