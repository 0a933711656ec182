use godmode::agent::{
    approval_outcome, format_tool_args, plan_tool, system_prompt, tool_report,
    truncate_tool_output, turn_error_update, Agent, AgentUpdate, FunctionCallPart, ReplyPart,
    ToolCall, MAX_TOOL_OUTPUT,
};
use godmode::api_error::{
    api_error_ready, classify_api_error, classify_raw_api_error, gemini_role, truncate_message, ApiErrorBody,
};
use godmode::errors::AppError;
use godmode::llm::{tool_declarations, ContentPart, Message, ParamKind};
use godmode::mode::AgentMode;
use godmode::settings::Settings;
use godmode::tool_args::{ArgValue, ToolArg, ToolArgs};
use godmode::turn::{TurnAction, TurnEvent};

fn args(pairs: &[(&str, ArgValue)], json: &str) -> ToolArgs {
    ToolArgs {
        entries: pairs
            .iter()
            .map(|(k, v)| ToolArg {
                key: k.to_string(),
                value: match v {
                    ArgValue::Str(s) => ArgValue::Str(s.clone()),
                    ArgValue::Bool(b) => ArgValue::Bool(*b),
                    ArgValue::UInt(n) => ArgValue::UInt(*n),
                    ArgValue::Other => ArgValue::Other,
                },
            })
            .collect(),
        json: json.to_string(),
    }
}

fn s(v: &str) -> ArgValue {
    ArgValue::Str(v.to_string())
}

#[test]
fn prompts_per_mode() {
    assert!(system_prompt(AgentMode::God).contains("full access"));
    assert!(system_prompt(AgentMode::Base).contains("may need approval"));
}

#[test]
fn tool_output_is_truncated() {
    assert_eq!(truncate_tool_output(&Ok("short".to_string())), "short");
    let long = "a".repeat(MAX_TOOL_OUTPUT + 5);
    let t = truncate_tool_output(&Ok(long));
    assert!(t.starts_with(&"a".repeat(MAX_TOOL_OUTPUT)));
    assert!(t.ends_with("\n… truncated (12005 chars total)"));
    let wide = "é".repeat(7000);
    assert_eq!(truncate_tool_output(&Ok(wide.clone())), wide);
    let wide = "é".repeat(MAX_TOOL_OUTPUT + 1);
    let t = truncate_tool_output(&Ok(wide));
    assert_eq!(t, format!("{}\n… truncated (12001 chars total)", "é".repeat(MAX_TOOL_OUTPUT)));
    assert_eq!(truncate_tool_output(&Err(AppError::Denied)), "Denied by user");
    assert_eq!(truncate_tool_output(&Err(AppError::Tool("boom".to_string()))), "Error: boom");
}

#[test]
fn tool_arguments_for_display() {
    assert_eq!(format_tool_args("run_shell", &args(&[("command", s("ls"))], "{}")), "command: ls");
    assert_eq!(
        format_tool_args("search_files", &args(&[("root", s("/")), ("pattern", s("*.rs"))], "{}")),
        "root: /  pattern: *.rs"
    );
    assert_eq!(format_tool_args("env_info", &args(&[], "{}")), "system info");
    assert_eq!(format_tool_args("mystery", &args(&[], "{\"a\":1}")), "{\"a\":1}");
}

#[test]
fn tool_plans() {
    match plan_tool("search_files", &args(&[("root", s("/")), ("pattern", s("*"))], "{}")) {
        Ok(ToolCall::SearchFiles { root, pattern, max_depth }) => {
            assert_eq!(root, "/");
            assert_eq!(pattern, "*");
            assert_eq!(max_depth, 8);
        }
        _ => panic!("expected a search"),
    }
    match plan_tool("grep", &args(&[("path", s("a")), ("pattern", s("b")), ("ignore_case", ArgValue::Bool(true))], "{}")) {
        Ok(ToolCall::Grep { ignore_case, .. }) => assert!(ignore_case),
        _ => panic!("expected a grep"),
    }
    match plan_tool("run_shell", &args(&[], "{}")) {
        Err(e) => assert_eq!(e.message(), "Missing command"),
        Ok(_) => panic!("missing command accepted"),
    }
    match plan_tool("teleport", &args(&[], "{}")) {
        Err(e) => assert_eq!(e.message(), "Unknown tool: teleport"),
        Ok(_) => panic!("unknown tool accepted"),
    }
    assert!(matches!(plan_tool("env_info", &args(&[], "{}")), Ok(ToolCall::EnvInfo)));
}

#[test]
fn turn_steps() {
    let fresh = || {
        let mut a = Agent::new(reqwest::Client::new(), Settings { api_key: "k".to_string(), mode: "base".to_string() });
        a.push_user("hi");
        let (turn, _, _) = a.start_turn();
        (a, turn)
    };
    let (mut a, mut t) = fresh();
    let (_, ups) = a.advance(&mut t, TurnEvent::Reply(None));
    assert!(matches!(&ups[0], AgentUpdate::Error(m) if m == "No response received. Try again."));
    let (mut a, mut t) = fresh();
    let text = ReplyPart { text: Some("Hello".to_string()), function_call: None };
    let (_, ups) = a.advance(&mut t, TurnEvent::Reply(Some(text)));
    assert!(matches!(&ups[0], AgentUpdate::Assistant(m) if m == "Hello"));
    let (mut a, mut t) = fresh();
    let blank = ReplyPart { text: Some("  ".to_string()), function_call: None };
    let (action, _) = a.advance(&mut t, TurnEvent::Reply(Some(blank)));
    assert!(matches!(action, TurnAction::Finish));
    assert_eq!(a.history_len(), 1);
    let (mut a, mut t) = fresh();
    let neither = ReplyPart { text: None, function_call: None };
    let (_, ups) = a.advance(&mut t, TurnEvent::Reply(Some(neither)));
    assert!(matches!(&ups[0], AgentUpdate::Error(m) if m == "Unexpected response"));
    let (mut a, mut t) = fresh();
    let (_, ups) = a.advance(&mut t, TurnEvent::ChatFailed(AppError::Api("HTTP 429".to_string())));
    assert!(matches!(&ups[0], AgentUpdate::Error(m) if m == "API rate limit reached. Try again shortly."));
}

#[test]
fn approvals_and_reports() {
    assert!(approval_outcome(Some(true)).is_ok());
    assert!(matches!(approval_outcome(Some(false)), Err(AppError::Denied)));
    assert_eq!(approval_outcome(None).unwrap_err().message(), "Approval channel closed");
    let r = tool_report(&Ok("done".to_string()));
    assert_eq!(r.recorded, "done");
    assert!(matches!(r.update, AgentUpdate::CompleteTool(ref o) if o == "done"));
    let r = tool_report(&Err(AppError::Denied));
    assert_eq!(r.recorded, "Denied by user");
    let r = tool_report(&Err(AppError::Tool("bad".to_string())));
    assert_eq!(r.recorded, "Error: bad");
    assert!(matches!(r.update, AgentUpdate::FailTool(ref m) if m == "bad"));
    match turn_error_update(&AppError::Http("x".to_string())) {
        AgentUpdate::Error(m) => assert_eq!(m, "Connection failed. Check your network."),
        _ => panic!("expected an error"),
    }
}

#[test]
fn error_texts() {
    assert_eq!(AppError::Http("x".to_string()).message(), "Connection error");
    assert_eq!(AppError::Api("quota".to_string()).message(), "quota");
    assert_eq!(AppError::Config("bad".to_string()).message(), "Config error: bad");
    assert_eq!(AppError::Io("gone".to_string()).message(), "IO error: gone");
    assert_eq!(AppError::Denied.message(), "Denied by user");
}

#[test]
fn api_error_classification() {
    assert_eq!(classify_raw_api_error(401, "x"), "Invalid or missing API token. Use /token to set one.");
    assert_eq!(classify_raw_api_error(429, "x"), "API rate limit reached. Try again shortly.");
    assert_eq!(classify_raw_api_error(500, "boom"), "boom");
    assert_eq!(truncate_message("abcdef", 3), "abc…");
    assert_eq!(truncate_message("abc", 3), "abc");
    let parsed = ApiErrorBody { message: Some("Quota exceeded, limit: 0".to_string()), status: Some("resource_exhausted".to_string()) };
    let r = classify_api_error(429, Some(parsed), "{}");
    assert!(r.starts_with("Free tier quota for this model is unavailable"));
    let parsed = ApiErrorBody { message: None, status: Some("unauthenticated".to_string()) };
    assert_eq!(classify_api_error(400, Some(parsed), "{}"), "Invalid or missing API token. Use /token to set one.");
    let parsed = ApiErrorBody { message: Some("model overloaded".to_string()), status: None };
    assert_eq!(classify_api_error(503, Some(parsed), "{}"), "model overloaded");
    assert_eq!(classify_api_error(503, None, "raw body"), "raw body");
    assert_eq!(gemini_role("assistant"), "model");
    assert_eq!(gemini_role("user"), "user");
}

#[test]
fn messages_of_conversation() {
    let m = Message::user_text("hi");
    assert_eq!(m.role, "user");
    assert!(matches!(&m.parts[0], ContentPart::Text(t) if t == "hi"));
    let m = Message::model_function_call("grep".to_string(), "{}".to_string());
    assert_eq!(m.role, "model");
    assert!(matches!(&m.parts[0], ContentPart::FunctionCall { name, args } if name == "grep" && args == "{}"));
    let m = Message::tool_result("grep", "none");
    assert!(matches!(&m.parts[0], ContentPart::FunctionResponse { result, .. } if result == "none"));
    assert_eq!(Message::model_text("ok").role, "model");
}

#[test]
fn agent_history_rewinds() {
    let settings = Settings { api_key: "k".to_string(), mode: "god".to_string() };
    let mut a = Agent::new(reqwest::Client::new(), settings);
    assert!(a.has_token());
    a.push_user("first");
    let mark = a.history_len();
    a.record(Message::model_function_call("run_shell".to_string(), "{}".to_string()));
    a.record(Message::tool_result("run_shell", "ok"));
    assert_eq!(a.history_len(), 3);
    a.rewind(mark);
    assert_eq!(a.history_len(), 1);
    assert_eq!(a.history()[0].role, "user");
    a.settings_mut().api_key = String::new();
    assert!(!a.has_token());
    assert_eq!(a.settings().mode, "god");
    a.clear_history();
    assert_eq!(a.history_len(), 0);
}

#[test]
fn turn_needs_a_token() {
    let a = Agent::new(reqwest::Client::new(), Settings { api_key: " ".to_string(), mode: "god".to_string() });
    match a.begin_turn() {
        Err(e) => assert_eq!(e.message(), "No API token set. Use /token <your-key>"),
        Ok(_) => panic!("turn without token"),
    }
    let a = Agent::new(reqwest::Client::new(), Settings { api_key: "k".to_string(), mode: "GOD".to_string() });
    assert_eq!(a.begin_turn().ok(), Some(AgentMode::God));
}

#[test]
fn api_error_cut_readiness() {
    let long = format!("{}é", "a".repeat(199));
    assert!(!api_error_ready(500, &None, &long));
    assert!(api_error_ready(401, &None, &long));
    assert!(api_error_ready(500, &None, "short"));
    let parsed = Some(ApiErrorBody { message: Some(long.clone()), status: None });
    assert!(!api_error_ready(500, &parsed, "{}"));
    let parsed = Some(ApiErrorBody { message: Some(long), status: Some("UNAUTHENTICATED".to_string()) });
    assert!(api_error_ready(500, &parsed, "{}"));
}

#[test]
fn twelve_tools_are_declared() {
    let decls = tool_declarations();
    let names: Vec<&str> = decls.iter().map(|d| d.name).collect();
    assert_eq!(
        names,
        vec![
            "run_shell", "read_file", "write_file", "list_dir", "search_files", "grep", "edit_file",
            "delete_file", "create_dir", "move_file", "http_get", "env_info",
        ]
    );
    let search = &decls[4];
    assert_eq!(search.params.len(), 3);
    assert_eq!(search.params[2].name, "max_depth");
    assert_eq!(search.params[2].kind, ParamKind::Integer);
    assert!(!search.params[2].required);
    assert_eq!(search.params[2].description, Some("Max depth (default 8)"));
    assert!(decls[0].params[0].required);
    assert_eq!(decls[0].params[0].name, "command");
    assert_eq!(decls[2].params[1].description, None);
    assert!(decls[11].params.is_empty());
}

#[test]
fn declared_tools_are_dispatched() {
    let empty = args(&[], "{}");
    for d in tool_declarations() {
        match plan_tool(d.name, &empty) {
            Ok(_) => {}
            Err(e) => assert!(!e.message().starts_with("Unknown tool"), "{}", d.name),
        }
    }
    assert!(matches!(plan_tool("format_disk", &empty), Err(AppError::Tool(m)) if m == "Unknown tool: format_disk"));
}

fn delete_call(path: &str) -> ReplyPart {
    ReplyPart {
        text: None,
        function_call: Some(FunctionCallPart {
            name: "delete_file".to_string(),
            args: args(&[("path", s(path))], &format!("{{\"path\":\"{path}\"}}")),
        }),
    }
}

#[test]
fn turn_asks_before_running_and_goes_back_on_failure() {
    let mut a = Agent::new(reqwest::Client::new(), Settings { api_key: "k".to_string(), mode: "base".to_string() });
    a.push_user("remove x");
    let (mut turn, action, ups) = a.start_turn();
    assert!(matches!(action, TurnAction::AskModel));
    assert!(ups.is_empty());

    let (action, ups) = a.advance(&mut turn, TurnEvent::Reply(Some(delete_call("x.txt"))));
    assert!(matches!(&action, TurnAction::AskApproval(s) if s == "delete: x.txt"));
    assert!(matches!(&ups[0], AgentUpdate::StartTool { name, args } if name == "delete_file" && args == "path: x.txt"));
    assert!(matches!(&ups[1], AgentUpdate::ApprovalNeeded { summary } if summary == "delete: x.txt"));
    assert_eq!(a.history_len(), 2);

    let (action, ups) = a.advance(&mut turn, TurnEvent::Approval(Some(true)));
    assert!(matches!(&action, TurnAction::Execute(ToolCall::DeleteFile { path }) if path == "x.txt"));
    assert!(ups.is_empty());

    let (action, ups) = a.advance(&mut turn, TurnEvent::ToolDone(Ok("Deleted x.txt".to_string())));
    assert!(matches!(action, TurnAction::AskModel));
    assert!(matches!(&ups[0], AgentUpdate::CompleteTool(o) if o == "Deleted x.txt"));
    assert_eq!(a.history_len(), 3);

    let (action, ups) = a.advance(&mut turn, TurnEvent::Reply(Some(delete_call("y.txt"))));
    assert!(matches!(action, TurnAction::AskApproval(_)));
    assert_eq!(ups.len(), 2);
    let (action, ups) = a.advance(&mut turn, TurnEvent::Approval(Some(false)));
    assert!(matches!(action, TurnAction::AskModel));
    assert!(matches!(&ups[0], AgentUpdate::FailTool(m) if m == "Denied by user"));
    assert_eq!(a.history_len(), 5);

    let (action, ups) = a.advance(&mut turn, TurnEvent::Reply(None));
    assert!(matches!(action, TurnAction::Finish));
    assert!(matches!(&ups[0], AgentUpdate::Error(m) if m == "No response received. Try again."));
    assert!(matches!(ups[1], AgentUpdate::Done));
    assert_eq!(a.history_len(), 1);
    assert!(turn.is_over());
}

#[test]
fn turn_runs_safe_calls_at_once_and_ends_with_the_answer() {
    let mut a = Agent::new(reqwest::Client::new(), Settings { api_key: "k".to_string(), mode: "god".to_string() });
    a.push_user("remove x");
    let (mut turn, _, _) = a.start_turn();
    let (action, ups) = a.advance(&mut turn, TurnEvent::Reply(Some(delete_call("x.txt"))));
    assert!(matches!(action, TurnAction::Execute(ToolCall::DeleteFile { .. })));
    assert_eq!(ups.len(), 1);
    let (action, _) = a.advance(&mut turn, TurnEvent::ToolDone(Err(AppError::Tool("boom".to_string()))));
    assert!(matches!(action, TurnAction::AskModel));
    let answer = ReplyPart { text: Some("done".to_string()), function_call: None };
    let (action, ups) = a.advance(&mut turn, TurnEvent::Reply(Some(answer)));
    assert!(matches!(action, TurnAction::Finish));
    assert!(matches!(&ups[0], AgentUpdate::Assistant(t) if t == "done"));
    assert!(matches!(ups[1], AgentUpdate::Done));
    assert_eq!(a.history_len(), 4);
    assert!(turn.is_over());

    let b = Agent::new(reqwest::Client::new(), Settings { api_key: " ".to_string(), mode: "base".to_string() });
    let (turn, action, ups) = b.start_turn();
    assert!(matches!(action, TurnAction::Finish));
    assert!(matches!(&ups[0], AgentUpdate::Error(m) if m == "No API token set. Use /token <your-key>"));
    assert!(turn.is_over());
}
