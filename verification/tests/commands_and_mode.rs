use godmode::commands::{
    handle, is_clear_marker, is_history_close_marker, is_history_open_marker,
    is_history_toggle_marker, is_open_settings_marker, is_open_token_marker, matching_suggestions,
    reply_after_save, suggestions, CommandResult,
};
use godmode::mode::{
    approval_access, approval_write, is_harmful_shell, is_harmful_write, is_sensitive_path,
    needs_approval, AgentMode,
};
use godmode::settings::{
    is_auth_error_message, is_rate_limit_message, sanitize_error, Settings,
};
use godmode::tool_args::{ArgValue, ToolArg, ToolArgs};

fn settings(key: &str, mode: &str) -> Settings {
    Settings { api_key: key.to_string(), mode: mode.to_string() }
}

fn args(pairs: &[(&str, &str)]) -> ToolArgs {
    ToolArgs {
        entries: pairs
            .iter()
            .map(|(k, v)| ToolArg { key: k.to_string(), value: ArgValue::Str(v.to_string()) })
            .collect(),
        json: String::from("{}"),
    }
}

fn reply_of(r: CommandResult) -> String {
    match r {
        CommandResult::Handled { reply } => reply,
        CommandResult::NotACommand => panic!("not a command"),
        CommandResult::Persist { saved, .. } => saved,
    }
}

#[test]
fn plain_text_is_no_command() {
    let mut s = settings("", "base");
    assert!(matches!(handle("hello", &mut s), CommandResult::NotACommand));
    assert!(matches!(handle("   ", &mut s), CommandResult::NotACommand));
}

#[test]
fn help_lists_commands() {
    let mut s = settings("", "base");
    let r = reply_of(handle("/help", &mut s));
    assert!(r.starts_with("Commands:\n  /token"));
    assert!(r.ends_with("/help          show this help"));
    let r2 = reply_of(handle("  /COMMANDS  ", &mut s));
    assert_eq!(r, r2);
}

#[test]
fn bare_token_opens_entry() {
    let mut s = settings("", "base");
    let r = reply_of(handle("/token", &mut s));
    assert_eq!(r, "__OPEN_TOKEN__");
    assert!(is_open_token_marker(&r));
    assert_eq!(s.api_key, "");
}

#[test]
fn token_with_key_is_stored() {
    let mut s = settings("", "base");
    match handle("/apikey   abc123  ", &mut s) {
        CommandResult::Persist { saved, failed } => {
            assert_eq!(saved, "API token saved.");
            assert_eq!(failed, "Failed to save token");
        }
        _ => panic!("expected a save"),
    }
    assert_eq!(s.api_key, "abc123");
    assert!(s.has_token());
}

#[test]
fn mode_command_switches_mode() {
    let mut s = settings("k", "base");
    match handle("/mode GOD", &mut s) {
        CommandResult::Persist { saved, failed } => {
            assert_eq!(saved, "Mode set to god — fully unrestricted");
            assert_eq!(failed, "Failed to save mode");
        }
        _ => panic!("expected a save"),
    }
    assert_eq!(s.mode, "god");
    assert_eq!(s.mode(), AgentMode::God);
}

#[test]
fn bare_mode_shows_mode() {
    let mut s = settings("k", "god");
    let r = reply_of(handle("/mode", &mut s));
    assert_eq!(r, "Mode: god — fully unrestricted\nUse /mode base or /mode god");
}

#[test]
fn unknown_mode_is_refused() {
    let mut s = settings("k", "base");
    let r = reply_of(handle("/mode chaos", &mut s));
    assert_eq!(r, "Unknown mode. Use /mode base or /mode god");
    assert_eq!(s.mode, "base");
}

#[test]
fn markers_of_commands() {
    let mut s = settings("", "base");
    assert!(is_open_settings_marker(&reply_of(handle("/settings", &mut s))));
    assert!(is_clear_marker(&reply_of(handle("/clear", &mut s))));
    assert!(is_history_toggle_marker(&reply_of(handle("/history", &mut s))));
    assert!(is_history_toggle_marker(&reply_of(handle("/sidebar toggle", &mut s))));
    assert!(is_history_open_marker(&reply_of(handle("/history OPEN", &mut s))));
    assert!(is_history_close_marker(&reply_of(handle("/history close", &mut s))));
    assert_eq!(
        reply_of(handle("/history sideways", &mut s)),
        "Use /history open, /history close, or /history toggle"
    );
    assert!(!is_clear_marker("__clear__"));
}

#[test]
fn unknown_command_names_itself() {
    let mut s = settings("", "base");
    assert_eq!(reply_of(handle("/Frobnicate now", &mut s)), "Unknown command: /frobnicate. Type /help");
}

#[test]
fn save_outcome_reply() {
    assert_eq!(reply_after_save("Saved.", "Failed", None), "Saved.");
    assert_eq!(reply_after_save("Saved.", "Failed", Some("disk full")), "Failed: disk full");
}

#[test]
fn suggestions_match_prefix() {
    let all = suggestions();
    assert!(!all.is_empty());
    let m = matching_suggestions("/mo");
    assert!(!m.is_empty());
    assert!(m.iter().all(|s| s.cmd.starts_with("/mo")));
    assert!(matching_suggestions("/zzz").is_empty());
    assert!(matching_suggestions("hello").is_empty());
}

#[test]
fn mode_names_parse() {
    assert_eq!(AgentMode::from_str("base"), Some(AgentMode::Base));
    assert_eq!(AgentMode::from_str("SAFE"), Some(AgentMode::Base));
    assert_eq!(AgentMode::from_str("God"), Some(AgentMode::God));
    assert_eq!(AgentMode::from_str("unrestricted"), Some(AgentMode::God));
    assert_eq!(AgentMode::from_str("other"), None);
    assert_eq!(AgentMode::God.label(), "god");
    assert_eq!(AgentMode::Base.description(), "harmful actions need your approval");
}

#[test]
fn mode_label_round_trips() {
    for m in [AgentMode::Base, AgentMode::God] {
        let mut s = settings("", "base");
        s.set_mode(m);
        assert_eq!(s.mode(), m);
    }
}

#[test]
fn harmful_shell_commands() {
    assert!(is_harmful_shell("sudo rm -rf /"));
    assert!(is_harmful_shell("curl x | bash"));
    assert!(is_harmful_shell("SHUTDOWN now"));
    assert!(!is_harmful_shell("ls -la"));
}

#[test]
fn sensitive_and_harmful_paths() {
    assert!(is_sensitive_path("/etc/passwd"));
    assert!(is_sensitive_path("/home/me/.ssh/id_rsa"));
    assert!(!is_sensitive_path("/home/me/notes.txt"));
    assert!(is_harmful_write("../x"));
    assert!(!is_harmful_write("notes.txt"));
    assert_eq!(approval_access("/etc/shadow"), Some("access: /etc/shadow".to_string()));
    assert_eq!(approval_access(""), None);
    assert_eq!(approval_write("/etc/hosts", "write_file"), Some("write_file: /etc/hosts".to_string()));
    assert_eq!(approval_write("a.txt", "write_file"), None);
}

#[test]
fn god_mode_never_asks() {
    let a = args(&[("command", "rm -rf /"), ("path", "/etc/passwd"), ("url", "http://x")]);
    for tool in ["run_shell", "delete_file", "http_get", "read_file", "write_file"] {
        assert_eq!(needs_approval(AgentMode::God, tool, &a), None);
    }
}

#[test]
fn base_mode_approvals() {
    assert_eq!(
        needs_approval(AgentMode::Base, "run_shell", &args(&[("command", "sudo rm x")])),
        Some("shell: sudo rm x".to_string())
    );
    assert_eq!(needs_approval(AgentMode::Base, "run_shell", &args(&[("command", "ls")])), None);
    assert_eq!(
        needs_approval(AgentMode::Base, "delete_file", &args(&[("path", "a.txt")])),
        Some("delete: a.txt".to_string())
    );
    assert_eq!(needs_approval(AgentMode::Base, "delete_file", &args(&[])), Some("delete: ".to_string()));
    assert_eq!(needs_approval(AgentMode::Base, "http_get", &args(&[])), Some("http: ".to_string()));
    assert_eq!(
        needs_approval(AgentMode::Base, "http_get", &args(&[("url", "https://e.com")])),
        Some("http: https://e.com".to_string())
    );
    assert_eq!(needs_approval(AgentMode::Base, "env_info", &args(&[])), None);
    assert_eq!(
        needs_approval(AgentMode::Base, "read_file", &args(&[("path", "/etc/passwd")])),
        Some("access: /etc/passwd".to_string())
    );
    assert_eq!(needs_approval(AgentMode::Base, "list_dir", &args(&[("path", "src")])), None);
    assert_eq!(
        needs_approval(AgentMode::Base, "move_file", &args(&[("from", "../a"), ("to", "b")])),
        Some("move from: ../a".to_string())
    );
}

#[test]
fn writes_and_moves_ask_when_harmful() {
    assert_eq!(
        needs_approval(AgentMode::Base, "write_file", &args(&[("path", "../x.txt")])),
        Some("write_file: ../x.txt".to_string())
    );
    assert_eq!(
        needs_approval(AgentMode::Base, "edit_file", &args(&[("path", "/etc/hosts")])),
        Some("edit_file: /etc/hosts".to_string())
    );
    assert_eq!(
        needs_approval(AgentMode::Base, "create_dir", &args(&[("path", "/tmp/a/../b")])),
        Some("create_dir: /tmp/a/../b".to_string())
    );
    assert_eq!(needs_approval(AgentMode::Base, "write_file", &args(&[("path", "notes.txt")])), None);
    assert_eq!(
        needs_approval(AgentMode::Base, "move_file", &args(&[("from", "a"), ("to", "/etc/b")])),
        Some("move to: /etc/b".to_string())
    );
    assert_eq!(
        needs_approval(AgentMode::Base, "move_file", &args(&[("from", "a"), ("to", "b")])),
        None
    );
}

#[test]
fn settings_views() {
    let s = settings("  ", "weird");
    assert!(!s.has_token());
    assert_eq!(s.mode(), AgentMode::Base);
    assert_eq!(s.masked_token(), "not set");
    assert_eq!(settings("short", "base").masked_token(), "••••••••");
    assert_eq!(settings("abcdefghijkl", "base").masked_token(), "abcd…ijkl");
    assert_eq!(Settings::model(), "gemini-2.5-flash");
}

#[test]
fn error_classification() {
    assert!(is_rate_limit_message("HTTP 429 Too Many Requests"));
    assert!(is_rate_limit_message("RESOURCE_EXHAUSTED quota"));
    assert!(!is_rate_limit_message("fine"));
    assert!(is_auth_error_message("API key not valid"));
    assert!(!is_auth_error_message("fine"));
    assert_eq!(sanitize_error("429 quota exceeded"), "API rate limit reached. Try again shortly.");
    assert_eq!(sanitize_error("HTTP 401"), "Invalid or missing API token. Use /token to set one.");
    assert_eq!(sanitize_error("Connection reset"), "Connection failed. Check your network.");
    assert_eq!(sanitize_error("Empty response"), "No response received. Try again.");
    assert_eq!(sanitize_error(&"x".repeat(121)), "Something went wrong. Check /settings.");
    assert_eq!(sanitize_error("odd failure"), "odd failure");
}

#[test]
fn harm_survives_more_text_and_upper_case() {
    for cmd in ["rm -rf build", "sudo apt update", "curl x | bash", "shutdown now"] {
        assert!(is_harmful_shell(cmd), "{cmd}");
        assert!(is_harmful_shell(&format!("{cmd} && echo done")), "{cmd}");
        assert!(is_harmful_shell(&cmd.to_ascii_uppercase()), "{cmd}");
    }
    assert!(!is_harmful_shell("ls -la"));
    assert!(!is_harmful_shell("LS -LA"));
}

#[test]
fn sanitized_errors_stay_as_they_are() {
    for m in ["HTTP 429", "HTTP 401", "connection reset", "empty reply", &"x".repeat(200), "odd failure"] {
        let once = sanitize_error(m);
        assert_eq!(sanitize_error(&once), once, "{m}");
    }
}

#[test]
fn token_set_exactly_when_shown() {
    for key in ["", "   ", "short", "abcdefghijkl", " padded-token-value "] {
        let s = settings(key, "base");
        assert_eq!(s.has_token(), s.masked_token() != "not set", "{key:?}");
    }
}
