use godmode::agent::AgentUpdate;
use godmode::errors::AppError;
use godmode::mode::AgentMode;
use godmode::settings::Settings;
use godmode::ui::chat::{build_chat_lines, Accent, BodyStyle, ChatLine};
use godmode::ui::keys::{KeyCase, KeyOutcome, KeyPress};
use godmode::ui::overlay::{handle_settings_key, settings_items, KeyCode, Overlay, OverlayAction, masked_field};
use godmode::ui::sidebar::{sidebar_rows, truncate_preview};
use godmode::ui::suggestions::{first_line_of, visible};
use godmode::ui::theme::{mode_title, pulse, spin};
use godmode::ui::wrap::{cursor_visual_index, inner_width, visual_segments, wrap_end};
use godmode::ui::chrome::{
    footer_hints, header_status, hint_keys, placeholder, rail_glyph, FooterHints, StatusTone,
};
use godmode::ui::mouse::MouseKind;
use godmode::ui::{AppState, ChatEntry, HistoryAnchor, Rect};

fn key(code: KeyCode) -> KeyPress {
    KeyPress { code, ctrl: false, shift: false, alt: false }
}

fn ctrl(code: KeyCode) -> KeyPress {
    KeyPress { code, ctrl: true, shift: false, alt: false }
}

fn body_texts(lines: &[ChatLine]) -> Vec<String> {
    lines
        .iter()
        .filter_map(|l| match l {
            ChatLine::Body { text, .. } => Some(text.clone()),
            _ => None,
        })
        .collect()
}

#[test]
fn typing_and_backspace_round_trip() {
    let mut s = AppState::new(AgentMode::Base, true);
    s.insert_char('h');
    s.insert_char('é');
    assert_eq!(s.input, "hé");
    assert_eq!(s.cursor, 3);
    s.backspace();
    assert_eq!(s.input, "h");
    assert_eq!(s.cursor, 1);
    s.move_cursor_left();
    assert_eq!(s.cursor, 0);
    s.move_cursor_right();
    assert_eq!(s.cursor, 1);
    s.insert_newline();
    assert_eq!(s.input, "h\n");
    s.clear_input();
    assert_eq!(s.input, "");
    assert_eq!(s.cursor, 0);
}

#[test]
fn no_typing_while_thinking() {
    let mut s = AppState::new(AgentMode::Base, true);
    s.is_thinking = true;
    assert!(!s.can_edit_input());
    s.insert_char('x');
    assert_eq!(s.input, "");
}

#[test]
fn palette_follows_input() {
    let mut s = AppState::new(AgentMode::Base, true);
    s.insert_char('/');
    s.insert_char('h');
    assert!(visible(&s));
    assert!(s.suggestion_matches.iter().all(|c| c.starts_with("/h")));
    let n = s.suggestion_matches.len();
    assert!(n > 0);
    s.suggestion_down();
    s.suggestion_up();
    assert_eq!(s.suggestion_pick, 0);
    s.apply_suggestion(0);
    assert!(s.input.starts_with(s.suggestion_matches[0]) || s.input.starts_with("/h"));
    assert_eq!(s.cursor, s.input.len());
}

#[test]
fn scrolling_stays_in_range() {
    let mut s = AppState::new(AgentMode::Base, true);
    s.last_line_count = 50;
    s.chat_viewport = 10;
    assert_eq!(s.max_scroll(), 40);
    s.scroll_to_bottom();
    assert_eq!(s.scroll, 40);
    s.scroll_up(5);
    assert_eq!(s.scroll, 35);
    assert!(!s.following);
    s.scroll_down(100);
    assert_eq!(s.scroll, 40);
    assert!(s.following);
    s.page_up();
    assert_eq!(s.scroll, 31);
    s.page_down();
    assert_eq!(s.scroll, 40);
}

#[test]
fn smooth_scroll_reaches_target() {
    let mut s = AppState::new(AgentMode::Base, true);
    s.last_line_count = 100;
    s.chat_viewport = 10;
    s.scroll = 0;
    s.begin_smooth_scroll_to(20);
    assert!(s.is_animating_scroll());
    let mut steps = 0;
    while s.tick_smooth_scroll() {
        steps += 1;
        assert!(s.scroll <= 20);
    }
    assert_eq!(s.scroll, 20);
    assert!(steps >= 4);
    assert!(!s.is_animating_scroll());
}

#[test]
fn smooth_scroll_far_down_the_transcript() {
    let mut s = AppState::new(AgentMode::Base, true);
    s.scroll = 5_000_000_000;
    s.scroll_target = Some(5_000_000_010);
    assert!(s.tick_smooth_scroll());
    assert_eq!(s.scroll, 5_000_000_003);
    s.scroll = usize::MAX - 2;
    s.scroll_target = Some(usize::MAX);
    assert!(s.tick_smooth_scroll());
    assert_eq!(s.scroll, usize::MAX - 1);
    assert!(s.tick_smooth_scroll());
    assert_eq!(s.scroll, usize::MAX);
    assert!(!s.tick_smooth_scroll());
    assert!(!s.is_animating_scroll());
}

#[test]
fn agent_updates_fill_transcript() {
    let mut s = AppState::new(AgentMode::Base, true);
    s.push_user("list files");
    s.is_thinking = true;
    s.apply_update(AgentUpdate::StartTool { name: "list_dir".to_string(), args: "path: .".to_string() });
    assert!(s.entries[1].is_running());
    s.apply_update(AgentUpdate::CompleteTool("a\nb".to_string()));
    assert!(!s.entries[1].is_running());
    s.apply_update(AgentUpdate::ApprovalNeeded { summary: "delete: x".to_string() });
    assert!(s.awaiting_approval);
    assert!(!s.is_thinking);
    assert!(matches!(&s.entries[2], ChatEntry::System { content } if content == "Approval required: delete: x"));
    s.clear_approval();
    s.apply_update(AgentUpdate::Assistant("done".to_string()));
    assert!(!s.is_thinking);
    s.apply_update(AgentUpdate::Done);
    assert!(!s.is_thinking);
    s.apply_update(AgentUpdate::FailTool("x".to_string()));
    assert_eq!(s.entries.len(), 4);
}

#[test]
fn transcript_lines_and_anchors() {
    let mut s = AppState::new(AgentMode::God, true);
    let (lines, anchors) = build_chat_lines(&s);
    assert_eq!(lines.len(), 12);
    assert!(anchors.is_empty());
    assert!(body_texts(&lines).contains(&"Mode: god — ask anything".to_string()));
    s.push_user("what is up\nsecond line");
    s.start_tool("run_shell", "command: ls");
    s.complete_tool("one\ntwo");
    s.push_assistant("all good");
    s.push_user("/help");
    s.push_system("note");
    let (lines, anchors) = build_chat_lines(&s);
    assert_eq!(anchors.len(), 1);
    assert_eq!(anchors[0].preview, "what is up");
    assert!(matches!(&lines[anchors[0].line], ChatLine::CardOpen { label, accent: Accent::User } if label == "YOU"));
    let texts = body_texts(&lines);
    assert!(texts.contains(&"what is up".to_string()));
    assert!(texts.contains(&"▸ run_shell".to_string()));
    assert!(texts.contains(&"   command: ls".to_string()));
    assert!(texts.contains(&"all good".to_string()));
    assert!(matches!(lines.last(), Some(ChatLine::Blank)));
}

#[test]
fn tool_output_preview_is_capped() {
    let mut s = AppState::new(AgentMode::Base, true);
    s.start_tool("grep", "");
    let out: Vec<String> = (0..20).map(|i| format!("row{i}")).collect();
    s.complete_tool(&out.join("\n"));
    let (lines, _) = build_chat_lines(&s);
    assert!(matches!(&lines[1], ChatLine::CardOpen { label, accent: Accent::Tool } if label == "GREP"));
    let texts = body_texts(&lines);
    assert!(texts.contains(&"row15".to_string()));
    assert!(!texts.contains(&"row16".to_string()));
    assert!(texts.contains(&"… 4 more lines".to_string()));
}

#[test]
fn thinking_and_approval_banners() {
    let mut s = AppState::new(AgentMode::Base, true);
    s.push_user("q");
    s.is_thinking = true;
    s.spinner_frame = 9;
    let (lines, _) = build_chat_lines(&s);
    assert!(matches!(lines.last(), Some(ChatLine::Banner { text, accent: Accent::Busy }) if text == "thinking ⣽"));
    s.request_approval("http: x");
    let (lines, _) = build_chat_lines(&s);
    assert!(matches!(lines.last(), Some(ChatLine::Banner { text, accent: Accent::Warn }) if text == "approve? http: x"));
}

#[test]
fn layout_keeps_pick_and_scroll() {
    let mut s = AppState::new(AgentMode::Base, true);
    s.sidebar_pick = 5;
    s.following = false;
    s.scroll = 99;
    let anchors = vec![
        HistoryAnchor { line: 0, preview: "a".to_string() },
        HistoryAnchor { line: 10, preview: "b".to_string() },
    ];
    s.place_transcript(30, anchors, 10);
    assert_eq!(s.sidebar_pick, 1);
    assert_eq!(s.last_line_count, 30);
    assert_eq!(s.chat_viewport, 10);
    assert_eq!(s.scroll, 20);
    s.jump_to_history(1);
    assert_eq!(s.sidebar_pick, 1);
    assert!(s.is_animating_scroll());
}

#[test]
fn keys_select_actions() {
    let mut s = AppState::new(AgentMode::Base, true);
    assert!(s.ready_for_keys());
    assert_eq!(s.route_key(ctrl(KeyCode::Char('q'))), KeyCase::Quit);
    assert_eq!(s.route_key(key(KeyCode::Char('k'))), KeyCase::ScrollUp);
    assert_eq!(s.route_key(key(KeyCase_char('h'))), KeyCase::ToggleSidebar);
    assert!(matches!(s.handle_key(key(KeyCode::Char('x'))), KeyOutcome::Redraw));
    assert_eq!(s.input, "x");
    assert_eq!(s.route_key(key(KeyCode::Char('k'))), KeyCase::Type('k'));
    assert!(matches!(s.handle_key(key(KeyCode::Enter)), KeyOutcome::Prompt(p) if p == "x"));
    assert_eq!(s.input, "");
    for c in "/clear".chars() {
        s.handle_key(key(KeyCode::Char(c)));
    }
    assert!(matches!(s.handle_key(key(KeyCode::Enter)), KeyOutcome::Command(c) if c == "/clear"));
    assert!(matches!(s.handle_key(key(KeyCode::Enter)), KeyOutcome::Nothing));
    s.request_approval("delete: x");
    assert!(matches!(s.handle_key(key(KeyCode::Char('y'))), KeyOutcome::Answer(true)));
    assert!(!s.awaiting_approval);
    s.request_approval("delete: x");
    assert!(matches!(s.handle_key(key(KeyCode::Esc)), KeyOutcome::Answer(false)));
    s.open_token_overlay(true);
    assert!(matches!(s.handle_key(key(KeyCode::Enter)), KeyOutcome::ToPanel));
}

#[allow(non_snake_case)]
fn KeyCase_char(c: char) -> KeyCode {
    KeyCode::Char(c)
}

#[test]
fn token_panel_saves_token() {
    let mut s = AppState::new(AgentMode::Base, false);
    s.open_token_overlay(false);
    for c in "abc".chars() {
        assert!(matches!(s.handle_overlay_key(KeyCode::Char(c)), OverlayAction::Nothing));
    }
    match s.handle_overlay_key(KeyCode::Enter) {
        OverlayAction::SaveToken(t) => assert_eq!(t, "abc"),
        _ => panic!("expected a save"),
    }
    assert!(s.token_saved(Err(AppError::Io("read-only".to_string()))).is_none());
    assert!(matches!(&s.overlay, Overlay::TokenEntry { error: Some(e), .. } if e == "Failed to save: IO error: read-only"));
    assert_eq!(s.token_saved(Ok(())), Some("API token saved.".to_string()));
    assert!(s.has_token);
    assert!(!s.has_overlay());
}

#[test]
fn settings_panel_changes_mode() {
    let mut s = AppState::new(AgentMode::Base, true);
    s.open_settings_overlay("••••••••".to_string(), AgentMode::Base, "/cfg".to_string());
    let rows = settings_items("••••••••", AgentMode::Base);
    assert_eq!(rows.len(), 3);
    assert_eq!(rows[0].label, "Token");
    let mut pick = 0usize;
    let mut mode = AgentMode::Base;
    handle_settings_key(&mut pick, &mut mode, KeyCode::Down);
    assert_eq!(pick, 1);
    let msg = s.mode_saved(AgentMode::God, "x".to_string(), "/cfg".to_string(), Ok(()));
    assert_eq!(msg, "Mode set to god — fully unrestricted");
    assert_eq!(s.mode, AgentMode::God);
    let msg = s.mode_saved(AgentMode::Base, "x".to_string(), "/cfg".to_string(), Err(AppError::Config("bad".to_string())));
    assert_eq!(msg, "Failed to save mode: Config error: bad");
    assert_eq!(s.mode, AgentMode::God);
}

#[test]
fn command_replies_drive_the_view() {
    let mut s = AppState::new(AgentMode::Base, false);
    let settings = Settings { api_key: "secret-token-1234".to_string(), mode: "god".to_string() };
    s.push_user("hi");
    assert!(s.apply_command_reply("__CLEAR__", &settings, "/cfg"));
    assert_eq!(s.entries.len(), 1);
    assert!(matches!(&s.entries[0], ChatEntry::System { content } if content == "Conversation cleared."));
    assert_eq!(s.mode, AgentMode::God);
    assert!(s.has_token);
    assert!(!s.apply_command_reply("__HISTORY_TOGGLE__", &settings, "/cfg"));
    assert!(s.sidebar_open);
    assert!(matches!(s.entries.last(), Some(ChatEntry::System { content }) if content == "History sidebar opened."));
    s.apply_command_reply("__OPEN_SETTINGS__", &settings, "/cfg");
    assert!(matches!(&s.overlay, Overlay::Settings { masked_token, config_path, .. } if masked_token == "secr…1234" && config_path == "/cfg"));
    s.close_overlay();
    s.apply_command_reply("plain reply", &settings, "/cfg");
    assert!(matches!(s.entries.last(), Some(ChatEntry::System { content }) if content == "plain reply"));
}

#[test]
fn text_helpers() {
    assert_eq!(first_line_of("a\r\nb"), "a");
    assert_eq!(first_line_of("abc"), "abc");
    assert_eq!(truncate_preview("  hello world  ", 5), "hel…");
    assert_eq!(spin(9), "⣽");
    assert_eq!(pulse(4), "●");
    assert_eq!(mode_title(AgentMode::God), "GOD");
    assert_eq!(inner_width(20), 14);
    assert_eq!(inner_width(5), 8);
    assert_eq!(wrap_end("hello world foo", 0, 8), 5);
    let segs = visual_segments("ab\ncd", 10);
    assert_eq!(segs.len(), 2);
    assert_eq!((segs[0].start, segs[0].end, segs[0].show_prompt), (0, 2, true));
    assert_eq!((segs[1].start, segs[1].end, segs[1].show_prompt), (3, 5, false));
    assert_eq!(cursor_visual_index(&segs, 4), 1);
}

#[test]
fn chat_entry_styles() {
    let mut s = AppState::new(AgentMode::Base, true);
    s.push_error("boom");
    let (lines, _) = build_chat_lines(&s);
    assert!(matches!(&lines[1], ChatLine::CardOpen { label, accent: Accent::Error } if label == "ERROR"));
    assert!(matches!(&lines[2], ChatLine::Body { text, style: BodyStyle::Error } if text == "boom"));
}

#[test]
fn chrome_decisions() {
    let mut s = AppState::new(AgentMode::Base, false);
    assert_eq!(header_status(&s), ("READY", "○", StatusTone::Ready));
    assert_eq!(rail_glyph(&s), "┃");
    assert_eq!(placeholder(&s), "set token to start — type /token");
    assert_eq!(footer_hints(&s), FooterHints::Idle);
    assert_eq!(hint_keys(FooterHints::Idle)[0], ("/history", "sidebar"));
    s.is_thinking = true;
    s.spinner_frame = 2;
    assert_eq!(header_status(&s), ("BUSY", "⣻", StatusTone::Busy));
    assert_eq!(rail_glyph(&s), "⣻");
    assert_eq!(placeholder(&s), "waiting...");
    s.request_approval("x");
    assert_eq!(header_status(&s).0, "APPROVE");
    assert_eq!(footer_hints(&s), FooterHints::Approval);
    assert_eq!(hint_keys(FooterHints::Approval), vec![("y", "approve"), ("n", "deny"), ("esc", "cancel")]);
}

#[test]
fn mouse_wheel_and_clicks() {
    let mut s = AppState::new(AgentMode::Base, true);
    s.last_line_count = 100;
    s.chat_viewport = 10;
    s.scroll = 50;
    s.following = false;
    s.hitboxes.chat_inner = Rect { x: 10, y: 5, width: 50, height: 20 };
    assert!(s.ready_for_mouse());
    assert!(s.handle_mouse(MouseKind::ScrollUp, 20, 10));
    assert_eq!(s.scroll, 47);
    assert!(s.handle_mouse(MouseKind::ScrollDown, 20, 10));
    assert_eq!(s.scroll, 50);
    assert!(!s.handle_mouse(MouseKind::ScrollUp, 0, 0));
    assert!(!s.handle_mouse(MouseKind::Other, 20, 10));
    assert!(s.handle_mouse(MouseKind::LeftDown, 20, 8));
    assert_eq!(s.scroll_target, Some(53));
    s.hitboxes.sidebar_toggle = Rect { x: 0, y: 0, width: 4, height: 30 };
    assert!(s.handle_mouse(MouseKind::LeftDown, 1, 1));
    assert!(s.sidebar_open);
}

#[test]
fn sidebar_list_placement() {
    let mut s = AppState::new(AgentMode::Base, true);
    s.history_anchors = (0..10).map(|i| HistoryAnchor { line: i * 3, preview: format!("q{i}") }).collect();
    s.sidebar_scroll = 9;
    s.place_sidebar_list(4);
    assert_eq!(s.sidebar_viewport, 4);
    assert_eq!(s.sidebar_scroll, 6);
    s.sidebar_pick = 9;
    s.sidebar_down();
    assert_eq!(s.sidebar_pick, 0);
    s.sidebar_up();
    assert_eq!(s.sidebar_pick, 9);
}

#[test]
fn prompts_start_turns_only_with_a_token() {
    let mut s = AppState::new(AgentMode::Base, false);
    assert!(!s.begin_prompt("hello", false));
    assert!(matches!(&s.overlay, Overlay::TokenEntry { dismissable: false, .. }));
    assert!(s.entries.is_empty());
    let mut s = AppState::new(AgentMode::Base, true);
    assert!(s.turn_settled());
    assert!(s.begin_prompt("hello", true));
    assert!(s.is_thinking);
    assert!(!s.turn_settled());
    assert!(matches!(&s.entries[0], ChatEntry::User { content } if content == "hello"));
}

#[test]
fn token_field_is_masked() {
    let f = masked_field("", 0);
    assert!(f.placeholder);
    assert_eq!(f.shown, "paste your key here");
    assert_eq!(f.cursor, 0);
    let f = masked_field("aé1", 3);
    assert!(!f.placeholder);
    assert_eq!(f.shown, "•••");
    assert_eq!(f.cursor, 2);
    let f = masked_field("abc", 3);
    assert_eq!(f.cursor, 3);
}

#[test]
fn sidebar_rows_follow_the_scroll() {
    let list = Rect { x: 3, y: 10, width: 20, height: 4 };
    let rows = sidebar_rows(list, 6, 4, 8, 13);
    assert_eq!(rows.len(), 2);
    assert_eq!((rows[0].question, rows[0].index), (6, 12));
    assert_eq!((rows[1].question, rows[1].index), (7, 13));
    assert!(!rows[0].selected);
    assert!(rows[1].selected);
    let c = rows[1].cell;
    assert_eq!((c.x, c.y, c.width, c.height), (3, 17, 20, 1));
    let top = sidebar_rows(list, 0, 4, 10, 0);
    assert_eq!(top.len(), 4);
    assert_eq!((top[2].question, top[2].index, top[2].cell.y), (2, 2, 12));
    assert!(top[0].selected);
    assert!(sidebar_rows(list, 9, 4, 3, 0).is_empty());
}
