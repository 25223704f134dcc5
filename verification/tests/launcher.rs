use recentry::ui::{
    capture_hotkey, control_action, idle_exit_due, counter_text, diagnostic_line, diagnostics_details,
    empty_message, hit_row, key_action, language_at, language_index, launcher_height,
    layout_launcher, layout_settings, on_activate, on_focus_check, pipe_response, rgb, row_paint,
    row_selected, row_text, save_outcome, scale, settings_config, theme_colors, ControlAction,
    KeyAction, Placement, Rect, SaveOutcome, VK_DOWN, VK_ESCAPE, VK_F1, VK_RETURN, VK_SHIFT, VK_UP,
};
use recentry::{
    Config, DiagnosticLevel, HostResponse, Hotkey, Language, LauncherState, ProjectId, ProjectKind,
    ProjectTarget, ProviderDiagnostic, ProviderId, RecentProject, UiCommand, UiResponse,
};

fn project(name: &str, recent_index: u32) -> RecentProject {
    RecentProject {
        id: ProjectId(name.to_owned()),
        provider: ProviderId("vscode".to_owned()),
        kind: ProjectKind::Folder,
        target: ProjectTarget::LocalPath(format!(r"C:\work\{name}")),
        name: name.to_owned(),
        detail: format!(r"C:\work\{name}"),
        recent_index,
    }
}

#[test]
fn reset_query_restores_recent_order_and_first_selection() {
    let mut state = LauncherState::default();
    state.set_projects(vec![project("older", 1), project("newer", 0)]);
    state.set_query("older");
    assert_eq!(state.visible()[0].name, "older");
    state.reset_query();
    assert_eq!(
        state
            .visible()
            .iter()
            .map(|project| project.name.as_str())
            .collect::<Vec<_>>(),
        vec!["newer", "older"]
    );
    assert_eq!(state.selected_index(), Some(0));
}

#[test]
fn selection_is_clamped_to_visible_results() {
    let mut state = LauncherState::default();
    state.set_projects(vec![project("one", 0), project("two", 1)]);
    state.reset_query();
    state.move_selection(10);
    assert_eq!(state.selected().unwrap().name, "two");
    state.set_query("one");
    assert_eq!(state.selected().unwrap().name, "one");
    state.set_query("missing");
    assert!(state.selected().is_none());
}

#[test]
fn direct_selection_is_clamped_to_visible_results() {
    let mut state = LauncherState::default();
    state.set_projects(vec![project("one", 0), project("two", 1)]);
    state.select_index(1);
    assert_eq!(state.selected().unwrap().name, "two");
    state.select_index(99);
    assert_eq!(state.selected().unwrap().name, "two");
}

#[test]
fn moving_up_stops_at_the_first_row() {
    let mut state = LauncherState::new();
    state.set_projects(vec![project("one", 0), project("two", 1), project("three", 2)]);
    state.move_selection(2);
    assert_eq!(state.selected_index(), Some(2));
    state.move_selection(-5);
    assert_eq!(state.selected_index(), Some(0));
    assert_eq!(LauncherState::new().selected_index(), None);
}

#[test]
fn lengths_scale_with_the_display_density() {
    assert_eq!(scale(10, 96), 10);
    assert_eq!(scale(10, 144), 15);
    assert_eq!(scale(24, 120), 30);
    assert_eq!(scale(-10, 144), -14);
    assert_eq!(launcher_height(), 328);
}

#[test]
fn colors_pack_red_green_blue() {
    assert_eq!(rgb(1, 2, 3), 0x030201);
    assert_eq!(theme_colors(true).surface, rgb(24, 25, 27));
    assert_eq!(theme_colors(false).selected, rgb(17, 78, 91));
    assert_eq!(theme_colors(false).selected_text, 0xffffff);
}

#[test]
fn launcher_controls_share_the_header() {
    let layout = layout_launcher(760, 328, 96);
    assert_eq!(layout.prompt, Placement { x: 10, y: 0, width: 84, height: 36 });
    assert_eq!(layout.edit, Placement { x: 94, y: 4, width: 598, height: 28 });
    assert_eq!(layout.hint, layout.edit);
    assert_eq!(layout.status, Placement { x: 692, y: 0, width: 58, height: 36 });
    assert_eq!(layout.list, Placement { x: 0, y: 36, width: 760, height: 292 });
    let settings = layout_settings(192);
    assert_eq!(settings.len(), 9);
    assert_eq!(settings[8], Placement { x: 870, y: 470, width: 180, height: 60 });
}

#[test]
fn rows_paint_tag_name_and_detail_in_columns() {
    let theme = theme_colors(false);
    let item = Rect { left: 0, top: 24, right: 760, bottom: 48 };
    let row = project("recentry", 0);
    let paint = row_paint(item, 96, false, &theme, Some(&row), "none");
    assert_eq!(paint.background, theme.surface);
    assert_eq!(paint.runs.len(), 3);
    assert_eq!(paint.runs[0].text, "[VSCode]");
    assert_eq!(paint.runs[0].color, theme.accent);
    assert_eq!(paint.runs[0].rect, Rect { left: 10, top: 24, right: 88, bottom: 48 });
    assert_eq!(paint.runs[1].rect, Rect { left: 88, top: 24, right: 298, bottom: 48 });
    assert_eq!(paint.runs[2].text, r"C:\work\recentry");
    assert_eq!(paint.runs[2].rect, Rect { left: 306, top: 24, right: 750, bottom: 48 });

    let selected = row_paint(item, 96, true, &theme, Some(&row), "none");
    assert_eq!(selected.background, theme.selected);
    assert!(selected.runs.iter().all(|run| run.color == theme.selected_text));

    let empty = row_paint(item, 96, true, &theme, None, "No recent projects found");
    assert_eq!(empty.runs.len(), 1);
    assert_eq!(empty.runs[0].text, "No recent projects found");
    assert_eq!(empty.runs[0].color, theme.muted);
    assert!(row_selected(3, 3));
    assert!(!row_selected(-1, u32::MAX));
}

#[test]
fn list_texts_name_projects_and_diagnostics() {
    assert_eq!(row_text(&project("app", 0)), r"[VSCode] app  C:\work\app");
    let diagnostic = ProviderDiagnostic {
        level: DiagnosticLevel::Error,
        code: "vscode_not_found".to_owned(),
        message: "missing".to_owned(),
    };
    let line = diagnostic_line(&diagnostic);
    assert_eq!(line, "Error vscode_not_found: missing");
    let lines = vec!["Info a: b".to_owned(), line.clone(), "Error later: c".to_owned()];
    assert_eq!(empty_message(&lines, false), line);
    assert_eq!(empty_message(&lines[..1], false), "No recent projects found");
    assert_eq!(empty_message(&[], true), "未找到最近项目");
    assert_eq!(counter_text(12, Some(0)), "1/12");
    assert_eq!(counter_text(0, None), "0/0");
}

#[test]
fn diagnostics_append_provider_lines_under_a_heading() {
    assert_eq!(diagnostics_details("host", &[]), "host");
    assert_eq!(
        diagnostics_details("host", &["a".to_owned(), "b".to_owned()]),
        "host\n\nVS Code provider:\na\nb"
    );
}

#[test]
fn host_commands_are_answered_once_handled() {
    assert_eq!(pipe_response(&UiCommand::Show), UiResponse::Ready);
    assert_eq!(pipe_response(&UiCommand::Hide), UiResponse::Hidden);
    assert_eq!(pipe_response(&UiCommand::Settings(Config::default())), UiResponse::Shown);
    assert_eq!(pipe_response(&UiCommand::Quit), UiResponse::Quitting);
}

#[test]
fn keys_drive_the_visible_window() {
    assert_eq!(key_action(false, false, true, VK_DOWN), KeyAction::MoveDown);
    assert_eq!(key_action(false, false, true, VK_UP), KeyAction::MoveUp);
    assert_eq!(key_action(false, false, true, VK_RETURN), KeyAction::OpenSelected);
    assert_eq!(key_action(false, false, true, VK_ESCAPE), KeyAction::HideLauncher);
    assert_eq!(key_action(false, false, false, VK_ESCAPE), KeyAction::Unhandled);
    assert_eq!(key_action(true, true, true, VK_ESCAPE), KeyAction::CloseSettings);
    assert_eq!(key_action(true, true, true, 0x41), KeyAction::CaptureHotkey);
    assert_eq!(key_action(true, false, true, 0x41), KeyAction::Unhandled);
}

#[test]
fn hotkeys_are_captured_from_named_keys_with_a_modifier() {
    let config = Config::default();
    assert_eq!(capture_hotkey(VK_SHIFT, true, false, true, false, &config), None);
    let captured = capture_hotkey(0x4B, true, false, true, false, &config).unwrap();
    assert_eq!(
        captured,
        Hotkey { ctrl: true, alt: false, shift: true, win: false, key: "K".to_owned() }
    );
    let function = capture_hotkey(VK_F1 + 11, false, true, false, false, &config).unwrap();
    assert_eq!(function.key, "F12");
    assert_eq!(capture_hotkey(0x4B, false, false, false, false, &config), None);
    assert_eq!(capture_hotkey(0x20, true, false, false, false, &config), None);
}

#[test]
fn notifications_and_focus_changes_drive_the_launcher() {
    assert_eq!(control_action(10 | (0x0300 << 16)), ControlAction::Refresh);
    assert_eq!(control_action(13), ControlAction::FocusFilter);
    assert_eq!(control_action(11 | (1 << 16)), ControlAction::FollowSelection);
    assert_eq!(control_action(11 | (2 << 16)), ControlAction::OpenRow);
    assert_eq!(control_action(12), ControlAction::Ignore);
    assert_eq!(on_activate(true, true, false), (true, true));
    assert_eq!(on_activate(true, true, true), (true, false));
    assert_eq!(on_activate(false, false, false), (true, false));
    assert_eq!(on_focus_check(true, false, true), (true, true));
    assert_eq!(on_focus_check(true, true, false), (true, false));
    assert_eq!(on_focus_check(false, false, true), (true, false));
    assert_eq!(hit_row(5), Some(5));
    assert_eq!(hit_row(0x0001_0005), None);
}

#[test]
fn settings_form_saves_a_trimmed_path_and_completes_the_first_run() {
    let base = Config::default();
    let saved = settings_config(&base, Language::En, Hotkey::default(), true, "  /opt/code  ");
    assert_eq!(saved.language, Language::En);
    assert!(saved.autostart && saved.first_run_completed);
    assert_eq!(saved.vscode_path_override.as_deref(), Some("/opt/code"));
    assert_eq!(
        settings_config(&base, Language::System, Hotkey::default(), false, "   ")
            .vscode_path_override,
        None
    );
    assert_eq!(language_index(Language::ZhCn), 1);
    assert_eq!(language_at(2), Language::En);
    assert_eq!(language_at(-1), Language::System);
}

#[test]
fn host_replies_to_a_save_are_explained() {
    assert_eq!(save_outcome(Ok(HostResponse::Saved)), SaveOutcome::Saved);
    assert_eq!(
        save_outcome(Ok(HostResponse::Error("invalid".to_owned()))),
        SaveOutcome::Failed("invalid".to_owned())
    );
    assert_eq!(
        save_outcome(Ok(HostResponse::Pong)),
        SaveOutcome::Failed("unexpected host response: Pong".to_owned())
    );
    assert_eq!(
        save_outcome(Err("timeout".to_owned())),
        SaveOutcome::Failed("timeout".to_owned())
    );
}

#[test]
fn a_hidden_launcher_exits_after_fifteen_minutes() {
    assert!(!idle_exit_due(None));
    assert!(!idle_exit_due(Some(0)));
    assert!(!idle_exit_due(Some(899)));
    assert!(idle_exit_due(Some(900)));
    assert!(idle_exit_due(Some(3600)));
}
