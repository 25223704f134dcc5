use std::sync::{Arc, Mutex};

use recentry::coordinator::UiSession;
use recentry::format::fingerprint;
use recentry::paths::PlatformKind;
use recentry::startup::{
    after_contact, first_run_answer, first_run_failed, first_run_failure_message, first_run_prompt,
    forward_reply, initial_ui_command, linux_config_path, needs_first_run_prompt, startup_config,
    tray_choice, tray_click, tray_labels, uses_chinese, windows_config_path, ClientNext,
    TrayChoice, TrayClick, ANSWER_YES,
};
use recentry::{
    autostart_command, desktop_exec, hotkey_status_text, loaded_config, parse_action,
    restart_failure, should_restart, temporary_path, ui_response, win32_hotkey, xdg_desktop_entry,
    Config, ConfigError, ConfigRead, ConfigStore, ConfigWriter, HostAdapter, HostCommand,
    HostResponse, HostRuntime, Hotkey, Language, LoadedConfig, RequestedAction, UiAction, UiCommand,
    UiEvent, UiPhase, UiResponse, CONFIG_VERSION,
};

#[test]
fn autostart_uses_non_interactive_background_mode() {
    assert_eq!(
        autostart_command(r"C:\Program Files\Recentry\recentry.exe"),
        r#""C:\Program Files\Recentry\recentry.exe" --background"#
    );
}

#[test]
fn converts_default_and_function_hotkeys() {
    let (_, key) = win32_hotkey(&Hotkey::default()).unwrap();
    assert_eq!(key, u32::from(b'R'));
    let (_, key) = win32_hotkey(&Hotkey {
        key: "F12".to_owned(),
        ..Hotkey::default()
    })
    .unwrap();
    assert_eq!(key, 0x7b);
}

#[test]
fn visible_commands_restart_after_a_broken_ui() {
    assert!(should_restart(&UiCommand::Show));
    assert!(should_restart(&UiCommand::Settings(Default::default())));
    assert!(should_restart(&UiCommand::Diagnostics(String::new())));
    assert!(!should_restart(&UiCommand::Hide));
    assert!(!should_restart(&UiCommand::Quit));
}

#[test]
fn rejects_control_characters_in_an_exec_path() {
    assert!(desktop_exec("/tmp/recentry\nother").is_err());
    assert!(desktop_exec("/tmp/recentry=other").is_err());
}

#[derive(Clone, Default)]
struct FakeAdapter {
    calls: Arc<Mutex<Vec<String>>>,
    hotkey_error: Arc<Mutex<Option<String>>>,
    ui_error: Arc<Mutex<Option<String>>>,
    autostart_error: Arc<Mutex<Option<String>>>,
}

impl HostAdapter for FakeAdapter {
    fn request_ui(&self, command: UiCommand) -> Result<UiResponse, String> {
        self.calls.lock().unwrap().push(format!("ui:{command:?}"));
        if let Some(error) = self.ui_error.lock().unwrap().clone() {
            Err(error)
        } else {
            Ok(UiResponse::Shown)
        }
    }

    fn set_autostart(&self, enabled: bool, _executable: &str) -> Result<(), String> {
        self.calls
            .lock()
            .unwrap()
            .push(format!("autostart:{enabled}"));
        match self.autostart_error.lock().unwrap().clone() {
            Some(error) if enabled => Err(error),
            _ => Ok(()),
        }
    }

    fn register_hotkey(&self, hotkey: &Hotkey) -> Result<(), String> {
        self.calls
            .lock()
            .unwrap()
            .push(format!("hotkey:{}", hotkey.display()));
        match self.hotkey_error.lock().unwrap().clone() {
            Some(error) => Err(error),
            None => Ok(()),
        }
    }

    fn configuration_changed(&self) {
        self.calls
            .lock()
            .unwrap()
            .push("configuration_changed".to_owned());
    }

    fn notify(&self, title: &str, message: &str, error: bool) {
        self.calls
            .lock()
            .unwrap()
            .push(format!("notify:{title}:{message}:{error}"));
    }
}

#[derive(Clone, Default)]
struct MemoryWriter {
    saved: Arc<Mutex<Vec<Config>>>,
    failure: Option<String>,
}

impl ConfigWriter for MemoryWriter {
    fn save(&self, config: &Config) -> Result<(), String> {
        match &self.failure {
            Some(error) => Err(error.clone()),
            None => {
                self.saved.lock().unwrap().push(config.clone());
                Ok(())
            }
        }
    }
}

fn runtime(path: &str, adapter: FakeAdapter, writer: MemoryWriter) -> HostRuntime<FakeAdapter, MemoryWriter> {
    HostRuntime::new(
        ConfigStore::new(path.to_owned()),
        Config::default(),
        "recentry".to_owned(),
        adapter,
        writer,
    )
}

#[test]
fn routes_ui_and_reports_failures_without_exposing_adapter_details() {
    let adapter = FakeAdapter::default();
    let mut runtime = runtime("/tmp/recentry-test/config.json", adapter.clone(), MemoryWriter::default());

    assert_eq!(runtime.dispatch(HostCommand::Ping), HostResponse::Pong);
    assert_eq!(runtime.dispatch(HostCommand::Show), HostResponse::Accepted);
    assert_eq!(
        runtime.dispatch(HostCommand::Diagnostics),
        HostResponse::Accepted
    );

    *adapter.ui_error.lock().unwrap() = Some("UI crashed".to_owned());
    assert_eq!(
        runtime.dispatch(HostCommand::Show),
        HostResponse::Error("UI crashed".to_owned())
    );
    assert_eq!(runtime.dispatch(HostCommand::Quit), HostResponse::Bye);
}

#[test]
fn successful_save_defers_platform_reconfiguration_to_the_platform_thread() {
    let adapter = FakeAdapter::default();
    let writer = MemoryWriter::default();
    let mut runtime = runtime("/tmp/recentry-test/config.json", adapter.clone(), writer.clone());
    let updated = Config {
        first_run_completed: true,
        ..Config::default()
    };

    assert_eq!(
        runtime.dispatch(HostCommand::SaveConfig(updated.clone())),
        HostResponse::Saved
    );
    assert_eq!(runtime.config(), updated);
    assert_eq!(
        adapter.calls.lock().unwrap().as_slice(),
        ["autostart:false", "configuration_changed"]
    );
    assert_eq!(writer.saved.lock().unwrap().as_slice(), [updated]);
}

#[test]
fn hotkey_conflict_is_diagnostic_and_keeps_the_host_available() {
    let adapter = FakeAdapter::default();
    *adapter.hotkey_error.lock().unwrap() = Some("already registered".to_owned());
    let mut runtime = runtime("/tmp/recentry-test/config.json", adapter.clone(), MemoryWriter::default());

    runtime.apply_hotkey();

    assert_eq!(runtime.hotkey_status(), "conflict: already registered");
    assert!(adapter.calls.lock().unwrap().iter().any(|call| {
        call.contains("notify:Recentry hotkey") && call.contains("use the tray")
    }));
}

#[test]
fn failed_persistence_rolls_back_autostart() {
    let adapter = FakeAdapter::default();
    let writer = MemoryWriter {
        failure: Some("disk full".to_owned()),
        ..MemoryWriter::default()
    };
    let mut runtime = runtime("/tmp/recentry-test/config.json", adapter.clone(), writer);
    let updated = Config {
        autostart: true,
        first_run_completed: true,
        ..Config::default()
    };
    assert_eq!(
        runtime.dispatch(HostCommand::SaveConfig(updated)),
        HostResponse::Error("disk full".to_owned())
    );
    assert_eq!(runtime.config(), Config::default());
    assert!(adapter
        .calls
        .lock()
        .unwrap()
        .ends_with(&["autostart:true".to_owned(), "autostart:false".to_owned()]));
}

#[test]
fn invalid_configuration_is_refused_before_any_side_effect() {
    let adapter = FakeAdapter::default();
    let mut runtime = runtime("/tmp/recentry-test/config.json", adapter.clone(), MemoryWriter::default());
    let mut invalid = Config::default();
    invalid.version = CONFIG_VERSION + 1;
    assert_eq!(
        runtime.dispatch(HostCommand::SaveConfig(invalid)),
        HostResponse::Error("unsupported config version 2".to_owned())
    );
    assert!(adapter.calls.lock().unwrap().is_empty());
}

#[test]
fn diagnostics_name_the_configuration_only_by_fingerprint() {
    let adapter = FakeAdapter::default();
    let path = "/home/secret-user/.config/recentry/config.json";
    let mut runtime = runtime(path, adapter, MemoryWriter::default());
    runtime.apply_hotkey();
    let text = runtime.diagnostics();
    assert_eq!(
        text,
        format!(
            "Recentry 0.1.0-beta.4\nHotkey: registered Ctrl+Alt+R\nAutostart: false\nConfig: cfg#{}\nTelemetry: disabled\nNetwork: disabled",
            fingerprint(path)
        )
    );
    assert!(!text.contains("secret-user"));
}

#[test]
fn hotkey_status_names_the_hotkey_or_the_conflict() {
    let hotkey = Hotkey::default();
    assert_eq!(hotkey_status_text(&hotkey, &Ok(())), "registered Ctrl+Alt+R");
    assert_eq!(
        hotkey_status_text(&hotkey, &Err("busy".to_owned())),
        "conflict: busy"
    );
}

#[test]
fn ui_answers_map_to_host_replies() {
    assert_eq!(ui_response(Ok(UiResponse::Ready)), HostResponse::Accepted);
    assert_eq!(
        ui_response(Ok(UiResponse::Error("bad".to_owned()))),
        HostResponse::Error("bad".to_owned())
    );
    assert_eq!(
        ui_response(Err("gone".to_owned())),
        HostResponse::Error("gone".to_owned())
    );
}

#[test]
fn command_line_actions_are_recognized() {
    assert_eq!(parse_action(None), RequestedAction::Show);
    assert_eq!(parse_action(Some("--background")), RequestedAction::Background);
    assert_eq!(parse_action(Some("settings")), RequestedAction::Settings);
    assert_eq!(parse_action(Some("diagnostics")), RequestedAction::Diagnostics);
    assert_eq!(parse_action(Some("quit")), RequestedAction::Quit);
    assert_eq!(parse_action(Some("Show")), RequestedAction::Invalid);
    assert_eq!(RequestedAction::Show.command(), Some(HostCommand::Show));
    assert_eq!(RequestedAction::Background.command(), None);
    assert!(RequestedAction::Diagnostics.opens_ui());
    assert!(!RequestedAction::Quit.opens_ui());
}

#[test]
fn restart_failures_carry_both_errors() {
    assert_eq!(
        restart_failure("pipe broke", "spawn failed", true),
        "pipe broke; restart failed: spawn failed"
    );
    assert_eq!(
        restart_failure("pipe broke", "timeout", false),
        "pipe broke; restart transaction failed: timeout"
    );
}

#[test]
fn xdg_entry_runs_the_host_in_background_mode() {
    let entry =
        xdg_desktop_entry(r"/opt/Recentry %build $channel/back\slash/recentry").unwrap();
    assert!(entry.contains(
        r#"Exec="/opt/Recentry %%build \\$channel/back\\\\slash/recentry" --background"#
    ));
    assert!(!entry.contains("sh -c"));
    assert!(xdg_desktop_entry("/tmp/a\tb").is_err());
}

#[test]
fn configuration_reads_become_loaded_configurations_or_errors() {
    let fresh = loaded_config(ConfigRead::Missing).unwrap();
    assert!(fresh.is_new);
    assert_eq!(fresh.config, Config::default());

    let saved = Config {
        language: Language::ZhCn,
        autostart: true,
        first_run_completed: true,
        ..Config::default()
    };
    assert_eq!(
        loaded_config(ConfigRead::Parsed(saved.clone())).unwrap(),
        LoadedConfig {
            config: saved,
            is_new: false
        }
    );
    let mut invalid = Config::default();
    invalid.hotkey.key = "Home".to_owned();
    assert_eq!(
        loaded_config(ConfigRead::Parsed(invalid)).unwrap_err(),
        ConfigError::Invalid("hotkey key must be A-Z, 0-9, or F1-F24".to_owned())
    );
    assert_eq!(
        loaded_config(ConfigRead::Malformed("EOF".to_owned()))
            .unwrap_err()
            .message(),
        "configuration JSON is invalid: EOF"
    );
    assert_eq!(
        loaded_config(ConfigRead::Unreadable("denied".to_owned())).unwrap_err(),
        ConfigError::Io("denied".to_owned())
    );
}

#[test]
fn saving_needs_a_valid_configuration_and_a_parent_directory() {
    let store = ConfigStore::new("/home/me/.config/recentry/config.json".to_owned());
    assert_eq!(
        store.save_directory(&Config::default(), PlatformKind::Linux).unwrap(),
        "/home/me/.config/recentry"
    );
    let mut invalid = Config::default();
    invalid.version = CONFIG_VERSION + 1;
    assert!(matches!(
        store.save_directory(&invalid, PlatformKind::Linux),
        Err(ConfigError::Invalid(_))
    ));
    let rootless = ConfigStore::new("/".to_owned());
    assert_eq!(
        rootless
            .save_directory(&Config::default(), PlatformKind::Linux)
            .unwrap_err(),
        ConfigError::Invalid("configuration path has no parent directory".to_owned())
    );
    assert_eq!(
        temporary_path(PlatformKind::Linux, "/home/me/recentry/config.json", 42, 7),
        "/home/me/recentry/.config.json.42.7.tmp"
    );
    assert_eq!(
        temporary_path(PlatformKind::Windows, r"C:\Users\me\Recentry\config.json", 1, 0),
        r"C:\Users\me\Recentry\.config.json.1.0.tmp"
    );
}

// ---------------------------------------------------------------------------
// UI coordination
// ---------------------------------------------------------------------------

#[test]
fn first_command_starts_the_ui_and_sends_the_command() {
    let session = UiSession::new();
    let (session, action) = session.step(&UiCommand::Show, UiEvent::Received { exited: false });
    assert_eq!(
        action,
        UiAction::Start {
            generation: 1,
            stop_first: false
        }
    );
    let (session, action) = session.step(&UiCommand::Show, UiEvent::Started(Ok(())));
    assert_eq!(action, UiAction::Send { grant_foreground: true });
    let (session, action) =
        session.step(&UiCommand::Show, UiEvent::Transacted(Ok(UiResponse::Ready)));
    assert_eq!(
        action,
        UiAction::Reply {
            result: Ok(UiResponse::Ready),
            stop_first: false
        }
    );
    assert!(session.connected);
    assert_eq!(session.phase, UiPhase::Idle);
    let (_, action) = session.step(&UiCommand::Hide, UiEvent::Received { exited: false });
    assert_eq!(action, UiAction::Send { grant_foreground: false });
}

#[test]
fn a_broken_ui_is_restarted_once_for_visible_commands() {
    let session = UiSession {
        connected: true,
        generation: 4,
        phase: UiPhase::Idle,
    };
    let command = UiCommand::Settings(Config::default());
    let (session, _) = session.step(&command, UiEvent::Received { exited: false });
    let (session, action) =
        session.step(&command, UiEvent::Transacted(Err("pipe broke".to_owned())));
    assert_eq!(
        action,
        UiAction::Start {
            generation: 5,
            stop_first: true
        }
    );
    let (session, action) = session.step(&command, UiEvent::Started(Ok(())));
    assert_eq!(action, UiAction::Send { grant_foreground: true });
    let (session, action) = session.step(&command, UiEvent::Transacted(Err("again".to_owned())));
    assert_eq!(
        action,
        UiAction::Reply {
            result: Err("pipe broke; restart transaction failed: again".to_owned()),
            stop_first: false
        }
    );
    assert_eq!(session.phase, UiPhase::Idle);
}

#[test]
fn hidden_commands_and_quit_are_not_retried() {
    let session = UiSession {
        connected: true,
        generation: 1,
        phase: UiPhase::Idle,
    };
    let (session, _) = session.step(&UiCommand::Hide, UiEvent::Received { exited: false });
    let (session, action) = session.step(&UiCommand::Hide, UiEvent::Transacted(Err("x".to_owned())));
    assert_eq!(
        action,
        UiAction::Reply {
            result: Err("x".to_owned()),
            stop_first: false
        }
    );
    let (session, action) = session.step(&UiCommand::Quit, UiEvent::Received { exited: false });
    assert_eq!(
        action,
        UiAction::Reply {
            result: Ok(UiResponse::Quitting),
            stop_first: true
        }
    );
    assert!(!session.connected);
}

#[test]
fn an_exited_ui_is_replaced_and_a_failed_start_is_the_answer() {
    let session = UiSession {
        connected: true,
        generation: u32::MAX,
        phase: UiPhase::Idle,
    };
    let (session, action) = session.step(&UiCommand::Show, UiEvent::Received { exited: true });
    assert_eq!(
        action,
        UiAction::Start {
            generation: 0,
            stop_first: false
        }
    );
    let (session, action) = session.step(&UiCommand::Show, UiEvent::Started(Err("missing".to_owned())));
    assert_eq!(
        action,
        UiAction::Reply {
            result: Err("missing".to_owned()),
            stop_first: false
        }
    );
    assert!(!session.connected);
    let (_, action) = session.step(&UiCommand::Show, UiEvent::Started(Ok(())));
    assert_eq!(action, UiAction::Ignore);
}

// ---------------------------------------------------------------------------
// Startup
// ---------------------------------------------------------------------------

#[test]
fn an_answering_host_ends_the_invocation() {
    assert_eq!(after_contact(RequestedAction::Show, true), ClientNext::Exit);
    assert_eq!(after_contact(RequestedAction::Show, false), ClientNext::StartHost);
    assert_eq!(after_contact(RequestedAction::Background, false), ClientNext::StartHost);
    assert_eq!(after_contact(RequestedAction::Quit, false), ClientNext::Exit);
    assert_eq!(forward_reply(Ok(HostResponse::Accepted)), (true, None));
    assert_eq!(
        forward_reply(Ok(HostResponse::Error("no".to_owned()))),
        (true, Some("no".to_owned()))
    );
    assert_eq!(forward_reply(Err("refused".to_owned())), (false, None));
}

#[test]
fn first_run_asks_once_and_records_the_answer() {
    let fresh = loaded_config(ConfigRead::Missing).unwrap();
    assert!(needs_first_run_prompt(fresh.is_new, &fresh.config));
    let answered = first_run_answer(fresh.config.clone(), ANSWER_YES);
    assert!(answered.autostart && answered.first_run_completed);
    assert!(!needs_first_run_prompt(false, &fresh.config));
    let declined = first_run_answer(fresh.config, 7);
    assert!(!declined.autostart);
    assert!(!first_run_failed(answered).autostart);
    assert_eq!(
        first_run_failure_message("denied"),
        "First-run settings could not be saved: denied"
    );
    assert_eq!(first_run_prompt(false).0, "Recentry first run");
}

#[test]
fn an_unreadable_configuration_starts_from_defaults_with_a_warning() {
    let start = startup_config(Err("configuration is invalid: x".to_owned()));
    assert!(start.config.first_run_completed);
    assert!(!start.is_new);
    assert_eq!(start.warning.as_deref(), Some("configuration is invalid: x"));
    let loaded = LoadedConfig {
        config: Config::default(),
        is_new: true,
    };
    let start = startup_config(Ok(loaded));
    assert!(start.is_new && start.warning.is_none());
}

#[test]
fn the_first_window_follows_the_invocation() {
    let config = Config::default();
    assert_eq!(
        initial_ui_command(RequestedAction::Show, &config, String::new()),
        Some(UiCommand::Show)
    );
    assert_eq!(
        initial_ui_command(RequestedAction::Diagnostics, &config, "d".to_owned()),
        Some(UiCommand::Diagnostics("d".to_owned()))
    );
    assert_eq!(
        initial_ui_command(RequestedAction::Background, &config, String::new()),
        None
    );
}

#[test]
fn language_and_tray_follow_the_user_interface_language() {
    assert!(uses_chinese(Language::ZhCn, 0x0409));
    assert!(!uses_chinese(Language::En, 0x0804));
    assert!(uses_chinese(Language::System, 0x0804));
    assert!(!uses_chinese(Language::System, 0x0409));
    assert_eq!(tray_labels(false)[0], "Open Recentry");
    assert_eq!(tray_labels(true)[3], "退出");
    assert_eq!(tray_click(0x0202), Some(TrayClick::Show));
    assert_eq!(tray_click(0x0001_0205), Some(TrayClick::Menu));
    assert_eq!(tray_click(0x0200), None);
    assert_eq!(tray_choice(1004), Some(TrayChoice::Quit));
    assert_eq!(tray_choice(0), None);
}

#[test]
fn configuration_files_live_in_the_user_configuration_directory() {
    assert_eq!(
        linux_config_path(Some("/xdg"), Some("/home/me"), "/tmp"),
        "/xdg/recentry/config.json"
    );
    assert_eq!(
        linux_config_path(None, Some("/home/me"), "/tmp"),
        "/home/me/.config/recentry/config.json"
    );
    assert_eq!(linux_config_path(None, None, "/tmp"), "/tmp/recentry/config.json");
    assert_eq!(
        windows_config_path(Some(r"C:\Users\me\AppData\Roaming"), r"C:\Temp"),
        r"C:\Users\me\AppData\Roaming\Recentry/config.json"
    );
}

#[test]
fn validated_hotkeys_have_virtual_key_codes() {
    let digit = Hotkey {
        key: "7".to_owned(),
        ..Hotkey::default()
    };
    assert_eq!(win32_hotkey(&digit).unwrap().1, 0x37);
    let lower = Hotkey {
        key: "k".to_owned(),
        shift: true,
        ..Hotkey::default()
    };
    assert_eq!(win32_hotkey(&lower).unwrap(), (0x4000 | 0x2 | 0x1 | 0x4, 0x4B));
    let signed = Hotkey {
        key: "F+7".to_owned(),
        ..Hotkey::default()
    };
    assert_eq!(win32_hotkey(&signed).unwrap().1, 0x76);
    let padded = Hotkey {
        key: " F7".to_owned(),
        ..Hotkey::default()
    };
    assert_eq!(win32_hotkey(&padded).unwrap_err(), "invalid function key");
    let unmodified = Hotkey {
        ctrl: false,
        alt: false,
        ..Hotkey::default()
    };
    assert_eq!(
        win32_hotkey(&unmodified).unwrap_err(),
        "hotkey must contain at least one modifier"
    );
}

#[test]
fn refused_autostart_is_reported_and_restored_without_saving() {
    let adapter = FakeAdapter::default();
    *adapter.autostart_error.lock().unwrap() = Some("access denied".to_owned());
    let writer = MemoryWriter::default();
    let mut runtime = runtime("/tmp/recentry-test/config.json", adapter.clone(), writer.clone());
    let updated = Config {
        autostart: true,
        first_run_completed: true,
        ..Config::default()
    };
    assert_eq!(
        runtime.dispatch(HostCommand::SaveConfig(updated)),
        HostResponse::Error("access denied".to_owned())
    );
    assert_eq!(runtime.config(), Config::default());
    assert!(writer.saved.lock().unwrap().is_empty());
    assert_eq!(
        adapter.calls.lock().unwrap().as_slice(),
        ["autostart:true", "autostart:false"]
    );
}

#[test]
fn ui_commands_carry_the_configuration_and_diagnostics() {
    let adapter = FakeAdapter::default();
    let mut runtime = runtime("/tmp/recentry-test/config.json", adapter.clone(), MemoryWriter::default());
    assert_eq!(runtime.dispatch(HostCommand::Settings), HostResponse::Accepted);
    assert_eq!(runtime.dispatch(HostCommand::Diagnostics), HostResponse::Accepted);
    let calls = adapter.calls.lock().unwrap().clone();
    assert_eq!(calls.len(), 2);
    assert_eq!(calls[0], format!("ui:{:?}", UiCommand::Settings(Config::default())));
    assert_eq!(calls[1], format!("ui:{:?}", UiCommand::Diagnostics(runtime.diagnostics())));
}

#[test]
fn a_registered_hotkey_is_recorded_without_a_notification() {
    let adapter = FakeAdapter::default();
    let mut runtime = runtime("/tmp/recentry-test/config.json", adapter.clone(), MemoryWriter::default());
    runtime.apply_hotkey();
    assert_eq!(runtime.hotkey_status(), "registered Ctrl+Alt+R");
    assert_eq!(adapter.calls.lock().unwrap().as_slice(), ["hotkey:Ctrl+Alt+R"]);
}

#[test]
fn missing_config_loads_defaults_without_writing() {
    let path = "/nonexistent-recentry-test/Recentry/config.json";
    let store = ConfigStore::new(path.to_owned());
    let loaded = loaded_config(ConfigRead::Missing).unwrap();
    assert!(loaded.is_new);
    assert_eq!(loaded.config.version, CONFIG_VERSION);
    assert!(!std::path::Path::new(store.path()).exists());
}

#[test]
fn first_run_applies_the_choice_and_rolls_back_on_failure() {
    use_first_run_case(None, true, "recentry", true, &["autostart:true"]);
    use_first_run_case(None, false, "recentry", false, &["autostart:false"]);
    use_first_run_case(
        Some("disk full"),
        true,
        "recentry",
        false,
        &[
            "autostart:true",
            "autostart:false",
            "notify:Recentry:First-run settings could not be saved: disk full:true",
        ],
    );
}

fn use_first_run_case(failure: Option<&str>, yes: bool, exe: &str, autostart: bool, calls: &[&str]) {
    let adapter = FakeAdapter::default();
    let writer = MemoryWriter {
        failure: failure.map(str::to_owned),
        ..MemoryWriter::default()
    };
    let answer = if yes { ANSWER_YES } else { 7 };
    let config = recentry::startup::apply_first_run(&adapter, &writer, Config::default(), answer, exe);
    assert_eq!(config.autostart, autostart);
    assert!(config.first_run_completed);
    assert_eq!(adapter.calls.lock().unwrap().as_slice(), calls);
    assert_eq!(writer.saved.lock().unwrap().len(), if failure.is_none() { 1 } else { 0 });
}
