//! The decisions of a host invocation: whether a running host already took
//! the request, whether this process becomes the host, the configuration it
//! starts with, the first-run question, the window it opens first, and the
//! tray's and the control server's reactions.

use vstd::prelude::*;

use crate::host::{ConfigWriter, HostAdapter, LoadedConfig, RequestedAction};
use crate::paths::{join, join_path, PlatformKind};
use crate::protocol::{Config, HostCommand, HostResponse, Language, UiCommand, CONFIG_VERSION};
use crate::text::{owned, push_str};

verus! {

/// What an invocation does after asking a running host.
#[derive(Debug, Clone, Copy, PartialEq, Eq, Structural)]
pub enum ClientNext {
    /// Nothing more: the host took the request, or nothing is to be done.
    Exit,
    /// Start a host (or become it) and hand it the request.
    StartHost,
}

/// Whether a forwarded request was taken, and the host's error to show.
pub fn forward_reply(reply: Result<HostResponse, String>) -> (r: (bool, Option<String>))
    ensures
        match reply {
            Ok(HostResponse::Error(e)) => r.0 && r.1 == Some(e),
            Ok(_) => r.0 && r.1 is None,
            Err(_) => !r.0 && r.1 is None,
        },
{
    match reply {
        Ok(HostResponse::Error(e)) => (true, Some(e)),
        Ok(_) => (true, None),
        Err(_) => (false, None),
    }
}

/// After the running host was asked (its command forwarded, or a ping for
/// `--background`): done when it answered; a `quit` or an invalid request
/// needs no host; anything else starts one.
pub fn after_contact(action: RequestedAction, host_answered: bool) -> (r: ClientNext)
    ensures
        r == if host_answered || action == RequestedAction::Quit || action == RequestedAction::Invalid {
            ClientNext::Exit
        } else {
            ClientNext::StartHost
        },
{
    if host_answered {
        return ClientNext::Exit;
    }
    match action {
        RequestedAction::Quit | RequestedAction::Invalid => ClientNext::Exit,
        _ => ClientNext::StartHost,
    }
}

/// The configuration a host starts with, whether it is new, and the warning
/// to show when it could not be loaded.
#[derive(Debug, Clone, PartialEq, Eq)]
pub struct StartupConfig {
    pub config: Config,
    pub is_new: bool,
    pub warning: Option<String>,
}

/// A loaded configuration is used as it is; when loading failed the
/// defaults are used, marked as past the first run, and the error is shown.
pub fn startup_config(loaded: Result<LoadedConfig, String>) -> (r: StartupConfig)
    ensures
        match loaded {
            Ok(l) => r == (StartupConfig { config: l.config, is_new: l.is_new, warning: None }),
            Err(e) => {
                &&& r.config.version == CONFIG_VERSION
                &&& r.config.language == Language::System
                &&& r.config.hotkey.ctrl && r.config.hotkey.alt && !r.config.hotkey.shift
                    && !r.config.hotkey.win && r.config.hotkey.key@ == seq!['R']
                &&& !r.config.autostart
                &&& r.config.vscode_path_override is None
                &&& r.config.first_run_completed
                &&& !r.is_new
                &&& r.warning == Some(e)
            },
        },
{
    match loaded {
        Ok(l) => StartupConfig { config: l.config, is_new: l.is_new, warning: None },
        Err(e) => {
            let mut config = Config::default();
            config.first_run_completed = true;
            StartupConfig { config, is_new: false, warning: Some(e) }
        },
    }
}

/// Whether to ask the first-run question: only for a new configuration that
/// has not completed it.
pub fn needs_first_run_prompt(is_new: bool, config: &Config) -> (r: bool)
    ensures
        r == (is_new && !config.first_run_completed),
{
    is_new && !config.first_run_completed
}

/// The answer code of the "Yes" button.
pub const ANSWER_YES: i32 = 6;

/// The configuration after the first-run question: autostart exactly when
/// the answer was "Yes", and the first run completed.
pub fn first_run_answer(config: Config, answer: i32) -> (r: Config)
    ensures
        r == (Config { autostart: answer == ANSWER_YES, first_run_completed: true, ..config }),
{
    let mut config = config;
    config.autostart = answer == ANSWER_YES;
    config.first_run_completed = true;
    config
}

/// The configuration kept when the first-run choice could not be applied or
/// saved: autostart off.
pub fn first_run_failed(config: Config) -> (r: Config)
    ensures
        r == (Config { autostart: false, ..config }),
{
    let mut config = config;
    config.autostart = false;
    config
}

/// The notification text when the first-run choice could not be saved.
pub fn first_run_failure_message(error: &str) -> (r: String)
    ensures
        r@ == "First-run settings could not be saved: "@ + error@,
{
    let mut r = owned("First-run settings could not be saved: ");
    push_str(&mut r, error);
    r
}

/// After the first-run choice could not be applied or saved with error `e`:
/// autostart was requested off, the user was notified, and the choice is
/// kept with autostart off.
pub open spec fn first_run_rolled_back<A: HostAdapter>(
    adapter: &A,
    chosen: Config,
    executable: &str,
    e: String,
    r: Config,
) -> bool {
    &&& r == (Config { autostart: false, ..chosen })
    &&& exists|back: Result<(), String>| #[trigger]
        call_ensures(A::set_autostart, (adapter, false, executable), back)
    &&& exists|title: &str, message: &str|
        #![trigger call_ensures(A::notify, (adapter, title, message, true), ())]
        title@ == "Recentry"@ && message@ == "First-run settings could not be saved: "@ + e@
            && call_ensures(A::notify, (adapter, title, message, true), ())
}

/// Applies the first-run answer: the chosen configuration (see
/// [`first_run_answer`]) has its autostart setting requested from the
/// adapter and is then saved. If either step fails, autostart is requested
/// off, the user is notified with the error, and the configuration is kept
/// with autostart off; otherwise the chosen configuration is the result.
pub fn apply_first_run<A: HostAdapter, W: ConfigWriter>(
    adapter: &A,
    writer: &W,
    config: Config,
    answer: i32,
    executable: &str,
) -> (r: Config)
    ensures
        ({
            let chosen = Config { autostart: answer == ANSWER_YES, first_run_completed: true, ..config };
            exists|first: Result<(), String>|
                #![trigger call_ensures(A::set_autostart, (adapter, chosen.autostart, executable), first)]
                call_ensures(A::set_autostart, (adapter, chosen.autostart, executable), first)
                    && match first {
                    Err(e) => first_run_rolled_back(adapter, chosen, executable, e, r),
                    Ok(()) => exists|stored: Result<(), String>|
                        #![trigger call_ensures(W::save, (writer, &chosen), stored)]
                        call_ensures(W::save, (writer, &chosen), stored) && match stored {
                            Ok(()) => r == chosen,
                            Err(e) => first_run_rolled_back(adapter, chosen, executable, e, r),
                        },
                }
        }),
{
    let chosen = first_run_answer(config, answer);
    let set_autostart = A::set_autostart;
    let save = W::save;
    let first = set_autostart(adapter, chosen.autostart, executable);
    let ghost first_reply = first;
    let update = match first {
        Ok(()) => {
            let stored = save(writer, &chosen);
            assert(call_ensures(W::save, (writer, &chosen), stored));
            stored
        },
        Err(e) => Err(e),
    };
    match update {
        Ok(()) => chosen,
        Err(error) => {
            let back = set_autostart(adapter, false, executable);
            assert(call_ensures(A::set_autostart, (adapter, false, executable), back));
            let message = first_run_failure_message(error.as_str());
            let title = "Recentry";
            let text = message.as_str();
            let notify = A::notify;
            notify(adapter, title, text, true);
            assert(call_ensures(A::notify, (adapter, title, text, true), ()));
            first_run_failed(chosen)
        },
    }
}

/// Whether the interface speaks Chinese: by choice, or, for the system
/// language, when the user's UI language id has the Chinese primary language.
pub fn uses_chinese(language: Language, ui_language: u16) -> (r: bool)
    ensures
        r == match language {
            Language::ZhCn => true,
            Language::En => false,
            Language::System => ui_language & 0x03ffu16 == 0x0004u16,
        },
{
    match language {
        Language::ZhCn => true,
        Language::En => false,
        Language::System => ui_language & 0x03ff == 0x0004,
    }
}

/// The first-run question: title and message.
pub fn first_run_prompt(chinese: bool) -> (r: (&'static str, &'static str))
    ensures
        chinese ==> r == ("Recentry 首次运行", "是否允许 Recentry 开机启动？\n\n推荐开启，之后可在设置中修改。"),
        !chinese ==> r == (
            "Recentry first run",
            "Start Recentry when you sign in?\n\nRecommended; you can change this later in Settings.",
        ),
{
    if chinese {
        ("Recentry 首次运行", "是否允许 Recentry 开机启动？\n\n推荐开启，之后可在设置中修改。")
    } else {
        (
            "Recentry first run",
            "Start Recentry when you sign in?\n\nRecommended; you can change this later in Settings.",
        )
    }
}

/// The window a new host opens for the invocation that started it.
pub fn initial_ui_command(requested: RequestedAction, config: &Config, diagnostics: String) -> (r: Option<
    UiCommand,
>)
    ensures
        r == match requested {
            RequestedAction::Show => Some(UiCommand::Show),
            RequestedAction::Settings => Some(UiCommand::Settings(*config)),
            RequestedAction::Diagnostics => Some(UiCommand::Diagnostics(diagnostics)),
            _ => None::<UiCommand>,
        },
{
    match requested {
        RequestedAction::Show => Some(UiCommand::Show),
        RequestedAction::Settings => Some(UiCommand::Settings(config.copied())),
        RequestedAction::Diagnostics => Some(UiCommand::Diagnostics(diagnostics)),
        _ => None,
    }
}

/// Whether the control server stops after answering `command`.
pub fn ends_service(command: &HostCommand) -> (r: bool)
    ensures
        r == (*command is Quit),
{
    match command {
        HostCommand::Quit => true,
        _ => false,
    }
}

// ---------------------------------------------------------------------------
// Tray
// ---------------------------------------------------------------------------

/// The tray menu entries.
pub const MENU_OPEN: usize = 1001;
pub const MENU_SETTINGS: usize = 1002;
pub const MENU_DIAGNOSTICS: usize = 1003;
pub const MENU_QUIT: usize = 1004;

/// The mouse messages the tray icon reports.
pub const WM_LBUTTONUP: u32 = 0x0202;
pub const WM_RBUTTONUP: u32 = 0x0205;

/// What a click on the tray icon does.
#[derive(Debug, Clone, Copy, PartialEq, Eq, Structural)]
pub enum TrayClick {
    /// Show the launcher.
    Show,
    /// Open the tray menu.
    Menu,
}

/// A chosen tray menu entry.
#[derive(Debug, Clone, Copy, PartialEq, Eq, Structural)]
pub enum TrayChoice {
    Open,
    Settings,
    Diagnostics,
    Quit,
}

/// The tray icon's reaction to a notification: the low word of `lparam`
/// names the mouse event; a left click shows, a right click opens the menu.
pub fn tray_click(lparam: u32) -> (r: Option<TrayClick>)
    ensures
        r == if lparam & 0xffffu32 == WM_LBUTTONUP {
            Some(TrayClick::Show)
        } else if lparam & 0xffffu32 == WM_RBUTTONUP {
            Some(TrayClick::Menu)
        } else {
            None::<TrayClick>
        },
{
    let event = lparam & 0xffff;
    if event == WM_LBUTTONUP {
        Some(TrayClick::Show)
    } else if event == WM_RBUTTONUP {
        Some(TrayClick::Menu)
    } else {
        None
    }
}

/// The tray menu entry with identifier `selected`; none when the menu was dismissed.
pub fn tray_choice(selected: usize) -> (r: Option<TrayChoice>)
    ensures
        r == if selected == MENU_OPEN {
            Some(TrayChoice::Open)
        } else if selected == MENU_SETTINGS {
            Some(TrayChoice::Settings)
        } else if selected == MENU_DIAGNOSTICS {
            Some(TrayChoice::Diagnostics)
        } else if selected == MENU_QUIT {
            Some(TrayChoice::Quit)
        } else {
            None::<TrayChoice>
        },
{
    if selected == MENU_OPEN {
        Some(TrayChoice::Open)
    } else if selected == MENU_SETTINGS {
        Some(TrayChoice::Settings)
    } else if selected == MENU_DIAGNOSTICS {
        Some(TrayChoice::Diagnostics)
    } else if selected == MENU_QUIT {
        Some(TrayChoice::Quit)
    } else {
        None
    }
}

/// The tray menu labels: open, settings, diagnostics, quit.
pub fn tray_labels(chinese: bool) -> (r: [&'static str; 4])
    ensures
        chinese ==> r@ == seq!["打开 Recentry", "设置", "诊断", "退出"],
        !chinese ==> r@ == seq!["Open Recentry", "Settings", "Diagnostics", "Quit"],
{
    if chinese {
        ["打开 Recentry", "设置", "诊断", "退出"]
    } else {
        ["Open Recentry", "Settings", "Diagnostics", "Quit"]
    }
}

// ---------------------------------------------------------------------------
// Configuration location
// ---------------------------------------------------------------------------

/// The configuration directory on Linux: `XDG_CONFIG_HOME`, else
/// `$HOME/.config`, else the temporary directory.
pub open spec fn xdg_config_home(xdg_config_home: Option<Seq<char>>, home: Option<Seq<char>>, temp_dir: Seq<char>) -> Seq<
    char,
> {
    match xdg_config_home {
        Some(x) => x,
        None => match home {
            Some(h) => join(PlatformKind::Linux, h, ".config"@),
            None => temp_dir,
        },
    }
}

/// The host's configuration file on Linux: `recentry/config.json` in the
/// configuration directory.
pub fn linux_config_path(xdg: Option<&str>, home: Option<&str>, temp_dir: &str) -> (r: String)
    ensures
        r@ == join(
            PlatformKind::Linux,
            xdg_config_home(
                match xdg {
                    Some(x) => Some(x@),
                    None => None,
                },
                match home {
                    Some(h) => Some(h@),
                    None => None,
                },
                temp_dir@,
            ),
            "recentry/config.json"@,
        ),
{
    let base = match xdg {
        Some(x) => owned(x),
        None => match home {
            Some(h) => join_path(PlatformKind::Linux, h, ".config"),
            None => owned(temp_dir),
        },
    };
    join_path(PlatformKind::Linux, base.as_str(), "recentry/config.json")
}

/// The host's configuration file on Windows: `Recentry\config.json` under
/// `APPDATA`, else under the temporary directory.
pub fn windows_config_path(app_data: Option<&str>, temp_dir: &str) -> (r: String)
    ensures
        r@ == join(
            PlatformKind::Windows,
            match app_data {
                Some(a) => a@,
                None => temp_dir@,
            },
            "Recentry/config.json"@,
        ),
{
    let base = match app_data {
        Some(a) => a,
        None => temp_dir,
    };
    join_path(PlatformKind::Windows, base, "Recentry/config.json")
}

} // verus!
