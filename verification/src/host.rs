//! The host's command and configuration semantics, its startup entries, and
//! the decisions of the UI-child supervision.

use vstd::prelude::*;

use crate::format::{fingerprint, fingerprint_of};
use crate::protocol::{
    is_valid_config, spec_display, validation_error, Config, HostCommand, HostResponse, Hotkey,
    Language, UiCommand, UiResponse,
};
use crate::text::{chars_of, chars_eq, owned, push_char, push_str};

verus! {

/// The release reported in diagnostics.
pub const PACKAGE_VERSION: &'static str = "0.1.0-beta.4";

// ---------------------------------------------------------------------------
// Configuration store and platform adapter
// ---------------------------------------------------------------------------

/// The location of the configuration file.
#[derive(Debug, Clone)]
pub struct ConfigStore {
    path: String,
}

impl ConfigStore {
    pub closed spec fn spec_path(&self) -> Seq<char> {
        self.path@
    }

    /// A store at `path`.
    pub fn new(path: String) -> (r: Self)
        ensures
            r.spec_path() == path@,
    {
        ConfigStore { path }
    }

    /// The configuration file's path.
    pub fn path(&self) -> (r: &str)
        ensures
            r@ == self.spec_path(),
    {
        self.path.as_str()
    }
}

/// A configuration as loaded: `is_new` when no file existed yet.
#[derive(Debug, Clone, PartialEq, Eq)]
pub struct LoadedConfig {
    pub config: Config,
    pub is_new: bool,
}

/// Why the configuration could not be loaded or saved.
#[derive(Debug, Clone, PartialEq, Eq)]
pub enum ConfigError {
    Io(String),
    Json(String),
    Invalid(String),
}

/// The sentence describing a configuration error.
pub open spec fn config_error_text(e: ConfigError) -> Seq<char> {
    match e {
        ConfigError::Io(m) => "configuration I/O failed: "@ + m@,
        ConfigError::Json(m) => "configuration JSON is invalid: "@ + m@,
        ConfigError::Invalid(m) => "configuration is invalid: "@ + m@,
    }
}

impl ConfigError {
    /// The error as a sentence.
    pub fn message(&self) -> (r: String)
        ensures
            r@ == config_error_text(*self),
    {
        let (prefix, m) = match self {
            ConfigError::Io(m) => ("configuration I/O failed: ", m),
            ConfigError::Json(m) => ("configuration JSON is invalid: ", m),
            ConfigError::Invalid(m) => ("configuration is invalid: ", m),
        };
        let mut r = owned(prefix);
        push_str(&mut r, m.as_str());
        r
    }
}

/// What reading the configuration file gave.
pub enum ConfigRead {
    /// There is no file yet.
    Missing,
    /// The file could not be read.
    Unreadable(String),
    /// The file is not a configuration in JSON.
    Malformed(String),
    /// The configuration the file holds.
    Parsed(Config),
}

/// The configuration a read yields: defaults (new) when there is no file,
/// the file's configuration when it is valid, the matching error otherwise.
pub fn loaded_config(read: ConfigRead) -> (r: Result<LoadedConfig, ConfigError>)
    ensures
        match read {
            ConfigRead::Missing => r matches Ok(l) && l.is_new && l.config.version == crate::protocol::CONFIG_VERSION
                && l.config.language == Language::System && !l.config.autostart
                && l.config.vscode_path_override is None && !l.config.first_run_completed
                && l.config.hotkey.ctrl && l.config.hotkey.alt && !l.config.hotkey.shift
                && !l.config.hotkey.win && l.config.hotkey.key@ == seq!['R'],
            ConfigRead::Unreadable(m) => r == Err::<LoadedConfig, ConfigError>(ConfigError::Io(m)),
            ConfigRead::Malformed(m) => r == Err::<LoadedConfig, ConfigError>(ConfigError::Json(m)),
            ConfigRead::Parsed(c) => match validation_error(c) {
                None => r == Ok::<LoadedConfig, ConfigError>(LoadedConfig { config: c, is_new: false }),
                Some(e) => r matches Err(ConfigError::Invalid(m)) && m@ == e,
            },
        },
{
    match read {
        ConfigRead::Missing => Ok(LoadedConfig { config: Config::default(), is_new: true }),
        ConfigRead::Unreadable(m) => Err(ConfigError::Io(m)),
        ConfigRead::Malformed(m) => Err(ConfigError::Json(m)),
        ConfigRead::Parsed(c) => match c.validate() {
            Ok(()) => Ok(LoadedConfig { config: c, is_new: false }),
            Err(e) => Err(ConfigError::Invalid(e)),
        },
    }
}

impl ConfigStore {
    /// Before saving `config`: it must be valid and the file must have a
    /// parent directory, which is returned (to be created).
    pub fn save_directory(&self, config: &Config, platform: crate::paths::PlatformKind) -> (r: Result<
        String,
        ConfigError,
    >)
        ensures
            match validation_error(*config) {
                Some(e) => r matches Err(ConfigError::Invalid(m)) && m@ == e,
                None => if crate::layout::has_parent(self.spec_path()) {
                    r matches Ok(d) && d@ == crate::layout::parent_dir(self.spec_path())
                } else {
                    r matches Err(ConfigError::Invalid(m))
                        && m@ == "configuration path has no parent directory"@
                },
            },
    {
        match config.validate() {
            Ok(()) => {},
            Err(e) => return Err(ConfigError::Invalid(e)),
        }
        if !crate::layout::has_parent_of(self.path.as_str()) {
            return Err(ConfigError::Invalid(owned("configuration path has no parent directory")));
        }
        Ok(crate::layout::parent_of(self.path.as_str()))
    }
}

/// The temporary file a save writes before replacing `target`: beside it,
/// named `.<name>.<pid>.<id>.tmp` (`config.json` standing in for a missing name).
pub fn temporary_path(platform: crate::paths::PlatformKind, target: &str, pid: u32, id: u64) -> (r: String)
    ensures
        r@ == crate::paths::join(
            platform,
            crate::layout::parent_dir(target@),
            seq!['.'] + match crate::paths::file_name(target@) {
                Some(n) => n,
                None => "config.json"@,
            } + seq!['.'] + crate::format::decimal(pid as nat) + seq!['.'] + crate::format::decimal(
                id as nat,
            ) + ".tmp"@,
        ),
{
    let name = match crate::paths::path_file_name(target) {
        Some(n) => n,
        None => owned("config.json"),
    };
    let mut file = owned(".");
    push_str(&mut file, name.as_str());
    push_str(&mut file, ".");
    crate::format::push_decimal(&mut file, pid as u64);
    push_str(&mut file, ".");
    crate::format::push_decimal(&mut file, id);
    push_str(&mut file, ".tmp");
    proof {
        reveal_strlit(".");
        assert("."@ =~= seq!['.']);
    }
    let dir = crate::layout::parent_of(target);
    crate::paths::join_path(platform, dir.as_str(), file.as_str())
}

/// The platform services the host runtime drives.
pub trait HostAdapter {
    fn request_ui(&self, command: UiCommand) -> Result<UiResponse, String>;

    fn set_autostart(&self, enabled: bool, executable: &str) -> Result<(), String>;

    fn register_hotkey(&self, hotkey: &Hotkey) -> Result<(), String>;

    fn configuration_changed(&self);

    fn notify(&self, title: &str, message: &str, error: bool);
}

/// Durable storage of a validated configuration.
pub trait ConfigWriter {
    fn save(&self, config: &Config) -> Result<(), String>;
}

impl Hotkey {
    /// An equal copy of this hotkey.
    pub fn copied(&self) -> (r: Self)
        ensures
            r == *self,
    {
        Hotkey {
            ctrl: self.ctrl,
            alt: self.alt,
            shift: self.shift,
            win: self.win,
            key: self.key.clone(),
        }
    }
}

impl Config {
    /// An equal copy of this configuration.
    pub fn copied(&self) -> (r: Self)
        ensures
            r == *self,
    {
        Config {
            version: self.version,
            language: self.language,
            hotkey: self.hotkey.copied(),
            autostart: self.autostart,
            vscode_path_override: match &self.vscode_path_override {
                Some(p) => Some(p.clone()),
                None => None,
            },
            first_run_completed: self.first_run_completed,
        }
    }
}

// ---------------------------------------------------------------------------
// Host runtime
// ---------------------------------------------------------------------------

/// The reply to a visible UI request: the UI's own error or the transport's
/// error is passed on; anything else is acknowledged.
pub open spec fn spec_ui_response(response: Result<UiResponse, String>) -> HostResponse {
    match response {
        Ok(UiResponse::Error(e)) => HostResponse::Error(e),
        Err(e) => HostResponse::Error(e),
        Ok(_) => HostResponse::Accepted,
    }
}

/// Maps the UI's answer to the host's reply.
pub fn ui_response(response: Result<UiResponse, String>) -> (r: HostResponse)
    ensures
        r == spec_ui_response(response),
{
    match response {
        Ok(UiResponse::Error(error)) => HostResponse::Error(error),
        Err(error) => HostResponse::Error(error),
        Ok(_) => HostResponse::Accepted,
    }
}

/// The hotkey status line after a registration attempt.
pub open spec fn spec_hotkey_status(hotkey: Hotkey, result: Result<(), String>) -> Seq<char> {
    match result {
        Ok(()) => "registered "@ + spec_display(hotkey),
        Err(e) => "conflict: "@ + e@,
    }
}

/// The hotkey status line after a registration attempt.
pub fn hotkey_status_text(hotkey: &Hotkey, result: &Result<(), String>) -> (r: String)
    ensures
        r@ == spec_hotkey_status(*hotkey, *result),
{
    match result {
        Ok(()) => {
            let mut r = owned("registered ");
            let shown = hotkey.display();
            push_str(&mut r, shown.as_str());
            r
        },
        Err(error) => {
            let mut r = owned("conflict: ");
            push_str(&mut r, error.as_str());
            r
        },
    }
}

/// The notification shown when the hotkey cannot be registered.
pub open spec fn spec_hotkey_conflict_message(error: Seq<char>) -> Seq<char> {
    error + "; use the tray to open Recentry."@
}

pub open spec fn bool_word(b: bool) -> Seq<char> {
    if b {
        "true"@
    } else {
        "false"@
    }
}

/// The diagnostics text: version, hotkey status, autostart, configuration
/// fingerprint; never the configuration path itself.
pub open spec fn spec_diagnostics(status: Seq<char>, autostart: bool, config_path: Seq<char>) -> Seq<
    char,
> {
    "Recentry "@ + PACKAGE_VERSION@ + "\nHotkey: "@ + status + "\nAutostart: "@ + bool_word(autostart)
        + "\nConfig: cfg#"@ + fingerprint_of(config_path) + "\nTelemetry: disabled\nNetwork: disabled"@
}

/// Owns the configuration and hotkey status and routes host commands to the platform adapter.
pub struct HostRuntime<A: HostAdapter, W: ConfigWriter> {
    store: ConfigStore,
    config: Config,
    executable: String,
    adapter: A,
    writer: W,
    hotkey_status: String,
}

impl<A: HostAdapter, W: ConfigWriter> HostRuntime<A, W> {
    pub closed spec fn spec_config(&self) -> Config {
        self.config
    }

    pub closed spec fn spec_hotkey_status(&self) -> Seq<char> {
        self.hotkey_status@
    }

    pub closed spec fn spec_store(&self) -> ConfigStore {
        self.store
    }

    pub closed spec fn spec_executable(&self) -> Seq<char> {
        self.executable@
    }

    /// The adapter the runtime forwards UI commands to.
    pub closed spec fn spec_adapter(&self) -> A {
        self.adapter
    }

    /// The storage the runtime saves configurations with.
    pub closed spec fn spec_writer(&self) -> W {
        self.writer
    }

    /// The adapter was asked to set autostart to `enabled` for this
    /// runtime's executable, and answered `reply`.
    pub open spec fn autostart_set(&self, enabled: bool, reply: Result<(), String>) -> bool {
        exists|executable: &str|
            #![trigger call_ensures(A::set_autostart, (&self.spec_adapter(), enabled, executable), reply)]
            executable@ == self.spec_executable() && call_ensures(
                A::set_autostart,
                (&self.spec_adapter(), enabled, executable),
                reply,
            )
    }

    /// After a refused update, the adapter was asked to restore the
    /// autostart setting of the configuration in force.
    pub open spec fn autostart_restored(&self) -> bool {
        exists|reply: Result<(), String>| #[trigger] self.autostart_set(self.spec_config().autostart, reply)
    }

    /// The outcome of saving `config`, from this runtime to `after` with
    /// reply `r`. An invalid configuration is refused with its validation
    /// error. A valid one first has the adapter set autostart to its value;
    /// if that fails, its error is the reply. Otherwise the writer saves it;
    /// if that fails, its error is the reply. After either failure the
    /// previous autostart setting is requested again and the configuration
    /// stays. When both succeed, the configuration becomes current, the
    /// adapter is told that it changed, and the reply is `Saved`.
    pub open spec fn save_outcome(&self, config: Config, r: HostResponse, after: Self) -> bool {
        match validation_error(config) {
            Some(e) => after.spec_config() == self.spec_config() && match r {
                HostResponse::Error(m) => m@ == e,
                _ => false,
            },
            None => exists|first: Result<(), String>|
                #[trigger] self.autostart_set(config.autostart, first) && match first {
                    Err(e) => r == HostResponse::Error(e) && after.spec_config() == self.spec_config()
                        && self.autostart_restored(),
                    Ok(()) => exists|stored: Result<(), String>|
                        #![trigger call_ensures(W::save, (&self.spec_writer(), &config), stored)]
                        call_ensures(W::save, (&self.spec_writer(), &config), stored) && match stored {
                            Ok(()) => r == HostResponse::Saved && after.spec_config() == config
                                && call_ensures(A::configuration_changed, (&self.spec_adapter(),), ()),
                            Err(e) => r == HostResponse::Error(e) && after.spec_config()
                                == self.spec_config() && self.autostart_restored(),
                        },
                },
        }
    }

    /// The adapter was asked to show `command` and answered with a reply
    /// that maps to `r`.
    pub open spec fn ui_forwarded(&self, command: UiCommand, r: HostResponse) -> bool {
        exists|reply: Result<UiResponse, String>|
            #![trigger call_ensures(A::request_ui, (&self.spec_adapter(), command), reply)]
            call_ensures(A::request_ui, (&self.spec_adapter(), command), reply) && r
                == spec_ui_response(reply)
    }

    /// The adapter was asked to register the configured hotkey and answered
    /// `reply`; the status records the answer, and a refusal was shown as a
    /// notification.
    pub open spec fn hotkey_applied(&self, reply: Result<(), String>, after: Self) -> bool {
        &&& call_ensures(A::register_hotkey, (&self.spec_adapter(), &self.spec_config().hotkey), reply)
        &&& after.spec_hotkey_status() == spec_hotkey_status(self.spec_config().hotkey, reply)
        &&& reply matches Err(e) ==> exists|title: &str, message: &str|
            #![trigger call_ensures(A::notify, (&self.spec_adapter(), title, message, true), ())]
            title@ == "Recentry hotkey"@ && message@ == spec_hotkey_conflict_message(e@)
                && call_ensures(A::notify, (&self.spec_adapter(), title, message, true), ())
    }

    /// A runtime with the given configuration and an empty hotkey status.
    pub fn new(store: ConfigStore, config: Config, executable: String, adapter: A, writer: W) -> (r:
        Self)
        ensures
            r.spec_config() == config,
            r.spec_store() == store,
            r.spec_executable() == executable@,
            r.spec_hotkey_status() == Seq::<char>::empty(),
    {
        HostRuntime { store, config, executable, adapter, writer, hotkey_status: String::new() }
    }

    /// Answers one host command. `Ping` and `Quit` are answered directly;
    /// `Show`, `Settings` (with the current configuration) and `Diagnostics`
    /// (with the diagnostics text) are forwarded to the UI and its reply is
    /// reported; `SaveConfig` validates, updates autostart, persists, and
    /// restores autostart when either step fails.
    pub fn dispatch(&mut self, command: HostCommand) -> (r: HostResponse)
        ensures
            final(self).spec_store() == old(self).spec_store(),
            final(self).spec_executable() == old(self).spec_executable(),
            final(self).spec_hotkey_status() == old(self).spec_hotkey_status(),
            final(self).spec_adapter() == old(self).spec_adapter(),
            final(self).spec_writer() == old(self).spec_writer(),
            match command {
                HostCommand::Ping => r == HostResponse::Pong && final(self).spec_config() == old(self).spec_config(),
                HostCommand::Quit => r == HostResponse::Bye && final(self).spec_config() == old(self).spec_config(),
                HostCommand::Show => old(self).ui_forwarded(UiCommand::Show, r) && final(self).spec_config() == old(self).spec_config(),
                HostCommand::Settings => old(self).ui_forwarded(
                    UiCommand::Settings(old(self).spec_config()),
                    r,
                ) && final(self).spec_config() == old(self).spec_config(),
                HostCommand::Diagnostics => (exists|text: String|
                    #![trigger old(self).ui_forwarded(UiCommand::Diagnostics(text), r)]
                    text@ == spec_diagnostics(
                        old(self).spec_hotkey_status(),
                        old(self).spec_config().autostart,
                        old(self).spec_store().spec_path(),
                    ) && old(self).ui_forwarded(UiCommand::Diagnostics(text), r)) && final(self).spec_config() == old(self).spec_config(),
                HostCommand::SaveConfig(config) => old(self).save_outcome(config, r, *final(self)),
            },
    {
        match command {
            HostCommand::Ping => HostResponse::Pong,
            HostCommand::Show => ui_response(self.request_ui(UiCommand::Show)),
            HostCommand::Settings => {
                let config = self.config.copied();
                ui_response(self.request_ui(UiCommand::Settings(config)))
            },
            HostCommand::Diagnostics => {
                let text = self.diagnostics();
                let ghost shown = text;
                let r = ui_response(self.request_ui(UiCommand::Diagnostics(text)));
                assert(self.ui_forwarded(UiCommand::Diagnostics(shown), r));
                r
            },
            HostCommand::SaveConfig(config) => self.save_config(config),
            HostCommand::Quit => HostResponse::Bye,
        }
    }

    /// The current configuration.
    pub fn config(&self) -> (r: Config)
        ensures
            r == self.spec_config(),
    {
        self.config.copied()
    }

    /// Forwards a command to the UI process: the command goes to the adapter
    /// unchanged, and the adapter's reply to it is returned.
    pub fn request_ui(&self, command: UiCommand) -> (r: Result<UiResponse, String>)
        ensures
            call_ensures(A::request_ui, (&self.spec_adapter(), command), r),
    {
        let forward = A::request_ui;
        forward(&self.adapter, command)
    }

    /// Registers the configured hotkey and records the outcome as the hotkey
    /// status; a failure is also shown as a notification.
    pub fn apply_hotkey(&mut self)
        ensures
            final(self).spec_config() == old(self).spec_config(),
            final(self).spec_store() == old(self).spec_store(),
            final(self).spec_executable() == old(self).spec_executable(),
            final(self).spec_adapter() == old(self).spec_adapter(),
            final(self).spec_writer() == old(self).spec_writer(),
            exists|reply: Result<(), String>| #[trigger] old(self).hotkey_applied(reply, *final(self)),
    {
        let ghost before = *self;
        let hotkey = self.config.hotkey.copied();
        let register = A::register_hotkey;
        let result = register(&self.adapter, &hotkey);
        let status = hotkey_status_text(&hotkey, &result);
        self.hotkey_status = status;
        match &result {
            Ok(()) => {},
            Err(error) => {
                let mut message = owned(error.as_str());
                push_str(&mut message, "; use the tray to open Recentry.");
                let title = "Recentry hotkey";
                let text = message.as_str();
                let notify = A::notify;
                notify(&self.adapter, title, text, true);
                proof {
                    reveal_strlit("; use the tray to open Recentry.");
                    assert(call_ensures(A::notify, (&before.spec_adapter(), title, text, true), ()));
                }
            },
        }
        assert(before.hotkey_applied(result, *self));
    }

    /// The status line of the last hotkey registration.
    pub fn hotkey_status(&self) -> (r: String)
        ensures
            r@ == self.spec_hotkey_status(),
    {
        self.hotkey_status.clone()
    }

    /// The diagnostics text.
    pub fn diagnostics(&self) -> (r: String)
        ensures
            r@ == spec_diagnostics(
                self.spec_hotkey_status(),
                self.spec_config().autostart,
                self.spec_store().spec_path(),
            ),
    {
        let mut r = owned("Recentry ");
        push_str(&mut r, PACKAGE_VERSION);
        push_str(&mut r, "\nHotkey: ");
        push_str(&mut r, self.hotkey_status.as_str());
        push_str(&mut r, "\nAutostart: ");
        push_str(&mut r, if self.config.autostart { "true" } else { "false" });
        push_str(&mut r, "\nConfig: cfg#");
        let print = fingerprint(self.store.path());
        push_str(&mut r, print.as_str());
        push_str(&mut r, "\nTelemetry: disabled\nNetwork: disabled");
        r
    }

    fn save_config(&mut self, config: Config) -> (r: HostResponse)
        ensures
            final(self).spec_store() == old(self).spec_store(),
            final(self).spec_executable() == old(self).spec_executable(),
            final(self).spec_hotkey_status() == old(self).spec_hotkey_status(),
            final(self).spec_adapter() == old(self).spec_adapter(),
            final(self).spec_writer() == old(self).spec_writer(),
            old(self).save_outcome(config, r, *final(self)),
    {
        if let Err(error) = config.validate() {
            return HostResponse::Error(error);
        }
        let ghost before = *self;
        let previous_autostart = self.config.autostart;
        let set_autostart = A::set_autostart;
        let executable = self.executable.as_str();
        let first = set_autostart(&self.adapter, config.autostart, executable);
        assert(before.autostart_set(config.autostart, first));
        match first {
            Err(error) => {
                let back = set_autostart(&self.adapter, previous_autostart, executable);
                assert(before.autostart_set(previous_autostart, back));
                assert(before.autostart_restored());
                HostResponse::Error(error)
            },
            Ok(()) => {
                let save = W::save;
                let stored = save(&self.writer, &config);
                match stored {
                    Err(error) => {
                        let back = set_autostart(&self.adapter, previous_autostart, executable);
                        assert(before.autostart_set(previous_autostart, back));
                        assert(before.autostart_restored());
                        HostResponse::Error(error)
                    },
                    Ok(()) => {
                        self.config = config;
                        let changed = A::configuration_changed;
                        changed(&self.adapter);
                        HostResponse::Saved
                    },
                }
            },
        }
    }
}

// ---------------------------------------------------------------------------
// Command line and UI supervision
// ---------------------------------------------------------------------------

/// What an invocation of the host asks for.
#[derive(Debug, Clone, Copy, PartialEq, Eq, Structural)]
pub enum RequestedAction {
    Background,
    Show,
    Settings,
    Diagnostics,
    Quit,
    Invalid,
}

/// The action named by the first command-line argument; no argument means `show`.
pub open spec fn spec_parse_action(argument: Option<Seq<char>>) -> RequestedAction {
    match argument {
        None => RequestedAction::Show,
        Some(a) => if a == "--background"@ {
            RequestedAction::Background
        } else if a == "show"@ {
            RequestedAction::Show
        } else if a == "settings"@ {
            RequestedAction::Settings
        } else if a == "diagnostics"@ {
            RequestedAction::Diagnostics
        } else if a == "quit"@ {
            RequestedAction::Quit
        } else {
            RequestedAction::Invalid
        },
    }
}

fn same_text(a: &str, b: &str) -> (r: bool)
    ensures
        r == (a@ == b@),
{
    let x = chars_of(a);
    let y = chars_of(b);
    chars_eq(&x, &y)
}

/// Reads the action from the first command-line argument.
pub fn parse_action(argument: Option<&str>) -> (r: RequestedAction)
    ensures
        r == spec_parse_action(
            match argument {
                Some(a) => Some(a@),
                None => None,
            },
        ),
{
    match argument {
        None => RequestedAction::Show,
        Some(a) => if same_text(a, "--background") {
            RequestedAction::Background
        } else if same_text(a, "show") {
            RequestedAction::Show
        } else if same_text(a, "settings") {
            RequestedAction::Settings
        } else if same_text(a, "diagnostics") {
            RequestedAction::Diagnostics
        } else if same_text(a, "quit") {
            RequestedAction::Quit
        } else {
            RequestedAction::Invalid
        },
    }
}

impl RequestedAction {
    /// Whether the action brings up a window.
    pub fn opens_ui(self) -> (r: bool)
        ensures
            r == (self == RequestedAction::Show || self == RequestedAction::Settings || self
                == RequestedAction::Diagnostics),
    {
        match self {
            RequestedAction::Show | RequestedAction::Settings | RequestedAction::Diagnostics => true,
            _ => false,
        }
    }

    /// The host command an invocation forwards, if any.
    pub fn command(self) -> (r: Option<HostCommand>)
        ensures
            match self {
                RequestedAction::Show => r == Some(HostCommand::Show),
                RequestedAction::Settings => r == Some(HostCommand::Settings),
                RequestedAction::Diagnostics => r == Some(HostCommand::Diagnostics),
                RequestedAction::Quit => r == Some(HostCommand::Quit),
                _ => r is None,
            },
    {
        match self {
            RequestedAction::Background => None,
            RequestedAction::Show => Some(HostCommand::Show),
            RequestedAction::Settings => Some(HostCommand::Settings),
            RequestedAction::Diagnostics => Some(HostCommand::Diagnostics),
            RequestedAction::Quit => Some(HostCommand::Quit),
            RequestedAction::Invalid => None,
        }
    }
}

/// Whether a failed UI command restarts the UI once: only commands that show a window do.
pub fn should_restart(command: &UiCommand) -> (r: bool)
    ensures
        r == (command is Show || command is Settings || command is Diagnostics),
{
    match command {
        UiCommand::Show | UiCommand::Settings(_) | UiCommand::Diagnostics(_) => true,
        _ => false,
    }
}

/// The error reported when a UI command failed and the restart also failed:
/// while starting the new UI (`during_start`) or while repeating the command.
pub fn restart_failure(first_error: &str, error: &str, during_start: bool) -> (r: String)
    ensures
        r@ == first_error@ + (if during_start {
            "; restart failed: "@
        } else {
            "; restart transaction failed: "@
        }) + error@,
{
    let mut r = owned(first_error);
    if during_start {
        push_str(&mut r, "; restart failed: ");
    } else {
        push_str(&mut r, "; restart transaction failed: ");
    }
    push_str(&mut r, error);
    r
}

// ---------------------------------------------------------------------------
// Win32 hotkey registration values
// ---------------------------------------------------------------------------

/// The identifier under which the host registers its hotkey.
pub const HOTKEY_ID: i32 = 1;

/// Win32 `MOD_ALT`.
pub const MOD_ALT: u32 = 0x0001;

/// Win32 `MOD_CONTROL`.
pub const MOD_CONTROL: u32 = 0x0002;

/// Win32 `MOD_SHIFT`.
pub const MOD_SHIFT: u32 = 0x0004;

/// Win32 `MOD_WIN`.
pub const MOD_WIN: u32 = 0x0008;

/// Win32 `MOD_NOREPEAT`.
pub const MOD_NOREPEAT: u32 = 0x4000;

/// Whether a hotkey passes configuration validation.
pub open spec fn is_valid_hotkey(h: Hotkey) -> bool {
    crate::protocol::is_valid_key(crate::text::trim(h.key@)) && crate::protocol::has_modifier(h)
}

/// The Win32 modifier flags of a hotkey; repeats are always suppressed.
pub open spec fn spec_modifiers(h: Hotkey) -> u32 {
    (MOD_NOREPEAT + (if h.ctrl { MOD_CONTROL } else { 0 }) + (if h.alt { MOD_ALT } else { 0 }) + (
    if h.shift { MOD_SHIFT } else { 0 }) + (if h.win { MOD_WIN } else { 0 })) as u32
}

/// The modifier flags are exactly the hotkey's modifiers: `MOD_CONTROL`
/// when it has Ctrl, `MOD_ALT` when it has Alt, `MOD_SHIFT` when it has
/// Shift, `MOD_WIN` when it has Win, always `MOD_NOREPEAT`, and no other bit;
/// so every registration of a hotkey carries these flags.
pub proof fn lemma_modifier_flags_follow_the_hotkey(h: Hotkey)
    ensures
        spec_modifiers(h) & MOD_NOREPEAT == MOD_NOREPEAT,
        (spec_modifiers(h) & MOD_CONTROL != 0) == h.ctrl,
        (spec_modifiers(h) & MOD_ALT != 0) == h.alt,
        (spec_modifiers(h) & MOD_SHIFT != 0) == h.shift,
        (spec_modifiers(h) & MOD_WIN != 0) == h.win,
        spec_modifiers(h) & !0x400Fu32 == 0,
        spec_win32_hotkey(h) matches Ok((m, _)) ==> m == spec_modifiers(h),
{
    let m = spec_modifiers(h);
    let c = h.ctrl;
    let a = h.alt;
    let s = h.shift;
    let w = h.win;
    assert(m == (0x4000u32 + (if c { 2u32 } else { 0u32 }) + (if a { 1u32 } else { 0u32 }) + (if s {
        4u32
    } else {
        0u32
    }) + (if w { 8u32 } else { 0u32 })) as u32);
    assert({
        &&& m & 0x4000u32 == 0x4000u32
        &&& (m & 2u32 != 0) == c
        &&& (m & 1u32 != 0) == a
        &&& (m & 4u32 != 0) == s
        &&& (m & 8u32 != 0) == w
        &&& m & !0x400Fu32 == 0
    }) by (bit_vector)
        requires
            m == (0x4000u32 + (if c { 2u32 } else { 0u32 }) + (if a { 1u32 } else { 0u32 }) + (if s {
                4u32
            } else {
                0u32
            }) + (if w { 8u32 } else { 0u32 })) as u32,
    ;
}

pub open spec fn function_key_error() -> Seq<char> {
    "invalid function key"@
}

/// The Win32 registration of a hotkey: its modifier flags and virtual-key code.
/// A single character is its own (upper-case) code; `Fn` is `0x70 + n - 1`.
pub open spec fn spec_win32_hotkey(h: Hotkey) -> Result<(u32, u32), Seq<char>> {
    if !is_valid_hotkey(h) {
        Err(
            if !crate::protocol::is_valid_key(crate::text::trim(h.key@)) {
                crate::protocol::key_error()
            } else {
                crate::protocol::modifier_error()
            },
        )
    } else {
        let up = crate::text::ascii_upper(h.key@);
        if h.key@.len() == 1 {
            Ok((spec_modifiers(h), up[0] as u32))
        } else {
            match crate::protocol::parse_unsigned(up.drop_first(), 0xFFFF_FFFF) {
                Some(n) => Ok((spec_modifiers(h), ((0x70 + n - 1) % 0x1_0000_0000) as u32)),
                None => Err(function_key_error()),
            }
        }
    }
}

/// The Win32 modifier flags and virtual-key code for `hotkey`, or the reason it cannot be registered.
pub fn win32_hotkey(hotkey: &Hotkey) -> (r: Result<(u32, u32), String>)
    requires
        !(is_valid_hotkey(*hotkey) && hotkey.key@.len() >= 2 && !crate::text::is_ascii_char(
            hotkey.key@[0],
        )),
    ensures
        match (r, spec_win32_hotkey(*hotkey)) {
            (Ok(v), Ok(w)) => v == w,
            (Err(e), Err(f)) => e@ == f,
            _ => false,
        },
{
    let mut config = Config::default();
    config.hotkey = hotkey.copied();
    if let Err(error) = config.validate() {
        return Err(error);
    }
    let mut modifiers = MOD_NOREPEAT;
    if hotkey.ctrl {
        modifiers = modifiers + MOD_CONTROL;
    }
    if hotkey.alt {
        modifiers = modifiers + MOD_ALT;
    }
    if hotkey.shift {
        modifiers = modifiers + MOD_SHIFT;
    }
    if hotkey.win {
        modifiers = modifiers + MOD_WIN;
    }
    let key = chars_of(hotkey.key.as_str());
    let upper = crate::text::ascii_upper_chars(&key);
    if key.len() == 1 {
        return Ok((modifiers, upper[0] as u32));
    }
    proof {
        assert(upper@.subrange(1, upper@.len() as int) =~= upper@.drop_first());
    }
    match crate::protocol::parse_unsigned_at(&upper, 1, 0xFFFF_FFFF) {
        Some(number) => {
            let n = number as u32;
            Ok((modifiers, 0x70u32.wrapping_add(n).wrapping_sub(1)))
        },
        None => Err(owned("invalid function key")),
    }
}

/// A hotkey that configuration validation accepts, written without
/// surrounding whitespace, can always be registered: a single character as
/// its upper-case code, `F1`–`F24` as the function keys `0x70`–`0x87`.
pub proof fn lemma_valid_hotkeys_register(h: Hotkey)
    requires
        is_valid_hotkey(h),
        crate::text::trim(h.key@) == h.key@,
    ensures
        spec_win32_hotkey(h) is Ok,
        spec_win32_hotkey(h)->Ok_0.0 == spec_modifiers(h),
        h.key@.len() > 1 ==> 0x70 <= spec_win32_hotkey(h)->Ok_0.1 <= 0x87,
{
    let key = h.key@;
    if key.len() != 1 {
        let up = crate::text::ascii_upper(key);
        let rest = key.drop_first();
        assert(key[0] == 'F');
        let v = crate::protocol::parse_unsigned(rest, 255)->0;
        assert(1 <= v <= 24);
        assert(up.drop_first() =~= rest) by {
            let d = if rest.len() > 0 && rest[0] == '+' { rest.drop_first() } else { rest };
            assert(crate::protocol::all_digits(d));
            assert forall|i: int| 0 <= i < rest.len() implies #[trigger] crate::text::ascii_upper_char(
                rest[i],
            ) == rest[i] by {
                if rest.len() > 0 && rest[0] == '+' {
                    if i > 0 {
                        assert(rest[i] == d[i - 1]);
                        assert(crate::text::is_ascii_digit(d[i - 1]));
                    }
                } else {
                    assert(rest[i] == d[i]);
                    assert(crate::text::is_ascii_digit(d[i]));
                }
            }
            assert forall|i: int| 0 <= i < rest.len() implies up.drop_first()[i] == rest[i] by {
                assert(up.drop_first()[i] == up[i + 1]);
                assert(up[i + 1] == crate::text::ascii_upper_char(key[i + 1]));
                assert(key[i + 1] == rest[i]);
            }
        }
        assert(crate::protocol::parse_unsigned(up.drop_first(), 0xFFFF_FFFF) == Some(v));
    }
}

// ---------------------------------------------------------------------------
// Sign-in startup entries
// ---------------------------------------------------------------------------

/// The Windows `Run` entry: the quoted executable started in background mode.
pub fn autostart_command(executable: &str) -> (r: String)
    ensures
        r@ == seq!['"'] + executable@ + "\" --background"@,
{
    let mut r = String::new();
    push_char(&mut r, '"');
    push_str(&mut r, executable);
    push_str(&mut r, "\" --background");
    assert(r@ =~= seq!['"'] + executable@ + "\" --background"@);
    r
}

/// Windows error: the value or key does not exist.
pub const ERROR_FILE_NOT_FOUND: u32 = 2;

/// Windows error: the path does not exist.
pub const ERROR_PATH_NOT_FOUND: u32 = 3;

fn with_code(prefix: &str, code: u32) -> (r: String)
    ensures
        r@ == prefix@ + crate::format::decimal(code as nat),
{
    let mut r = owned(prefix);
    crate::format::push_decimal(&mut r, code as u64);
    r
}

/// The error when the `Run` key cannot be opened.
pub fn autostart_key_failure(code: u32) -> (r: String)
    ensures
        r@ == "opening the autostart registry key failed: "@ + crate::format::decimal(code as nat),
{
    with_code("opening the autostart registry key failed: ", code)
}

/// The outcome of writing (`enabled`) or deleting the `Run` value with
/// result `code`: success, or, when disabling, a value or path that was
/// already gone; any other result is an error.
pub fn autostart_outcome(enabled: bool, code: u32) -> (r: Result<(), String>)
    ensures
        r is Ok <==> (code == 0 || (!enabled && (code == ERROR_FILE_NOT_FOUND || code
            == ERROR_PATH_NOT_FOUND))),
        r matches Err(e) ==> e@ == "updating autostart failed: "@ + crate::format::decimal(code as nat),
{
    if code == 0 || (!enabled && (code == ERROR_FILE_NOT_FOUND || code == ERROR_PATH_NOT_FOUND)) {
        Ok(())
    } else {
        Err(with_code("updating autostart failed: ", code))
    }
}

/// The error when the hotkey cannot be registered.
pub fn register_hotkey_failure(code: u32) -> (r: String)
    ensures
        r@ == "RegisterHotKey failed with error "@ + crate::format::decimal(code as nat),
{
    with_code("RegisterHotKey failed with error ", code)
}

/// The error when the tray icon cannot be added.
pub fn tray_failure(code: u32) -> (r: String)
    ensures
        r@ == "Shell_NotifyIconW failed: "@ + crate::format::decimal(code as nat),
{
    with_code("Shell_NotifyIconW failed: ", code)
}

/// What the Windows platform layer holds: a registered hotkey, an installed tray icon.
#[derive(Debug, Clone, Copy, PartialEq, Eq, Structural)]
pub struct PlatformState {
    pub hotkey_registered: bool,
    pub tray_installed: bool,
}

/// The clean-ups a shutdown performs: unregister the hotkey and remove the
/// tray icon, each only when present; nothing is left afterwards.
pub fn uninstall_steps(state: PlatformState) -> (r: (bool, bool, PlatformState))
    ensures
        r.0 == state.hotkey_registered,
        r.1 == state.tray_installed,
        r.2 == (PlatformState { hotkey_registered: false, tray_installed: false }),
{
    (state.hotkey_registered, state.tray_installed, PlatformState { hotkey_registered: false, tray_installed: false })
}

/// Registering a hotkey first releases the registered one; afterwards the
/// hotkey counts as registered exactly when registration succeeded.
pub fn hotkey_registration(state: PlatformState, registered: bool) -> (r: (bool, PlatformState))
    ensures
        r.0 == state.hotkey_registered,
        r.1 == (PlatformState { hotkey_registered: registered, ..state }),
{
    (state.hotkey_registered, PlatformState { hotkey_registered: registered, ..state })
}

/// A Unicode control character (general category `Cc`), as `char::is_control` decides.
pub open spec fn is_control(c: char) -> bool {
    (c as u32) <= 0x1F || (0x7F <= (c as u32) && (c as u32) <= 0x9F)
}

/// How one character is written inside the quoted `Exec` value of a desktop entry.
pub open spec fn exec_escape(c: char) -> Seq<char> {
    if c == '%' {
        seq!['%', '%']
    } else if c == '"' || c == '`' || c == '$' {
        seq!['\\', '\\', c]
    } else if c == '\\' {
        seq!['\\', '\\', '\\', '\\']
    } else {
        seq![c]
    }
}

/// The escaped form of a whole path.
pub open spec fn exec_escaped(s: Seq<char>) -> Seq<char>
    decreases s.len(),
{
    if s.len() == 0 {
        Seq::empty()
    } else {
        exec_escaped(s.drop_last()) + exec_escape(s.last())
    }
}

/// Whether an executable path can be written into a desktop entry: no control
/// characters and no `=`.
pub open spec fn is_exec_representable(s: Seq<char>) -> bool {
    forall|i: int| 0 <= i < s.len() ==> !is_control(#[trigger] s[i]) && s[i] != '='
}

pub open spec fn exec_error() -> Seq<char> {
    "the executable path cannot be represented in an XDG desktop entry"@
}

/// The `Exec` value that starts `executable` in background mode without a shell.
pub open spec fn spec_desktop_exec(executable: Seq<char>) -> Seq<char> {
    seq!['"'] + exec_escaped(executable) + "\" --background"@
}

/// The quoted and escaped `Exec` value for `executable`, or an error for paths
/// holding control characters or `=`.
pub fn desktop_exec(executable: &str) -> (r: Result<String, String>)
    ensures
        r is Ok <==> is_exec_representable(executable@),
        r matches Ok(v) ==> v@ == spec_desktop_exec(executable@),
        r matches Err(e) ==> e@ == exec_error(),
{
    let chars = chars_of(executable);
    let mut i: usize = 0;
    while i < chars.len()
        invariant
            i <= chars@.len(),
            chars@ == executable@,
            forall|k: int| 0 <= k < i ==> !is_control(#[trigger] chars@[k]) && chars@[k] != '=',
        decreases chars.len() - i,
    {
        let c = chars[i];
        let code = c as u32;
        if code <= 0x1F || (0x7F <= code && code <= 0x9F) || c == '=' {
            return Err(owned("the executable path cannot be represented in an XDG desktop entry"));
        }
        i = i + 1;
    }
    let mut escaped = String::new();
    push_char(&mut escaped, '"');
    let mut k: usize = 0;
    while k < chars.len()
        invariant
            k <= chars@.len(),
            escaped@ == seq!['"'] + exec_escaped(chars@.subrange(0, k as int)),
        decreases chars.len() - k,
    {
        let c = chars[k];
        let ghost before = escaped@;
        if c == '%' {
            push_char(&mut escaped, '%');
            push_char(&mut escaped, '%');
        } else if c == '"' || c == '`' || c == '$' {
            push_char(&mut escaped, '\\');
            push_char(&mut escaped, '\\');
            push_char(&mut escaped, c);
        } else if c == '\\' {
            push_char(&mut escaped, '\\');
            push_char(&mut escaped, '\\');
            push_char(&mut escaped, '\\');
            push_char(&mut escaped, '\\');
        } else {
            push_char(&mut escaped, c);
        }
        let ghost t = chars@.subrange(0, k + 1);
        assert(t.drop_last() =~= chars@.subrange(0, k as int));
        assert(t.last() == c);
        assert(escaped@ =~= before + exec_escape(c));
        k = k + 1;
    }
    assert(chars@.subrange(0, chars@.len() as int) =~= chars@);
    push_str(&mut escaped, "\" --background");
    Ok(escaped)
}

/// The XDG autostart desktop entry that starts `executable` at sign-in.
pub fn xdg_desktop_entry(executable: &str) -> (r: Result<String, String>)
    ensures
        r is Ok <==> is_exec_representable(executable@),
        r matches Ok(v) ==> v@ == "[Desktop Entry]\nType=Application\nVersion=1.0\nName=Recentry\nComment=Open recent development projects\nExec="@
            + spec_desktop_exec(executable@) + "\nTerminal=false\nX-GNOME-Autostart-enabled=true\n"@,
        r matches Err(e) ==> e@ == exec_error(),
{
    let command = desktop_exec(executable)?;
    let mut r = owned(
        "[Desktop Entry]\nType=Application\nVersion=1.0\nName=Recentry\nComment=Open recent development projects\nExec=",
    );
    push_str(&mut r, command.as_str());
    push_str(&mut r, "\nTerminal=false\nX-GNOME-Autostart-enabled=true\n");
    Ok(r)
}

} // verus!
