//! Recentry: recent-project discovery, ranking and launch planning for a
//! small VS Code launcher, with its host/UI protocol and transport framing.

pub mod coordinator;
pub mod format;
pub mod host;
pub mod ipc;
pub mod install;
pub mod json;
pub mod launcher;
pub mod layout;
pub mod model;
pub mod opener;
pub mod paths;
pub mod protocol;
pub mod provider;
pub mod ranking;
pub mod recent;
pub mod sort;
pub mod startup;
pub mod text;
pub mod ui;
pub mod urls;

pub use coordinator::{UiAction, UiEvent, UiPhase, UiSession};
pub use host::{
    autostart_command, desktop_exec, hotkey_status_text, loaded_config, parse_action,
    restart_failure, should_restart, temporary_path, ui_response, win32_hotkey, xdg_desktop_entry,
    ConfigError, ConfigRead, ConfigStore, ConfigWriter, HostAdapter, HostRuntime, LoadedConfig,
    RequestedAction, HOTKEY_ID, PACKAGE_VERSION,
};
pub use install::{
    discovery_result, product_search_failed, product_step, ProductRead, ProductStep, VsCodeError,
};
pub use ipc::{
    decode_frame_length, encode_frame, pipe_endpoint, socket_endpoint, validate_endpoint_id,
    validate_pipe_name, validate_socket_path, IpcError, MAX_MESSAGE_BYTES,
};
pub use json::JsonValue;
pub use launcher::LauncherState;
pub use layout::{
    database_candidates, newest_first, unique_paths, window_state_candidates, CandidateFacts,
    DiscoveryEnvironment, ExecutableForm, VsCodeInstallation, VsCodePlatformLayout,
};
pub use model::{
    DiagnosticLevel, OpenOutcome, ProjectId, ProjectKind, ProjectOpener, ProjectTarget,
    ProviderDiagnostic, ProviderId, ProviderReport, RecentProject, RecentProjectProvider,
};
pub use opener::{
    build_launch_request, comparable_target, parse_window_states, plan_launch, target_argument_kind,
    window_state_targets, LaunchRequest, OpenError, VsCodeOpener,
};
pub use paths::PlatformKind;
pub use protocol::{
    Config, HostCommand, HostResponse, Hotkey, Language, UiCommand, UiResponse, CONFIG_VERSION,
    HOST_ENDPOINT_ID, HOST_PIPE_NAME,
};
pub use provider::{
    installation_missing, DatabaseRead, DiscoveryProgress, DiscoveryStep, VsCodeRecentProvider,
};
pub use ranking::{
    deduplicate, deduplicate_with_policy, search_projects, target_key, target_key_with_policy,
    TargetIdentityPolicy,
};
pub use recent::{
    local_answers, parse_recent_json, parse_recent_json_with_policy, parse_recent_value,
    parse_recent_value_with_policy, recent_projects_from, RecentFormatError, RECENT_KEY,
};
