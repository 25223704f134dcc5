use recentry::ipc::{
    check_bound_socket, check_peer_socket, check_peer_user, check_private_directory,
    check_runtime_directory, check_stale_endpoint, pipe_connect_step, runtime_directory,
    socket_connect_step, ConnectStep, EntryFacts,
};
use recentry::{
    decode_frame_length, encode_frame, pipe_endpoint, socket_endpoint, validate_endpoint_id,
    validate_pipe_name, validate_socket_path, Config, Hotkey, IpcError, CONFIG_VERSION,
    HOST_ENDPOINT_ID, HOST_PIPE_NAME, MAX_MESSAGE_BYTES,
};

#[test]
fn default_config_has_stable_version_and_hotkey() {
    let config = Config::default();
    assert_eq!(config.version, CONFIG_VERSION);
    assert_eq!(config.hotkey.display(), "Ctrl+Alt+R");
    assert!(config.validate().is_ok());
}

#[test]
fn config_rejects_unmodified_keys() {
    let mut config = Config::default();
    config.hotkey.ctrl = false;
    config.hotkey.alt = false;
    assert!(config.validate().is_err());
}

#[test]
fn config_validation_names_the_first_problem() {
    let mut config = Config::default();
    config.hotkey.ctrl = false;
    config.hotkey.alt = false;
    assert_eq!(
        config.validate().unwrap_err(),
        "hotkey must contain at least one modifier"
    );
    config.hotkey.key = "F25".to_owned();
    assert_eq!(
        config.validate().unwrap_err(),
        "hotkey key must be A-Z, 0-9, or F1-F24"
    );
    config.version = 9;
    assert_eq!(config.validate().unwrap_err(), "unsupported config version 9");
    let function = Config {
        hotkey: Hotkey {
            key: " F24 ".to_owned(),
            ..Hotkey::default()
        },
        ..Config::default()
    };
    assert!(function.validate().is_ok());
}

#[test]
fn hotkeys_display_their_modifiers_in_order() {
    let hotkey = Hotkey {
        ctrl: true,
        alt: false,
        shift: true,
        win: true,
        key: "k".to_owned(),
    };
    assert_eq!(hotkey.display(), "Ctrl+Shift+Win+k");
}

#[test]
fn host_endpoint_names_are_fixed() {
    assert_eq!(HOST_ENDPOINT_ID, "recentry-host-v1");
    assert_eq!(HOST_PIPE_NAME, r"\\.\pipe\recentry-host-v1");
    assert_eq!(pipe_endpoint(HOST_ENDPOINT_ID).unwrap(), HOST_PIPE_NAME);
}

#[test]
fn endpoint_ids_are_validated() {
    assert!(validate_endpoint_id("recentry-ui-12-7").is_ok());
    assert!(matches!(
        validate_endpoint_id("../other-user"),
        Err(IpcError::InvalidEndpoint(_))
    ));
    assert!(validate_endpoint_id("").is_err());
    assert!(validate_endpoint_id(&"a".repeat(65)).is_err());
    assert!(pipe_endpoint("../other-user").is_err());
}

#[test]
fn socket_endpoints_stay_within_one_hundred_bytes() {
    assert_eq!(
        socket_endpoint("/run/user/1000/recentry", "recentry-host-v1").unwrap(),
        "/run/user/1000/recentry/recentry-host-v1.sock"
    );
    let long_directory = format!("/{}", "d".repeat(90));
    assert_eq!(
        socket_endpoint(&long_directory, "recentry-host-v1").unwrap_err(),
        IpcError::InvalidEndpoint("the Unix socket path exceeds 100 bytes".to_owned())
    );
    assert!(validate_socket_path("/tmp/recentry-1000/host.sock").is_ok());
    assert!(validate_socket_path("relative.sock").is_err());
    assert!(validate_pipe_name(r"\\.\pipe\x").is_ok());
    assert!(validate_pipe_name("x").is_err());
}

#[test]
fn frames_carry_a_little_endian_length() {
    let frame = encode_frame(b"abc").unwrap();
    assert_eq!(frame, vec![3, 0, 0, 0, b'a', b'b', b'c']);
    assert_eq!(decode_frame_length(&frame[..4]).unwrap(), 3);
    assert_eq!(decode_frame_length(&[0, 1, 0, 0]).unwrap(), 256);
}

#[test]
fn oversized_frames_are_rejected() {
    let payload = vec![0u8; MAX_MESSAGE_BYTES + 1];
    assert_eq!(encode_frame(&payload).unwrap_err(), IpcError::MessageTooLarge);
    let limit = (MAX_MESSAGE_BYTES as u32 + 1).to_le_bytes();
    assert_eq!(decode_frame_length(&limit).unwrap_err(), IpcError::MessageTooLarge);
    assert_eq!(
        decode_frame_length(&(MAX_MESSAGE_BYTES as u32).to_le_bytes()).unwrap(),
        MAX_MESSAGE_BYTES
    );
}

#[test]
fn transport_errors_read_as_sentences() {
    assert_eq!(
        IpcError::Windows {
            operation: "CreateFileW".to_owned(),
            code: 5
        }
        .message(),
        "CreateFileW failed with Windows error 5"
    );
    assert_eq!(
        IpcError::InvalidEndpoint("x".to_owned()).message(),
        "invalid current-user endpoint: x"
    );
    assert_eq!(IpcError::MessageTooLarge.message(), "message exceeds the IPC limit");
}

fn facts(is_symlink: bool, is_dir: bool, is_socket: bool, owner: u32, mode: u32) -> EntryFacts {
    EntryFacts {
        is_symlink,
        is_dir,
        is_socket,
        owner,
        mode,
    }
}

#[test]
fn runtime_entries_must_belong_to_the_user_alone() {
    assert!(check_runtime_directory(&facts(false, true, false, 1000, 0o755), 1000).is_ok());
    assert!(check_runtime_directory(&facts(true, true, false, 1000, 0o700), 1000).is_err());
    assert!(check_runtime_directory(&facts(false, true, false, 0, 0o700), 1000).is_err());
    assert!(check_private_directory(&facts(false, true, false, 1000, 0o700), 1000).is_ok());
    assert_eq!(
        check_private_directory(&facts(false, true, false, 1000, 0o750), 1000).unwrap_err(),
        IpcError::InvalidEndpoint("the runtime directory permissions are not owner-only".to_owned())
    );
    assert!(check_bound_socket(&facts(false, false, true, 1000, 0o600), 1000).is_ok());
    assert!(check_bound_socket(&facts(false, false, true, 1000, 0o666), 1000).is_err());
    assert!(check_peer_socket(&facts(true, false, true, 1000, 0o600), 1000).is_err());
    assert!(check_stale_endpoint(&facts(false, false, true, 1000, 0o666), 1000).is_ok());
    assert!(check_stale_endpoint(&facts(false, false, false, 1000, 0o600), 1000).is_err());
    assert!(check_peer_user(1000, 1000).is_ok());
    assert!(check_peer_user(0, 1000).is_err());
}

#[test]
fn the_runtime_directory_prefers_an_absolute_xdg_runtime_dir() {
    assert_eq!(runtime_directory(Some("/run/user/1000"), 1000), "/run/user/1000/recentry");
    assert_eq!(runtime_directory(Some("relative"), 1000), "/tmp/recentry-1000");
    assert_eq!(runtime_directory(None, 42), "/tmp/recentry-42");
}

#[test]
fn clients_wait_for_a_busy_pipe_until_the_timeout() {
    assert_eq!(pipe_connect_step(231, 0, 200), ConnectStep::Wait(100));
    assert_eq!(pipe_connect_step(2, 150_000, 200), ConnectStep::Wait(50));
    assert_eq!(
        pipe_connect_step(2, 200_000, 200),
        ConnectStep::Fail(IpcError::Windows {
            operation: "connect timeout".to_owned(),
            code: 2
        })
    );
    assert_eq!(
        pipe_connect_step(5, 0, 200),
        ConnectStep::Fail(IpcError::Windows {
            operation: "CreateFileW".to_owned(),
            code: 5
        })
    );
    assert_eq!(socket_connect_step(1, 100), ConnectStep::Wait(2));
    assert_eq!(
        socket_connect_step(100, 100),
        ConnectStep::Fail(IpcError::Io {
            operation: "connect Unix socket".to_owned(),
            message: "connection timed out".to_owned()
        })
    );
}

#[test]
fn current_user_pipe_names_pass_pipe_validation() {
    let name = pipe_endpoint(&"x".repeat(64)).unwrap();
    assert!(validate_pipe_name(&name).is_ok());
    assert!(validate_pipe_name(&pipe_endpoint("recentry-ui-1-2").unwrap()).is_ok());
}

#[test]
fn current_user_endpoint_is_validated_and_platform_scoped() {
    assert_eq!(pipe_endpoint("recentry-host-v1").unwrap(), r"\\.\pipe\recentry-host-v1");
    assert!(pipe_endpoint("../other-user").is_err());
    assert!(pipe_endpoint("").is_err());
}
