//! Current-user endpoint names and the length-prefixed message frame of the
//! host/UI transport.
//!
//! A frame is a 4-byte little-endian payload length followed by the payload;
//! payloads are capped at [`MAX_MESSAGE_BYTES`].

use vstd::prelude::*;

use crate::text::{chars_of, owned, push_str, starts_with, utf8_byte_len, utf8_len};

verus! {

/// The largest payload a frame may carry: 1 MiB.
pub const MAX_MESSAGE_BYTES: usize = 1024 * 1024;

/// The longest Unix socket path accepted, in bytes.
pub const MAX_SOCKET_PATH_BYTES: usize = 100;

/// The longest Windows pipe name accepted, in bytes.
pub const MAX_PIPE_NAME_BYTES: usize = 240;

/// Transport failures.
#[derive(Debug, Clone, PartialEq, Eq)]
pub enum IpcError {
    Unsupported,
    InvalidEndpoint(String),
    MessageTooLarge,
    Windows { operation: String, code: u32 },
    Io { operation: String, message: String },
    Protocol(String),
}

pub open spec fn is_endpoint_id_char(c: char) -> bool {
    ('a' <= c && c <= 'z') || ('A' <= c && c <= 'Z') || ('0' <= c && c <= '9') || c == '-' || c
        == '_'
}

/// An endpoint identifier is 1–64 ASCII letters, digits, hyphens or underscores.
pub open spec fn is_valid_endpoint_id(id: Seq<char>) -> bool {
    1 <= id.len() <= 64 && forall|i: int| 0 <= i < id.len() ==> is_endpoint_id_char(#[trigger] id[i])
}

pub open spec fn endpoint_id_error() -> Seq<char> {
    "the id must contain 1-64 ASCII letters, digits, hyphens, or underscores"@
}

pub open spec fn pipe_prefix() -> Seq<char> {
    "\\\\.\\pipe\\"@
}

/// Accepts a valid endpoint identifier.
pub fn validate_endpoint_id(id: &str) -> (r: Result<(), IpcError>)
    ensures
        r is Ok <==> is_valid_endpoint_id(id@),
        r matches Err(IpcError::InvalidEndpoint(m)) ==> m@ == endpoint_id_error(),
        r matches Err(e) ==> e is InvalidEndpoint,
{
    let chars = chars_of(id);
    let mut ok = chars.len() >= 1 && chars.len() <= 64;
    let mut i: usize = 0;
    while i < chars.len()
        invariant
            i <= chars@.len(),
            chars@ == id@,
            ok <==> (1 <= chars@.len() <= 64 && forall|k: int| 0 <= k < i ==> is_endpoint_id_char(#[trigger] chars@[k])),
        decreases chars.len() - i,
    {
        let c = chars[i];
        if !(('a' <= c && c <= 'z') || ('A' <= c && c <= 'Z') || ('0' <= c && c <= '9') || c == '-'
            || c == '_') {
            ok = false;
        }
        i = i + 1;
    }
    if ok {
        Ok(())
    } else {
        Err(IpcError::InvalidEndpoint(owned(
            "the id must contain 1-64 ASCII letters, digits, hyphens, or underscores",
        )))
    }
}

/// The Windows named-pipe endpoint of the current user for `id`: `\\.\pipe\<id>`.
pub fn pipe_endpoint(id: &str) -> (r: Result<String, IpcError>)
    ensures
        r is Ok <==> is_valid_endpoint_id(id@),
        r matches Ok(name) ==> name@ == pipe_prefix() + id@,
        r matches Err(IpcError::InvalidEndpoint(m)) ==> m@ == endpoint_id_error(),
        r matches Err(e) ==> e is InvalidEndpoint,
{
    validate_endpoint_id(id)?;
    let mut name = owned("\\\\.\\pipe\\");
    push_str(&mut name, id);
    Ok(name)
}

pub open spec fn socket_too_long_error() -> Seq<char> {
    "the Unix socket path exceeds 100 bytes"@
}

/// The Unix socket endpoint for `id` inside the private runtime `directory`:
/// `<directory>/<id>.sock`, at most 100 bytes long.
pub fn socket_endpoint(directory: &str, id: &str) -> (r: Result<String, IpcError>)
    ensures
        ({
            let path = directory@ + seq!['/'] + id@ + seq!['.', 's', 'o', 'c', 'k'];
            &&& r is Ok <==> (is_valid_endpoint_id(id@) && utf8_len(path) <= 100)
            &&& r matches Ok(p) ==> p@ == path
            &&& r matches Err(e) ==> e is InvalidEndpoint
            &&& r matches Err(IpcError::InvalidEndpoint(m)) ==> m@ == (if !is_valid_endpoint_id(id@) {
                endpoint_id_error()
            } else {
                socket_too_long_error()
            })
        }),
{
    validate_endpoint_id(id)?;
    let mut path = owned(directory);
    push_str(&mut path, "/");
    push_str(&mut path, id);
    push_str(&mut path, ".sock");
    proof {
        reveal_strlit("/");
        reveal_strlit(".sock");
        assert("/"@ =~= seq!['/']);
        assert(".sock"@ =~= seq!['.', 's', 'o', 'c', 'k']);
        assert(path@ =~= directory@ + seq!['/'] + id@ + seq!['.', 's', 'o', 'c', 'k']);
    }
    let path_chars = chars_of(path.as_str());
    if utf8_byte_len(&path_chars) > 100 {
        return Err(IpcError::InvalidEndpoint(owned("the Unix socket path exceeds 100 bytes")));
    }
    Ok(path)
}

/// Accepts a Windows pipe name: it lies under `\\.\pipe\` and is at most 240 bytes.
pub fn validate_pipe_name(name: &str) -> (r: Result<(), IpcError>)
    ensures
        r is Ok <==> (crate::text::is_prefix(pipe_prefix(), name@) && utf8_len(name@)
            <= 240),
        r matches Err(e) ==> e is Windows,
        r matches Err(IpcError::Windows { operation, code }) ==> operation@ == "validate pipe name"@
            && code == 87,
{
    let chars = chars_of(name);
    let prefix = chars_of("\\\\.\\pipe\\");
    proof {
        reveal_strlit("\\\\.\\pipe\\");
    }
    if !starts_with(&chars, &prefix) || utf8_byte_len(&chars) > 240 {
        return Err(IpcError::Windows { operation: owned("validate pipe name"), code: 87 });
    }
    Ok(())
}

pub open spec fn socket_path_error() -> Seq<char> {
    "a Unix endpoint must be an absolute path of at most 100 bytes"@
}

/// Accepts a Unix socket path: absolute (rooted at `/`) and at most 100 bytes.
pub fn validate_socket_path(path: &str) -> (r: Result<(), IpcError>)
    ensures
        r is Ok <==> (path@.len() > 0 && path@[0] == '/' && utf8_len(path@) <= 100),
        r matches Err(e) ==> e is InvalidEndpoint,
        r matches Err(IpcError::InvalidEndpoint(m)) ==> m@ == socket_path_error(),
{
    let chars = chars_of(path);
    if chars.len() == 0 || chars[0] != '/' || utf8_byte_len(&chars) > 100 {
        return Err(IpcError::InvalidEndpoint(
            owned("a Unix endpoint must be an absolute path of at most 100 bytes"),
        ));
    }
    Ok(())
}

/// The little-endian value of four bytes.
pub open spec fn le_value(b: Seq<u8>) -> nat {
    b[0] as nat + 256 * (b[1] as nat) + 65536 * (b[2] as nat) + 16777216 * (b[3] as nat)
}

/// The frame of `payload`: its length in four little-endian bytes, then the payload.
pub open spec fn spec_frame(payload: Seq<u8>) -> Seq<u8> {
    let n = payload.len();
    seq![(n % 256) as u8, ((n / 256) % 256) as u8, ((n / 65536) % 256) as u8, ((n / 16777216) % 256) as u8]
        + payload
}

/// Frames `payload`, refusing payloads over [`MAX_MESSAGE_BYTES`] before anything is written.
pub fn encode_frame(payload: &[u8]) -> (r: Result<Vec<u8>, IpcError>)
    ensures
        r is Ok <==> payload@.len() <= MAX_MESSAGE_BYTES,
        r matches Ok(frame) ==> frame@ == spec_frame(payload@),
        r matches Err(e) ==> e is MessageTooLarge,
{
    let n = payload.len();
    if n > MAX_MESSAGE_BYTES {
        return Err(IpcError::MessageTooLarge);
    }
    let mut frame: Vec<u8> = Vec::new();
    frame.push((n % 256) as u8);
    frame.push(((n / 256) % 256) as u8);
    frame.push(((n / 65536) % 256) as u8);
    frame.push(((n / 16777216) % 256) as u8);
    let mut i: usize = 0;
    while i < n
        invariant
            n == payload@.len(),
            i <= n,
            frame@ == seq![(n % 256) as u8, ((n / 256) % 256) as u8, ((n / 65536) % 256) as u8, ((n / 16777216) % 256) as u8]
                + payload@.subrange(0, i as int),
        decreases n - i,
    {
        frame.push(payload[i]);
        i = i + 1;
        assert(frame@ =~= seq![(n % 256) as u8, ((n / 256) % 256) as u8, ((n / 65536) % 256) as u8, ((n / 16777216) % 256) as u8]
            + payload@.subrange(0, i as int));
    }
    assert(payload@.subrange(0, n as int) =~= payload@);
    Ok(frame)
}

/// Reads the payload length from a frame header, refusing lengths over [`MAX_MESSAGE_BYTES`].
pub fn decode_frame_length(header: &[u8]) -> (r: Result<usize, IpcError>)
    requires
        header@.len() == 4,
    ensures
        r is Ok <==> le_value(header@) <= MAX_MESSAGE_BYTES,
        r matches Ok(n) ==> n == le_value(header@),
        r matches Err(e) ==> e is MessageTooLarge,
{
    let value: u64 = header[0] as u64 + 256 * (header[1] as u64) + 65536 * (header[2] as u64)
        + 16777216 * (header[3] as u64);
    if value > MAX_MESSAGE_BYTES as u64 {
        return Err(IpcError::MessageTooLarge);
    }
    Ok(value as usize)
}

/// Reading back a frame's header gives the payload length, and the payload
/// follows it unchanged.
pub proof fn lemma_frame_round_trip(payload: Seq<u8>)
    requires
        payload.len() <= MAX_MESSAGE_BYTES,
    ensures
        spec_frame(payload).len() == payload.len() + 4,
        le_value(spec_frame(payload).subrange(0, 4)) == payload.len(),
        spec_frame(payload).subrange(4, spec_frame(payload).len() as int) == payload,
{
    let f = spec_frame(payload);
    let n = payload.len();
    let h = f.subrange(0, 4);
    assert(h[0] == (n % 256) as u8);
    assert(h[1] == ((n / 256) % 256) as u8);
    assert(h[2] == ((n / 65536) % 256) as u8);
    assert(h[3] == ((n / 16777216) % 256) as u8);
    assert((n % 256) + 256 * ((n / 256) % 256) + 65536 * ((n / 65536) % 256) + 16777216 * ((n
        / 16777216) % 256) == n) by (nonlinear_arith)
        requires
            n <= 1048576,
    ;
    assert(f.subrange(4, f.len() as int) =~= payload);
}

// ---------------------------------------------------------------------------
// Error text
// ---------------------------------------------------------------------------

/// The sentence describing a transport failure.
pub open spec fn ipc_error_text(e: IpcError) -> Seq<char> {
    match e {
        IpcError::Unsupported => "IPC is unsupported on this platform"@,
        IpcError::InvalidEndpoint(m) => "invalid current-user endpoint: "@ + m@,
        IpcError::MessageTooLarge => "message exceeds the IPC limit"@,
        IpcError::Windows { operation, code } => operation@ + " failed with Windows error "@
            + crate::format::decimal(code as nat),
        IpcError::Io { operation, message } => operation@ + " failed: "@ + message@,
        IpcError::Protocol(m) => "protocol encoding failed: "@ + m@,
    }
}

impl IpcError {
    /// The failure as a sentence.
    pub fn message(&self) -> (r: String)
        ensures
            r@ == ipc_error_text(*self),
    {
        match self {
            IpcError::Unsupported => owned("IPC is unsupported on this platform"),
            IpcError::InvalidEndpoint(m) => {
                let mut r = owned("invalid current-user endpoint: ");
                push_str(&mut r, m.as_str());
                r
            },
            IpcError::MessageTooLarge => owned("message exceeds the IPC limit"),
            IpcError::Windows { operation, code } => {
                let mut r = owned(operation.as_str());
                push_str(&mut r, " failed with Windows error ");
                crate::format::push_decimal(&mut r, *code as u64);
                r
            },
            IpcError::Io { operation, message } => {
                let mut r = owned(operation.as_str());
                push_str(&mut r, " failed: ");
                push_str(&mut r, message.as_str());
                r
            },
            IpcError::Protocol(m) => {
                let mut r = owned("protocol encoding failed: ");
                push_str(&mut r, m.as_str());
                r
            },
        }
    }
}

// ---------------------------------------------------------------------------
// Owner-only Unix endpoints
// ---------------------------------------------------------------------------

/// What `symlink_metadata` says about a file-system entry.
#[derive(Debug, Clone, Copy, PartialEq, Eq)]
pub struct EntryFacts {
    pub is_symlink: bool,
    pub is_dir: bool,
    pub is_socket: bool,
    /// The owner's user id.
    pub owner: u32,
    /// The permission bits.
    pub mode: u32,
}

/// No permission bit is granted to the group or to others.
pub open spec fn owner_only(mode: u32) -> bool {
    mode & 0o077u32 == 0
}

fn invalid(message: &str) -> (r: IpcError)
    ensures
        r == IpcError::InvalidEndpoint(r->InvalidEndpoint_0),
        r->InvalidEndpoint_0@ == message@,
{
    IpcError::InvalidEndpoint(owned(message))
}

/// An existing runtime directory must be a real directory of the user.
pub fn check_runtime_directory(facts: &EntryFacts, uid: u32) -> (r: Result<(), IpcError>)
    ensures
        r is Ok <==> (!facts.is_symlink && facts.is_dir && facts.owner == uid),
        r matches Err(e) ==> (e matches IpcError::InvalidEndpoint(m)
            && m@ == "the runtime directory is not an owner-controlled directory"@),
{
    if facts.is_symlink || !facts.is_dir || facts.owner != uid {
        return Err(invalid("the runtime directory is not an owner-controlled directory"));
    }
    Ok(())
}

/// After securing, the runtime directory must be a real directory of the
/// user that only the user can enter.
pub fn check_private_directory(facts: &EntryFacts, uid: u32) -> (r: Result<(), IpcError>)
    ensures
        r is Ok <==> (!facts.is_symlink && facts.is_dir && facts.owner == uid && owner_only(facts.mode)),
        r matches Err(e) ==> (e matches IpcError::InvalidEndpoint(m)
            && m@ == "the runtime directory permissions are not owner-only"@),
{
    if facts.is_symlink || !facts.is_dir || facts.owner != uid || facts.mode & 0o077 != 0 {
        return Err(invalid("the runtime directory permissions are not owner-only"));
    }
    Ok(())
}

/// A freshly bound socket must be a socket of the user that only the user can use.
pub fn check_bound_socket(facts: &EntryFacts, uid: u32) -> (r: Result<(), IpcError>)
    ensures
        r is Ok <==> (facts.is_socket && facts.owner == uid && owner_only(facts.mode)),
        r matches Err(e) ==> (e matches IpcError::InvalidEndpoint(m)
            && m@ == "the Unix socket is not owner-only"@),
{
    if !facts.is_socket || facts.owner != uid || facts.mode & 0o077 != 0 {
        return Err(invalid("the Unix socket is not owner-only"));
    }
    Ok(())
}

/// The socket a client connects to must be a real socket owned only by the user.
pub fn check_peer_socket(facts: &EntryFacts, uid: u32) -> (r: Result<(), IpcError>)
    ensures
        r is Ok <==> (!facts.is_symlink && facts.is_socket && facts.owner == uid && owner_only(
            facts.mode,
        )),
        r matches Err(e) ==> (e matches IpcError::InvalidEndpoint(m)
            && m@ == "the Unix socket peer is not owned exclusively by the current user"@),
{
    if facts.is_symlink || !facts.is_socket || facts.owner != uid || facts.mode & 0o077 != 0 {
        return Err(invalid("the Unix socket peer is not owned exclusively by the current user"));
    }
    Ok(())
}

/// An occupied endpoint may be reclaimed only when it is a real socket of the user.
pub fn check_stale_endpoint(facts: &EntryFacts, uid: u32) -> (r: Result<(), IpcError>)
    ensures
        r is Ok <==> (!facts.is_symlink && facts.is_socket && facts.owner == uid),
        r matches Err(e) ==> (e matches IpcError::InvalidEndpoint(m)
            && m@ == "the occupied Unix endpoint is not an owner-controlled socket"@),
{
    if facts.is_symlink || !facts.is_socket || facts.owner != uid {
        return Err(invalid("the occupied Unix endpoint is not an owner-controlled socket"));
    }
    Ok(())
}

/// The process at the other end must run as the user.
pub fn check_peer_user(peer_uid: u32, uid: u32) -> (r: Result<(), IpcError>)
    ensures
        r is Ok <==> peer_uid == uid,
        r matches Err(e) ==> (e matches IpcError::InvalidEndpoint(m)
            && m@ == "the Unix socket peer belongs to another user"@),
{
    if peer_uid != uid {
        return Err(invalid("the Unix socket peer belongs to another user"));
    }
    Ok(())
}

/// The private runtime directory: `recentry` under an absolute
/// `XDG_RUNTIME_DIR`, else `/tmp/recentry-<uid>`.
pub fn runtime_directory(xdg_runtime_dir: Option<&str>, uid: u32) -> (r: String)
    ensures
        r@ == match xdg_runtime_dir {
            Some(d) => if d@.len() > 0 && d@[0] == '/' {
                crate::paths::join(crate::paths::PlatformKind::Linux, d@, "recentry"@)
            } else {
                "/tmp/recentry-"@ + crate::format::decimal(uid as nat)
            },
            None => "/tmp/recentry-"@ + crate::format::decimal(uid as nat),
        },
{
    if let Some(d) = xdg_runtime_dir {
        let c = chars_of(d);
        if c.len() > 0 && c[0] == '/' {
            return crate::paths::join_path(crate::paths::PlatformKind::Linux, d, "recentry");
        }
    }
    let mut r = owned("/tmp/recentry-");
    crate::format::push_decimal(&mut r, uid as u64);
    r
}

// ---------------------------------------------------------------------------
// Connecting
// ---------------------------------------------------------------------------

/// Windows error: the pipe does not exist yet.
pub const ERROR_FILE_NOT_FOUND: u32 = 2;

/// Windows error: every instance of the pipe is busy.
pub const ERROR_PIPE_BUSY: u32 = 231;

/// What a client does after a failed attempt to connect.
#[derive(Debug, Clone, PartialEq, Eq)]
pub enum ConnectStep {
    /// Give up with this error.
    Fail(IpcError),
    /// Wait this many milliseconds for the endpoint, then try again.
    Wait(u32),
}

/// After `CreateFileW` failed with `code`, `elapsed_us` microseconds into a
/// connection attempt limited to `timeout_ms`: other errors than a busy or
/// missing pipe fail at once; an exhausted timeout fails; otherwise wait for
/// the pipe for what is left, at most 100 ms.
pub fn pipe_connect_step(code: u32, elapsed_us: u64, timeout_ms: u32) -> (r: ConnectStep)
    ensures
        ({
            let remaining_us = timeout_ms * 1000 - elapsed_us;
            if code != ERROR_PIPE_BUSY && code != ERROR_FILE_NOT_FOUND {
                r matches ConnectStep::Fail(IpcError::Windows { operation, code: c })
                    && operation@ == "CreateFileW"@ && c == code
            } else if remaining_us <= 0 {
                r matches ConnectStep::Fail(IpcError::Windows { operation, code: c })
                    && operation@ == "connect timeout"@ && c == code
            } else {
                r == ConnectStep::Wait(if remaining_us / 1000 < 100 {
                    (remaining_us / 1000) as u32
                } else {
                    100
                })
            }
        }),
{
    if code != ERROR_PIPE_BUSY && code != ERROR_FILE_NOT_FOUND {
        return ConnectStep::Fail(IpcError::Windows { operation: owned("CreateFileW"), code });
    }
    let timeout_us: u64 = timeout_ms as u64 * 1000;
    if elapsed_us >= timeout_us {
        return ConnectStep::Fail(IpcError::Windows { operation: owned("connect timeout"), code });
    }
    let remaining_ms = (timeout_us - elapsed_us) / 1000;
    ConnectStep::Wait(if remaining_ms < 100 {
        remaining_ms as u32
    } else {
        100
    })
}

/// After a Unix connection attempt found no listener, `elapsed_ms` into an
/// attempt limited to `timeout_ms`: fail once the timeout has passed,
/// otherwise wait 2 ms and try again.
pub fn socket_connect_step(elapsed_ms: u64, timeout_ms: u32) -> (r: ConnectStep)
    ensures
        elapsed_ms >= timeout_ms ==> (r matches ConnectStep::Fail(IpcError::Io { operation, message })
            && operation@ == "connect Unix socket"@ && message@ == "connection timed out"@),
        elapsed_ms < timeout_ms ==> r == ConnectStep::Wait(2),
{
    if elapsed_ms >= timeout_ms as u64 {
        return ConnectStep::Fail(
            IpcError::Io { operation: owned("connect Unix socket"), message: owned("connection timed out") },
        );
    }
    ConnectStep::Wait(2)
}

proof fn lemma_ascii_utf8_len(s: Seq<char>)
    requires
        forall|i: int| 0 <= i < s.len() ==> (#[trigger] s[i] as u32) < 128,
    ensures
        utf8_len(s) == s.len(),
    decreases s.len(),
{
    if s.len() > 0 {
        assert forall|i: int| 0 <= i < s.drop_first().len() implies (#[trigger] s.drop_first()[i] as u32)
            < 128 by {
            assert(s.drop_first()[i] == s[i + 1]);
        }
        lemma_ascii_utf8_len(s.drop_first());
    }
}

/// Every current-user pipe endpoint is a pipe name the transport accepts:
/// it lies under `\\.\pipe\` and is well within 240 bytes.
pub proof fn lemma_pipe_endpoints_are_valid_names(id: Seq<char>)
    requires
        is_valid_endpoint_id(id),
    ensures
        crate::text::is_prefix(pipe_prefix(), pipe_prefix() + id),
        utf8_len(pipe_prefix() + id) <= MAX_PIPE_NAME_BYTES,
{
    reveal_strlit("\\\\.\\pipe\\");
    let name = pipe_prefix() + id;
    assert(pipe_prefix().len() == 9);
    assert forall|i: int| 0 <= i < name.len() implies (#[trigger] name[i] as u32) < 128 by {
        if i >= 9 {
            assert(name[i] == id[i - 9]);
            assert(is_endpoint_id_char(id[i - 9]));
        }
    }
    lemma_ascii_utf8_len(name);
    assert(name.subrange(0, 9) =~= pipe_prefix());
}

} // verus!
