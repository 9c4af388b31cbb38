//! Local control plane decisions.
//!
//! External tools ask the running bridge, over TCP on 127.0.0.1, to release
//! the serial port without stopping the process (pause/resume), to report
//! its status, or to shut down; binary frames carry controller RPC. The
//! library decides what each request means and what the answer holds; the
//! sockets, channels and waiting live outside it.

use vstd::prelude::*;
use vstd::string::StringSliceAdditionalSpecFns;
use crate::bridge::controller_rpc::ControllerRpcError;
use crate::codec::oc_log::{leading_white_space, lemma_leading_white_space};
use crate::control_binary::{RequestHeader, Status};
use crate::text::{is_white_space, is_whitespace, str_to_chars, string_from_chars};

verus! {

pub const CONTROL_SCHEMA: u32 = 1;
/// Largest control request accepted, in bytes.
pub const MAX_CONTROL_REQUEST_BYTES: usize = 128 * 1024;

#[derive(Debug, Clone, Copy, PartialEq, Eq, Structural)]
pub enum SerialRunState {
    Running,
    Paused,
}

impl SerialRunState {
    pub fn is_paused(&self) -> (r: bool)
        ensures
            r == (*self == SerialRunState::Paused),
    {
        match self {
            SerialRunState::Paused => true,
            SerialRunState::Running => false,
        }
    }
}

/// Identity and ports of the running daemon.
#[derive(Debug, Clone)]
pub struct ControlInfo {
    pub pid: u32,
    pub version: String,
    pub config_path: String,
    pub instance_id: String,
    pub controller_serial: Option<String>,
    pub host_udp_port: u16,
    pub log_broadcast_port: u16,
    pub control_port: u16,
    pub serial_supported: bool,
}

/// Answer to a JSON control request.
#[derive(Debug, Clone)]
pub struct Response {
    pub schema: Option<u32>,
    pub ok: bool,
    pub paused: bool,
    pub serial_open: bool,
    pub message: Option<String>,
    pub pid: Option<u32>,
    pub version: Option<String>,
    pub config_path: Option<String>,
    pub instance_id: Option<String>,
    pub controller_serial: Option<String>,
    pub resolved_serial_port: Option<String>,
    pub host_udp_port: Option<u16>,
    pub log_broadcast_port: Option<u16>,
    pub control_port: Option<u16>,
}

pub open spec fn opt_view(o: Option<String>) -> Option<Seq<char>> {
    match o {
        Some(s) => Some(s@),
        None => None,
    }
}

fn clone_opt(o: &Option<String>) -> (r: Option<String>)
    ensures
        opt_view(r) == opt_view(*o),
{
    match o {
        Some(s) => Some(s.clone()),
        None => None,
    }
}

/// Whether the command asks for the daemon's identity and ports.
pub open spec fn wants_info(cmd: Seq<char>) -> bool {
    cmd == "status"@ || cmd == "info"@
}

/// The answer to a control command: schema, outcome, pause and serial
/// state always; for "status" and "info", the daemon's identity, the
/// resolved serial port and the ports as well.
pub fn build_response(
    cmd: &str,
    desired: SerialRunState,
    serial_open: bool,
    resolved_serial_port: Option<String>,
    info: &ControlInfo,
    ok: bool,
    message: Option<String>,
) -> (r: Response)
    ensures
        r.schema == Some(CONTROL_SCHEMA),
        r.ok == ok,
        r.paused == (desired == SerialRunState::Paused),
        r.serial_open == serial_open,
        opt_view(r.message) == opt_view(message),
        wants_info(cmd@) ==> {
            &&& r.pid == Some(info.pid)
            &&& opt_view(r.version) == Some(info.version@)
            &&& opt_view(r.config_path) == Some(info.config_path@)
            &&& opt_view(r.instance_id) == Some(info.instance_id@)
            &&& opt_view(r.controller_serial) == opt_view(info.controller_serial)
            &&& opt_view(r.resolved_serial_port) == opt_view(resolved_serial_port)
            &&& r.host_udp_port == Some(info.host_udp_port)
            &&& r.log_broadcast_port == Some(info.log_broadcast_port)
            &&& r.control_port == Some(info.control_port)
        },
        !wants_info(cmd@) ==> {
            &&& r.pid is None
            &&& r.version is None
            &&& r.config_path is None
            &&& r.instance_id is None
            &&& r.controller_serial is None
            &&& r.resolved_serial_port is None
            &&& r.host_udp_port is None
            &&& r.log_broadcast_port is None
            &&& r.control_port is None
        },
{
    let mut resp = Response {
        schema: Some(CONTROL_SCHEMA),
        ok,
        paused: desired.is_paused(),
        serial_open,
        message,
        pid: None,
        version: None,
        config_path: None,
        instance_id: None,
        controller_serial: None,
        resolved_serial_port: None,
        host_udp_port: None,
        log_broadcast_port: None,
        control_port: None,
    };
    let status = String::from_str("status");
    let info_cmd = String::from_str("info");
    let cmd_s = cmd.to_owned();
    if cmd_s == status || cmd_s == info_cmd {
        resp.pid = Some(info.pid);
        resp.version = Some(info.version.clone());
        resp.config_path = Some(info.config_path.clone());
        resp.instance_id = Some(info.instance_id.clone());
        resp.controller_serial = clone_opt(&info.controller_serial);
        resp.resolved_serial_port = resolved_serial_port;
        resp.host_udp_port = Some(info.host_udp_port);
        resp.log_broadcast_port = Some(info.log_broadcast_port);
        resp.control_port = Some(info.control_port);
    }
    resp
}

/// What a control command asks the daemon to do.
#[derive(Debug, Clone, Copy, PartialEq, Eq, Structural)]
pub enum ControlAction {
    /// Release the serial port, then answer once it is closed.
    Pause,
    /// Take the serial port back.
    Resume,
    /// Stop the daemon.
    Shutdown,
    /// Answer only.
    Report,
}

/// The decision on a control command: the command in lower case, the action,
/// and the outcome and message to answer with (a pause that does not
/// complete in time is answered by the caller).
pub struct CommandPlan {
    pub cmd: String,
    pub action: ControlAction,
    pub ok: bool,
    pub message: Option<String>,
}

/// ASCII lower case of a character.
pub open spec fn ascii_lower(c: char) -> char {
    if 'A' <= c && c <= 'Z' {
        ((c as u32) + 32) as char
    } else {
        c
    }
}

pub open spec fn ascii_lowercase(s: Seq<char>) -> Seq<char> {
    s.map_values(|c: char| ascii_lower(c))
}

/// `str::to_ascii_lowercase`.
pub fn to_ascii_lowercase(s: &str) -> (r: String)
    ensures
        r@ == ascii_lowercase(s@),
{
    let chars = str_to_chars(s);
    let mut out: Vec<char> = Vec::new();
    let mut i: usize = 0;
    while i < chars.len()
        invariant
            i <= chars@.len(),
            out@ == ascii_lowercase(chars@.take(i as int)),
        decreases chars@.len() - i,
    {
        let c = chars[i];
        let lower = if 'A' <= c && c <= 'Z' {
            let code = (c as u32) + 32;
            proof {
                assert(ascii_lower(c) == code as char);
            }
            char_from_ascii(code)
        } else {
            c
        };
        out.push(lower);
        assert(ascii_lowercase(chars@.take(i + 1)) =~= ascii_lowercase(chars@.take(i as int)).push(
            ascii_lower(c),
        ));
        i = i + 1;
    }
    assert(chars@.take(chars@.len() as int) =~= chars@);
    string_from_chars(out.as_slice())
}

/// The character of an ASCII lower-case letter code.
fn char_from_ascii(code: u32) -> (c: char)
    requires
        97 <= code <= 122,
    ensures
        c == code as char,
{
    let letters = ['a', 'b', 'c', 'd', 'e', 'f', 'g', 'h', 'i', 'j', 'k', 'l', 'm', 'n', 'o', 'p', 'q', 'r', 's', 't', 'u', 'v', 'w', 'x', 'y', 'z'];
    let c = letters[(code - 97) as usize];
    assert(letters@[(code - 97) as int] == code as char) by {
        assert(letters@[0] == 97 as char);
    }
    c
}

/// The decision on a control command, compared in ASCII lower case: pause
/// and resume need a serial controller; status, ping and info only report;
/// shutdown stops the daemon; anything else is refused as unknown.
pub open spec fn spec_plan(cmd: Seq<char>, serial_supported: bool) -> (ControlAction, bool, Option<Seq<char>>) {
    let c = ascii_lowercase(cmd);
    if c == "pause"@ {
        if serial_supported {
            (ControlAction::Pause, true, None)
        } else {
            (ControlAction::Report, false, Some("pause not supported (controller transport is not Serial)"@))
        }
    } else if c == "resume"@ {
        if serial_supported {
            (ControlAction::Resume, true, None)
        } else {
            (ControlAction::Report, false, Some("resume not supported (controller transport is not Serial)"@))
        }
    } else if c == "status"@ || c == "ping"@ || c == "info"@ {
        (ControlAction::Report, true, None)
    } else if c == "shutdown"@ {
        (ControlAction::Shutdown, true, None)
    } else {
        (ControlAction::Report, false, Some("unknown cmd: "@ + c))
    }
}

/// Whether a lower-case command is one the daemon knows.
pub open spec fn is_known_command(c: Seq<char>) -> bool {
    c == "pause"@ || c == "resume"@ || c == "status"@ || c == "ping"@ || c == "info"@ || c
        == "shutdown"@
}

/// A plan does what its command names, whatever the case of the command:
/// only "pause" pauses and only "resume" resumes, each only with a serial
/// controller; only "shutdown" shuts down. A plan succeeds exactly for a known
/// command that the transport allows, and carries a message exactly when it
/// fails.
pub proof fn lemma_plan_does_what_it_names(cmd: Seq<char>, serial_supported: bool)
    ensures
        (spec_plan(cmd, serial_supported).0 == ControlAction::Pause) <==> (ascii_lowercase(cmd)
            == "pause"@ && serial_supported),
        (spec_plan(cmd, serial_supported).0 == ControlAction::Resume) <==> (ascii_lowercase(cmd)
            == "resume"@ && serial_supported),
        (spec_plan(cmd, serial_supported).0 == ControlAction::Shutdown) <==> ascii_lowercase(cmd)
            == "shutdown"@,
        spec_plan(cmd, serial_supported).1 <==> (is_known_command(ascii_lowercase(cmd)) && (
        serial_supported || (ascii_lowercase(cmd) != "pause"@ && ascii_lowercase(cmd)
            != "resume"@))),
        spec_plan(cmd, serial_supported).1 <==> spec_plan(cmd, serial_supported).2 is None,
{
    reveal_strlit("pause");
    reveal_strlit("resume");
    reveal_strlit("status");
    reveal_strlit("ping");
    reveal_strlit("info");
    reveal_strlit("shutdown");
    let c = ascii_lowercase(cmd);
    assert("pause"@ != "resume"@) by {
        assert("pause"@[0] != "resume"@[0]);
    }
    assert("pause"@ != "shutdown"@) by {
        assert("pause"@.len() != "shutdown"@.len());
    }
    assert("resume"@ != "shutdown"@) by {
        assert("resume"@.len() != "shutdown"@.len());
    }
    assert("status"@ != "shutdown"@) by {
        assert("status"@.len() != "shutdown"@.len());
    }
    assert("ping"@ != "shutdown"@) by {
        assert("ping"@.len() != "shutdown"@.len());
    }
    assert("info"@ != "shutdown"@) by {
        assert("info"@.len() != "shutdown"@.len());
    }
}

pub fn plan_command(cmd: &str, serial_supported: bool) -> (p: CommandPlan)
    ensures
        p.cmd@ == ascii_lowercase(cmd@),
        (p.action, p.ok, opt_view(p.message)) == spec_plan(cmd@, serial_supported),
{
    let lower = to_ascii_lowercase(cmd);
    if lower == String::from_str("pause") {
        if serial_supported {
            CommandPlan { cmd: lower, action: ControlAction::Pause, ok: true, message: None }
        } else {
            CommandPlan {
                cmd: lower,
                action: ControlAction::Report,
                ok: false,
                message: Some(String::from_str("pause not supported (controller transport is not Serial)")),
            }
        }
    } else if lower == String::from_str("resume") {
        if serial_supported {
            CommandPlan { cmd: lower, action: ControlAction::Resume, ok: true, message: None }
        } else {
            CommandPlan {
                cmd: lower,
                action: ControlAction::Report,
                ok: false,
                message: Some(String::from_str("resume not supported (controller transport is not Serial)")),
            }
        }
    } else if lower == String::from_str("status") || lower == String::from_str("ping") || lower
        == String::from_str("info") {
        CommandPlan { cmd: lower, action: ControlAction::Report, ok: true, message: None }
    } else if lower == String::from_str("shutdown") {
        CommandPlan { cmd: lower, action: ControlAction::Shutdown, ok: true, message: None }
    } else {
        let mut message = String::from_str("unknown cmd: ");
        message.append(lower.as_str());
        CommandPlan { cmd: lower, action: ControlAction::Report, ok: false, message: Some(message) }
    }
}

/// Number of trailing white-space characters of `s`.
pub open spec fn trailing_white_space(s: Seq<char>) -> nat
    decreases s.len(),
{
    if s.len() == 0 || !is_white_space(s.last()) {
        0
    } else {
        1 + trailing_white_space(s.drop_last())
    }
}

/// `s` without white space at either end (`str::trim`).
pub open spec fn trim(s: Seq<char>) -> Seq<char> {
    let a = leading_white_space(s);
    if a == s.len() {
        Seq::empty()
    } else {
        s.subrange(a as int, s.len() - trailing_white_space(s))
    }
}

/// A scanned run of trailing white space that ends at the start or at
/// another character is `trailing_white_space`.
pub proof fn lemma_trailing_white_space_of(s: Seq<char>, r: nat)
    requires
        r <= s.len(),
        forall|i: int| s.len() - r <= i < s.len() ==> is_white_space(s[i]),
        r == s.len() || !is_white_space(s[s.len() - r - 1]),
    ensures
        trailing_white_space(s) == r,
    decreases s.len(),
{
    if r > 0 {
        assert forall|i: int| s.drop_last().len() - (r - 1) <= i < s.drop_last().len() implies is_white_space(s.drop_last()[i]) by {
            assert(s.drop_last()[i] == s[i]);
        }
        if r < s.len() {
            assert(s.drop_last()[s.drop_last().len() - (r - 1) - 1] == s[s.len() - r - 1]);
        }
        assert(is_white_space(s.last()));
        lemma_trailing_white_space_of(s.drop_last(), (r - 1) as nat);
    }
}

/// `s` without white space at either end.
pub fn trim_str(s: &str) -> (r: String)
    ensures
        r@ == trim(s@),
{
    let chars = str_to_chars(s);
    let n = chars.len();
    let mut a: usize = 0;
    while a < n && is_whitespace(chars[a])
        invariant
            n == chars@.len(),
            a <= n,
            forall|i: int| 0 <= i < a ==> is_white_space(chars@[i]),
        decreases n - a,
    {
        a = a + 1;
    }
    proof {
        lemma_leading_white_space(chars@, a as nat);
    }
    if a == n {
        return String::new();
    }
    let mut b: usize = n;
    while b > a && is_whitespace(chars[b - 1])
        invariant
            n == chars@.len(),
            a < n,
            a <= b <= n,
            !is_white_space(chars@[a as int]),
            forall|i: int| b <= i < n ==> is_white_space(chars@[i]),
        decreases b,
    {
        b = b - 1;
    }
    proof {
        lemma_trailing_white_space_of(chars@, (n - b) as nat);
    }
    assert(trim(s@) =~= chars@.subrange(a as int, b as int));
    string_from_chars(&chars.as_slice()[a..b])
}

/// A JSON control line checked before parsing: longer than
/// `MAX_CONTROL_REQUEST_BYTES` is "control request too large", blank is
/// "empty request"; otherwise the line without surrounding white space.
pub open spec fn spec_check_request_line(line: &str) -> Result<Seq<char>, Seq<char>> {
    if (line.spec_bytes().len() as usize) > MAX_CONTROL_REQUEST_BYTES {
        Err("control request too large"@)
    } else if trim(line@).len() == 0 {
        Err("empty request"@)
    } else {
        Ok(trim(line@))
    }
}

pub fn check_request_line(line: &str) -> (r: Result<String, String>)
    ensures
        match (r, spec_check_request_line(line)) {
            (Ok(a), Ok(b)) => a@ == b,
            (Err(a), Err(b)) => a@ == b,
            _ => false,
        },
{
    if line.len() > MAX_CONTROL_REQUEST_BYTES {
        return Err(String::from_str("control request too large"));
    }
    let text = trim_str(line);
    if text.as_str().unicode_len() == 0 {
        return Err(String::from_str("empty request"));
    }
    Ok(text)
}

/// Why a controller RPC request cannot be queued, if it cannot: the
/// controller is not on serial, the serial port is not open, or the payload
/// is empty.
pub open spec fn spec_rpc_refusal(serial_supported: bool, serial_open: bool, payload_len: nat) -> Option<(Status, Seq<char>)> {
    if !serial_supported {
        Some((Status::Unavailable, "controller rpc not supported (controller transport is not Serial)"@))
    } else if !serial_open {
        Some((Status::Unavailable, "controller rpc unavailable (serial is not open)"@))
    } else if payload_len == 0 {
        Some((Status::ProtocolError, "controller rpc payload is empty"@))
    } else {
        None
    }
}

pub fn check_rpc_request(serial_supported: bool, serial_open: bool, payload: &[u8]) -> (r: Result<(), (Status, String)>)
    ensures
        match spec_rpc_refusal(serial_supported, serial_open, payload@.len()) {
            None => r is Ok,
            Some((status, message)) => r matches Err((s, m)) && s == status && m@ == message,
        },
{
    if !serial_supported {
        return Err((Status::Unavailable, String::from_str("controller rpc not supported (controller transport is not Serial)")));
    }
    if !serial_open {
        return Err((Status::Unavailable, String::from_str("controller rpc unavailable (serial is not open)")));
    }
    if payload.len() == 0 {
        return Err((Status::ProtocolError, String::from_str("controller rpc payload is empty")));
    }
    Ok(())
}

/// A binary request whose payload is larger than a control request may be
/// is refused.
pub fn binary_request_too_large(header: &RequestHeader) -> (r: bool)
    ensures
        r == (header.payload_len > MAX_CONTROL_REQUEST_BYTES),
{
    header.payload_len > MAX_CONTROL_REQUEST_BYTES
}

/// Binary status reporting a controller RPC error.
pub fn binary_status_from_controller_error(err: ControllerRpcError) -> (s: Status)
    ensures
        s == match err {
            ControllerRpcError::Busy => Status::Busy,
            ControllerRpcError::Disconnected => Status::Unavailable,
            ControllerRpcError::Timeout => Status::Timeout,
            ControllerRpcError::SendFailed => Status::SendFailed,
        },
{
    match err {
        ControllerRpcError::Busy => Status::Busy,
        ControllerRpcError::Disconnected => Status::Unavailable,
        ControllerRpcError::Timeout => Status::Timeout,
        ControllerRpcError::SendFailed => Status::SendFailed,
    }
}

/// Default, smallest and largest controller RPC timeouts, in milliseconds.
pub const DEFAULT_RPC_TIMEOUT_MS: u64 = 1_000;
pub const MIN_RPC_TIMEOUT_MS: u64 = 50;
pub const MAX_RPC_TIMEOUT_MS: u64 = 5_000;

/// The RPC timeout in milliseconds: the requested one (1000 when none)
/// clamped to 50..=5000.
pub fn bounded_rpc_timeout(timeout_ms: Option<u64>) -> (ms: u64)
    ensures
        ms == ({
            let t = match timeout_ms {
                Some(t) => t,
                None => DEFAULT_RPC_TIMEOUT_MS,
            };
            if t < MIN_RPC_TIMEOUT_MS {
                MIN_RPC_TIMEOUT_MS
            } else if t > MAX_RPC_TIMEOUT_MS {
                MAX_RPC_TIMEOUT_MS
            } else {
                t
            }
        }),
{
    let t = match timeout_ms {
        Some(t) => t,
        None => DEFAULT_RPC_TIMEOUT_MS,
    };
    if t < MIN_RPC_TIMEOUT_MS {
        MIN_RPC_TIMEOUT_MS
    } else if t > MAX_RPC_TIMEOUT_MS {
        MAX_RPC_TIMEOUT_MS
    } else {
        t
    }
}

/// Message reporting a controller RPC error.
pub fn controller_rpc_error_message(err: ControllerRpcError) -> (s: String)
    ensures
        s@ == err.spec_message(),
{
    err.message().to_owned()
}

} // verus!
