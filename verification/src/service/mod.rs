//! System service naming and permissions.
//!
//! The service itself is managed through the platform's service manager
//! (the Windows Service Control Manager, or a systemd user service on Linux);
//! the library decides which names are acceptable and what permissions the
//! service is given.

pub mod linux;
pub mod windows;

use vstd::prelude::*;
use vstd::utf8::encode_utf8;
use crate::config::HostPlatform;
use crate::error::BridgeError;

verus! {

/// Longest accepted service name, in bytes.
pub const MAX_SERVICE_NAME_BYTES: usize = 128;

/// The service name used when none is given: "OpenControlBridge" on
/// Windows, "open-control-bridge" elsewhere.
pub open spec fn spec_default_service_name(platform: HostPlatform) -> Seq<char> {
    if platform == HostPlatform::Windows {
        "OpenControlBridge"@
    } else {
        "open-control-bridge"@
    }
}

pub fn default_service_name(platform: HostPlatform) -> (s: &'static str)
    ensures
        s@ == spec_default_service_name(platform),
{
    if platform == HostPlatform::Windows {
        "OpenControlBridge"
    } else {
        "open-control-bridge"
    }
}

/// ASCII letters and digits, `-`, `_` and `.`.
pub open spec fn is_name_char(c: char) -> bool {
    ||| ('a' <= c && c <= 'z')
    ||| ('A' <= c && c <= 'Z')
    ||| ('0' <= c && c <= '9')
    ||| c == '-'
    ||| c == '_'
    ||| c == '.'
}

pub open spec fn service_suffix() -> Seq<char> {
    seq!['.', 's', 'e', 'r', 'v', 'i', 'c', 'e']
}

pub open spec fn ends_with(s: Seq<char>, suffix: Seq<char>) -> bool {
    s.len() >= suffix.len() && s.skip(s.len() - suffix.len()) == suffix
}

/// Why a service name is refused, if it is: empty; longer than 128 bytes;
/// on Linux, ending in ".service"; holding a character other than ASCII
/// letters, digits, `-`, `_` and `.`.
pub open spec fn name_problem(name: Seq<char>, platform: HostPlatform) -> Option<Seq<char>> {
    if name.len() == 0 {
        Some("must not be empty"@)
    } else if (encode_utf8(name).len() as usize) > MAX_SERVICE_NAME_BYTES {
        Some("too long"@)
    } else if platform == HostPlatform::Linux && ends_with(name, service_suffix()) {
        Some("do not include the '.service' suffix"@)
    } else if !(forall|i: int| 0 <= i < name.len() ==> is_name_char(#[trigger] name[i])) {
        Some("invalid characters (allowed: A-Z a-z 0-9 - _ .)"@)
    } else {
        None
    }
}

fn config_error(reason: &str) -> (e: BridgeError)
    ensures
        e matches BridgeError::ConfigValidation { field, reason: r } && field@ == "service-name"@
            && r@ == reason@,
{
    BridgeError::ConfigValidation { field: "service-name", reason: reason.to_owned() }
}

/// Checks a service name; on `platform`, see `name_problem`.
pub fn validate_service_name(name: &str, platform: HostPlatform) -> (res: Result<(), BridgeError>)
    ensures
        match name_problem(name@, platform) {
            None => res is Ok,
            Some(reason) => res matches Err(BridgeError::ConfigValidation { field, reason: r })
                && field@ == "service-name"@ && r@ == reason,
        },
{
    let chars = crate::text::str_to_chars(name);
    let n = chars.len();
    if n == 0 {
        return Err(config_error("must not be empty"));
    }
    if name.len() > MAX_SERVICE_NAME_BYTES {
        return Err(config_error("too long"));
    }
    if platform == HostPlatform::Linux && n >= 8 {
        let suffix = ['.', 's', 'e', 'r', 'v', 'i', 'c', 'e'];
        let mut k: usize = 0;
        while k < 8 && chars[n - 8 + k] == suffix[k]
            invariant
                n == chars@.len(),
                n >= 8,
                k <= 8,
                suffix@ == service_suffix(),
                forall|j: int| 0 <= j < k ==> chars@[n - 8 + j] == suffix@[j],
            decreases 8 - k,
        {
            k = k + 1;
        }
        if k == 8 {
            assert(chars@.skip(n - 8) =~= service_suffix());
            return Err(config_error("do not include the '.service' suffix"));
        }
        assert(chars@.skip(n - 8)[k as int] != service_suffix()[k as int]);
    }
    assert(!(platform == HostPlatform::Linux && ends_with(name@, service_suffix())));
    let mut i: usize = 0;
    while i < n
        invariant
            n == chars@.len(),
            chars@ == name@,
            i <= n,
            name@.len() > 0,
            !((encode_utf8(name@).len() as usize) > MAX_SERVICE_NAME_BYTES),
            !(platform == HostPlatform::Linux && ends_with(name@, service_suffix())),
            forall|j: int| 0 <= j < i ==> is_name_char(#[trigger] chars@[j]),
        decreases n - i,
    {
        let c = chars[i];
        let ok = ('a' <= c && c <= 'z') || ('A' <= c && c <= 'Z') || ('0' <= c && c <= '9') || c
            == '-' || c == '_' || c == '.';
        if !ok {
            assert(!is_name_char(name@[i as int]));
            return Err(config_error("invalid characters (allowed: A-Z a-z 0-9 - _ .)"));
        }
        i = i + 1;
    }
    Ok(())
}

/// The service name to use: the one given, or the platform's default,
/// once it passes `validate_service_name`.
pub fn resolve_service_name(service_name: Option<&str>, platform: HostPlatform) -> (res: Result<
    String,
    BridgeError,
>)
    ensures
        ({
            let name = match service_name {
                Some(n) => n@,
                None => spec_default_service_name(platform),
            };
            match name_problem(name, platform) {
                None => res matches Ok(s) && s@ == name,
                Some(reason) => res matches Err(BridgeError::ConfigValidation { field, reason: r })
                    && field@ == "service-name"@ && r@ == reason,
            }
        }),
{
    let chosen = match service_name {
        Some(n) => n,
        None => default_service_name(platform),
    };
    let name = chosen.to_owned();
    match validate_service_name(name.as_str(), platform) {
        Ok(()) => Ok(name),
        Err(e) => Err(e),
    }
}

/// How the service is installed: its name, the executable it runs when not
/// the running one, and (on Linux) whether to skip the desktop entry.
#[derive(Debug, Clone)]
pub struct ServiceInstallOptions {
    pub name: String,
    pub exec_path: Option<String>,
    pub no_desktop_file: bool,
}

/// What the file system says of a path.
#[derive(Debug, Clone, Copy, PartialEq, Eq, Structural)]
pub struct PathFacts {
    pub is_absolute: bool,
    pub exists: bool,
    pub is_file: bool,
}

pub open spec fn exec_problem(facts: PathFacts) -> Option<Seq<char>> {
    if !facts.is_absolute {
        Some("must be an absolute path"@)
    } else if !facts.exists {
        Some("path does not exist"@)
    } else if !facts.is_file {
        Some("must point to a file"@)
    } else {
        None
    }
}

fn exec_error(reason: &str) -> (e: BridgeError)
    ensures
        e matches BridgeError::ConfigValidation { field, reason: r } && field@ == "service-exec"@
            && r@ == reason@,
{
    BridgeError::ConfigValidation { field: "service-exec", reason: reason.to_owned() }
}

/// The executable the service runs instead of the current one, if one is
/// given: it must be absolute, exist, and be a file (`facts` describe it).
pub fn resolve_service_exec(service_exec: Option<&str>, facts: PathFacts) -> (res: Result<
    Option<String>,
    BridgeError,
>)
    ensures
        match service_exec {
            None => res matches Ok(None),
            Some(path) => match exec_problem(facts) {
                None => res matches Ok(Some(p)) && p@ == path@,
                Some(reason) => res matches Err(BridgeError::ConfigValidation { field, reason: r })
                    && field@ == "service-exec"@ && r@ == reason,
            },
        },
{
    match service_exec {
        None => Ok(None),
        Some(path) => {
            if !facts.is_absolute {
                Err(exec_error("must be an absolute path"))
            } else if !facts.exists {
                Err(exec_error("path does not exist"))
            } else if !facts.is_file {
                Err(exec_error("must point to a file"))
            } else {
                Ok(Some(path.to_owned()))
            }
        },
    }
}

} // verus!
