//! Service permissions on Windows, written as SDDL (Security Descriptor
//! Definition Language) strings.

use vstd::prelude::*;
use crate::text::{decimal, push_decimal};

verus! {

/// Service access rights.
pub const QUERY_CONFIG: &'static str = "CC";
pub const QUERY_STATUS: &'static str = "LC";
pub const ENUM_DEPENDENTS: &'static str = "SW";
pub const START: &'static str = "RP";
pub const STOP: &'static str = "WP";
pub const PAUSE_CONTINUE: &'static str = "DT";
pub const INTERROGATE: &'static str = "LO";
pub const USER_CONTROL: &'static str = "CR";
pub const READ_CONTROL: &'static str = "RC";
pub const DELETE: &'static str = "SD";
pub const WRITE_DAC: &'static str = "WD";
pub const WRITE_OWNER: &'static str = "WO";

/// Well-known trustees.
pub const SYSTEM: &'static str = "SY";
pub const ADMINISTRATORS: &'static str = "BA";
pub const INTERACTIVE: &'static str = "IU";
pub const SERVICE: &'static str = "SU";

/// Concatenation of the parts, in order.
pub open spec fn concat_chars(parts: Seq<Seq<char>>) -> Seq<char>
    decreases parts.len(),
{
    if parts.len() == 0 {
        Seq::empty()
    } else {
        concat_chars(parts.drop_last()) + parts.last()
    }
}

pub open spec fn str_views(parts: Seq<&str>) -> Seq<Seq<char>> {
    parts.map_values(|s: &str| s@)
}

pub open spec fn string_views(parts: Seq<String>) -> Seq<Seq<char>> {
    parts.map_values(|s: String| s@)
}

/// An "allow" access control entry: `(A;;<rights>;;;<trustee>)`.
pub open spec fn spec_allow(rights: Seq<Seq<char>>, trustee: Seq<char>) -> Seq<char> {
    "(A;;"@ + concat_chars(rights) + ";;;"@ + trustee + ")"@
}

/// A discretionary ACL: `D:` then the entries.
pub open spec fn spec_dacl(aces: Seq<Seq<char>>) -> Seq<char> {
    "D:"@ + concat_chars(aces)
}

/// Builds an "allow" access control entry.
pub fn allow(rights: &[&str], trustee: &str) -> (s: String)
    ensures
        s@ == spec_allow(str_views(rights@), trustee@),
{
    let mut s = String::from_str("(A;;");
    let mut i: usize = 0;
    while i < rights.len()
        invariant
            i <= rights@.len(),
            s@ == "(A;;"@ + concat_chars(str_views(rights@.take(i as int))),
        decreases rights@.len() - i,
    {
        s.append(rights[i]);
        proof {
            assert(str_views(rights@.take(i + 1)).drop_last() =~= str_views(rights@.take(i as int)));
            assert(str_views(rights@.take(i + 1)).last() == rights@[i as int]@);
        }
        i = i + 1;
    }
    assert(rights@.take(rights@.len() as int) =~= rights@);
    s.append(";;;");
    s.append(trustee);
    s.append(")");
    s
}

/// Builds a discretionary ACL from its entries.
pub fn dacl(aces: &[String]) -> (s: String)
    ensures
        s@ == spec_dacl(string_views(aces@)),
{
    let mut s = String::from_str("D:");
    let mut i: usize = 0;
    while i < aces.len()
        invariant
            i <= aces@.len(),
            s@ == "D:"@ + concat_chars(string_views(aces@.take(i as int))),
        decreases aces@.len() - i,
    {
        s.append(aces[i].as_str());
        proof {
            assert(string_views(aces@.take(i + 1)).drop_last() =~= string_views(aces@.take(i as int)));
            assert(string_views(aces@.take(i + 1)).last() == aces@[i as int]@);
        }
        i = i + 1;
    }
    assert(aces@.take(aces@.len() as int) =~= aces@);
    s
}

/// Rights of the local SYSTEM account: operational control, no delete or
/// permission changes.
pub open spec fn system_rights() -> Seq<Seq<char>> {
    seq![
        QUERY_CONFIG@,
        QUERY_STATUS@,
        ENUM_DEPENDENTS@,
        START@,
        STOP@,
        PAUSE_CONTINUE@,
        INTERROGATE@,
        USER_CONTROL@,
        READ_CONTROL@,
    ]
}

/// Rights of administrators: full control.
pub open spec fn admin_rights() -> Seq<Seq<char>> {
    seq![
        QUERY_CONFIG@,
        DELETE@,
        QUERY_STATUS@,
        ENUM_DEPENDENTS@,
        START@,
        STOP@,
        PAUSE_CONTINUE@,
        INTERROGATE@,
        USER_CONTROL@,
        READ_CONTROL@,
        WRITE_DAC@,
        WRITE_OWNER@,
    ]
}

/// Rights of interactive and service users: query, start and stop.
pub open spec fn user_rights() -> Seq<Seq<char>> {
    seq![
        QUERY_CONFIG@,
        QUERY_STATUS@,
        ENUM_DEPENDENTS@,
        START@,
        STOP@,
        INTERROGATE@,
        READ_CONTROL@,
    ]
}

/// The service's security descriptor: SYSTEM, administrators, interactive
/// users and service users, each with an "allow" entry for its rights.
pub open spec fn spec_service_sddl() -> Seq<char> {
    spec_dacl(
        seq![
            spec_allow(system_rights(), SYSTEM@),
            spec_allow(admin_rights(), ADMINISTRATORS@),
            spec_allow(user_rights(), INTERACTIVE@),
            spec_allow(user_rights(), SERVICE@),
        ],
    )
}

/// Builds the SDDL for the service's permissions: non-administrators may
/// query, start and stop it.
pub fn build_service_sddl() -> (s: String)
    ensures
        s@ == spec_service_sddl(),
{
    let system_list = [
        QUERY_CONFIG,
        QUERY_STATUS,
        ENUM_DEPENDENTS,
        START,
        STOP,
        PAUSE_CONTINUE,
        INTERROGATE,
        USER_CONTROL,
        READ_CONTROL,
    ];
    let admin_list = [
        QUERY_CONFIG,
        DELETE,
        QUERY_STATUS,
        ENUM_DEPENDENTS,
        START,
        STOP,
        PAUSE_CONTINUE,
        INTERROGATE,
        USER_CONTROL,
        READ_CONTROL,
        WRITE_DAC,
        WRITE_OWNER,
    ];
    let user_list = [QUERY_CONFIG, QUERY_STATUS, ENUM_DEPENDENTS, START, STOP, INTERROGATE, READ_CONTROL];
    assert(str_views(system_list@) =~= system_rights());
    assert(str_views(admin_list@) =~= admin_rights());
    assert(str_views(user_list@) =~= user_rights());
    let system_ace = allow(system_list.as_slice(), SYSTEM);
    let admin_ace = allow(admin_list.as_slice(), ADMINISTRATORS);
    let interactive_ace = allow(user_list.as_slice(), INTERACTIVE);
    let service_ace = allow(user_list.as_slice(), SERVICE);
    let aces = [system_ace, admin_ace, interactive_ace, service_ace];
    let ghost expected = seq![
        spec_allow(system_rights(), SYSTEM@),
        spec_allow(admin_rights(), ADMINISTRATORS@),
        spec_allow(user_rights(), INTERACTIVE@),
        spec_allow(user_rights(), SERVICE@),
    ];
    assert(string_views(aces@) =~= expected);
    dacl(aces.as_slice())
}

pub const SERVICE_NAME: &'static str = "OpenControlBridge";
pub const SERVICE_DISPLAY_NAME: &'static str = "Open Control Bridge";
pub const SERVICE_DESCRIPTION: &'static str = "Serial-to-UDP bridge for open-control framework";

/// Arguments of the elevated process that installs the service.
pub open spec fn spec_install_args(serial_port: Option<Seq<char>>, udp_port: u16) -> Seq<char> {
    match serial_port {
        Some(p) => "install-service --port "@ + p + " --udp-port "@ + decimal(udp_port as nat),
        None => "install-service --udp-port "@ + decimal(udp_port as nat),
    }
}

pub fn elevated_install_args(serial_port: Option<&str>, udp_port: u16) -> (s: String)
    ensures
        s@ == spec_install_args(
            match serial_port {
                Some(p) => Some(p@),
                None => None,
            },
            udp_port,
        ),
{
    let mut s = String::from_str("install-service ");
    match serial_port {
        Some(p) => {
            s.append("--port ");
            s.append(p);
            s.append(" ");
        },
        None => {},
    }
    s.append("--udp-port ");
    push_decimal(&mut s, udp_port as u64);
    proof {
        reveal_strlit("install-service ");
        reveal_strlit("--port ");
        reveal_strlit(" ");
        reveal_strlit("--udp-port ");
        reveal_strlit("install-service --port ");
        reveal_strlit(" --udp-port ");
        reveal_strlit("install-service --udp-port ");
    }
    assert(s@ =~= spec_install_args(
        match serial_port {
            Some(p) => Some(p@),
            None => None,
        },
        udp_port,
    ));
    s
}

/// The service's command line: the quoted executable in service mode, with
/// the serial port (when given) and the host UDP port.
pub open spec fn spec_service_command(exe: Seq<char>, serial_port: Option<Seq<char>>, udp_port: u16) -> Seq<char> {
    "\""@ + exe + "\" service"@ + match serial_port {
        Some(p) => " --port "@ + p,
        None => Seq::empty(),
    } + " --udp-port "@ + decimal(udp_port as nat)
}

pub fn service_command_line(exe: &str, serial_port: Option<&str>, udp_port: u16) -> (s: String)
    ensures
        s@ == spec_service_command(
            exe@,
            match serial_port {
                Some(p) => Some(p@),
                None => None,
            },
            udp_port,
        ),
{
    let mut s = String::from_str("\"");
    s.append(exe);
    s.append("\" service");
    match serial_port {
        Some(p) => {
            s.append(" --port ");
            s.append(p);
        },
        None => {},
    }
    s.append(" --udp-port ");
    push_decimal(&mut s, udp_port as u64);
    s
}

} // verus!
