//! The systemd user service on Linux: the unit and desktop files it
//! installs, and the udev rules and group membership that give the user
//! access to the serial device. Running `systemctl`, `pkexec` and writing the
//! files happen outside the library.

use vstd::prelude::*;
use crate::config::DeviceConfig;
use crate::control::{lemma_trailing_white_space_of, trailing_white_space, trim, trim_str};
use crate::text::{decimal, push_char, push_decimal, str_to_chars, string_from_chars};

verus! {

pub const SERVICE_NAME: &'static str = "open-control-bridge";
pub const DESKTOP_NAME: &'static str = "open-control-bridge";
/// Rules file used when the device preset names none.
pub const DEFAULT_RULES_FILE: &'static str = "/etc/udev/rules.d/49-oc-bridge.rules";

/// Whether `needle` occurs in `s`.
pub open spec fn contains_seq(s: Seq<char>, needle: Seq<char>) -> bool {
    exists|i: int| 0 <= i && i + needle.len() <= s.len() && #[trigger] s.subrange(i, i + needle.len()) == needle
}

/// Whether `needle` occurs in `s`.
pub fn str_contains(s: &str, needle: &str) -> (r: bool)
    ensures
        r == contains_seq(s@, needle@),
{
    let hay = str_to_chars(s);
    let pat = str_to_chars(needle);
    let n = hay.len();
    let m = pat.len();
    if m > n {
        return false;
    }
    let mut i: usize = 0;
    while i <= n - m
        invariant
            hay@ == s@,
            pat@ == needle@,
            n == hay@.len(),
            m == pat@.len(),
            m <= n,
            i <= n - m + 1,
            forall|k: int| 0 <= k < i ==> #[trigger] s@.subrange(k, k + m) != needle@,
        decreases n - m + 1 - i,
    {
        let mut j: usize = 0;
        while j < m && hay[i + j] == pat[j]
            invariant
                n == hay@.len(),
                m == pat@.len(),
                i + m <= n,
                j <= m,
                forall|t: int| 0 <= t < j ==> hay@[i + t] == pat@[t],
            decreases m - j,
        {
            j = j + 1;
        }
        if j == m {
            assert(s@.subrange(i as int, i + m) =~= needle@);
            return true;
        }
        assert(s@.subrange(i as int, i + m)[j as int] != needle@[j as int]);
        i = i + 1;
    }
    proof {
        assert forall|k: int| 0 <= k && k + m <= n implies #[trigger] s@.subrange(k, k + m) != needle@ by {
            assert(k < i);
        }
    }
    false
}

/// Whether the output of `groups` lists the dialout group.
pub fn in_dialout_group(groups: &str) -> (r: bool)
    ensures
        r == contains_seq(groups@, "dialout"@),
{
    str_contains(groups, "dialout")
}

/// Lower-case hexadecimal digit.
pub open spec fn hex_digit(d: nat) -> char {
    if d < 10 {
        ((48 + d) as u32) as char
    } else {
        ((87 + d) as u32) as char
    }
}

/// Four lower-case hexadecimal digits of `v` (`{:04x}`).
pub open spec fn hex4(v: u16) -> Seq<char> {
    seq![
        hex_digit((v / 4096) as nat),
        hex_digit(((v / 256) % 16) as nat),
        hex_digit(((v / 16) % 16) as nat),
        hex_digit((v % 16) as nat),
    ]
}

fn hex_char(d: u16) -> (c: char)
    requires
        d < 16,
    ensures
        c == hex_digit(d as nat),
{
    let digits = ['0', '1', '2', '3', '4', '5', '6', '7', '8', '9', 'a', 'b', 'c', 'd', 'e', 'f'];
    let c = digits[d as usize];
    assert(digits@[d as int] == hex_digit(d as nat));
    c
}

/// The path of the rules file: the preset's file name under
/// `/etc/udev/rules.d/`, or the default file.
pub open spec fn spec_rules_path(dev: Option<DeviceConfig>) -> Seq<char> {
    match dev {
        Some(d) => match d.udev_rules_filename {
            Some(f) => "/etc/udev/rules.d/"@ + f@,
            None => DEFAULT_RULES_FILE@,
        },
        None => DEFAULT_RULES_FILE@,
    }
}

pub fn udev_rules_path(dev: Option<&DeviceConfig>) -> (s: String)
    ensures
        s@ == spec_rules_path(match dev {
            Some(d) => Some(*d),
            None => None,
        }),
{
    match dev {
        Some(d) => match &d.udev_rules_filename {
            Some(f) => {
                let mut s = String::from_str("/etc/udev/rules.d/");
                s.append(f.as_str());
                s
            },
            None => DEFAULT_RULES_FILE.to_owned(),
        },
        None => DEFAULT_RULES_FILE.to_owned(),
    }
}

/// The udev rules a device needs: the preset's own rules without
/// surrounding white space, or rules opening USB and TTY nodes of its vendor
/// id to every user.
pub open spec fn spec_desired_rules(dev: DeviceConfig) -> Seq<char> {
    match dev.udev_rules {
        Some(r) => trim(r@),
        None => "# OC Bridge - "@ + dev.name@ + "\nSUBSYSTEM==\"usb\", ATTR{idVendor}==\""@ + hex4(
            dev.vid,
        ) + "\", MODE=\"0666\"\nSUBSYSTEM==\"tty\", ATTRS{idVendor}==\""@ + hex4(dev.vid)
            + "\", MODE=\"0666\""@,
    }
}

pub fn desired_udev_rules(dev: &DeviceConfig) -> (s: String)
    ensures
        s@ == spec_desired_rules(*dev),
{
    match &dev.udev_rules {
        Some(r) => trim_str(r.as_str()),
        None => {
            let v = dev.vid;
            let mut hex = String::new();
            push_char(&mut hex, hex_char(v / 4096));
            push_char(&mut hex, hex_char((v / 256) % 16));
            push_char(&mut hex, hex_char((v / 16) % 16));
            push_char(&mut hex, hex_char(v % 16));
            assert(hex@ =~= hex4(v));
            let mut s = String::from_str("# OC Bridge - ");
            s.append(dev.name.as_str());
            s.append("\nSUBSYSTEM==\"usb\", ATTR{idVendor}==\"");
            s.append(hex.as_str());
            s.append("\", MODE=\"0666\"\nSUBSYSTEM==\"tty\", ATTRS{idVendor}==\"");
            s.append(hex.as_str());
            s.append("\", MODE=\"0666\"");
            s
        },
    }
}

/// `s` without trailing white space (`str::trim_end`).
pub open spec fn trim_end(s: Seq<char>) -> Seq<char> {
    s.take(s.len() - trailing_white_space(s))
}

fn trim_end_chars(s: &str) -> (r: Vec<char>)
    ensures
        r@ == trim_end(s@),
{
    let chars = str_to_chars(s);
    let n = chars.len();
    let mut b: usize = n;
    while b > 0 && crate::text::is_whitespace(chars[b - 1])
        invariant
            n == chars@.len(),
            b <= n,
            forall|i: int| b <= i < n ==> crate::text::is_white_space(chars@[i]),
        decreases b,
    {
        b = b - 1;
    }
    proof {
        lemma_trailing_white_space_of(chars@, (n - b) as nat);
    }
    let mut out: Vec<char> = Vec::new();
    let mut i: usize = 0;
    while i < b
        invariant
            b <= n,
            n == chars@.len(),
            i <= b,
            out@ == chars@.take(i as int),
        decreases b - i,
    {
        out.push(chars[i]);
        assert(chars@.take(i + 1) =~= chars@.take(i as int).push(chars@[i as int]));
        i = i + 1;
    }
    out
}

/// Whether the rules file must be written: it is missing, or differs from
/// the desired rules once trailing white space is ignored.
pub fn needs_udev_update(desired: &str, existing: Option<&str>) -> (r: bool)
    ensures
        r == match existing {
            None => true,
            Some(e) => trim_end(e@) != trim_end(desired@),
        },
{
    match existing {
        None => true,
        Some(e) => {
            let a = trim_end_chars(e);
            let b = trim_end_chars(desired);
            if a.len() != b.len() {
                return true;
            }
            let mut i: usize = 0;
            while i < a.len()
                invariant
                    a@.len() == b@.len(),
                    a@ == trim_end(e@),
                    b@ == trim_end(desired@),
                    existing == Some(e),
                    i <= a@.len(),
                    forall|k: int| 0 <= k < i ==> a@[k] == b@[k],
                decreases a@.len() - i,
            {
                if a[i] != b[i] {
                    assert(a@[i as int] != b@[i as int]);
                    return true;
                }
                i = i + 1;
            }
            assert(a@ =~= b@);
            false
        },
    }
}

/// A character inside a single-quoted shell word: a quote closes the word,
/// adds an escaped quote and reopens it; a newline becomes a new word.
pub open spec fn shell_escape_char(c: char) -> Seq<char> {
    if c == '\'' {
        seq!['\'', '\\', '\'', '\'']
    } else if c == '\n' {
        seq!['\'', ' ', '\'']
    } else {
        seq![c]
    }
}

pub open spec fn shell_escape(s: Seq<char>) -> Seq<char>
    decreases s.len(),
{
    if s.len() == 0 {
        Seq::empty()
    } else {
        shell_escape(s.drop_last()) + shell_escape_char(s.last())
    }
}

/// The rules escaped for the `printf` of the setup script.
pub fn escape_rules(rules: &str) -> (s: String)
    ensures
        s@ == shell_escape(rules@),
{
    let chars = str_to_chars(rules);
    let mut out = String::new();
    let mut i: usize = 0;
    while i < chars.len()
        invariant
            i <= chars@.len(),
            chars@ == rules@,
            out@ == shell_escape(chars@.take(i as int)),
        decreases chars@.len() - i,
    {
        let c = chars[i];
        if c == '\'' {
            push_char(&mut out, '\'');
            push_char(&mut out, '\\');
            push_char(&mut out, '\'');
            push_char(&mut out, '\'');
        } else if c == '\n' {
            push_char(&mut out, '\'');
            push_char(&mut out, ' ');
            push_char(&mut out, '\'');
        } else {
            push_char(&mut out, c);
        }
        assert(chars@.take(i + 1).drop_last() =~= chars@.take(i as int));
        assert(chars@.take(i + 1).last() == c);
        assert(out@ =~= shell_escape(chars@.take(i as int)) + shell_escape_char(c));
        i = i + 1;
    }
    assert(chars@.take(chars@.len() as int) =~= chars@);
    out
}

/// The privileged setup script: add the user to dialout when needed, and
/// write the rules file and reload udev when needed.
pub open spec fn spec_access_script(user: Seq<char>, needs_dialout: bool, udev: Option<(Seq<char>, Seq<char>)>) -> Seq<char> {
    (if needs_dialout {
        "usermod -aG dialout "@ + user + " ; "@
    } else {
        Seq::empty()
    }) + match udev {
        Some((rules, file)) => "printf '%s\\n' '"@ + shell_escape(rules) + "' > '"@ + file
            + "' && udevadm control --reload-rules && udevadm trigger"@,
        None => Seq::empty(),
    }
}

pub fn serial_access_script(user: &str, needs_dialout: bool, udev: Option<(&str, &str)>) -> (s: String)
    ensures
        s@ == spec_access_script(
            user@,
            needs_dialout,
            match udev {
                Some((r, f)) => Some((r@, f@)),
                None => None,
            },
        ),
{
    let mut script = String::new();
    if needs_dialout {
        script.append("usermod -aG dialout ");
        script.append(user);
        script.append(" ; ");
    }
    match udev {
        Some((rules, file)) => {
            let escaped = escape_rules(rules);
            script.append("printf '%s\\n' '");
            script.append(escaped.as_str());
            script.append("' > '");
            script.append(file);
            script.append("' && udevadm control --reload-rules && udevadm trigger");
        },
        None => {},
    }
    script
}

/// The systemd unit: runs the executable in daemon mode with the serial port
/// (when given) and the host UDP port, restarting it when it stops.
pub open spec fn spec_unit(exe: Seq<char>, serial_port: Option<Seq<char>>, udp_port: u16) -> Seq<char> {
    let port_arg = match serial_port {
        Some(p) => "--port "@ + p,
        None => Seq::empty(),
    };
    "[Unit]\nDescription=Open Control Bridge\nAfter=network.target\n\n[Service]\nType=simple\nExecStart="@
        + exe + " --daemon "@ + port_arg + " --udp-port "@ + decimal(udp_port as nat)
        + "\nRestart=always\nRestartSec=5\nStandardOutput=journal\nStandardError=journal\n\n[Install]\nWantedBy=default.target\n"@
}

pub fn service_unit(exe: &str, serial_port: Option<&str>, udp_port: u16) -> (s: String)
    ensures
        s@ == spec_unit(
            exe@,
            match serial_port {
                Some(p) => Some(p@),
                None => None,
            },
            udp_port,
        ),
{
    let mut s = String::from_str(
        "[Unit]\nDescription=Open Control Bridge\nAfter=network.target\n\n[Service]\nType=simple\nExecStart=",
    );
    s.append(exe);
    s.append(" --daemon ");
    match serial_port {
        Some(p) => {
            s.append("--port ");
            s.append(p);
        },
        None => {},
    }
    s.append(" --udp-port ");
    push_decimal(&mut s, udp_port as u64);
    s.append(
        "\nRestart=always\nRestartSec=5\nStandardOutput=journal\nStandardError=journal\n\n[Install]\nWantedBy=default.target\n",
    );
    s
}

/// The desktop entry launching the executable in a terminal.
pub open spec fn spec_desktop_entry(exe: Seq<char>) -> Seq<char> {
    "[Desktop Entry]\nName=OC Bridge\nComment=Serial-to-UDP bridge for open-control framework\nExec="@
        + exe
        + "\nIcon=utilities-terminal\nTerminal=true\nType=Application\nCategories=Development;Utility;\nKeywords=serial;bridge;midi;controller;\n"@
}

pub fn desktop_entry(exe: &str) -> (s: String)
    ensures
        s@ == spec_desktop_entry(exe@),
{
    let mut s = String::from_str(
        "[Desktop Entry]\nName=OC Bridge\nComment=Serial-to-UDP bridge for open-control framework\nExec=",
    );
    s.append(exe);
    s.append(
        "\nIcon=utilities-terminal\nTerminal=true\nType=Application\nCategories=Development;Utility;\nKeywords=serial;bridge;midi;controller;\n",
    );
    s
}

/// `<home>/.config/systemd/user/<service>.service`.
pub fn service_file_path(home: &str) -> (s: String)
    ensures
        s@ == home@ + "/.config/systemd/user/"@ + SERVICE_NAME@ + ".service"@,
{
    let mut s = home.to_owned();
    s.append("/.config/systemd/user/");
    s.append(SERVICE_NAME);
    s.append(".service");
    s
}

/// `<home>/.local/share/applications/<name>.desktop`.
pub fn desktop_file_path(home: &str) -> (s: String)
    ensures
        s@ == home@ + "/.local/share/applications/"@ + DESKTOP_NAME@ + ".desktop"@,
{
    let mut s = home.to_owned();
    s.append("/.local/share/applications/");
    s.append(DESKTOP_NAME);
    s.append(".desktop");
    s
}

} // verus!
