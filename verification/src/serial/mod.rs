//! Serial framing, and recognising Teensy boards among USB serial ports.

pub mod cobs;

use vstd::prelude::*;
use crate::text::{decimal, push_decimal};
use crate::transport::serial::SerialDeviceCandidate;

verus! {

/// USB vendor id of PJRC Teensy boards.
pub const TEENSY_VID: u16 = 0x16C0;

/// USB product ids of Teensy serial interfaces.
pub open spec fn teensy_pids() -> Seq<u16> {
    seq![0x0483u16, 0x0486u16, 0x0487u16, 0x0489u16]
}

pub open spec fn spec_is_teensy(c: SerialDeviceCandidate) -> bool {
    c.vid == TEENSY_VID && teensy_pids().contains(c.pid)
}

/// The Teensy boards among `cands`, in order.
pub open spec fn teensy_ports(cands: Seq<SerialDeviceCandidate>) -> Seq<SerialDeviceCandidate>
    decreases cands.len(),
{
    if cands.len() == 0 {
        Seq::empty()
    } else if spec_is_teensy(cands.last()) {
        teensy_ports(cands.drop_last()).push(cands.last())
    } else {
        teensy_ports(cands.drop_last())
    }
}

/// Whether the port is a Teensy: its vendor id and one of its product ids.
pub fn is_teensy(c: &SerialDeviceCandidate) -> (r: bool)
    ensures
        r == spec_is_teensy(*c),
{
    let pid = c.pid;
    let r = c.vid == TEENSY_VID && (pid == 0x0483 || pid == 0x0486 || pid == 0x0487 || pid == 0x0489);
    proof {
        if c.vid == TEENSY_VID && teensy_pids().contains(pid) {
            let k = choose|k: int| 0 <= k < 4 && teensy_pids()[k] == pid;
            assert(k == 0 || k == 1 || k == 2 || k == 3);
        }
        if r {
            if pid == 0x0483 {
                assert(teensy_pids()[0] == pid);
            } else if pid == 0x0486 {
                assert(teensy_pids()[1] == pid);
            } else if pid == 0x0487 {
                assert(teensy_pids()[2] == pid);
            } else {
                assert(teensy_pids()[3] == pid);
            }
        }
    }
    r
}

pub open spec fn no_teensy_message() -> Seq<char> {
    "No Teensy found. Connect your controller or specify port manually."@
}

pub open spec fn several_teensies_message(n: nat) -> Seq<char> {
    "Multiple Teensy devices ("@ + decimal(n) + "). Specify port."@
}

/// The port of the one Teensy among `candidates`; otherwise why there is
/// none to pick: no Teensy, or several (with their number).
pub fn detect_teensy(candidates: &[SerialDeviceCandidate]) -> (res: Result<String, String>)
    ensures
        ({
            let t = teensy_ports(candidates@);
            &&& t.len() == 0 ==> (res matches Err(m) && m@ == no_teensy_message())
            &&& t.len() == 1 ==> (res matches Ok(p) && p@ == t[0].port_name@)
            &&& t.len() > 1 ==> (res matches Err(m) && m@ == several_teensies_message(t.len()))
        }),
{
    let n = candidates.len();
    let mut count: usize = 0;
    let mut first: usize = 0;
    let mut i: usize = 0;
    while i < n
        invariant
            n == candidates@.len(),
            i <= n,
            count == teensy_ports(candidates@.take(i as int)).len(),
            count <= i,
            count > 0 ==> first < n && teensy_ports(candidates@.take(i as int))[0]
                == candidates@[first as int],
        decreases n - i,
    {
        let ghost prefix = candidates@.take(i as int);
        assert(candidates@.take(i + 1).drop_last() =~= prefix);
        assert(candidates@.take(i + 1).last() == candidates@[i as int]);
        if is_teensy(&candidates[i]) {
            if count == 0 {
                first = i;
            }
            count = count + 1;
        }
        i = i + 1;
    }
    assert(candidates@.take(n as int) =~= candidates@);
    proof {
        reveal_strlit("No Teensy found. Connect your controller or specify port manually.");
        reveal_strlit("Multiple Teensy devices (");
        reveal_strlit("). Specify port.");
    }
    if count == 0 {
        Err(String::from_str("No Teensy found. Connect your controller or specify port manually."))
    } else if count == 1 {
        Ok(candidates[first].port_name.clone())
    } else {
        let mut m = String::from_str("Multiple Teensy devices (");
        push_decimal(&mut m, count as u64);
        m.append("). Specify port.");
        assert(m@ =~= several_teensies_message(count as nat));
        Err(m)
    }
}

} // verus!
