//! Serial transport for USB CDC communication, and the choice of the serial
//! device among the USB ports present.

use vstd::prelude::*;
use crate::config::DeviceConfig;
use crate::error::BridgeError;
use crate::constants::SERIAL_DISCONNECT_THRESHOLD;

verus! {

/// Serial transport for USB CDC communication.
pub struct SerialTransport {
    port_name: String,
}

/// Extra identity a device must have to be chosen.
#[derive(Debug, Clone, PartialEq, Eq)]
pub struct SerialMatchRequest {
    pub serial_number: Option<String>,
}

impl Default for SerialMatchRequest {
    fn default() -> (r: Self)
        ensures
            r.serial_number is None,
    {
        SerialMatchRequest { serial_number: None }
    }
}

/// A USB serial port present on the machine.
#[derive(Debug, Clone, PartialEq, Eq)]
pub struct SerialDeviceCandidate {
    pub port_name: String,
    pub serial_number: Option<String>,
    pub manufacturer: Option<String>,
    pub product: Option<String>,
    pub vid: u16,
    pub pid: u16,
}

/// The candidate has the configured vendor id and one of its product ids.
pub open spec fn spec_matches_device_config(c: SerialDeviceCandidate, config: DeviceConfig) -> bool {
    c.vid == config.vid && config.pid_list@.contains(c.pid)
}

/// The candidate has the requested serial number, when one is requested.
pub open spec fn spec_matches_request(c: SerialDeviceCandidate, request: SerialMatchRequest) -> bool {
    match request.serial_number {
        Some(s) => c.serial_number matches Some(t) && t@ == s@,
        None => true,
    }
}

pub open spec fn accepted(c: SerialDeviceCandidate, config: DeviceConfig, request: SerialMatchRequest) -> bool {
    spec_matches_device_config(c, config) && spec_matches_request(c, request)
}

/// The candidates that match the configuration and the request, in order.
pub open spec fn matching(
    cands: Seq<SerialDeviceCandidate>,
    config: DeviceConfig,
    request: SerialMatchRequest,
) -> Seq<SerialDeviceCandidate>
    decreases cands.len(),
{
    if cands.len() == 0 {
        Seq::empty()
    } else {
        let rest = matching(cands.drop_last(), config, request);
        if accepted(cands.last(), config, request) {
            rest.push(cands.last())
        } else {
            rest
        }
    }
}

fn matches_device_config(candidate: &SerialDeviceCandidate, config: &DeviceConfig) -> (r: bool)
    ensures
        r == spec_matches_device_config(*candidate, *config),
{
    if candidate.vid != config.vid {
        return false;
    }
    let n = config.pid_list.len();
    let mut i: usize = 0;
    while i < n
        invariant
            n == config.pid_list@.len(),
            candidate.vid == config.vid,
            i <= n,
            forall|j: int| 0 <= j < i ==> config.pid_list@[j] != candidate.pid,
        decreases n - i,
    {
        if config.pid_list[i] == candidate.pid {
            assert(config.pid_list@[i as int] == candidate.pid);
            return true;
        }
        i = i + 1;
    }
    false
}

/// Whether the candidate has the requested serial number, if one is requested.
pub fn matches_request(candidate: &SerialDeviceCandidate, request: &SerialMatchRequest) -> (r: bool)
    ensures
        r == spec_matches_request(*candidate, *request),
{
    match &request.serial_number {
        Some(serial) => match &candidate.serial_number {
            Some(own) => *own == *serial,
            None => false,
        },
        None => true,
    }
}

/// The one candidate that matches; `NoDeviceFound` when none does and
/// `MultipleDevicesFound` (with their number) when several do.
pub fn select_candidate<'a>(
    candidates: &'a [SerialDeviceCandidate],
    config: &DeviceConfig,
    request: &SerialMatchRequest,
) -> (res: Result<&'a SerialDeviceCandidate, BridgeError>)
    ensures
        ({
            let m = matching(candidates@, *config, *request);
            &&& m.len() == 0 ==> res == Err::<&SerialDeviceCandidate, BridgeError>(
                BridgeError::NoDeviceFound,
            )
            &&& m.len() == 1 ==> (res matches Ok(c) && *c == m[0])
            &&& m.len() > 1 ==> res == Err::<&SerialDeviceCandidate, BridgeError>(
                BridgeError::MultipleDevicesFound { count: m.len() as usize },
            )
        }),
{
    let n = candidates.len();
    let mut count: usize = 0;
    let mut first: usize = 0;
    let mut i: usize = 0;
    while i < n
        invariant
            n == candidates@.len(),
            i <= n,
            count == matching(candidates@.take(i as int), *config, *request).len(),
            count <= i,
            count > 0 ==> first < n && matching(candidates@.take(i as int), *config, *request)[0]
                == candidates@[first as int],
        decreases n - i,
    {
        let ghost prefix = candidates@.take(i as int);
        assert(candidates@.take(i + 1).drop_last() =~= prefix);
        assert(candidates@.take(i + 1).last() == candidates@[i as int]);
        if matches_device_config(&candidates[i], config) && matches_request(&candidates[i], request) {
            if count == 0 {
                first = i;
            }
            count = count + 1;
        }
        i = i + 1;
    }
    assert(candidates@.take(n as int) =~= candidates@);
    if count == 0 {
        Err(BridgeError::NoDeviceFound)
    } else if count == 1 {
        Ok(&candidates[first])
    } else {
        Err(BridgeError::MultipleDevicesFound { count })
    }
}

impl SerialTransport {
    pub closed spec fn spec_port_name(&self) -> Seq<char> {
        self.port_name@
    }

    /// A transport for the named port.
    pub fn new(port_name: &str) -> (t: SerialTransport)
        ensures
            t.spec_port_name() == port_name@,
    {
        SerialTransport { port_name: port_name.to_owned() }
    }

    /// The port's name.
    pub fn port_name(&self) -> (s: &str)
        ensures
            s@ == self.spec_port_name(),
    {
        self.port_name.as_str()
    }

    /// The port of the one USB serial device, among `candidates`, that
    /// matches the device configuration; errors as `select_candidate`.
    pub fn detect(config: &DeviceConfig, candidates: &[SerialDeviceCandidate]) -> (res: Result<
        String,
        BridgeError,
    >)
        ensures
            ({
                let m = matching(candidates@, *config, SerialMatchRequest { serial_number: None });
                &&& m.len() == 0 ==> res == Err::<String, BridgeError>(BridgeError::NoDeviceFound)
                &&& m.len() == 1 ==> (res matches Ok(p) && p@ == m[0].port_name@)
                &&& m.len() > 1 ==> res == Err::<String, BridgeError>(
                    BridgeError::MultipleDevicesFound { count: m.len() as usize },
                )
            }),
    {
        let request = SerialMatchRequest::default();
        SerialTransport::detect_with_request(config, &request, candidates)
    }

    /// As `detect`, with the request's identity filters as well.
    pub fn detect_with_request(
        config: &DeviceConfig,
        request: &SerialMatchRequest,
        candidates: &[SerialDeviceCandidate],
    ) -> (res: Result<String, BridgeError>)
        ensures
            ({
                let m = matching(candidates@, *config, *request);
                &&& m.len() == 0 ==> res == Err::<String, BridgeError>(BridgeError::NoDeviceFound)
                &&& m.len() == 1 ==> (res matches Ok(p) && p@ == m[0].port_name@)
                &&& m.len() > 1 ==> res == Err::<String, BridgeError>(
                    BridgeError::MultipleDevicesFound { count: m.len() as usize },
                )
            }),
    {
        match select_candidate(candidates, config, request) {
            Ok(c) => Ok(c.port_name.clone()),
            Err(e) => Err(e),
        }
    }
}

/// What one read from the serial port gave.
#[derive(Debug, Clone, Copy, PartialEq, Eq, Structural)]
pub enum ReadOutcome {
    /// Some bytes arrived.
    Data,
    /// The read returned no byte.
    Empty,
    /// The read timed out, which is normal.
    TimedOut,
    /// The read failed.
    Failed,
}

/// Whether the serial link is still usable.
#[derive(Debug, Clone, Copy, PartialEq, Eq, Structural)]
pub enum LinkStatus {
    Alive,
    Lost,
}

/// Health of the serial link as reads report it: a failed read, or more than
/// `SERIAL_DISCONNECT_THRESHOLD` empty reads in a row, means the device is gone.
pub struct ReadHealth {
    consecutive_errors: u32,
}

impl ReadHealth {
    /// Empty reads since the last successful one.
    pub closed spec fn spec_errors(&self) -> u32 {
        self.consecutive_errors
    }

    pub closed spec fn wf(&self) -> bool {
        self.consecutive_errors <= SERIAL_DISCONNECT_THRESHOLD
    }

    pub fn new() -> (h: ReadHealth)
        ensures
            h.wf(),
            h.spec_errors() == 0,
    {
        ReadHealth { consecutive_errors: 0 }
    }

    /// Records a read and says whether the link is lost.
    pub fn on_read(&mut self, outcome: ReadOutcome) -> (status: LinkStatus)
        requires
            old(self).wf(),
        ensures
            final(self).wf() || status == LinkStatus::Lost,
            status == match outcome {
                ReadOutcome::Data | ReadOutcome::TimedOut => LinkStatus::Alive,
                ReadOutcome::Failed => LinkStatus::Lost,
                ReadOutcome::Empty => if old(self).spec_errors() + 1 > SERIAL_DISCONNECT_THRESHOLD {
                    LinkStatus::Lost
                } else {
                    LinkStatus::Alive
                },
            },
            final(self).spec_errors() == match outcome {
                ReadOutcome::Data | ReadOutcome::TimedOut => 0,
                ReadOutcome::Failed => old(self).spec_errors() as int,
                ReadOutcome::Empty => old(self).spec_errors() + 1,
            },
    {
        match outcome {
            ReadOutcome::Data | ReadOutcome::TimedOut => {
                self.consecutive_errors = 0;
                LinkStatus::Alive
            },
            ReadOutcome::Failed => LinkStatus::Lost,
            ReadOutcome::Empty => {
                self.consecutive_errors = self.consecutive_errors + 1;
                if self.consecutive_errors > SERIAL_DISCONNECT_THRESHOLD {
                    LinkStatus::Lost
                } else {
                    LinkStatus::Alive
                }
            },
        }
    }
}

} // verus!
