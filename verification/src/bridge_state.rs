//! Bridge lifecycle states and the cached status of the system service.

use vstd::prelude::*;

verus! {

/// Number of polls between two refreshes of the service status.
pub const SERVICE_STATUS_POLL_INTERVAL: u32 = 60;

/// Lifecycle of a bridge.
#[derive(Debug, Clone, Copy, PartialEq, Eq, Structural)]
pub enum BridgeState {
    Stopped,
    Starting,
    Running,
    Stopping,
    Error,
}

/// Cached service status, so that the service manager is asked only every
/// `SERVICE_STATUS_POLL_INTERVAL` polls rather than every frame.
pub struct ServiceStatusCache {
    installed: bool,
    running: bool,
    poll_counter: u32,
}

impl ServiceStatusCache {
    pub closed spec fn spec_installed(&self) -> bool {
        self.installed
    }

    pub closed spec fn spec_running(&self) -> bool {
        self.running
    }

    /// Polls since the last refresh.
    pub closed spec fn spec_counter(&self) -> u32 {
        self.poll_counter
    }

    pub closed spec fn wf(&self) -> bool {
        self.poll_counter < SERVICE_STATUS_POLL_INTERVAL
    }

    /// A cache holding the status just read from the service manager.
    pub fn new(installed: bool, running: bool) -> (c: ServiceStatusCache)
        ensures
            c.wf(),
            c.spec_installed() == installed,
            c.spec_running() == running,
            c.spec_counter() == 0,
    {
        ServiceStatusCache { installed, running, poll_counter: 0 }
    }

    /// Whether the service is installed, as last read.
    pub fn is_installed(&self) -> (r: bool)
        ensures
            r == self.spec_installed(),
    {
        self.installed
    }

    /// Whether the service is running, as last read.
    pub fn is_running(&self) -> (r: bool)
        ensures
            r == self.spec_running(),
    {
        self.running
    }

    /// Counts a poll (one per frame). Returns whether the status is due for a
    /// refresh, which happens every `SERVICE_STATUS_POLL_INTERVAL` polls; the
    /// caller then reads the service manager and calls `refresh`.
    pub fn poll(&mut self) -> (due: bool)
        requires
            old(self).wf(),
        ensures
            final(self).wf(),
            due == (old(self).spec_counter() + 1 >= SERVICE_STATUS_POLL_INTERVAL),
            final(self).spec_counter() == if due {
                0
            } else {
                old(self).spec_counter() + 1
            },
            final(self).spec_installed() == old(self).spec_installed(),
            final(self).spec_running() == old(self).spec_running(),
    {
        self.poll_counter = self.poll_counter + 1;
        if self.poll_counter >= SERVICE_STATUS_POLL_INTERVAL {
            self.poll_counter = 0;
            true
        } else {
            false
        }
    }

    /// Stores a status just read and restarts the poll count.
    pub fn refresh(&mut self, installed: bool, running: bool)
        ensures
            final(self).wf(),
            final(self).spec_installed() == installed,
            final(self).spec_running() == running,
            final(self).spec_counter() == 0,
    {
        self.poll_counter = 0;
        self.installed = installed;
        self.running = running;
    }
}

/// Where a bridge stands between two polls: stopped, running in this
/// process, or monitoring the system service.
#[derive(Debug, Clone, Copy, PartialEq, Eq, Structural)]
pub enum BridgePhase {
    Stopped,
    Running,
    Monitoring,
}

/// What one poll of the bridge does, after the logs waiting in its channel
/// have been moved to the store.
#[derive(Debug, Clone, Copy, PartialEq, Eq, Structural)]
pub enum PollStep {
    /// Nothing changes.
    Stay,
    /// The local bridge stopped or failed: the bridge is stopped, keeping its
    /// serial port.
    LocalBridgeEnded,
    /// The monitored service is gone: the log receiver is shut down, the
    /// serial port is detected again, the bridge is stopped and "Service
    /// stopped" is logged.
    ServiceStopped,
    /// A service appeared while stopped: "Service detected, monitoring
    /// started" is logged and monitoring starts.
    StartMonitoring,
    /// Stopped without a serial port: the port is detected again.
    DetectSerial,
}

/// The step a poll takes, from the bridge's phase, the state of the local
/// bridge (when running), whether the service runs as last cached, and
/// whether a serial port is known (when stopped).
pub open spec fn spec_poll_step(
    phase: BridgePhase,
    local: BridgeState,
    service_running: bool,
    has_serial_port: bool,
) -> PollStep {
    match phase {
        BridgePhase::Running => if local == BridgeState::Stopped || local == BridgeState::Error {
            PollStep::LocalBridgeEnded
        } else {
            PollStep::Stay
        },
        BridgePhase::Monitoring => if !service_running {
            PollStep::ServiceStopped
        } else {
            PollStep::Stay
        },
        BridgePhase::Stopped => if service_running {
            PollStep::StartMonitoring
        } else if !has_serial_port {
            PollStep::DetectSerial
        } else {
            PollStep::Stay
        },
    }
}

/// The phase a step leads to.
pub open spec fn spec_next_phase(phase: BridgePhase, step: PollStep) -> BridgePhase {
    match step {
        PollStep::Stay | PollStep::DetectSerial => phase,
        PollStep::LocalBridgeEnded | PollStep::ServiceStopped => BridgePhase::Stopped,
        PollStep::StartMonitoring => BridgePhase::Monitoring,
    }
}

/// Decides one poll of the bridge (the caller has polled the service status
/// cache and drained the log channel): a running bridge that stopped or
/// failed becomes stopped; monitoring ends when the service is gone; a
/// stopped bridge starts monitoring a service that appeared, or else looks
/// for a serial port when it has none. Returns the step and the phase after
/// it.
pub fn plan_poll(
    phase: BridgePhase,
    local: BridgeState,
    service_running: bool,
    has_serial_port: bool,
) -> (r: (PollStep, BridgePhase))
    ensures
        r.0 == spec_poll_step(phase, local, service_running, has_serial_port),
        r.1 == spec_next_phase(phase, r.0),
{
    let step = match phase {
        BridgePhase::Running => {
            if local == BridgeState::Stopped || local == BridgeState::Error {
                PollStep::LocalBridgeEnded
            } else {
                PollStep::Stay
            }
        },
        BridgePhase::Monitoring => {
            if !service_running {
                PollStep::ServiceStopped
            } else {
                PollStep::Stay
            }
        },
        BridgePhase::Stopped => {
            if service_running {
                PollStep::StartMonitoring
            } else if !has_serial_port {
                PollStep::DetectSerial
            } else {
                PollStep::Stay
            }
        },
    };
    let next = match step {
        PollStep::Stay | PollStep::DetectSerial => phase,
        PollStep::LocalBridgeEnded | PollStep::ServiceStopped => BridgePhase::Stopped,
        PollStep::StartMonitoring => BridgePhase::Monitoring,
    };
    (step, next)
}

/// The line a step logs, if any.
pub fn poll_step_message(step: PollStep) -> (m: Option<&'static str>)
    ensures
        match step {
            PollStep::ServiceStopped => m matches Some(t) && t@ == "Service stopped"@,
            PollStep::StartMonitoring => m matches Some(t) && t@
                == "Service detected, monitoring started"@,
            _ => m is None,
        },
{
    match step {
        PollStep::ServiceStopped => Some("Service stopped"),
        PollStep::StartMonitoring => Some("Service detected, monitoring started"),
        _ => None,
    }
}

/// A bridge following the service: while the cached status says the service
/// runs, a stopped bridge moves to monitoring and a monitoring one stays;
/// once it says the service is gone, monitoring ends in the stopped phase.
pub proof fn lemma_poll_follows_service(
    phase: BridgePhase,
    local: BridgeState,
    service_running: bool,
    has_serial_port: bool,
)
    requires
        phase != BridgePhase::Running,
    ensures
        spec_next_phase(phase, spec_poll_step(phase, local, service_running, has_serial_port))
            == if service_running {
            BridgePhase::Monitoring
        } else {
            BridgePhase::Stopped
        },
{
}

} // verus!
