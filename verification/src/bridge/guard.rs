//! Relay guard: drops a message that repeats the last one forwarded in the
//! same direction within a short window.

use vstd::prelude::*;
use bytes::Bytes;
use crate::buffers::{bytes_clone, bytes_contents, bytes_eq};

verus! {

#[derive(Clone, Copy, Debug, PartialEq, Eq, Structural)]
pub enum GuardDirection {
    ControllerToHost,
    HostToController,
}

/// What to do with a message.
pub enum GuardAction {
    Forward(Bytes),
    DropDuplicate,
}

/// Last message forwarded in one direction.
pub struct DirectionGuardState {
    last_forwarded_ms: u64,
    last_payload: Option<Bytes>,
}

impl DirectionGuardState {
    pub closed spec fn spec_last_ms(&self) -> u64 {
        self.last_forwarded_ms
    }

    pub closed spec fn spec_last(&self) -> Option<Seq<u8>> {
        match self.last_payload {
            Some(b) => Some(bytes_contents(b)),
            None => None,
        }
    }

    fn empty() -> (s: DirectionGuardState)
        ensures
            s.spec_last_ms() == 0,
            s.spec_last() is None,
    {
        DirectionGuardState { last_forwarded_ms: 0, last_payload: None }
    }
}

/// Duplicate suppression for both relay directions.
pub struct RelayGuard {
    enabled: bool,
    duplicate_window_ms: u64,
    controller_to_host: DirectionGuardState,
    host_to_controller: DirectionGuardState,
}

/// `a - b`, stopping at zero.
pub open spec fn sat_sub(a: u64, b: u64) -> int {
    if a >= b {
        a - b
    } else {
        0
    }
}

/// Whether a payload repeats the last one forwarded, within the window.
pub open spec fn is_duplicate(
    last: Option<Seq<u8>>,
    last_ms: u64,
    payload: Seq<u8>,
    now_ms: u64,
    window_ms: u64,
) -> bool {
    last == Some(payload) && sat_sub(now_ms, last_ms) < window_ms
}

impl RelayGuard {
    pub closed spec fn spec_enabled(&self) -> bool {
        self.enabled
    }

    pub closed spec fn spec_window_ms(&self) -> u64 {
        self.duplicate_window_ms
    }

    /// The state kept for a direction.
    pub closed spec fn spec_state(&self, direction: GuardDirection) -> (Option<Seq<u8>>, u64) {
        match direction {
            GuardDirection::ControllerToHost => (
                self.controller_to_host.spec_last(),
                self.controller_to_host.spec_last_ms(),
            ),
            GuardDirection::HostToController => (
                self.host_to_controller.spec_last(),
                self.host_to_controller.spec_last_ms(),
            ),
        }
    }

    /// A guard with nothing forwarded yet.
    pub fn new(enabled: bool, duplicate_window_ms: u64) -> (g: RelayGuard)
        ensures
            g.spec_enabled() == enabled,
            g.spec_window_ms() == duplicate_window_ms,
            g.spec_state(GuardDirection::ControllerToHost) == (None::<Seq<u8>>, 0u64),
            g.spec_state(GuardDirection::HostToController) == (None::<Seq<u8>>, 0u64),
    {
        RelayGuard {
            enabled,
            duplicate_window_ms,
            controller_to_host: DirectionGuardState::empty(),
            host_to_controller: DirectionGuardState::empty(),
        }
    }

    /// The decision for a message: forward it (and remember it) unless the
    /// guard is on and it repeats the last message forwarded in that direction
    /// less than a window ago.
    pub open spec fn spec_handle(
        old_guard: RelayGuard,
        new_guard: RelayGuard,
        direction: GuardDirection,
        payload: Seq<u8>,
        now_ms: u64,
        action: GuardAction,
    ) -> bool {
        let (last, last_ms) = old_guard.spec_state(direction);
        let other = match direction {
            GuardDirection::ControllerToHost => GuardDirection::HostToController,
            GuardDirection::HostToController => GuardDirection::ControllerToHost,
        };
        &&& new_guard.spec_enabled() == old_guard.spec_enabled()
        &&& new_guard.spec_window_ms() == old_guard.spec_window_ms()
        &&& new_guard.spec_state(other) == old_guard.spec_state(other)
        &&& if old_guard.spec_enabled() && is_duplicate(
            last,
            last_ms,
            payload,
            now_ms,
            old_guard.spec_window_ms(),
        ) {
            &&& action is DropDuplicate
            &&& new_guard.spec_state(direction) == old_guard.spec_state(direction)
        } else {
            &&& action matches GuardAction::Forward(b) && bytes_contents(b) == payload
            &&& new_guard.spec_state(direction) == if old_guard.spec_enabled() {
                (Some(payload), now_ms)
            } else {
                old_guard.spec_state(direction)
            }
        }
    }

    pub fn on_controller_message(&mut self, payload: Bytes, now_ms: u64) -> (a: GuardAction)
        ensures
            RelayGuard::spec_handle(
                *old(self),
                *final(self),
                GuardDirection::ControllerToHost,
                bytes_contents(payload),
                now_ms,
                a,
            ),
    {
        self.handle(GuardDirection::ControllerToHost, payload, now_ms)
    }

    pub fn on_host_message(&mut self, payload: Bytes, now_ms: u64) -> (a: GuardAction)
        ensures
            RelayGuard::spec_handle(
                *old(self),
                *final(self),
                GuardDirection::HostToController,
                bytes_contents(payload),
                now_ms,
                a,
            ),
    {
        self.handle(GuardDirection::HostToController, payload, now_ms)
    }

    fn handle(&mut self, direction: GuardDirection, payload: Bytes, now_ms: u64) -> (a: GuardAction)
        ensures
            RelayGuard::spec_handle(
                *old(self),
                *final(self),
                direction,
                bytes_contents(payload),
                now_ms,
                a,
            ),
    {
        if !self.enabled {
            return GuardAction::Forward(payload);
        }
        let window = self.duplicate_window_ms;
        let state = match direction {
            GuardDirection::ControllerToHost => &mut self.controller_to_host,
            GuardDirection::HostToController => &mut self.host_to_controller,
        };
        let same = match &state.last_payload {
            Some(last) => bytes_eq(last, &payload),
            None => false,
        };
        let elapsed = if now_ms >= state.last_forwarded_ms {
            now_ms - state.last_forwarded_ms
        } else {
            0
        };
        if same && elapsed < window {
            return GuardAction::DropDuplicate;
        }
        state.last_forwarded_ms = now_ms;
        state.last_payload = Some(bytes_clone(&payload));
        GuardAction::Forward(payload)
    }
}

/// Forwarding then repeating the same payload within the window drops the
/// repeat; a repeat after the window, or any payload while the guard is off,
/// is forwarded.
pub proof fn lemma_guard_drops_only_recent_repeats(
    g0: RelayGuard,
    g1: RelayGuard,
    g2: RelayGuard,
    direction: GuardDirection,
    payload: Seq<u8>,
    t1: u64,
    t2: u64,
    a1: GuardAction,
    a2: GuardAction,
)
    requires
        RelayGuard::spec_handle(g0, g1, direction, payload, t1, a1),
        RelayGuard::spec_handle(g1, g2, direction, payload, t2, a2),
        a1 is Forward,
    ensures
        g0.spec_enabled() && t2 >= t1 && t2 - t1 < g0.spec_window_ms() ==> a2 is DropDuplicate,
        g0.spec_enabled() && t2 >= t1 && t2 - t1 >= g0.spec_window_ms() ==> a2 is Forward,
        !g0.spec_enabled() ==> a2 is Forward,
{
}

} // verus!
