//! One run end to end: locate, connect, resolve the endpoints, move, disconnect.

use vstd::prelude::*;

use crate::codec::MotionDirection;
use crate::locator::{
    find_first, is_first_match, spec_list_failed, spec_locator, spec_observed,
    spec_scan_started, spec_waited, DeviceLocator, Endpoint, LocateAction, LocatorPhase,
    SessionError,
};
use crate::motion::{spec_new, spec_step, MotionAction, MotionController, MotionEvent};

verus! {

/// Identifier of the endpoint that reports the height.
pub const TELEMETRY_UUID: &'static str = "99fa0021-338a-1024-8a49-009c0215f78a";

/// Identifier of the endpoint that takes movement commands.
pub const COMMAND_UUID: &'static str = "99fa0002-338a-1024-8a49-009c0215f78a";

/// Where a run stands.
#[derive(Clone, Copy, Debug, PartialEq, Eq, Structural)]
pub enum SessionPhase {
    Locating,
    Connecting,
    Discovering,
    Resolving,
    Moving,
    Disconnecting,
    Done,
}

/// What the orchestrator asks its driver to do next.
#[derive(Clone, Copy, Debug, PartialEq, Eq, Structural)]
pub enum SessionAction {
    StartScan,
    ListPeripherals,
    /// Wait out the pause between two polls.
    Wait,
    /// Connect the peripheral at this position of the last list.
    Connect(usize),
    DiscoverServices,
    /// List the identifiers of the device's endpoints.
    ListEndpoints,
    /// Read the telemetry endpoint.
    ReadHeight,
    /// Write the command of this direction to the command endpoint.
    Send(MotionDirection),
    /// Wait out the settle delay after a pulse.
    Settle,
    Disconnect,
    /// The run is over; its outcome is in `outcome`.
    Finish,
}

/// One run: locate, connect, discover, resolve the endpoints, move, disconnect.
#[derive(Clone, Copy, Debug)]
pub struct SessionOrchestrator {
    pub locator: DeviceLocator,
    pub motion: MotionController,
    pub phase: SessionPhase,
    /// Position of the device in the last list of peripherals.
    pub device: usize,
    /// Position of the telemetry endpoint in the list of endpoints.
    pub telemetry: usize,
    /// Position of the command endpoint in the list of endpoints.
    pub command: usize,
    /// The error that ended the run early, if one did.
    pub error: Option<SessionError>,
    pub disconnect_failed: bool,
}

pub open spec fn spec_session(setpoint: u32, max_attempts: u32) -> SessionOrchestrator {
    SessionOrchestrator {
        locator: spec_locator(max_attempts),
        motion: spec_new(setpoint),
        phase: SessionPhase::Locating,
        device: 0,
        telemetry: 0,
        command: 0,
        error: None,
        disconnect_failed: false,
    }
}

/// The run after its locator has moved to `l`.
pub open spec fn spec_located(s: SessionOrchestrator, l: DeviceLocator) -> SessionOrchestrator {
    if s.phase != SessionPhase::Locating {
        s
    } else {
        match l.phase {
            LocatorPhase::Found(i) => SessionOrchestrator {
                locator: l,
                phase: SessionPhase::Connecting,
                device: i,
                ..s
            },
            LocatorPhase::Failed(e) => SessionOrchestrator {
                locator: l,
                phase: SessionPhase::Done,
                error: Some(e),
                ..s
            },
            _ => SessionOrchestrator { locator: l, ..s },
        }
    }
}

pub open spec fn spec_connected(s: SessionOrchestrator, ok: bool) -> SessionOrchestrator {
    if s.phase != SessionPhase::Connecting {
        s
    } else if ok {
        SessionOrchestrator { phase: SessionPhase::Discovering, ..s }
    } else {
        SessionOrchestrator {
            phase: SessionPhase::Done,
            error: Some(SessionError::ConnectFailed),
            ..s
        }
    }
}

pub open spec fn spec_discovered(s: SessionOrchestrator, ok: bool) -> SessionOrchestrator {
    if s.phase != SessionPhase::Discovering {
        s
    } else if ok {
        SessionOrchestrator { phase: SessionPhase::Resolving, ..s }
    } else {
        SessionOrchestrator {
            phase: SessionPhase::Disconnecting,
            error: Some(SessionError::ServiceDiscoveryFailed),
            ..s
        }
    }
}

/// The run once the endpoints have been looked for: `telemetry` and `command`
/// are where each stands in the list, if it is there.
pub open spec fn spec_resolved(
    s: SessionOrchestrator,
    telemetry: Option<usize>,
    command: Option<usize>,
) -> SessionOrchestrator {
    if s.phase != SessionPhase::Resolving {
        s
    } else {
        match (telemetry, command) {
            (Some(t), Some(c)) => SessionOrchestrator {
                phase: SessionPhase::Moving,
                telemetry: t,
                command: c,
                ..s
            },
            (None, _) => SessionOrchestrator {
                phase: SessionPhase::Disconnecting,
                error: Some(SessionError::EndpointMissing(Endpoint::Telemetry)),
                ..s
            },
            (Some(_), None) => SessionOrchestrator {
                phase: SessionPhase::Disconnecting,
                error: Some(SessionError::EndpointMissing(Endpoint::Command)),
                ..s
            },
        }
    }
}

/// The run after one event of the control loop; once the loop is over the
/// device is disconnected.
pub open spec fn spec_moved(s: SessionOrchestrator, ev: MotionEvent) -> SessionOrchestrator {
    if s.phase != SessionPhase::Moving {
        s
    } else {
        let m = spec_step(s.motion, ev);
        SessionOrchestrator {
            motion: m,
            phase: if m.spec_pending() == MotionAction::Finish {
                SessionPhase::Disconnecting
            } else {
                SessionPhase::Moving
            },
            ..s
        }
    }
}

pub open spec fn spec_disconnected(s: SessionOrchestrator, ok: bool) -> SessionOrchestrator {
    if s.phase != SessionPhase::Disconnecting {
        s
    } else {
        SessionOrchestrator { phase: SessionPhase::Done, disconnect_failed: !ok, ..s }
    }
}

pub open spec fn locate_action(a: LocateAction) -> SessionAction {
    match a {
        LocateAction::StartScan => SessionAction::StartScan,
        LocateAction::ListPeripherals => SessionAction::ListPeripherals,
        LocateAction::Wait => SessionAction::Wait,
        LocateAction::Found(i) => SessionAction::Connect(i),
        LocateAction::Failed(_) => SessionAction::Finish,
    }
}

pub open spec fn motion_action(a: MotionAction) -> SessionAction {
    match a {
        MotionAction::ReadHeight => SessionAction::ReadHeight,
        MotionAction::Send(d) => SessionAction::Send(d),
        MotionAction::Settle => SessionAction::Settle,
        MotionAction::Finish => SessionAction::Disconnect,
    }
}

/// A search that ends without the device ends the run with its error: no
/// connection is made and no command is sent.
pub proof fn lemma_search_failure_ends_run(s: SessionOrchestrator, l: DeviceLocator, e: SessionError)
    requires
        s.phase == SessionPhase::Locating,
        s.error is None,
        l.phase == LocatorPhase::Failed(e),
    ensures
        spec_located(s, l).phase == SessionPhase::Done,
        spec_located(s, l).spec_pending() == SessionAction::Finish,
        spec_located(s, l).spec_outcome() == Err::<u32, SessionError>(e),
{
}

impl SessionOrchestrator {
    pub open spec fn wf(self) -> bool {
        self.locator.wf()
    }

    pub open spec fn spec_pending(self) -> SessionAction {
        match self.phase {
            SessionPhase::Locating => locate_action(self.locator.spec_pending()),
            SessionPhase::Connecting => SessionAction::Connect(self.device),
            SessionPhase::Discovering => SessionAction::DiscoverServices,
            SessionPhase::Resolving => SessionAction::ListEndpoints,
            SessionPhase::Moving => motion_action(self.motion.spec_pending()),
            SessionPhase::Disconnecting => SessionAction::Disconnect,
            SessionPhase::Done => SessionAction::Finish,
        }
    }

    /// The outcome of a finished run: the final height, or the error that
    /// ended it early.
    pub open spec fn spec_outcome(self) -> Result<u32, SessionError> {
        match self.error {
            Some(e) => Err(e),
            None => Ok(self.motion.final_height),
        }
    }

    /// A run towards `setpoint` that polls for the device at most
    /// `max_attempts` times; its first action starts the scan.
    pub fn new(setpoint: u32, max_attempts: u32) -> (s: Self)
        ensures
            s == spec_session(setpoint, max_attempts),
            s.wf(),
    {
        SessionOrchestrator {
            locator: DeviceLocator::new(max_attempts),
            motion: MotionController::new(setpoint),
            phase: SessionPhase::Locating,
            device: 0,
            telemetry: 0,
            command: 0,
            error: None,
            disconnect_failed: false,
        }
    }

    pub fn pending(&self) -> (a: SessionAction)
        ensures
            a == self.spec_pending(),
    {
        match self.phase {
            SessionPhase::Locating => match self.locator.pending() {
                LocateAction::StartScan => SessionAction::StartScan,
                LocateAction::ListPeripherals => SessionAction::ListPeripherals,
                LocateAction::Wait => SessionAction::Wait,
                LocateAction::Found(i) => SessionAction::Connect(i),
                LocateAction::Failed(_) => SessionAction::Finish,
            },
            SessionPhase::Connecting => SessionAction::Connect(self.device),
            SessionPhase::Discovering => SessionAction::DiscoverServices,
            SessionPhase::Resolving => SessionAction::ListEndpoints,
            SessionPhase::Moving => match self.motion.pending() {
                MotionAction::ReadHeight => SessionAction::ReadHeight,
                MotionAction::Send(d) => SessionAction::Send(d),
                MotionAction::Settle => SessionAction::Settle,
                MotionAction::Finish => SessionAction::Disconnect,
            },
            SessionPhase::Disconnecting => SessionAction::Disconnect,
            SessionPhase::Done => SessionAction::Finish,
        }
    }

    pub fn outcome(&self) -> (r: Result<u32, SessionError>)
        ensures
            r == self.spec_outcome(),
    {
        match self.error {
            Some(e) => Err(e),
            None => Ok(self.motion.final_height),
        }
    }

    fn take_locator(&mut self, l: DeviceLocator)
        requires
            old(self).phase == SessionPhase::Locating,
        ensures
            *final(self) == spec_located(*old(self), l),
    {
        self.locator = l;
        match l.phase {
            LocatorPhase::Found(i) => {
                self.phase = SessionPhase::Connecting;
                self.device = i;
            },
            LocatorPhase::Failed(e) => {
                self.phase = SessionPhase::Done;
                self.error = Some(e);
            },
            _ => {},
        }
    }

    /// Takes whether the scan started.
    pub fn scan_started(&mut self, ok: bool) -> (a: SessionAction)
        requires
            old(self).wf(),
        ensures
            *final(self) == spec_located(*old(self), spec_scan_started(old(self).locator, ok)),
            final(self).wf(),
            a == final(self).spec_pending(),
    {
        if self.phase == SessionPhase::Locating {
            let mut l = self.locator;
            l.scan_started(ok);
            self.take_locator(l);
        }
        self.pending()
    }

    /// Takes the addresses of the visible peripherals and looks for `id` among them.
    pub fn peripherals_listed(&mut self, addresses: &Vec<String>, id: &str) -> (a: SessionAction)
        requires
            old(self).wf(),
        ensures
            exists|found: Option<usize>|
                is_first_match(addresses@, id@, found) && *final(self) == spec_located(
                    *old(self),
                    spec_observed(old(self).locator, found),
                ),
            final(self).wf(),
            a == final(self).spec_pending(),
    {
        let found = find_first(addresses, id);
        if self.phase == SessionPhase::Locating {
            let mut l = self.locator;
            l.observed(found);
            self.take_locator(l);
        }
        self.pending()
    }

    /// Takes the report that the peripherals could not be listed.
    pub fn list_failed(&mut self) -> (a: SessionAction)
        requires
            old(self).wf(),
        ensures
            *final(self) == spec_located(*old(self), spec_list_failed(old(self).locator)),
            final(self).wf(),
            a == final(self).spec_pending(),
    {
        if self.phase == SessionPhase::Locating {
            let mut l = self.locator;
            l.list_failed();
            self.take_locator(l);
        }
        self.pending()
    }

    /// Takes the end of the pause between two polls.
    pub fn waited(&mut self) -> (a: SessionAction)
        requires
            old(self).wf(),
        ensures
            *final(self) == spec_located(*old(self), spec_waited(old(self).locator)),
            final(self).wf(),
            a == final(self).spec_pending(),
    {
        if self.phase == SessionPhase::Locating {
            let mut l = self.locator;
            l.waited();
            self.take_locator(l);
        }
        self.pending()
    }

    /// Takes whether the connection succeeded.
    pub fn connected(&mut self, ok: bool) -> (a: SessionAction)
        requires
            old(self).wf(),
        ensures
            *final(self) == spec_connected(*old(self), ok),
            final(self).wf(),
            a == final(self).spec_pending(),
    {
        if self.phase == SessionPhase::Connecting {
            if ok {
                self.phase = SessionPhase::Discovering;
            } else {
                self.phase = SessionPhase::Done;
                self.error = Some(SessionError::ConnectFailed);
            }
        }
        self.pending()
    }

    /// Takes whether service discovery succeeded.
    pub fn discovered(&mut self, ok: bool) -> (a: SessionAction)
        requires
            old(self).wf(),
        ensures
            *final(self) == spec_discovered(*old(self), ok),
            final(self).wf(),
            a == final(self).spec_pending(),
    {
        if self.phase == SessionPhase::Discovering {
            if ok {
                self.phase = SessionPhase::Resolving;
            } else {
                self.phase = SessionPhase::Disconnecting;
                self.error = Some(SessionError::ServiceDiscoveryFailed);
            }
        }
        self.pending()
    }

    /// Takes the identifiers of the device's endpoints and picks the two
    /// control endpoints among them.
    pub fn endpoints_listed(&mut self, uuids: &Vec<String>) -> (a: SessionAction)
        requires
            old(self).wf(),
        ensures
            exists|t: Option<usize>, c: Option<usize>|
                is_first_match(uuids@, TELEMETRY_UUID@, t) && is_first_match(
                    uuids@,
                    COMMAND_UUID@,
                    c,
                ) && *final(self) == spec_resolved(*old(self), t, c),
            final(self).wf(),
            a == final(self).spec_pending(),
    {
        let t = find_first(uuids, TELEMETRY_UUID);
        let c = find_first(uuids, COMMAND_UUID);
        self.resolved(t, c)
    }

    /// Takes where the two control endpoints stand in the list of endpoints.
    pub fn resolved(&mut self, telemetry: Option<usize>, command: Option<usize>) -> (a: SessionAction)
        requires
            old(self).wf(),
        ensures
            *final(self) == spec_resolved(*old(self), telemetry, command),
            final(self).wf(),
            a == final(self).spec_pending(),
    {
        if self.phase == SessionPhase::Resolving {
            match (telemetry, command) {
                (Some(t), Some(c)) => {
                    self.phase = SessionPhase::Moving;
                    self.telemetry = t;
                    self.command = c;
                },
                (None, _) => {
                    self.phase = SessionPhase::Disconnecting;
                    self.error = Some(SessionError::EndpointMissing(Endpoint::Telemetry));
                },
                (Some(_), None) => {
                    self.phase = SessionPhase::Disconnecting;
                    self.error = Some(SessionError::EndpointMissing(Endpoint::Command));
                },
            }
        }
        self.pending()
    }

    /// Takes the outcome of a read, a write or a settle delay of the control loop.
    pub fn motion_event(&mut self, ev: MotionEvent) -> (a: SessionAction)
        requires
            old(self).wf(),
        ensures
            *final(self) == spec_moved(*old(self), ev),
            final(self).wf(),
            a == final(self).spec_pending(),
    {
        if self.phase == SessionPhase::Moving {
            let next = self.motion.step(ev);
            if next == MotionAction::Finish {
                self.phase = SessionPhase::Disconnecting;
            }
        }
        self.pending()
    }

    /// Takes whether the disconnection succeeded; either way the run is over.
    pub fn disconnected(&mut self, ok: bool) -> (a: SessionAction)
        requires
            old(self).wf(),
        ensures
            *final(self) == spec_disconnected(*old(self), ok),
            final(self).wf(),
            a == final(self).spec_pending(),
    {
        if self.phase == SessionPhase::Disconnecting {
            self.phase = SessionPhase::Done;
            self.disconnect_failed = !ok;
        }
        self.pending()
    }
}

} // verus!
