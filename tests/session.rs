use desk_control::codec::{encode_direction, height_of_reading, MotionDirection};
use desk_control::input::parse_target;
use desk_control::locator::{DeviceLocator, Endpoint, LocateAction, SessionError};
use desk_control::motion::MotionEvent;
use desk_control::session::{SessionAction, SessionOrchestrator, COMMAND_UUID, TELEMETRY_UUID};

const DESK: &str = "D4:8A:12:00:34:56";

/// A simulated transport and desk, counting the calls made on it.
struct FakeDesk {
    /// Poll (1-based) on which the desk first shows up; 0 for never.
    visible_from: u32,
    polls: u32,
    waits: u32,
    connects: u32,
    writes: Vec<[u8; 2]>,
    reads: u32,
    disconnects: u32,
    raw: u16,
    raw_step: u16,
    endpoints: Vec<String>,
    connect_ok: bool,
    discover_ok: bool,
    scan_ok: bool,
}

impl FakeDesk {
    fn new(raw: u16, raw_step: u16) -> FakeDesk {
        FakeDesk {
            visible_from: 1,
            polls: 0,
            waits: 0,
            connects: 0,
            writes: Vec::new(),
            reads: 0,
            disconnects: 0,
            raw,
            raw_step,
            endpoints: vec![
                "0000180a-0000-1000-8000-00805f9b34fb".to_string(),
                TELEMETRY_UUID.to_string(),
                COMMAND_UUID.to_string(),
            ],
            connect_ok: true,
            discover_ok: true,
            scan_ok: true,
        }
    }

    fn transport_calls(&self) -> u32 {
        self.polls + self.connects + self.writes.len() as u32 + self.reads + self.disconnects
    }

    fn run(&mut self, setpoint: u32, max_attempts: u32) -> SessionOrchestrator {
        let mut s = SessionOrchestrator::new(setpoint, max_attempts);
        let mut a = s.pending();
        for _ in 0..100_000 {
            a = match a {
                SessionAction::StartScan => s.scan_started(self.scan_ok),
                SessionAction::ListPeripherals => {
                    self.polls += 1;
                    let mut names = vec!["11:22:33:44:55:66".to_string()];
                    if self.visible_from != 0 && self.polls >= self.visible_from {
                        names.push(DESK.to_string());
                    }
                    s.peripherals_listed(&names, DESK)
                }
                SessionAction::Wait => {
                    self.waits += 1;
                    s.waited()
                }
                SessionAction::Connect(i) => {
                    assert_eq!(i, 1);
                    self.connects += 1;
                    s.connected(self.connect_ok)
                }
                SessionAction::DiscoverServices => s.discovered(self.discover_ok),
                SessionAction::ListEndpoints => {
                    let e = self.endpoints.clone();
                    s.endpoints_listed(&e)
                }
                SessionAction::ReadHeight => {
                    self.reads += 1;
                    let bytes = self.raw.to_le_bytes().to_vec();
                    s.motion_event(MotionEvent::Height(height_of_reading(&Some(bytes))))
                }
                SessionAction::Send(d) => {
                    let cmd = encode_direction(d);
                    self.writes.push(cmd);
                    match d {
                        MotionDirection::Up => self.raw += self.raw_step,
                        MotionDirection::Down => self.raw -= self.raw_step,
                        MotionDirection::Stop => {}
                    }
                    s.motion_event(MotionEvent::Done)
                }
                SessionAction::Settle => s.motion_event(MotionEvent::Done),
                SessionAction::Disconnect => {
                    self.disconnects += 1;
                    s.disconnected(true)
                }
                SessionAction::Finish => break,
            };
        }
        assert_eq!(a, SessionAction::Finish);
        s
    }
}

#[test]
fn end_to_end_moves_up_to_900() {
    let setpoint = parse_target("900").unwrap();
    assert_eq!(setpoint, 880);
    // 2200 raw units decode to 820 mm; each pulse moves 10 mm
    let mut desk = FakeDesk::new(2200, 100);
    let s = desk.run(setpoint, 10);
    let (stop, moves) = desk.writes.split_last().unwrap();
    assert_eq!(*stop, [0x00, 0x00]);
    assert!(!moves.is_empty());
    assert!(moves.iter().all(|c| *c == [0x47, 0x00]));
    // one initial read, one after each pulse, one final
    assert_eq!(desk.reads as usize, 1 + moves.len() + 1);
    let h = s.outcome().unwrap();
    assert!((870..=890).contains(&h));
    assert_eq!(desk.connects, 1);
    assert_eq!(desk.disconnects, 1);
    assert_eq!(desk.waits, 0);
    assert!(!s.disconnect_failed);
}

#[test]
fn end_to_end_rejects_700_before_transport() {
    let desk = FakeDesk::new(2200, 100);
    assert_eq!(parse_target("700"), Err(SessionError::InvalidInput));
    assert_eq!(desk.transport_calls(), 0);
}

#[test]
fn end_to_end_device_never_seen() {
    let mut desk = FakeDesk::new(2200, 100);
    desk.visible_from = 0;
    let s = desk.run(880, 10);
    assert_eq!(s.outcome(), Err(SessionError::DeviceNotFound(10)));
    assert_eq!(desk.polls, 10);
    assert_eq!(desk.connects, 0);
    assert!(desk.writes.is_empty());
    assert_eq!(desk.reads, 0);
    assert_eq!(desk.disconnects, 0);
}

#[test]
fn end_to_end_device_on_third_poll() {
    let mut desk = FakeDesk::new(2200, 100);
    desk.visible_from = 3;
    let s = desk.run(880, 10);
    assert_eq!(desk.polls, 3);
    assert_eq!(desk.waits, 2);
    assert!(s.outcome().is_ok());
}

#[test]
fn scan_failure_is_terminal() {
    let mut desk = FakeDesk::new(2200, 100);
    desk.scan_ok = false;
    let s = desk.run(880, 10);
    assert_eq!(s.outcome(), Err(SessionError::ScanStartFailed));
    assert_eq!(desk.transport_calls(), 0);
}

#[test]
fn connect_failure_stops_without_motion() {
    let mut desk = FakeDesk::new(2200, 100);
    desk.connect_ok = false;
    let s = desk.run(880, 10);
    assert_eq!(s.outcome(), Err(SessionError::ConnectFailed));
    assert!(desk.writes.is_empty());
    assert_eq!(desk.disconnects, 0);
}

#[test]
fn discovery_failure_disconnects() {
    let mut desk = FakeDesk::new(2200, 100);
    desk.discover_ok = false;
    let s = desk.run(880, 10);
    assert_eq!(s.outcome(), Err(SessionError::ServiceDiscoveryFailed));
    assert!(desk.writes.is_empty());
    assert_eq!(desk.disconnects, 1);
}

#[test]
fn missing_endpoints_disconnect() {
    let mut desk = FakeDesk::new(2200, 100);
    desk.endpoints = vec![COMMAND_UUID.to_string()];
    let s = desk.run(880, 10);
    assert_eq!(s.outcome(), Err(SessionError::EndpointMissing(Endpoint::Telemetry)));
    assert_eq!(desk.disconnects, 1);
    let mut desk = FakeDesk::new(2200, 100);
    desk.endpoints = vec![TELEMETRY_UUID.to_string()];
    let s = desk.run(880, 10);
    assert_eq!(s.outcome(), Err(SessionError::EndpointMissing(Endpoint::Command)));
    assert!(desk.writes.is_empty());
    assert_eq!(desk.reads, 0);
}

#[test]
fn endpoints_found_at_their_positions() {
    let mut desk = FakeDesk::new(2200, 100);
    let s = desk.run(880, 10);
    assert_eq!(s.telemetry, 1);
    assert_eq!(s.command, 2);
}

#[test]
fn already_at_target_only_reads_and_disconnects() {
    let mut desk = FakeDesk::new(2800, 100);
    let s = desk.run(880, 10);
    assert_eq!(s.outcome(), Ok(880));
    assert!(desk.writes.is_empty());
    assert_eq!(desk.reads, 1);
    assert_eq!(desk.disconnects, 1);
}

#[test]
fn locator_third_poll_two_retries() {
    let mut l = DeviceLocator::new(10);
    assert_eq!(l.scan_started(true), LocateAction::ListPeripherals);
    let none = vec!["11:22:33:44:55:66".to_string()];
    let some = vec!["11:22:33:44:55:66".to_string(), DESK.to_string()];
    assert_eq!(l.observe(&none, DESK), LocateAction::Wait);
    assert_eq!(l.waited(), LocateAction::ListPeripherals);
    assert_eq!(l.observe(&none, DESK), LocateAction::Wait);
    assert_eq!(l.waited(), LocateAction::ListPeripherals);
    assert_eq!(l.observe(&some, DESK), LocateAction::Found(1));
    assert_eq!(l.attempts, 3);
}

#[test]
fn locator_gives_up_after_max_attempts() {
    let mut l = DeviceLocator::new(3);
    l.scan_started(true);
    let none: Vec<String> = Vec::new();
    assert_eq!(l.observe(&none, DESK), LocateAction::Wait);
    l.waited();
    assert_eq!(l.observe(&none, DESK), LocateAction::Wait);
    l.waited();
    assert_eq!(
        l.observe(&none, DESK),
        LocateAction::Failed(SessionError::DeviceNotFound(3))
    );
    assert_eq!(l.list_failed(), LocateAction::Failed(SessionError::DeviceNotFound(3)));
}

#[test]
fn locator_zero_attempts_and_list_failure() {
    let mut l = DeviceLocator::new(0);
    assert_eq!(l.scan_started(true), LocateAction::Failed(SessionError::DeviceNotFound(0)));
    let mut l = DeviceLocator::new(5);
    l.scan_started(true);
    assert_eq!(l.list_failed(), LocateAction::Failed(SessionError::ListFailed));
}

#[test]
fn address_match_is_exact() {
    let mut l = DeviceLocator::new(1);
    l.scan_started(true);
    let names = vec!["d4:8a:12:00:34:56".to_string(), "D4:8A:12:00:34:5".to_string()];
    assert_eq!(
        l.observe(&names, DESK),
        LocateAction::Failed(SessionError::DeviceNotFound(1))
    );
}
