use dronecore::drone::{check_command, ensure_connected, settle, Drone, DroneState};
use dronecore::error::DroneError;
use dronecore::state::CommandKind;
use dronecore::transport::{FakeTransport, Transport};

/// A transport that records what it is handed and can be told to fail.
struct Recording {
    connects: usize,
    sent: Vec<Vec<u8>>,
    received: usize,
    fail_send: bool,
}

impl Recording {
    fn new() -> Recording {
        Recording { connects: 0, sent: Vec::new(), received: 0, fail_send: false }
    }

    fn failing() -> Recording {
        Recording { connects: 0, sent: Vec::new(), received: 0, fail_send: true }
    }

    fn calls(&self) -> usize {
        self.connects + self.sent.len() + self.received
    }
}

impl Transport for Recording {
    fn connect(&mut self) -> Result<(), DroneError> {
        self.connects += 1;
        Ok(())
    }

    fn send(&mut self, bytes: &[u8]) -> Result<(), DroneError> {
        self.sent.push(bytes.to_vec());
        if self.fail_send {
            Err(DroneError::Io(String::from("link dropped")))
        } else {
            Ok(())
        }
    }

    fn recv(&mut self) -> Result<Vec<u8>, DroneError> {
        self.received += 1;
        Ok(b"{}".to_vec())
    }
}

fn all_states() -> Vec<DroneState> {
    vec![DroneState::Disarmed, DroneState::Armed, DroneState::Flying, DroneState::Landing]
}

/// Drives a fresh facade over a recording transport into `state`.
fn drone_in(state: DroneState) -> Drone<Recording> {
    let mut drone = Drone::new(Recording::new());
    if state != DroneState::Disarmed {
        drone.arm().unwrap();
    }
    if state == DroneState::Flying || state == DroneState::Landing {
        drone.takeoff("5").unwrap();
    }
    if state == DroneState::Landing {
        drone.land().unwrap();
    }
    assert_eq!(drone.state(), state);
    drone
}

#[test]
fn status_on_fake_should_connect_and_fetch() {
    let mut d = Drone::new(FakeTransport::new());
    ensure_connected(&mut d).unwrap();
    let snap = d.status().unwrap();
    let _ = serde_json::to_string(&snap).unwrap();
    assert_eq!(snap, "state=Disarmed transport_resp=OK");
}

#[test]
fn new_drone_is_disarmed_and_not_connected() {
    let drone = Drone::new(FakeTransport::new());
    assert_eq!(drone.state(), DroneState::Disarmed);
    assert!(!drone.is_connected());
    assert!(!drone.transport().is_connected());
}

#[test]
fn full_flight_on_fake_ends_in_landing() {
    let mut drone = Drone::new(FakeTransport::new());
    assert_eq!(drone.connect(), Ok(()));
    assert_eq!(drone.state(), DroneState::Disarmed);
    assert_eq!(drone.arm(), Ok(()));
    assert_eq!(drone.state(), DroneState::Armed);
    assert_eq!(drone.takeoff(&format!("{}", 5.0f32)), Ok(()));
    assert_eq!(drone.state(), DroneState::Flying);
    assert_eq!(drone.land(), Ok(()));
    assert_eq!(drone.state(), DroneState::Landing);
}

#[test]
fn takeoff_while_disarmed_is_a_state_error_without_a_transport_call() {
    let mut drone = Drone::new(Recording::new());
    drone.connect().unwrap();
    let before = drone.transport().calls();
    let r = drone.takeoff(&format!("{}", 5.0f32));
    assert_eq!(
        r,
        Err(DroneError::State { command: CommandKind::Takeoff, state: DroneState::Disarmed })
    );
    assert_eq!(drone.state(), DroneState::Disarmed);
    assert_eq!(drone.transport().calls(), before);
    assert!(drone.transport().sent.is_empty());
}

#[test]
fn every_forbidden_command_is_refused_and_sends_nothing() {
    for state in all_states() {
        for command in [CommandKind::Arm, CommandKind::Takeoff, CommandKind::Land] {
            let allowed = match command {
                CommandKind::Arm => state == DroneState::Disarmed,
                CommandKind::Takeoff => state == DroneState::Armed,
                _ => state == DroneState::Flying,
            };
            if allowed {
                continue;
            }
            let mut drone = drone_in(state);
            let before = drone.transport().calls();
            let r = match command {
                CommandKind::Arm => drone.arm(),
                CommandKind::Takeoff => drone.takeoff("5"),
                _ => drone.land(),
            };
            assert_eq!(r, Err(DroneError::State { command, state }));
            assert_eq!(drone.state(), state);
            assert_eq!(drone.transport().calls(), before);
        }
    }
}

#[test]
fn permitted_commands_send_their_frames() {
    let mut drone = Drone::new(Recording::new());
    drone.arm().unwrap();
    drone.takeoff("12.5").unwrap();
    drone.land().unwrap();
    let sent = &drone.transport().sent;
    assert_eq!(sent.len(), 3);
    assert_eq!(sent[0], b"ARM".to_vec());
    assert_eq!(sent[1], b"TAKEOFF:12.5".to_vec());
    assert_eq!(sent[2], b"LAND".to_vec());
}

#[test]
fn takeoff_frame_carries_the_altitude_as_printed() {
    let mut drone = Drone::new(Recording::new());
    drone.arm().unwrap();
    drone.takeoff(&format!("{}", 5.0f32)).unwrap();
    assert_eq!(drone.transport().sent[1], b"TAKEOFF:5".to_vec());
}

#[test]
fn transport_failure_is_surfaced_and_leaves_the_state() {
    let mut drone = Drone::new(Recording::failing());
    let r = drone.arm();
    assert_eq!(r, Err(DroneError::Io(String::from("link dropped"))));
    assert_eq!(drone.state(), DroneState::Disarmed);
    assert_eq!(drone.transport().sent.len(), 1);
}

#[test]
fn arm_before_connect_on_fake_fails_with_connection_error() {
    let mut drone = Drone::new(FakeTransport::new());
    let r = drone.arm();
    assert_eq!(r, Err(DroneError::Connect(String::from("not connected"))));
    assert_eq!(drone.state(), DroneState::Disarmed);
}

#[test]
fn status_before_connect_on_fake_fails_with_connection_error() {
    let mut drone = Drone::new(FakeTransport::new());
    assert_eq!(drone.status(), Err(DroneError::Connect(String::from("not connected"))));
}

#[test]
fn status_reports_current_state_and_acknowledgment() {
    let mut drone = Drone::new(FakeTransport::new());
    drone.connect().unwrap();
    assert_eq!(drone.status().unwrap(), "state=Disarmed transport_resp=OK");
    drone.arm().unwrap();
    assert_eq!(drone.status().unwrap(), "state=Armed transport_resp=OK");
    drone.takeoff("5").unwrap();
    assert_eq!(drone.status().unwrap(), "state=Flying transport_resp=OK");
    drone.land().unwrap();
    assert_eq!(drone.status().unwrap(), "state=Landing transport_resp=OK");
    assert_eq!(drone.state(), DroneState::Landing);
}

#[test]
fn status_sends_the_status_frame_and_reads_once() {
    let mut drone = Drone::new(Recording::new());
    let line = drone.status().unwrap();
    assert_eq!(line, "state=Disarmed transport_resp={}");
    assert_eq!(drone.transport().sent, vec![b"STATUS".to_vec()]);
    assert_eq!(drone.transport().received, 1);
    assert_eq!(drone.state(), DroneState::Disarmed);
}

#[test]
fn snapshot_on_fake_is_a_protocol_error() {
    let mut drone = Drone::new(FakeTransport::new());
    drone.connect().unwrap();
    match drone.snapshot() {
        Err(DroneError::Protocol { status: None, .. }) => {}
        other => panic!("expected a protocol failure, got {:?}", other),
    }
}

#[test]
fn connect_is_permitted_from_every_state() {
    for state in all_states() {
        let mut drone = drone_in(state);
        assert_eq!(drone.connect(), Ok(()));
        assert_eq!(drone.state(), state);
        assert!(drone.is_connected());
    }
}

#[test]
fn ensure_connected_connects_once() {
    let mut drone = Drone::new(Recording::new());
    ensure_connected(&mut drone).unwrap();
    ensure_connected(&mut drone).unwrap();
    assert_eq!(drone.transport().connects, 1);
    assert!(drone.is_connected());
}

#[test]
fn check_command_follows_the_table() {
    for state in all_states() {
        assert_eq!(check_command(state, CommandKind::Connect), Ok(()));
        assert_eq!(check_command(state, CommandKind::Status), Ok(()));
    }
    assert_eq!(check_command(DroneState::Disarmed, CommandKind::Arm), Ok(()));
    assert_eq!(check_command(DroneState::Armed, CommandKind::Takeoff), Ok(()));
    assert_eq!(check_command(DroneState::Flying, CommandKind::Land), Ok(()));
    assert_eq!(
        check_command(DroneState::Landing, CommandKind::Land),
        Err(DroneError::State { command: CommandKind::Land, state: DroneState::Landing })
    );
}

#[test]
fn settle_moves_on_only_after_success() {
    let (next, answer) = settle(DroneState::Disarmed, CommandKind::Arm, Ok(()));
    assert_eq!(next, DroneState::Armed);
    assert_eq!(answer, Ok(()));
    let failure = DroneError::Io(String::from("down"));
    let (next, answer) = settle(DroneState::Armed, CommandKind::Takeoff, Err(failure.clone()));
    assert_eq!(next, DroneState::Armed);
    assert_eq!(answer, Err(failure));
}

#[test]
fn fake_transport_rejects_an_empty_frame() {
    let mut fake = FakeTransport::new();
    assert_eq!(fake.send(b"ARM"), Err(DroneError::Connect(String::from("not connected"))));
    assert_eq!(fake.recv(), Err(DroneError::Connect(String::from("not connected"))));
    fake.connect().unwrap();
    assert!(fake.is_connected());
    assert_eq!(
        fake.send(b""),
        Err(DroneError::Protocol { status: None, detail: String::from("empty frame") })
    );
    assert_eq!(fake.send(b"ARM"), Ok(()));
    assert_eq!(fake.recv(), Ok(b"OK".to_vec()));
}

#[test]
fn error_messages_name_command_and_state() {
    let e = DroneError::State { command: CommandKind::Takeoff, state: DroneState::Disarmed };
    assert_eq!(e.message(), "invalid state: cannot takeoff from Disarmed");
    assert_eq!(DroneError::Connect(String::from("x")).message(), "connection failed: x");
    assert_eq!(DroneError::Io(String::from("y")).message(), "I/O error: y");
    let p = DroneError::Protocol { status: Some(500), detail: String::from("boom") };
    assert_eq!(p.message(), "protocol error: boom");
    assert_eq!(p.status_code(), Some(500));
    assert_eq!(e.status_code(), None);
}
