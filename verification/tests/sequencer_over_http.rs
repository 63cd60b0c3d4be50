use dronecore::drone::{ensure_connected, Drone, DroneState};
use dronecore::error::DroneError;
use dronecore::http_api::{HttpLink, HttpRequest, HttpResponse, SupportedHttpMethods};
use dronecore::state::CommandKind;
use dronecore::transport::Transport;

const SNAPSHOT: &str = r#"{"as_of_ms": 99, "seq": 7, "status": {"armed": true, "failsafe": false,
    "flight_mode_bits": 65, "arming_flags_bits": 5, "disable_reasons_bits": 0},
    "altitude": {"baro_cm": 480}}"#;

/// The networked link with a service that answers from a script instead
/// of a network.
struct Scripted {
    link: HttpLink,
    seen: Vec<HttpRequest>,
    service: fn(&HttpRequest) -> Result<HttpResponse, String>,
}

impl Scripted {
    fn new(service: fn(&HttpRequest) -> Result<HttpResponse, String>) -> Scripted {
        Scripted { link: HttpLink::new("http://bridge:8080/", "tok"), seen: Vec::new(), service }
    }

    fn carry(&mut self, request: HttpRequest) -> Result<HttpResponse, String> {
        let reply = (self.service)(&request);
        self.seen.push(request);
        reply
    }
}

impl Transport for Scripted {
    fn connect(&mut self) -> Result<(), DroneError> {
        let request = self.link.connect_request();
        let reply = self.carry(request);
        self.link.connect_answered(reply)
    }

    fn send(&mut self, bytes: &[u8]) -> Result<(), DroneError> {
        let request = self.link.frame_request(bytes)?;
        let reply = self.carry(request);
        self.link.frame_answered(bytes, reply)
    }

    fn recv(&mut self) -> Result<Vec<u8>, DroneError> {
        self.link.take_answer()
    }
}

fn ok(body: &str) -> Result<HttpResponse, String> {
    Ok(HttpResponse { status: 200, body: String::from(body) })
}

fn healthy(request: &HttpRequest) -> Result<HttpResponse, String> {
    if request.url.ends_with("/status") {
        ok(SNAPSHOT)
    } else if request.url.ends_with("/health") {
        Ok(HttpResponse { status: 204, body: String::new() })
    } else {
        ok(r#"{"accepted": true}"#)
    }
}

fn refusing(request: &HttpRequest) -> Result<HttpResponse, String> {
    if request.url.ends_with("/health") {
        ok("up")
    } else {
        Ok(HttpResponse { status: 409, body: String::from("not now") })
    }
}

fn silent(request: &HttpRequest) -> Result<HttpResponse, String> {
    if request.url.ends_with("/health") {
        ok("up")
    } else {
        Ok(HttpResponse { status: 204, body: String::new() })
    }
}

fn unreachable_service(_: &HttpRequest) -> Result<HttpResponse, String> {
    Err(String::from("connection refused"))
}

#[test]
fn full_flight_over_the_networked_link() {
    let mut drone = Drone::new(Scripted::new(healthy));
    ensure_connected(&mut drone).unwrap();
    drone.arm().unwrap();
    drone.takeoff("5").unwrap();
    drone.land().unwrap();
    assert_eq!(drone.state(), DroneState::Landing);
    let seen = &drone.transport().seen;
    let urls: Vec<&str> = seen.iter().map(|r| r.url.as_str()).collect();
    assert_eq!(
        urls,
        vec![
            "http://bridge:8080/health",
            "http://bridge:8080/commands/arm",
            "http://bridge:8080/commands/takeoff",
            "http://bridge:8080/commands/land",
        ]
    );
    assert_eq!(seen[0].method, SupportedHttpMethods::Get);
    assert!(seen[0].headers.is_empty());
    for request in &seen[1..] {
        assert_eq!(request.method, SupportedHttpMethods::Post);
        assert_eq!(request.headers.len(), 1);
        assert_eq!(request.headers[0].name, "Authorization");
        assert_eq!(request.headers[0].value, "Bearer tok");
    }
    assert_eq!(seen[1].body, None);
    assert_eq!(seen[2].body, Some(String::from(r#"{"altitude_m":5}"#)));
    assert_eq!(seen[3].body, Some(String::from("{}")));
}

#[test]
fn snapshot_over_the_networked_link() {
    let mut drone = Drone::new(Scripted::new(healthy));
    drone.connect().unwrap();
    let snapshot = drone.snapshot().unwrap();
    assert_eq!(snapshot.as_of_ms, 99);
    assert_eq!(snapshot.seq, 7);
    assert!(snapshot.status.armed);
    assert_eq!(snapshot.status.flight_mode.bits(), 65);
    assert_eq!(snapshot.status.arming_flags.bits(), 5);
    assert_eq!(snapshot.altitude.unwrap().baro_cm, Some(480));
    assert_eq!(drone.state(), DroneState::Disarmed);
    let last = drone.transport().seen.last().unwrap();
    assert_eq!(last.url, "http://bridge:8080/status");
    assert_eq!(last.method, SupportedHttpMethods::Get);
    assert_eq!(last.headers[0].value, "Bearer tok");
    assert_eq!(drone.status().unwrap(), format!("state=Disarmed transport_resp={}", SNAPSHOT));
}

#[test]
fn forbidden_command_sends_no_request() {
    let mut drone = Drone::new(Scripted::new(healthy));
    drone.connect().unwrap();
    let r = drone.land();
    assert_eq!(
        r,
        Err(DroneError::State { command: CommandKind::Land, state: DroneState::Disarmed })
    );
    assert_eq!(drone.transport().seen.len(), 1);
}

#[test]
fn refusal_by_the_service_leaves_the_state() {
    let mut drone = Drone::new(Scripted::new(refusing));
    drone.connect().unwrap();
    assert_eq!(
        drone.arm(),
        Err(DroneError::Protocol { status: Some(409), detail: String::from("not now") })
    );
    assert_eq!(drone.state(), DroneState::Disarmed);
    assert_eq!(
        drone.snapshot(),
        Err(DroneError::Protocol { status: Some(409), detail: String::from("not now") })
    );
}

#[test]
fn command_answered_without_content_fails() {
    let mut drone = Drone::new(Scripted::new(silent));
    drone.connect().unwrap();
    assert_eq!(
        drone.arm(),
        Err(DroneError::Protocol {
            status: Some(204),
            detail: String::from("POST endpoints must return a body")
        })
    );
    assert_eq!(drone.state(), DroneState::Disarmed);
    assert_eq!(
        drone.status(),
        Err(DroneError::Connect(String::from("the server is unreachable")))
    );
}

#[test]
fn unreachable_service_fails_the_connect() {
    let mut drone = Drone::new(Scripted::new(unreachable_service));
    assert_eq!(drone.connect(), Err(DroneError::Connect(String::from("connection refused"))));
    assert!(!drone.is_connected());
    assert_eq!(drone.arm(), Err(DroneError::Io(String::from("connection refused"))));
    assert_eq!(drone.state(), DroneState::Disarmed);
}

#[test]
fn takeoff_with_an_altitude_that_is_no_number_sends_nothing() {
    let mut drone = Drone::new(Scripted::new(healthy));
    drone.connect().unwrap();
    drone.arm().unwrap();
    let before = drone.transport().seen.len();
    assert_eq!(
        drone.takeoff("NaN"),
        Err(DroneError::Protocol { status: None, detail: String::from("altitude is not a number") })
    );
    assert_eq!(drone.state(), DroneState::Armed);
    assert_eq!(drone.transport().seen.len(), before);
}
