use dronecore::drone::{describe_status, read_snapshot, DroneState};
use dronecore::error::DroneError;
use dronecore::frames::WireCommand;
use dronecore::poll::{poll_step, PollStep, POLL_INTERVAL_MS};
use dronecore::state::CommandKind;
use dronecore::text::{
    is_header_value, join_url, same_text, trim_leading_slashes, trim_trailing_slashes,
};

#[test]
fn frames_are_the_text_of_the_command() {
    assert_eq!(WireCommand::Arm.encode(), b"ARM".to_vec());
    assert_eq!(WireCommand::Land.encode(), b"LAND".to_vec());
    assert_eq!(WireCommand::Status.encode(), b"STATUS".to_vec());
    assert_eq!(WireCommand::Takeoff(String::from("5")).encode(), b"TAKEOFF:5".to_vec());
    assert_eq!(WireCommand::Takeoff(String::from("")).text(), "TAKEOFF:");
    assert_eq!(
        WireCommand::Takeoff(String::from("1\u{bd}")).encode(),
        "TAKEOFF:1\u{bd}".as_bytes().to_vec()
    );
}

#[test]
fn parsing_a_frame_gives_the_command_back() {
    let commands = [
        WireCommand::Arm,
        WireCommand::Land,
        WireCommand::Status,
        WireCommand::Takeoff(String::from("5")),
        WireCommand::Takeoff(String::from("12.75")),
        WireCommand::Takeoff(String::from("")),
        WireCommand::Takeoff(String::from("ARM")),
        WireCommand::Takeoff(String::from("\u{1f681}")),
    ];
    for command in commands {
        assert_eq!(WireCommand::parse(&command.encode()), Some(command));
    }
}

#[test]
fn frames_that_stand_for_no_command() {
    assert_eq!(WireCommand::parse(b""), None);
    assert_eq!(WireCommand::parse(b"arm"), None);
    assert_eq!(WireCommand::parse(b"ARM "), None);
    assert_eq!(WireCommand::parse(b"TAKEOFF"), None);
    assert_eq!(WireCommand::parse(b"TAKEOFF 5"), None);
    assert_eq!(WireCommand::parse(&[b'A', b'R', b'M', 0xff]), None);
    assert_eq!(WireCommand::parse(&[0xc3]), None);
}

#[test]
fn trimming_slashes() {
    assert_eq!(trim_trailing_slashes("a/b//"), "a/b");
    assert_eq!(trim_trailing_slashes("///"), "");
    assert_eq!(trim_trailing_slashes(""), "");
    assert_eq!(trim_trailing_slashes("/a"), "/a");
    assert_eq!(trim_trailing_slashes("\u{e9}t\u{e9}/"), "\u{e9}t\u{e9}");
    assert_eq!(trim_leading_slashes("//a/b/"), "a/b/");
    assert_eq!(trim_leading_slashes("///"), "");
    assert_eq!(trim_leading_slashes(""), "");
    assert_eq!(trim_leading_slashes("a/"), "a/");
    assert_eq!(trim_leading_slashes("/\u{e9}"), "\u{e9}");
    for s in ["", "/", "a", "/a/", "//a//b//", "\u{1f681}//"] {
        assert_eq!(trim_trailing_slashes(s), s.trim_end_matches('/'));
        assert_eq!(trim_leading_slashes(s), s.trim_start_matches('/'));
    }
}

#[test]
fn joining_addresses() {
    assert_eq!(join_url("http://h", "status"), "http://h/status");
    assert_eq!(join_url("http://h/", "/status"), "http://h/status");
    assert_eq!(join_url("http://h//", "status/"), "http://h/status/");
    assert_eq!(join_url("", "x"), "/x");
}

#[test]
fn comparing_texts() {
    assert!(same_text("", ""));
    assert!(same_text("Armed", "Armed"));
    assert!(!same_text("Armed", "armed"));
    assert!(!same_text("Armed", "Armed "));
}

#[test]
fn header_values() {
    assert!(is_header_value(""));
    assert!(is_header_value("Bearer abc.def-123"));
    assert!(is_header_value("a\tb"));
    assert!(is_header_value("\u{80}\u{ff}\u{1f681}"));
    assert!(!is_header_value("a\nb"));
    assert!(!is_header_value("\u{1f}"));
    assert!(!is_header_value("\u{7f}"));
    assert!(!is_header_value("ok\0"));
}

#[test]
fn status_line_holds_state_and_answer() {
    assert_eq!(describe_status(DroneState::Flying, b"OK"), "state=Flying transport_resp=OK");
    assert_eq!(describe_status(DroneState::Armed, b""), "state=Armed transport_resp=");
    assert_eq!(
        describe_status(DroneState::Landing, "gr\u{fc}n".as_bytes()),
        "state=Landing transport_resp=gr\u{fc}n"
    );
    assert_eq!(
        describe_status(DroneState::Disarmed, &[b'a', 0xff, b'b']),
        "state=Disarmed transport_resp=a\u{fffd}b"
    );
}

#[test]
fn names_of_states_and_commands() {
    assert_eq!(DroneState::Disarmed.name(), "Disarmed");
    assert_eq!(DroneState::Armed.name(), "Armed");
    assert_eq!(DroneState::Flying.name(), "Flying");
    assert_eq!(DroneState::Landing.name(), "Landing");
    assert_eq!(CommandKind::Connect.name(), "connect");
    assert_eq!(CommandKind::Arm.name(), "arm");
    assert_eq!(CommandKind::Takeoff.name(), "takeoff");
    assert_eq!(CommandKind::Land.name(), "land");
    assert_eq!(CommandKind::Status.name(), "status");
    assert_eq!(CommandKind::Arm.required(), Some(DroneState::Disarmed));
    assert_eq!(CommandKind::Takeoff.required(), Some(DroneState::Armed));
    assert_eq!(CommandKind::Land.required(), Some(DroneState::Flying));
    assert_eq!(CommandKind::Connect.required(), None);
    assert_eq!(CommandKind::Status.required(), None);
    assert_eq!(CommandKind::Land.outcome(DroneState::Flying), DroneState::Landing);
    assert_eq!(CommandKind::Status.outcome(DroneState::Flying), DroneState::Flying);
    assert_eq!(CommandKind::Connect.outcome(DroneState::Armed), DroneState::Armed);
}

#[test]
fn payloads_decode_into_snapshots() {
    let text = r#"{"as_of_ms": 3, "status": {"armed": true, "failsafe": false,
        "flight_mode_bits": 2, "arming_flags_bits": 0}}"#;
    let snapshot = read_snapshot(text.as_bytes()).unwrap();
    assert_eq!(snapshot.as_of_ms, 3);
    assert!(snapshot.status.armed);
    assert_eq!(
        read_snapshot(&[0xff, 0x00]),
        Err(DroneError::Protocol { status: None, detail: String::from("payload is not UTF-8") })
    );
    assert_eq!(
        read_snapshot(b"[]"),
        Err(DroneError::Protocol {
            status: None,
            detail: String::from("wrong kind of value: document")
        })
    );
    assert!(read_snapshot(b"OK").is_err());
}

#[test]
fn polling_ends_on_success_failure_or_timeout() {
    assert_eq!(POLL_INTERVAL_MS, 250);
    assert_eq!(poll_step(Ok(true), 0, 20_000), PollStep::Verified);
    assert_eq!(poll_step(Ok(true), 99_000, 20_000), PollStep::Verified);
    assert_eq!(poll_step(Ok(false), 0, 20_000), PollStep::Wait { sleep_ms: 250 });
    assert_eq!(poll_step(Ok(false), 20_000, 20_000), PollStep::Wait { sleep_ms: 250 });
    assert_eq!(poll_step(Ok(false), 20_001, 20_000), PollStep::TimedOut { after_ms: 20_000 });
    let failure = DroneError::Io(String::from("down"));
    assert_eq!(poll_step(Err(failure.clone()), 0, 20_000), PollStep::Failed(failure.clone()));
    assert_eq!(poll_step(Err(failure.clone()), 30_000, 20_000), PollStep::Failed(failure));
}

#[test]
fn a_wait_makes_a_bounded_number_of_polls() {
    for timeout in [0u64, 1, 249, 250, 251, 1000, 20_000] {
        let mut elapsed = 0u64;
        let mut polls = 0u64;
        loop {
            polls += 1;
            match poll_step(Ok(false), elapsed, timeout) {
                PollStep::Wait { sleep_ms } => elapsed += sleep_ms,
                PollStep::TimedOut { after_ms } => {
                    assert_eq!(after_ms, timeout);
                    break;
                }
                other => panic!("unexpected step {:?}", other),
            }
        }
        assert_eq!(polls, timeout / 250 + 2);
    }
}
