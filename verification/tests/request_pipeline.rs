use dronecore::error::DroneError;
use dronecore::frames::WireCommand;
use dronecore::http_api::{
    body_outcome, classify, command_reply, connect_reply, get_reply, post_reply, reads_as_number,
    status_reply, takeoff_body, triage, Endpoint, Header, HttpDroneApi, HttpLink, HttpRequest,
    HttpResponse, ReplyClass, SupportedHttpMethods, NO_CONTENT,
};
use dronecore::json::{parse_document, Json};

const BASE: &str = "http://192.168.1.10:8080";

fn answer(status: u16, body: &str) -> Result<HttpResponse, String> {
    Ok(HttpResponse { status, body: String::from(body) })
}

fn bearer(token: &str) -> Vec<Header> {
    vec![Header { name: String::from("Authorization"), value: format!("Bearer {}", token) }]
}

fn snapshot_text() -> &'static str {
    r#"{"as_of_ms": 12, "seq": 2, "status": {"armed": false, "failsafe": false,
        "flight_mode_bits": 1, "arming_flags_bits": 1}}"#
}

#[test]
fn url_joins_with_a_single_slash() {
    let expected = "http://192.168.1.10:8080/commands/land";
    for base in [BASE, "http://192.168.1.10:8080/", "http://192.168.1.10:8080///"] {
        for path in ["commands/land", "/commands/land", "//commands/land"] {
            assert_eq!(HttpDroneApi::new(base).url(path), expected);
        }
    }
    assert_eq!(HttpDroneApi::new("").url(""), "/");
    assert_eq!(HttpDroneApi::new("//").url("/"), "/");
    assert_eq!(HttpDroneApi::new("a/b").url("c/d/"), "a/b/c/d/");
}

#[test]
fn bearer_header_presents_the_token() {
    let api = HttpDroneApi::new(BASE);
    assert_eq!(api.retrieve_headers("s3cr3t"), Ok(bearer("s3cr3t")));
    assert_eq!(api.retrieve_headers("tab\tis fine"), Ok(bearer("tab\tis fine")));
    assert_eq!(api.retrieve_headers("gr\u{fc}n"), Ok(bearer("gr\u{fc}n")));
}

#[test]
fn token_with_control_characters_is_refused() {
    let api = HttpDroneApi::new(BASE);
    let failure = DroneError::Protocol {
        status: None,
        detail: String::from("credential cannot be sent in a header"),
    };
    assert_eq!(api.retrieve_headers("line\nbreak"), Err(failure.clone()));
    assert_eq!(api.retrieve_headers("\u{7f}"), Err(failure.clone()));
    assert_eq!(api.retrieve_headers("nul\0"), Err(failure.clone()));
    assert_eq!(api.land_request("a\rb"), Err(failure.clone()));
    assert_eq!(api.arm_request("a\rb"), Err(failure.clone()));
    assert_eq!(api.status_request("a\rb"), Err(failure));
}

#[test]
fn header_validity_agrees_with_the_http_library() {
    let api = HttpDroneApi::new(BASE);
    for code in 0u32..=0x2ff {
        let c = char::from_u32(code).unwrap();
        let token = format!("a{}b", c);
        let theirs = reqwest::header::HeaderValue::from_str(&format!("Bearer {}", token)).is_ok();
        assert_eq!(api.retrieve_headers(&token).is_ok(), theirs, "character {:#x}", code);
    }
}

#[test]
fn health_check_carries_no_credential() {
    let request = HttpDroneApi::new(BASE).connect_request();
    assert_eq!(
        request,
        HttpRequest {
            method: SupportedHttpMethods::Get,
            url: String::from("http://192.168.1.10:8080/health"),
            headers: vec![],
            body: None,
        }
    );
}

#[test]
fn every_other_request_carries_the_credential() {
    let api = HttpDroneApi::new("http://bridge/");
    assert_eq!(
        api.arm_request("t").unwrap(),
        HttpRequest {
            method: SupportedHttpMethods::Post,
            url: String::from("http://bridge/commands/arm"),
            headers: bearer("t"),
            body: None,
        }
    );
    assert_eq!(
        api.takeoff_request("5", "t").unwrap(),
        HttpRequest {
            method: SupportedHttpMethods::Post,
            url: String::from("http://bridge/commands/takeoff"),
            headers: bearer("t"),
            body: Some(String::from(r#"{"altitude_m":5}"#)),
        }
    );
    assert_eq!(
        api.land_request("t").unwrap(),
        HttpRequest {
            method: SupportedHttpMethods::Post,
            url: String::from("http://bridge/commands/land"),
            headers: bearer("t"),
            body: Some(String::from("{}")),
        }
    );
    assert_eq!(
        api.status_request("t").unwrap(),
        HttpRequest {
            method: SupportedHttpMethods::Get,
            url: String::from("http://bridge/status"),
            headers: bearer("t"),
            body: None,
        }
    );
}

#[test]
fn endpoint_table() {
    let all = [Endpoint::Health, Endpoint::Arm, Endpoint::Takeoff, Endpoint::Land, Endpoint::Status];
    let paths = ["health", "commands/arm", "commands/takeoff", "commands/land", "status"];
    for (endpoint, path) in all.iter().zip(paths) {
        assert_eq!(endpoint.path(), path);
        assert_eq!(endpoint.needs_credential(), *endpoint != Endpoint::Health);
    }
    assert_eq!(Endpoint::Health.method(), SupportedHttpMethods::Get);
    assert_eq!(Endpoint::Status.method(), SupportedHttpMethods::Get);
    assert_eq!(Endpoint::Arm.method(), SupportedHttpMethods::Post);
    assert_eq!(Endpoint::Takeoff.method(), SupportedHttpMethods::Post);
    assert_eq!(Endpoint::Land.method(), SupportedHttpMethods::Post);
}

#[test]
fn takeoff_body_holds_the_altitude() {
    assert_eq!(takeoff_body("5"), Ok(String::from(r#"{"altitude_m":5}"#)));
    assert_eq!(takeoff_body("12.5"), Ok(String::from(r#"{"altitude_m":12.5}"#)));
    let body = takeoff_body(&format!("{}", 7.25f32)).unwrap();
    let document: serde_json::Value = serde_json::from_str(&body).unwrap();
    assert_eq!(document["altitude_m"].as_f64(), Some(7.25));
}

#[test]
fn takeoff_body_refuses_what_is_no_number() {
    let refused = Err(DroneError::Protocol {
        status: None,
        detail: String::from("altitude is not a number"),
    });
    assert_eq!(takeoff_body("NaN"), refused);
    assert_eq!(takeoff_body("inf"), refused);
    assert_eq!(takeoff_body(""), refused);
    assert_eq!(takeoff_body(r#"1,"armed":true"#), refused);
    assert_eq!(takeoff_body("true"), refused);
    assert_eq!(takeoff_body(r#""5""#), refused);
    assert!(reads_as_number(&parse_document("5")));
    assert!(!reads_as_number(&parse_document("[5]")));
    assert!(!reads_as_number(&parse_document("5 6")));
}

#[test]
fn takeoff_request_looks_at_the_altitude_first() {
    let api = HttpDroneApi::new(BASE);
    match api.takeoff_request("high", "bad\ntoken") {
        Err(DroneError::Protocol { status: None, detail }) => {
            assert_eq!(detail, "altitude is not a number")
        }
        other => panic!("expected a refusal, got {:?}", other),
    }
    match api.takeoff_request("5", "bad\ntoken") {
        Err(DroneError::Protocol { status: None, detail }) => {
            assert_eq!(detail, "credential cannot be sent in a header")
        }
        other => panic!("expected a refusal, got {:?}", other),
    }
}

#[test]
fn get_request_drops_a_body() {
    let api = HttpDroneApi::new(BASE);
    let request = api.send_request(
        "status",
        SupportedHttpMethods::Get,
        Some(String::from("{}")),
        Some(bearer("t")),
    );
    assert_eq!(request, api.get_request("status", Some(bearer("t"))));
    assert_eq!(request.body, None);
    let post = api.send_request("x", SupportedHttpMethods::Post, Some(String::from("{}")), None);
    assert_eq!(post, api.post_request("x", Some(String::from("{}")), None));
    assert_eq!(post.body, Some(String::from("{}")));
    assert!(post.headers.is_empty());
}

#[test]
fn classification_by_status() {
    assert_eq!(NO_CONTENT, 204);
    assert_eq!(classify(204), ReplyClass::Absent);
    assert_eq!(classify(200), ReplyClass::Success);
    assert_eq!(classify(201), ReplyClass::Success);
    assert_eq!(classify(299), ReplyClass::Success);
    assert_eq!(classify(199), ReplyClass::Rejected);
    assert_eq!(classify(300), ReplyClass::Rejected);
    assert_eq!(classify(404), ReplyClass::Rejected);
    assert_eq!(classify(500), ReplyClass::Rejected);
    assert_eq!(classify(0), ReplyClass::Rejected);
    for status in 0u16..=999 {
        let theirs = reqwest::StatusCode::from_u16(status).map(|s| s.is_success()).unwrap_or(false);
        assert_eq!(classify(status) != ReplyClass::Rejected, theirs, "status {}", status);
    }
}

#[test]
fn get_without_content_is_absent_and_no_error() {
    assert_eq!(get_reply(answer(204, "")), Ok(None));
    assert_eq!(get_reply(answer(204, "ignored")), Ok(None));
    assert_eq!(triage(answer(204, "")), Ok(None));
}

#[test]
fn non_success_status_is_a_protocol_error_with_status_and_body() {
    for status in [400u16, 401, 404, 418, 500, 503] {
        let expected =
            DroneError::Protocol { status: Some(status), detail: String::from("raw body") };
        assert_eq!(get_reply(answer(status, "raw body")), Err(expected.clone()));
        assert_eq!(post_reply(answer(status, "raw body")), Err(expected.clone()));
        assert_eq!(command_reply(answer(status, "raw body")), Err(expected.clone()));
        assert_eq!(status_reply(answer(status, "raw body")), Err(expected.clone()));
        assert_eq!(expected.status_code(), Some(status));
    }
}

#[test]
fn post_without_content_is_a_failure_not_a_default() {
    let failure = DroneError::Protocol {
        status: Some(204),
        detail: String::from("POST endpoints must return a body"),
    };
    assert_eq!(post_reply(answer(204, "")), Err(failure.clone()));
    assert_eq!(post_reply(answer(204, "{}")), Err(failure.clone()));
    assert_eq!(command_reply(answer(204, "")), Err(failure));
}

#[test]
fn transport_failure_is_an_io_error() {
    let refused = || Err(String::from("connection refused"));
    let expected = DroneError::Io(String::from("connection refused"));
    assert_eq!(get_reply(refused()), Err(expected.clone()));
    assert_eq!(post_reply(refused()), Err(expected.clone()));
    assert_eq!(command_reply(refused()), Err(expected.clone()));
    assert_eq!(status_reply(refused()), Err(expected));
}

#[test]
fn success_with_a_body_is_decoded() {
    assert_eq!(get_reply(answer(200, "null")), Ok(Some(Json::Null)));
    assert_eq!(post_reply(answer(201, "true")), Ok(Json::Bool(true)));
    assert_eq!(command_reply(answer(200, "{}")), Ok(()));
    assert_eq!(triage(answer(200, "x")), Ok(Some(String::from("x"))));
    assert_eq!(body_outcome(Ok(Json::Null)), Ok(Json::Null));
    assert_eq!(
        body_outcome(Err(String::from("bad"))),
        Err(DroneError::Protocol { status: None, detail: String::from("bad") })
    );
}

#[test]
fn success_with_an_undecodable_body_is_a_protocol_error() {
    for reply in [get_reply(answer(200, "")).map(|_| ()), command_reply(answer(200, "{oops"))] {
        match reply {
            Err(DroneError::Protocol { status: None, .. }) => {}
            other => panic!("expected a protocol failure, got {:?}", other),
        }
    }
}

#[test]
fn status_reply_decodes_the_snapshot() {
    let snapshot = status_reply(answer(200, snapshot_text())).unwrap();
    assert_eq!(snapshot.as_of_ms, 12);
    assert_eq!(snapshot.seq, 2);
    assert_eq!(
        status_reply(answer(204, "")),
        Err(DroneError::Connect(String::from("the server is unreachable")))
    );
    assert_eq!(
        status_reply(answer(200, "{}")),
        Err(DroneError::Protocol { status: None, detail: String::from("missing field: as_of_ms") })
    );
}

#[test]
fn health_check_settles_the_connection() {
    assert_eq!(connect_reply(answer(200, "ok")), Ok(()));
    assert_eq!(connect_reply(answer(204, "")), Ok(()));
    assert_eq!(
        connect_reply(answer(503, "down")),
        Err(DroneError::Connect(String::from("health check failed")))
    );
    assert_eq!(
        connect_reply(Err(String::from("timed out"))),
        Err(DroneError::Connect(String::from("timed out")))
    );
}

#[test]
fn link_turns_frames_into_requests() {
    let link = HttpLink::new("http://bridge", "t");
    let api = HttpDroneApi::new("http://bridge");
    assert_eq!(link.connect_request(), api.connect_request());
    assert_eq!(link.frame_request(b"ARM"), api.arm_request("t"));
    assert_eq!(link.frame_request(b"LAND"), api.land_request("t"));
    assert_eq!(link.frame_request(b"STATUS"), api.status_request("t"));
    assert_eq!(link.frame_request(b"TAKEOFF:5"), api.takeoff_request("5", "t"));
    assert_eq!(
        api.command_request(&WireCommand::Takeoff(String::from("5")), "t"),
        api.takeoff_request("5", "t")
    );
    let unknown = Err(DroneError::Protocol {
        status: None,
        detail: String::from("frame stands for no command"),
    });
    assert_eq!(link.frame_request(b"HOVER"), unknown);
    assert_eq!(link.frame_request(b""), unknown);
    assert_eq!(link.frame_request(&[0xff, 0xfe]), unknown);
}

#[test]
fn link_keeps_the_status_answer_until_taken() {
    let mut link = HttpLink::new("http://bridge", "t");
    assert!(!link.is_connected());
    assert_eq!(link.connect_answered(answer(500, "")).is_ok(), false);
    assert!(!link.is_connected());
    assert_eq!(link.connect_answered(answer(200, "")), Ok(()));
    assert!(link.is_connected());
    let nothing =
        Err(DroneError::Protocol { status: None, detail: String::from("no answer to take") });
    assert_eq!(link.take_answer(), nothing);
    assert_eq!(link.frame_answered(b"ARM", answer(200, "{}")), Ok(()));
    assert_eq!(link.take_answer(), nothing);
    assert_eq!(link.frame_answered(b"STATUS", answer(200, snapshot_text())), Ok(()));
    assert_eq!(link.take_answer(), Ok(snapshot_text().as_bytes().to_vec()));
    assert_eq!(link.take_answer(), nothing);
    assert_eq!(
        link.frame_answered(b"STATUS", answer(204, "")),
        Err(DroneError::Connect(String::from("the server is unreachable")))
    );
    assert_eq!(
        link.frame_answered(b"LAND", answer(204, "")),
        Err(DroneError::Protocol {
            status: Some(204),
            detail: String::from("POST endpoints must return a body")
        })
    );
    assert_eq!(
        link.frame_answered(b"??", answer(200, "{}")),
        Err(DroneError::Protocol {
            status: None,
            detail: String::from("frame stands for no command")
        })
    );
}
