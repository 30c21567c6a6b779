use flaps_client::classify::{map_flaps_error, ApiEndpoint};
use flaps_client::error::FlapsError;
use flaps_client::machine::State;

fn envelope_body() -> Vec<u8> {
    let text = "{\"status_code\":503,\"error\":\"upstream down\",\"message\":\"retry later\",\"fly_request_id\":\"req-1\"}";
    text.as_bytes().to_vec()
}

#[test]
fn unknown_error_keeps_parsed_envelope() {
    let e = map_flaps_error(&envelope_body(), Some("other".to_string()), 503, ApiEndpoint::Other);
    match e {
        FlapsError::UnknownFlapsError(raw) => {
            assert_eq!(raw.status_code, 503);
            assert_eq!(raw.error, "upstream down");
            assert_eq!(raw.message.as_deref(), Some("retry later"));
            assert_eq!(raw.fly_request_id.as_deref(), Some("req-1"));
        },
        other => panic!("expected UnknownFlapsError, got {:?}", other),
    }
}

#[test]
fn unknown_error_synthesizes_envelope_and_keeps_request_id() {
    let body = b"not json at all".to_vec();
    let e = map_flaps_error(&body, Some("req-9".to_string()), 500, ApiEndpoint::Other);
    match e {
        FlapsError::UnknownFlapsError(raw) => {
            assert_eq!(raw.status_code, 500);
            assert_eq!(raw.fly_request_id.as_deref(), Some("req-9"));
            assert!(raw.message.is_none());
            assert!(raw.error.contains("500"));
        },
        other => panic!("expected UnknownFlapsError, got {:?}", other),
    }
}

#[test]
fn wait_408_is_desired_state_not_reached_regardless_of_body() {
    let body = b"{\"status_code\":408,\"error\":\"anything at all\"}".to_vec();
    let e = map_flaps_error(&body, None, 408, ApiEndpoint::Wait(State::Stopped));
    match e {
        FlapsError::DesiredStateNotReached { desired_state, .. } => {
            assert_eq!(desired_state, State::Stopped);
        },
        other => panic!("expected DesiredStateNotReached, got {:?}", other),
    }
    let junk = b"###".to_vec();
    let e = map_flaps_error(&junk, None, 408, ApiEndpoint::Wait(State::Started));
    assert!(matches!(e, FlapsError::DesiredStateNotReached { desired_state: State::Started, .. }));
}

#[test]
fn non_wait_408_is_unknown() {
    let e = map_flaps_error(&envelope_body(), None, 408, ApiEndpoint::Other);
    assert!(matches!(e, FlapsError::UnknownFlapsError(_)));
}

#[test]
fn wait_404_is_not_found() {
    let e = map_flaps_error(&envelope_body(), None, 404, ApiEndpoint::Wait(State::Started));
    assert!(matches!(e, FlapsError::NotFound(_)));
}

#[test]
fn not_found_parses_message() {
    let body = b"{\"status_code\":404,\"error\":\"not found\",\"message\":\"lease not found\"}".to_vec();
    let e = map_flaps_error(&body, None, 404, ApiEndpoint::Other);
    match e {
        FlapsError::NotFound(raw) => {
            assert_eq!(raw.message.as_deref(), Some("lease not found"));
            assert_eq!(raw.error, "not found");
        },
        other => panic!("expected NotFound, got {:?}", other),
    }
}

#[test]
fn informational_redirect_and_invalid_statuses_are_unexpected() {
    for status in [100u16, 101, 300, 302, 399, 99, 600, 700] {
        let e = map_flaps_error(&envelope_body(), None, status, ApiEndpoint::Other);
        match e {
            FlapsError::UnexpectedHttpStatus(s) => assert_eq!(s, status),
            other => panic!("expected UnexpectedHttpStatus for {}, got {:?}", status, other),
        }
    }
}

#[test]
fn other_client_and_server_errors_are_unknown() {
    for status in [400u16, 403, 418, 429, 500, 502, 599] {
        let e = map_flaps_error(&envelope_body(), None, status, ApiEndpoint::Wait(State::Started));
        assert!(matches!(e, FlapsError::UnknownFlapsError(_)), "status {}", status);
    }
}

#[test]
fn raw_api_error_display_string() {
    let body = b"{\"status_code\":404,\"error\":\"not found\",\"message\":\"machine gone\"}".to_vec();
    let e = map_flaps_error(&body, None, 404, ApiEndpoint::Other);
    match e {
        FlapsError::NotFound(raw) => {
            assert_eq!(raw.display_string(), "not found: machine gone");
        },
        other => panic!("expected NotFound, got {:?}", other),
    }
}
