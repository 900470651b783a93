//! Tests of the response classification: every HTTP outcome falls into
//! exactly one bucket, with 5xx checked before 4xx before the fallback.

use securedrop_api::client::{
    classify, message_response, sources_response, BodyDecode, Exchange, HttpOutcome,
};
use securedrop_api::ErrorKind;

fn response(status: u16, body: &str) -> HttpOutcome {
    HttpOutcome::Response {
        status,
        body: body.to_string(),
    }
}

#[test]
fn status_503_with_unparseable_body_is_server_error() {
    let r = message_response(response(503, "<html>overloaded</html>"));
    assert_eq!(*r.unwrap_err().kind(), ErrorKind::ServerError);
}

#[test]
fn status_503_never_programming_error_even_with_decoded_bodies() {
    let x: Exchange<u32> = Exchange::Responded {
        status: 503,
        typed: BodyDecode::Decoded(7),
        message: BodyDecode::Decoded("ignored".to_string()),
    };
    assert_eq!(*classify(x).unwrap_err().kind(), ErrorKind::ServerError);
}

#[test]
fn status_403_with_message_body_is_client_error() {
    let r = sources_response(response(403, "{\"message\":\"Forbidden\"}"));
    assert_eq!(
        *r.unwrap_err().kind(),
        ErrorKind::ClientError("Forbidden".to_string())
    );
}

#[test]
fn status_404_with_garbage_body_is_parse_failure() {
    let r = sources_response(response(404, "not json at all"));
    assert_eq!(
        *r.unwrap_err().kind(),
        ErrorKind::ProgrammingError("Parse failure.".to_string())
    );
}

#[test]
fn status_200_with_wrong_schema_is_programming_error() {
    let r = sources_response(response(200, "{\"unexpected\": 1}"));
    assert!(matches!(
        r.unwrap_err().kind(),
        ErrorKind::ProgrammingError(_)
    ));
}

#[test]
fn transport_failure_is_network_error() {
    let r = sources_response(HttpOutcome::TransportFailure);
    assert_eq!(*r.unwrap_err().kind(), ErrorKind::NetworkError);
}

#[test]
fn status_302_is_unknown_error() {
    let r = message_response(response(302, ""));
    assert_eq!(*r.unwrap_err().kind(), ErrorKind::UnknownError);
}

#[test]
fn status_200_with_message_body_is_ok_response() {
    let r = message_response(response(200, "{\"message\":\"Your reply has been stored\"}"));
    assert_eq!(r.unwrap().message(), "Your reply has been stored");
}
