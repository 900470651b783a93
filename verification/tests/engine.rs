//! Tests of the authenticated request engine: the token exchange, the
//! per-resource request plans, and the authorization state transitions.

use securedrop_api::auth::{Credentials, UserPassTotp};
use securedrop_api::client::{
    download_response, source_response, sources_response, submission_response,
    submissions_response, user_response, HttpOutcome, Method, RequestBody,
};
use securedrop_api::{Client, ErrorKind};

fn creds(username: &str, passphrase: &str, code: &str) -> Credentials {
    UserPassTotp::new(username.to_string(), passphrase.to_string(), code.to_string()).into()
}

fn response(status: u16, body: &str) -> HttpOutcome {
    HttpOutcome::Response {
        status,
        body: body.to_string(),
    }
}

const TOKEN_BODY: &str = "{\"token\":\"abc123\",\"expires\":\"2030-01-01T00:00:00Z\"}";

fn authorized_client() -> Client {
    let mut client = Client::new(
        "http://localhost:8081".to_string(),
        creds("journalist", "WEjwn8ZyczDhQSK24YKM8C9a", "123456"),
    );
    client.finish_authorize(response(200, TOKEN_BODY)).unwrap();
    client
}

#[test]
fn token_request_carries_serialized_credentials() {
    let client = Client::new(
        "http://localhost:8081".to_string(),
        creds("journalist", "pass phrase", "123456"),
    );
    assert!(!client.is_authenticated());
    let plan = client.token_request();
    assert_eq!(plan.method, Method::Post);
    assert_eq!(plan.url_base, "http://localhost:8081");
    assert_eq!(plan.path, "api/v1/token");
    assert_eq!(plan.headers.len(), 2);
    assert_eq!(plan.headers[0].name, "Content-Type");
    assert_eq!(plan.headers[0].value, "application/json");
    assert_eq!(plan.headers[1].name, "Accept");
    assert_eq!(plan.headers[1].value, "application/json");
    match plan.body {
        Some(RequestBody::Credentials(record)) => {
            assert_eq!(record.username, "journalist");
            assert_eq!(record.password, "pass phrase");
            assert_eq!(record.one_time_code, "123456");
        }
        _ => panic!("token request must carry the credentials"),
    }
}

#[test]
fn successful_exchange_authenticates_the_engine() {
    let client = authorized_client();
    assert!(client.is_authenticated());
    let plan = client.sources().unwrap();
    assert_eq!(plan.headers.len(), 3);
    assert_eq!(plan.headers[2].name, "Authorization");
    assert_eq!(plan.headers[2].value, "Token abc123");
}

#[test]
fn rejected_exchange_leaves_engine_unauthenticated() {
    let mut client = Client::new(
        "http://localhost:8081".to_string(),
        creds("journalist", "pass", "000000"),
    );
    let err = client
        .finish_authorize(response(403, "{\"message\":\"Forbidden\"}"))
        .unwrap_err();
    assert_eq!(*err.kind(), ErrorKind::ClientError("Forbidden".to_string()));
    assert!(!client.is_authenticated());
}

#[test]
fn reauthorize_with_bad_credentials_blocks_every_operation() {
    let mut client = authorized_client();
    assert!(client.is_authenticated());

    let plan = client.reauthorize(creds("journalist", "wrong", "999999"));
    // The old token is discarded at once, before the exchange resolves.
    assert!(!client.is_authenticated());
    assert_eq!(plan.path, "api/v1/token");

    let err = client
        .finish_authorize(response(403, "{\"message\":\"Forbidden\"}"))
        .unwrap_err();
    assert_eq!(*err.kind(), ErrorKind::ClientError("Forbidden".to_string()));
    assert!(!client.is_authenticated());

    // Every subsequent resource operation now fails.
    assert_eq!(*client.sources().unwrap_err().kind(), ErrorKind::AuthError);
    assert_eq!(
        *client.source("id").unwrap_err().kind(),
        ErrorKind::AuthError
    );
    assert_eq!(*client.user().unwrap_err().kind(), ErrorKind::AuthError);
    assert_eq!(
        *client.download_submission("id", 1).unwrap_err().kind(),
        ErrorKind::AuthError
    );
}

#[test]
fn decode_failure_never_deauthenticates() {
    let client = authorized_client();
    let r = sources_response(response(200, "{\"sources\": \"oops\"}"));
    assert!(matches!(
        r.unwrap_err().kind(),
        ErrorKind::ProgrammingError(_)
    ));
    // Classification is pure: the engine still holds its token.
    assert!(client.is_authenticated());
    assert!(client.sources().is_ok());
}

#[test]
fn resource_paths_follow_the_templates() {
    let client = authorized_client();
    let plan = client.source("some-id").unwrap();
    assert_eq!(plan.method, Method::Get);
    assert_eq!(plan.path, "api/v1/sources/some-id");

    let plan = client.source_submissions("some-id").unwrap();
    assert_eq!(plan.method, Method::Get);
    assert_eq!(plan.path, "api/v1/sources/some-id/submissions");

    let plan = client.source_submission("some-id", 7).unwrap();
    assert_eq!(plan.method, Method::Get);
    assert_eq!(plan.path, "api/v1/sources/some-id/submissions/7");

    let plan = client.delete_source_submission("some-id", 204).unwrap();
    assert_eq!(plan.method, Method::Delete);
    assert_eq!(plan.path, "api/v1/sources/some-id/submissions/204");

    let plan = client.delete_submissions("some-id").unwrap();
    assert_eq!(plan.method, Method::Delete);
    assert_eq!(plan.path, "api/v1/sources/some-id/submissions");

    let plan = client.star_source("some-id").unwrap();
    assert_eq!(plan.method, Method::Post);
    assert_eq!(plan.path, "api/v1/sources/some-id/star");

    let plan = client.unstar_source("some-id").unwrap();
    assert_eq!(plan.method, Method::Delete);
    assert_eq!(plan.path, "api/v1/sources/some-id/star");

    let plan = client.user().unwrap();
    assert_eq!(plan.method, Method::Get);
    assert_eq!(plan.path, "api/v1/user");
}

#[test]
fn reply_plan_carries_the_armored_payload() {
    let client = authorized_client();
    let text = "-----BEGIN PGP MESSAGE-----\nX\n-----END PGP MESSAGE-----";
    let reply = securedrop_api::data::Reply::new(text.to_string()).unwrap();
    let plan = client.reply_to_source("some-id", &reply).unwrap();
    assert_eq!(plan.method, Method::Post);
    assert_eq!(plan.path, "api/v1/sources/some-id/reply");
    match plan.body {
        Some(RequestBody::Reply(payload)) => assert_eq!(payload, text),
        _ => panic!("reply plan must carry the payload"),
    }
}

#[test]
fn download_plan_uses_the_encrypted_content_type() {
    let client = authorized_client();
    let plan = client.download_submission("some-id", 3).unwrap();
    assert_eq!(plan.method, Method::Get);
    assert_eq!(plan.path, "api/v1/sources/some-id/submissions/3/download");
    assert_eq!(plan.headers.len(), 2);
    assert_eq!(plan.headers[0].name, "Content-Type");
    assert_eq!(plan.headers[0].value, "application/pgp-encrypted");
    assert_eq!(plan.headers[1].name, "Authorization");
    assert_eq!(plan.headers[1].value, "Token abc123");
}

#[test]
fn end_to_end_scenario_against_a_scripted_server() {
    // Construct the engine and exchange credentials for a valid token.
    let mut client = Client::new(
        "http://localhost:8081".to_string(),
        creds("journalist", "WEjwn8ZyczDhQSK24YKM8C9a", "123123"),
    );
    let plan = client.token_request();
    assert_eq!(plan.path, "api/v1/token");
    client.finish_authorize(response(200, TOKEN_BODY)).unwrap();
    assert!(client.is_authenticated());

    // List sources: the server has none yet.
    let plan = client.sources().unwrap();
    assert_eq!(plan.path, "api/v1/sources");
    let sources = sources_response(response(200, "{\"sources\": []}")).unwrap();
    assert_eq!(sources.sources().len(), 0);

    // Fetch the logged-in user.
    let plan = client.user().unwrap();
    assert_eq!(plan.path, "api/v1/user");
    let user = user_response(response(
        200,
        "{\"user\":{\"is_admin\":true,\"last_login\":\"1970-01-01T00:01:40Z\",\"username\":\"journalist\"}}",
    ))
    .unwrap();
    assert!(user.is_admin());
    assert_eq!(user.last_login(), 100);
    assert_eq!(user.username(), "journalist");

    // Download one submission: the engine plans the request and accepts
    // the successful status; the byte stream itself goes to the caller's
    // sink outside the engine.
    let plan = client.download_submission("some-id", 1).unwrap();
    assert_eq!(plan.path, "api/v1/sources/some-id/submissions/1/download");
    download_response(response(200, "")).unwrap();
}

#[test]
fn source_list_decodes_every_field() {
    let body = "{\"sources\": [{\
        \"uuid\": \"a1a1a1a1-b2b2-c3c3-d4d4-e5e5e5e5e5e5\",\
        \"flagged\": true,\
        \"last_updated\": \"1970-01-02T00:00:00Z\",\
        \"interaction_count\": 2,\
        \"journalist_designation\": \"uninteresting agglutination\",\
        \"number_of_documents\": 1,\
        \"number_of_messages\": 4,\
        \"public_key\": \"pubkey\"}]}";
    let sources = sources_response(response(200, body)).unwrap();
    assert_eq!(sources.sources().len(), 1);
    let source = &sources.sources()[0];
    assert_eq!(source.uuid(), "a1a1a1a1-b2b2-c3c3-d4d4-e5e5e5e5e5e5");
    assert!(source.is_flagged());
    assert_eq!(source.last_updated(), 86400);
    assert_eq!(source.interaction_count(), 2);
    assert_eq!(source.journalist_designation(), "uninteresting agglutination");
    assert_eq!(source.number_of_documents(), 1);
    assert_eq!(source.number_of_messages(), 4);
    assert_eq!(source.public_key(), "pubkey");
}

#[test]
fn source_with_invalid_uuid_is_a_schema_mismatch() {
    let body = "{\"uuid\": \"not-a-uuid\",\
        \"flagged\": false,\
        \"last_updated\": \"1970-01-02T00:00:00Z\",\
        \"interaction_count\": 0,\
        \"journalist_designation\": \"d\",\
        \"number_of_documents\": 0,\
        \"number_of_messages\": 0,\
        \"public_key\": \"k\"}";
    let r = source_response(response(200, body));
    assert!(matches!(
        r.unwrap_err().kind(),
        ErrorKind::ProgrammingError(_)
    ));
}

#[test]
fn submissions_decode_and_surface_their_fields() {
    let body = "{\"submissions\": [{\
        \"filename\": \"1-msg.gpg\",\
        \"is_read\": false,\
        \"size\": 4096,\
        \"submission_id\": 9}]}";
    let submissions = submissions_response(response(200, body)).unwrap();
    assert_eq!(submissions.submissions().len(), 1);
    let submission = &submissions.submissions()[0];
    assert_eq!(submission.filename(), "1-msg.gpg");
    assert!(!submission.is_read());
    assert_eq!(submission.size(), 4096);
    assert_eq!(submission.submission_id(), 9);
}

#[test]
fn single_submission_decodes() {
    let body = "{\"filename\": \"2-doc.gz.gpg\",\
        \"is_read\": true,\
        \"size\": 10,\
        \"submission_id\": 2}";
    let submission = submission_response(response(200, body)).unwrap();
    assert_eq!(submission.filename(), "2-doc.gz.gpg");
    assert!(submission.is_read());
}

#[test]
fn token_body_without_expiry_is_a_schema_mismatch() {
    let mut client = Client::new(
        "http://localhost:8081".to_string(),
        creds("journalist", "pass", "000000"),
    );
    let err = client
        .finish_authorize(response(200, "{\"token\":\"abc123\"}"))
        .unwrap_err();
    assert!(matches!(err.kind(), ErrorKind::ProgrammingError(_)));
    assert!(!client.is_authenticated());
}
