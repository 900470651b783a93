//! Tests of the PGP-armor sanity check on replies.

use securedrop_api::data::Reply;
use securedrop_api::ErrorKind;

#[test]
fn armored_reply_is_accepted() {
    let text = "-----BEGIN PGP MESSAGE-----\nX\n-----END PGP MESSAGE-----";
    let reply = Reply::new(text.to_string()).unwrap();
    assert_eq!(reply.reply(), text);
}

#[test]
fn plain_text_reply_is_rejected_as_client_error() {
    let err = Reply::new("plain text".to_string()).unwrap_err();
    assert_eq!(
        *err.kind(),
        ErrorKind::ClientError("Message not PGP encrypted".to_string())
    );
}

#[test]
fn reply_missing_end_marker_is_rejected() {
    let err = Reply::new("-----BEGIN PGP MESSAGE-----\nX".to_string()).unwrap_err();
    assert!(matches!(err.kind(), ErrorKind::ClientError(_)));
}

#[test]
fn reply_missing_begin_marker_is_rejected() {
    let err = Reply::new("X\n-----END PGP MESSAGE-----".to_string()).unwrap_err();
    assert!(matches!(err.kind(), ErrorKind::ClientError(_)));
}
