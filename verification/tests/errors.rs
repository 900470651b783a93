//! Tests of the error taxonomy's construction and descriptions.

use securedrop_api::{Error, ErrorKind};

#[test]
fn error_keeps_its_kind() {
    let e = Error::new(ErrorKind::ServerError);
    assert_eq!(*e.kind(), ErrorKind::ServerError);
    let e: Error = ErrorKind::NetworkError.into();
    assert_eq!(*e.kind(), ErrorKind::NetworkError);
}

#[test]
fn descriptions_name_the_failure() {
    assert_eq!(
        Error::new(ErrorKind::AuthError).describe(),
        "Invalid credentials"
    );
    assert_eq!(
        Error::new(ErrorKind::ClientError("Forbidden".to_string())).describe(),
        "Client error: Forbidden"
    );
    assert_eq!(
        Error::new(ErrorKind::IO("disk full".to_string())).describe(),
        "IO error: disk full"
    );
    assert_eq!(
        Error::new(ErrorKind::NetworkError).describe(),
        "Network error"
    );
    assert_eq!(
        Error::new(ErrorKind::ProgrammingError("oops".to_string())).describe(),
        "Programming error (this is a bug): oops"
    );
    assert_eq!(
        Error::new(ErrorKind::ServerError).describe(),
        "Internal server error"
    );
    assert_eq!(
        Error::new(ErrorKind::UnknownError).describe(),
        "Unknown error"
    );
}
