//! Tests of the credential model: wire-shape equality of the two variants
//! and the rendering of regenerated one-time codes.

use securedrop_api::auth::{format_one_time_code, Credentials, UserPassHotp, UserPassTotp};

// This is a sanity check: the two credential variants must serialize to
// field-identical records.
#[test]
fn serialized_totp_and_hotp_fields_equal() {
    let totp: Credentials =
        UserPassTotp::new("user".into(), "pass".into(), "DEADBEEF".into()).into();
    let hotp: Credentials =
        UserPassHotp::new("user".into(), "pass".into(), "DEADBEEF".into()).into();

    let totp_record = totp.serialize();
    let hotp_record = hotp.serialize();

    assert_eq!(
        (
            totp_record.username,
            totp_record.password,
            totp_record.one_time_code
        ),
        (
            hotp_record.username,
            hotp_record.password,
            hotp_record.one_time_code
        )
    );
}

#[test]
fn serialize_totp_maps_passphrase_to_password_field() {
    let creds: Credentials =
        UserPassTotp::new("journalist".into(), "secret words".into(), "123456".into()).into();
    let record = creds.serialize();
    assert_eq!(record.username, "journalist");
    assert_eq!(record.password, "secret words");
    assert_eq!(record.one_time_code, "123456");
}

#[test]
fn serialize_hotp_maps_passphrase_to_password_field() {
    let creds: Credentials =
        UserPassHotp::new("journalist".into(), "secret words".into(), "654321".into()).into();
    let record = creds.serialize();
    assert_eq!(record.username, "journalist");
    assert_eq!(record.password, "secret words");
    assert_eq!(record.one_time_code, "654321");
}

#[test]
fn one_time_code_42_is_zero_padded() {
    assert_eq!(format_one_time_code(42), "000042");
}

#[test]
fn one_time_code_0_is_all_zeros() {
    assert_eq!(format_one_time_code(0), "000000");
}

#[test]
fn one_time_code_six_digits_kept_verbatim() {
    assert_eq!(format_one_time_code(987654), "987654");
}

#[test]
fn one_time_code_always_six_digits() {
    let mut code: u32 = 1;
    while code < 1000000 {
        let rendered = format_one_time_code(code);
        assert_eq!(rendered.len(), 6);
        assert!(rendered.chars().all(|c| c.is_ascii_digit()));
        code = code * 10 + 7;
    }
}
