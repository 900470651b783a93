//! The trusted JSON wire boundary.
//!
//! The grammar of JSON itself is the collaborator `serde_json`'s business.
//! Each record the protocol reads gets a name for what its body text
//! decodes to — a pure function of the text alone — and a trusted wrapper
//! whose body is only the `serde_json` field chain, pinned to that name.
//! The verified decoders in [`crate::data`] and [`crate::auth`] build the
//! typed records from those fields, validating timestamps through `chrono`
//! and source identifiers through `uuid`.

use vstd::prelude::*;

use crate::auth::AuthToken;
use crate::data::{Response, Source, Sources, Submission, Submissions, User};

verus! {

/// The content of the `message` field of the JSON object written in `s`,
/// or nothing when `s` is no object with a string there. A function of
/// the text alone.
pub uninterp spec fn message_of(s: Seq<char>) -> Option<Seq<char>>;

/// Relies on serde_json::from_str, Value::get and Value::as_str: reads
/// the error record `{message}`.
#[verifier::external_body]
pub(crate) fn read_message(s: &str) -> (r: Option<String>)
    ensures
        r is Some <==> message_of(s@) is Some,
        r matches Some(m) ==> message_of(s@) == Some(m@),
{
    let v: serde_json::Value = serde_json::from_str(s).ok()?;
    v.get("message")?.as_str().map(|m| m.to_owned())
}

/// The string contents of the `token` and `expires` fields of the JSON
/// object written in `s`. A function of the text alone.
pub uninterp spec fn token_fields_of(s: Seq<char>) -> Option<(Seq<char>, Seq<char>)>;

/// Relies on serde_json::from_str, Value::get and Value::as_str: reads
/// the bearer-token record `{token, expires}`.
#[verifier::external_body]
pub(crate) fn read_token_fields(s: &str) -> (r: Option<(String, String)>)
    ensures
        r is Some <==> token_fields_of(s@) is Some,
        r matches Some(f) ==> token_fields_of(s@) == Some((f.0@, f.1@)),
{
    let v: serde_json::Value = serde_json::from_str(s).ok()?;
    Some((v.get("token")?.as_str()?.to_owned(), v.get("expires")?.as_str()?.to_owned()))
}

/// The `is_admin`, `last_login` and `username` fields of the `user`
/// object nested in the JSON object written in `s`. A function of the
/// text alone.
pub uninterp spec fn user_fields_of(s: Seq<char>) -> Option<(bool, Seq<char>, Seq<char>)>;

/// Relies on serde_json::from_str, Value::get, Value::as_bool and
/// Value::as_str: reads the user record
/// `{user: {is_admin, last_login, username}}`.
#[verifier::external_body]
pub(crate) fn read_user_fields(s: &str) -> (r: Option<(bool, String, String)>)
    ensures
        r is Some <==> user_fields_of(s@) is Some,
        r matches Some(f) ==> user_fields_of(s@) == Some((f.0, f.1@, f.2@)),
{
    let v: serde_json::Value = serde_json::from_str(s).ok()?;
    let u = v.get("user")?;
    Some((
        u.get("is_admin")?.as_bool()?,
        u.get("last_login")?.as_str()?.to_owned(),
        u.get("username")?.as_str()?.to_owned(),
    ))
}

/// The `filename`, `is_read`, `size` and `submission_id` fields of the
/// JSON object written in `s`. A function of the text alone.
pub uninterp spec fn submission_fields_of(s: Seq<char>) -> Option<(Seq<char>, bool, int, int)>;

/// Relies on serde_json::from_str, Value::get, Value::as_str,
/// Value::as_bool and Value::as_u64: reads one submission record.
#[verifier::external_body]
pub(crate) fn read_submission_fields(s: &str) -> (r: Option<(String, bool, u64, u64)>)
    ensures
        r is Some <==> submission_fields_of(s@) is Some,
        r matches Some(f) ==> submission_fields_of(s@) == Some(
            (f.0@, f.1, f.2 as int, f.3 as int),
        ),
{
    let v: serde_json::Value = serde_json::from_str(s).ok()?;
    Some((
        v.get("filename")?.as_str()?.to_owned(),
        v.get("is_read")?.as_bool()?,
        v.get("size")?.as_u64()?,
        v.get("submission_id")?.as_u64()?,
    ))
}

/// The eight fields of one source record in the JSON object written in
/// `s`: uuid text, flagged, last-updated text, interaction count,
/// journalist designation, document count, message count, public key. A
/// function of the text alone.
pub uninterp spec fn source_fields_of(s: Seq<char>) -> Option<
    (Seq<char>, bool, Seq<char>, int, Seq<char>, int, int, Seq<char>),
>;

/// Relies on serde_json::from_str, Value::get, Value::as_str,
/// Value::as_bool and Value::as_u64: reads one source record.
#[verifier::external_body]
pub(crate) fn read_source_fields(s: &str) -> (r: Option<
    (String, bool, String, u64, String, u64, u64, String),
>)
    ensures
        r is Some <==> source_fields_of(s@) is Some,
        r matches Some(f) ==> source_fields_of(s@) == Some(
            (f.0@, f.1, f.2@, f.3 as int, f.4@, f.5 as int, f.6 as int, f.7@),
        ),
{
    let v: serde_json::Value = serde_json::from_str(s).ok()?;
    Some((
        v.get("uuid")?.as_str()?.to_owned(),
        v.get("flagged")?.as_bool()?,
        v.get("last_updated")?.as_str()?.to_owned(),
        v.get("interaction_count")?.as_u64()?,
        v.get("journalist_designation")?.as_str()?.to_owned(),
        v.get("number_of_documents")?.as_u64()?,
        v.get("number_of_messages")?.as_u64()?,
        v.get("public_key")?.as_str()?.to_owned(),
    ))
}

/// The elements of the JSON array under `key` in the object written in
/// `s`, each re-serialized to its own JSON text (with object keys in
/// serde_json's canonical sorted order). A function of the text and the
/// key alone.
pub uninterp spec fn array_items_of(s: Seq<char>, key: Seq<char>) -> Option<Seq<Seq<char>>>;

/// Relies on serde_json::from_str, Value::get, Value::as_array and the
/// canonical display of Value: splits a `{key: [...]}` record into the
/// texts of its elements.
#[verifier::external_body]
pub(crate) fn read_array_items(s: &str, key: &str) -> (r: Option<Vec<String>>)
    ensures
        r is Some <==> array_items_of(s@, key@) is Some,
        r matches Some(v) ==> (array_items_of(s@, key@) matches Some(items) && v@.len()
            == items.len() && forall|i: int| 0 <= i < items.len() ==> v@[i]@ == items[i]),
{
    let v: serde_json::Value = serde_json::from_str(s).ok()?;
    let arr = v.get(key)?.as_array()?;
    Some(arr.iter().map(|item| item.to_string()).collect())
}

/// The instant an RFC 3339 timestamp denotes, in seconds since the Unix
/// epoch, or nothing for text that is no such timestamp. A function of
/// the text alone.
pub uninterp spec fn rfc3339_secs_of(s: Seq<char>) -> Option<int>;

/// Relies on chrono::DateTime::parse_from_rfc3339 and its timestamp
/// accessor: parses an RFC 3339 timestamp and yields the instant it
/// denotes as seconds since the Unix epoch.
#[verifier::external_body]
pub(crate) fn parse_rfc3339_secs(s: &str) -> (r: Option<i64>)
    ensures
        r is Some <==> rfc3339_secs_of(s@) is Some,
        r matches Some(t) ==> rfc3339_secs_of(s@) == Some(t as int),
{
    match chrono::DateTime::parse_from_rfc3339(s) {
        Ok(d) => Some(d.timestamp()),
        Err(_) => None,
    }
}

/// The canonical hyphenated form of a UUID written in `s`, or nothing for
/// text that is no UUID. A function of the text alone.
pub uninterp spec fn uuid_canonical_of(s: Seq<char>) -> Option<Seq<char>>;

/// Relies on uuid::Uuid::parse_str and the canonical hyphenated display
/// form: validates a UUID and normalizes it.
#[verifier::external_body]
pub(crate) fn parse_uuid(s: &str) -> (r: Option<String>)
    ensures
        r is Some <==> uuid_canonical_of(s@) is Some,
        r matches Some(u) ==> uuid_canonical_of(s@) == Some(u@),
{
    match uuid::Uuid::parse_str(s) {
        Ok(u) => Some(u.to_string()),
        Err(_) => None,
    }
}

/// The body text decodes as the error record `{message}`.
pub open spec fn spec_message_ok(s: Seq<char>) -> bool {
    message_of(s) is Some
}

/// `resp` carries exactly the message the body text decodes to.
pub open spec fn spec_message_matches(resp: Response, s: Seq<char>) -> bool {
    message_of(s) == Some(resp.spec_message())
}

/// The body text decodes as a bearer-token record with a valid expiry.
pub open spec fn spec_token_ok(s: Seq<char>) -> bool {
    token_fields_of(s) matches Some(f) && rfc3339_secs_of(f.1) is Some
}

/// `t` is exactly the token the body text decodes to.
pub open spec fn spec_token_matches(t: AuthToken, s: Seq<char>) -> bool {
    token_fields_of(s) matches Some(f) && t.spec_token() == f.0 && rfc3339_secs_of(f.1) == Some(
        t.spec_expires() as int,
    )
}

/// The body text decodes as a user record with a valid last-login
/// timestamp.
pub open spec fn spec_user_ok(s: Seq<char>) -> bool {
    user_fields_of(s) matches Some(f) && rfc3339_secs_of(f.1) is Some
}

/// `u` carries exactly the fields the body text decodes to.
pub open spec fn spec_user_matches(u: User, s: Seq<char>) -> bool {
    user_fields_of(s) matches Some(f) && u.spec_is_admin() == f.0 && rfc3339_secs_of(f.1) == Some(
        u.spec_last_login() as int,
    ) && u.spec_username() == f.2
}

/// The body text decodes as a submission record whose identifier fits.
pub open spec fn spec_submission_ok(s: Seq<char>) -> bool {
    submission_fields_of(s) matches Some(f) && f.3 <= u32::MAX
}

/// `sub` carries exactly the fields the body text decodes to.
pub open spec fn spec_submission_matches(sub: Submission, s: Seq<char>) -> bool {
    submission_fields_of(s) matches Some(f) && sub.spec_filename() == f.0 && sub.spec_is_read()
        == f.1 && sub.spec_size() as int == f.2 && sub.spec_submission_id() as int == f.3
}

/// The body text decodes as a source record: a well-formed uuid, a valid
/// timestamp, and counts that fit.
pub open spec fn spec_source_ok(s: Seq<char>) -> bool {
    source_fields_of(s) matches Some(f) && uuid_canonical_of(f.0) is Some && rfc3339_secs_of(f.2)
        is Some && f.3 <= u32::MAX && f.5 <= u32::MAX && f.6 <= u32::MAX
}

/// `src` carries exactly the fields the body text decodes to, with the
/// uuid normalized to its canonical form.
pub open spec fn spec_source_matches(src: Source, s: Seq<char>) -> bool {
    source_fields_of(s) matches Some(f) && uuid_canonical_of(f.0) == Some(src.spec_uuid())
        && src.spec_is_flagged() == f.1 && rfc3339_secs_of(f.2) == Some(
        src.spec_last_updated() as int,
    ) && src.spec_interaction_count() as int == f.3 && src.spec_journalist_designation() == f.4
        && src.spec_number_of_documents() as int == f.5 && src.spec_number_of_messages() as int
        == f.6 && src.spec_public_key() == f.7
}

/// The body text decodes as `{sources: [...]}` with every element a
/// well-formed source record.
pub open spec fn spec_sources_ok(s: Seq<char>) -> bool {
    &&& array_items_of(s, "sources"@) is Some
    &&& forall|i: int|
        0 <= i < (array_items_of(s, "sources"@)->0).len() ==> spec_source_ok(
            #[trigger] (array_items_of(s, "sources"@)->0)[i],
        )
}

/// `ss` holds exactly the source records the body text decodes to, in
/// order.
pub open spec fn spec_sources_matches(ss: Sources, s: Seq<char>) -> bool {
    &&& array_items_of(s, "sources"@) is Some
    &&& ss.spec_sources().len() == (array_items_of(s, "sources"@)->0).len()
    &&& forall|i: int|
        0 <= i < (array_items_of(s, "sources"@)->0).len() ==> spec_source_matches(
            #[trigger] ss.spec_sources()[i],
            (array_items_of(s, "sources"@)->0)[i],
        )
}

/// The body text decodes as `{submissions: [...]}` with every element a
/// well-formed submission record.
pub open spec fn spec_submissions_ok(s: Seq<char>) -> bool {
    &&& array_items_of(s, "submissions"@) is Some
    &&& forall|i: int|
        0 <= i < (array_items_of(s, "submissions"@)->0).len() ==> spec_submission_ok(
            #[trigger] (array_items_of(s, "submissions"@)->0)[i],
        )
}

/// `ss` holds exactly the submission records the body text decodes to,
/// in order.
pub open spec fn spec_submissions_matches(ss: Submissions, s: Seq<char>) -> bool {
    &&& array_items_of(s, "submissions"@) is Some
    &&& ss.spec_submissions().len() == (array_items_of(s, "submissions"@)->0).len()
    &&& forall|i: int|
        0 <= i < (array_items_of(s, "submissions"@)->0).len() ==> spec_submission_matches(
            #[trigger] ss.spec_submissions()[i],
            (array_items_of(s, "submissions"@)->0)[i],
        )
}

} // verus!
