//! API request / response data types.
//!
//! Plain immutable records mirroring the wire schema, with read-only
//! accessors. [`Reply`] carries the one construction-time invariant: its
//! payload must look like a PGP-armored message.

use vstd::prelude::*;

use crate::error::{Error, ErrorKind};
use crate::text::{spec_ends_with, spec_starts_with, starts_with, ends_with};
use crate::wire::{array_items_of, parse_rfc3339_secs, parse_uuid, read_array_items, read_message,
    read_source_fields, read_submission_fields, read_user_fields, spec_message_matches,
    spec_message_ok, spec_source_matches, spec_source_ok, spec_sources_matches, spec_sources_ok,
    spec_submission_matches, spec_submission_ok, spec_submissions_matches, spec_submissions_ok,
    spec_user_matches, spec_user_ok};

verus! {

/// Generic message returned by the API.
#[derive(Debug)]
pub struct Response {
    pub(crate) message: String,
}

impl Response {
    /// The human-friendly message text.
    pub closed spec fn spec_message(&self) -> Seq<char> {
        self.message@
    }

    /// The human-friendly message.
    pub fn message(&self) -> (m: &str)
        ensures
            m@ == self.spec_message(),
    {
        self.message.as_str()
    }
}

/// Metadata for all sources.
#[derive(Debug)]
pub struct Sources {
    pub(crate) sources: Vec<Source>,
}

impl Sources {
    /// The list of sources, as a sequence of abstract sources.
    pub closed spec fn spec_sources(&self) -> Seq<Source> {
        self.sources@
    }

    /// A list of all sources.
    pub fn sources(&self) -> (v: &Vec<Source>)
        ensures
            v@ == self.spec_sources(),
    {
        &self.sources
    }
}

/// Metadata about one source: an anonymous submitter tracked by the
/// platform under an opaque identifier.
#[derive(Debug)]
pub struct Source {
    pub(crate) uuid: String,
    pub(crate) is_flagged: bool,
    pub(crate) last_updated: i64,
    pub(crate) interaction_count: u32,
    pub(crate) journalist_designation: String,
    pub(crate) number_of_documents: u32,
    pub(crate) number_of_messages: u32,
    pub(crate) public_key: String,
}

impl Source {
    /// The source's opaque identifier.
    pub closed spec fn spec_uuid(&self) -> Seq<char> {
        self.uuid@
    }

    /// A unique identifier of the source, in canonical hyphenated form.
    /// Callers must treat it as opaque.
    pub fn uuid(&self) -> (u: &str)
        ensures
            u@ == self.spec_uuid(),
    {
        self.uuid.as_str()
    }

    /// Whether the source has been flagged.
    pub closed spec fn spec_is_flagged(&self) -> bool {
        self.is_flagged
    }

    /// Boolean field indicating that the source has been flagged.
    pub fn is_flagged(&self) -> (b: bool)
        ensures
            b == self.spec_is_flagged(),
    {
        self.is_flagged
    }

    /// When the source was last updated, in seconds since the Unix epoch.
    pub closed spec fn spec_last_updated(&self) -> i64 {
        self.last_updated
    }

    /// Timestamp for when the source was last updated, in seconds since
    /// the Unix epoch.
    pub fn last_updated(&self) -> (t: i64)
        ensures
            t == self.spec_last_updated(),
    {
        self.last_updated
    }

    /// The source's interaction count.
    pub closed spec fn spec_interaction_count(&self) -> u32 {
        self.interaction_count
    }

    /// Number of interactions with the source, including the messages and
    /// files the source submitted and the replies sent back.
    pub fn interaction_count(&self) -> (n: u32)
        ensures
            n == self.spec_interaction_count(),
    {
        self.interaction_count
    }

    /// The source's journalist designation.
    pub closed spec fn spec_journalist_designation(&self) -> Seq<char> {
        self.journalist_designation@
    }

    /// An adjective-noun combination used to easily identify a source.
    pub fn journalist_designation(&self) -> (d: &str)
        ensures
            d@ == self.spec_journalist_designation(),
    {
        self.journalist_designation.as_str()
    }

    /// The source's document count.
    pub closed spec fn spec_number_of_documents(&self) -> u32 {
        self.number_of_documents
    }

    /// Number of documents the source has submitted.
    pub fn number_of_documents(&self) -> (n: u32)
        ensures
            n == self.spec_number_of_documents(),
    {
        self.number_of_documents
    }

    /// The source's message count.
    pub closed spec fn spec_number_of_messages(&self) -> u32 {
        self.number_of_messages
    }

    /// Number of messages the source has submitted.
    pub fn number_of_messages(&self) -> (n: u32)
        ensures
            n == self.spec_number_of_messages(),
    {
        self.number_of_messages
    }

    /// The source's public key.
    pub closed spec fn spec_public_key(&self) -> Seq<char> {
        self.public_key@
    }

    /// The source's public key as maintained by the platform, used to
    /// encrypt messages to the source.
    pub fn public_key(&self) -> (k: &str)
        ensures
            k@ == self.spec_public_key(),
    {
        self.public_key.as_str()
    }
}

/// The submissions of one source.
#[derive(Debug)]
pub struct Submissions {
    pub(crate) submissions: Vec<Submission>,
}

impl Submissions {
    /// The list of submissions, as a sequence of abstract submissions.
    pub closed spec fn spec_submissions(&self) -> Seq<Submission> {
        self.submissions@
    }

    /// A list of all submissions.
    pub fn submissions(&self) -> (v: &Vec<Submission>)
        ensures
            v@ == self.spec_submissions(),
    {
        &self.submissions
    }
}

/// Metadata about one submission: a file or message uploaded by a source.
#[derive(Debug)]
pub struct Submission {
    pub(crate) filename: String,
    pub(crate) is_read: bool,
    pub(crate) size: u64,
    pub(crate) submission_id: u32,
}

impl Submission {
    /// The submission's filename.
    pub closed spec fn spec_filename(&self) -> Seq<char> {
        self.filename@
    }

    /// The platform filename (e.g., `1-uninteresting_agglutination-msg.gpg`).
    pub fn filename(&self) -> (f: &str)
        ensures
            f@ == self.spec_filename(),
    {
        self.filename.as_str()
    }

    /// Whether the submission has been read.
    pub closed spec fn spec_is_read(&self) -> bool {
        self.is_read
    }

    /// Flag for whether or not the submission has been read.
    pub fn is_read(&self) -> (b: bool)
        ensures
            b == self.spec_is_read(),
    {
        self.is_read
    }

    /// The submission's size in bytes.
    pub closed spec fn spec_size(&self) -> u64 {
        self.size
    }

    /// The size of the submission in bytes.
    pub fn size(&self) -> (n: u64)
        ensures
            n == self.spec_size(),
    {
        self.size
    }

    /// The submission's numeric identifier.
    pub closed spec fn spec_submission_id(&self) -> u32 {
        self.submission_id
    }

    /// A unique identifier for the submission.
    pub fn submission_id(&self) -> (n: u32)
        ensures
            n == self.spec_submission_id(),
    {
        self.submission_id
    }
}

/// A pre-encrypted reply to a source.
#[derive(Debug)]
pub struct Reply {
    pub(crate) reply: String,
}

/// The payload looks like a PGP-armored message: it begins with the armor
/// begin marker and ends with the matching end marker. This is a cheap
/// format sanity check, not a cryptographic validation.
pub open spec fn spec_pgp_armored(s: Seq<char>) -> bool {
    spec_starts_with(s, "-----BEGIN PGP MESSAGE-----"@) && spec_ends_with(
        s,
        "-----END PGP MESSAGE-----"@,
    )
}

impl Reply {
    /// The armored payload text.
    pub closed spec fn spec_reply(&self) -> Seq<char> {
        self.reply@
    }

    /// Create a new `Reply`. Returns `Err` with a client-category error
    /// exactly when the message does not carry the PGP armor markers; no
    /// network call is involved.
    pub fn new(reply: String) -> (r: Result<Self, Error>)
        ensures
            r is Ok <==> spec_pgp_armored(reply@),
            r matches Ok(rep) ==> rep.spec_reply() == reply@,
            r matches Err(e) ==> e.spec_kind() matches ErrorKind::ClientError(m) && m@
                == "Message not PGP encrypted"@,
    {
        if !starts_with(reply.as_str(), "-----BEGIN PGP MESSAGE-----") || !ends_with(
            reply.as_str(),
            "-----END PGP MESSAGE-----",
        ) {
            Err(Error::new(ErrorKind::ClientError(String::from_str("Message not PGP encrypted"))))
        } else {
            Ok(Self { reply })
        }
    }

    /// The armored payload, as handed to the wire.
    pub fn reply(&self) -> (m: &str)
        ensures
            m@ == self.spec_reply(),
    {
        self.reply.as_str()
    }
}

/// Information about the currently logged-in user (journalist).
#[derive(Debug)]
pub struct User {
    pub(crate) user: UserInner,
}

#[derive(Debug)]
pub(crate) struct UserInner {
    pub(crate) is_admin: bool,
    pub(crate) last_login: i64,
    pub(crate) username: String,
}

impl User {
    /// Whether the user is an administrator.
    pub closed spec fn spec_is_admin(&self) -> bool {
        self.user.is_admin
    }

    /// Boolean flag for whether or not the user is an administrator.
    pub fn is_admin(&self) -> (b: bool)
        ensures
            b == self.spec_is_admin(),
    {
        self.user.is_admin
    }

    /// The user's last login instant, in seconds since the Unix epoch.
    pub closed spec fn spec_last_login(&self) -> i64 {
        self.user.last_login
    }

    /// Timestamp of this user's last login, in seconds since the Unix
    /// epoch.
    pub fn last_login(&self) -> (t: i64)
        ensures
            t == self.spec_last_login(),
    {
        self.user.last_login
    }

    /// The user's name.
    pub closed spec fn spec_username(&self) -> Seq<char> {
        self.user.username@
    }

    /// The current user's username.
    pub fn username(&self) -> (u: &str)
        ensures
            u@ == self.spec_username(),
    {
        self.user.username.as_str()
    }
}

/// Decode the generic message record `{message}` from a body text.
pub(crate) fn decode_response(body: &str) -> (r: Option<Response>)
    ensures
        r is Some <==> spec_message_ok(body@),
        r matches Some(resp) ==> spec_message_matches(resp, body@),
{
    match read_message(body) {
        Some(message) => Some(Response { message }),
        None => None,
    }
}

/// Decode one source record from a body text, validating the uuid, the
/// timestamp, and the ranges of the counts.
pub(crate) fn decode_source(body: &str) -> (r: Option<Source>)
    ensures
        r is Some <==> spec_source_ok(body@),
        r matches Some(src) ==> spec_source_matches(src, body@),
{
    match read_source_fields(body) {
        Some((uuid_text, is_flagged, updated_text, interaction, designation, docs, msgs, key)) => {
            let uuid = match parse_uuid(uuid_text.as_str()) {
                Some(u) => u,
                None => {
                    return None;
                },
            };
            let last_updated = match parse_rfc3339_secs(updated_text.as_str()) {
                Some(t) => t,
                None => {
                    return None;
                },
            };
            if interaction > u32::MAX as u64 || docs > u32::MAX as u64 || msgs > u32::MAX as u64 {
                return None;
            }
            Some(
                Source {
                    uuid,
                    is_flagged,
                    last_updated,
                    interaction_count: interaction as u32,
                    journalist_designation: designation,
                    number_of_documents: docs as u32,
                    number_of_messages: msgs as u32,
                    public_key: key,
                },
            )
        },
        None => None,
    }
}

/// Decode the source list record `{sources: [...]}` from a body text.
pub(crate) fn decode_sources(body: &str) -> (r: Option<Sources>)
    ensures
        r is Some <==> spec_sources_ok(body@),
        r matches Some(ss) ==> spec_sources_matches(ss, body@),
{
    match read_array_items(body, "sources") {
        Some(items) => {
            let ghost its = array_items_of(body@, "sources"@)->0;
            let mut sources: Vec<Source> = Vec::new();
            let mut i: usize = 0;
            while i < items.len()
                invariant
                    i <= items@.len(),
                    sources@.len() == i,
                    array_items_of(body@, "sources"@) == Some(its),
                    its.len() == items@.len(),
                    forall|j: int| 0 <= j < items@.len() ==> items@[j]@ == its[j],
                    forall|j: int| 0 <= j < i ==> spec_source_ok(#[trigger] its[j]),
                    forall|j: int| 0 <= j < i ==> spec_source_matches(#[trigger] sources@[j], its[j]),
                decreases items@.len() - i,
            {
                match decode_source(items[i].as_str()) {
                    Some(src) => sources.push(src),
                    None => {
                        proof {
                            assert(items@[i as int]@ == its[i as int]);
                            assert(!spec_source_ok(its[i as int]));
                            if spec_sources_ok(body@) {
                                assert(array_items_of(body@, "sources"@) == Some(its));
                                assert(i < (array_items_of(body@, "sources"@)->0).len());
                                assert(spec_source_ok(
                                    (array_items_of(body@, "sources"@)->0)[i as int],
                                ));
                                assert((array_items_of(body@, "sources"@)->0)[i as int] == its[i as int]);
                                assert(false);
                            }
                        }
                        return None;
                    },
                }
                i = i + 1;
            }
            let ss = Sources { sources };
            proof {
                assert(spec_sources_ok(body@));
                assert(spec_sources_matches(ss, body@));
            }
            Some(ss)
        },
        None => None,
    }
}

/// Decode one submission record from a body text, validating the range of
/// the identifier.
pub(crate) fn decode_submission(body: &str) -> (r: Option<Submission>)
    ensures
        r is Some <==> spec_submission_ok(body@),
        r matches Some(sub) ==> spec_submission_matches(sub, body@),
{
    match read_submission_fields(body) {
        Some((filename, is_read, size, submission_id)) => {
            if submission_id > u32::MAX as u64 {
                return None;
            }
            Some(Submission { filename, is_read, size, submission_id: submission_id as u32 })
        },
        None => None,
    }
}

/// Decode the submission list record `{submissions: [...]}` from a body
/// text.
pub(crate) fn decode_submissions(body: &str) -> (r: Option<Submissions>)
    ensures
        r is Some <==> spec_submissions_ok(body@),
        r matches Some(ss) ==> spec_submissions_matches(ss, body@),
{
    match read_array_items(body, "submissions") {
        Some(items) => {
            let ghost its = array_items_of(body@, "submissions"@)->0;
            let mut submissions: Vec<Submission> = Vec::new();
            let mut i: usize = 0;
            while i < items.len()
                invariant
                    i <= items@.len(),
                    submissions@.len() == i,
                    array_items_of(body@, "submissions"@) == Some(its),
                    its.len() == items@.len(),
                    forall|j: int| 0 <= j < items@.len() ==> items@[j]@ == its[j],
                    forall|j: int| 0 <= j < i ==> spec_submission_ok(#[trigger] its[j]),
                    forall|j: int|
                        0 <= j < i ==> spec_submission_matches(#[trigger] submissions@[j], its[j]),
                decreases items@.len() - i,
            {
                match decode_submission(items[i].as_str()) {
                    Some(sub) => submissions.push(sub),
                    None => {
                        proof {
                            assert(items@[i as int]@ == its[i as int]);
                            assert(!spec_submission_ok(its[i as int]));
                            if spec_submissions_ok(body@) {
                                assert(array_items_of(body@, "submissions"@) == Some(its));
                                assert(i < (array_items_of(body@, "submissions"@)->0).len());
                                assert(spec_submission_ok(
                                    (array_items_of(body@, "submissions"@)->0)[i as int],
                                ));
                                assert((array_items_of(body@, "submissions"@)->0)[i as int] == its[i as int]);
                                assert(false);
                            }
                        }
                        return None;
                    },
                }
                i = i + 1;
            }
            let ss = Submissions { submissions };
            proof {
                assert(spec_submissions_ok(body@));
                assert(spec_submissions_matches(ss, body@));
            }
            Some(ss)
        },
        None => None,
    }
}

/// Decode the user record `{user: {is_admin, last_login, username}}` from
/// a body text, validating the last-login timestamp.
pub(crate) fn decode_user(body: &str) -> (r: Option<User>)
    ensures
        r is Some <==> spec_user_ok(body@),
        r matches Some(u) ==> spec_user_matches(u, body@),
{
    match read_user_fields(body) {
        Some((is_admin, login_text, username)) => match parse_rfc3339_secs(login_text.as_str()) {
            Some(last_login) => Some(User { user: UserInner { is_admin, last_login, username } }),
            None => None,
        },
        None => None,
    }
}

} // verus!
