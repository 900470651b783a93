//! Authentication data types and utilities.
//!
//! A caller proves identity with a username, a passphrase and a one-time
//! code; the two variants of [`Credentials`] record whether the code came
//! from a time-based or a counter-based device. Both variants serialize to
//! a record with exactly the fields `username`, `password` and
//! `one_time_code`, so they are interchangeable at the wire level.

use vstd::prelude::*;
use vstd::map::*;
use vstd::string::StringExecFns;
use vstd::string::StrSliceExecFns;

use crate::text::{is_dec_digit, lemma_decimal_digits, lemma_decimal_len, pow10, spec_decimal,
    u32_to_decimal};

verus! {

/// Wrapper type for the known kinds of credentials.
#[derive(Debug)]
pub enum Credentials {
    /// Username, passphrase, and a time-based one-time code.
    UserPassTotp(UserPassTotp),
    /// Username, passphrase, and a counter-based one-time code.
    UserPassHotp(UserPassHotp),
}

/// Authentication via username, passphrase, and TOTP.
#[derive(Clone, Debug)]
pub struct UserPassTotp {
    username: String,
    passphrase: String,
    one_time_code: String,
}

/// Authentication via username, passphrase, and HOTP.
#[derive(Clone, Debug)]
pub struct UserPassHotp {
    username: String,
    passphrase: String,
    one_time_code: String,
}

/// The wire shape of serialized credentials: a record with exactly the
/// fields `username`, `password` and `one_time_code`, whichever credential
/// variant it came from.
#[derive(Debug)]
pub struct CredentialRecord {
    /// Value of the `username` field.
    pub username: String,
    /// Value of the `password` field.
    pub password: String,
    /// Value of the `one_time_code` field.
    pub one_time_code: String,
}

/// The field map a credential record carries on the wire.
pub open spec fn spec_record_fields(r: CredentialRecord) -> Map<Seq<char>, Seq<char>> {
    map!["username"@ => r.username@, "password"@ => r.password@, "one_time_code"@ => r.one_time_code@]
}

impl UserPassTotp {
    /// The username these credentials carry.
    pub closed spec fn spec_username(&self) -> Seq<char> {
        self.username@
    }

    /// The passphrase these credentials carry.
    pub closed spec fn spec_passphrase(&self) -> Seq<char> {
        self.passphrase@
    }

    /// The one-time code these credentials carry.
    pub closed spec fn spec_one_time_code(&self) -> Seq<char> {
        self.one_time_code@
    }

    /// Construct a new `UserPassTotp` using the given parameters. The code
    /// is passed in ready-made and is reused for each authentication
    /// attempt; a caller that regenerates codes renders them with
    /// [`format_one_time_code`] first.
    pub fn new(username: String, passphrase: String, one_time_code: String) -> (c: Self)
        ensures
            c.spec_username() == username@,
            c.spec_passphrase() == passphrase@,
            c.spec_one_time_code() == one_time_code@,
    {
        Self { username, passphrase, one_time_code }
    }
}

impl UserPassHotp {
    /// The username these credentials carry.
    pub closed spec fn spec_username(&self) -> Seq<char> {
        self.username@
    }

    /// The passphrase these credentials carry.
    pub closed spec fn spec_passphrase(&self) -> Seq<char> {
        self.passphrase@
    }

    /// The one-time code these credentials carry.
    pub closed spec fn spec_one_time_code(&self) -> Seq<char> {
        self.one_time_code@
    }

    /// Construct a new `UserPassHotp` using the given parameters. The code
    /// is read from a hardware token and passed in ready-made; the secret
    /// never reaches this crate.
    pub fn new(username: String, passphrase: String, one_time_code: String) -> (c: Self)
        ensures
            c.spec_username() == username@,
            c.spec_passphrase() == passphrase@,
            c.spec_one_time_code() == one_time_code@,
    {
        Self { username, passphrase, one_time_code }
    }
}

impl From<UserPassTotp> for Credentials {
    fn from(c: UserPassTotp) -> (r: Credentials) {
        Credentials::UserPassTotp(c)
    }
}

impl vstd::std_specs::convert::FromSpecImpl<UserPassTotp> for Credentials {
    open spec fn obeys_from_spec() -> bool {
        true
    }

    open spec fn from_spec(c: UserPassTotp) -> Credentials {
        Credentials::UserPassTotp(c)
    }
}

impl From<UserPassHotp> for Credentials {
    fn from(c: UserPassHotp) -> (r: Credentials) {
        Credentials::UserPassHotp(c)
    }
}

impl vstd::std_specs::convert::FromSpecImpl<UserPassHotp> for Credentials {
    open spec fn obeys_from_spec() -> bool {
        true
    }

    open spec fn from_spec(c: UserPassHotp) -> Credentials {
        Credentials::UserPassHotp(c)
    }
}

impl Credentials {
    /// The username these credentials carry, whichever the variant.
    pub open spec fn spec_username(&self) -> Seq<char> {
        match self {
            Credentials::UserPassTotp(c) => c.spec_username(),
            Credentials::UserPassHotp(c) => c.spec_username(),
        }
    }

    /// The passphrase these credentials carry, whichever the variant.
    pub open spec fn spec_passphrase(&self) -> Seq<char> {
        match self {
            Credentials::UserPassTotp(c) => c.spec_passphrase(),
            Credentials::UserPassHotp(c) => c.spec_passphrase(),
        }
    }

    /// The one-time code these credentials carry, whichever the variant.
    pub open spec fn spec_one_time_code(&self) -> Seq<char> {
        match self {
            Credentials::UserPassTotp(c) => c.spec_one_time_code(),
            Credentials::UserPassHotp(c) => c.spec_one_time_code(),
        }
    }

    /// Serialize the credentials into the wire record. Both variants
    /// produce the same field set, with the passphrase sent under the
    /// field name `password`.
    pub fn serialize(&self) -> (r: CredentialRecord)
        ensures
            r.username@ == self.spec_username(),
            r.password@ == self.spec_passphrase(),
            r.one_time_code@ == self.spec_one_time_code(),
    {
        match self {
            Credentials::UserPassTotp(c) => CredentialRecord {
                username: c.username.clone(),
                password: c.passphrase.clone(),
                one_time_code: c.one_time_code.clone(),
            },
            Credentials::UserPassHotp(c) => CredentialRecord {
                username: c.username.clone(),
                password: c.passphrase.clone(),
                one_time_code: c.one_time_code.clone(),
            },
        }
    }
}

/// Law: for all credentials of either variant, the serialized record's key
/// set is exactly `{username, password, one_time_code}` — so any two
/// credentials serialize to records with identical key sets.
pub proof fn lemma_wire_shape_equal(a: CredentialRecord, b: CredentialRecord)
    ensures
        spec_record_fields(a).dom() =~= set!["username"@, "password"@, "one_time_code"@],
        spec_record_fields(a).dom() =~= spec_record_fields(b).dom(),
{
}

/// The six-character zero-padded decimal rendering of a one-time code.
pub open spec fn spec_one_time_code6(n: nat) -> Seq<char>
    recommends
        spec_decimal(n).len() <= 6,
{
    Seq::new((6 - spec_decimal(n).len()) as nat, |i: int| '0') + spec_decimal(n)
}

/// Render a freshly computed one-time code for the wire: exactly six
/// decimal digits, zero-padded. The code itself comes from the caller's
/// one-time-password generator, which is outside this crate.
pub fn format_one_time_code(code: u32) -> (s: String)
    requires
        code < 1000000,
    ensures
        s@ == spec_one_time_code6(code as nat),
        s@.len() == 6,
        forall|i: int| 0 <= i < s@.len() ==> is_dec_digit(#[trigger] s@[i]),
{
    proof {
        assert(pow10(0) == 1);
        assert(pow10(1) == 10);
        assert(pow10(2) == 100);
        assert(pow10(3) == 1000);
        assert(pow10(4) == 10000);
        assert(pow10(5) == 100000);
        assert(pow10(6) == 1000000);
        lemma_decimal_len(code as nat, 6);
        lemma_decimal_digits(code as nat);
    }
    let digits = u32_to_decimal(code);
    let len = digits.as_str().unicode_len();
    let pad = 6 - len;
    let mut s = String::new();
    let mut i: usize = 0;
    while i < pad
        invariant
            i <= pad,
            s@ =~= Seq::new(i as nat, |j: int| '0'),
        decreases pad - i,
    {
        s.append("0");
        proof {
            reveal_strlit("0");
            assert(s@ =~= Seq::new((i + 1) as nat, |j: int| '0'));
        }
        i = i + 1;
    }
    s.append(digits.as_str());
    proof {
        assert(s@ =~= spec_one_time_code6(code as nat));
    }
    s
}

/// The bearer token the server returns from a successful credential
/// exchange: an opaque string and its expiry instant, as seconds since the
/// Unix epoch. The token is owned by the engine and leaves it only inside
/// a request header.
#[derive(Debug)]
pub struct AuthToken {
    pub(crate) token: String,
    pub(crate) expires: i64,
}

impl AuthToken {
    /// The opaque token string.
    pub closed spec fn spec_token(&self) -> Seq<char> {
        self.token@
    }

    /// The expiry instant, in seconds since the Unix epoch.
    pub closed spec fn spec_expires(&self) -> i64 {
        self.expires
    }

    /// The token string, for embedding into an auth header.
    pub(crate) fn token_str(&self) -> (s: &str)
        ensures
            s@ == self.spec_token(),
    {
        self.token.as_str()
    }
}

/// Decode the bearer-token record `{token, expires}` from a body text,
/// validating the expiry timestamp.
pub(crate) fn decode_token(body: &str) -> (r: Option<AuthToken>)
    ensures
        r is Some <==> crate::wire::spec_token_ok(body@),
        r matches Some(t) ==> crate::wire::spec_token_matches(t, body@),
{
    match crate::wire::read_token_fields(body) {
        Some((token, expires_text)) => match crate::wire::parse_rfc3339_secs(
            expires_text.as_str(),
        ) {
            Some(expires) => Some(AuthToken { token, expires }),
            None => None,
        },
        None => None,
    }
}

/// The authorization state of the engine: exactly one of raw credentials
/// (not yet exchanged, or replaced after a `reauthorize`) or an active
/// bearer token.
pub enum Authorization {
    /// Credentials waiting to be exchanged for a token.
    Credentials(Credentials),
    /// An active bearer token.
    Token(AuthToken),
}

} // verus!
