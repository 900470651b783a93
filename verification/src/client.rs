//! The authenticated request engine.
//!
//! The engine owns the base endpoint and the current authorization state,
//! and turns every logical operation into a [`RequestPlan`]: the method,
//! path, headers and body of the HTTP request to send. It performs no I/O
//! itself; the surrounding application dispatches the plan over its
//! transport and hands the raw outcome (status and body text) back to the
//! matching response routine, which classifies it into a typed result or
//! a typed [`Error`].
//!
//! Construction starts unauthenticated: the caller dispatches
//! [`Client::token_request`] and completes the exchange with
//! [`Client::finish_authorize`] before any resource operation is allowed.
//! The engine never retries on its own; on an authorization failure the
//! caller may explicitly [`Client::reauthorize`] with fresh credentials.

use vstd::prelude::*;
use vstd::string::StringExecFns;

use crate::auth::{decode_token, AuthToken, Authorization, CredentialRecord, Credentials};
use crate::data::{decode_response, decode_source, decode_sources, decode_submission,
    decode_submissions, decode_user, Reply, Response, Source, Sources, Submission, Submissions,
    User};
use crate::error::{Error, ErrorKind};
use crate::text::spec_decimal;
use crate::wire::{message_of, read_message, spec_message_matches, spec_message_ok,
    spec_source_matches, spec_source_ok, spec_sources_matches, spec_sources_ok,
    spec_submission_matches, spec_submission_ok, spec_submissions_matches, spec_submissions_ok,
    spec_token_matches, spec_token_ok, spec_user_matches, spec_user_ok};

verus! {

/// The HTTP verb an operation dispatches.
#[derive(Clone, Copy, Debug, PartialEq, Eq, Structural)]
pub enum Method {
    /// Retrieve a resource.
    Get,
    /// Send a body, or trigger an action.
    Post,
    /// Remove a resource.
    Delete,
}

/// One request header.
#[derive(Debug)]
pub struct Header {
    /// The header's name.
    pub name: String,
    /// The header's value.
    pub value: String,
}

/// The body a request carries, still as plain data; the transport encodes
/// it as a JSON document.
#[derive(Debug)]
pub enum RequestBody {
    /// Serialized credentials, for the token exchange.
    Credentials(CredentialRecord),
    /// A pre-encrypted reply's payload, sent as `{reply: <armored text>}`.
    Reply(String),
}

/// Everything the transport needs to dispatch one operation: send a
/// `method` request to `url_base` with its path replaced by `path`, with
/// the given headers and body.
#[derive(Debug)]
pub struct RequestPlan {
    /// The HTTP verb.
    pub method: Method,
    /// The URL prefix fixed at construction.
    pub url_base: String,
    /// The path under the versioned API prefix, e.g. `api/v1/sources`.
    pub path: String,
    /// The headers to attach.
    pub headers: Vec<Header>,
    /// The body to send, if the operation has one.
    pub body: Option<RequestBody>,
}

/// The raw outcome of dispatching a plan, as the transport saw it.
#[derive(Debug)]
pub enum HttpOutcome {
    /// A transport or connection failure: no HTTP response at all.
    TransportFailure,
    /// An HTTP response, with its status code and its body text.
    Response {
        /// The HTTP status code.
        status: u16,
        /// The response body.
        body: String,
    },
}

/// The outcome of one attempt to decode a response body.
pub enum BodyDecode<T> {
    /// The body decoded into the expected shape.
    Decoded(T),
    /// The body did not match the expected shape; the detail says how.
    Undecodable(String),
}

/// A fully observed HTTP exchange, ready for classification: the typed
/// reading of the body (consulted on success statuses) and the error-body
/// reading `{message}` (consulted on client-error statuses).
pub enum Exchange<T> {
    /// No HTTP-level response was received.
    NoResponse,
    /// A response arrived with this status and these body readings.
    Responded {
        /// The HTTP status code.
        status: u16,
        /// The body read as the expected type.
        typed: BodyDecode<T>,
        /// The body read as an error record `{message}`.
        message: BodyDecode<String>,
    },
}

/// The status denotes success (2xx).
pub open spec fn is_success(status: u16) -> bool {
    200 <= status < 300
}

/// The status denotes a server error (5xx).
pub open spec fn is_server_error(status: u16) -> bool {
    500 <= status < 600
}

/// The status denotes a client error (4xx).
pub open spec fn is_client_error(status: u16) -> bool {
    400 <= status < 500
}

/// `r` failed with exactly the kind `k`.
pub open spec fn is_err_with<T>(r: Result<T, Error>, k: ErrorKind) -> bool {
    r matches Err(e) && e.spec_kind() == k
}

/// Classify a fully observed exchange into a typed result or a typed
/// error. The classification is pure and total — every outcome falls into
/// exactly one bucket — and checks the ranges in a fixed order: success,
/// then server error, then client error, then the fallback.
pub fn classify<T>(x: Exchange<T>) -> (r: Result<T, Error>)
    ensures
        x is NoResponse ==> is_err_with(r, ErrorKind::NetworkError),
        x matches Exchange::Responded { status, typed, .. } ==> (is_success(status) ==> (typed
            matches BodyDecode::Decoded(t) ==> r == Ok::<T, Error>(t))),
        x matches Exchange::Responded { status, typed, .. } ==> (is_success(status) ==> (typed
            matches BodyDecode::Undecodable(d) ==> is_err_with(
            r,
            ErrorKind::ProgrammingError(d),
        ))),
        x matches Exchange::Responded { status, .. } && !is_success(status) && is_server_error(
            status,
        ) ==> is_err_with(r, ErrorKind::ServerError),
        x matches Exchange::Responded { status, message, .. } ==> (!is_success(status)
            && !is_server_error(status) && is_client_error(status) ==> (message matches
            BodyDecode::Decoded(m) ==> is_err_with(r, ErrorKind::ClientError(m)))),
        x matches Exchange::Responded { status, message, .. } ==> (!is_success(status)
            && !is_server_error(status) && is_client_error(status) && message is Undecodable ==> (
        r matches Err(e) && e.spec_kind() matches ErrorKind::ProgrammingError(d) && d@
            == "Parse failure."@)),
        x matches Exchange::Responded { status, .. } && !is_success(status) && !is_server_error(
            status,
        ) && !is_client_error(status) ==> is_err_with(r, ErrorKind::UnknownError),
{
    match x {
        Exchange::NoResponse => Err(Error::new(ErrorKind::NetworkError)),
        Exchange::Responded { status, typed, message } => {
            if 200 <= status && status < 300 {
                match typed {
                    BodyDecode::Decoded(t) => Ok(t),
                    BodyDecode::Undecodable(d) => Err(Error::new(ErrorKind::ProgrammingError(d))),
                }
            } else if 500 <= status && status < 600 {
                Err(Error::new(ErrorKind::ServerError))
            } else if 400 <= status && status < 500 {
                match message {
                    BodyDecode::Decoded(m) => Err(Error::new(ErrorKind::ClientError(m))),
                    BodyDecode::Undecodable(_) => Err(
                        Error::new(
                            ErrorKind::ProgrammingError(String::from_str("Parse failure.")),
                        ),
                    ),
                }
            } else {
                Err(Error::new(ErrorKind::UnknownError))
            }
        },
    }
}

/// What every response routine guarantees about its classification,
/// whatever the body turned out to hold: the decode-independent rows of
/// the classification table.
pub open spec fn spec_classified<T>(outcome: HttpOutcome, r: Result<T, Error>) -> bool {
    &&& outcome is TransportFailure ==> is_err_with(r, ErrorKind::NetworkError)
    &&& outcome matches HttpOutcome::Response { status, body } ==> {
        &&& is_success(status) ==> (r is Ok || (r matches Err(e) && e.spec_kind() matches
            ErrorKind::ProgrammingError(_)))
        &&& !is_success(status) && is_server_error(status) ==> is_err_with(
            r,
            ErrorKind::ServerError,
        )
        &&& !is_success(status) && !is_server_error(status) && is_client_error(status) ==> {
            &&& message_of(body@) matches Some(m) ==> (r matches Err(e) && e.spec_kind() matches
                ErrorKind::ClientError(mm) && mm@ == m)
            &&& message_of(body@) is None ==> (r matches Err(e) && e.spec_kind() matches
                ErrorKind::ProgrammingError(d) && d@ == "Parse failure."@)
        }
        &&& !is_success(status) && !is_server_error(status) && !is_client_error(status)
            ==> is_err_with(r, ErrorKind::UnknownError)
    }
}

/// The detail attached to a typed-body decode failure.
fn decode_detail() -> (s: String)
    ensures
        s@ == "response body does not match the expected shape"@,
{
    String::from_str("response body does not match the expected shape")
}

/// Read a response body as the error record `{message}`.
fn message_decode(body: &str) -> (m: BodyDecode<String>)
    ensures
        message_of(body@) matches Some(msg) ==> (m matches BodyDecode::Decoded(d) && d@ == msg),
        message_of(body@) is None ==> m is Undecodable,
{
    match read_message(body) {
        Some(msg) => BodyDecode::Decoded(msg),
        None => BodyDecode::Undecodable(decode_detail()),
    }
}

/// The standard headers of a JSON operation, against this authorization
/// state: content type, accept, and the bearer token once one is held.
pub open spec fn spec_json_headers(hs: Seq<Header>, auth: Authorization) -> bool {
    &&& hs.len() == if auth is Token {
        3int
    } else {
        2int
    }
    &&& hs[0].name@ == "Content-Type"@ && hs[0].value@ == "application/json"@
    &&& hs[1].name@ == "Accept"@ && hs[1].value@ == "application/json"@
    &&& auth matches Authorization::Token(t) ==> hs[2].name@ == "Authorization"@ && hs[2].value@
        == "Token "@ + t.spec_token()
}

/// The headers of a download, against this authorization state: the
/// content type of the encrypted payload, and the bearer token once one
/// is held.
pub open spec fn spec_download_headers(hs: Seq<Header>, auth: Authorization) -> bool {
    &&& hs.len() == if auth is Token {
        2int
    } else {
        1int
    }
    &&& hs[0].name@ == "Content-Type"@ && hs[0].value@ == "application/pgp-encrypted"@
    &&& auth matches Authorization::Token(t) ==> hs[1].name@ == "Authorization"@ && hs[1].value@
        == "Token "@ + t.spec_token()
}

/// A plan dispatches `method` to `path` under the engine's base URL, with
/// the standard JSON headers for the engine's authorization state.
pub open spec fn spec_plan_for(c: Client, plan: RequestPlan, method: Method, path: Seq<char>) -> bool {
    &&& plan.method == method
    &&& plan.url_base@ == c.spec_url_base()
    &&& plan.path@ == path
    &&& spec_json_headers(plan.headers@, c.spec_auth())
}

/// A client of the API: the engine that owns the base endpoint and the
/// authorization state, and plans every operation.
pub struct Client {
    url_base: String,
    auth: Authorization,
}

impl Client {
    /// The URL prefix fixed at construction.
    pub closed spec fn spec_url_base(&self) -> Seq<char> {
        self.url_base@
    }

    /// The current authorization state.
    pub closed spec fn spec_auth(&self) -> Authorization {
        self.auth
    }

    /// The engine holds an active bearer token.
    pub open spec fn spec_is_authenticated(&self) -> bool {
        self.spec_auth() is Token
    }

    /// Whether the engine holds an active bearer token.
    pub fn is_authenticated(&self) -> (b: bool)
        ensures
            b == self.spec_is_authenticated(),
    {
        match &self.auth {
            Authorization::Token(_) => true,
            Authorization::Credentials(_) => false,
        }
    }

    /// Construct a new engine from a URL base (e.g.
    /// `http://localhost:8081`) and the credentials to exchange for the
    /// initial token. The engine starts unauthenticated: dispatch
    /// [`Client::token_request`] and complete the exchange with
    /// [`Client::finish_authorize`]; a caller that wants no engine without
    /// a token discards it when that exchange fails.
    pub fn new(url_base: String, credentials: Credentials) -> (c: Client)
        ensures
            c.spec_url_base() == url_base@,
            c.spec_auth() matches Authorization::Credentials(cr) && cr == credentials,
    {
        Client { url_base, auth: Authorization::Credentials(credentials) }
    }

    /// The standard JSON headers for the current authorization state.
    fn headers(&self) -> (hs: Vec<Header>)
        ensures
            spec_json_headers(hs@, self.spec_auth()),
    {
        let mut hs: Vec<Header> = Vec::new();
        hs.push(
            Header {
                name: String::from_str("Content-Type"),
                value: String::from_str("application/json"),
            },
        );
        hs.push(
            Header { name: String::from_str("Accept"), value: String::from_str("application/json") },
        );
        match &self.auth {
            Authorization::Token(t) => {
                let mut value = String::from_str("Token ");
                value.append(t.token_str());
                hs.push(Header { name: String::from_str("Authorization"), value });
            },
            Authorization::Credentials(_) => {},
        }
        hs
    }

    /// The token-exchange request: a POST to the token endpoint, carrying
    /// the serialized credentials while the engine is unauthenticated, or
    /// only the current auth header once a token is held.
    pub fn token_request(&self) -> (plan: RequestPlan)
        ensures
            plan.method == Method::Post,
            plan.url_base@ == self.spec_url_base(),
            plan.path@ == "api/v1/token"@,
            spec_json_headers(plan.headers@, self.spec_auth()),
            self.spec_auth() matches Authorization::Credentials(cr) ==> (plan.body matches
                Some(RequestBody::Credentials(rec)) && rec.username@ == cr.spec_username()
                && rec.password@ == cr.spec_passphrase() && rec.one_time_code@
                == cr.spec_one_time_code()),
            self.spec_is_authenticated() ==> plan.body is None,
    {
        let headers = self.headers();
        let body = match &self.auth {
            Authorization::Credentials(c) => Some(RequestBody::Credentials(c.serialize())),
            Authorization::Token(_) => None,
        };
        RequestPlan {
            method: Method::Post,
            url_base: self.url_base.clone(),
            path: String::from_str("api/v1/token"),
            headers,
            body,
        }
    }

    /// Complete a token exchange: classify the outcome of dispatching
    /// [`Client::token_request`], and on success replace the authorization
    /// state with the fresh token. On failure the state is left as it was
    /// — in particular, a failed exchange after [`Client::reauthorize`]
    /// leaves the engine without a token, never serving a stale one.
    pub fn finish_authorize(&mut self, outcome: HttpOutcome) -> (r: Result<(), Error>)
        ensures
            final(self).spec_url_base() == old(self).spec_url_base(),
            r is Ok ==> final(self).spec_is_authenticated(),
            r is Err ==> final(self).spec_auth() == old(self).spec_auth(),
            spec_classified(outcome, r),
            outcome matches HttpOutcome::Response { status, body } ==> (is_success(status) ==> {
                &&& spec_token_ok(body@) ==> r is Ok
                &&& spec_token_ok(body@) ==> (final(self).spec_auth() matches
                    Authorization::Token(t) && spec_token_matches(t, body@))
                &&& !spec_token_ok(body@) ==> (r matches Err(e) && e.spec_kind() matches
                    ErrorKind::ProgrammingError(_))
            }),
    {
        let token = match outcome {
            HttpOutcome::TransportFailure => classify::<AuthToken>(Exchange::NoResponse),
            HttpOutcome::Response { status, body } => {
                let typed = if 200 <= status && status < 300 {
                    match decode_token(body.as_str()) {
                        Some(t) => BodyDecode::Decoded(t),
                        None => BodyDecode::Undecodable(decode_detail()),
                    }
                } else {
                    BodyDecode::Undecodable(String::new())
                };
                let message = if 400 <= status && status < 500 {
                    message_decode(body.as_str())
                } else {
                    BodyDecode::Undecodable(String::new())
                };
                classify(Exchange::Responded { status, typed, message })
            },
        };
        match token {
            Ok(t) => {
                self.auth = Authorization::Token(t);
                Ok(())
            },
            Err(e) => Err(e),
        }
    }

    /// Reauthorize the engine with a new set of credentials: the current
    /// token (or pending credentials) is discarded at once, and the
    /// returned plan is the fresh token exchange to dispatch. Until
    /// [`Client::finish_authorize`] succeeds on its outcome, every
    /// resource operation fails.
    pub fn reauthorize(&mut self, credentials: Credentials) -> (plan: RequestPlan)
        ensures
            final(self).spec_url_base() == old(self).spec_url_base(),
            final(self).spec_auth() matches Authorization::Credentials(cr) && cr == credentials,
            !final(self).spec_is_authenticated(),
            plan.method == Method::Post,
            plan.url_base@ == final(self).spec_url_base(),
            plan.path@ == "api/v1/token"@,
            spec_json_headers(plan.headers@, final(self).spec_auth()),
            plan.body matches Some(RequestBody::Credentials(rec)) && rec.username@
                == credentials.spec_username() && rec.password@ == credentials.spec_passphrase()
                && rec.one_time_code@ == credentials.spec_one_time_code(),
    {
        self.auth = Authorization::Credentials(credentials);
        self.token_request()
    }

    /// Plan `GET api/v1/sources`: retrieve all sources the logged-in user
    /// may view. Fails with `AuthError` while no token is held.
    pub fn sources(&self) -> (r: Result<RequestPlan, Error>)
        ensures
            self.spec_is_authenticated() ==> (r matches Ok(plan) && spec_plan_for(
                *self,
                plan,
                Method::Get,
                "api/v1/sources"@,
            ) && plan.body is None),
            !self.spec_is_authenticated() ==> is_err_with(r, ErrorKind::AuthError),
    {
        if !self.is_authenticated() {
            return Err(Error::new(ErrorKind::AuthError));
        }
        Ok(
            RequestPlan {
                method: Method::Get,
                url_base: self.url_base.clone(),
                path: String::from_str("api/v1/sources"),
                headers: self.headers(),
                body: None,
            },
        )
    }

    /// Plan `GET api/v1/sources/<id>`: retrieve one source by its opaque
    /// identifier. Fails with `AuthError` while no token is held.
    pub fn source(&self, source_id: &str) -> (r: Result<RequestPlan, Error>)
        ensures
            self.spec_is_authenticated() ==> (r matches Ok(plan) && spec_plan_for(
                *self,
                plan,
                Method::Get,
                "api/v1/sources/"@ + source_id@,
            ) && plan.body is None),
            !self.spec_is_authenticated() ==> is_err_with(r, ErrorKind::AuthError),
    {
        if !self.is_authenticated() {
            return Err(Error::new(ErrorKind::AuthError));
        }
        let mut path = String::from_str("api/v1/sources/");
        path.append(source_id);
        Ok(
            RequestPlan {
                method: Method::Get,
                url_base: self.url_base.clone(),
                path,
                headers: self.headers(),
                body: None,
            },
        )
    }

    /// Plan `GET api/v1/sources/<id>/submissions`: retrieve all
    /// submissions of one source. Fails with `AuthError` while no token is
    /// held.
    pub fn source_submissions(&self, source_id: &str) -> (r: Result<RequestPlan, Error>)
        ensures
            self.spec_is_authenticated() ==> (r matches Ok(plan) && spec_plan_for(
                *self,
                plan,
                Method::Get,
                "api/v1/sources/"@ + source_id@ + "/submissions"@,
            ) && plan.body is None),
            !self.spec_is_authenticated() ==> is_err_with(r, ErrorKind::AuthError),
    {
        if !self.is_authenticated() {
            return Err(Error::new(ErrorKind::AuthError));
        }
        let mut path = String::from_str("api/v1/sources/");
        path.append(source_id);
        path.append("/submissions");
        Ok(
            RequestPlan {
                method: Method::Get,
                url_base: self.url_base.clone(),
                path,
                headers: self.headers(),
                body: None,
            },
        )
    }

    /// Plan `GET api/v1/sources/<id>/submissions/<n>`: retrieve one
    /// submission of one source. Fails with `AuthError` while no token is
    /// held.
    pub fn source_submission(&self, source_id: &str, submission_id: u32) -> (r: Result<
        RequestPlan,
        Error,
    >)
        ensures
            self.spec_is_authenticated() ==> (r matches Ok(plan) && spec_plan_for(
                *self,
                plan,
                Method::Get,
                "api/v1/sources/"@ + source_id@ + "/submissions/"@ + spec_decimal(
                    submission_id as nat,
                ),
            ) && plan.body is None),
            !self.spec_is_authenticated() ==> is_err_with(r, ErrorKind::AuthError),
    {
        if !self.is_authenticated() {
            return Err(Error::new(ErrorKind::AuthError));
        }
        let mut path = String::from_str("api/v1/sources/");
        path.append(source_id);
        path.append("/submissions/");
        let digits = crate::text::u32_to_decimal(submission_id);
        path.append(digits.as_str());
        Ok(
            RequestPlan {
                method: Method::Get,
                url_base: self.url_base.clone(),
                path,
                headers: self.headers(),
                body: None,
            },
        )
    }

    /// Plan `POST api/v1/sources/<id>/reply`: send a pre-encrypted reply
    /// to one source. Fails with `AuthError` while no token is held.
    pub fn reply_to_source(&self, source_id: &str, reply: &Reply) -> (r: Result<RequestPlan, Error>)
        ensures
            self.spec_is_authenticated() ==> (r matches Ok(plan) && spec_plan_for(
                *self,
                plan,
                Method::Post,
                "api/v1/sources/"@ + source_id@ + "/reply"@,
            ) && (plan.body matches Some(RequestBody::Reply(text)) && text@
                == reply.spec_reply())),
            !self.spec_is_authenticated() ==> is_err_with(r, ErrorKind::AuthError),
    {
        if !self.is_authenticated() {
            return Err(Error::new(ErrorKind::AuthError));
        }
        let mut path = String::from_str("api/v1/sources/");
        path.append(source_id);
        path.append("/reply");
        Ok(
            RequestPlan {
                method: Method::Post,
                url_base: self.url_base.clone(),
                path,
                headers: self.headers(),
                body: Some(RequestBody::Reply(reply.reply().to_owned())),
            },
        )
    }

    /// Plan `DELETE api/v1/sources/<id>/submissions/<n>`: delete one
    /// submission of one source. Fails with `AuthError` while no token is
    /// held.
    pub fn delete_source_submission(&self, source_id: &str, submission_id: u32) -> (r: Result<
        RequestPlan,
        Error,
    >)
        ensures
            self.spec_is_authenticated() ==> (r matches Ok(plan) && spec_plan_for(
                *self,
                plan,
                Method::Delete,
                "api/v1/sources/"@ + source_id@ + "/submissions/"@ + spec_decimal(
                    submission_id as nat,
                ),
            ) && plan.body is None),
            !self.spec_is_authenticated() ==> is_err_with(r, ErrorKind::AuthError),
    {
        if !self.is_authenticated() {
            return Err(Error::new(ErrorKind::AuthError));
        }
        let mut path = String::from_str("api/v1/sources/");
        path.append(source_id);
        path.append("/submissions/");
        let digits = crate::text::u32_to_decimal(submission_id);
        path.append(digits.as_str());
        Ok(
            RequestPlan {
                method: Method::Delete,
                url_base: self.url_base.clone(),
                path,
                headers: self.headers(),
                body: None,
            },
        )
    }

    /// Plan `GET api/v1/sources/<id>/submissions/<n>/download`: download
    /// one submission's encrypted payload. The response body is a raw byte
    /// stream for the caller's sink, so the plan carries the encrypted
    /// payload's content type instead of the JSON headers. Fails with
    /// `AuthError` while no token is held.
    pub fn download_submission(&self, source_id: &str, submission_id: u32) -> (r: Result<
        RequestPlan,
        Error,
    >)
        ensures
            self.spec_is_authenticated() ==> (r matches Ok(plan) && plan.method == Method::Get
                && plan.url_base@ == self.spec_url_base() && plan.path@ == "api/v1/sources/"@
                + source_id@ + "/submissions/"@ + spec_decimal(submission_id as nat) + "/download"@
                && spec_download_headers(plan.headers@, self.spec_auth()) && plan.body is None),
            !self.spec_is_authenticated() ==> is_err_with(r, ErrorKind::AuthError),
    {
        if !self.is_authenticated() {
            return Err(Error::new(ErrorKind::AuthError));
        }
        let mut headers: Vec<Header> = Vec::new();
        headers.push(
            Header {
                name: String::from_str("Content-Type"),
                value: String::from_str("application/pgp-encrypted"),
            },
        );
        match &self.auth {
            Authorization::Token(t) => {
                let mut value = String::from_str("Token ");
                value.append(t.token_str());
                headers.push(Header { name: String::from_str("Authorization"), value });
            },
            Authorization::Credentials(_) => {},
        }
        let mut path = String::from_str("api/v1/sources/");
        path.append(source_id);
        path.append("/submissions/");
        let digits = crate::text::u32_to_decimal(submission_id);
        path.append(digits.as_str());
        path.append("/download");
        Ok(
            RequestPlan {
                method: Method::Get,
                url_base: self.url_base.clone(),
                path,
                headers,
                body: None,
            },
        )
    }

    /// Plan `DELETE api/v1/sources/<id>/submissions`: delete all
    /// submissions of one source. Fails with `AuthError` while no token is
    /// held.
    pub fn delete_submissions(&self, source_id: &str) -> (r: Result<RequestPlan, Error>)
        ensures
            self.spec_is_authenticated() ==> (r matches Ok(plan) && spec_plan_for(
                *self,
                plan,
                Method::Delete,
                "api/v1/sources/"@ + source_id@ + "/submissions"@,
            ) && plan.body is None),
            !self.spec_is_authenticated() ==> is_err_with(r, ErrorKind::AuthError),
    {
        if !self.is_authenticated() {
            return Err(Error::new(ErrorKind::AuthError));
        }
        let mut path = String::from_str("api/v1/sources/");
        path.append(source_id);
        path.append("/submissions");
        Ok(
            RequestPlan {
                method: Method::Delete,
                url_base: self.url_base.clone(),
                path,
                headers: self.headers(),
                body: None,
            },
        )
    }

    /// Plan `POST api/v1/sources/<id>/star`: add a star to a source.
    /// Fails with `AuthError` while no token is held.
    pub fn star_source(&self, source_id: &str) -> (r: Result<RequestPlan, Error>)
        ensures
            self.spec_is_authenticated() ==> (r matches Ok(plan) && spec_plan_for(
                *self,
                plan,
                Method::Post,
                "api/v1/sources/"@ + source_id@ + "/star"@,
            ) && plan.body is None),
            !self.spec_is_authenticated() ==> is_err_with(r, ErrorKind::AuthError),
    {
        if !self.is_authenticated() {
            return Err(Error::new(ErrorKind::AuthError));
        }
        let mut path = String::from_str("api/v1/sources/");
        path.append(source_id);
        path.append("/star");
        Ok(
            RequestPlan {
                method: Method::Post,
                url_base: self.url_base.clone(),
                path,
                headers: self.headers(),
                body: None,
            },
        )
    }

    /// Plan `DELETE api/v1/sources/<id>/star`: remove a star from a
    /// source. Fails with `AuthError` while no token is held.
    pub fn unstar_source(&self, source_id: &str) -> (r: Result<RequestPlan, Error>)
        ensures
            self.spec_is_authenticated() ==> (r matches Ok(plan) && spec_plan_for(
                *self,
                plan,
                Method::Delete,
                "api/v1/sources/"@ + source_id@ + "/star"@,
            ) && plan.body is None),
            !self.spec_is_authenticated() ==> is_err_with(r, ErrorKind::AuthError),
    {
        if !self.is_authenticated() {
            return Err(Error::new(ErrorKind::AuthError));
        }
        let mut path = String::from_str("api/v1/sources/");
        path.append(source_id);
        path.append("/star");
        Ok(
            RequestPlan {
                method: Method::Delete,
                url_base: self.url_base.clone(),
                path,
                headers: self.headers(),
                body: None,
            },
        )
    }

    /// Plan `GET api/v1/user`: retrieve information about the logged-in
    /// user. Fails with `AuthError` while no token is held.
    pub fn user(&self) -> (r: Result<RequestPlan, Error>)
        ensures
            self.spec_is_authenticated() ==> (r matches Ok(plan) && spec_plan_for(
                *self,
                plan,
                Method::Get,
                "api/v1/user"@,
            ) && plan.body is None),
            !self.spec_is_authenticated() ==> is_err_with(r, ErrorKind::AuthError),
    {
        if !self.is_authenticated() {
            return Err(Error::new(ErrorKind::AuthError));
        }
        Ok(
            RequestPlan {
                method: Method::Get,
                url_base: self.url_base.clone(),
                path: String::from_str("api/v1/user"),
                headers: self.headers(),
                body: None,
            },
        )
    }
}

/// Classify the outcome of a `sources` plan into the source list. The
/// routine is pure: it never touches the engine's authorization state, so
/// a decode failure never deauthenticates.
pub fn sources_response(outcome: HttpOutcome) -> (r: Result<Sources, Error>)
    ensures
        spec_classified(outcome, r),
        outcome matches HttpOutcome::Response { status, body } ==> (is_success(status) ==> {
            &&& spec_sources_ok(body@) ==> (r matches Ok(x) && spec_sources_matches(x, body@))
            &&& !spec_sources_ok(body@) ==> (r matches Err(e) && e.spec_kind() matches
                ErrorKind::ProgrammingError(_))
        }),
{
    match outcome {
        HttpOutcome::TransportFailure => classify(Exchange::NoResponse),
        HttpOutcome::Response { status, body } => {
            let typed = if 200 <= status && status < 300 {
                match decode_sources(body.as_str()) {
                    Some(x) => BodyDecode::Decoded(x),
                    None => BodyDecode::Undecodable(decode_detail()),
                }
            } else {
                BodyDecode::Undecodable(String::new())
            };
            let message = if 400 <= status && status < 500 {
                message_decode(body.as_str())
            } else {
                BodyDecode::Undecodable(String::new())
            };
            classify(Exchange::Responded { status, typed, message })
        },
    }
}

/// Classify the outcome of a `source` plan into one source. Pure, like
/// every response routine.
pub fn source_response(outcome: HttpOutcome) -> (r: Result<Source, Error>)
    ensures
        spec_classified(outcome, r),
        outcome matches HttpOutcome::Response { status, body } ==> (is_success(status) ==> {
            &&& spec_source_ok(body@) ==> (r matches Ok(x) && spec_source_matches(x, body@))
            &&& !spec_source_ok(body@) ==> (r matches Err(e) && e.spec_kind() matches
                ErrorKind::ProgrammingError(_))
        }),
{
    match outcome {
        HttpOutcome::TransportFailure => classify(Exchange::NoResponse),
        HttpOutcome::Response { status, body } => {
            let typed = if 200 <= status && status < 300 {
                match decode_source(body.as_str()) {
                    Some(x) => BodyDecode::Decoded(x),
                    None => BodyDecode::Undecodable(decode_detail()),
                }
            } else {
                BodyDecode::Undecodable(String::new())
            };
            let message = if 400 <= status && status < 500 {
                message_decode(body.as_str())
            } else {
                BodyDecode::Undecodable(String::new())
            };
            classify(Exchange::Responded { status, typed, message })
        },
    }
}

/// Classify the outcome of a `source_submissions` plan into the
/// submission list. Pure, like every response routine.
pub fn submissions_response(outcome: HttpOutcome) -> (r: Result<Submissions, Error>)
    ensures
        spec_classified(outcome, r),
        outcome matches HttpOutcome::Response { status, body } ==> (is_success(status) ==> {
            &&& spec_submissions_ok(body@) ==> (r matches Ok(x) && spec_submissions_matches(x, body@))
            &&& !spec_submissions_ok(body@) ==> (r matches Err(e) && e.spec_kind() matches
                ErrorKind::ProgrammingError(_))
        }),
{
    match outcome {
        HttpOutcome::TransportFailure => classify(Exchange::NoResponse),
        HttpOutcome::Response { status, body } => {
            let typed = if 200 <= status && status < 300 {
                match decode_submissions(body.as_str()) {
                    Some(x) => BodyDecode::Decoded(x),
                    None => BodyDecode::Undecodable(decode_detail()),
                }
            } else {
                BodyDecode::Undecodable(String::new())
            };
            let message = if 400 <= status && status < 500 {
                message_decode(body.as_str())
            } else {
                BodyDecode::Undecodable(String::new())
            };
            classify(Exchange::Responded { status, typed, message })
        },
    }
}

/// Classify the outcome of a `source_submission` or
/// `delete_source_submission` plan into one submission. Pure, like every
/// response routine.
pub fn submission_response(outcome: HttpOutcome) -> (r: Result<Submission, Error>)
    ensures
        spec_classified(outcome, r),
        outcome matches HttpOutcome::Response { status, body } ==> (is_success(status) ==> {
            &&& spec_submission_ok(body@) ==> (r matches Ok(x) && spec_submission_matches(x, body@))
            &&& !spec_submission_ok(body@) ==> (r matches Err(e) && e.spec_kind() matches
                ErrorKind::ProgrammingError(_))
        }),
{
    match outcome {
        HttpOutcome::TransportFailure => classify(Exchange::NoResponse),
        HttpOutcome::Response { status, body } => {
            let typed = if 200 <= status && status < 300 {
                match decode_submission(body.as_str()) {
                    Some(x) => BodyDecode::Decoded(x),
                    None => BodyDecode::Undecodable(decode_detail()),
                }
            } else {
                BodyDecode::Undecodable(String::new())
            };
            let message = if 400 <= status && status < 500 {
                message_decode(body.as_str())
            } else {
                BodyDecode::Undecodable(String::new())
            };
            classify(Exchange::Responded { status, typed, message })
        },
    }
}

/// Classify the outcome of a plan whose response is the generic message
/// record (`reply_to_source`, `delete_submissions`, `star_source`,
/// `unstar_source`). Pure, like every response routine.
pub fn message_response(outcome: HttpOutcome) -> (r: Result<Response, Error>)
    ensures
        spec_classified(outcome, r),
        outcome matches HttpOutcome::Response { status, body } ==> (is_success(status) ==> {
            &&& spec_message_ok(body@) ==> (r matches Ok(x) && spec_message_matches(x, body@))
            &&& !spec_message_ok(body@) ==> (r matches Err(e) && e.spec_kind() matches
                ErrorKind::ProgrammingError(_))
        }),
{
    match outcome {
        HttpOutcome::TransportFailure => classify(Exchange::NoResponse),
        HttpOutcome::Response { status, body } => {
            let typed = if 200 <= status && status < 300 {
                match decode_response(body.as_str()) {
                    Some(x) => BodyDecode::Decoded(x),
                    None => BodyDecode::Undecodable(decode_detail()),
                }
            } else {
                BodyDecode::Undecodable(String::new())
            };
            let message = if 400 <= status && status < 500 {
                message_decode(body.as_str())
            } else {
                BodyDecode::Undecodable(String::new())
            };
            classify(Exchange::Responded { status, typed, message })
        },
    }
}

/// Classify the outcome of a `user` plan into the user record. Pure, like
/// every response routine.
pub fn user_response(outcome: HttpOutcome) -> (r: Result<User, Error>)
    ensures
        spec_classified(outcome, r),
        outcome matches HttpOutcome::Response { status, body } ==> (is_success(status) ==> {
            &&& spec_user_ok(body@) ==> (r matches Ok(x) && spec_user_matches(x, body@))
            &&& !spec_user_ok(body@) ==> (r matches Err(e) && e.spec_kind() matches
                ErrorKind::ProgrammingError(_))
        }),
{
    match outcome {
        HttpOutcome::TransportFailure => classify(Exchange::NoResponse),
        HttpOutcome::Response { status, body } => {
            let typed = if 200 <= status && status < 300 {
                match decode_user(body.as_str()) {
                    Some(x) => BodyDecode::Decoded(x),
                    None => BodyDecode::Undecodable(decode_detail()),
                }
            } else {
                BodyDecode::Undecodable(String::new())
            };
            let message = if 400 <= status && status < 500 {
                message_decode(body.as_str())
            } else {
                BodyDecode::Undecodable(String::new())
            };
            classify(Exchange::Responded { status, typed, message })
        },
    }
}

/// Classify the status and error body of a `download_submission`
/// dispatch. A successful status yields `Ok` — the payload itself is a
/// raw byte stream for the caller's sink, not a JSON body — and every
/// other outcome is classified as usual. Pure, like every response
/// routine.
pub fn download_response(outcome: HttpOutcome) -> (r: Result<(), Error>)
    ensures
        spec_classified(outcome, r),
        outcome matches HttpOutcome::Response { status, .. } && is_success(status) ==> r is Ok,
{
    match outcome {
        HttpOutcome::TransportFailure => classify(Exchange::NoResponse),
        HttpOutcome::Response { status, body } => {
            let typed = if 200 <= status && status < 300 {
                BodyDecode::Decoded(())
            } else {
                BodyDecode::Undecodable(String::new())
            };
            let message = if 400 <= status && status < 500 {
                message_decode(body.as_str())
            } else {
                BodyDecode::Undecodable(String::new())
            };
            classify(Exchange::Responded { status, typed, message })
        },
    }
}

} // verus!
