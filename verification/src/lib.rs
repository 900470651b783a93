//! Client-side core of a whistleblower-submission platform's REST API.
//!
//! The crate models the authenticated request pipeline of the API: a
//! credential-to-token exchange, token-based request dispatch, and the
//! classification of raw HTTP outcomes into typed results or typed errors.
//! The engine itself performs no I/O: every operation yields a request plan
//! describing the HTTP request to send, and a matching response routine
//! turns the raw outcome (status and body text) back into a typed value or
//! a typed error.

pub mod auth;
pub mod client;
pub mod data;
pub mod error;
pub mod text;
pub mod wire;

pub use client::Client;
pub use error::{Error, ErrorKind};
