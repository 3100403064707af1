//! Client-side logic for a municipal parking-permit service: logging in,
//! reading the account's permits and parking sessions from the service's
//! pages and answers, and building the requests that list, start and stop
//! sessions.
//!
//! The library decides; the caller talks to the network. Each operation
//! either reads an answer the caller received or describes a request
//! ([`request::HttpRequest`]) for the caller to send. Logging in is a short
//! conversation driven by [`login::Login`].
pub mod client;
pub mod error;
pub mod json;
pub mod laws;
pub mod login;
pub mod pattern;
pub mod request;
pub mod service_laws;
pub mod session;
pub mod text;
pub mod time;

pub use client::{Client, Credentials, Permit};
pub use error::{Error, Result};
pub use session::{LicensePlate, Session};
