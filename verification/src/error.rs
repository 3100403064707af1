//! The library's error type.
use vstd::prelude::*;
use regex::Error as RegexError;
use reqwest::Error as HttpError;
use serde_json::Error as JsonError;

verus! {

/// An error from the HTTP client.
#[verifier::external_type_specification]
#[verifier::external_body]
pub struct ExHttpError(HttpError);

/// An error from date-time parsing.
#[verifier::external_type_specification]
#[verifier::external_body]
pub struct ExDateTimeParseError(chrono::ParseError);

/// An error from decimal integer parsing.
#[verifier::external_type_specification]
#[verifier::external_body]
pub struct ExParseIntError(std::num::ParseIntError);

/// An error from JSON decoding or encoding.
#[verifier::external_type_specification]
#[verifier::external_body]
pub struct ExJsonError(JsonError);

/// An error from the regular-expression engine: a pattern it refused.
#[verifier::external_type_specification]
#[verifier::external_body]
pub struct ExRegexError(RegexError);

/// Everything that can go wrong while talking to the parking service.
#[derive(Debug)]
pub enum Error {
    /// The HTTP exchange failed.
    Reqwest(HttpError),
    /// A date-time in an answer did not have the expected shape.
    ChronoParse(chrono::ParseError),
    /// A number in a page could not be read.
    ParseInt(std::num::ParseIntError),
    /// An answer was not valid JSON.
    SerdeJson(JsonError),
    /// A search pattern was refused.
    Regex(RegexError),
    /// A member of a JSON answer was missing or had the wrong type.
    InvalidIndex,
    /// The credentials were rejected.
    Credentials(String),
    /// The customer page did not show a customer number.
    CustomerIdNotAvailable,
    /// The customer page did not list any permits.
    NoPermitsFound,
    /// Stored cookies could not be read.
    CookieLoading(String),
    /// The login page did not carry a verification token.
    VerificationTokenMissing,
    /// A required setting was missing from the environment.
    EnvironmentVariable(String),
    /// The service refused a request; the text explains why.
    Custom(String),
    /// Cannot occur.
    Infillable(std::convert::Infallible),
}

/// The result of a library operation.
pub type Result<T> = std::result::Result<T, Error>;

} // verus!
