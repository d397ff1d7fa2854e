use crate::text::{decimal, decimal_text, joined};
use vstd::prelude::*;
use vstd::string::StringExecFns;

verus! {

/// `url::ParseError`, the reason `url` gives for refusing a string. Carried
/// through unread.
#[verifier::external_type_specification]
#[verifier::external_body]
pub struct ExUrlParseError(url::ParseError);

/// Every way in which authentication and session handling can fail.
///
/// Failures that arise outside this crate (form encoding, transport, browser
/// automation, secret store, JSON) arrive as their rendered message.
#[derive(Debug)]
pub enum Error {
    /// The portal's API answered with an error of its own.
    Api(String),
    /// The API's answer holds no list of publications.
    MissingPublications,
    /// The token request could not be form-encoded; the encoder's message.
    EncodeFormData(String),
    /// The HTTP transport failed before an answer was received.
    HttpRequest(String),
    /// The identity provider answered a token request with a non-success
    /// status; `body` is what it sent.
    IdentityProviderRejected { status: u16, body: String },
    /// The identity provider's answer gives a lifetime that leads out of the
    /// range of instants.
    LifetimeOutOfRange,
    /// Neither the access token nor the refresh token is still valid.
    TokenExpired,
    /// No authorization endpoint is configured and discovery returned none.
    NoAuthUrl,
    /// The base authorization URL is not a valid URL.
    ParseUrl(url::ParseError),
    /// A part of the authorization URL is longer than the URL builder takes.
    UrlTooLong,
    /// The redirect after the login form carried no `code` parameter.
    MissingAuthCode,
    /// Nothing is stored from which a session could be resumed.
    MissingCredentials,
    /// The automation driver did not become reachable in time.
    WebDriverStart,
    /// No automation session could be opened on the running driver.
    NewWebDriverSession(String),
    /// A browser command failed.
    HeadlessBrowser(String),
    /// The secret store refused a read or a write.
    Keyring(String),
    /// A stored or received document could not be decoded.
    Json(String),
    /// Starting or stopping the driver process failed.
    Io(String),
}

pub type Result<T> = core::result::Result<T, Error>;

/// `url::ParseError` rendered by its `Display`, which gives one fixed
/// sentence per reason.
#[verifier::external_body]
fn parse_error_text(error: &url::ParseError) -> String {
    error.to_string()
}

/// The sentence that introduces an error, before any detail.
pub open spec fn error_heading(error: Error) -> Seq<char> {
    match error {
        Error::Api(_) => "Error from SSHN API: "@,
        Error::MissingPublications => "SSHN API did not return any publications"@,
        Error::EncodeFormData(_) => "Error encoding form data: "@,
        Error::HttpRequest(_) => "Error sending HTTP request: "@,
        Error::IdentityProviderRejected { .. } => "The identity provider rejected the request with status "@,
        Error::LifetimeOutOfRange => "The identity provider returned a token lifetime that is out of range"@,
        Error::TokenExpired => "The refresh token expired"@,
        Error::NoAuthUrl => "The authentication endpoint is missing"@,
        Error::ParseUrl(_) => "Failed to parse url: "@,
        Error::UrlTooLong => "The login url is too long"@,
        Error::MissingAuthCode => "SSHN Api did not return valid authorization code"@,
        Error::MissingCredentials => "Missing username and password credentials"@,
        Error::WebDriverStart => "Failed to start web driver"@,
        Error::NewWebDriverSession(_) => "Failed to create new web driver session: "@,
        Error::HeadlessBrowser(_) => "Failed communicating with browser: "@,
        Error::Keyring(_) => "Keyring error: "@,
        Error::Json(_) => "Failed to serialize/deserialize JSON: "@,
        Error::Io(_) => "IO error: "@,
    }
}

/// The detail that follows the heading, where the error carries one that
/// this crate can read.
pub open spec fn error_detail(error: Error) -> Seq<char> {
    match error {
        Error::Api(text) => text@,
        Error::EncodeFormData(text) => text@,
        Error::HttpRequest(text) => text@,
        Error::IdentityProviderRejected { status, body } => decimal_text(status as nat) + ": "@
            + body@,
        Error::NewWebDriverSession(text) => text@,
        Error::HeadlessBrowser(text) => text@,
        Error::Keyring(text) => text@,
        Error::Json(text) => text@,
        Error::Io(text) => text@,
        _ => Seq::empty(),
    }
}

impl Error {
    /// The error in words: its heading, followed by its detail. For a URL
    /// that did not parse the detail is the parser's own sentence.
    pub fn message(&self) -> (text: String)
        ensures
            !(self is ParseUrl) ==> text@ == error_heading(*self) + error_detail(*self),
            self is ParseUrl ==> exists|reason: Seq<char>| text@ == error_heading(*self) + reason,
    {
        let text = match self {
            Error::Api(detail) => joined("Error from SSHN API: ", detail.as_str()),
            Error::MissingPublications => String::from_str(
                "SSHN API did not return any publications",
            ),
            Error::EncodeFormData(detail) => joined("Error encoding form data: ", detail.as_str()),
            Error::HttpRequest(detail) => joined("Error sending HTTP request: ", detail.as_str()),
            Error::IdentityProviderRejected { status, body } => {
                let number = decimal(*status as u64);
                let mut text = joined(
                    "The identity provider rejected the request with status ",
                    number.as_str(),
                );
                text.append(": ");
                text.append(body.as_str());
                assert(text@ =~= error_heading(*self) + error_detail(*self));
                text
            },
            Error::LifetimeOutOfRange => String::from_str(
                "The identity provider returned a token lifetime that is out of range",
            ),
            Error::TokenExpired => String::from_str("The refresh token expired"),
            Error::NoAuthUrl => String::from_str("The authentication endpoint is missing"),
            Error::ParseUrl(reason) => {
                let detail = parse_error_text(reason);
                let text = joined("Failed to parse url: ", detail.as_str());
                assert(text@ == error_heading(*self) + detail@);
                text
            },
            Error::UrlTooLong => String::from_str("The login url is too long"),
            Error::MissingAuthCode => String::from_str(
                "SSHN Api did not return valid authorization code",
            ),
            Error::MissingCredentials => String::from_str(
                "Missing username and password credentials",
            ),
            Error::WebDriverStart => String::from_str("Failed to start web driver"),
            Error::NewWebDriverSession(detail) => joined(
                "Failed to create new web driver session: ",
                detail.as_str(),
            ),
            Error::HeadlessBrowser(detail) => joined(
                "Failed communicating with browser: ",
                detail.as_str(),
            ),
            Error::Keyring(detail) => joined("Keyring error: ", detail.as_str()),
            Error::Json(detail) => joined("Failed to serialize/deserialize JSON: ", detail.as_str()),
            Error::Io(detail) => joined("IO error: ", detail.as_str()),
        };
        assert(text@ + Seq::<char>::empty() =~= text@);
        text
    }
}

} // verus!
