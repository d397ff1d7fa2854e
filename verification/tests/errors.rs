use sshn::error::Error;
use sshn::utils::generate_auth_url;

#[test]
fn messages_of_errors_without_detail() {
    assert_eq!(Error::TokenExpired.message(), "The refresh token expired");
    assert_eq!(
        Error::NoAuthUrl.message(),
        "The authentication endpoint is missing"
    );
    assert_eq!(
        Error::MissingAuthCode.message(),
        "SSHN Api did not return valid authorization code"
    );
    assert_eq!(
        Error::MissingCredentials.message(),
        "Missing username and password credentials"
    );
    assert_eq!(Error::WebDriverStart.message(), "Failed to start web driver");
    assert_eq!(Error::UrlTooLong.message(), "The login url is too long");
    assert_eq!(
        Error::MissingPublications.message(),
        "SSHN API did not return any publications"
    );
    assert_eq!(
        Error::LifetimeOutOfRange.message(),
        "The identity provider returned a token lifetime that is out of range"
    );
}

#[test]
fn messages_of_errors_with_detail() {
    assert_eq!(
        Error::Api(String::from("already applied")).message(),
        "Error from SSHN API: already applied"
    );
    assert_eq!(
        Error::EncodeFormData(String::from("unsupported value")).message(),
        "Error encoding form data: unsupported value"
    );
    assert_eq!(
        Error::HttpRequest(String::from("timeout")).message(),
        "Error sending HTTP request: timeout"
    );
    assert_eq!(
        Error::NewWebDriverSession(String::from("refused")).message(),
        "Failed to create new web driver session: refused"
    );
    assert_eq!(
        Error::HeadlessBrowser(String::from("no such element")).message(),
        "Failed communicating with browser: no such element"
    );
    assert_eq!(
        Error::Keyring(String::from("locked")).message(),
        "Keyring error: locked"
    );
    assert_eq!(
        Error::Json(String::from("EOF")).message(),
        "Failed to serialize/deserialize JSON: EOF"
    );
    assert_eq!(Error::Io(String::from("denied")).message(), "IO error: denied");
    assert_eq!(Error::Api(String::new()).message(), "Error from SSHN API: ");
}

#[test]
fn message_of_a_rejection() {
    let error = Error::IdentityProviderRejected {
        status: 401,
        body: String::from("invalid_grant"),
    };
    assert_eq!(
        error.message(),
        "The identity provider rejected the request with status 401: invalid_grant"
    );
}

#[test]
fn message_of_a_url_that_did_not_parse() {
    let error = generate_auth_url("no-scheme", "abc").unwrap_err();
    let expected = url::Url::parse("no-scheme").unwrap_err().to_string();
    assert_eq!(
        error.message(),
        format!("Failed to parse url: {}", expected)
    );
    assert_eq!(
        error.message(),
        "Failed to parse url: relative URL without a base"
    );
}
