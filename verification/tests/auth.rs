use sshn::auth::{
    authorization_code, extract_authorization_code, AuthOptions, DEFAULT_WEBDRIVER_PORT,
    LOGIN_FORM_ID,
};
use sshn::error::Error;
use sshn::webdriver::WebDriver;

fn pairs(items: &[(&str, &str)]) -> Vec<(String, String)> {
    items
        .iter()
        .map(|(key, value)| (String::from(*key), String::from(*value)))
        .collect()
}

#[test]
fn code_is_read_off_the_redirect() {
    let code = extract_authorization_code("https://cb/callback?state=x&code=XYZ123").unwrap();
    assert_eq!(code, "XYZ123");
}

#[test]
fn redirect_without_a_code() {
    assert!(matches!(
        extract_authorization_code("https://cb/callback?state=x"),
        Err(Error::MissingAuthCode)
    ));
    assert!(matches!(
        extract_authorization_code("https://cb/callback"),
        Err(Error::MissingAuthCode)
    ));
    assert!(matches!(
        extract_authorization_code("https://cb/callback?error=access_denied&codex=1"),
        Err(Error::MissingAuthCode)
    ));
    assert!(matches!(
        extract_authorization_code("https://cb/callback#code=XYZ123"),
        Err(Error::MissingAuthCode)
    ));
}

#[test]
fn redirect_that_is_no_url() {
    assert!(matches!(
        extract_authorization_code("callback?code=XYZ123"),
        Err(Error::ParseUrl(_))
    ));
    assert!(matches!(
        extract_authorization_code(""),
        Err(Error::ParseUrl(_))
    ));
}

#[test]
fn first_code_is_taken() {
    let code = extract_authorization_code("https://cb/callback?code=first&code=second").unwrap();
    assert_eq!(code, "first");
}

#[test]
fn code_is_decoded() {
    let code = extract_authorization_code("https://cb/callback?code=a%2Fb+c&state=x").unwrap();
    assert_eq!(code, "a/b c");
}

#[test]
fn empty_code_is_a_code() {
    let code = extract_authorization_code("https://cb/callback?code=&state=x").unwrap();
    assert_eq!(code, "");
}

#[test]
fn code_among_pairs() {
    assert_eq!(authorization_code(&pairs(&[])), None);
    assert_eq!(authorization_code(&pairs(&[("state", "x")])), None);
    assert_eq!(
        authorization_code(&pairs(&[("state", "x"), ("code", "c1"), ("code", "c2")])),
        Some(String::from("c1"))
    );
    assert_eq!(
        authorization_code(&pairs(&[("Code", "upper"), ("code ", "space"), ("code", "plain")])),
        Some(String::from("plain"))
    );
    assert_eq!(
        authorization_code(&pairs(&[("code", "only")])),
        Some(String::from("only"))
    );
}

#[test]
fn default_options() {
    let options = AuthOptions::default();
    assert_eq!(options.chosen_webdriver(), WebDriver::Chromium);
    assert_eq!(options.chosen_port(), 4444);
    assert_eq!(options.chosen_login_base_url(), None);
    assert_eq!(DEFAULT_WEBDRIVER_PORT, 4444);
    assert_eq!(LOGIN_FORM_ID, "kc-form-login");
}

#[test]
fn options_are_set_one_by_one() {
    let options = AuthOptions::default().webdriver(WebDriver::Gecko);
    assert_eq!(options.chosen_webdriver(), WebDriver::Gecko);
    assert_eq!(options.chosen_port(), 4444);
    assert_eq!(options.chosen_login_base_url(), None);

    let options = options.webdriver_port(9515);
    assert_eq!(options.chosen_webdriver(), WebDriver::Gecko);
    assert_eq!(options.chosen_port(), 9515);
    assert_eq!(options.chosen_login_base_url(), None);

    let options = options.login_base_url(String::from("https://idp.example/auth"));
    assert_eq!(options.chosen_webdriver(), WebDriver::Gecko);
    assert_eq!(options.chosen_port(), 9515);
    assert_eq!(options.chosen_login_base_url(), Some("https://idp.example/auth"));

    let options = options.webdriver(WebDriver::Chromium);
    assert_eq!(options.chosen_webdriver(), WebDriver::Chromium);
    assert_eq!(options.chosen_port(), 9515);
    assert_eq!(options.chosen_login_base_url(), Some("https://idp.example/auth"));
}
