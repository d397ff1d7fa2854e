use crate::codec::{pairs_view, parse_query_pairs, url_query_pairs, Pair};
use crate::error::Error;
use crate::webdriver::WebDriver;
use vstd::prelude::*;
use vstd::string::StringExecFns;

verus! {

/// Identifier of the identity provider's login form.
pub const LOGIN_FORM_ID: &'static str = "kc-form-login";

/// Port on which the driver listens unless another is asked for.
pub const DEFAULT_WEBDRIVER_PORT: u16 = 4444;

/// What an [`AuthOptions`] value stands for.
pub struct AuthOptionsView {
    pub webdriver: WebDriver,
    pub webdriver_port: u16,
    pub login_base_url: Option<Seq<char>>,
}

/// How an interactive login is to be run.
#[derive(Debug)]
pub struct AuthOptions {
    webdriver: WebDriver,
    webdriver_port: u16,
    login_base_url: Option<String>,
}

impl View for AuthOptions {
    type V = AuthOptionsView;

    closed spec fn view(&self) -> AuthOptionsView {
        AuthOptionsView {
            webdriver: self.webdriver,
            webdriver_port: self.webdriver_port,
            login_base_url: match self.login_base_url {
                Some(url) => Some(url@),
                None => None,
            },
        }
    }
}

impl Default for AuthOptions {
    /// Chromium's driver on the default port, with the authorization
    /// endpoint left to discovery.
    fn default() -> (options: Self)
        ensures
            options@ == (AuthOptionsView {
                webdriver: WebDriver::Chromium,
                webdriver_port: DEFAULT_WEBDRIVER_PORT,
                login_base_url: None,
            }),
    {
        AuthOptions {
            login_base_url: None,
            webdriver: WebDriver::Chromium,
            webdriver_port: DEFAULT_WEBDRIVER_PORT,
        }
    }
}

impl AuthOptions {
    /// The same options with another driver.
    pub fn webdriver(self, webdriver: WebDriver) -> (options: Self)
        ensures
            options@ == (AuthOptionsView { webdriver, ..self@ }),
    {
        AuthOptions {
            webdriver,
            webdriver_port: self.webdriver_port,
            login_base_url: self.login_base_url,
        }
    }

    /// The same options with another port.
    pub fn webdriver_port(self, webdriver_port: u16) -> (options: Self)
        ensures
            options@ == (AuthOptionsView { webdriver_port, ..self@ }),
    {
        AuthOptions {
            webdriver: self.webdriver,
            webdriver_port,
            login_base_url: self.login_base_url,
        }
    }

    /// The same options with a given authorization endpoint.
    pub fn login_base_url(self, login_base_url: String) -> (options: Self)
        ensures
            options@ == (AuthOptionsView { login_base_url: Some(login_base_url@), ..self@ }),
    {
        AuthOptions {
            webdriver: self.webdriver,
            webdriver_port: self.webdriver_port,
            login_base_url: Some(login_base_url),
        }
    }

    /// The authorization endpoint, where one was given.
    pub fn chosen_login_base_url(&self) -> (url: Option<&str>)
        ensures
            url is Some <==> self@.login_base_url is Some,
            url is Some ==> url.unwrap()@ == self@.login_base_url.unwrap(),
    {
        match &self.login_base_url {
            Some(url) => Some(url.as_str()),
            None => None,
        }
    }

    pub fn chosen_webdriver(&self) -> (webdriver: WebDriver)
        ensures
            webdriver == self@.webdriver,
    {
        self.webdriver
    }

    pub fn chosen_port(&self) -> (port: u16)
        ensures
            port == self@.webdriver_port,
    {
        self.webdriver_port
    }
}

/// The value of the first pair whose key is `code`.
pub open spec fn first_code(pairs: Seq<(Seq<char>, Seq<char>)>) -> Option<Seq<char>>
    decreases pairs.len(),
{
    if pairs.len() == 0 {
        None
    } else if pairs[0].0 == "code"@ {
        Some(pairs[0].1)
    } else {
        first_code(pairs.skip(1))
    }
}

/// Finds the authorization code among the pairs of a redirect's query.
pub fn authorization_code(pairs: &Vec<Pair>) -> (code: Option<String>)
    ensures
        code is Some <==> first_code(pairs_view(pairs@)) is Some,
        code is Some ==> code.unwrap()@ == first_code(pairs_view(pairs@)).unwrap(),
{
    let key = String::from_str("code");
    let mut index: usize = 0;
    assert(pairs_view(pairs@).skip(0) =~= pairs_view(pairs@));
    while index < pairs.len()
        invariant
            index <= pairs.len(),
            key@ == "code"@,
            first_code(pairs_view(pairs@)) == first_code(pairs_view(pairs@).skip(index as int)),
        decreases pairs.len() - index,
    {
        let ghost rest = pairs_view(pairs@).skip(index as int);
        assert(rest[0] == (pairs@[index as int].0@, pairs@[index as int].1@));
        if pairs[index].0 == key {
            return Some(pairs[index].1.clone());
        }
        assert(rest.skip(1) =~= pairs_view(pairs@).skip(index + 1));
        index += 1;
    }
    None
}

/// What reading the authorization code off a redirect comes to: a text
/// that is no URL is refused, a URL without a `code` parameter has no
/// code, and otherwise the code is the value of the first such parameter.
pub open spec fn code_outcome(redirect: Seq<char>, code: Result<String, Error>) -> bool {
    match url_query_pairs(redirect) {
        None => code matches Err(Error::ParseUrl(_)),
        Some(pairs) => match first_code(pairs) {
            Some(value) => code matches Ok(text) && text@ == value,
            None => code matches Err(Error::MissingAuthCode),
        },
    }
}

/// Reads the authorization code off the URL that the login redirected to.
pub fn extract_authorization_code(redirect: &str) -> (code: Result<String, Error>)
    ensures
        code_outcome(redirect@, code),
{
    match parse_query_pairs(redirect) {
        Err(error) => Err(Error::ParseUrl(error)),
        Ok(pairs) => match authorization_code(&pairs) {
            Some(code) => Ok(code),
            None => Err(Error::MissingAuthCode),
        },
    }
}

} // verus!
