use crate::auth::{
    code_outcome, extract_authorization_code, AuthOptions, AuthOptionsView, LOGIN_FORM_ID,
};
use crate::client::{
    exchange_outcome, tokens_from_reply, AuthenticatedClient, Grant, LoginType, TokenReply,
};
use crate::codec::all_alphanumeric;
use crate::constants::GRAPHQL_URL;
use crate::error::Error;
use crate::secrets::{Credentials, CredentialsView};
use crate::text::decimal_text;
use crate::tokens::Tokens;
use crate::utils::{
    fresh_auth_url, generate_auth_url, get_code_challenge, pkce_challenge, VERIFIER_LENGTH,
};
use crate::webdriver::{session_url, LaunchFailure, WebDriver};
use vstd::prelude::*;
use vstd::string::StringExecFns;

verus! {

/// Where an interactive login stands.
#[derive(Debug)]
pub enum LoginStage {
    /// The authorization endpoint is being discovered.
    Discovering,
    /// The driver is being started.
    Launching,
    /// An automation session is being opened on the running driver.
    Connecting,
    /// The browser is being sent to the login page.
    Navigating,
    /// The login form is being looked up.
    FindingForm,
    /// The user name is being entered.
    FillingUsername,
    /// The password is being entered.
    FillingPassword,
    /// The form is being submitted.
    Submitting,
    /// The address that the browser ended on is being read.
    ReadingUrl,
    /// The automation session is being closed.
    ClosingSession,
    /// The driver process is being killed.
    Killing,
    /// The authorization code is being exchanged.
    Exchanging,
    /// The credentials are being written to the store.
    StoringCredentials(AuthenticatedClient),
    /// The new tokens are being written to the store.
    StoringTokens(AuthenticatedClient),
    /// The login is over.
    Finished,
}

impl LoginStage {
    /// Whether a driver process that this login started exists.
    pub open spec fn driver_running(self) -> bool {
        self is Connecting || self is Navigating || self is FindingForm || self is FillingUsername
            || self is FillingPassword || self is Submitting || self is ReadingUrl
            || self is ClosingSession || self is Killing
    }

    /// Whether an automation session is open.
    pub open spec fn session_open(self) -> bool {
        self is Navigating || self is FindingForm || self is FillingUsername
            || self is FillingPassword || self is Submitting || self is ReadingUrl
            || self is ClosingSession
    }
}

/// What the caller reports back after performing an action.
#[derive(Debug)]
pub enum LoginEvent {
    /// Discovery answered, with or without an authorization endpoint.
    Discovered(Option<String>),
    /// The driver is running and reachable.
    DriverReady,
    /// The driver could not be brought up and no process is left; `detail`
    /// is the system's message where the process could not be started.
    DriverFailed { failure: LaunchFailure, detail: String },
    /// The action was carried out.
    Done,
    /// The action failed with this message.
    Failed(String),
    /// The address that the browser is on.
    Url(String),
    /// The reply to the token request.
    Replied(TokenReply),
}

/// What the caller is to do next.
#[derive(Debug)]
pub enum LoginAction {
    /// Ask the identity provider's discovery for the authorization endpoint.
    Discover,
    /// Start this driver on this port and wait until it answers.
    Launch { webdriver: WebDriver, port: u16 },
    /// Open an automation session on the driver at this address.
    OpenSession(String),
    /// Send the browser to this address.
    Goto(String),
    /// Look up the form with this identifier.
    FindForm(String),
    /// Set the form's field of this name to this value.
    SetField { name: String, value: String },
    /// Submit the form.
    Submit,
    /// Read the address that the browser is on.
    ReadUrl,
    /// Close the automation session.
    CloseSession,
    /// Kill the driver process.
    KillDriver,
    /// Post the token request for this grant.
    Exchange(LoginType),
    /// Write these credentials to the credentials record.
    StoreCredentials(Credentials),
    /// Write these tokens to the tokens record.
    StoreTokens(Tokens),
    /// Use this session.
    Ready(AuthenticatedClient),
    /// Give up for this reason.
    Fail(Error),
    /// The report did not answer what was asked; nothing has changed.
    Rejected,
}

/// What a [`LoginFlow`] stands for.
pub struct LoginFlowView {
    pub stage: LoginStage,
    pub credentials: CredentialsView,
    pub options: AuthOptionsView,
    /// The PKCE challenge of this attempt.
    pub challenge: Seq<char>,
    /// The PKCE verifier of this attempt.
    pub verifier: Seq<char>,
    /// The authorization URL, once it is built.
    pub login_url: Seq<char>,
    /// The address that the browser ended on, once it is read.
    pub callback: Option<Seq<char>>,
    /// The first failure since the driver was started.
    pub failure: Option<Error>,
}

/// One attempt at an interactive login. It holds its own PKCE pair and
/// hands the verifier out only with the authorization code: there is no
/// way to read it off the flow.
pub struct LoginFlow {
    stage: LoginStage,
    credentials: Credentials,
    options: AuthOptions,
    challenge: String,
    verifier: String,
    login_url: String,
    callback: Option<String>,
    failure: Option<Error>,
}

impl View for LoginFlow {
    type V = LoginFlowView;

    closed spec fn view(&self) -> LoginFlowView {
        LoginFlowView {
            stage: self.stage,
            credentials: self.credentials@,
            options: self.options@,
            challenge: self.challenge@,
            verifier: self.verifier@,
            login_url: self.login_url@,
            callback: match self.callback {
                Some(url) => Some(url@),
                None => None,
            },
            failure: self.failure,
        }
    }
}

/// Whether two flows work on the same attempt: same account, same options,
/// same PKCE pair.
pub open spec fn same_attempt(old: LoginFlowView, new: LoginFlowView) -> bool {
    &&& new.credentials == old.credentials
    &&& new.options == old.options
    &&& new.challenge == old.challenge
    &&& new.verifier == old.verifier
}

/// Whether `new` differs from `old` in nothing but the stage.
pub open spec fn moved_on(old: LoginFlowView, new: LoginFlowView) -> bool {
    &&& same_attempt(old, new)
    &&& new.login_url == old.login_url
    &&& new.callback == old.callback
    &&& new.failure == old.failure
}

/// What resolving the authorization URL for `base` comes to: the URL is
/// built with fresh one-time values and the driver is asked for, or the
/// login ends with the builder's refusal.
pub open spec fn resolved(old: LoginFlowView, base: Seq<char>, new: LoginFlowView, action: LoginAction) -> bool {
    &&& same_attempt(old, new)
    &&& new.callback == old.callback
    &&& new.failure == old.failure
    &&& exists|built: Result<String, Error>| #[trigger]
        fresh_auth_url(base, old.challenge, built) && match built {
            Ok(url) => new.stage is Launching && new.login_url == url@ && action == (
            LoginAction::Launch {
                webdriver: old.options.webdriver,
                port: old.options.webdriver_port,
            }),
            Err(error) => new.stage is Finished && new.login_url == old.login_url && action
                == LoginAction::Fail(error),
        }
}

/// What a failure comes to while the driver runs: it is kept, unless an
/// earlier one is, and the teardown begins, with the session where one is
/// open and with the driver where none is.
pub open spec fn torn_down(old: LoginFlowView, error: Error, new: LoginFlowView, action: LoginAction) -> bool {
    &&& same_attempt(old, new)
    &&& new.login_url == old.login_url
    &&& new.callback == old.callback
    &&& new.failure == Some(
        match old.failure {
            Some(first) => first,
            None => error,
        },
    )
    &&& if old.stage.session_open() && !(old.stage is ClosingSession) {
        new.stage is ClosingSession && action is CloseSession
    } else {
        new.stage is Killing && action is KillDriver
    }
}

/// What the login comes to once the driver is gone: a failure that was
/// kept surfaces and ends it; otherwise the authorization code is read off the address
/// that the browser ended on and offered for exchange together with the
/// verifier, and a redirect without a code ends the login.
pub open spec fn concluded(old: LoginFlowView, failure: Option<Error>, new: LoginFlowView, action: LoginAction) -> bool {
    &&& same_attempt(old, new)
    &&& new.login_url == old.login_url
    &&& new.callback == old.callback
    &&& new.failure is None
    &&& match failure {
        Some(error) => new.stage is Finished && action == LoginAction::Fail(error),
        None => match old.callback {
            None => new.stage is Finished && action == LoginAction::Fail(Error::MissingAuthCode),
            Some(redirect) => code_offered(redirect, old.verifier, new.stage, action),
        },
    }
}

/// What reading the redirect comes to: its authorization code is offered
/// for exchange together with the verifier, or the login ends because the
/// redirect holds none.
pub open spec fn code_offered(
    redirect: Seq<char>,
    verifier: Seq<char>,
    stage: LoginStage,
    action: LoginAction,
) -> bool {
    exists|code: Result<String, Error>| #[trigger]
        code_outcome(redirect, code) && match code {
            Ok(text) => action matches LoginAction::Exchange(login) && stage is Exchanging
                && login@ == (Grant::AuthCode { code: text@, verifier }),
            Err(error) => stage is Finished && action == LoginAction::Fail(error),
        }
}

/// What one step of an interactive login comes to.
///
/// The stages follow each other in a fixed order: the authorization URL is
/// resolved, the driver is started, a session is opened, the browser is
/// sent to the login page, the form is found, filled and submitted, the
/// address that the browser ends on is read, the session is closed and the
/// driver is killed, the authorization code is exchanged, and credentials
/// and tokens are written to the store. A failure before the driver runs
/// ends the login at once. A failure while it runs is kept and leads into
/// the teardown; it surfaces only when the driver is gone. Nothing is tried
/// twice.
pub open spec fn login_outcome(
    old: LoginFlowView,
    event: LoginEvent,
    now: int,
    new: LoginFlowView,
    action: LoginAction,
) -> bool {
    match (old.stage, event) {
        (LoginStage::Discovering, LoginEvent::Discovered(Some(base))) => resolved(
            old,
            base@,
            new,
            action,
        ),
        (LoginStage::Discovering, LoginEvent::Discovered(None)) => moved_on(old, new)
            && new.stage is Finished && action == LoginAction::Fail(Error::NoAuthUrl),
        (LoginStage::Discovering, LoginEvent::Failed(message)) => moved_on(old, new)
            && new.stage is Finished && action == LoginAction::Fail(Error::HttpRequest(message)),
        (LoginStage::Launching, LoginEvent::DriverReady) => action matches LoginAction::OpenSession(
            address,
        ) && moved_on(old, new) && new.stage is Connecting && address@ == "http://localhost:"@
            + decimal_text(old.options.webdriver_port as nat),
        (LoginStage::Launching, LoginEvent::DriverFailed { failure, detail }) => moved_on(old, new)
            && new.stage is Finished && action == LoginAction::Fail(
            match failure {
                LaunchFailure::Spawn => Error::Io(detail),
                LaunchFailure::Unreachable => Error::WebDriverStart,
            },
        ),
        (LoginStage::Connecting, LoginEvent::Done) => action matches LoginAction::Goto(address)
            && moved_on(old, new) && new.stage is Navigating && address@ == old.login_url,
        (LoginStage::Connecting, LoginEvent::Failed(message)) => torn_down(
            old,
            Error::NewWebDriverSession(message),
            new,
            action,
        ),
        (LoginStage::Navigating, LoginEvent::Done) => action matches LoginAction::FindForm(form)
            && moved_on(old, new) && new.stage is FindingForm && form@ == LOGIN_FORM_ID@,
        (LoginStage::FindingForm, LoginEvent::Done) => action matches LoginAction::SetField {
            name,
            value,
        } && moved_on(old, new) && new.stage is FillingUsername && name@ == "username"@ && value@
            == old.credentials.username,
        (LoginStage::FillingUsername, LoginEvent::Done) => action matches LoginAction::SetField {
            name,
            value,
        } && moved_on(old, new) && new.stage is FillingPassword && name@ == "password"@ && value@
            == old.credentials.password,
        (LoginStage::FillingPassword, LoginEvent::Done) => moved_on(old, new)
            && new.stage is Submitting && action is Submit,
        (LoginStage::Submitting, LoginEvent::Done) => moved_on(old, new) && new.stage is ReadingUrl
            && action is ReadUrl,
        (LoginStage::ReadingUrl, LoginEvent::Url(address)) => same_attempt(old, new)
            && new.login_url == old.login_url && new.failure == old.failure && new.callback == Some(
            address@,
        ) && new.stage is ClosingSession && action is CloseSession,
        (LoginStage::Navigating, LoginEvent::Failed(message))
        | (LoginStage::FindingForm, LoginEvent::Failed(message))
        | (LoginStage::FillingUsername, LoginEvent::Failed(message))
        | (LoginStage::FillingPassword, LoginEvent::Failed(message))
        | (LoginStage::Submitting, LoginEvent::Failed(message))
        | (LoginStage::ReadingUrl, LoginEvent::Failed(message))
        | (LoginStage::ClosingSession, LoginEvent::Failed(message)) => torn_down(
            old,
            Error::HeadlessBrowser(message),
            new,
            action,
        ),
        (LoginStage::ClosingSession, LoginEvent::Done) => moved_on(old, new) && new.stage is Killing
            && action is KillDriver,
        (LoginStage::Killing, LoginEvent::Done) => concluded(old, old.failure, new, action),
        (LoginStage::Killing, LoginEvent::Failed(message)) => concluded(
            old,
            Some(
                match old.failure {
                    Some(first) => first,
                    None => Error::Io(message),
                },
            ),
            new,
            action,
        ),
        (LoginStage::Exchanging, LoginEvent::Replied(reply)) => moved_on(old, new) && match action {
            LoginAction::StoreCredentials(written) => new.stage matches LoginStage::StoringCredentials(
                session,
            ) && written@ == old.credentials && session@.api == GRAPHQL_URL@ && exists|
                pair: Tokens,
            | #[trigger] exchange_outcome(reply, now, Ok(pair)) && session@.tokens == pair@,
            LoginAction::Fail(error) => exchange_outcome(reply, now, Err(error))
                && new.stage is Finished,
            _ => false,
        },
        (LoginStage::StoringCredentials(session), LoginEvent::Done) => action matches LoginAction::StoreTokens(
            written,
        ) && moved_on(old, new) && new.stage == LoginStage::StoringTokens(session) && written@
            == session@.tokens,
        (LoginStage::StoringTokens(session), LoginEvent::Done) => moved_on(old, new)
            && new.stage is Finished && action == LoginAction::Ready(session),
        (LoginStage::StoringCredentials(_), LoginEvent::Failed(message))
        | (LoginStage::StoringTokens(_), LoginEvent::Failed(message)) => moved_on(old, new)
            && new.stage is Finished && action == LoginAction::Fail(Error::Keyring(message)),
        _ => new == old && action is Rejected,
    }
}

impl LoginFlow {
    /// Begins an attempt: draws a fresh PKCE pair and either builds the
    /// authorization URL on the endpoint that the options name, or asks for
    /// the endpoint to be discovered.
    pub fn begin(username: String, password: String, options: AuthOptions) -> (begun: (
        Self,
        LoginAction,
    ))
        ensures
            begun.0@.credentials == (CredentialsView { username: username@, password: password@ }),
            begun.0@.options == options@,
            begun.0@.challenge == pkce_challenge(begun.0@.verifier),
            begun.0@.verifier.len() == VERIFIER_LENGTH,
            all_alphanumeric(begun.0@.verifier),
            begun.0@.callback is None,
            begun.0@.failure is None,
            match options@.login_base_url {
                Some(base) => resolved(
                    LoginFlowView {
                        stage: LoginStage::Discovering,
                        login_url: Seq::<char>::empty(),
                        ..begun.0@
                    },
                    base,
                    begun.0@,
                    begun.1,
                ),
                None => begun.0@.stage is Discovering && begun.0@.login_url == Seq::<char>::empty()
                    && begun.1 is Discover,
            },
    {
        let (challenge, verifier) = get_code_challenge();
        let flow = LoginFlow {
            stage: LoginStage::Discovering,
            credentials: Credentials::new(username, password),
            options,
            challenge,
            verifier,
            login_url: String::new(),
            callback: None,
            failure: None,
        };
        let given = match flow.options.chosen_login_base_url() {
            Some(base) => Some(String::from_str(base)),
            None => None,
        };
        match given {
            Some(base) => flow.resolve(base.as_str()),
            None => (flow, LoginAction::Discover),
        }
    }

    /// Where the login stands.
    pub fn stage(&self) -> (stage: &LoginStage)
        ensures
            *stage == self@.stage,
    {
        &self.stage
    }

    fn resolve(self, base: &str) -> (moved: (Self, LoginAction))
        ensures
            resolved(self@, base@, moved.0@, moved.1),
    {
        let built = generate_auth_url(base, self.challenge.as_str());
        let LoginFlow {
            stage,
            credentials,
            options,
            challenge,
            verifier,
            login_url,
            callback,
            failure,
        } = self;
        match built {
            Ok(url) => {
                let action = LoginAction::Launch {
                    webdriver: options.chosen_webdriver(),
                    port: options.chosen_port(),
                };
                let flow = LoginFlow {
                    stage: LoginStage::Launching,
                    credentials,
                    options,
                    challenge,
                    verifier,
                    login_url: url,
                    callback,
                    failure,
                };
                assert(fresh_auth_url(base@, self@.challenge, built));
                (flow, action)
            },
            Err(error) => {
                let flow = LoginFlow {
                    stage: LoginStage::Finished,
                    credentials,
                    options,
                    challenge,
                    verifier,
                    login_url,
                    callback,
                    failure,
                };
                assert(fresh_auth_url(base@, self@.challenge, built));
                (flow, LoginAction::Fail(error))
            },
        }
    }

    fn tear_down(self, error: Error) -> (moved: (Self, LoginAction))
        requires
            self@.stage.driver_running(),
        ensures
            torn_down(self@, error, moved.0@, moved.1),
    {
        let LoginFlow {
            stage,
            credentials,
            options,
            challenge,
            verifier,
            login_url,
            callback,
            failure,
        } = self;
        let kept = match failure {
            Some(first) => first,
            None => error,
        };
        let close = match stage {
            LoginStage::Navigating
            | LoginStage::FindingForm
            | LoginStage::FillingUsername
            | LoginStage::FillingPassword
            | LoginStage::Submitting
            | LoginStage::ReadingUrl => true,
            _ => false,
        };
        if close {
            (
                LoginFlow {
                    stage: LoginStage::ClosingSession,
                    credentials,
                    options,
                    challenge,
                    verifier,
                    login_url,
                    callback,
                    failure: Some(kept),
                },
                LoginAction::CloseSession,
            )
        } else {
            (
                LoginFlow {
                    stage: LoginStage::Killing,
                    credentials,
                    options,
                    challenge,
                    verifier,
                    login_url,
                    callback,
                    failure: Some(kept),
                },
                LoginAction::KillDriver,
            )
        }
    }

    fn conclude(self, failure: Option<Error>) -> (moved: (Self, LoginAction))
        ensures
            concluded(self@, failure, moved.0@, moved.1),
    {
        let LoginFlow {
            stage,
            credentials,
            options,
            challenge,
            verifier,
            login_url,
            callback,
            failure: _,
        } = self;
        match failure {
            Some(error) => (
                LoginFlow {
                    stage: LoginStage::Finished,
                    credentials,
                    options,
                    challenge,
                    verifier,
                    login_url,
                    callback,
                    failure: None,
                },
                LoginAction::Fail(error),
            ),
            None => {
                let code = match &callback {
                    Some(redirect) => extract_authorization_code(redirect.as_str()),
                    None => Err(Error::MissingAuthCode),
                };
                let ghost read = code;
                match code {
                    Ok(text) => {
                        let login = LoginType::AuthCode {
                            code: text,
                            verifier: verifier.clone(),
                        };
                        let action = LoginAction::Exchange(login);
                        proof {
                            if callback is Some {
                                assert(code_outcome(callback.unwrap()@, read));
                                assert(code_offered(
                                    callback.unwrap()@,
                                    verifier@,
                                    LoginStage::Exchanging,
                                    action,
                                ));
                            }
                        }
                        (
                            LoginFlow {
                                stage: LoginStage::Exchanging,
                                credentials,
                                options,
                                challenge,
                                verifier,
                                login_url,
                                callback,
                                failure: None,
                            },
                            action,
                        )
                    },
                    Err(error) => {
                        let action = LoginAction::Fail(error);
                        proof {
                            if callback is Some {
                                assert(code_outcome(callback.unwrap()@, read));
                                assert(code_offered(
                                    callback.unwrap()@,
                                    verifier@,
                                    LoginStage::Finished,
                                    action,
                                ));
                            }
                        }
                        (
                            LoginFlow {
                                stage: LoginStage::Finished,
                                credentials,
                                options,
                                challenge,
                                verifier,
                                login_url,
                                callback,
                                failure: None,
                            },
                            action,
                        )
                    },
                }
            },
        }
    }

    /// Takes in what the caller reports at the instant `now` and says what
    /// to do next.
    pub fn step(self, event: LoginEvent, now: i64) -> (moved: (Self, LoginAction))
        ensures
            login_outcome(self@, event, now as int, moved.0@, moved.1),
    {
        let LoginFlow {
            stage,
            credentials,
            options,
            challenge,
            verifier,
            login_url,
            callback,
            failure,
        } = self;
        match (stage, event) {
            (LoginStage::Discovering, LoginEvent::Discovered(Some(base))) => {
                let flow = LoginFlow {
                        stage: LoginStage::Discovering,
                        credentials,
                        options,
                        challenge,
                        verifier,
                        login_url,
                        callback,
                        failure,
                    };
                flow.resolve(base.as_str())
            },
            (LoginStage::Discovering, LoginEvent::Discovered(None)) => {
                (
                    LoginFlow {
                        stage: LoginStage::Finished,
                        credentials,
                        options,
                        challenge,
                        verifier,
                        login_url,
                        callback,
                        failure,
                    },
                    LoginAction::Fail(Error::NoAuthUrl),
                )
            },
            (LoginStage::Discovering, LoginEvent::Failed(message)) => {
                (
                    LoginFlow {
                        stage: LoginStage::Finished,
                        credentials,
                        options,
                        challenge,
                        verifier,
                        login_url,
                        callback,
                        failure,
                    },
                    LoginAction::Fail(Error::HttpRequest(message)),
                )
            },
            (LoginStage::Launching, LoginEvent::DriverReady) => {
                let address = session_url(options.chosen_port());
                (
                    LoginFlow {
                        stage: LoginStage::Connecting,
                        credentials,
                        options,
                        challenge,
                        verifier,
                        login_url,
                        callback,
                        failure,
                    },
                    LoginAction::OpenSession(address),
                )
            },
            (LoginStage::Launching, LoginEvent::DriverFailed { failure: cause, detail }) => {
                let error = match cause {
                    LaunchFailure::Spawn => Error::Io(detail),
                    LaunchFailure::Unreachable => Error::WebDriverStart,
                };
                (
                    LoginFlow {
                        stage: LoginStage::Finished,
                        credentials,
                        options,
                        challenge,
                        verifier,
                        login_url,
                        callback,
                        failure,
                    },
                    LoginAction::Fail(error),
                )
            },
            (LoginStage::Connecting, LoginEvent::Done) => {
                let address = login_url.clone();
                (
                    LoginFlow {
                        stage: LoginStage::Navigating,
                        credentials,
                        options,
                        challenge,
                        verifier,
                        login_url,
                        callback,
                        failure,
                    },
                    LoginAction::Goto(address),
                )
            },
            (LoginStage::Connecting, LoginEvent::Failed(message)) => {
                let flow = LoginFlow {
                        stage: LoginStage::Connecting,
                        credentials,
                        options,
                        challenge,
                        verifier,
                        login_url,
                        callback,
                        failure,
                    };
                flow.tear_down(Error::NewWebDriverSession(message))
            },
            (LoginStage::Navigating, LoginEvent::Done) => {
                (
                    LoginFlow {
                        stage: LoginStage::FindingForm,
                        credentials,
                        options,
                        challenge,
                        verifier,
                        login_url,
                        callback,
                        failure,
                    },
                    LoginAction::FindForm(String::from_str(LOGIN_FORM_ID)),
                )
            },
            (LoginStage::FindingForm, LoginEvent::Done) => {
                let value = String::from_str(credentials.username());
                (
                    LoginFlow {
                        stage: LoginStage::FillingUsername,
                        credentials,
                        options,
                        challenge,
                        verifier,
                        login_url,
                        callback,
                        failure,
                    },
                    LoginAction::SetField { name: String::from_str("username"), value },
                )
            },
            (LoginStage::FillingUsername, LoginEvent::Done) => {
                let value = String::from_str(credentials.password());
                (
                    LoginFlow {
                        stage: LoginStage::FillingPassword,
                        credentials,
                        options,
                        challenge,
                        verifier,
                        login_url,
                        callback,
                        failure,
                    },
                    LoginAction::SetField { name: String::from_str("password"), value },
                )
            },
            (LoginStage::FillingPassword, LoginEvent::Done) => {
                (
                    LoginFlow {
                        stage: LoginStage::Submitting,
                        credentials,
                        options,
                        challenge,
                        verifier,
                        login_url,
                        callback,
                        failure,
                    },
                    LoginAction::Submit,
                )
            },
            (LoginStage::Submitting, LoginEvent::Done) => {
                (
                    LoginFlow {
                        stage: LoginStage::ReadingUrl,
                        credentials,
                        options,
                        challenge,
                        verifier,
                        login_url,
                        callback,
                        failure,
                    },
                    LoginAction::ReadUrl,
                )
            },
            (LoginStage::ReadingUrl, LoginEvent::Url(address)) => {
                (
                    LoginFlow {
                        stage: LoginStage::ClosingSession,
                        credentials,
                        options,
                        challenge,
                        verifier,
                        login_url,
                        callback: Some(address),
                        failure,
                    },
                    LoginAction::CloseSession,
                )
            },
            (LoginStage::Navigating, LoginEvent::Failed(message)) => {
                let flow = LoginFlow {
                        stage: LoginStage::Navigating,
                        credentials,
                        options,
                        challenge,
                        verifier,
                        login_url,
                        callback,
                        failure,
                    };
                flow.tear_down(Error::HeadlessBrowser(message))
            },
            (LoginStage::FindingForm, LoginEvent::Failed(message)) => {
                let flow = LoginFlow {
                        stage: LoginStage::FindingForm,
                        credentials,
                        options,
                        challenge,
                        verifier,
                        login_url,
                        callback,
                        failure,
                    };
                flow.tear_down(Error::HeadlessBrowser(message))
            },
            (LoginStage::FillingUsername, LoginEvent::Failed(message)) => {
                let flow = LoginFlow {
                        stage: LoginStage::FillingUsername,
                        credentials,
                        options,
                        challenge,
                        verifier,
                        login_url,
                        callback,
                        failure,
                    };
                flow.tear_down(Error::HeadlessBrowser(message))
            },
            (LoginStage::FillingPassword, LoginEvent::Failed(message)) => {
                let flow = LoginFlow {
                        stage: LoginStage::FillingPassword,
                        credentials,
                        options,
                        challenge,
                        verifier,
                        login_url,
                        callback,
                        failure,
                    };
                flow.tear_down(Error::HeadlessBrowser(message))
            },
            (LoginStage::Submitting, LoginEvent::Failed(message)) => {
                let flow = LoginFlow {
                        stage: LoginStage::Submitting,
                        credentials,
                        options,
                        challenge,
                        verifier,
                        login_url,
                        callback,
                        failure,
                    };
                flow.tear_down(Error::HeadlessBrowser(message))
            },
            (LoginStage::ReadingUrl, LoginEvent::Failed(message)) => {
                let flow = LoginFlow {
                        stage: LoginStage::ReadingUrl,
                        credentials,
                        options,
                        challenge,
                        verifier,
                        login_url,
                        callback,
                        failure,
                    };
                flow.tear_down(Error::HeadlessBrowser(message))
            },
            (LoginStage::ClosingSession, LoginEvent::Failed(message)) => {
                let flow = LoginFlow {
                        stage: LoginStage::ClosingSession,
                        credentials,
                        options,
                        challenge,
                        verifier,
                        login_url,
                        callback,
                        failure,
                    };
                flow.tear_down(Error::HeadlessBrowser(message))
            },
            (LoginStage::ClosingSession, LoginEvent::Done) => {
                (
                    LoginFlow {
                        stage: LoginStage::Killing,
                        credentials,
                        options,
                        challenge,
                        verifier,
                        login_url,
                        callback,
                        failure,
                    },
                    LoginAction::KillDriver,
                )
            },
            (LoginStage::Killing, LoginEvent::Done) => {
                let flow = LoginFlow {
                        stage: LoginStage::Killing,
                        credentials,
                        options,
                        challenge,
                        verifier,
                        login_url,
                        callback,
                        failure: None,
                    };
                flow.conclude(failure)
            },
            (LoginStage::Killing, LoginEvent::Failed(message)) => {
                let kept = match failure {
                    Some(first) => first,
                    None => Error::Io(message),
                };
                let flow = LoginFlow {
                        stage: LoginStage::Killing,
                        credentials,
                        options,
                        challenge,
                        verifier,
                        login_url,
                        callback,
                        failure: None,
                    };
                flow.conclude(Some(kept))
            },
            (LoginStage::Exchanging, LoginEvent::Replied(reply)) => {
                let ghost given = reply;
                match tokens_from_reply(reply, now) {
                    Ok(pair) => {
                        assert(exchange_outcome(given, now as int, Ok(pair)));
                        let session = AuthenticatedClient::new(None, pair);
                        let written = credentials.clone();
                        (
                    LoginFlow {
                        stage: LoginStage::StoringCredentials(session),
                        credentials,
                        options,
                        challenge,
                        verifier,
                        login_url,
                        callback,
                        failure,
                    },
                    LoginAction::StoreCredentials(written),
                )
                    },
                    Err(error) => (
                    LoginFlow {
                        stage: LoginStage::Finished,
                        credentials,
                        options,
                        challenge,
                        verifier,
                        login_url,
                        callback,
                        failure,
                    },
                    LoginAction::Fail(error),
                ),
                }
            },
            (LoginStage::StoringCredentials(session), LoginEvent::Done) => {
                let written = session.tokens().clone();
                (
                    LoginFlow {
                        stage: LoginStage::StoringTokens(session),
                        credentials,
                        options,
                        challenge,
                        verifier,
                        login_url,
                        callback,
                        failure,
                    },
                    LoginAction::StoreTokens(written),
                )
            },
            (LoginStage::StoringTokens(session), LoginEvent::Done) => {
                (
                    LoginFlow {
                        stage: LoginStage::Finished,
                        credentials,
                        options,
                        challenge,
                        verifier,
                        login_url,
                        callback,
                        failure,
                    },
                    LoginAction::Ready(session),
                )
            },
            (LoginStage::StoringCredentials(_), LoginEvent::Failed(message)) => {
                (
                    LoginFlow {
                        stage: LoginStage::Finished,
                        credentials,
                        options,
                        challenge,
                        verifier,
                        login_url,
                        callback,
                        failure,
                    },
                    LoginAction::Fail(Error::Keyring(message)),
                )
            },
            (LoginStage::StoringTokens(_), LoginEvent::Failed(message)) => {
                (
                    LoginFlow {
                        stage: LoginStage::Finished,
                        credentials,
                        options,
                        challenge,
                        verifier,
                        login_url,
                        callback,
                        failure,
                    },
                    LoginAction::Fail(Error::Keyring(message)),
                )
            },
            (stage, _) => {
                (
                    LoginFlow {
                        stage: stage,
                        credentials,
                        options,
                        challenge,
                        verifier,
                        login_url,
                        callback,
                        failure,
                    },
                    LoginAction::Rejected,
                )
            },
        }
    }
}

/// What every step of a login observes about the driver process: while
/// the driver runs, the login stays with it until the kill is reported;
/// the kill is asked for on entering the last stage of the teardown; and
/// neither a failure nor a session is handed to the caller while the
/// driver still runs.
pub proof fn step_accounts_for_driver(
    old: LoginFlowView,
    event: LoginEvent,
    now: int,
    new: LoginFlowView,
    action: LoginAction,
)
    requires
        login_outcome(old, event, now, new, action),
    ensures
        old.stage.driver_running() ==> new.stage.driver_running() || (old.stage is Killing && (
        event is Done || event is Failed)),
        new.stage is Killing && !(old.stage is Killing) ==> action is KillDriver,
        action is Fail || action is Ready ==> !new.stage.driver_running(),
        new.stage.driver_running() && !old.stage.driver_running() ==> old.stage is Launching
            && event is DriverReady,
{
}

/// A run of a login: the flows that it passes through, with the report,
/// the instant and the action of every step between them.
pub open spec fn login_run(
    flows: Seq<LoginFlowView>,
    events: Seq<LoginEvent>,
    instants: Seq<int>,
    actions: Seq<LoginAction>,
) -> bool {
    &&& flows.len() == events.len() + 1
    &&& instants.len() == events.len()
    &&& actions.len() == events.len()
    &&& forall|i: int|
        0 <= i < events.len() ==> login_outcome(
            flows[i],
            #[trigger] events[i],
            instants[i],
            flows[i + 1],
            actions[i],
        )
}

/// No login leaves its driver behind: in every run, on whatever path, a
/// point at which the driver runs is followed by a point at which it no
/// longer does only if in between the kill was asked for and reported.
pub proof fn driver_is_killed_before_login_ends(
    flows: Seq<LoginFlowView>,
    events: Seq<LoginEvent>,
    instants: Seq<int>,
    actions: Seq<LoginAction>,
    from: int,
    to: int,
)
    requires
        login_run(flows, events, instants, actions),
        0 <= from <= to < flows.len(),
        flows[from].stage.driver_running(),
        !flows[to].stage.driver_running(),
    ensures
        exists|k: int|
            from <= k < to && (#[trigger] flows[k]).stage is Killing && (events[k] is Done
                || events[k] is Failed) && !flows[k + 1].stage.driver_running(),
    decreases to - from,
{
    assert(to > from);
    let last = to - 1;
    assert(login_outcome(flows[last], events[last], instants[last], flows[last + 1], actions[last]));
    step_accounts_for_driver(flows[last], events[last], instants[last], flows[to], actions[last]);
    if flows[last].stage.driver_running() {
        assert(flows[last].stage is Killing);
    } else {
        driver_is_killed_before_login_ends(flows, events, instants, actions, from, last);
    }
}

/// How far a login has come, in the order of its stages.
pub open spec fn login_progress(stage: LoginStage) -> nat {
    match stage {
        LoginStage::Discovering => 0,
        LoginStage::Launching => 1,
        LoginStage::Connecting => 2,
        LoginStage::Navigating => 3,
        LoginStage::FindingForm => 4,
        LoginStage::FillingUsername => 5,
        LoginStage::FillingPassword => 6,
        LoginStage::Submitting => 7,
        LoginStage::ReadingUrl => 8,
        LoginStage::ClosingSession => 9,
        LoginStage::Killing => 10,
        LoginStage::Exchanging => 11,
        LoginStage::StoringCredentials(_) => 12,
        LoginStage::StoringTokens(_) => 13,
        LoginStage::Finished => 14,
    }
}

/// What every step of a login observes about its progress: a report that
/// is taken moves the login to a later stage, a report out of turn leaves
/// it where it is, and the driver is asked for, a session opened and a code
/// offered only on entering the stage that waits for just that.
pub proof fn step_moves_forward(
    old: LoginFlowView,
    event: LoginEvent,
    now: int,
    new: LoginFlowView,
    action: LoginAction,
)
    requires
        login_outcome(old, event, now, new, action),
    ensures
        action is Rejected ==> new == old,
        !(action is Rejected) ==> login_progress(old.stage) < login_progress(new.stage),
        action is Launch ==> new.stage is Launching,
        action is OpenSession ==> new.stage is Connecting,
        action is Exchange ==> new.stage is Exchanging,
{
}

/// A login never goes back: from one point of a run to a later one its
/// progress does not fall.
pub proof fn login_never_goes_back(
    flows: Seq<LoginFlowView>,
    events: Seq<LoginEvent>,
    instants: Seq<int>,
    actions: Seq<LoginAction>,
    from: int,
    to: int,
)
    requires
        login_run(flows, events, instants, actions),
        0 <= from <= to < flows.len(),
    ensures
        login_progress(flows[from].stage) <= login_progress(flows[to].stage),
    decreases to - from,
{
    if from < to {
        login_never_goes_back(flows, events, instants, actions, from, to - 1);
        let last = to - 1;
        assert(login_outcome(flows[last], events[last], instants[last], flows[last + 1], actions[last]));
        step_moves_forward(flows[last], events[last], instants[last], flows[to], actions[last]);
    }
}

/// A login tries nothing twice: in every run the driver is asked for at
/// most once, a session is opened at most once, and a code is offered for
/// exchange at most once.
pub proof fn login_tries_nothing_twice(
    flows: Seq<LoginFlowView>,
    events: Seq<LoginEvent>,
    instants: Seq<int>,
    actions: Seq<LoginAction>,
    first: int,
    second: int,
)
    requires
        login_run(flows, events, instants, actions),
        0 <= first < second < actions.len(),
    ensures
        actions[first] is Launch ==> !(actions[second] is Launch),
        actions[first] is OpenSession ==> !(actions[second] is OpenSession),
        actions[first] is Exchange ==> !(actions[second] is Exchange),
{
    assert(login_outcome(
        flows[first],
        events[first],
        instants[first],
        flows[first + 1],
        actions[first],
    ));
    assert(login_outcome(
        flows[second],
        events[second],
        instants[second],
        flows[second + 1],
        actions[second],
    ));
    step_moves_forward(
        flows[first],
        events[first],
        instants[first],
        flows[first + 1],
        actions[first],
    );
    step_moves_forward(
        flows[second],
        events[second],
        instants[second],
        flows[second + 1],
        actions[second],
    );
    login_never_goes_back(flows, events, instants, actions, first + 1, second);
}

} // verus!
