use sshn::client::TokenReply;
use sshn::error::Error;
use sshn::secrets::{
    entry_name, Credentials, ResumeAction, ResumeEvent, ResumeState, SecretKind, SERVICE_NAME,
};
use sshn::{AuthenticatedClient, LoginResponse, LoginType, Token, TokenType, Tokens};

fn pair(access_expires: i64, refresh_expires: i64) -> Tokens {
    Tokens::new(
        Token::new(String::from("stored-refresh"), refresh_expires, TokenType::Refresh),
        Token::new(String::from("stored-access"), access_expires, TokenType::Access),
    )
}

fn good_reply() -> TokenReply {
    TokenReply::Answered {
        status: 200,
        body: String::new(),
        parsed: Ok(LoginResponse {
            access_token: String::from("new-access"),
            expires_in: 300,
            refresh_expires_in: 1_800,
            refresh_token: String::from("new-refresh"),
        }),
    }
}

#[test]
fn entry_names() {
    assert_eq!(SERVICE_NAME, "SSHN-cli");
    assert_eq!(entry_name("tokens"), "tokens-SSHN-cli");
    assert_eq!(entry_name("credentials"), "credentials-SSHN-cli");
    assert_eq!(entry_name(""), "-SSHN-cli");
    assert_eq!(SecretKind::Tokens.identifier(), "tokens");
    assert_eq!(SecretKind::Credentials.identifier(), "credentials");
    assert_eq!(SecretKind::Tokens.entry_name(), "tokens-SSHN-cli");
    assert_eq!(SecretKind::Credentials.entry_name(), "credentials-SSHN-cli");
}

#[test]
fn credentials_keep_what_was_given() {
    let credentials = Credentials::new(String::from("user"), String::from("secret"));
    assert_eq!(credentials.username(), "user");
    assert_eq!(credentials.password(), "secret");
    let copy = credentials.clone();
    assert_eq!(copy.username(), "user");
    assert_eq!(copy.password(), "secret");
}

#[test]
fn resume_begins_with_the_stored_tokens() {
    let (state, action) = ResumeState::start();
    assert!(matches!(state, ResumeState::ReadingTokens));
    assert!(matches!(action, ResumeAction::ReadTokens));
}

#[test]
fn valid_access_token_resumes_without_any_exchange() {
    let (state, _) = ResumeState::start();
    let (state, action) = state.step(ResumeEvent::TokensRead(Some(pair(2_000, 3_000))), 1_000);
    assert!(matches!(state, ResumeState::Finished));
    match action {
        ResumeAction::Ready(session) => {
            assert_eq!(session.bearer(), "stored-access");
            assert_eq!(session.tokens().access_token().expires(), 2_000);
            assert_eq!(session.tokens().refresh_token().content(), "stored-refresh");
            assert_eq!(session.tokens().refresh_token().expires(), 3_000);
            assert_eq!(
                session.client().graphql_url(),
                "https://gateway.embracecloud.nl/graphql"
            );
        }
        other => panic!("unexpected action {:?}", other),
    }
}

#[test]
fn expired_access_token_is_refreshed_once_and_the_result_stored() {
    let (state, _) = ResumeState::start();
    let (state, action) = state.step(ResumeEvent::TokensRead(Some(pair(1_000, 3_000))), 1_000);
    assert!(matches!(state, ResumeState::Exchanging));
    match action {
        ResumeAction::Exchange(LoginType::RefreshToken { token }) => {
            assert_eq!(token, "stored-refresh")
        }
        other => panic!("unexpected action {:?}", other),
    }
    let (state, action) = state.step(ResumeEvent::Replied(good_reply()), 1_500);
    assert!(matches!(state, ResumeState::StoringTokens(_)));
    match action {
        ResumeAction::StoreTokens(tokens) => {
            assert_eq!(tokens.access_token().content(), "new-access");
            assert_eq!(tokens.access_token().expires(), 301_500);
            assert_eq!(tokens.refresh_token().content(), "new-refresh");
            assert_eq!(tokens.refresh_token().expires(), 1_801_500);
        }
        other => panic!("unexpected action {:?}", other),
    }
    let (state, action) = state.step(ResumeEvent::Stored(Ok(())), 1_600);
    assert!(matches!(state, ResumeState::Finished));
    match action {
        ResumeAction::Ready(session) => {
            assert_eq!(session.bearer(), "new-access");
            assert_eq!(session.tokens().refresh_token().content(), "new-refresh");
            assert_eq!(session.tokens().access_token().expires(), 301_500);
        }
        other => panic!("unexpected action {:?}", other),
    }
}

#[test]
fn both_tokens_expired_leads_to_a_login_with_the_stored_credentials() {
    let (state, _) = ResumeState::start();
    let (state, action) = state.step(ResumeEvent::TokensRead(Some(pair(1_000, 3_000))), 3_000);
    assert!(matches!(state, ResumeState::ReadingCredentials));
    assert!(matches!(action, ResumeAction::ReadCredentials));
    let credentials = Credentials::new(String::from("user"), String::from("secret"));
    let (state, action) = state.step(ResumeEvent::CredentialsRead(Some(credentials)), 3_000);
    assert!(matches!(state, ResumeState::LoggingIn));
    match action {
        ResumeAction::Login(given) => {
            assert_eq!(given.username(), "user");
            assert_eq!(given.password(), "secret");
        }
        other => panic!("unexpected action {:?}", other),
    }
    let session = AuthenticatedClient::new(None, pair(9_000, 10_000));
    let (state, action) = state.step(ResumeEvent::LoggedIn(Ok(session)), 3_500);
    assert!(matches!(state, ResumeState::Finished));
    match action {
        ResumeAction::Ready(session) => {
            assert_eq!(session.tokens().access_token().expires(), 9_000)
        }
        other => panic!("unexpected action {:?}", other),
    }
}

#[test]
fn nothing_stored_is_missing_credentials() {
    let (state, _) = ResumeState::start();
    let (state, action) = state.step(ResumeEvent::TokensRead(None), 0);
    assert!(matches!(state, ResumeState::ReadingCredentials));
    assert!(matches!(action, ResumeAction::ReadCredentials));
    let (state, action) = state.step(ResumeEvent::CredentialsRead(None), 0);
    assert!(matches!(state, ResumeState::Finished));
    assert!(matches!(
        action,
        ResumeAction::Fail(Error::MissingCredentials)
    ));
}

#[test]
fn failed_refresh_ends_the_resume() {
    let state = ResumeState::Exchanging;
    let reply = TokenReply::Answered {
        status: 400,
        body: String::from("invalid_grant"),
        parsed: Err(String::from("unused")),
    };
    let (state, action) = state.step(ResumeEvent::Replied(reply), 0);
    assert!(matches!(state, ResumeState::Finished));
    match action {
        ResumeAction::Fail(Error::IdentityProviderRejected { status, body }) => {
            assert_eq!(status, 400);
            assert_eq!(body, "invalid_grant");
        }
        other => panic!("unexpected action {:?}", other),
    }
}

#[test]
fn failed_write_ends_the_resume() {
    let session = AuthenticatedClient::new(None, pair(9_000, 10_000));
    let state = ResumeState::StoringTokens(session);
    let (state, action) = state.step(ResumeEvent::Stored(Err(String::from("locked"))), 0);
    assert!(matches!(state, ResumeState::Finished));
    match action {
        ResumeAction::Fail(Error::Keyring(message)) => assert_eq!(message, "locked"),
        other => panic!("unexpected action {:?}", other),
    }
}

#[test]
fn failed_login_ends_the_resume() {
    let state = ResumeState::LoggingIn;
    let (state, action) = state.step(ResumeEvent::LoggedIn(Err(Error::WebDriverStart)), 0);
    assert!(matches!(state, ResumeState::Finished));
    assert!(matches!(action, ResumeAction::Fail(Error::WebDriverStart)));
}

#[test]
fn resume_reports_out_of_turn_are_rejected() {
    let (state, action) = ResumeState::ReadingTokens.step(ResumeEvent::Stored(Ok(())), 0);
    assert!(matches!(state, ResumeState::ReadingTokens));
    assert!(matches!(action, ResumeAction::Rejected));
    let (state, action) = ResumeState::Exchanging.step(ResumeEvent::TokensRead(None), 0);
    assert!(matches!(state, ResumeState::Exchanging));
    assert!(matches!(action, ResumeAction::Rejected));
    let (state, action) = ResumeState::Finished.step(ResumeEvent::CredentialsRead(None), 0);
    assert!(matches!(state, ResumeState::Finished));
    assert!(matches!(action, ResumeAction::Rejected));
    let (state, action) = ResumeState::LoggingIn.step(ResumeEvent::Replied(good_reply()), 0);
    assert!(matches!(state, ResumeState::LoggingIn));
    assert!(matches!(action, ResumeAction::Rejected));
}
