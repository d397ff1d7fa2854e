use crate::codec::{encode_form, form_urlencoded, pairs_view, Pair};
use crate::constants::{CLIENT_ID, GRAPHQL_URL, REDIRECT_URI, TOKEN_URL};
use crate::error::Error;
use crate::tokens::{now_millis, LoginResponse, Tokens, TokensView};
use vstd::prelude::*;
use vstd::string::StringExecFns;

verus! {

/// Media type of a token request's body.
pub const FORM_CONTENT_TYPE: &'static str = "application/x-www-form-urlencoded";

/// The grant that is offered to the token endpoint.
#[derive(Debug)]
pub enum LoginType {
    /// An authorization code with the PKCE verifier that it was asked for.
    AuthCode { code: String, verifier: String },
    /// The refresh token of an earlier exchange.
    RefreshToken { token: String },
    /// The account's credentials.
    Password { username: String, password: String },
}

/// What a [`LoginType`] stands for.
pub enum Grant {
    AuthCode { code: Seq<char>, verifier: Seq<char> },
    RefreshToken { token: Seq<char> },
    Password { username: Seq<char>, password: Seq<char> },
}

impl View for LoginType {
    type V = Grant;

    open spec fn view(&self) -> Grant {
        match self {
            LoginType::AuthCode { code, verifier } => Grant::AuthCode {
                code: code@,
                verifier: verifier@,
            },
            LoginType::RefreshToken { token } => Grant::RefreshToken { token: token@ },
            LoginType::Password { username, password } => Grant::Password {
                username: username@,
                password: password@,
            },
        }
    }
}

/// The fields of a token request: the client identifier, the name of the
/// grant, and what the grant itself carries.
pub open spec fn grant_fields(grant: Grant) -> Seq<(Seq<char>, Seq<char>)> {
    match grant {
        Grant::AuthCode { code, verifier } => seq![
            ("client_id"@, CLIENT_ID@),
            ("grant_type"@, "authorization_code"@),
            ("redirect_uri"@, REDIRECT_URI@),
            ("code_verifier"@, verifier),
            ("code"@, code),
        ],
        Grant::RefreshToken { token } => seq![
            ("client_id"@, CLIENT_ID@),
            ("grant_type"@, "refresh_token"@),
            ("refresh_token"@, token),
        ],
        Grant::Password { username, password } => seq![
            ("client_id"@, CLIENT_ID@),
            ("grant_type"@, "password"@),
            ("username"@, username),
            ("password"@, password),
        ],
    }
}

fn field(key: &str, value: &str) -> (made: Pair)
    ensures
        made.0@ == key@,
        made.1@ == value@,
{
    (String::from_str(key), String::from_str(value))
}

/// Lists the fields of the token request for a grant.
pub fn grant_params(login_type: &LoginType) -> (params: Vec<Pair>)
    ensures
        pairs_view(params@) == grant_fields(login_type@),
{
    let mut params: Vec<Pair> = Vec::new();
    params.push(field("client_id", CLIENT_ID));
    match login_type {
        LoginType::AuthCode { code, verifier } => {
            params.push(field("grant_type", "authorization_code"));
            params.push(field("redirect_uri", REDIRECT_URI));
            params.push(field("code_verifier", verifier.as_str()));
            params.push(field("code", code.as_str()));
        },
        LoginType::RefreshToken { token } => {
            params.push(field("grant_type", "refresh_token"));
            params.push(field("refresh_token", token.as_str()));
        },
        LoginType::Password { username, password } => {
            params.push(field("grant_type", "password"));
            params.push(field("username", username.as_str()));
            params.push(field("password", password.as_str()));
        },
    }
    assert(pairs_view(params@) =~= grant_fields(login_type@));
    params
}

/// A request to the token endpoint, ready to be posted.
#[derive(Debug)]
pub struct TokenRequest {
    pub url: String,
    pub content_type: String,
    pub body: String,
}

/// What the request for a grant comes to: the form-encoded fields, posted
/// to the token endpoint, or the encoder's refusal.
pub open spec fn token_request_outcome(grant: Grant, request: Result<TokenRequest, Error>) -> bool {
    match form_urlencoded(grant_fields(grant)) {
        Some(body) => request matches Ok(made) && made.url@ == TOKEN_URL@ && made.content_type@
            == FORM_CONTENT_TYPE@ && made.body@ == body,
        None => request matches Err(Error::EncodeFormData(_)),
    }
}

/// Builds the token request for a grant.
pub fn token_request(login_type: &LoginType) -> (request: Result<TokenRequest, Error>)
    ensures
        token_request_outcome(login_type@, request),
{
    let params = grant_params(login_type);
    match encode_form(&params) {
        Ok(body) => Ok(
            TokenRequest {
                url: String::from_str(TOKEN_URL),
                content_type: String::from_str(FORM_CONTENT_TYPE),
                body,
            },
        ),
        Err(message) => Err(Error::EncodeFormData(message)),
    }
}

/// What came back for a token request.
#[derive(Debug)]
pub enum TokenReply {
    /// No answer was received; the transport's message.
    TransportFailed(String),
    /// An answer with its status and its body as text. `parsed` holds the
    /// body read as a login response, or the decoder's message.
    Answered { status: u16, body: String, parsed: Result<LoginResponse, String> },
}

/// Whether a status is a client or a server error.
pub open spec fn is_error_status(status: u16) -> bool {
    400 <= status < 600
}

/// What an exchange comes to for a reply received at `now`. A transport
/// failure and an error status are handed on, the latter with the body. An
/// answer that does not decode, or whose lifetimes lead out of the range of
/// instants, is refused. Every other answer yields its pair of tokens, with
/// expiries counted from `now`.
pub open spec fn exchange_outcome(reply: TokenReply, now: int, tokens: Result<Tokens, Error>) -> bool {
    match reply {
        TokenReply::TransportFailed(message) => tokens matches Err(Error::HttpRequest(text))
            && text@ == message@,
        TokenReply::Answered { status, body, parsed } => if is_error_status(status) {
            tokens matches Err(Error::IdentityProviderRejected { status: code, body: text })
                && code == status && text@ == body@
        } else {
            match parsed {
                Err(message) => tokens matches Err(Error::Json(text)) && text@ == message@,
                Ok(response) => if response.representable_at(now) {
                    tokens matches Ok(pair) && pair@ == response.tokens_at(now)
                } else {
                    tokens matches Err(Error::LifetimeOutOfRange)
                },
            }
        },
    }
}

/// Judges the reply to a token request that was received at `now`.
pub fn tokens_from_reply(reply: TokenReply, now: i64) -> (tokens: Result<Tokens, Error>)
    ensures
        exchange_outcome(reply, now as int, tokens),
{
    match reply {
        TokenReply::TransportFailed(message) => Err(Error::HttpRequest(message)),
        TokenReply::Answered { status, body, parsed } => {
            if 400 <= status && status < 600 {
                Err(Error::IdentityProviderRejected { status, body })
            } else {
                match parsed {
                    Err(message) => Err(Error::Json(message)),
                    Ok(response) => match response.into_tokens_at(now) {
                        Some(pair) => Ok(pair),
                        None => Err(Error::LifetimeOutOfRange),
                    },
                }
            }
        },
    }
}

/// A client without a session: it knows where the API is and how to ask
/// for tokens.
#[derive(Debug)]
pub struct UnAuthenticatedClient {
    graphql_url: String,
}

impl View for UnAuthenticatedClient {
    type V = Seq<char>;

    /// The address of the API.
    closed spec fn view(&self) -> Seq<char> {
        self.graphql_url@
    }
}

impl Clone for UnAuthenticatedClient {
    fn clone(&self) -> (copy: Self)
        ensures
            copy@ == self@,
    {
        UnAuthenticatedClient { graphql_url: self.graphql_url.clone() }
    }
}

impl UnAuthenticatedClient {
    /// A client for the API at `graphql_url`, or at the portal's gateway
    /// where none is given.
    pub fn new(graphql_url: Option<String>) -> (client: Self)
        ensures
            client@ == match graphql_url {
                Some(url) => url@,
                None => GRAPHQL_URL@,
            },
    {
        match graphql_url {
            Some(url) => UnAuthenticatedClient { graphql_url: url },
            None => UnAuthenticatedClient { graphql_url: String::from_str(GRAPHQL_URL) },
        }
    }

    pub fn graphql_url(&self) -> (url: &str)
        ensures
            url@ == self@,
    {
        self.graphql_url.as_str()
    }

    /// The token request for a grant.
    pub fn auth(&self, login_type: &LoginType) -> (request: Result<TokenRequest, Error>)
        ensures
            token_request_outcome(login_type@, request),
    {
        token_request(login_type)
    }

    /// Turns the reply to a token request into a session, or into the
    /// reason why there is none.
    pub fn login(self, reply: TokenReply, now: i64) -> (session: Result<AuthenticatedClient, Error>)
        ensures
            session is Ok ==> session.unwrap()@.api == self@,
            exists|tokens: Result<Tokens, Error>| #[trigger]
                exchange_outcome(reply, now as int, tokens) && match tokens {
                    Ok(pair) => session is Ok && session.unwrap()@.tokens == pair@,
                    Err(error) => session == Err::<AuthenticatedClient, Error>(error),
                },
    {
        let tokens = tokens_from_reply(reply, now);
        match tokens {
            Ok(pair) => {
                let session = AuthenticatedClient { client: self, tokens: pair };
                assert(exchange_outcome(reply, now as int, tokens));
                Ok(session)
            },
            Err(error) => {
                assert(exchange_outcome(reply, now as int, tokens));
                Err(error)
            },
        }
    }
}

/// What an [`AuthenticatedClient`] stands for.
pub struct SessionView {
    /// The address of the API.
    pub api: Seq<char>,
    /// The pair of tokens that the session holds.
    pub tokens: TokensView,
}

/// A client with a session: an API address and the current pair of tokens.
#[derive(Debug)]
pub struct AuthenticatedClient {
    client: UnAuthenticatedClient,
    tokens: Tokens,
}

impl View for AuthenticatedClient {
    type V = SessionView;

    closed spec fn view(&self) -> SessionView {
        SessionView { api: self.client@, tokens: self.tokens@ }
    }
}

/// What is decided before a call goes out.
pub enum Clearance {
    /// The access token is valid: the call goes out with it.
    Proceed,
    /// The access token has expired and the refresh token has not: the
    /// refresh token with this text is exchanged first.
    Refresh(Seq<char>),
    /// Both tokens have expired.
    Expired,
}

/// The decision for a pair of tokens at the instant `now`.
pub open spec fn clearance(tokens: TokensView, now: int) -> Clearance {
    if now < tokens.access.expires {
        Clearance::Proceed
    } else if now < tokens.refresh.expires {
        Clearance::Refresh(tokens.refresh.content)
    } else {
        Clearance::Expired
    }
}

/// Whether `step` is what a decision asks of the caller: nothing,
/// an exchange of the refresh token, or giving up.
pub open spec fn clearance_outcome(decision: Clearance, step: Result<Option<LoginType>, Error>) -> bool {
    match decision {
        Clearance::Proceed => step matches Ok(None),
        Clearance::Refresh(token) => step matches Ok(Some(login)) && login@ == (Grant::RefreshToken {
            token,
        }),
        Clearance::Expired => step matches Err(Error::TokenExpired),
    }
}

impl AuthenticatedClient {
    /// A session on the API at `graphql_url`, or at the portal's gateway
    /// where none is given, with a pair of tokens that is already at hand.
    pub fn new(graphql_url: Option<String>, tokens: Tokens) -> (session: Self)
        ensures
            session@.tokens == tokens@,
            session@.api == match graphql_url {
                Some(url) => url@,
                None => GRAPHQL_URL@,
            },
    {
        AuthenticatedClient { client: UnAuthenticatedClient::new(graphql_url), tokens }
    }

    pub fn tokens(&self) -> (tokens: &Tokens)
        ensures
            tokens@ == self@.tokens,
    {
        &self.tokens
    }

    pub fn client(&self) -> (client: &UnAuthenticatedClient)
        ensures
            client@ == self@.api,
    {
        &self.client
    }

    /// Gives up the session for its pair of tokens.
    pub fn into_tokens(self) -> (tokens: Tokens)
        ensures
            tokens@ == self@.tokens,
    {
        self.tokens
    }

    /// The text that authorizes a call: the access token's.
    pub fn bearer(&self) -> (token: &str)
        ensures
            token@ == self@.tokens.access.content,
    {
        self.tokens.access_token().content()
    }

    /// The check that every call passes at the instant `now`.
    pub fn check_expiration_at(&self, now: i64) -> (step: Result<Option<LoginType>, Error>)
        ensures
            clearance_outcome(clearance(self@.tokens, now as int), step),
    {
        if self.tokens.access_token().has_expired_at(now) {
            if !self.tokens.refresh_token().has_expired_at(now) {
                let token = String::from_str(self.tokens.refresh_token().content());
                Ok(Some(LoginType::RefreshToken { token }))
            } else {
                Err(Error::TokenExpired)
            }
        } else {
            Ok(None)
        }
    }

    /// The check that every call passes, at the instant that the clock
    /// gives.
    pub fn check_expiration(&self) -> (step: Result<Option<LoginType>, Error>)
        ensures
            exists|now: i64| #[trigger]
                clearance_outcome(clearance(self@.tokens, now as int), step),
    {
        let now: i64 = now_millis();
        let step = self.check_expiration_at(now);
        assert(clearance_outcome(clearance(self@.tokens, now as int), step));
        step
    }

    /// Takes in the reply to the exchange that the check asked for. A pair
    /// of tokens replaces the session's pair as a whole; a failure leaves
    /// the session as it was.
    pub fn refresh(&mut self, reply: TokenReply, now: i64) -> (done: Result<(), Error>)
        ensures
            final(self)@.api == old(self)@.api,
            match done {
                Ok(_) => exists|pair: Tokens| #[trigger]
                    exchange_outcome(reply, now as int, Ok(pair)) && final(self)@.tokens == pair@,
                Err(error) => exchange_outcome(reply, now as int, Err(error)) && final(self)@
                    == old(self)@,
            },
    {
        match tokens_from_reply(reply, now) {
            Ok(pair) => {
                self.tokens = pair;
                Ok(())
            },
            Err(error) => Err(error),
        }
    }
}

/// One call: the instant at which it is made and, in case the check asks
/// for an exchange first, the pair that the identity provider
/// answers with (`None` where the exchange fails).
pub struct Call {
    pub now: int,
    pub answer: Option<TokensView>,
}

/// The pair that a session holds after a call.
pub open spec fn tokens_after_call(tokens: TokensView, call: Call) -> TokensView {
    if clearance(tokens, call.now) is Refresh && call.answer is Some {
        call.answer.unwrap()
    } else {
        tokens
    }
}

/// The pair that a session holds after a series of calls.
pub open spec fn tokens_after(initial: TokensView, calls: Seq<Call>) -> TokensView
    decreases calls.len(),
{
    if calls.len() == 0 {
        initial
    } else {
        tokens_after_call(tokens_after(initial, calls.drop_last()), calls.last())
    }
}

/// Once a refresh has succeeded, the refresh token that it spent is never
/// sent again. Call `spent` (`calls[spent]`) refreshes the session; as long as the
/// identity provider does not hand the old text out anew, no later call
/// (`calls[later]`) offers it.
pub proof fn spent_refresh_token_is_never_sent_again(
    initial: TokensView,
    calls: Seq<Call>,
    spent: int,
    later: int,
)
    requires
        0 <= spent < later < calls.len(),
        clearance(tokens_after(initial, calls.take(spent)), calls[spent].now) is Refresh,
        calls[spent].answer is Some,
        forall|k: int|
            spent <= k < later && (#[trigger] calls[k]).answer is Some
                ==> calls[k].answer.unwrap().refresh.content != tokens_after(
                initial,
                calls.take(spent),
            ).refresh.content,
    ensures
        tokens_after(initial, calls.take(later)).refresh.content != tokens_after(
            initial,
            calls.take(spent),
        ).refresh.content,
        clearance(tokens_after(initial, calls.take(later)), calls[later].now) != Clearance::Refresh(
            tokens_after(initial, calls.take(spent)).refresh.content,
        ),
    decreases later - spent,
{
    let before = calls.take(later - 1);
    assert(calls.take(later).drop_last() =~= before);
    assert(calls.take(later).last() == calls[later - 1]);
    if later - 1 > spent {
        spent_refresh_token_is_never_sent_again(initial, calls, spent, later - 1);
    }
}

} // verus!
