use crate::client::{
    exchange_outcome, clearance, tokens_from_reply, AuthenticatedClient, Clearance, Grant, LoginType,
    TokenReply,
};
use crate::constants::GRAPHQL_URL;
use crate::error::Error;
use crate::text::joined;
use crate::tokens::{Tokens, TokensView};
use vstd::prelude::*;
use vstd::string::StringExecFns;

verus! {

/// Name under which this program keeps its secrets.
pub const SERVICE_NAME: &'static str = "SSHN-cli";

/// What a [`Credentials`] value stands for.
pub struct CredentialsView {
    pub username: Seq<char>,
    pub password: Seq<char>,
}

/// The account's name and password, kept for the day on which neither
/// token is valid any more.
#[derive(Debug)]
pub struct Credentials {
    username: String,
    password: String,
}

impl View for Credentials {
    type V = CredentialsView;

    closed spec fn view(&self) -> CredentialsView {
        CredentialsView { username: self.username@, password: self.password@ }
    }
}

impl Clone for Credentials {
    fn clone(&self) -> (copy: Self)
        ensures
            copy@ == self@,
    {
        Credentials { username: self.username.clone(), password: self.password.clone() }
    }
}

impl Credentials {
    pub fn new(username: String, password: String) -> (credentials: Self)
        ensures
            credentials@ == (CredentialsView { username: username@, password: password@ }),
    {
        Credentials { username, password }
    }

    pub fn username(&self) -> (username: &str)
        ensures
            username@ == self@.username,
    {
        self.username.as_str()
    }

    pub fn password(&self) -> (password: &str)
        ensures
            password@ == self@.password,
    {
        self.password.as_str()
    }
}

/// The records that are kept in the secret store.
#[derive(Debug, Clone, Copy, PartialEq, Eq, Structural)]
pub enum SecretKind {
    Credentials,
    Tokens,
}

impl SecretKind {
    /// The identifier of a record.
    pub open spec fn identifier_text(self) -> Seq<char> {
        match self {
            SecretKind::Credentials => "credentials"@,
            SecretKind::Tokens => "tokens"@,
        }
    }

    pub fn identifier(self) -> (identifier: &'static str)
        ensures
            identifier@ == self.identifier_text(),
    {
        match self {
            SecretKind::Credentials => "credentials",
            SecretKind::Tokens => "tokens",
        }
    }

    /// The name of the store's entry for a record.
    pub fn entry_name(self) -> (name: String)
        ensures
            name@ == entry_name_text(self.identifier_text()),
    {
        entry_name(self.identifier())
    }
}

/// The name of the store's entry for an identifier: the identifier, a
/// hyphen and the service name.
pub open spec fn entry_name_text(identifier: Seq<char>) -> Seq<char> {
    identifier + "-"@ + SERVICE_NAME@
}

/// Names the store's entry for an identifier.
pub fn entry_name(identifier: &str) -> (name: String)
    ensures
        name@ == entry_name_text(identifier@),
{
    let mut name = joined(identifier, "-");
    name.append(SERVICE_NAME);
    name
}

/// The first rung of the resume chain that holds.
pub enum ResumePath {
    /// The stored access token is valid: the stored pair is used as it is.
    Stored,
    /// Only the stored refresh token is valid: it is exchanged.
    Refresh(Seq<char>),
    /// No stored token is of use: the stored credentials are looked up.
    Credentials,
}

/// Picks the rung for what the store holds under `tokens` at the instant
/// `now`.
pub open spec fn resume_path(stored: Option<TokensView>, now: int) -> ResumePath {
    match stored {
        None => ResumePath::Credentials,
        Some(tokens) => match clearance(tokens, now) {
            Clearance::Proceed => ResumePath::Stored,
            Clearance::Refresh(token) => ResumePath::Refresh(token),
            Clearance::Expired => ResumePath::Credentials,
        },
    }
}

/// Where a resume stands.
#[derive(Debug)]
pub enum ResumeState {
    /// The stored tokens are being read.
    ReadingTokens,
    /// The stored refresh token is being exchanged.
    Exchanging,
    /// The exchange has yielded this session; its tokens are being written.
    StoringTokens(AuthenticatedClient),
    /// The stored credentials are being read.
    ReadingCredentials,
    /// An interactive login with the stored credentials is under way.
    LoggingIn,
    /// The resume is over.
    Finished,
}

/// What the caller reports back after performing an action.
#[derive(Debug)]
pub enum ResumeEvent {
    /// The tokens record, or `None` where the store has none that reads.
    TokensRead(Option<Tokens>),
    /// The reply to the exchange.
    Replied(TokenReply),
    /// The tokens were written, or the store's message.
    Stored(Result<(), String>),
    /// The credentials record, or `None` where the store has none that reads.
    CredentialsRead(Option<Credentials>),
    /// How the interactive login ended.
    LoggedIn(Result<AuthenticatedClient, Error>),
}

/// What the caller is to do next.
#[derive(Debug)]
pub enum ResumeAction {
    /// Read the tokens record.
    ReadTokens,
    /// Post the token request for this grant.
    Exchange(LoginType),
    /// Write these tokens to the tokens record.
    StoreTokens(Tokens),
    /// Read the credentials record.
    ReadCredentials,
    /// Run an interactive login with these credentials, which stores the
    /// credentials and the new tokens itself.
    Login(Credentials),
    /// Use this session.
    Ready(AuthenticatedClient),
    /// Give up for this reason.
    Fail(Error),
    /// The report did not answer what was asked; nothing has changed.
    Rejected,
}

/// Whether `event` answers the action that `state` is waiting for.
pub open spec fn resume_accepts(state: ResumeState, event: ResumeEvent) -> bool {
    match (state, event) {
        (ResumeState::ReadingTokens, ResumeEvent::TokensRead(_)) => true,
        (ResumeState::Exchanging, ResumeEvent::Replied(_)) => true,
        (ResumeState::StoringTokens(_), ResumeEvent::Stored(_)) => true,
        (ResumeState::ReadingCredentials, ResumeEvent::CredentialsRead(_)) => true,
        (ResumeState::LoggingIn, ResumeEvent::LoggedIn(_)) => true,
        _ => false,
    }
}

/// The views of an optional pair of tokens.
pub open spec fn stored_view(stored: Option<Tokens>) -> Option<TokensView> {
    match stored {
        Some(tokens) => Some(tokens@),
        None => None,
    }
}

/// What one step of the resume chain comes to. The chain tries, in this
/// order and stopping at the first that holds: the stored pair while its
/// access token is valid; an exchange of the stored refresh token while
/// that is valid, whose result is written to the store before it is used;
/// an interactive login with the stored credentials; and failure for want
/// of credentials. A failed exchange, write or login ends the resume with
/// its reason.
pub open spec fn resume_outcome(
    state: ResumeState,
    event: ResumeEvent,
    now: int,
    next: ResumeState,
    action: ResumeAction,
) -> bool {
    match (state, event) {
        (ResumeState::ReadingTokens, ResumeEvent::TokensRead(stored)) => match resume_path(
            stored_view(stored),
            now,
        ) {
            ResumePath::Stored => action matches ResumeAction::Ready(session) && next is Finished
                && session@.api == GRAPHQL_URL@ && Some(session@.tokens) == stored_view(stored),
            ResumePath::Refresh(token) => action matches ResumeAction::Exchange(login)
                && next is Exchanging && login@ == (Grant::RefreshToken { token }),
            ResumePath::Credentials => next is ReadingCredentials
                && action is ReadCredentials,
        },
        (ResumeState::Exchanging, ResumeEvent::Replied(reply)) => match action {
            ResumeAction::StoreTokens(written) => next matches ResumeState::StoringTokens(session)
                && exchange_outcome(reply, now, Ok(written)) && session@.api == GRAPHQL_URL@
                && session@.tokens == written@,
            ResumeAction::Fail(error) => exchange_outcome(reply, now, Err(error))
                && next is Finished,
            _ => false,
        },
        (ResumeState::StoringTokens(session), ResumeEvent::Stored(written)) => next is Finished
            && match written {
            Ok(_) => action matches ResumeAction::Ready(ready) && ready@ == session@,
            Err(message) => action matches ResumeAction::Fail(Error::Keyring(text)) && text@
                == message@,
        },
        (ResumeState::ReadingCredentials, ResumeEvent::CredentialsRead(stored)) => match stored {
            Some(credentials) => action matches ResumeAction::Login(given) && next is LoggingIn
                && given@ == credentials@,
            None => next is Finished && action matches ResumeAction::Fail(
                Error::MissingCredentials,
            ),
        },
        (ResumeState::LoggingIn, ResumeEvent::LoggedIn(ended)) => next is Finished && match ended {
            Ok(session) => action matches ResumeAction::Ready(ready) && ready@ == session@,
            Err(error) => action == ResumeAction::Fail(error),
        },
        _ => next == state && action is Rejected,
    }
}

impl ResumeState {
    /// The state in which every resume begins, with the action to start on.
    pub fn start() -> (begin: (Self, ResumeAction))
        ensures
            begin.0 is ReadingTokens,
            begin.1 is ReadTokens,
    {
        (ResumeState::ReadingTokens, ResumeAction::ReadTokens)
    }

    /// Takes in what the caller reports at the instant `now` and says what
    /// to do next.
    pub fn step(self, event: ResumeEvent, now: i64) -> (moved: (Self, ResumeAction))
        ensures
            resume_outcome(self, event, now as int, moved.0, moved.1),
    {
        match (self, event) {
            (ResumeState::ReadingTokens, ResumeEvent::TokensRead(stored)) => {
                match stored {
                    None => (ResumeState::ReadingCredentials, ResumeAction::ReadCredentials),
                    Some(tokens) => {
                        let session = AuthenticatedClient::new(None, tokens);
                        match session.check_expiration_at(now) {
                            Ok(None) => (ResumeState::Finished, ResumeAction::Ready(session)),
                            Ok(Some(login)) => (
                                ResumeState::Exchanging,
                                ResumeAction::Exchange(login),
                            ),
                            Err(_) => (
                                ResumeState::ReadingCredentials,
                                ResumeAction::ReadCredentials,
                            ),
                        }
                    },
                }
            },
            (ResumeState::Exchanging, ResumeEvent::Replied(reply)) => {
                match tokens_from_reply(reply, now) {
                    Ok(pair) => {
                        let written = pair.clone();
                        let session = AuthenticatedClient::new(None, pair);
                        (ResumeState::StoringTokens(session), ResumeAction::StoreTokens(written))
                    },
                    Err(error) => (ResumeState::Finished, ResumeAction::Fail(error)),
                }
            },
            (ResumeState::StoringTokens(session), ResumeEvent::Stored(written)) => {
                match written {
                    Ok(_) => (ResumeState::Finished, ResumeAction::Ready(session)),
                    Err(message) => (
                        ResumeState::Finished,
                        ResumeAction::Fail(Error::Keyring(message)),
                    ),
                }
            },
            (ResumeState::ReadingCredentials, ResumeEvent::CredentialsRead(stored)) => {
                match stored {
                    Some(credentials) => (ResumeState::LoggingIn, ResumeAction::Login(credentials)),
                    None => (ResumeState::Finished, ResumeAction::Fail(Error::MissingCredentials)),
                }
            },
            (ResumeState::LoggingIn, ResumeEvent::LoggedIn(ended)) => {
                match ended {
                    Ok(session) => (ResumeState::Finished, ResumeAction::Ready(session)),
                    Err(error) => (ResumeState::Finished, ResumeAction::Fail(error)),
                }
            },
            (state, _) => (state, ResumeAction::Rejected),
        }
    }
}

/// A stored pair whose access token is still valid is used as it is:
/// the first step of the resume hands out the session, and asks for no
/// exchange and for no login.
pub proof fn valid_access_token_resumes_at_once(
    stored: Tokens,
    now: int,
    next: ResumeState,
    action: ResumeAction,
)
    requires
        now < stored@.access.expires,
        resume_outcome(
            ResumeState::ReadingTokens,
            ResumeEvent::TokensRead(Some(stored)),
            now,
            next,
            action,
        ),
    ensures
        next is Finished,
        action matches ResumeAction::Ready(session) && session@.tokens == stored@,
{
}

/// A stored pair of which only the refresh token is still valid leads to
/// one exchange of that token; where the exchange succeeds its result is
/// written to the store, and the session that is handed out after the
/// write holds exactly what was written.
pub proof fn valid_refresh_token_is_exchanged_and_stored(
    stored: Tokens,
    reply: TokenReply,
    instants: (int, int, int),
    states: (ResumeState, ResumeState, ResumeState),
    actions: (ResumeAction, ResumeAction, ResumeAction),
)
    requires
        stored@.access.expires <= instants.0 < stored@.refresh.expires,
        resume_outcome(
            ResumeState::ReadingTokens,
            ResumeEvent::TokensRead(Some(stored)),
            instants.0,
            states.0,
            actions.0,
        ),
        resume_outcome(states.0, ResumeEvent::Replied(reply), instants.1, states.1, actions.1),
        !(actions.1 is Fail),
        resume_outcome(states.1, ResumeEvent::Stored(Ok(())), instants.2, states.2, actions.2),
    ensures
        states.0 is Exchanging,
        actions.0 matches ResumeAction::Exchange(login) && login@ == (Grant::RefreshToken {
            token: stored@.refresh.content,
        }),
        states.1 is StoringTokens,
        actions.1 matches ResumeAction::StoreTokens(written) && exchange_outcome(
            reply,
            instants.1,
            Ok(written),
        ) && (actions.2 matches ResumeAction::Ready(session) && session@.tokens == written@),
        states.2 is Finished,
{
}

/// Where no stored token is of use, the stored credentials decide: with
/// credentials an interactive login is asked for, with exactly those
/// credentials; without them the resume fails for want of credentials.
pub proof fn expired_tokens_fall_back_to_credentials(
    stored: Option<Tokens>,
    credentials: Option<Credentials>,
    instants: (int, int),
    states: (ResumeState, ResumeState),
    actions: (ResumeAction, ResumeAction),
)
    requires
        stored is Some ==> stored.unwrap()@.access.expires <= instants.0
            && stored.unwrap()@.refresh.expires <= instants.0,
        resume_outcome(
            ResumeState::ReadingTokens,
            ResumeEvent::TokensRead(stored),
            instants.0,
            states.0,
            actions.0,
        ),
        resume_outcome(
            states.0,
            ResumeEvent::CredentialsRead(credentials),
            instants.1,
            states.1,
            actions.1,
        ),
    ensures
        states.0 is ReadingCredentials,
        actions.0 is ReadCredentials,
        credentials is Some ==> states.1 is LoggingIn && (
        actions.1 matches ResumeAction::Login(given) && given@ == credentials.unwrap()@),
        credentials is None ==> states.1 is Finished && (
        actions.1 matches ResumeAction::Fail(Error::MissingCredentials)),
{
}

/// How far a resume has come: reading what is stored comes before asking
/// for tokens, which comes before writing them.
pub open spec fn resume_progress(state: ResumeState) -> nat {
    match state {
        ResumeState::ReadingTokens => 0,
        ResumeState::ReadingCredentials => 1,
        ResumeState::Exchanging => 2,
        ResumeState::LoggingIn => 2,
        ResumeState::StoringTokens(_) => 3,
        ResumeState::Finished => 4,
    }
}

/// A run of a resume: the states that it passes through, with the report,
/// the instant and the action of every step between them.
pub open spec fn resume_run(
    states: Seq<ResumeState>,
    events: Seq<ResumeEvent>,
    instants: Seq<int>,
    actions: Seq<ResumeAction>,
) -> bool {
    &&& states.len() == events.len() + 1
    &&& instants.len() == events.len()
    &&& actions.len() == events.len()
    &&& forall|i: int|
        0 <= i < events.len() ==> resume_outcome(
            states[i],
            #[trigger] events[i],
            instants[i],
            states[i + 1],
            actions[i],
        )
}

/// A resume never goes back: from one point of a run to a later one its
/// progress does not fall.
pub proof fn resume_never_goes_back(
    states: Seq<ResumeState>,
    events: Seq<ResumeEvent>,
    instants: Seq<int>,
    actions: Seq<ResumeAction>,
    from: int,
    to: int,
)
    requires
        resume_run(states, events, instants, actions),
        0 <= from <= to < states.len(),
    ensures
        resume_progress(states[from]) <= resume_progress(states[to]),
    decreases to - from,
{
    if from < to {
        resume_never_goes_back(states, events, instants, actions, from, to - 1);
        let last = to - 1;
        assert(resume_outcome(
            states[last],
            events[last],
            instants[last],
            states[last + 1],
            actions[last],
        ));
    }
}

/// No resume exchanges twice, and none both exchanges and logs in: in every
/// run at most one step asks for an exchange or for an interactive login.
pub proof fn resume_asks_for_one_exchange_at_most(
    states: Seq<ResumeState>,
    events: Seq<ResumeEvent>,
    instants: Seq<int>,
    actions: Seq<ResumeAction>,
    first: int,
    second: int,
)
    requires
        resume_run(states, events, instants, actions),
        0 <= first < second < actions.len(),
        actions[first] is Exchange || actions[first] is Login,
    ensures
        !(actions[second] is Exchange),
        !(actions[second] is Login),
{
    assert(resume_outcome(
        states[first],
        events[first],
        instants[first],
        states[first + 1],
        actions[first],
    ));
    assert(resume_outcome(
        states[second],
        events[second],
        instants[second],
        states[second + 1],
        actions[second],
    ));
    resume_never_goes_back(states, events, instants, actions, first + 1, second);
    assert(resume_progress(states[first + 1]) == 2);
}

} // verus!
