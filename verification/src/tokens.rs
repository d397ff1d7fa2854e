use vstd::prelude::*;

verus! {

/// Which of the two bearer tokens a [`Token`] is.
#[derive(Debug, Clone, Copy, PartialEq, Eq, Structural)]
pub enum TokenType {
    Access,
    Refresh,
}

impl Default for TokenType {
    fn default() -> (kind: Self)
        ensures
            kind == TokenType::Access,
    {
        TokenType::Access
    }
}

/// The instant `lifetime` seconds after `now`. Lifetimes arrive in seconds;
/// instants are kept in milliseconds since the Unix epoch.
pub open spec fn expiry(now: int, lifetime: int) -> int {
    now + 1000 * lifetime
}

/// Whether the instant `lifetime` seconds after `now` can be held in an `i64`.
pub open spec fn expiry_fits(now: int, lifetime: int) -> bool {
    i64::MIN <= expiry(now, lifetime) <= i64::MAX
}

/// Computes `now + lifetime` seconds as an absolute instant, or `None` when
/// that instant cannot be represented.
pub fn expiry_after(now: i64, lifetime: i64) -> (at: Option<i64>)
    ensures
        at is Some <==> expiry_fits(now as int, lifetime as int),
        at is Some ==> at.unwrap() == expiry(now as int, lifetime as int),
{
    let span: i128 = 1000 * (lifetime as i128);
    let at: i128 = now as i128 + span;
    if at < i64::MIN as i128 || at > i64::MAX as i128 {
        None
    } else {
        Some(at as i64)
    }
}

/// The current instant in milliseconds since the Unix epoch, read from
/// `chrono::Utc::now` through `DateTime::timestamp_millis`. Nothing is
/// claimed of the value: it differs from call to call.
#[verifier::external_body]
pub(crate) fn now_millis() -> i64 {
    chrono::Utc::now().timestamp_millis()
}

/// What a [`Token`] stands for: its kind, its text and the instant at which
/// it stops being valid.
pub struct TokenView {
    pub kind: TokenType,
    pub content: Seq<char>,
    pub expires: int,
}

/// A bearer token with its absolute expiry. Never changed after it was
/// built: a refresh replaces the whole pair.
#[derive(Debug)]
pub struct Token {
    kind: TokenType,
    content: String,
    expires: i64,
}

impl View for Token {
    type V = TokenView;

    closed spec fn view(&self) -> TokenView {
        TokenView { kind: self.kind, content: self.content@, expires: self.expires as int }
    }
}

impl Clone for Token {
    fn clone(&self) -> (copy: Self)
        ensures
            copy@ == self@,
    {
        Token { kind: self.kind, content: self.content.clone(), expires: self.expires }
    }
}

impl Token {
    /// Whether the token is no longer valid at the instant `now`: a token
    /// expires at its expiry instant, not after it.
    pub open spec fn expired_at(&self, now: int) -> bool {
        self@.expires <= now
    }

    pub fn new(content: String, expires: i64, token_type: TokenType) -> (token: Self)
        ensures
            token@ == (TokenView { kind: token_type, content: content@, expires: expires as int }),
    {
        Token { kind: token_type, content, expires }
    }

    /// An empty access token that expires at `now`, hence one that has
    /// already expired.
    pub fn empty_at(now: i64) -> (token: Self)
        ensures
            token@ == (TokenView {
                kind: TokenType::Access,
                content: Seq::<char>::empty(),
                expires: now as int,
            }),
            token.expired_at(now as int),
    {
        Token { kind: TokenType::Access, content: String::new(), expires: now }
    }

    pub fn token_type(&self) -> (kind: TokenType)
        ensures
            kind == self@.kind,
    {
        self.kind
    }

    pub fn content(&self) -> (content: &str)
        ensures
            content@ == self@.content,
    {
        self.content.as_str()
    }

    pub fn expires(&self) -> (expires: i64)
        ensures
            expires == self@.expires,
    {
        self.expires
    }

    /// The expiry test against a given instant.
    pub fn has_expired_at(&self, now: i64) -> (expired: bool)
        ensures
            expired == self.expired_at(now as int),
    {
        self.expires <= now
    }

    /// The expiry test against the clock. The answer is that of
    /// [`Token::has_expired_at`] for the instant the clock gave.
    pub fn has_expired(&self) -> (expired: bool)
        ensures
            exists|now: i64| expired == self.expired_at(now as int),
    {
        let now: i64 = now_millis();
        let expired = self.has_expired_at(now);
        assert(expired == self.expired_at(now as int));
        expired
    }
}

impl Default for Token {
    /// An empty access token that expires at the moment it is built.
    fn default() -> (token: Self)
        ensures
            token@.kind == TokenType::Access,
            token@.content == Seq::<char>::empty(),
    {
        Token::empty_at(now_millis())
    }
}

/// What a [`Tokens`] pair stands for.
pub struct TokensView {
    pub refresh: TokenView,
    pub access: TokenView,
}

/// The pair of tokens that one successful exchange yields.
#[derive(Debug)]
pub struct Tokens {
    refresh_token: Token,
    access_token: Token,
}

impl View for Tokens {
    type V = TokensView;

    closed spec fn view(&self) -> TokensView {
        TokensView { refresh: self.refresh_token@, access: self.access_token@ }
    }
}

impl Clone for Tokens {
    fn clone(&self) -> (copy: Self)
        ensures
            copy@ == self@,
    {
        Tokens {
            refresh_token: self.refresh_token.clone(),
            access_token: self.access_token.clone(),
        }
    }
}

impl Tokens {
    pub fn new(refresh_token: Token, access_token: Token) -> (tokens: Self)
        ensures
            tokens@ == (TokensView { refresh: refresh_token@, access: access_token@ }),
    {
        Tokens { refresh_token, access_token }
    }

    pub fn refresh_token(&self) -> (token: &Token)
        ensures
            token@ == self@.refresh,
    {
        &self.refresh_token
    }

    pub fn access_token(&self) -> (token: &Token)
        ensures
            token@ == self@.access,
    {
        &self.access_token
    }
}

/// The token endpoint's answer to a successful exchange: the two tokens and
/// their lifetimes in seconds, counted from the moment of the answer.
#[derive(Debug)]
pub struct LoginResponse {
    pub access_token: String,
    pub expires_in: i64,
    pub refresh_expires_in: i64,
    pub refresh_token: String,
}

impl LoginResponse {
    /// The pair that this answer yields when it is received at `now`.
    pub open spec fn tokens_at(&self, now: int) -> TokensView {
        TokensView {
            refresh: TokenView {
                kind: TokenType::Refresh,
                content: self.refresh_token@,
                expires: expiry(now, self.refresh_expires_in as int),
            },
            access: TokenView {
                kind: TokenType::Access,
                content: self.access_token@,
                expires: expiry(now, self.expires_in as int),
            },
        }
    }

    /// Whether both expiry instants can be represented when the answer is
    /// received at `now`.
    pub open spec fn representable_at(&self, now: int) -> bool {
        expiry_fits(now, self.expires_in as int) && expiry_fits(now, self.refresh_expires_in as int)
    }

    /// Turns the relative lifetimes into absolute expiries, counted from
    /// `now`. `None` exactly when one of the two instants does not fit.
    pub fn into_tokens_at(self, now: i64) -> (tokens: Option<Tokens>)
        ensures
            tokens is Some <==> self.representable_at(now as int),
            tokens is Some ==> tokens.unwrap()@ == self.tokens_at(now as int),
    {
        let refresh_expires = expiry_after(now, self.refresh_expires_in);
        let access_expires = expiry_after(now, self.expires_in);
        match (refresh_expires, access_expires) {
            (Some(refresh_at), Some(access_at)) => Some(
                Tokens::new(
                    Token::new(self.refresh_token, refresh_at, TokenType::Refresh),
                    Token::new(self.access_token, access_at, TokenType::Access),
                ),
            ),
            _ => None,
        }
    }

    /// Turns the relative lifetimes into absolute expiries, counted from the
    /// clock's current instant.
    pub fn into_tokens(self) -> (tokens: Option<Tokens>)
        ensures
            exists|now: i64|
                (tokens is Some <==> self.representable_at(now as int)) && (tokens is Some
                    ==> tokens.unwrap()@ == self.tokens_at(now as int)),
    {
        let now: i64 = now_millis();
        let tokens = self.into_tokens_at(now);
        assert((tokens is Some <==> self.representable_at(now as int)) && (tokens is Some
            ==> tokens.unwrap()@ == self.tokens_at(now as int)));
        tokens
    }
}

} // verus!
