use crate::codec::{
    all_alphanumeric, base64_url_encode, base64_url_nopad, build_url, pairs_view,
    random_alphanumeric, sha256, sha256_digest, url_with_params, Pair,
    MAX_URL_PART,
};
use crate::constants::{CLIENT_ID, LOCALE, REDIRECT_URI};
use crate::error::Error;
use vstd::prelude::*;
use vstd::string::StringExecFns;
use vstd::utf8::{encode_utf8, is_ascii_chars, is_ascii_chars_encode_utf8};

verus! {

/// Number of characters in a PKCE verifier.
pub const VERIFIER_LENGTH: usize = 43;

/// Number of characters in the `state` and `nonce` of an authorization URL.
pub const NONCE_LENGTH: usize = 32;

/// The PKCE challenge that belongs to a verifier: the SHA-256 digest of the
/// verifier's bytes, in unpadded URL-safe base64.
pub open spec fn pkce_challenge(verifier: Seq<char>) -> Seq<char> {
    base64_url_nopad(sha256(encode_utf8(verifier)))
}

/// Digests `input` with SHA-256 and encodes the digest in unpadded URL-safe
/// base64, which for a digest of 32 bytes takes 43 characters.
pub fn compute_sha256_with_base64(input: &str) -> (challenge: String)
    ensures
        challenge@ == pkce_challenge(input@),
        challenge@.len() == 43,
{
    let digest = sha256_digest(input.as_bytes());
    base64_url_encode(digest.as_slice())
}

/// A fresh PKCE pair, challenge first. The verifier is drawn anew on every
/// call; the challenge is derived from it.
pub fn get_code_challenge() -> (pair: (String, String))
    ensures
        pair.0@ == pkce_challenge(pair.1@),
        pair.0@.len() == 43,
        pair.1@.len() == VERIFIER_LENGTH,
        all_alphanumeric(pair.1@),
{
    let verifier = random_alphanumeric(VERIFIER_LENGTH);
    let challenge = compute_sha256_with_base64(verifier.as_str());
    (challenge, verifier)
}

/// The query parameters of an authorization request, in the order in which
/// they are appended.
pub open spec fn authorization_query(state: Seq<char>, nonce: Seq<char>, challenge: Seq<char>) -> Seq<
    (Seq<char>, Seq<char>),
> {
    seq![
        ("client_id"@, CLIENT_ID@),
        ("redirect_uri"@, REDIRECT_URI@),
        ("state"@, state),
        ("response_mode"@, "query"@),
        ("response_type"@, "code"@),
        ("scope"@, "openid"@),
        ("nonce"@, nonce),
        ("ui_locales"@, LOCALE@),
        ("code_challenge"@, challenge),
        ("code_challenge_method"@, "S256"@),
    ]
}

fn pair(key: &str, value: &str) -> (made: Pair)
    ensures
        made.0@ == key@,
        made.1@ == value@,
{
    (String::from_str(key), String::from_str(value))
}

/// Builds the query parameters of an authorization request.
pub fn authorization_params(state: &str, nonce: &str, challenge: &str) -> (params: Vec<Pair>)
    ensures
        pairs_view(params@) == authorization_query(state@, nonce@, challenge@),
{
    let mut params: Vec<Pair> = Vec::new();
    params.push(pair("client_id", CLIENT_ID));
    params.push(pair("redirect_uri", REDIRECT_URI));
    params.push(pair("state", state));
    params.push(pair("response_mode", "query"));
    params.push(pair("response_type", "code"));
    params.push(pair("scope", "openid"));
    params.push(pair("nonce", nonce));
    params.push(pair("ui_locales", LOCALE));
    params.push(pair("code_challenge", challenge));
    params.push(pair("code_challenge_method", "S256"));
    assert(pairs_view(params@) =~= authorization_query(state@, nonce@, challenge@));
    params
}

/// Whether a text is short enough to become part of an authorization URL.
pub open spec fn url_part_fits(text: Seq<char>) -> bool {
    encode_utf8(text).len() <= MAX_URL_PART
}

/// What building the authorization URL from the four variable parts comes
/// to: a part that is too long is refused, a base that is no URL is
/// refused, and otherwise the URL is the base with the authorization query
/// appended.
pub open spec fn auth_url_outcome(
    base: Seq<char>,
    challenge: Seq<char>,
    state: Seq<char>,
    nonce: Seq<char>,
    built: Result<String, Error>,
) -> bool {
    if !(url_part_fits(base) && url_part_fits(challenge) && url_part_fits(state) && url_part_fits(
        nonce,
    )) {
        built matches Err(Error::UrlTooLong)
    } else {
        match url_with_params(base, authorization_query(state, nonce, challenge)) {
            Some(url) => built matches Ok(text) && text@ == url,
            None => built matches Err(Error::ParseUrl(_)),
        }
    }
}

fn part_fits(text: &str) -> (fits: bool)
    ensures
        fits == url_part_fits(text@),
{
    text.as_bytes().len() <= MAX_URL_PART
}

proof fn fixed_parts_fit()
    ensures
        url_part_fits("client_id"@),
        url_part_fits("redirect_uri"@),
        url_part_fits("state"@),
        url_part_fits("response_mode"@),
        url_part_fits("response_type"@),
        url_part_fits("scope"@),
        url_part_fits("nonce"@),
        url_part_fits("ui_locales"@),
        url_part_fits("code_challenge"@),
        url_part_fits("code_challenge_method"@),
        url_part_fits(CLIENT_ID@),
        url_part_fits(REDIRECT_URI@),
        url_part_fits(LOCALE@),
        url_part_fits("query"@),
        url_part_fits("code"@),
        url_part_fits("openid"@),
        url_part_fits("S256"@),
{
    reveal_strlit("client_id");
    reveal_strlit("redirect_uri");
    reveal_strlit("state");
    reveal_strlit("response_mode");
    reveal_strlit("response_type");
    reveal_strlit("scope");
    reveal_strlit("nonce");
    reveal_strlit("ui_locales");
    reveal_strlit("code_challenge");
    reveal_strlit("code_challenge_method");
    reveal_strlit("portal-legacy");
    reveal_strlit("https://mijn.sshn.nl/authentication/callback");
    reveal_strlit("en-US");
    reveal_strlit("query");
    reveal_strlit("code");
    reveal_strlit("openid");
    reveal_strlit("S256");
    is_ascii_chars_encode_utf8("client_id"@);
    is_ascii_chars_encode_utf8("redirect_uri"@);
    is_ascii_chars_encode_utf8("state"@);
    is_ascii_chars_encode_utf8("response_mode"@);
    is_ascii_chars_encode_utf8("response_type"@);
    is_ascii_chars_encode_utf8("scope"@);
    is_ascii_chars_encode_utf8("nonce"@);
    is_ascii_chars_encode_utf8("ui_locales"@);
    is_ascii_chars_encode_utf8("code_challenge"@);
    is_ascii_chars_encode_utf8("code_challenge_method"@);
    is_ascii_chars_encode_utf8(CLIENT_ID@);
    is_ascii_chars_encode_utf8(REDIRECT_URI@);
    is_ascii_chars_encode_utf8(LOCALE@);
    is_ascii_chars_encode_utf8("query"@);
    is_ascii_chars_encode_utf8("code"@);
    is_ascii_chars_encode_utf8("openid"@);
    is_ascii_chars_encode_utf8("S256"@);
}

proof fn params_fit(params: Seq<Pair>, state: Seq<char>, nonce: Seq<char>, challenge: Seq<char>)
    requires
        pairs_view(params) == authorization_query(state, nonce, challenge),
        url_part_fits(state),
        url_part_fits(nonce),
        url_part_fits(challenge),
    ensures
        params.len() == 10,
        forall|i: int|
            0 <= i < params.len() ==> encode_utf8(#[trigger] params[i].0@).len() <= MAX_URL_PART
                && encode_utf8(params[i].1@).len() <= MAX_URL_PART,
{
    fixed_parts_fit();
    let query = authorization_query(state, nonce, challenge);
    let views = pairs_view(params);
    assert(views.len() == 10);
    assert(views[0] == query[0] && views[1] == query[1] && views[2] == query[2]);
    assert(views[3] == query[3] && views[4] == query[4] && views[5] == query[5]);
    assert(views[6] == query[6] && views[7] == query[7] && views[8] == query[8]);
    assert(views[9] == query[9]);
    assert forall|i: int| 0 <= i < params.len() implies url_part_fits(#[trigger] params[i].0@)
        && url_part_fits(params[i].1@) by {
        assert(views[i] == (params[i].0@, params[i].1@));
        assert(i == 0 || i == 1 || i == 2 || i == 3 || i == 4 || i == 5 || i == 6 || i == 7 || i
            == 8 || i == 9);
    }
}

/// Builds the authorization URL from a base, a PKCE challenge and the two
/// one-time values `state` and `nonce`.
pub fn auth_url_with(base_url: &str, code_challenge: &str, state: &str, nonce: &str) -> (built:
    Result<String, Error>)
    ensures
        auth_url_outcome(base_url@, code_challenge@, state@, nonce@, built),
{
    if !(part_fits(base_url) && part_fits(code_challenge) && part_fits(state) && part_fits(nonce)) {
        return Err(Error::UrlTooLong);
    }
    let params = authorization_params(state, nonce, code_challenge);
    proof {
        params_fit(params@, state@, nonce@, code_challenge@);
    }
    match build_url(base_url, &params) {
        Ok(url) => Ok(url),
        Err(error) => Err(Error::ParseUrl(error)),
    }
}

/// An alphanumeric text takes one byte per character.
pub proof fn alphanumeric_is_ascii(text: Seq<char>)
    requires
        all_alphanumeric(text),
    ensures
        is_ascii_chars(text),
        encode_utf8(text).len() == text.len(),
{
    assert forall|i: int| 0 <= i < text.len() implies '\0' <= #[trigger] text[i] <= '\u{7f}' by {
        assert(crate::codec::is_alphanumeric(text[i]));
    }
    is_ascii_chars_encode_utf8(text);
}

/// What building the authorization URL with fresh one-time values comes
/// to: there are a `state` and a `nonce` of 32 letters and digits each with
/// which the URL was built.
pub open spec fn fresh_auth_url(base: Seq<char>, challenge: Seq<char>, built: Result<String, Error>) -> bool {
    exists|state: Seq<char>, nonce: Seq<char>|
        state.len() == NONCE_LENGTH && nonce.len() == NONCE_LENGTH && all_alphanumeric(state)
            && all_alphanumeric(nonce) && #[trigger] auth_url_outcome(
            base,
            challenge,
            state,
            nonce,
            built,
        )
}

/// Builds the authorization URL for a base and a PKCE challenge, with a
/// fresh `state` and a fresh `nonce` of 32 letters and digits each.
pub fn generate_auth_url(base_url: &str, code_challenge: &str) -> (built: Result<String, Error>)
    ensures
        fresh_auth_url(base_url@, code_challenge@, built),
        built matches Err(Error::UrlTooLong) <==> !(url_part_fits(base_url@) && url_part_fits(
            code_challenge@,
        )),
{
    let state = random_alphanumeric(NONCE_LENGTH);
    let nonce = random_alphanumeric(NONCE_LENGTH);
    let built = auth_url_with(base_url, code_challenge, state.as_str(), nonce.as_str());
    proof {
        alphanumeric_is_ascii(state@);
        alphanumeric_is_ascii(nonce@);
        assert(auth_url_outcome(base_url@, code_challenge@, state@, nonce@, built));
    }
    built
}

} // verus!
