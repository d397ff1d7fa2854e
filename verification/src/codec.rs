use rand::Rng;
use vstd::prelude::*;
use vstd::utf8::encode_utf8;

verus! {

/// A key with its value, as it stands in a query string or a form body.
pub type Pair = (String, String);

/// The texts of a list of pairs.
pub open spec fn pairs_view(pairs: Seq<Pair>) -> Seq<(Seq<char>, Seq<char>)> {
    Seq::new(pairs.len(), |i: int| (pairs[i].0@, pairs[i].1@))
}

/// The letters and digits of ASCII.
pub open spec fn is_alphanumeric(c: char) -> bool {
    ('0' <= c && c <= '9') || ('A' <= c && c <= 'Z') || ('a' <= c && c <= 'z')
}

/// Whether a text consists of ASCII letters and digits only.
pub open spec fn all_alphanumeric(text: Seq<char>) -> bool {
    forall|i: int| 0 <= i < text.len() ==> is_alphanumeric(#[trigger] text[i])
}

/// The SHA-256 digest of a byte string.
pub uninterp spec fn sha256(data: Seq<u8>) -> Seq<u8>;

/// The base64 encoding of a byte string in the URL-safe alphabet, without
/// padding.
pub uninterp spec fn base64_url_nopad(data: Seq<u8>) -> Seq<char>;

/// The number of characters that unpadded base64 needs for `len` bytes:
/// four for every three bytes, and two or three for a rest of one or two.
pub open spec fn base64_nopad_len(len: nat) -> nat {
    let full = (len / 3) * 4;
    if len % 3 == 0 {
        full
    } else if len % 3 == 1 {
        full + 2
    } else {
        full + 3
    }
}

/// What `url` makes of `base` once `pairs` are appended to its query, or
/// `None` where `base` is not an absolute URL.
pub uninterp spec fn url_with_params(base: Seq<char>, pairs: Seq<(Seq<char>, Seq<char>)>) -> Option<
    Seq<char>,
>;

/// The decoded key/value pairs of a URL's query string in the order in which
/// they stand, or `None` where the text is not an absolute URL.
pub uninterp spec fn url_query_pairs(url: Seq<char>) -> Option<Seq<(Seq<char>, Seq<char>)>>;

/// The `application/x-www-form-urlencoded` body for a list of pairs, or
/// `None` where the encoder refuses them.
pub uninterp spec fn form_urlencoded(pairs: Seq<(Seq<char>, Seq<char>)>) -> Option<Seq<char>>;

/// Longest text, in bytes of UTF-8, that is handed to the URL builder. `url`
/// keeps offsets in 32 bits; with parts of this size no offset overflows.
pub const MAX_URL_PART: usize = 0x100_0000;

/// Most pairs that are handed to the URL builder at once.
pub const MAX_URL_PAIRS: usize = 16;

/// Whether base and pairs are within the sizes that the URL builder takes.
pub open spec fn url_parts_fit(base: Seq<char>, pairs: Seq<Pair>) -> bool {
    &&& encode_utf8(base).len() <= MAX_URL_PART
    &&& pairs.len() <= MAX_URL_PAIRS
    &&& forall|i: int|
        0 <= i < pairs.len() ==> encode_utf8(#[trigger] pairs[i].0@).len() <= MAX_URL_PART
            && encode_utf8(pairs[i].1@).len() <= MAX_URL_PART
}

/// Draws `length` characters from `rand::distributions::Alphanumeric` with
/// the thread's generator. The distribution yields ASCII letters and digits
/// only; which ones is left open.
#[verifier::external_body]
pub(crate) fn random_alphanumeric(length: usize) -> (text: String)
    ensures
        text@.len() == length,
        all_alphanumeric(text@),
{
    rand::thread_rng()
        .sample_iter(&rand::distributions::Alphanumeric)
        .take(length)
        .map(char::from)
        .collect()
}

/// `sha2::Sha256` over `data`, by `Digest::digest`. The digest has 32 bytes.
#[verifier::external_body]
pub(crate) fn sha256_digest(data: &[u8]) -> (digest: Vec<u8>)
    ensures
        digest@ == sha256(data@),
        digest@.len() == 32,
{
    <sha2::Sha256 as sha2::Digest>::digest(data).to_vec()
}

/// `Engine::encode` of `base64`'s `URL_SAFE_NO_PAD` engine. The encoder
/// computes the output length in `usize` and gives up where it does not fit,
/// which the bound on `data` rules out.
#[verifier::external_body]
pub(crate) fn base64_url_encode(data: &[u8]) -> (text: String)
    requires
        data@.len() <= usize::MAX / 2,
    ensures
        text@ == base64_url_nopad(data@),
        text@.len() == base64_nopad_len(data@.len()),
{
    base64::Engine::encode(&base64::engine::general_purpose::URL_SAFE_NO_PAD, data)
}

/// `url::Url::parse_with_params`, followed by the URL's serialization.
/// Fails exactly where `url` refuses `base`.
#[verifier::external_body]
pub(crate) fn build_url(base: &str, pairs: &Vec<Pair>) -> (built: Result<String, url::ParseError>)
    requires
        url_parts_fit(base@, pairs@),
    ensures
        built is Ok <==> url_with_params(base@, pairs_view(pairs@)) is Some,
        built is Ok ==> built.unwrap()@ == url_with_params(base@, pairs_view(pairs@)).unwrap(),
{
    url::Url::parse_with_params(base, pairs.iter()).map(String::from)
}

/// `url::Url::parse`, followed by `Url::query_pairs` with every pair copied
/// out. Fails exactly where `url` refuses the text.
#[verifier::external_body]
pub(crate) fn parse_query_pairs(url: &str) -> (pairs: Result<Vec<Pair>, url::ParseError>)
    ensures
        pairs is Ok <==> url_query_pairs(url@) is Some,
        pairs is Ok ==> pairs_view(pairs.unwrap()@) == url_query_pairs(url@).unwrap(),
{
    let parsed = url::Url::parse(url)?;
    let pairs = parsed.query_pairs();
    Ok(pairs.map(|(key, value)| (key.into_owned(), value.into_owned())).collect())
}

/// `serde_urlencoded::to_string` on a list of pairs. The encoder's error is
/// handed on as its message.
#[verifier::external_body]
pub(crate) fn encode_form(pairs: &Vec<Pair>) -> (body: Result<String, String>)
    ensures
        body is Ok <==> form_urlencoded(pairs_view(pairs@)) is Some,
        body is Ok ==> body.unwrap()@ == form_urlencoded(pairs_view(pairs@)).unwrap(),
{
    serde_urlencoded::to_string(pairs).map_err(|error| error.to_string())
}

} // verus!
