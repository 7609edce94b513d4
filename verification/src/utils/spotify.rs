//! Spotify session tokens: stored credentials are kept base64-encoded.
use base64::Engine;
use vstd::prelude::*;

verus! {

/// The base64 text (standard alphabet, padded) of a byte string, as the
/// `base64` crate's `STANDARD` engine encodes it.
pub uninterp spec fn base64_encoding(bytes: Seq<u8>) -> Seq<char>;

/// The bytes that the `base64` crate's `STANDARD` engine decodes from a text,
/// `None` where the text is not valid base64.
pub uninterp spec fn base64_decoding(text: Seq<char>) -> Option<Seq<u8>>;

/// Encodes bytes as base64 (`base64::engine::general_purpose::STANDARD.encode`).
///
/// The result is named by `base64_encoding`; decoding it gives the bytes back.
/// The crate panics when the length of the text would overflow a `usize`, so
/// such inputs are left out.
#[verifier::external_body]
fn base64_encode(bytes: &[u8]) -> (r: String)
    requires
        4 * (bytes@.len() / 3 + 1) <= usize::MAX,
    ensures
        r@ == base64_encoding(bytes@),
        base64_decoding(r@) == Some(bytes@),
{
    base64::engine::general_purpose::STANDARD.encode(bytes)
}

/// Decodes base64 text (`base64::engine::general_purpose::STANDARD.decode`);
/// `None` where the text is not valid base64.
#[verifier::external_body]
fn base64_decode(text: &str) -> (r: Option<Vec<u8>>)
    ensures
        match r {
            Some(v) => base64_decoding(text@) == Some(v@),
            None => base64_decoding(text@) is None,
        },
{
    match base64::engine::general_purpose::STANDARD.decode(text) {
        Ok(v) => Some(v),
        Err(_) => None,
    }
}

/// How a set of credentials authenticates.
#[derive(Debug, Clone, Copy, PartialEq, Eq, Structural)]
pub enum AuthenticationType {
    /// A stored session token.
    StoredSpotifyCredentials,
    /// A Spotify access token.
    SpotifyToken,
}

/// Credentials for a Spotify session.
#[derive(Debug, Clone, PartialEq, Eq)]
pub struct Credentials {
    pub username: Option<String>,
    pub auth_type: AuthenticationType,
    pub auth_data: Vec<u8>,
}

/// Why a stored session token cannot be used.
#[derive(Debug, Clone, Copy, PartialEq, Eq, Structural)]
pub enum TokenError {
    /// The token is not valid base64.
    InvalidToken,
}

/// The credentials of a stored (base64) session token of `username`.
pub fn stored_credentials(username: String, token: &str) -> (r: Result<Credentials, TokenError>)
    ensures
        match base64_decoding(token@) {
            None => r == Err::<Credentials, TokenError>(TokenError::InvalidToken),
            Some(bytes) => r matches Ok(c) && {
                &&& c.username == Some(username)
                &&& c.auth_type == AuthenticationType::StoredSpotifyCredentials
                &&& c.auth_data@ == bytes
            },
        },
{
    match base64_decode(token) {
        Some(auth_data) => Ok(Credentials {
            username: Some(username),
            auth_type: AuthenticationType::StoredSpotifyCredentials,
            auth_data,
        }),
        None => Err(TokenError::InvalidToken),
    }
}

/// The credentials that turn a Spotify access token into a session token.
pub fn token_credentials(username: String, access_token: String) -> (r: Credentials)
    ensures
        r.username == Some(username),
        r.auth_type == AuthenticationType::SpotifyToken,
        r.auth_data@ == vstd::utf8::encode_utf8(access_token@),
{
    let auth_data = access_token.as_str().as_bytes_vec();
    Credentials { username: Some(username), auth_type: AuthenticationType::SpotifyToken, auth_data }
}

/// The session token to store after Spotify answered a validation: the renewed
/// token (base64) when Spotify handed out different credentials, else `None`
/// (the stored token stays).
pub fn renewed_token(current: &Credentials, renewed: &Credentials) -> (r: Option<String>)
    requires
        4 * (renewed.auth_data@.len() / 3 + 1) <= usize::MAX,
    ensures
        current.auth_data@ == renewed.auth_data@ ==> r is None,
        current.auth_data@ != renewed.auth_data@ ==> (r matches Some(t) && t@ == base64_encoding(renewed.auth_data@)),
{
    if bytes_equal(&current.auth_data, &renewed.auth_data) {
        None
    } else {
        Some(base64_encode(renewed.auth_data.as_slice()))
    }
}

/// How many times connecting for a session token is tried again after the
/// first failure.
pub const SESSION_TOKEN_RETRIES: u32 = 3;

/// The pause before trying again, in milliseconds.
pub const SESSION_TOKEN_RETRY_DELAY_MS: u64 = 100;

/// How long one step of connecting may take, in milliseconds.
pub const CONNECT_TIMEOUT_MS: u64 = 3000;

/// What follows a failed attempt to connect for a session token, after `tries`
/// earlier failures: the new count of failures to try again, or `None` to give
/// up.
pub open spec fn spec_next_attempt(tries: u32) -> Option<u32> {
    if tries >= SESSION_TOKEN_RETRIES {
        None
    } else {
        Some((tries + 1) as u32)
    }
}

/// Decides what follows a failed attempt to connect for a session token, after
/// `tries` earlier failures: `Some` with the new count of failures to try again,
/// `None` to give up and report the failure.
pub fn next_attempt(tries: u32) -> (r: Option<u32>)
    ensures
        r == spec_next_attempt(tries),
{
    if tries >= SESSION_TOKEN_RETRIES {
        None
    } else {
        Some(tries + 1)
    }
}

/// Connecting ends: every retry counts one more failure, and no count that lets
/// it go on exceeds `SESSION_TOKEN_RETRIES`, so starting from no failure there
/// are at most `SESSION_TOKEN_RETRIES + 1` attempts.
pub proof fn lemma_attempts_bounded(tries: u32)
    ensures
        spec_next_attempt(tries) matches Some(n) ==> n == tries + 1 && n <= SESSION_TOKEN_RETRIES,
        tries >= SESSION_TOKEN_RETRIES ==> spec_next_attempt(tries) is None,
{
}

/// What becomes of a stored session token once it has been validated.
#[derive(Debug, Clone, PartialEq, Eq)]
pub enum SessionTokenStep {
    /// The token is still good: use it as it is.
    Keep(String),
    /// Spotify handed out a new token: store it and use it.
    Store(String),
    /// The token is invalid: request a new one with the account's access token.
    RequestNew,
}

/// Decides how to go on with the stored session token `stored` after its
/// validation: `Ok(Some(t))` when Spotify renewed it to `t`, `Ok(None)` when it
/// is still good, `Err(())` when validating failed.
pub fn session_token_step(stored: String, validation: Result<Option<String>, ()>) -> (r: SessionTokenStep)
    ensures
        match validation {
            Ok(Some(t)) => r == SessionTokenStep::Store(t),
            Ok(None) => r == SessionTokenStep::Keep(stored),
            Err(()) => r == SessionTokenStep::RequestNew,
        },
{
    match validation {
        Ok(Some(t)) => SessionTokenStep::Store(t),
        Ok(None) => SessionTokenStep::Keep(stored),
        Err(()) => SessionTokenStep::RequestNew,
    }
}

/// The session token (base64) of a set of credentials.
pub fn encode_token(credentials: &Credentials) -> (r: String)
    requires
        4 * (credentials.auth_data@.len() / 3 + 1) <= usize::MAX,
    ensures
        r@ == base64_encoding(credentials.auth_data@),
{
    base64_encode(credentials.auth_data.as_slice())
}

fn bytes_equal(a: &Vec<u8>, b: &Vec<u8>) -> (r: bool)
    ensures
        r == (a@ == b@),
{
    if a.len() != b.len() {
        return false;
    }
    let mut i: usize = 0;
    while i < a.len()
        invariant
            i <= a@.len(),
            a@.len() == b@.len(),
            forall|j: int| 0 <= j < i ==> a@[j] == b@[j],
        decreases a@.len() - i,
    {
        if a[i] != b[i] {
            return false;
        }
        i = i + 1;
    }
    proof {
        assert(a@ =~= b@);
    }
    true
}

} // verus!
