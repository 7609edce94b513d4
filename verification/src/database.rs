//! Stored users, linked Spotify accounts and account link requests, and the
//! errors of the store. Times are milliseconds since the Unix epoch (UTC).
use vstd::prelude::*;

use vstd::std_specs::convert::FromSpec;

use crate::text::push_char;
use crate::utils::{read_clock, to_signed_millis};
use rand::{Rng, SeedableRng};

verus! {

/// The current time in milliseconds since the Unix epoch by the system clock:
/// negative before the epoch, saturated at the ends of the `i64` range.
fn utc_now_millis() -> i64 {
    to_signed_millis(read_clock())
}

/// A bot user and the device name their player shows in Spotify.
#[derive(Debug, Clone, PartialEq, Eq)]
pub struct User {
    pub id: String,
    pub device_name: String,
}

/// A user's linked Spotify account and its tokens.
#[derive(Debug, Clone, PartialEq, Eq)]
pub struct Account {
    pub user_id: String,
    pub username: String,
    pub access_token: String,
    pub refresh_token: String,
    pub session_token: Option<String>,
    /// When the access token expires.
    pub expires: i64,
}

/// A pending request to link a Spotify account.
#[derive(Debug, Clone, PartialEq, Eq)]
pub struct LinkRequest {
    pub token: String,
    pub user_id: String,
    /// When the request expires.
    pub expires: i64,
}

/// Whether a deadline has passed at `now`.
pub open spec fn spec_expired(expires: i64, now: i64) -> bool {
    now > expires
}

/// Whether a deadline has passed at `now`, `offset` milliseconds early.
pub open spec fn spec_expired_offset(expires: i64, now: i64, offset: i64) -> bool {
    now > expires - offset
}

/// A deadline less an offset stays within the range of timestamps.
pub open spec fn offset_in_range(expires: i64, offset: i64) -> bool {
    i64::MIN <= expires - offset <= i64::MAX
}

/// Whether `expires - offset` lies before `now`.
fn expired_offset_at(expires: i64, now: i64, offset: i64) -> (r: bool)
    requires
        offset_in_range(expires, offset),
    ensures
        r == spec_expired_offset(expires, now, offset),
{
    now > expires - offset
}

impl Account {
    /// Whether the access token has expired at `now`.
    pub fn expired_at(&self, now: i64) -> (r: bool)
        ensures
            r == (now > self.expires),
    {
        now > self.expires
    }

    /// Whether the access token expires within `offset` milliseconds of `now`.
    pub fn expired_offset_at(&self, now: i64, offset: i64) -> (r: bool)
        requires
            offset_in_range(self.expires, offset),
        ensures
            r == spec_expired_offset(self.expires, now, offset),
    {
        expired_offset_at(self.expires, now, offset)
    }

    /// Whether the access token has expired, by the clock: whether the clock
    /// reading taken is past the deadline.
    pub fn expired(&self) -> (r: bool)
        ensures
            exists|now: i64| #![trigger spec_expired(self.expires, now)] r == spec_expired(self.expires, now),
    {
        let now = utc_now_millis();
        let r = self.expired_at(now);
        assert(r == spec_expired(self.expires, now));
        r
    }

    /// Whether the access token expires within `offset` milliseconds, by the clock.
    pub fn expired_offset(&self, offset: i64) -> (r: bool)
        requires
            offset_in_range(self.expires, offset),
        ensures
            exists|now: i64| #![trigger spec_expired_offset(self.expires, now, offset)]
                r == spec_expired_offset(self.expires, now, offset),
    {
        let now = utc_now_millis();
        let r = self.expired_offset_at(now, offset);
        assert(r == spec_expired_offset(self.expires, now, offset));
        r
    }
}

impl LinkRequest {
    /// Whether the request has expired at `now`.
    pub fn expired_at(&self, now: i64) -> (r: bool)
        ensures
            r == (now > self.expires),
    {
        now > self.expires
    }

    /// Whether the request expires within `offset` milliseconds of `now`.
    pub fn expired_offset_at(&self, now: i64, offset: i64) -> (r: bool)
        requires
            offset_in_range(self.expires, offset),
        ensures
            r == spec_expired_offset(self.expires, now, offset),
    {
        expired_offset_at(self.expires, now, offset)
    }

    /// Whether the request has expired, by the clock: whether the clock
    /// reading taken is past the deadline.
    pub fn expired(&self) -> (r: bool)
        ensures
            exists|now: i64| #![trigger spec_expired(self.expires, now)] r == spec_expired(self.expires, now),
    {
        let now = utc_now_millis();
        let r = self.expired_at(now);
        assert(r == spec_expired(self.expires, now));
        r
    }

    /// Whether the request expires within `offset` milliseconds, by the clock.
    pub fn expired_offset(&self, offset: i64) -> (r: bool)
        requires
            offset_in_range(self.expires, offset),
        ensures
            exists|now: i64| #![trigger spec_expired_offset(self.expires, now, offset)]
                r == spec_expired_offset(self.expires, now, offset),
    {
        let now = utc_now_millis();
        let r = self.expired_offset_at(now, offset);
        assert(r == spec_expired_offset(self.expires, now, offset));
        r
    }
}

/// The random number generator that link tokens are drawn from.
#[verifier::external_type_specification]
#[verifier::external_body]
pub struct ExStdRng(rand::rngs::StdRng);

/// Whether a character is an ASCII letter or digit.
pub open spec fn is_alphanumeric(c: char) -> bool {
    ('A' <= c && c <= 'Z') || ('a' <= c && c <= 'z') || ('0' <= c && c <= '9')
}

/// A generator seeded from the operating system (`StdRng::try_from_os_rng`);
/// `None` when the operating system could not provide a seed.
#[verifier::external_body]
fn seeded_rng() -> Option<rand::rngs::StdRng> {
    rand::rngs::StdRng::try_from_os_rng().ok()
}

/// Draws one character from rand's `Alphanumeric` distribution, which samples
/// uniformly from `A`-`Z`, `a`-`z` and `0`-`9`.
#[verifier::external_body]
fn sample_alphanumeric(rng: &mut rand::rngs::StdRng) -> (r: char)
    ensures
        is_alphanumeric(r),
{
    rng.sample(rand::distr::Alphanumeric) as char
}

/// The number of characters of a link request's token.
pub const LINK_TOKEN_LENGTH: usize = 64;

/// A link token drawn from `rng`: `LINK_TOKEN_LENGTH` ASCII letters and digits.
pub fn link_token_from(rng: &mut rand::rngs::StdRng) -> (t: String)
    ensures
        t@.len() == LINK_TOKEN_LENGTH,
        forall|i: int| 0 <= i < t@.len() ==> is_alphanumeric(#[trigger] t@[i]),
{
    let mut token = String::new();
    let mut i: usize = 0;
    while i < LINK_TOKEN_LENGTH
        invariant
            i <= LINK_TOKEN_LENGTH,
            token@.len() == i,
            forall|j: int| 0 <= j < token@.len() ==> is_alphanumeric(#[trigger] token@[j]),
        decreases LINK_TOKEN_LENGTH - i,
    {
        let c = sample_alphanumeric(rng);
        push_char(&mut token, c);
        i = i + 1;
    }
    token
}

/// A link request of `user_id` made at `now`, with a token drawn from `rng`,
/// valid for `LINK_REQUEST_VALIDITY_MS`.
pub fn link_request_from(user_id: String, rng: &mut rand::rngs::StdRng, now: i64) -> (q: LinkRequest)
    requires
        now <= i64::MAX - LINK_REQUEST_VALIDITY_MS,
    ensures
        q.user_id == user_id,
        q.expires == now + LINK_REQUEST_VALIDITY_MS,
        q.token@.len() == LINK_TOKEN_LENGTH,
        forall|i: int| 0 <= i < q.token@.len() ==> is_alphanumeric(#[trigger] q.token@[i]),
{
    let token = link_token_from(rng);
    LinkRequest { token, user_id, expires: link_request_expiry(now) }
}

/// A random link token from a generator seeded by the operating system (see
/// [`link_token_from`]); `None` when no generator could be seeded.
pub fn new_link_token() -> (r: Option<String>)
    ensures
        r matches Some(t) ==> t@.len() == LINK_TOKEN_LENGTH
            && forall|i: int| 0 <= i < t@.len() ==> is_alphanumeric(#[trigger] t@[i]),
{
    match seeded_rng() {
        Some(mut rng) => Some(link_token_from(&mut rng)),
        None => None,
    }
}

/// A new link request of `user_id` made at `now`, with a generator seeded by
/// the operating system (see [`link_request_from`]); `None` when no generator
/// could be seeded.
pub fn new_link_request(user_id: String, now: i64) -> (r: Option<LinkRequest>)
    requires
        now <= i64::MAX - LINK_REQUEST_VALIDITY_MS,
    ensures
        r matches Some(q) ==> {
            &&& q.user_id == user_id
            &&& q.expires == now + LINK_REQUEST_VALIDITY_MS
            &&& q.token@.len() == LINK_TOKEN_LENGTH
            &&& forall|i: int| 0 <= i < q.token@.len() ==> is_alphanumeric(#[trigger] q.token@[i])
        },
{
    match seeded_rng() {
        Some(mut rng) => Some(link_request_from(user_id, &mut rng, now)),
        None => None,
    }
}

/// What has expired stays expired when asked early: a deadline passed at `now`
/// has also passed when `offset` (not negative) is taken off it.
pub proof fn lemma_expired_implies_expired_offset(expires: i64, now: i64, offset: i64)
    requires
        offset >= 0,
        now > expires,
    ensures
        spec_expired_offset(expires, now, offset),
{
}

/// How long a link request is valid, in milliseconds (one hour).
pub const LINK_REQUEST_VALIDITY_MS: i64 = 3_600_000;

/// When a link request created at `now` expires.
pub fn link_request_expiry(now: i64) -> (r: i64)
    requires
        now <= i64::MAX - LINK_REQUEST_VALIDITY_MS,
    ensures
        r == now + LINK_REQUEST_VALIDITY_MS,
{
    now + LINK_REQUEST_VALIDITY_MS
}

/// How a query of the store failed.
#[derive(Debug, Clone, PartialEq, Eq)]
pub enum QueryError {
    /// No record matched.
    NotFound,
    /// Any other failure, with its description.
    Other(String),
}

/// The errors of the store.
#[derive(Debug, Clone, PartialEq, Eq)]
pub enum DatabaseError {
    Diesel(String),
    PoolBuild(String),
    Pool(String),
    MigrationFailed(String),
    RefreshTokenFailure,
    NotFound,
}

impl From<QueryError> for DatabaseError {
    fn from(value: QueryError) -> (r: Self) {
        match value {
            QueryError::NotFound => DatabaseError::NotFound,
            QueryError::Other(message) => DatabaseError::Diesel(message),
        }
    }
}

impl vstd::std_specs::convert::FromSpecImpl<QueryError> for DatabaseError {
    open spec fn obeys_from_spec() -> bool {
        true
    }

    open spec fn from_spec(v: QueryError) -> DatabaseError {
        match v {
            QueryError::NotFound => DatabaseError::NotFound,
            QueryError::Other(message) => DatabaseError::Diesel(message),
        }
    }
}

/// Turning a missing record into an absent value.
pub trait DatabaseResultExt<T>: Sized {
    /// `Ok(None)` where no record was found; other results are kept, a found
    /// record wrapped in `Some`.
    fn optional(self) -> Result<Option<T>, DatabaseError>;
}

impl<T> DatabaseResultExt<T> for Result<T, DatabaseError> {
    fn optional(self) -> (r: Result<Option<T>, DatabaseError>)
        ensures
            match self {
                Ok(v) => r == Ok::<Option<T>, DatabaseError>(Some(v)),
                Err(DatabaseError::NotFound) => r == Ok::<Option<T>, DatabaseError>(None),
                Err(e) => r == Err::<Option<T>, DatabaseError>(e),
            },
    {
        match self {
            Err(DatabaseError::NotFound) => Ok(None),
            Ok(v) => Ok(Some(v)),
            Err(e) => Err(e),
        }
    }
}

/// Whether looking a user up failed only because the user is not stored yet,
/// in which case the user is created.
pub fn should_create_user(lookup: &Result<User, DatabaseError>) -> (r: bool)
    ensures
        r == (*lookup == Err::<User, DatabaseError>(DatabaseError::NotFound)),
{
    match lookup {
        Err(DatabaseError::NotFound) => true,
        _ => false,
    }
}

} // verus!
