//! Session issuing and resolution.
//!
//! A session is an opaque 128-bit token drawn from a process-wide seeded
//! pseudorandom stream.  Issuing writes token → account-id into the session
//! namespace of the expiring store for three hours and hands back a secure
//! cookie carrying the token; resolution reads the cookie value back out of
//! the store and recovers the account identity, asking for the dead cookie
//! to be cleared on a miss.  Expiry is managed solely by the store.

use rand_chacha::rand_core::{RngCore, SeedableRng};
use vstd::prelude::*;

use crate::codec::{dec_digits, dec_to_u128, dec_val, is_canonical_dec,
    lemma_dec_digits_injective, lemma_dec_round_trip, token_from_bytes, u128_to_dec};
use crate::cookies::{self, is_secure_cookie, Cookie};
use crate::store::{live_value, ExpiringStore};

verus! {

/// Lifetime of a session entry in the store, in seconds: three hours.
pub const SESSION_TOKEN_EXPIRED: u64 = 10800;

/// The pseudorandom stream behind token generation, declared so that the
/// stream can be owned by the server state and threaded into issuing calls.
#[verifier::external_type_specification]
#[verifier::external_body]
pub struct ExChaCha8Rng(rand_chacha::ChaCha8Rng);

/// The process-wide token-generation service: a pseudorandom stream seeded
/// once at construction.  Every issuing call draws from it through an
/// exclusive reference, so draws never overlap.
pub struct TokenRng {
    rng: rand_chacha::ChaCha8Rng,
}

/// Relies on OsRng::next_u64: one draw from the operating system's entropy
/// source.  Nothing is promised of the value.
#[verifier::external_body]
fn os_entropy_seed() -> u64 {
    rand_core::OsRng.next_u64()
}

/// Relies on ChaCha8Rng::seed_from_u64: a pseudorandom stream seeded with
/// the given value.  Nothing is promised of the stream.
#[verifier::external_body]
fn seed_stream(seed: u64) -> rand_chacha::ChaCha8Rng {
    rand_chacha::ChaCha8Rng::seed_from_u64(seed)
}

/// Relies on ChaCha8Rng::fill_bytes: sixteen bytes from the stream, which
/// the stream's state advances past.  Nothing is promised of the values.
#[verifier::external_body]
fn fill_token_bytes(rng: &mut rand_chacha::ChaCha8Rng) -> [u8; 16] {
    let mut pool = [0u8; 16];
    rng.fill_bytes(&mut pool);
    pool
}

impl TokenRng {
    /// A token stream seeded once from the operating system's entropy
    /// source.
    pub fn new() -> TokenRng {
        TokenRng { rng: seed_stream(os_entropy_seed()) }
    }
}

/// The authenticated identity a resolved session attaches to a request.
#[derive(Clone, Copy, Debug, PartialEq, Eq)]
pub struct SessionContext {
    pub user_id: u128,
}

/// Why a request carries no authenticated identity.
#[derive(Debug)]
pub enum SessionContextError {
    /// The request has no session cookie at all.
    AuthFailNoSessionToken,
    /// The cookie's token is unknown to the store or has expired.
    AuthFailInvalidSessionToken,
    /// The stored value is not a well-formed account identifier.
    UuidError,
    /// The store could not be reached.  Only the transport layer can
    /// encounter this; the in-memory model never produces it.
    RedisError,
}

/// Mint a fresh token for `client_id`, record it in the session namespace
/// for three hours from `now`, and hand back the token with the secure
/// cookie that carries it.  Every other stored session is untouched.
pub fn set_session_token(
    random: &mut TokenRng,
    client_id: u128,
    sessions: &mut ExpiringStore,
    now: u64,
) -> (r: (u128, Cookie))
    requires
        old(sessions).wf(),
        now + SESSION_TOKEN_EXPIRED <= u64::MAX,
    ensures
        final(sessions).wf(),
        final(sessions).spec_find(dec_digits(r.0 as nat)) == Some(
            (dec_digits(client_id as nat), (now + SESSION_TOKEN_EXPIRED) as u64),
        ),
        forall|k: Seq<char>|
            k != dec_digits(r.0 as nat) ==> #[trigger] final(sessions).spec_find(k) == old(
                sessions,
            ).spec_find(k),
        is_secure_cookie(r.1, cookies::SESSION_TOKEN@, dec_digits(r.0 as nat)),
{
    let pool = fill_token_bytes(&mut random.rng);
    let token = token_from_bytes(&pool);
    sessions.set_ex(u128_to_dec(token), u128_to_dec(client_id), SESSION_TOKEN_EXPIRED, now);
    let cookie = cookies::create_secure_cookie(cookies::SESSION_TOKEN, u128_to_dec(token));
    (token, cookie)
}

/// Resolve the identity a request's session cookie stands for, at time
/// `now`.  The boolean asks the caller to clear the cookie: it is set
/// exactly when a cookie was presented but its token is unknown or expired.
/// Absence of the cookie, a store miss, and a malformed stored value each
/// map to their own error; this stage never creates or refreshes a token.
pub fn resolve_session(
    sessions: &ExpiringStore,
    session_cookie: Option<&String>,
    now: u64,
) -> (r: (Result<SessionContext, SessionContextError>, bool))
    ensures
        match session_cookie {
            None => (r.0 matches Err(e) && e is AuthFailNoSessionToken) && !r.1,
            Some(tok) => match live_value(sessions.spec_find(tok@), now) {
                None => (r.0 matches Err(e) && e is AuthFailInvalidSessionToken) && r.1,
                Some(v) => !r.1 && if is_canonical_dec(v) {
                    r.0 matches Ok(c) && c.user_id as nat == dec_val(v)
                } else {
                    r.0 matches Err(e) && e is UuidError
                },
            },
        },
{
    let tok = match session_cookie {
        Some(t) => t,
        None => {
            return (Err(SessionContextError::AuthFailNoSessionToken), false);
        },
    };
    match sessions.get(tok, now) {
        Some(v) => match dec_to_u128(v.as_str()) {
            Some(id) => (Ok(SessionContext { user_id: id }), false),
            None => (Err(SessionContextError::UuidError), false),
        },
        None => (Err(SessionContextError::AuthFailInvalidSessionToken), true),
    }
}

impl SessionContext {
    /// The identity the resolver attached to the request, or the failure of
    /// a handler that requires one and finds none.
    pub fn from_request_parts(ctx: Option<&SessionContext>) -> (r: Result<
        SessionContext,
        SessionContextError,
    >)
        ensures
            match ctx {
                Some(c) => r matches Ok(rc) && rc == *c,
                None => r matches Err(e) && e is AuthFailNoSessionToken,
            },
    {
        match ctx {
            Some(c) => Ok(*c),
            None => Err(SessionContextError::AuthFailNoSessionToken),
        }
    }
}

/// Sessions for distinct tokens coexist: issuing a second token leaves the
/// first token's mapping in place, since distinct tokens render to distinct
/// store keys.  So any number of issuings whose tokens are distinct leave
/// that many correct token-to-account mappings in the store.
pub proof fn lemma_distinct_sessions_coexist(
    first: ExpiringStore,
    second: ExpiringStore,
    token1: u128,
    token2: u128,
    entry1: (Seq<char>, u64),
)
    requires
        token1 != token2,
        first.spec_find(dec_digits(token1 as nat)) == Some(entry1),
        forall|k: Seq<char>|
            k != dec_digits(token2 as nat) ==> #[trigger] second.spec_find(k) == first.spec_find(
                k,
            ),
    ensures
        second.spec_find(dec_digits(token1 as nat)) == Some(entry1),
{
    if dec_digits(token1 as nat) == dec_digits(token2 as nat) {
        lemma_dec_digits_injective(token1, token2);
    }
}

/// Session time-to-live: what issuing wrote for a token resolves to the
/// issuing account's identifier at any time strictly before the expiry
/// moment, and to nothing — so to a cleared cookie — from that moment on.
pub proof fn lemma_session_ttl(account_id: u128, expiry: u64, now: u64)
    ensures
        now < expiry ==> live_value(Some((dec_digits(account_id as nat), expiry)), now) == Some(
            dec_digits(account_id as nat),
        ) && is_canonical_dec(dec_digits(account_id as nat)) && dec_val(
            dec_digits(account_id as nat),
        ) == account_id as nat,
        now >= expiry ==> live_value(Some((dec_digits(account_id as nat), expiry)), now) is None,
{
    lemma_dec_round_trip(account_id);
}

} // verus!
