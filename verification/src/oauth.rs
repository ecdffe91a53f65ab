//! The OAuth2 authorization-code + PKCE flow against an identity provider.
//!
//! The flow has two server-side ends.  Initiation generates a PKCE
//! challenge/verifier pair and a random state token, and stores
//! state → verifier in the transient namespace for ten minutes; the client
//! is then redirected to the provider with the state and the challenge.
//! When the provider redirects back, the callback consumes the stored state
//! exactly once — the CSRF defence — and the transport layer exchanges the
//! code and verifier for a token, fetches the profile, and revokes the
//! token.  The decision on the fetched profile is the verified end: an
//! unknown email leads to the details-collection step with bridge cookies
//! and no session; a known one is granted a session.

use vstd::prelude::*;

use crate::account::AccountsStore;
use crate::auth::{session_granted, GrantedSession};
use crate::cookies::{self, is_secure_cookie, Cookie};
use crate::session::{set_session_token, TokenRng, SESSION_TOKEN_EXPIRED};
use crate::store::{live_value, ExpiringStore};

verus! {

/// Lifetime of a stored state → verifier entry, in seconds: ten minutes.
pub const OAUTH_STATE_EXPIRED: u64 = 600;

/// How an account came to exist: by email registration or through the
/// provider.
#[derive(Debug)]
pub enum RegistrationType {
    Email,
    Google,
}

impl RegistrationType {
    /// The name of the registration type, as carried in the bridge cookie.
    pub fn as_str(&self) -> (r: &'static str)
        ensures
            r@ == match self {
                RegistrationType::Email => "Email"@,
                RegistrationType::Google => "Google"@,
            },
    {
        match self {
            RegistrationType::Email => "Email",
            RegistrationType::Google => "Google",
        }
    }
}

/// Why initiating the flow failed.  Only the transport layer can encounter
/// this; the in-memory model never produces it.
#[derive(Debug)]
pub enum GoogleError {
    RedisError,
}

/// Query parameters the provider sends to the callback.
pub struct AuthRequest {
    pub code: String,
    pub state: String,
}

/// The profile fetched from the provider: at least the email.
pub struct UserProfile {
    pub email: String,
}

/// Why the callback failed.
#[derive(Debug)]
pub enum AuthorizedError {
    /// The presented state is unknown or expired: a forged, replayed or
    /// stale callback.  Terminal; the client must restart the flow.
    InvalidOrExpiredState,
    /// The state store could not be reached.  Transport only.
    RedisError,
    /// The code-for-token exchange with the provider failed.  Transport
    /// only.
    RequestTokenError,
    /// Fetching the profile from the provider failed.  Transport only.
    Reqwest,
    /// Revoking the bridging token with the provider failed.  Transport
    /// only.
    FailedToRevokeToken,
    /// The accounts store could not be reached.  Transport only.
    Db,
}

/// The challenge for a PKCE verifier: base64url of its SHA-256 digest, a
/// pure function of the verifier; the result of
/// PkceCodeChallenge::from_code_verifier_sha256.
pub uninterp spec fn pkce_challenge_of(verifier: Seq<char>) -> Seq<char>;

/// Relies on PkceCodeChallenge::new_random_sha256: a fresh random verifier
/// together with its S256 challenge, which is computed from the verifier
/// alone.  Nothing is promised of the verifier's value.
#[verifier::external_body]
fn new_pkce_pair() -> (r: (String, String))
    ensures
        r.0@ == pkce_challenge_of(r.1@),
{
    let (challenge, verifier) = oauth2::PkceCodeChallenge::new_random_sha256();
    (challenge.as_str().to_owned(), verifier.secret().to_owned())
}

/// Relies on CsrfToken::new_random: a fresh random base64 state token.
/// Nothing is promised of the value.
#[verifier::external_body]
fn new_csrf_token() -> String {
    oauth2::CsrfToken::new_random().secret().to_owned()
}

/// Store state → verifier in the transient namespace for `seconds` seconds
/// from `now`, leaving every other state alone.
pub fn insert_state(
    oauth_state: &mut ExpiringStore,
    csrf_token: String,
    pkce_verifier: String,
    seconds: u64,
    now: u64,
)
    requires
        old(oauth_state).wf(),
        now + seconds <= u64::MAX,
    ensures
        final(oauth_state).wf(),
        final(oauth_state).spec_find(csrf_token@) == Some(
            (pkce_verifier@, (now + seconds) as u64),
        ),
        forall|k: Seq<char>|
            k != csrf_token@ ==> #[trigger] final(oauth_state).spec_find(k) == old(
                oauth_state,
            ).spec_find(k),
{
    oauth_state.set_ex(csrf_token, pkce_verifier, seconds, now);
}

/// Consume the verifier stored under `csrf_token`: an atomic read-and-delete,
/// so a given state is retrievable at most once.  An absent or expired state
/// is the terminal `InvalidOrExpiredState`; either way the state is gone
/// afterwards and every other state is untouched.
pub fn take_state(oauth_state: &mut ExpiringStore, csrf_token: &String, now: u64) -> (r: Result<
    String,
    AuthorizedError,
>)
    requires
        old(oauth_state).wf(),
    ensures
        final(oauth_state).wf(),
        final(oauth_state).spec_find(csrf_token@) is None,
        forall|k: Seq<char>|
            k != csrf_token@ ==> #[trigger] final(oauth_state).spec_find(k) == old(
                oauth_state,
            ).spec_find(k),
        match live_value(old(oauth_state).spec_find(csrf_token@), now) {
            Some(v) => r matches Ok(s) && s@ == v,
            None => r matches Err(e) && e is InvalidOrExpiredState,
        },
{
    match oauth_state.get_del(csrf_token, now) {
        Some(v) => Ok(v),
        None => Err(AuthorizedError::InvalidOrExpiredState),
    }
}

/// What initiation hands the transport layer: the state for the provider's
/// `state` parameter and the challenge for its `code_challenge` parameter.
#[derive(Debug)]
pub struct OAuthInitiation {
    pub state: String,
    pub pkce_challenge: String,
}

/// Initiate the flow: generate a PKCE pair and a state token, and store
/// state → verifier for ten minutes from `now`.  The returned challenge is
/// the stored verifier's, so the later exchange is bound to this initiation;
/// every other stored state is untouched.
pub fn google(oauth_state: &mut ExpiringStore, now: u64) -> (r: OAuthInitiation)
    requires
        old(oauth_state).wf(),
        now + OAUTH_STATE_EXPIRED <= u64::MAX,
    ensures
        final(oauth_state).wf(),
        final(oauth_state).spec_find(r.state@) matches Some(ve) && (ve.1 == (now
            + OAUTH_STATE_EXPIRED) as u64 && r.pkce_challenge@ == pkce_challenge_of(ve.0)),
        forall|k: Seq<char>|
            k != r.state@ ==> #[trigger] final(oauth_state).spec_find(k) == old(
                oauth_state,
            ).spec_find(k),
{
    let (challenge, verifier) = new_pkce_pair();
    let state = new_csrf_token();
    let state_copy = state.clone();
    insert_state(oauth_state, state, verifier, OAUTH_STATE_EXPIRED, now);
    OAuthInitiation { state: state_copy, pkce_challenge: challenge }
}

/// How the callback ends once the provider returned a profile.
#[derive(Debug)]
pub enum AuthorizedOutcome {
    /// No account holds the profile's email: the client goes to the
    /// details-collection step carrying bridge cookies; no session is
    /// issued.
    RegistrationDetails { email_cookie: Cookie, type_cookie: Cookie },
    /// An account holds it: a session is granted and the client goes to the
    /// authenticated landing page.
    Authenticated { grant: GrantedSession },
}

/// Decide the callback's end from the profile the provider returned, after
/// the state was consumed and the code exchanged.  An unknown email leads to
/// the details-collection step, with the email and the provider name in
/// fully protected bridge cookies and no session issued; a known email is
/// granted a session.  Every other stored session is untouched.
pub fn authorized(
    accounts: &AccountsStore,
    random: &mut TokenRng,
    sessions: &mut ExpiringStore,
    profile: UserProfile,
    now: u64,
) -> (r: AuthorizedOutcome)
    requires
        old(sessions).wf(),
        now + SESSION_TOKEN_EXPIRED <= u64::MAX,
    ensures
        final(sessions).wf(),
        match r {
            AuthorizedOutcome::RegistrationDetails { email_cookie, type_cookie } => {
                &&& accounts.spec_by_email(profile.email@) is None
                &&& *final(sessions) == *old(sessions)
                &&& is_secure_cookie(email_cookie, cookies::REGISTRATION_EMAIL_TOKEN@, profile.email@)
                &&& is_secure_cookie(type_cookie, cookies::REGISTRATION_TYPE_TOKEN@, "Google"@)
            },
            AuthorizedOutcome::Authenticated { grant } => accounts.spec_by_email(profile.email@)
                matches Some(a) && session_granted(
                grant,
                a.id,
                *old(sessions),
                *final(sessions),
                now,
            ),
        },
{
    let user_id = match accounts.find_user_by_email(&profile.email) {
        Some(a) => a.id,
        None => {
            let email_cookie = cookies::create_secure_cookie(
                cookies::REGISTRATION_EMAIL_TOKEN,
                profile.email,
            );
            let type_cookie = cookies::create_secure_cookie(
                cookies::REGISTRATION_TYPE_TOKEN,
                RegistrationType::Google.as_str().to_owned(),
            );
            return AuthorizedOutcome::RegistrationDetails { email_cookie, type_cookie };
        },
    };
    let (token, cookie) = set_session_token(random, user_id, sessions, now);
    AuthorizedOutcome::Authenticated {
        grant: GrantedSession { account_id: user_id, token, cookie },
    }
}

/// OAuth state is single-use: what initiation stored for a state resolves
/// to the verifier at any time strictly before expiry — so one consumption
/// before expiry succeeds and returns it — while after any consumption the
/// store no longer finds the state, so a second consumption at any time
/// finds nothing live and fails as `InvalidOrExpiredState`.
pub proof fn lemma_state_single_use(
    stored: ExpiringStore,
    consumed: ExpiringStore,
    state: Seq<char>,
    verifier: Seq<char>,
    expiry: u64,
    t1: u64,
    t2: u64,
)
    requires
        stored.spec_find(state) == Some((verifier, expiry)),
        consumed.spec_find(state) is None,
    ensures
        t1 < expiry ==> live_value(stored.spec_find(state), t1) == Some(verifier),
        t1 >= expiry ==> live_value(stored.spec_find(state), t1) is None,
        live_value(consumed.spec_find(state), t2) is None,
{
}

} // verus!
