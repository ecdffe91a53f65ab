//! Password authentication and registration.
//!
//! Both flows read or write the accounts store and end, on success, by
//! issuing a session.  Authentication collapses "no such account" and "wrong
//! password" into one client-facing message (the response mapping proves
//! it); registration hashes the password with a fresh random salt and hands
//! the new account to the session issuer.

use vstd::prelude::*;

use crate::account::{AccountsStore, CreateUserData};
use crate::cookies::{self, is_secure_cookie, Cookie};
use crate::oauth::RegistrationType;
use crate::validation::validate_confirm;
use crate::codec::dec_digits;
use crate::password::{has_scrypt_tag, hash_with_fresh_salt, phc_valid, scrypt_matches,
    scrypt_verify_password};
use crate::session::{set_session_token, TokenRng, SESSION_TOKEN_EXPIRED};
use crate::store::ExpiringStore;

verus! {

/// Payload of an authentication request.
pub struct AuthorizatePayload {
    pub email: String,
    pub password: String,
}

/// Why authentication failed.
#[derive(Debug)]
pub enum AuthorizateError {
    /// No account holds the email.
    AccountNotExists,
    /// The password does not match the stored hash, or the account has no
    /// password at all.
    InvalidPassword,
    /// The stored hash string does not parse.
    PasswordHashError(scrypt::password_hash::Error),
    /// The accounts store could not be reached.  Only the transport layer
    /// can encounter this; the in-memory model never produces it.
    Db,
    /// The session store could not be reached.  Only the transport layer
    /// can encounter this; the in-memory model never produces it.
    RedisError,
}

/// A session granted to an account: its identifier, the minted token, and
/// the cookie that carries it.
#[derive(Debug)]
pub struct GrantedSession {
    pub account_id: u128,
    pub token: u128,
    pub cookie: Cookie,
}

/// The session `grant` records `account_id` in the session namespace under
/// its fresh token for three hours from `now`, leaves every other session
/// alone, and carries the token in a fully protected cookie.
pub open spec fn session_granted(
    grant: GrantedSession,
    account_id: u128,
    pre: ExpiringStore,
    post: ExpiringStore,
    now: u64,
) -> bool {
    &&& grant.account_id == account_id
    &&& post.spec_find(dec_digits(grant.token as nat)) == Some(
        (dec_digits(account_id as nat), (now + SESSION_TOKEN_EXPIRED) as u64),
    )
    &&& forall|k: Seq<char>|
        k != dec_digits(grant.token as nat) ==> #[trigger] post.spec_find(k) == pre.spec_find(k)
    &&& is_secure_cookie(grant.cookie, crate::cookies::SESSION_TOKEN@, dec_digits(grant.token as nat))
}

/// The exact condition under which authentication of `email` with
/// `password` against `accounts` fails with `e`.  The store-unreachable
/// failures never arise from the model.
pub open spec fn authenticate_denied(
    accounts: AccountsStore,
    email: Seq<char>,
    password: Seq<char>,
    e: AuthorizateError,
) -> bool {
    match e {
        AuthorizateError::AccountNotExists => accounts.spec_by_email(email) is None,
        AuthorizateError::InvalidPassword => accounts.spec_by_email(email) matches Some(a)
            && match a.password_hash {
            Some(h) => phc_valid(h@) && !scrypt_matches(password, h@),
            None => true,
        },
        AuthorizateError::PasswordHashError(_) => accounts.spec_by_email(email) matches Some(a) && (
        a.password_hash matches Some(h) && !phc_valid(h@)),
        AuthorizateError::Db => false,
        AuthorizateError::RedisError => false,
    }
}

/// Authenticate an email/password pair against the accounts store and, on
/// success, issue a session for the account.  Exactly one of the outcomes
/// holds: the account is missing; its stored hash does not parse; the
/// password does not match (or the account has no password); or the
/// password matches and a session is granted.  On every failure the session
/// store and the token stream are untouched.
pub fn authenticate(
    accounts: &AccountsStore,
    random: &mut TokenRng,
    sessions: &mut ExpiringStore,
    payload: AuthorizatePayload,
    now: u64,
) -> (r: Result<GrantedSession, AuthorizateError>)
    requires
        old(sessions).wf(),
        now + SESSION_TOKEN_EXPIRED <= u64::MAX,
    ensures
        final(sessions).wf(),
        match r {
            Ok(grant) => accounts.spec_by_email(payload.email@) matches Some(a) && (
            a.password_hash matches Some(h) && phc_valid(h@) && scrypt_matches(
                payload.password@,
                h@,
            ) && session_granted(grant, a.id, *old(sessions), *final(sessions), now)),
            Err(e) => *final(sessions) == *old(sessions) && *final(random) == *old(random)
                && authenticate_denied(*accounts, payload.email@, payload.password@, e),
        },
{
    let user = match accounts.find_user_by_email(&payload.email) {
        Some(u) => u,
        None => {
            return Err(AuthorizateError::AccountNotExists);
        },
    };
    let stored_hash = match &user.password_hash {
        Some(h) => h,
        None => {
            return Err(AuthorizateError::InvalidPassword);
        },
    };
    match scrypt_verify_password(payload.password.as_str(), stored_hash.as_str()) {
        Ok(true) => {},
        Ok(false) => {
            return Err(AuthorizateError::InvalidPassword);
        },
        Err(e) => {
            return Err(AuthorizateError::PasswordHashError(e));
        },
    }
    let (token, cookie) = set_session_token(random, user.id, sessions, now);
    Ok(GrantedSession { account_id: user.id, token, cookie })
}

/// Payload of a registration request; the route validates it first.
#[derive(Debug)]
pub struct RegisterPayload {
    pub email: String,
    pub password: String,
    pub name: String,
}

/// Why registration failed.
#[derive(Debug)]
pub enum RegisterError {
    /// An account with the same email already exists.
    AccountWithSameEmailAlreadyExists,
    /// The accounts store could not be reached.  Only the transport layer
    /// can encounter this; the in-memory model never produces it.
    Db,
    /// Hashing the password failed.  The scheme's hasher succeeds for every
    /// password and generated salt, so the library never produces this.
    PasswordHash(scrypt::password_hash::Error),
    /// The session store could not be reached.  Only the transport layer
    /// can encounter this; the in-memory model never produces it.
    Redis,
}

/// Register a new account: refuse a taken email, hash the password with a
/// fresh random salt, create the account, and issue a session for it.  On
/// success the created account holds a hash that the given password
/// verifies against — so a later authentication with the same credentials
/// succeeds — and every other account and session is untouched.  A free
/// email is owed success: the only failure is a taken email, and then both
/// stores and the token stream are untouched.
pub fn register(
    accounts: &mut AccountsStore,
    random: &mut TokenRng,
    sessions: &mut ExpiringStore,
    payload: RegisterPayload,
    now: u64,
) -> (r: Result<GrantedSession, RegisterError>)
    requires
        old(accounts).wf(),
        old(sessions).wf(),
        now + SESSION_TOKEN_EXPIRED <= u64::MAX,
    ensures
        final(accounts).wf(),
        final(sessions).wf(),
        match r {
            Ok(grant) => {
                &&& old(accounts).spec_by_email(payload.email@) is None
                &&& final(accounts).spec_len() == old(accounts).spec_len() + 1
                &&& final(accounts).spec_by_email(payload.email@) matches Some(a) && (a.id
                    == grant.account_id && a.email@ == payload.email@ && a.name@ == payload.name@
                    && (a.password_hash matches Some(h) && phc_valid(h@) && scrypt_matches(
                    payload.password@,
                    h@,
                ) && has_scrypt_tag(h@)))
                &&& forall|e: Seq<char>|
                    e != payload.email@ ==> #[trigger] final(accounts).spec_by_email(e) == old(
                        accounts,
                    ).spec_by_email(e)
                &&& session_granted(grant, grant.account_id, *old(sessions), *final(sessions), now)
            },
            Err(e) => *final(accounts) == *old(accounts) && *final(sessions) == *old(sessions)
                && *final(random) == *old(random) && match e {
                RegisterError::AccountWithSameEmailAlreadyExists => old(accounts).spec_by_email(
                    payload.email@,
                ) is Some,
                RegisterError::PasswordHash(_) => false,
                RegisterError::Db => false,
                RegisterError::Redis => false,
            },
        },
{
    if accounts.find_user_by_email(&payload.email).is_some() {
        return Err(RegisterError::AccountWithSameEmailAlreadyExists);
    }
    let password_hash = hash_with_fresh_salt(payload.password.as_str());
    let created = accounts.create_user(
        CreateUserData { email: payload.email, password: password_hash, name: payload.name },
    );
    let id = match created {
        Ok(id) => id,
        Err(_) => {
            // the email was checked absent just above, and nothing touched
            // the store in between, so the unique constraint cannot fire
            proof {
                assert(false);
            }
            return Err(RegisterError::AccountWithSameEmailAlreadyExists);
        },
    };
    let (token, cookie) = set_session_token(random, id, sessions, now);
    Ok(GrantedSession { account_id: id, token, cookie })
}

/// The email-registration bridge: check that the password and its
/// confirmation agree, then hand back the three fully protected cookies
/// that carry the email, the registration type and the password to the
/// details-collection step.  The server re-validates all bridged fields at
/// the final step; the cookies only bridge the two pages.
pub fn go_to_registration_details_step(email: String, password: String, confirm: String) -> (r:
    Result<(Cookie, Cookie, Cookie), &'static str>)
    ensures
        match r {
            Ok(cs) => {
                &&& password@ == confirm@
                &&& is_secure_cookie(cs.0, cookies::REGISTRATION_EMAIL_TOKEN@, email@)
                &&& is_secure_cookie(cs.1, cookies::REGISTRATION_TYPE_TOKEN@, "Email"@)
                &&& is_secure_cookie(cs.2, cookies::REGISTRATION_PASSWORD_TOKEN@, password@)
            },
            Err(m) => password@ != confirm@ && m@ == "Passwords are not the same."@,
        },
{
    match validate_confirm(&password, &confirm) {
        Ok(_) => {},
        Err(m) => {
            return Err(m);
        },
    }
    let email_cookie = cookies::create_secure_cookie(cookies::REGISTRATION_EMAIL_TOKEN, email);
    let type_cookie = cookies::create_secure_cookie(
        cookies::REGISTRATION_TYPE_TOKEN,
        RegistrationType::Email.as_str().to_owned(),
    );
    let password_cookie = cookies::create_secure_cookie(
        cookies::REGISTRATION_PASSWORD_TOKEN,
        password,
    );
    Ok((email_cookie, type_cookie, password_cookie))
}

/// Password round trip: an account whose stored hash was produced for a
/// password — which is what registration stores — cannot be denied by
/// authentication with that same password: no failure condition holds, so
/// the contract of `authenticate` leaves only the granted outcome.
pub proof fn lemma_password_round_trip(
    accounts: AccountsStore,
    email: Seq<char>,
    password: Seq<char>,
)
    requires
        accounts.spec_by_email(email) matches Some(a) && (a.password_hash matches Some(h)
            && phc_valid(h@) && scrypt_matches(password, h@)),
    ensures
        forall|e: AuthorizateError| !authenticate_denied(accounts, email, password, e),
{
}

/// The statable half of the mismatch direction: when the supplied password
/// does not verify against the account's stored hash, the only denial the
/// authentication contract admits is the invalid-password one — and its
/// granted outcome demands a match, so the call can only end in that
/// denial, with the stores untouched.
pub proof fn lemma_wrong_password_denied(
    accounts: AccountsStore,
    email: Seq<char>,
    password: Seq<char>,
)
    requires
        accounts.spec_by_email(email) matches Some(a) && (a.password_hash matches Some(h)
            && phc_valid(h@) && !scrypt_matches(password, h@)),
    ensures
        forall|e: AuthorizateError|
            #[trigger] authenticate_denied(accounts, email, password, e)
                ==> e is InvalidPassword,
{
}

} // verus!
