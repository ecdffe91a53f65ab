use simple_messenger::account::{AccountsStore, CreateUserData, CreateUserError};
use simple_messenger::auth::{
    authenticate, go_to_registration_details_step, register, AuthorizateError, AuthorizatePayload,
    RegisterError, RegisterPayload,
};
use simple_messenger::codec::u128_to_dec;
use simple_messenger::cookies::{
    REGISTRATION_EMAIL_TOKEN, REGISTRATION_PASSWORD_TOKEN, REGISTRATION_TYPE_TOKEN, SESSION_TOKEN,
};
use simple_messenger::session::{
    resolve_session, set_session_token, SessionContext, SessionContextError, TokenRng,
    SESSION_TOKEN_EXPIRED,
};
use simple_messenger::store::ExpiringStore;
use simple_messenger::validator::{validate_register_payload, ValidatedJson, ValidatedJsonError};

fn payload(email: &str, password: &str, name: &str) -> RegisterPayload {
    RegisterPayload {
        email: email.to_string(),
        password: password.to_string(),
        name: name.to_string(),
    }
}

#[test]
fn new_email_signup_grants_session() {
    let mut accounts = AccountsStore::new();
    let mut sessions = ExpiringStore::new();
    let mut rng = TokenRng::new();
    let now: u64 = 1_000;

    let ValidatedJson(p) =
        validate_register_payload(payload("a@x.com", "Secret123", "Ada")).unwrap();
    let grant = register(&mut accounts, &mut rng, &mut sessions, p, now).unwrap();

    // the session cookie is present and fully protected
    assert_eq!(grant.cookie.name, SESSION_TOKEN);
    assert_eq!(grant.cookie.value, u128_to_dec(grant.token));
    assert!(grant.cookie.http_only);
    assert!(grant.cookie.secure);
    assert!(grant.cookie.same_site_strict);
    assert_eq!(grant.cookie.path, "/");
    assert!(grant.cookie.session_expiry);

    // a later request with that cookie resolves to Ada's account id
    let (resolved, clear) = resolve_session(&sessions, Some(&grant.cookie.value), now + 10);
    assert!(!clear);
    assert_eq!(resolved.unwrap().user_id, grant.account_id);

    let ada = accounts.find_user_by_email(&"a@x.com".to_string()).unwrap();
    assert_eq!(ada.name, "Ada");
    assert_eq!(ada.id, grant.account_id);

    // the stored credential is a PHC hash, never the password itself
    let stored = ada.password_hash.as_ref().unwrap();
    assert!(stored.starts_with("$scrypt$"));
    assert_ne!(stored, "Secret123");
}

#[test]
fn duplicate_email_is_refused_without_session() {
    let mut accounts = AccountsStore::new();
    let mut sessions = ExpiringStore::new();
    let mut rng = TokenRng::new();

    register(&mut accounts, &mut rng, &mut sessions, payload("a@x.com", "Secret123", "Ada"), 0)
        .unwrap();
    let second =
        register(&mut accounts, &mut rng, &mut sessions, payload("a@x.com", "Other456", "Bob"), 5);
    match second {
        Err(RegisterError::AccountWithSameEmailAlreadyExists) => {}
        _ => panic!("a duplicate email must be refused"),
    }
    // no new account: the stored one is still Ada's
    let a = accounts.find_user_by_email(&"a@x.com".to_string()).unwrap();
    assert_eq!(a.name, "Ada");
}

/// A real scrypt PHC hash of "Secret123"; the cheap cost parameters it
/// embeds keep verification quick, since verification re-derives with the
/// parameters carried in the string.
const SECRET123_PHC: &str = "$scrypt$ln=4,r=8,p=1$YWJjZGVmZ2hpamtsbW5vcA$7SzKyjvtRBx48/7e9FySZ1p2oZwpjNJ0slqJkgsvYyI";

fn store_with_ada() -> AccountsStore {
    let mut accounts = AccountsStore::new();
    accounts
        .create_user(CreateUserData {
            email: "a@x.com".to_string(),
            password: SECRET123_PHC.to_string(),
            name: "Ada".to_string(),
        })
        .unwrap();
    accounts
}

#[test]
fn password_round_trip_authenticates() {
    let accounts = store_with_ada();
    let mut sessions = ExpiringStore::new();
    let mut rng = TokenRng::new();

    let good = AuthorizatePayload { email: "a@x.com".to_string(), password: "Secret123".to_string() };
    let grant = authenticate(&accounts, &mut rng, &mut sessions, good, 10).unwrap();
    let (resolved, _) = resolve_session(&sessions, Some(&grant.cookie.value), 20);
    assert_eq!(resolved.unwrap().user_id, grant.account_id);
}

#[test]
fn wrong_password_is_denied() {
    let accounts = store_with_ada();
    let mut sessions = ExpiringStore::new();
    let mut rng = TokenRng::new();

    let bad = AuthorizatePayload { email: "a@x.com".to_string(), password: "wrongpassword".to_string() };
    match authenticate(&accounts, &mut rng, &mut sessions, bad, 10) {
        Err(AuthorizateError::InvalidPassword) => {}
        _ => panic!("a wrong password must be denied"),
    }
}

#[test]
fn unparsable_stored_hash_is_its_own_failure() {
    let mut accounts = AccountsStore::new();
    accounts
        .create_user(CreateUserData {
            email: "a@x.com".to_string(),
            password: "not a phc string".to_string(),
            name: "Ada".to_string(),
        })
        .unwrap();
    let mut sessions = ExpiringStore::new();
    let mut rng = TokenRng::new();
    let p = AuthorizatePayload { email: "a@x.com".to_string(), password: "Secret123".to_string() };
    match authenticate(&accounts, &mut rng, &mut sessions, p, 0) {
        Err(AuthorizateError::PasswordHashError(_)) => {}
        _ => panic!("an unparsable stored hash must be reported as such"),
    }
}

#[test]
fn unknown_account_is_denied() {
    let accounts = AccountsStore::new();
    let mut sessions = ExpiringStore::new();
    let mut rng = TokenRng::new();
    let p = AuthorizatePayload {
        email: "nonexistent@x.com".to_string(),
        password: "anything".to_string(),
    };
    match authenticate(&accounts, &mut rng, &mut sessions, p, 0) {
        Err(AuthorizateError::AccountNotExists) => {}
        _ => panic!("an unknown email must be denied"),
    }
}

#[test]
fn session_ttl_expires_and_clears() {
    let mut accounts = AccountsStore::new();
    let mut sessions = ExpiringStore::new();
    let mut rng = TokenRng::new();
    let issued_at: u64 = 1_000;
    let grant = register(
        &mut accounts,
        &mut rng,
        &mut sessions,
        payload("a@x.com", "Secret123", "Ada"),
        issued_at,
    )
    .unwrap();

    // strictly before the expiry moment: resolves to the issuing account
    let just_before = issued_at + SESSION_TOKEN_EXPIRED - 1;
    let (resolved, clear) = resolve_session(&sessions, Some(&grant.cookie.value), just_before);
    assert!(!clear);
    assert_eq!(resolved.unwrap().user_id, grant.account_id);

    // from the expiry moment on: not found, and the cookie is to be cleared
    let at_expiry = issued_at + SESSION_TOKEN_EXPIRED;
    let (resolved, clear) = resolve_session(&sessions, Some(&grant.cookie.value), at_expiry);
    match resolved {
        Err(SessionContextError::AuthFailInvalidSessionToken) => {}
        _ => panic!("an expired token must be invalid"),
    }
    assert!(clear);
}

#[test]
fn malformed_stored_identity_is_its_own_failure() {
    let mut sessions = ExpiringStore::new();
    // a session entry whose value is not a well-formed account identifier
    sessions.set_ex("tok".to_string(), "not-a-number".to_string(), 600, 0);
    let (resolved, clear) = resolve_session(&sessions, Some(&"tok".to_string()), 1);
    match resolved {
        Err(SessionContextError::UuidError) => {}
        _ => panic!("a malformed stored identity must be reported as such"),
    }
    assert!(!clear);
}

#[test]
fn accounts_store_enforces_unique_emails() {
    let mut accounts = AccountsStore::new();
    let first = accounts.create_user(CreateUserData {
        email: "a@x.com".to_string(),
        password: "hash-one".to_string(),
        name: "Ada".to_string(),
    });
    assert!(first.is_ok());
    let second = accounts.create_user(CreateUserData {
        email: "a@x.com".to_string(),
        password: "hash-two".to_string(),
        name: "Bob".to_string(),
    });
    match second {
        Err(CreateUserError::UniqueViolation) => {}
        _ => panic!("a second account with the same email must be refused"),
    }
    // identifiers are assigned in order and resolvable
    let id = first.unwrap();
    assert_eq!(accounts.find_user_by_id(id).unwrap().name, "Ada");
    assert!(accounts.find_user_by_id(id + 1).is_none());
}

#[test]
fn absent_cookie_is_its_own_failure() {
    let sessions = ExpiringStore::new();
    let (resolved, clear) = resolve_session(&sessions, None, 0);
    match resolved {
        Err(SessionContextError::AuthFailNoSessionToken) => {}
        _ => panic!("a missing cookie must be reported as such"),
    }
    assert!(!clear);
}

#[test]
fn tokens_are_distinct_and_map_to_their_account() {
    let mut sessions = ExpiringStore::new();
    let mut rng = TokenRng::new();
    let account: u128 = 7;
    let mut tokens: Vec<u128> = Vec::new();
    for _ in 0..50 {
        let (token, cookie) = set_session_token(&mut rng, account, &mut sessions, 0);
        tokens.push(token);
        let (resolved, _) = resolve_session(&sessions, Some(&cookie.value), 1);
        assert_eq!(resolved.unwrap().user_id, account);
    }
    let mut sorted = tokens.clone();
    sorted.sort_unstable();
    sorted.dedup();
    assert_eq!(sorted.len(), tokens.len(), "fifty freshly minted tokens must be distinct");
}

#[test]
fn context_extraction_requires_identity() {
    let ctx = SessionContext { user_id: 9 };
    assert_eq!(SessionContext::from_request_parts(Some(&ctx)).unwrap().user_id, 9);
    match SessionContext::from_request_parts(None) {
        Err(SessionContextError::AuthFailNoSessionToken) => {}
        _ => panic!("a handler without identity must fail"),
    }
}

#[test]
fn registration_bridge_sets_three_cookies() {
    let (email_c, type_c, password_c) = go_to_registration_details_step(
        "a@x.com".to_string(),
        "Secret123".to_string(),
        "Secret123".to_string(),
    )
    .unwrap();
    assert_eq!(email_c.name, REGISTRATION_EMAIL_TOKEN);
    assert_eq!(email_c.value, "a@x.com");
    assert_eq!(type_c.name, REGISTRATION_TYPE_TOKEN);
    assert_eq!(type_c.value, "Email");
    assert_eq!(password_c.name, REGISTRATION_PASSWORD_TOKEN);
    assert_eq!(password_c.value, "Secret123");
    assert!(email_c.http_only && type_c.http_only && password_c.http_only);
    assert!(email_c.secure && type_c.secure && password_c.secure);
    assert!(email_c.same_site_strict && type_c.same_site_strict && password_c.same_site_strict);
}

#[test]
fn registration_bridge_refuses_mismatch() {
    let r = go_to_registration_details_step(
        "a@x.com".to_string(),
        "Secret123".to_string(),
        "Other456".to_string(),
    );
    assert_eq!(r.unwrap_err(), "Passwords are not the same.");
}

#[test]
fn register_payload_bounds_are_checked() {
    assert!(validate_register_payload(payload("a@x.com", "Secret123", "Ada")).is_ok());
    for bad in [
        payload("not-an-email", "Secret123", "Ada"),
        payload("a@x.com", "", "Ada"),
        payload("a@x.com", "Secret123", ""),
        payload("a@x.com", &"x".repeat(65), "Ada"),
        payload("a@x.com", "Secret123", &"x".repeat(33)),
    ] {
        match validate_register_payload(bad) {
            Err(ValidatedJsonError::ValidationError) => {}
            _ => panic!("an out-of-bounds payload must be refused"),
        }
    }
}
