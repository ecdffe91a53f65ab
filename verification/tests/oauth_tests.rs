use simple_messenger::account::AccountsStore;
use simple_messenger::auth::{register, RegisterPayload};
use simple_messenger::cookies::{REGISTRATION_EMAIL_TOKEN, REGISTRATION_TYPE_TOKEN, SESSION_TOKEN};
use simple_messenger::oauth::{
    authorized, google, insert_state, take_state, AuthorizedError, AuthorizedOutcome,
    RegistrationType, UserProfile, OAUTH_STATE_EXPIRED,
};
use simple_messenger::session::{resolve_session, TokenRng};
use simple_messenger::store::ExpiringStore;

#[test]
fn oauth_state_single_use() {
    let mut oauth_state = ExpiringStore::new();
    insert_state(&mut oauth_state, "S".to_string(), "verifier".to_string(), 600, 0);

    let first = take_state(&mut oauth_state, &"S".to_string(), 10);
    assert_eq!(first.unwrap(), "verifier");

    let second = take_state(&mut oauth_state, &"S".to_string(), 10);
    match second {
        Err(AuthorizedError::InvalidOrExpiredState) => {}
        _ => panic!("a second consumption of the same state must fail"),
    }
}

#[test]
fn oauth_state_expires() {
    let mut oauth_state = ExpiringStore::new();
    insert_state(&mut oauth_state, "S".to_string(), "verifier".to_string(), 600, 0);
    match take_state(&mut oauth_state, &"S".to_string(), 600) {
        Err(AuthorizedError::InvalidOrExpiredState) => {}
        _ => panic!("an expired state must fail"),
    }
}

#[test]
fn initiate_stores_consumable_state() {
    let mut oauth_state = ExpiringStore::new();
    let now: u64 = 100;
    let initiation = google(&mut oauth_state, now);
    // the state is held for ten minutes and consumed exactly once
    let verifier = take_state(&mut oauth_state, &initiation.state, now + OAUTH_STATE_EXPIRED - 1)
        .unwrap();
    assert!(!verifier.is_empty());
    // the S256 challenge is derived from the verifier, never the verifier itself
    assert_ne!(initiation.pkce_challenge, verifier);
    assert!(take_state(&mut oauth_state, &initiation.state, now).is_err());
}

#[test]
fn initiations_use_fresh_state_tokens() {
    let mut oauth_state = ExpiringStore::new();
    let a = google(&mut oauth_state, 0);
    let b = google(&mut oauth_state, 0);
    assert_ne!(a.state, b.state);
}

#[test]
fn oauth_new_user_goes_to_details_with_bridge_cookies() {
    let accounts = AccountsStore::new();
    let mut sessions = ExpiringStore::new();
    let mut rng = TokenRng::new();
    let profile = UserProfile { email: "new@x.com".to_string() };

    match authorized(&accounts, &mut rng, &mut sessions, profile, 0) {
        AuthorizedOutcome::RegistrationDetails { email_cookie, type_cookie } => {
            assert_eq!(email_cookie.name, REGISTRATION_EMAIL_TOKEN);
            assert_eq!(email_cookie.value, "new@x.com");
            assert_eq!(type_cookie.name, REGISTRATION_TYPE_TOKEN);
            assert_eq!(type_cookie.value, "Google");
            assert!(email_cookie.http_only && email_cookie.secure && email_cookie.same_site_strict);
            assert!(type_cookie.http_only && type_cookie.secure && type_cookie.same_site_strict);
        }
        AuthorizedOutcome::Authenticated { .. } => {
            panic!("an unknown profile email must not be granted a session")
        }
    }
}

#[test]
fn oauth_existing_user_is_granted_session() {
    let mut accounts = AccountsStore::new();
    let mut sessions = ExpiringStore::new();
    let mut rng = TokenRng::new();
    let existing = register(
        &mut accounts,
        &mut rng,
        &mut sessions,
        RegisterPayload {
            email: "known@x.com".to_string(),
            password: "Secret123".to_string(),
            name: "Ada".to_string(),
        },
        0,
    )
    .unwrap();

    let profile = UserProfile { email: "known@x.com".to_string() };
    match authorized(&accounts, &mut rng, &mut sessions, profile, 10) {
        AuthorizedOutcome::Authenticated { grant } => {
            assert_eq!(grant.account_id, existing.account_id);
            assert_eq!(grant.cookie.name, SESSION_TOKEN);
            let (resolved, _) = resolve_session(&sessions, Some(&grant.cookie.value), 20);
            assert_eq!(resolved.unwrap().user_id, existing.account_id);
        }
        AuthorizedOutcome::RegistrationDetails { .. } => {
            panic!("a known profile email must be granted a session")
        }
    }
}

#[test]
fn registration_type_names() {
    assert_eq!(RegistrationType::Email.as_str(), "Email");
    assert_eq!(RegistrationType::Google.as_str(), "Google");
}
