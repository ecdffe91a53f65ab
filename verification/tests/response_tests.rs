use simple_messenger::auth::AuthorizateError;
use simple_messenger::codec::u128_to_dec;
use simple_messenger::environment::{host_or_default, secret_source, Environment, SecretSource};
use simple_messenger::response::{api_error_to_response, INTERNAL_SERVER_ERROR_STR};
use simple_messenger::session::SessionContextError;

#[test]
fn denials_are_byte_identical_to_the_client() {
    let not_exists = AuthorizateError::AccountNotExists.api_error_data();
    let wrong_password = AuthorizateError::InvalidPassword.api_error_data();

    // distinct server-side descriptions, for the audit log
    assert_ne!(not_exists.description, wrong_password.description);

    // one indistinguishable client-facing response
    let (status_a, body_a) = api_error_to_response(not_exists, 11);
    let (status_b, body_b) = api_error_to_response(wrong_password, 22);
    assert_eq!(status_a, status_b);
    assert_eq!(status_a, 400);
    assert_eq!(body_a.error.kind, body_b.error.kind);
    assert_eq!(body_a.error.kind, "InvalidEmailOrPassword");
    assert_eq!(body_a.error.uuid, None);
    assert_eq!(body_b.error.uuid, None);
}

#[test]
fn internal_faults_carry_a_correlation_id() {
    let data = SessionContextError::RedisError.api_error_data();
    assert_eq!(data.status_code, 500);
    assert_eq!(data.client_description, INTERNAL_SERVER_ERROR_STR);
    let (status, body) = api_error_to_response(data, 905);
    assert_eq!(status, 500);
    assert_eq!(body.error.kind, INTERNAL_SERVER_ERROR_STR);
    assert_eq!(body.error.uuid, Some(u128_to_dec(905)));
}

#[test]
fn session_denials_are_unauthenticated() {
    let none = SessionContextError::AuthFailNoSessionToken.api_error_data();
    let invalid = SessionContextError::AuthFailInvalidSessionToken.api_error_data();
    assert_eq!(none.status_code, 401);
    assert_eq!(invalid.status_code, 401);
    assert_eq!(none.client_description, "Unauthenticated");
    assert_eq!(invalid.client_description, "Unauthenticated");
}

#[test]
fn optional_hosts_default() {
    assert_eq!(host_or_default(Some("db:5432".to_string()), "localhost:5432"), "db:5432");
    assert_eq!(host_or_default(None, "localhost:6379"), "localhost:6379");
}

#[test]
fn environment_assembles_with_defaults() {
    let env = Environment::new(
        None,
        "redis-pass".to_string(),
        Some("db:5432".to_string()),
        "pg-pass".to_string(),
        "https://app.example.com".to_string(),
        "client-id".to_string(),
        "client-secret".to_string(),
    );
    assert_eq!(env.redis_host, "localhost:6379");
    assert_eq!(env.postgres_host, "db:5432");
    assert_eq!(env.redis_password, "redis-pass");
    assert_eq!(env.postgres_password, "pg-pass");
    assert_eq!(env.redirect_url, "https://app.example.com");
    assert_eq!(env.google_client_id, "client-id");
    assert_eq!(env.google_client_secret, "client-secret");
}

#[test]
fn secret_file_variable_wins() {
    match secret_source(Some("/run/secrets/redis".to_string())) {
        SecretSource::File(path) => assert_eq!(path, "/run/secrets/redis"),
        SecretSource::Variable => panic!("a set file variable must win"),
    }
    match secret_source(None) {
        SecretSource::Variable => {}
        SecretSource::File(_) => panic!("without the file variable the plain variable is read"),
    }
}
