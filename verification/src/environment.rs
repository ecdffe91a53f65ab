//! Configuration the server consumes.
//!
//! The values come from the process environment and from secret files, which
//! only the transport layer can read; the library holds them as plain
//! strings and owns the defaulting rule for optional hosts and the
//! precedence rule for secret sources.

use vstd::prelude::*;
use vstd::string::StringExecFns;

verus! {

/// Configuration of the running server: store endpoints and credentials,
/// and the identity provider's client settings.
pub struct Environment {
    pub redis_host: String,
    pub redis_password: String,
    pub postgres_host: String,
    pub postgres_password: String,
    pub redirect_url: String,
    pub google_client_id: String,
    pub google_client_secret: String,
}

impl Environment {
    /// Assemble the configuration from the values the transport read: each
    /// field takes its value, and each of the two optional hosts falls back
    /// to its local default where its variable was unset.
    pub fn new(
        redis_host: Option<String>,
        redis_password: String,
        postgres_host: Option<String>,
        postgres_password: String,
        redirect_url: String,
        google_client_id: String,
        google_client_secret: String,
    ) -> (r: Environment)
        ensures
            (match redis_host {
                Some(h) => r.redis_host@ == h@,
                None => r.redis_host@ == "localhost:6379"@,
            }),
            (match postgres_host {
                Some(h) => r.postgres_host@ == h@,
                None => r.postgres_host@ == "localhost:5432"@,
            }),
            r.redis_password@ == redis_password@,
            r.postgres_password@ == postgres_password@,
            r.redirect_url@ == redirect_url@,
            r.google_client_id@ == google_client_id@,
            r.google_client_secret@ == google_client_secret@,
    {
        Environment {
            redis_host: host_or_default(redis_host, "localhost:6379"),
            redis_password,
            postgres_host: host_or_default(postgres_host, "localhost:5432"),
            postgres_password,
            redirect_url,
            google_client_id,
            google_client_secret,
        }
    }
}

/// Where a secret is read from: the file named by the `_FILE` variable when
/// that variable is set, else the plain variable itself.
pub enum SecretSource {
    /// Read the file at this path; a failure to read it is an error even
    /// when the plain variable is also set.
    File(String),
    /// Read the plain environment variable.
    Variable,
}

/// Decide where a secret is read from, given the value of its `_FILE`
/// variable: the file always wins when the variable is set.
pub fn secret_source(file_var: Option<String>) -> (r: SecretSource)
    ensures
        match file_var {
            Some(path) => r matches SecretSource::File(p) && p@ == path@,
            None => r is Variable,
        },
{
    match file_var {
        Some(path) => SecretSource::File(path),
        None => SecretSource::Variable,
    }
}

/// The host to use: the variable's value where it is set, the given default
/// where it is not.
pub fn host_or_default(value: Option<String>, default: &'static str) -> (r: String)
    ensures
        match value {
            Some(s) => r@ == s@,
            None => r@ == default@,
        },
{
    match value {
        Some(s) => s,
        None => String::from_str(default),
    }
}

} // verus!
