//! Cookies as values, with the attributes the security rules demand.
//!
//! Every cookie this library sets is http-only, secure, same-site strict,
//! scoped to the whole site, and bounded by the browser session.  The cookie
//! is modelled as a plain struct; the transport layer turns it into a header.

use vstd::prelude::*;
use vstd::string::StringExecFns;

verus! {

/// Name of the session cookie.
pub const SESSION_TOKEN: &'static str = "session-token";

/// Name of the registration-bridge cookie carrying the email.
pub const REGISTRATION_EMAIL_TOKEN: &'static str = "registration_email";

/// Name of the registration-bridge cookie carrying the registration type.
pub const REGISTRATION_TYPE_TOKEN: &'static str = "registration_type";

/// Name of the registration-bridge cookie carrying the password.
pub const REGISTRATION_PASSWORD_TOKEN: &'static str = "registration_password";

/// A cookie with its security attributes.
#[derive(Debug)]
pub struct Cookie {
    pub name: String,
    pub value: String,
    pub http_only: bool,
    pub secure: bool,
    pub same_site_strict: bool,
    pub path: String,
    pub session_expiry: bool,
}

/// A cookie carrying `value` under `name` with every protection on:
/// unreadable by page scripts, never sent over plaintext, never sent
/// cross-site, valid for the whole site, gone with the browser session.
pub open spec fn is_secure_cookie(c: Cookie, name: Seq<char>, value: Seq<char>) -> bool {
    &&& c.name@ == name
    &&& c.value@ == value
    &&& c.http_only
    &&& c.secure
    &&& c.same_site_strict
    &&& c.path@ == "/"@
    &&& c.session_expiry
}

/// Build a cookie with every protection on.
pub fn create_secure_cookie(key: &'static str, value: String) -> (c: Cookie)
    ensures
        is_secure_cookie(c, key@, value@),
{
    Cookie {
        name: key.to_owned(),
        value,
        http_only: true,
        secure: true,
        same_site_strict: true,
        path: String::from_str("/"),
        session_expiry: true,
    }
}

} // verus!
