//! Validated request payloads.
//!
//! The transport layer wraps payload extraction in `ValidatedJson`, which
//! rejects a body that does not deserialize or whose fields break the
//! registration bounds.  The bound check itself is the verified part.

use vstd::prelude::*;
use vstd::string::StrSliceExecFns;

use crate::auth::RegisterPayload;
use crate::validation::{check_email, is_email, MAX_USER_NAME_SIZE, MAX_USER_PASSWORD_SIZE};

verus! {

/// A payload that passed validation.
#[derive(Debug)]
pub struct ValidatedJson<T>(pub T);

/// Why a payload was rejected.
#[derive(Debug)]
pub enum ValidatedJsonError {
    /// The body did not deserialize.  Only the transport layer can
    /// encounter this; the library never produces it.
    JsonRejection,
    /// A field broke its bounds.
    ValidationError,
}

/// The bounds of a registration payload: the email is valid under the HTML5
/// specification, and the password and name each hold one to their maximum
/// of characters.
pub open spec fn register_payload_valid(p: RegisterPayload) -> bool {
    &&& is_email(p.email@)
    &&& 0 < p.password@.len() <= MAX_USER_PASSWORD_SIZE
    &&& 0 < p.name@.len() <= MAX_USER_NAME_SIZE
}

/// Check a registration payload against its bounds; a payload that passes
/// comes back wrapped, as the route's extractor hands it on.
pub fn validate_register_payload(payload: RegisterPayload) -> (r: Result<
    ValidatedJson<RegisterPayload>,
    ValidatedJsonError,
>)
    ensures
        match r {
            Ok(v) => v.0 == payload && register_payload_valid(payload),
            Err(e) => e is ValidationError && !register_payload_valid(payload),
        },
{
    if !check_email(&payload.email) {
        return Err(ValidatedJsonError::ValidationError);
    }
    let password_len = payload.password.as_str().unicode_len();
    if password_len == 0 || password_len > MAX_USER_PASSWORD_SIZE {
        return Err(ValidatedJsonError::ValidationError);
    }
    let name_len = payload.name.as_str().unicode_len();
    if name_len == 0 || name_len > MAX_USER_NAME_SIZE {
        return Err(ValidatedJsonError::ValidationError);
    }
    Ok(ValidatedJson(payload))
}

} // verus!
