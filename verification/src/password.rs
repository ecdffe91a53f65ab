//! Credential hashing and verification through the scrypt password-hash
//! scheme.
//!
//! The outside scheme is deterministic: the hash of a password and salt is a
//! self-describing PHC string, and verification re-derives the hash from the
//! parameters in that string and compares in constant time.  Two named
//! results stand for those computations; the trusted wrappers state of them
//! only what the scheme's source shows, in particular that hashing and then
//! verifying the same password succeeds.

use scrypt::password_hash::{PasswordHash, PasswordHasher, PasswordVerifier};
use vstd::prelude::*;

verus! {

/// Errors of the password-hash scheme, declared so that wrappers can hand
/// them back for the library to map.
#[verifier::external_type_specification]
#[verifier::external_body]
pub struct ExPasswordHashError(scrypt::password_hash::Error);

/// Whether `phc` parses as a PHC hash string: the result of
/// `PasswordHash::new`, a function of the string alone.
pub uninterp spec fn phc_valid(phc: Seq<char>) -> bool;

/// Whether verifying `password` against the parsed hash string `phc`
/// succeeds: the result of `Scrypt.verify_password`, a function of the two
/// arguments alone (the scheme re-derives the hash from the salt and
/// parameters carried inside `phc` and compares).
pub uninterp spec fn scrypt_matches(password: Seq<char>, phc: Seq<char>) -> bool;

/// The scheme's self-describing tag: the string opens with `$scrypt$` and
/// carries more after it, as every PHC string the hasher renders does.
pub open spec fn has_scrypt_tag(s: Seq<char>) -> bool {
    s.len() > 8 && s.subrange(0, 8) == "$scrypt$"@
}

/// Relies on SaltString::generate and Scrypt.hash_password, taken together
/// so that the salt the hasher consumes is always one the generator
/// produced: generation encodes sixteen fresh entropy bytes as strict
/// unpadded Base64, exactly the form hashing decodes, and the scheme's
/// default output length is within its bounds, so the derivation succeeds
/// for every password.  The result is the PHC string for this password and
/// the fresh salt: it opens with the scheme's `$scrypt$` tag, parses back,
/// and verifying the same password against it succeeds, because
/// verification re-derives the hash from the salt and parameters embedded
/// in the string.
#[verifier::external_body]
pub(crate) fn hash_with_fresh_salt(password: &str) -> (h: String)
    ensures
        phc_valid(h@),
        scrypt_matches(password@, h@),
        has_scrypt_tag(h@),
{
    let salt = scrypt::password_hash::SaltString::generate(&mut rand_core::OsRng);
    scrypt::Scrypt
        .hash_password(password.as_bytes(), &salt)
        .expect("hashing with a generated salt cannot fail")
        .to_string()
}

/// Relies on PasswordHash::new and Scrypt.verify_password, taken together
/// because the parsed hash borrows the string and cannot cross the trusted
/// boundary alone: the error is exactly a parse failure of `phc`, and the
/// boolean is exactly whether verification of `password` against `phc`
/// succeeded.
#[verifier::external_body]
pub(crate) fn scrypt_verify_password(password: &str, phc: &str) -> (r: Result<
    bool,
    scrypt::password_hash::Error,
>)
    ensures
        r matches Ok(b) ==> phc_valid(phc@) && b == scrypt_matches(password@, phc@),
        r is Err ==> !phc_valid(phc@),
{
    match PasswordHash::new(phc) {
        Ok(parsed) => Ok(scrypt::Scrypt.verify_password(password.as_bytes(), &parsed).is_ok()),
        Err(e) => Err(e),
    }
}

/// The stored credential is never the plaintext it was derived from, for
/// any password that does not itself open with the scheme's tag: every
/// rendered hash carries the tag, so the two strings differ.
pub proof fn lemma_hash_is_not_the_plaintext(password: Seq<char>, h: Seq<char>)
    requires
        has_scrypt_tag(h),
        !has_scrypt_tag(password),
    ensures
        h != password,
{
}

} // verus!
