//! The password credential component: hashing a plaintext password
//! into a self-describing digest string and verifying a plaintext
//! against a stored digest.
//!
//! Both operations are carried out by the `argon2` crate. What a
//! digest means is opaque here, so the two outcomes are given names:
//! `digest_parses` says a stored string is a well-formed digest, and
//! `digest_matches` says a digest verifies against a password. Both
//! are functions of their text arguments alone: the underlying
//! computation is deterministic, and all cost parameters travel inside
//! the digest itself.

use argon2::{Argon2, PasswordHash, PasswordHasher, PasswordVerifier};
use vstd::prelude::*;

verus! {

/// A failure of the credential component. `HashingError` is an
/// internal failure while producing a fresh digest; `MalformedDigest`
/// means a stored digest could not be parsed, which is distinct from a
/// verification mismatch (a mismatch is a successful `false`).
#[derive(Debug, Clone, Copy, PartialEq, Eq, Structural)]
pub enum CredentialError {
    HashingError,
    MalformedDigest,
}

/// Whether `digest` is a well-formed self-describing digest string,
/// i.e. whether `argon2`'s digest parser accepts it.
pub uninterp spec fn digest_parses(digest: Seq<char>) -> bool;

/// Whether `digest` verifies against `password`: recomputing the hash
/// of `password` with the algorithm, parameters and salt encoded in
/// `digest` reproduces the hash encoded in `digest`.
pub uninterp spec fn digest_matches(digest: Seq<char>, password: Seq<char>) -> bool;

/// Relies on `Argon2::hash_password` with the library's default cost
/// parameters and a fresh random salt: on success the returned PHC
/// string is well formed and verifies against the hashed password
/// (the round trip its documentation promises). The salt is random,
/// so nothing else is claimed of the digest text.
#[verifier::external_body]
pub fn hash_password(password: &str) -> (r: Result<String, CredentialError>)
    ensures
        match r {
            Ok(digest) => digest_parses(digest@) && digest_matches(digest@, password@),
            Err(e) => e == CredentialError::HashingError,
        },
{
    match Argon2::default().hash_password(password.as_bytes()) {
        Ok(digest) => Ok(digest.to_string()),
        Err(_) => Err(CredentialError::HashingError),
    }
}

/// Relies on `PasswordHash::new` to parse the stored digest and on
/// `Argon2::verify_password` to recompute and compare; the comparison
/// is constant-time in the underlying primitive. A digest the parser
/// rejects is the only error; any verification failure, including an
/// unsupported algorithm named inside a parseable digest, is the
/// successful answer `false`.
#[verifier::external_body]
pub fn verify_password(password: &str, digest: &str) -> (r: Result<bool, CredentialError>)
    ensures
        r is Ok <==> digest_parses(digest@),
        match r {
            Ok(b) => b == digest_matches(digest@, password@),
            Err(e) => e == CredentialError::MalformedDigest,
        },
{
    match PasswordHash::new(digest) {
        Ok(parsed) => Ok(
            Argon2::default().verify_password(password.as_bytes(), &parsed).is_ok(),
        ),
        Err(_) => Err(CredentialError::MalformedDigest),
    }
}

} // verus!
