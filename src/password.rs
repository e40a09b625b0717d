//! Password hashing and checking.
use vstd::prelude::*;

verus! {

/// Whether bcrypt accepts the password against the stored hash.
pub uninterp spec fn bcrypt_accepts(password: Seq<char>, hash: Seq<char>) -> bool;

/// Relies on `bcrypt::hash` at `bcrypt::DEFAULT_COST`: a hash with a fresh
/// random salt, which `bcrypt::verify` accepts for the same password. It
/// fails only when no randomness can be had.
#[verifier::external_body]
pub(crate) fn hash_password(password: &str) -> (r: Option<String>)
    ensures
        r matches Some(h) ==> bcrypt_accepts(password@, h@),
{
    bcrypt::hash(password, bcrypt::DEFAULT_COST).ok()
}

/// Relies on `bcrypt::verify`; a hash it cannot read counts as a mismatch.
/// An empty hash is such a one: it does not split into prefix, cost and
/// salt with hash.
#[verifier::external_body]
pub(crate) fn verify_password(password: &str, hash: &str) -> (r: bool)
    ensures
        r == bcrypt_accepts(password@, hash@),
        hash@.len() == 0 ==> !r,
{
    bcrypt::verify(password, hash).unwrap_or(false)
}

} // verus!
