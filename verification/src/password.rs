use vstd::prelude::*;
use crate::errors::Error;

verus! {

/// What `argon2::verify_encoded` answers for a stored encoded hash and a
/// plaintext: whether the plaintext matches (a deterministic function of
/// the two), or nothing when the encoded hash cannot be decoded.
pub uninterp spec fn argon2_verify_of(hash: Seq<char>, password: Seq<u8>) -> Option<bool>;

/// Relies on `rand::random` for thirty-two bytes of cryptographically
/// secure salt. Nothing can be promised of the value drawn.
pub assume_specification<T>[ rand::random::<T> ]() -> (r: T)
    where
        rand::distributions::Standard: rand::distributions::Distribution<T>,
;

/// Relies on `argon2::hash_encoded` with the default configuration: with a
/// thirty-two byte salt and a password within the algorithm's length cap it
/// succeeds, and the encoded string it returns self-describes algorithm,
/// salt and parameters, and verifies against the same password.
#[verifier::external_body]
fn argon2_hash(password: &[u8], salt: &[u8]) -> (r: Result<String, Error>)
    requires
        salt@.len() == 32,
        password@.len() <= 0xffff_ffff,
    ensures
        r matches Ok(h) ==> argon2_verify_of(h@, password@) == Some(true),
        r is Ok,
{
    match argon2::hash_encoded(password, salt, &argon2::Config::default()) {
        Ok(h) => Ok(h),
        Err(_) => Err(Error::HashingFailure),
    }
}

/// Relies on `argon2::verify_encoded`: it decodes the encoded hash and
/// answers whether the plaintext matches, deterministically; it fails only
/// when the encoded hash cannot be decoded, never on a mere mismatch.
#[verifier::external_body]
fn argon2_verify(hash: &str, password: &[u8]) -> (r: Result<bool, Error>)
    ensures
        r matches Ok(b) ==> argon2_verify_of(hash@, password@) == Some(b),
        r is Err ==> argon2_verify_of(hash@, password@) is None,
        r matches Err(e) ==> e is HashingFailure,
{
    match argon2::verify_encoded(hash, password) {
        Ok(b) => Ok(b),
        Err(_) => Err(Error::HashingFailure),
    }
}

/// Hashes a plaintext password under a fresh, randomly drawn thirty-two
/// byte salt; no salt is ever reused. The encoded result self-describes
/// algorithm, salt and parameters, and verifies against the same plaintext.
pub fn hash_password(password: &[u8]) -> (h: String)
    requires
        password@.len() <= 0xffff_ffff,
    ensures
        argon2_verify_of(h@, password@) == Some(true),
{
    let salt = rand::random::<[u8; 32]>();
    argon2_hash(password, &salt).unwrap()
}

/// Verifies a plaintext against a stored encoded hash. A mismatch is the
/// normal `false` answer, not a failure; the only failure is an encoded
/// hash that cannot be decoded.
pub fn verify_password(hash: &str, password: &[u8]) -> (r: Result<bool, Error>)
    ensures
        r matches Ok(b) ==> argon2_verify_of(hash@, password@) == Some(b),
        r is Err ==> argon2_verify_of(hash@, password@) is None,
        r matches Err(e) ==> e is HashingFailure,
{
    argon2_verify(hash, password)
}

} // verus!
