use vstd::prelude::*;
use vstd::utf8::encode_utf8;
use crate::errors::Error;
use crate::password::{argon2_verify_of, hash_password, verify_password};
use crate::token::{
    claims_payload, issue_token_at, issued_claims, token_payload, token_session, verify_token_at,
    TOKEN_LIFETIME_SECS,
};
use crate::types::account::{Account, Session};

verus! {

/// Prepares a submitted account for storage: the plaintext password is
/// replaced by its salted hash, so the plaintext is never persisted;
/// identifier and email are kept as submitted.
pub fn register(account: Account) -> (r: Account)
    requires
        encode_utf8(account.password@).len() <= 0xffff_ffff,
    ensures
        r.id == account.id,
        r.email == account.email,
        argon2_verify_of(r.password@, encode_utf8(account.password@)) == Some(true),
{
    let hashed = hash_password(account.password.as_str().as_bytes());
    Account { id: account.id, email: account.email, password: hashed }
}

/// The login decision once storage has produced the account stored for the
/// submitted email: the submitted password is verified against the stored
/// hash, and on a match a token is issued for the account's identifier,
/// valid from `now` for the fixed lifetime. A mismatch is the
/// wrong-credential failure; a stored hash that cannot be decoded is the
/// hashing failure; a token envelope that cannot be built is the
/// transport-class failure.
pub fn login(account: &Account, password: &[u8], key: &[u8], now: i64) -> (r: Result<String, Error>)
    requires
        account.id is Some,
        key@.len() == 32,
        now + TOKEN_LIFETIME_SECS <= i64::MAX,
    ensures
        r matches Ok(t) ==> {
            &&& argon2_verify_of(account.password@, password@) == Some(true)
            &&& token_payload(t@, key@) == Some(claims_payload(issued_claims(account.id->0, now)))
        },
        r matches Err(e) ==> {
            ||| e is WrongCredential && argon2_verify_of(account.password@, password@) == Some(
                false,
            )
            ||| e is HashingFailure && argon2_verify_of(account.password@, password@) is None
            ||| e is TransportError && argon2_verify_of(account.password@, password@) == Some(
                true,
            )
        },
{
    match verify_password(account.password.as_str(), password) {
        Ok(verified) => {
            if verified {
                match account.id {
                    Some(id) => issue_token_at(id, key, now),
                    None => Err(Error::WrongCredential),
                }
            } else {
                Err(Error::WrongCredential)
            }
        },
        Err(e) => Err(e),
    }
}

/// The request-boundary gate: a missing credential is rejected before
/// decryption is attempted, and a credential that does not verify is
/// rejected after it; both are re-raised as the one unauthorized kind, so
/// the two cases render identically. A verifying credential yields its
/// session.
pub fn auth(credential: Option<&str>, key: &[u8], now: i64) -> (r: Result<Session, Error>)
    requires
        key@.len() == 32,
    ensures
        credential matches Some(t) ==> {
            &&& r matches Ok(s) ==> token_session(t@, key@, now) == Some(s)
            &&& r matches Err(e) ==> e is Unauthorized && token_session(t@, key@, now) is None
        },
        credential is None ==> (r matches Err(e) && e is Unauthorized),
{
    match credential {
        Some(token) => match verify_token_at(token, key, now) {
            Ok(session) => Ok(session),
            Err(_) => Err(Error::Unauthorized),
        },
        None => Err(Error::Unauthorized),
    }
}

} // verus!
