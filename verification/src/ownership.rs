use vstd::prelude::*;
use crate::errors::{message_of, status_of, Error};
use crate::types::account::{AccountId, Session};

verus! {

/// Whether the session's account is the resource's recorded owner: a pure
/// comparison of the two identifiers.
pub fn check_ownership(owner: AccountId, session: &Session) -> (r: bool)
    ensures
        r == (owner == session.account_id),
{
    owner.0 == session.account_id.0
}

/// Admits a mutation exactly when the session's account owns the resource;
/// a mismatch is the one unauthorized kind, which reveals nothing about the
/// recorded owner.
pub fn ensure_owner(owner: AccountId, session: &Session) -> (r: Result<(), Error>)
    ensures
        owner == session.account_id ==> r is Ok,
        owner != session.account_id ==> (r matches Err(e) && e is Unauthorized),
{
    if owner.0 == session.account_id.0 {
        Ok(())
    } else {
        Err(Error::Unauthorized)
    }
}

/// An ownership denial renders with the same status and the same message as
/// a missing or invalid credential, so a caller cannot learn from the error
/// shape that the resource exists but belongs to someone else.
pub proof fn lemma_denial_matches_credential_failure()
    ensures
        status_of(Error::Unauthorized) == status_of(Error::CannotDecryptToken),
        message_of(Error::Unauthorized) == message_of(Error::CannotDecryptToken),
{
}

} // verus!
