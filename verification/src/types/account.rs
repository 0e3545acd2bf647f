use vstd::prelude::*;

verus! {

/// The opaque identifier that storage assigns to an account.
#[derive(Debug, Clone, Copy, PartialEq, Eq, Hash, Structural)]
pub struct AccountId(pub i32);

/// A stored account: its identifier (absent until persisted), its unique
/// email, and the encoded password hash — never the plaintext.
#[derive(Debug, Clone)]
pub struct Account {
    pub id: Option<AccountId>,
    pub email: String,
    pub password: String,
}

/// An account as submitted on registration, before an identifier exists.
#[derive(Debug, Clone)]
pub struct NewAccount {
    pub email: String,
    pub password: String,
}

/// The authenticated identity and validity window derived from a verified
/// token. Constructed fresh on every successful verification; at that
/// moment `nbf <= now <= exp` holds.
#[derive(Debug, Clone, Copy, PartialEq, Eq, Structural)]
pub struct Session {
    pub exp: i64,
    pub account_id: AccountId,
    pub nbf: i64,
}

} // verus!
