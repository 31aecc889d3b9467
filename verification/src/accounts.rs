//! Identities on the ledger and the balance movements the library requests.
//!
//! The platform's balance-mutation primitive is out of scope here: the
//! library only decides *when* and *how much* to move. Each operation
//! therefore returns movement and authority-reassignment descriptions as
//! plain values; the runtime that hosts the library performs them.

use vstd::prelude::*;

verus! {

/// An account identity on the ledger. The library never inspects an
/// identity beyond comparing it for equality, so it carries one as a plain
/// key value.
#[derive(Clone, Copy, Debug, PartialEq, Eq, Structural)]
pub struct AccountId {
    pub key: u64,
}

impl Default for AccountId {
    /// The null (unset) identity, used where an owner is deliberately
    /// left unassigned.
    fn default() -> (r: Self)
        ensures
            r.key == 0,
    {
        AccountId { key: 0 }
    }
}

/// A requested movement of native currency between two accounts.
#[derive(Clone, Copy, Debug, PartialEq, Eq, Structural)]
pub struct NativeMovement {
    pub from: AccountId,
    pub to: AccountId,
    pub amount: u64,
}

/// A requested movement of issued tokens, signed for by `authority`.
#[derive(Clone, Copy, Debug, PartialEq, Eq, Structural)]
pub struct TokenMovement {
    pub from: AccountId,
    pub to: AccountId,
    pub authority: AccountId,
    pub amount: u64,
}

/// A requested reassignment of an account's owning authority. Only the
/// current authority holder may request it; once applied, only the new
/// authority can act on the account.
#[derive(Clone, Copy, Debug, PartialEq, Eq, Structural)]
pub struct AuthorityReassignment {
    pub account: AccountId,
    pub current_authority: AccountId,
    pub new_authority: AccountId,
}

} // verus!
