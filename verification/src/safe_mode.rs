//! Safe-mode guard: anti-whale cap, rate limiting, and liquidity locking.
//!
//! The guard caps single-transaction amounts, enforces a minimum wall-clock
//! interval between accepted transactions, skims a 1% fee on accepted
//! transfers, and can move liquidity into a program-controlled vault whose
//! derived authority then owns the affected accounts.
//!
//! The wall clock is an external collaborator: every timestamp reaches the
//! guard as a plain argument, and a clock that moves backward is rejected
//! safely rather than trusted.

use vstd::prelude::*;

use crate::accounts::AccountId;
use crate::accounts::AuthorityReassignment;
use crate::accounts::TokenMovement;
use crate::fee_transfer::fee_of;
use crate::fee_transfer::net_of;

verus! {

/// Anti-whale ceiling on a single transaction, in native units.
pub const MAX_TRANSACTION_AMOUNT: u64 = 10_000_000;

/// Minimum wall-clock interval between accepted transactions, in seconds.
pub const MINIMAL_INTERVAL_SECONDS: i64 = 15;

/// Failures of the safe-mode guard.
#[derive(Clone, Copy, Debug, PartialEq, Eq, Structural)]
pub enum ErrorCode {
    /// The amount exceeds the anti-whale ceiling.
    AmountExceedsLimit,
    /// Too little wall-clock time has passed since the last accepted
    /// transaction (or the clock moved backward).
    TransactionTooSoon,
}

/// Deployment-wide owner record. The owner is deliberately initialized to
/// the null identity and never assigned afterwards; whether a real owner
/// should ever be set is an open product question, preserved as-is here.
#[derive(Clone, Copy, Debug, PartialEq, Eq, Structural)]
pub struct Ownership {
    pub owner: AccountId,
}

/// Seconds-since-epoch timestamp of the most recent accepted guarded
/// transaction; never decreases.
#[derive(Clone, Copy, Debug, PartialEq, Eq, Structural)]
pub struct LastTransactionTime {
    pub timestamp: i64,
}

/// The program-controlled vault's derivation record: `bump` is the salt of
/// the deterministic, keyless vault identity, immutable after creation.
#[derive(Clone, Copy, Debug, PartialEq, Eq, Structural)]
pub struct PDAAccount {
    pub bump: u8,
}

/// Accounts involved in a guarded transfer.
#[derive(Clone, Copy, Debug, PartialEq, Eq, Structural)]
pub struct Transaction {
    pub from_account: AccountId,
    pub to_account: AccountId,
    /// The caller, who signs for both movements.
    pub user: AccountId,
    /// Destination of the skimmed fee.
    pub platform_owner_address: AccountId,
}

/// Accounts involved in locking liquidity.
#[derive(Clone, Copy, Debug, PartialEq, Eq, Structural)]
pub struct LockLiquidity {
    /// The program-controlled vault identity, which signs via its
    /// derivation proof rather than a private key.
    pub pda_account: AccountId,
    /// Source of the locked liquidity.
    pub from: AccountId,
    /// The vault's token account, receiving the locked liquidity.
    pub pda_token_account: AccountId,
}

/// The two safe-mode singletons, as created together at initialization.
#[derive(Clone, Copy, Debug, PartialEq, Eq, Structural)]
pub struct Initialize {
    pub owner: Ownership,
    pub last_transaction_time: LastTransactionTime,
}

/// Creates the safe-mode singletons: an ownership record with the null
/// owner and a timer record set to the current time.
pub fn initialize(now: i64) -> (r: Initialize)
    ensures
        r.owner.owner.key == 0,
        r.last_transaction_time.timestamp == now,
{
    Initialize {
        owner: Ownership { owner: AccountId::default() },
        last_transaction_time: LastTransactionTime { timestamp: now },
    }
}

/// A guarded transfer of `amount` at time `now` is allowed exactly when the
/// amount is within the anti-whale ceiling and at least the minimum
/// interval has elapsed since `last` — elapsed time measured as exact
/// integer arithmetic, so a clock that moved backward never qualifies.
pub open spec fn transfer_allowed(amount: u64, now: i64, last: i64) -> bool {
    amount <= MAX_TRANSACTION_AMOUNT && now - last >= MINIMAL_INTERVAL_SECONDS
}

/// The movements of one accepted guarded transfer.
#[derive(Clone, Copy, Debug, PartialEq, Eq, Structural)]
pub struct ProtectedTransfer {
    /// The skimmed 1% fee.
    pub fee_amount: u64,
    /// `amount - fee_amount` to the recipient.
    pub principal: TokenMovement,
    /// `fee_amount` to the platform owner.
    pub fee: TokenMovement,
}

/// Guards one transfer: rejects amounts over the anti-whale ceiling with
/// `AmountExceedsLimit` (checked first, whatever the elapsed time), rejects
/// calls less than the minimum interval after the last accepted one — or
/// after a backward clock step — with `TransactionTooSoon`, and otherwise
/// consumes the rate-limit window by setting the timer to `now` and
/// requests the two movements of a 1%-fee transfer.
///
/// The timer is consumed whatever becomes of the movements downstream;
/// that is the chosen policy, since it bounds abuse attempts regardless of
/// the downstream outcome.
pub fn transaction_protection(
    last_transaction_time: &mut LastTransactionTime,
    accounts: Transaction,
    amount: u64,
    now: i64,
) -> (r: Result<ProtectedTransfer, ErrorCode>)
    ensures
        r is Ok <==> transfer_allowed(amount, now, old(last_transaction_time).timestamp),
        amount > MAX_TRANSACTION_AMOUNT ==> r == Err::<ProtectedTransfer, ErrorCode>(
            ErrorCode::AmountExceedsLimit,
        ),
        amount <= MAX_TRANSACTION_AMOUNT && now - old(last_transaction_time).timestamp
            < MINIMAL_INTERVAL_SECONDS ==> r == Err::<ProtectedTransfer, ErrorCode>(
            ErrorCode::TransactionTooSoon,
        ),
        r is Err ==> *final(last_transaction_time) == *old(last_transaction_time),
        r is Ok ==> final(last_transaction_time).timestamp == now,
        r is Ok ==> final(last_transaction_time).timestamp >= old(
            last_transaction_time,
        ).timestamp + MINIMAL_INTERVAL_SECONDS,
        r is Ok ==> r == Ok::<ProtectedTransfer, ErrorCode>(
            (ProtectedTransfer {
                fee_amount: fee_of(amount),
                principal: TokenMovement {
                    from: accounts.from_account,
                    to: accounts.to_account,
                    authority: accounts.user,
                    amount: net_of(amount),
                },
                fee: TokenMovement {
                    from: accounts.from_account,
                    to: accounts.platform_owner_address,
                    authority: accounts.user,
                    amount: fee_of(amount),
                },
            }),
        ),
{
    if amount > MAX_TRANSACTION_AMOUNT {
        return Err(ErrorCode::AmountExceedsLimit);
    }
    let fee_amount: u64 = amount / 100;
    let elapsed: i128 = (now as i128) - (last_transaction_time.timestamp as i128);
    if elapsed < MINIMAL_INTERVAL_SECONDS as i128 {
        return Err(ErrorCode::TransactionTooSoon);
    }
    last_transaction_time.timestamp = now;
    let net_amount: u64 = amount - fee_amount;
    Ok(
        ProtectedTransfer {
            fee_amount,
            principal: TokenMovement {
                from: accounts.from_account,
                to: accounts.to_account,
                authority: accounts.user,
                amount: net_amount,
            },
            fee: TokenMovement {
                from: accounts.from_account,
                to: accounts.platform_owner_address,
                authority: accounts.user,
                amount: fee_amount,
            },
        },
    )
}

/// The requests of one liquidity lock: one movement into the vault and the
/// two authority reassignments that leave the vault's derived authority in
/// sole control.
#[derive(Clone, Copy, Debug, PartialEq, Eq, Structural)]
pub struct LiquidityLock {
    /// 1% of the locked amount; computed but not consumed by any movement —
    /// reserved for future accounting.
    pub liquidity_fee: u64,
    /// The derivation salt presented as the vault authority's signing proof.
    pub signer_bump: u8,
    /// The full `amount` from the source into the vault's token account,
    /// signed by the vault's derived authority.
    pub movement: TokenMovement,
    /// The source account's owning authority, reassigned to the vault
    /// authority.
    pub source_authority_change: AuthorityReassignment,
    /// The vault token account's owning authority, reassigned to itself —
    /// a no-op in effect, but performed identically on purpose.
    pub vault_authority_change: AuthorityReassignment,
}

/// Locks `amount` of liquidity under the program-controlled vault:
/// requests the movement into the vault's token account and the two
/// authority reassignments. Irreversible once applied: only the
/// vault-derived authority can act on these accounts afterwards.
pub fn liquidity_lock(accounts: LockLiquidity, pda: &PDAAccount, amount: u64) -> (r: LiquidityLock)
    ensures
        r.liquidity_fee == fee_of(amount),
        r.signer_bump == pda.bump,
        r.movement == (TokenMovement {
            from: accounts.from,
            to: accounts.pda_token_account,
            authority: accounts.pda_account,
            amount,
        }),
        r.source_authority_change == (AuthorityReassignment {
            account: accounts.from,
            current_authority: accounts.pda_account,
            new_authority: accounts.pda_account,
        }),
        r.vault_authority_change == (AuthorityReassignment {
            account: accounts.pda_token_account,
            current_authority: accounts.pda_account,
            new_authority: accounts.pda_account,
        }),
{
    let liquidity_fee: u64 = amount / 100;
    LiquidityLock {
        liquidity_fee,
        signer_bump: pda.bump,
        movement: TokenMovement {
            from: accounts.from,
            to: accounts.pda_token_account,
            authority: accounts.pda_account,
            amount,
        },
        source_authority_change: AuthorityReassignment {
            account: accounts.from,
            current_authority: accounts.pda_account,
            new_authority: accounts.pda_account,
        },
        vault_authority_change: AuthorityReassignment {
            account: accounts.pda_token_account,
            current_authority: accounts.pda_account,
            new_authority: accounts.pda_account,
        },
    }
}

} // verus!
