use degen_token::accounts::AccountId;
use degen_token::accounts::AuthorityReassignment;
use degen_token::accounts::TokenMovement;
use degen_token::safe_mode::initialize;
use degen_token::safe_mode::liquidity_lock;
use degen_token::safe_mode::transaction_protection;
use degen_token::safe_mode::ErrorCode;
use degen_token::safe_mode::LastTransactionTime;
use degen_token::safe_mode::LockLiquidity;
use degen_token::safe_mode::PDAAccount;
use degen_token::safe_mode::Transaction;
use degen_token::safe_mode::MAX_TRANSACTION_AMOUNT;
use degen_token::safe_mode::MINIMAL_INTERVAL_SECONDS;

fn guard_accounts() -> Transaction {
    Transaction {
        from_account: AccountId { key: 1 },
        to_account: AccountId { key: 2 },
        user: AccountId { key: 3 },
        platform_owner_address: AccountId { key: 4 },
    }
}

#[test]
fn initialize_sets_null_owner_and_current_time() {
    let created = initialize(1_700_000_000);
    assert_eq!(created.owner.owner, AccountId::default());
    assert_eq!(created.owner.owner.key, 0);
    assert_eq!(created.last_transaction_time.timestamp, 1_700_000_000);
}

#[test]
fn amount_over_limit_rejected_regardless_of_elapsed_time() {
    assert_eq!(MAX_TRANSACTION_AMOUNT, 10_000_000);
    let now = 1_700_000_000;
    let mut last = LastTransactionTime { timestamp: now - 100 };
    let r = transaction_protection(&mut last, guard_accounts(), 10_000_001, now);
    assert_eq!(r, Err(ErrorCode::AmountExceedsLimit));
    assert_eq!(last.timestamp, now - 100);
}

#[test]
fn amount_at_limit_accepted() {
    let now = 1_700_000_000;
    let mut last = LastTransactionTime { timestamp: now - 100 };
    let r = transaction_protection(&mut last, guard_accounts(), MAX_TRANSACTION_AMOUNT, now);
    assert!(r.is_ok());
    assert_eq!(r.unwrap().fee_amount, 100_000);
    assert_eq!(last.timestamp, now);
}

#[test]
fn fourteen_seconds_is_too_soon_fifteen_is_enough() {
    assert_eq!(MINIMAL_INTERVAL_SECONDS, 15);
    let now = 1_700_000_000;

    let mut last = LastTransactionTime { timestamp: now - 14 };
    let r = transaction_protection(&mut last, guard_accounts(), 100, now);
    assert_eq!(r, Err(ErrorCode::TransactionTooSoon));
    assert_eq!(last.timestamp, now - 14);

    let mut last = LastTransactionTime { timestamp: now - 15 };
    let r = transaction_protection(&mut last, guard_accounts(), 100, now).unwrap();
    assert_eq!(r.fee_amount, 1);
    assert_eq!(
        r.principal,
        TokenMovement {
            from: AccountId { key: 1 },
            to: AccountId { key: 2 },
            authority: AccountId { key: 3 },
            amount: 99,
        }
    );
    assert_eq!(
        r.fee,
        TokenMovement {
            from: AccountId { key: 1 },
            to: AccountId { key: 4 },
            authority: AccountId { key: 3 },
            amount: 1,
        }
    );
    // The rate-limit window is consumed on acceptance.
    assert_eq!(last.timestamp, now);
}

#[test]
fn backward_clock_rejected_safely() {
    let mut last = LastTransactionTime { timestamp: 1_700_000_000 };
    let r = transaction_protection(&mut last, guard_accounts(), 100, 1_699_999_950);
    assert_eq!(r, Err(ErrorCode::TransactionTooSoon));
    assert_eq!(last.timestamp, 1_700_000_000);

    // Even the extreme backward step must be rejected, not wrapped.
    let mut last = LastTransactionTime { timestamp: i64::MAX };
    let r = transaction_protection(&mut last, guard_accounts(), 100, i64::MIN);
    assert_eq!(r, Err(ErrorCode::TransactionTooSoon));
    assert_eq!(last.timestamp, i64::MAX);
}

#[test]
fn extreme_forward_elapsed_time_accepted() {
    let mut last = LastTransactionTime { timestamp: i64::MIN };
    let r = transaction_protection(&mut last, guard_accounts(), 100, i64::MAX);
    assert!(r.is_ok());
    assert_eq!(last.timestamp, i64::MAX);
}

#[test]
fn consecutive_transfers_respect_the_window() {
    let now = 1_700_000_000;
    let mut last = LastTransactionTime { timestamp: now - 15 };
    assert!(transaction_protection(&mut last, guard_accounts(), 100, now).is_ok());
    // Immediately after an accepted transfer the window starts over.
    let r = transaction_protection(&mut last, guard_accounts(), 100, now + 14);
    assert_eq!(r, Err(ErrorCode::TransactionTooSoon));
    assert!(transaction_protection(&mut last, guard_accounts(), 100, now + 15).is_ok());
}

#[test]
fn liquidity_lock_moves_funds_and_reassigns_authorities() {
    let accounts = LockLiquidity {
        pda_account: AccountId { key: 9 },
        from: AccountId { key: 8 },
        pda_token_account: AccountId { key: 7 },
    };
    let pda = PDAAccount { bump: 254 };
    let lock = liquidity_lock(accounts, &pda, 12_345);

    // 1% computed for future accounting, not moved anywhere.
    assert_eq!(lock.liquidity_fee, 123);
    assert_eq!(lock.signer_bump, 254);
    // The full amount moves into the vault, signed by the derived authority.
    assert_eq!(
        lock.movement,
        TokenMovement {
            from: AccountId { key: 8 },
            to: AccountId { key: 7 },
            authority: AccountId { key: 9 },
            amount: 12_345,
        }
    );
    assert_eq!(
        lock.source_authority_change,
        AuthorityReassignment {
            account: AccountId { key: 8 },
            current_authority: AccountId { key: 9 },
            new_authority: AccountId { key: 9 },
        }
    );
    assert_eq!(
        lock.vault_authority_change,
        AuthorityReassignment {
            account: AccountId { key: 7 },
            current_authority: AccountId { key: 9 },
            new_authority: AccountId { key: 9 },
        }
    );
}
