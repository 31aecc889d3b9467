//! Fee-bearing transfers, gated on graduation.
//!
//! A graduated token's transfers skim a 1% fee (truncating): the engine
//! splits an amount into a net part for the recipient and a fee part for
//! the fee-collection destination, and requests both movements. The two
//! movements form one atomic unit: the platform must apply both or neither.

use vstd::prelude::*;

use crate::accounts::AccountId;
use crate::accounts::TokenMovement;
use crate::contribution::ErrorCode;
use crate::contribution::TokenInfo;

verus! {

/// The 1% transaction fee on `amount`, truncating.
pub open spec fn fee_of(amount: u64) -> u64 {
    (amount / 100) as u64
}

/// What the recipient receives once the fee is skimmed.
pub open spec fn net_of(amount: u64) -> u64 {
    (amount - fee_of(amount)) as u64
}

/// Accounts involved in a fee-bearing transfer.
#[derive(Clone, Copy, Debug, PartialEq, Eq, Structural)]
pub struct TransferWithFee {
    pub from: AccountId,
    pub to: AccountId,
    /// Fixed fee-collection destination.
    pub fee_account: AccountId,
    /// The caller, who signs for both movements.
    pub authority: AccountId,
}

/// The two balance movements of one fee-bearing transfer.
#[derive(Clone, Copy, Debug, PartialEq, Eq, Structural)]
pub struct FeeTransfer {
    pub net_amount: u64,
    pub fee_amount: u64,
    /// `net_amount` to the intended recipient.
    pub principal: TokenMovement,
    /// `fee_amount` to the fee-collection destination.
    pub fee: TokenMovement,
}

/// Splits `amount` into a 99% principal movement and a 1% fee movement,
/// both to be applied atomically. Fails with `NotGraduated` — and only
/// with it — exactly when the token has not graduated; every amount,
/// including 0, is otherwise accepted, since the fee never exceeds the
/// amount.
pub fn transfer_with_fee(token_info: &TokenInfo, accounts: TransferWithFee, amount: u64) -> (r:
    Result<FeeTransfer, ErrorCode>)
    ensures
        r is Ok <==> token_info.is_graduated,
        !token_info.is_graduated ==> r == Err::<FeeTransfer, ErrorCode>(ErrorCode::NotGraduated),
        token_info.is_graduated ==> r == Ok::<FeeTransfer, ErrorCode>(
            (FeeTransfer {
                net_amount: net_of(amount),
                fee_amount: fee_of(amount),
                principal: TokenMovement {
                    from: accounts.from,
                    to: accounts.to,
                    authority: accounts.authority,
                    amount: net_of(amount),
                },
                fee: TokenMovement {
                    from: accounts.from,
                    to: accounts.fee_account,
                    authority: accounts.authority,
                    amount: fee_of(amount),
                },
            }),
        ),
{
    if !token_info.is_graduated {
        return Err(ErrorCode::NotGraduated);
    }
    let fee_amount: u64 = amount / 100;
    let net_amount: u64 = amount - fee_amount;
    Ok(
        FeeTransfer {
            net_amount,
            fee_amount,
            principal: TokenMovement {
                from: accounts.from,
                to: accounts.to,
                authority: accounts.authority,
                amount: net_amount,
            },
            fee: TokenMovement {
                from: accounts.from,
                to: accounts.fee_account,
                authority: accounts.authority,
                amount: fee_amount,
            },
        },
    )
}

} // verus!
