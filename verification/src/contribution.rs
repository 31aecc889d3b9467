//! Per-token fundraising state and the graduation state machine.
//!
//! A token starts in fundraising mode and crosses, at most once, into the
//! graduated (fee-bearing) mode when the cumulative raise reaches the fixed
//! USD target. The transition is irreversible: nothing here ever clears the
//! flag. Each accepted contribution also requests one movement of native
//! currency from the contributor to the token vault; the platform must apply
//! that movement in the same atomic unit as the state update, so a failed
//! movement rolls the whole operation back.

use vstd::prelude::*;

use crate::accounts::AccountId;
use crate::accounts::NativeMovement;
use crate::convert::to_usd;
use crate::convert::usd_value;

verus! {

/// Fixed graduation target, in whole USD.
pub const TARGET_USD: u64 = 20_000;

/// Failures of the fundraising operations.
#[derive(Clone, Copy, Debug, PartialEq, Eq, Structural)]
pub enum ErrorCode {
    /// An arithmetic step overflowed or would not fit its result width.
    CalculationFailed,
    /// A contribution was offered to a token that has already graduated.
    AlreadyGraduated,
    /// A fee-bearing transfer was requested before the token graduated.
    NotGraduated,
}

/// Fundraising record of one issued token, keyed by its mint identity.
#[derive(Debug)]
pub struct TokenInfo {
    /// Identity permitted to initialize the record.
    pub authority: AccountId,
    /// Identity of the underlying fungible asset.
    pub mint: AccountId,
    pub name: String,
    pub symbol: String,
    pub decimals: u8,
    pub total_supply: u64,
    /// Cumulative native-currency contributions; never decreases.
    pub total_sol_raised: u64,
    /// Most recently reported price, with 6 implied decimal places.
    pub sol_price_usd: u64,
    /// One-way flag: set when the raise reaches the USD target, never cleared.
    pub is_graduated: bool,
}

/// Accounts involved in creating a token record.
#[derive(Clone, Copy, Debug, PartialEq, Eq, Structural)]
pub struct InitializeDegenToken {
    /// The caller creating the record.
    pub authority: AccountId,
    /// The mint the record is keyed by.
    pub mint: AccountId,
}

/// Accounts involved in a contribution.
#[derive(Clone, Copy, Debug, PartialEq, Eq, Structural)]
pub struct Contribute {
    /// Vault that receives the contributed native currency.
    pub token_vault: AccountId,
    /// The contributor, who signs for and funds the movement.
    pub contributor: AccountId,
}

/// What a newly created token record holds: zeroed counters, the supplied
/// descriptive fields and initial price, and fundraising mode.
pub open spec fn fresh_token_info(
    accounts: InitializeDegenToken,
    name: String,
    symbol: String,
    decimals: u8,
    sol_price_usd: u64,
) -> TokenInfo {
    TokenInfo {
        authority: accounts.authority,
        mint: accounts.mint,
        name,
        symbol,
        decimals,
        total_supply: 0,
        total_sol_raised: 0,
        sol_price_usd,
        is_graduated: false,
    }
}

/// A contribution of `amount` at `price` is accepted exactly when the token
/// has not graduated and neither the new raised total nor its USD value
/// overflows 64 bits.
pub open spec fn contribute_accepted(t: TokenInfo, amount: u64, price: u64) -> bool {
    &&& !t.is_graduated
    &&& t.total_sol_raised + amount <= u64::MAX
    &&& usd_value(t.total_sol_raised + amount, price as int) <= u64::MAX
}

/// The token record after a contribution: on acceptance the raised total
/// grows by `amount`, the latest price is recorded, and the token graduates
/// exactly when the USD value of the new total reaches the target; on
/// rejection the record is unchanged.
pub open spec fn contribute_next(t: TokenInfo, amount: u64, price: u64) -> TokenInfo {
    if contribute_accepted(t, amount, price) {
        TokenInfo {
            total_sol_raised: (t.total_sol_raised + amount) as u64,
            sol_price_usd: price,
            is_graduated: usd_value(t.total_sol_raised + amount, price as int) >= TARGET_USD,
            ..t
        }
    } else {
        t
    }
}

/// Receipt of an accepted contribution.
#[derive(Clone, Copy, Debug, PartialEq, Eq, Structural)]
pub struct ContributionReceipt {
    /// Cumulative native-currency raise after this contribution.
    pub new_total_raised: u64,
    /// USD value of the new cumulative raise at the supplied price.
    pub usd_total: u64,
    /// Whether this contribution made the token graduate.
    pub graduated_now: bool,
    /// The movement of the contributed amount into the vault, to be applied
    /// in the same atomic unit as the state update.
    pub movement: NativeMovement,
}

/// Contributes `amount` native units at the caller-reported price.
///
/// Fails with `AlreadyGraduated` on a graduated token and with
/// `CalculationFailed` when the new total or its USD value overflows; on any
/// failure the record is left exactly as it was (all-or-nothing). On success
/// the record reflects the new total and price, graduates exactly when the
/// USD total reaches the target, and the receipt carries the requested vault
/// movement.
pub fn contribute(
    token_info: &mut TokenInfo,
    accounts: Contribute,
    amount: u64,
    sol_price_usd: u64,
) -> (r: Result<ContributionReceipt, ErrorCode>)
    ensures
        *final(token_info) == contribute_next(*old(token_info), amount, sol_price_usd),
        r is Ok <==> contribute_accepted(*old(token_info), amount, sol_price_usd),
        old(token_info).is_graduated ==> r == Err::<ContributionReceipt, ErrorCode>(
            ErrorCode::AlreadyGraduated,
        ),
        !old(token_info).is_graduated && r is Err ==> r == Err::<ContributionReceipt, ErrorCode>(
            ErrorCode::CalculationFailed,
        ),
        r is Err ==> *final(token_info) == *old(token_info),
        old(token_info).is_graduated ==> final(token_info).is_graduated,
        r is Ok ==> ({
            let receipt = r->Ok_0;
            &&& receipt.new_total_raised == old(token_info).total_sol_raised + amount
            &&& receipt.usd_total == usd_value(
                old(token_info).total_sol_raised + amount,
                sol_price_usd as int,
            )
            &&& receipt.graduated_now == final(token_info).is_graduated
            &&& receipt.movement == (NativeMovement {
                from: accounts.contributor,
                to: accounts.token_vault,
                amount,
            })
        }),
{
    if token_info.is_graduated {
        return Err(ErrorCode::AlreadyGraduated);
    }
    if amount > u64::MAX - token_info.total_sol_raised {
        return Err(ErrorCode::CalculationFailed);
    }
    let new_total: u64 = token_info.total_sol_raised + amount;
    let usd_total: u64 = match to_usd(new_total, sol_price_usd) {
        Ok(v) => v,
        Err(_) => {
            return Err(ErrorCode::CalculationFailed);
        },
    };
    token_info.total_sol_raised = new_total;
    token_info.sol_price_usd = sol_price_usd;
    let graduated_now: bool = usd_total >= TARGET_USD;
    if graduated_now {
        token_info.is_graduated = true;
    }
    Ok(
        ContributionReceipt {
            new_total_raised: new_total,
            usd_total,
            graduated_now,
            movement: NativeMovement { from: accounts.contributor, to: accounts.token_vault, amount },
        },
    )
}

/// The token record after a whole sequence of contributions, each given as
/// an (amount, price) pair.
pub open spec fn run_contributions(t: TokenInfo, calls: Seq<(u64, u64)>) -> TokenInfo
    decreases calls.len(),
{
    if calls.len() == 0 {
        t
    } else {
        run_contributions(contribute_next(t, calls[0].0, calls[0].1), calls.skip(1))
    }
}

/// Law: graduation is monotone. Once a token is graduated, no sequence of
/// further contributions — each of which it rejects unchanged — ever clears
/// the flag.
pub proof fn lemma_graduation_monotone(t: TokenInfo, calls: Seq<(u64, u64)>)
    requires
        t.is_graduated,
    ensures
        run_contributions(t, calls).is_graduated,
    decreases calls.len(),
{
    if calls.len() > 0 {
        assert(contribute_next(t, calls[0].0, calls[0].1) == t);
        lemma_graduation_monotone(t, calls.skip(1));
    }
}

/// The deployment's token records, one per mint. Models the platform's keyed
/// storage far enough to state that creation never overwrites an existing
/// record.
pub struct TokenRegistry {
    pub tokens: Vec<TokenInfo>,
}

impl TokenRegistry {
    /// No two records share a mint.
    pub open spec fn mints_unique(self) -> bool {
        forall|i: int, j: int|
            0 <= i < j < self.tokens@.len() ==> #[trigger] self.tokens@[i].mint
                != #[trigger] self.tokens@[j].mint
    }

    /// Whether some record is keyed by `mint`.
    pub open spec fn has_mint(self, mint: AccountId) -> bool {
        exists|i: int| 0 <= i < self.tokens@.len() && #[trigger] self.tokens@[i].mint == mint
    }

    /// An empty registry.
    pub fn new() -> (r: TokenRegistry)
        ensures
            r.tokens@.len() == 0,
            r.mints_unique(),
    {
        TokenRegistry { tokens: Vec::new() }
    }

    /// Finds the record keyed by `mint`, if any.
    pub fn find_by_mint(&self, mint: AccountId) -> (r: Option<usize>)
        ensures
            match r {
                Some(i) => i < self.tokens@.len() && self.tokens@[i as int].mint == mint,
                None => !self.has_mint(mint),
            },
    {
        let mut i: usize = 0;
        while i < self.tokens.len()
            invariant
                i <= self.tokens@.len(),
                forall|j: int| 0 <= j < i ==> #[trigger] self.tokens@[j].mint != mint,
            decreases self.tokens@.len() - i,
        {
            if self.tokens[i].mint == mint {
                return Some(i);
            }
            i = i + 1;
        }
        None
    }
}

/// Creates the fundraising record for `accounts.mint` with zeroed counters,
/// in fundraising mode, and returns its index in the registry. Returns
/// `None` — leaving the registry untouched — when a record for that mint
/// already exists: creation never overwrites.
pub fn initialize_degen_token(
    registry: &mut TokenRegistry,
    accounts: InitializeDegenToken,
    name: String,
    symbol: String,
    decimals: u8,
    sol_price_usd: u64,
) -> (r: Option<usize>)
    requires
        old(registry).mints_unique(),
    ensures
        final(registry).mints_unique(),
        r is Some <==> !old(registry).has_mint(accounts.mint),
        r is None ==> *final(registry) == *old(registry),
        r is Some ==> r->Some_0 == old(registry).tokens@.len() && final(registry).tokens@ == old(
            registry,
        ).tokens@.push(fresh_token_info(accounts, name, symbol, decimals, sol_price_usd)),
{
    match registry.find_by_mint(accounts.mint) {
        Some(_) => None,
        None => {
            let idx = registry.tokens.len();
            registry.tokens.push(
                TokenInfo {
                    authority: accounts.authority,
                    mint: accounts.mint,
                    name,
                    symbol,
                    decimals,
                    total_supply: 0,
                    total_sol_raised: 0,
                    sol_price_usd,
                    is_graduated: false,
                },
            );
            Some(idx)
        },
    }
}

} // verus!
