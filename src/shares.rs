use vstd::prelude::*;

use crate::error::ErrorCode;

verus! {

/// The rate at which a deposit is first priced: one share per unit of asset
/// while the pool holds nothing or no shares are outstanding.
pub open spec fn is_bootstrap(pooled_balance: int, share_supply: int) -> bool {
    share_supply == 0 || pooled_balance == 0
}

/// Shares owed for depositing `amount`, as an unbounded integer.
pub open spec fn shares_for_deposit(amount: int, pooled_balance: int, share_supply: int) -> int {
    if is_bootstrap(pooled_balance, share_supply) {
        amount
    } else {
        amount * share_supply / pooled_balance
    }
}

/// Assets owed for redeeming `shares`, as an unbounded integer; meaningful
/// only while some shares are outstanding.
pub open spec fn assets_for_withdrawal(shares: int, pooled_balance: int, share_supply: int) -> int {
    shares * pooled_balance / share_supply
}

/// What converting a deposit of `amount` yields on 64-bit integers.
pub open spec fn deposit_conversion(amount: u64, pooled_balance: u64, share_supply: u64) -> Result<u64, ErrorCode> {
    if is_bootstrap(pooled_balance as int, share_supply as int) {
        Ok(amount)
    } else if amount * share_supply > u64::MAX {
        Err(ErrorCode::ArithmeticOverflow)
    } else {
        Ok(shares_for_deposit(amount as int, pooled_balance as int, share_supply as int) as u64)
    }
}

/// What converting a redemption of `shares` yields on 64-bit integers.
pub open spec fn withdrawal_conversion(shares: u64, pooled_balance: u64, share_supply: u64) -> Result<u64, ErrorCode> {
    if share_supply == 0 {
        Err(ErrorCode::DivisionByZero)
    } else if shares * pooled_balance > u64::MAX {
        Err(ErrorCode::ArithmeticOverflow)
    } else {
        Ok(assets_for_withdrawal(shares as int, pooled_balance as int, share_supply as int) as u64)
    }
}

/// Converts an asset amount into the number of shares it buys at the current
/// rate, rounding down.
pub fn asset_to_shares(amount: u64, pooled_balance: u64, share_supply: u64) -> (r: Result<u64, ErrorCode>)
    ensures
        r == deposit_conversion(amount, pooled_balance, share_supply),
{
    if share_supply == 0 || pooled_balance == 0 {
        return Ok(amount);
    }
    match amount.checked_mul(share_supply) {
        None => Err(ErrorCode::ArithmeticOverflow),
        Some(product) => Ok(product / pooled_balance),
    }
}

/// Converts a number of shares into the asset amount they redeem at the
/// current rate, rounding down.
pub fn shares_to_asset(shares: u64, pooled_balance: u64, share_supply: u64) -> (r: Result<u64, ErrorCode>)
    ensures
        r == withdrawal_conversion(shares, pooled_balance, share_supply),
{
    if share_supply == 0 {
        return Err(ErrorCode::DivisionByZero);
    }
    match shares.checked_mul(pooled_balance) {
        None => Err(ErrorCode::ArithmeticOverflow),
        Some(product) => Ok(product / share_supply),
    }
}

} // verus!
