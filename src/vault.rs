use vstd::prelude::*;

use crate::error::ErrorCode;
use crate::shares::{asset_to_shares, deposit_conversion, shares_to_asset, withdrawal_conversion};

verus! {

/// A 32-byte account or token identifier.
#[derive(Debug, Clone, Copy, PartialEq, Eq)]
pub struct Address {
    pub bytes: [u8; 32],
}

/// The vault's static configuration, fixed when the vault is created.
#[derive(Debug, Clone, Copy, PartialEq, Eq)]
pub struct TokenBar {
    /// The underlying asset.
    pub token_mint: Address,
    /// The account that holds the pooled asset.
    pub token_vault: Address,
    /// The share token.
    pub xtoken_mint: Address,
    /// Together with the vault's own address, derives the pool's signing authority.
    pub nonce: u8,
}

/// The identifiers a vault is created from, already checked by the host:
/// `token_vault` holds `token_mint` and is owned by the pool's authority,
/// which is also the only mint authority of `xtoken_mint`.
#[derive(Debug, Clone, Copy, PartialEq, Eq)]
pub struct Initialize {
    pub token_mint: Address,
    pub token_vault: Address,
    pub xtoken_mint: Address,
}

/// What a deposit reads: the vault, the depositor's accounts, and the two
/// live quantities that set the rate.
#[derive(Debug, Clone, Copy, PartialEq, Eq)]
pub struct Enter {
    /// The vault's own address.
    pub token_bar_key: Address,
    pub token_bar: TokenBar,
    /// The depositor, who signs the asset transfer.
    pub user: Address,
    /// The depositor's asset account, debited by `amount`.
    pub stake_from_account: Address,
    /// The depositor's share account, credited with the minted shares.
    pub xtoken_vault: Address,
    /// The balance of `token_bar.token_vault` before the deposit.
    pub pooled_balance: u64,
    /// The total supply of `token_bar.xtoken_mint` before the deposit.
    pub share_supply: u64,
}

/// What a withdrawal reads: the vault, the holder's accounts, and the two
/// live quantities that set the rate.
#[derive(Debug, Clone, Copy, PartialEq, Eq)]
pub struct Leave {
    /// The vault's own address.
    pub token_bar_key: Address,
    pub token_bar: TokenBar,
    /// The holder, who signs the burn.
    pub user: Address,
    /// The holder's share account, from which shares are burned.
    pub xtoken_vault: Address,
    /// The holder's asset account, credited with the redeemed assets.
    pub user_token_vault: Address,
    /// The balance of `token_bar.token_vault` before the withdrawal.
    pub pooled_balance: u64,
    /// The total supply of `token_bar.xtoken_mint` before the withdrawal.
    pub share_supply: u64,
}

/// Who a custody call acts as.
#[derive(Debug, Clone, Copy, PartialEq, Eq)]
pub enum Authority {
    /// A user, by their own signature.
    User(Address),
    /// The pool's authority, derived afresh from the vault's address and nonce.
    Pool { vault: Address, nonce: u8 },
}

/// A request to the custody service.
#[derive(Debug, Clone, Copy, PartialEq, Eq)]
pub enum CustodyCall {
    MintTo { mint: Address, to: Address, authority: Authority, amount: u64 },
    Transfer { from: Address, to: Address, authority: Authority, amount: u64 },
    Burn { mint: Address, from: Address, authority: Authority, amount: u64 },
}

/// The pool's signing authority for a vault.
pub open spec fn pool_authority(token_bar_key: Address, token_bar: TokenBar) -> Authority {
    Authority::Pool { vault: token_bar_key, nonce: token_bar.nonce }
}

/// The two calls of a deposit of `amount` that mints `shares`: the mint
/// first, then the transfer into the pool.
pub open spec fn enter_calls(ctx: Enter, amount: u64, shares: u64) -> (CustodyCall, CustodyCall) {
    (
        CustodyCall::MintTo {
            mint: ctx.token_bar.xtoken_mint,
            to: ctx.xtoken_vault,
            authority: pool_authority(ctx.token_bar_key, ctx.token_bar),
            amount: shares,
        },
        CustodyCall::Transfer {
            from: ctx.stake_from_account,
            to: ctx.token_bar.token_vault,
            authority: Authority::User(ctx.user),
            amount: amount,
        },
    )
}

/// The two calls of a withdrawal that burns `shares` and pays out `assets`:
/// the burn first, then the transfer out of the pool.
pub open spec fn leave_calls(ctx: Leave, shares: u64, assets: u64) -> (CustodyCall, CustodyCall) {
    (
        CustodyCall::Burn {
            mint: ctx.token_bar.xtoken_mint,
            from: ctx.xtoken_vault,
            authority: Authority::User(ctx.user),
            amount: shares,
        },
        CustodyCall::Transfer {
            from: ctx.token_bar.token_vault,
            to: ctx.user_token_vault,
            authority: pool_authority(ctx.token_bar_key, ctx.token_bar),
            amount: assets,
        },
    )
}

/// The outcome of a deposit of `amount`: an error, or the calls to issue.
pub open spec fn enter_outcome(ctx: Enter, amount: u64) -> Result<(CustodyCall, CustodyCall), ErrorCode> {
    if amount == 0 {
        Err(ErrorCode::AmountMustBeGreaterThanZero)
    } else {
        match deposit_conversion(amount, ctx.pooled_balance, ctx.share_supply) {
            Ok(shares) => Ok(enter_calls(ctx, amount, shares)),
            Err(e) => Err(e),
        }
    }
}

/// The outcome of a withdrawal of `share` shares: an error, or the calls to issue.
pub open spec fn leave_outcome(ctx: Leave, share: u64) -> Result<(CustodyCall, CustodyCall), ErrorCode> {
    if share == 0 {
        Err(ErrorCode::AmountMustBeGreaterThanZero)
    } else {
        match withdrawal_conversion(share, ctx.pooled_balance, ctx.share_supply) {
            Ok(assets) => Ok(leave_calls(ctx, share, assets)),
            Err(e) => Err(e),
        }
    }
}

/// Creates the vault's configuration from checked identifiers and the nonce
/// that derives its authority.
pub fn initialize(ctx: &Initialize, pool_nonce: u8) -> (r: TokenBar)
    ensures
        r == (TokenBar {
            token_mint: ctx.token_mint,
            token_vault: ctx.token_vault,
            xtoken_mint: ctx.xtoken_mint,
            nonce: pool_nonce,
        }),
{
    TokenBar {
        token_mint: ctx.token_mint,
        token_vault: ctx.token_vault,
        xtoken_mint: ctx.xtoken_mint,
        nonce: pool_nonce,
    }
}

/// Prices a deposit of `amount` at the current rate and returns the calls
/// that carry it out: mint the shares to the depositor, then move the assets
/// into the pool. On an error no call is to be made.
pub fn enter(ctx: &Enter, amount: u64) -> (r: Result<(CustodyCall, CustodyCall), ErrorCode>)
    ensures
        r == enter_outcome(*ctx, amount),
{
    if amount == 0 {
        return Err(ErrorCode::AmountMustBeGreaterThanZero);
    }
    let shares = match asset_to_shares(amount, ctx.pooled_balance, ctx.share_supply) {
        Ok(shares) => shares,
        Err(e) => return Err(e),
    };
    let mint = CustodyCall::MintTo {
        mint: ctx.token_bar.xtoken_mint,
        to: ctx.xtoken_vault,
        authority: Authority::Pool { vault: ctx.token_bar_key, nonce: ctx.token_bar.nonce },
        amount: shares,
    };
    let lock = CustodyCall::Transfer {
        from: ctx.stake_from_account,
        to: ctx.token_bar.token_vault,
        authority: Authority::User(ctx.user),
        amount: amount,
    };
    Ok((mint, lock))
}

/// Prices a withdrawal of `share` shares at the current rate and returns the
/// calls that carry it out: burn the shares, then move the assets out of the
/// pool to the holder. On an error no call is to be made.
pub fn leave(ctx: &Leave, share: u64) -> (r: Result<(CustodyCall, CustodyCall), ErrorCode>)
    ensures
        r == leave_outcome(*ctx, share),
{
    if share == 0 {
        return Err(ErrorCode::AmountMustBeGreaterThanZero);
    }
    let assets = match shares_to_asset(share, ctx.pooled_balance, ctx.share_supply) {
        Ok(assets) => assets,
        Err(e) => return Err(e),
    };
    let burn = CustodyCall::Burn {
        mint: ctx.token_bar.xtoken_mint,
        from: ctx.xtoken_vault,
        authority: Authority::User(ctx.user),
        amount: share,
    };
    let payout = CustodyCall::Transfer {
        from: ctx.token_bar.token_vault,
        to: ctx.user_token_vault,
        authority: Authority::Pool { vault: ctx.token_bar_key, nonce: ctx.token_bar.nonce },
        amount: assets,
    };
    Ok((burn, payout))
}

} // verus!
