use vstd::prelude::*;

use crate::error::ErrorCode;
use crate::shares::{
    assets_for_withdrawal, deposit_conversion, is_bootstrap, shares_for_deposit,
    withdrawal_conversion,
};
use crate::vault::{
    enter_calls, enter_outcome, leave_calls, leave_outcome, CustodyCall, Enter, Leave,
};

verus! {

/// Integer division by a positive divisor rounds down: the quotient times the
/// divisor does not exceed the dividend, and one more would.
proof fn lemma_floor_div(x: int, d: int)
    requires
        x >= 0,
        d > 0,
    ensures
        (x / d) * d <= x,
        x < (x / d + 1) * d,
        x / d >= 0,
{
    vstd::arithmetic::div_mod::lemma_fundamental_div_mod(x, d);
    vstd::arithmetic::div_mod::lemma_mod_bound(x, d);
    vstd::arithmetic::div_mod::lemma_div_pos_is_pos(x, d);
    assert((x / d) * d == d * (x / d)) by (nonlinear_arith);
    assert((x / d + 1) * d == d * (x / d) + d) by (nonlinear_arith);
}

/// A quotient is at most `a` when the dividend is at most `a` times the divisor.
proof fn lemma_div_at_most(x: int, d: int, a: int)
    requires
        x >= 0,
        d > 0,
        x <= a * d,
    ensures
        x / d <= a,
{
    lemma_floor_div(x, d);
    assert(x / d <= a) by (nonlinear_arith)
        requires
            (x / d) * d <= x,
            x <= a * d,
            d > 0,
    ;
}

/// While the pool is empty or no shares are outstanding, a deposit of a
/// positive amount mints exactly that many shares.
pub proof fn lemma_bootstrap_deposit_is_one_to_one(ctx: Enter, amount: u64)
    requires
        amount > 0,
        ctx.share_supply == 0 || ctx.pooled_balance == 0,
    ensures
        enter_outcome(ctx, amount) == Ok::<_, ErrorCode>(enter_calls(ctx, amount, amount)),
{
}

/// Once the pool holds assets and shares are outstanding, a deposit of a
/// positive amount mints `floor(amount * share_supply / pooled_balance)`
/// shares, never more than the exact ratio, and fails with an overflow
/// exactly when that product does not fit in 64 bits.
pub proof fn lemma_deposit_rounds_down(ctx: Enter, amount: u64)
    requires
        amount > 0,
        ctx.pooled_balance > 0,
        ctx.share_supply > 0,
    ensures
        ({
            let minted = amount * ctx.share_supply / (ctx.pooled_balance as int);
            &&& minted * ctx.pooled_balance <= amount * ctx.share_supply
            &&& amount * ctx.share_supply < (minted + 1) * ctx.pooled_balance
            &&& enter_outcome(ctx, amount) == if amount * ctx.share_supply > u64::MAX {
                Err(ErrorCode::ArithmeticOverflow)
            } else {
                Ok(enter_calls(ctx, amount, minted as u64))
            }
        }),
{
    assert(amount * ctx.share_supply >= 0) by (nonlinear_arith);
    lemma_floor_div(amount * ctx.share_supply, ctx.pooled_balance as int);
}

/// While shares are outstanding, a withdrawal of a positive number of shares
/// pays out `floor(shares * pooled_balance / share_supply)`, never more than
/// the exact ratio, and fails with an overflow exactly when that product does
/// not fit in 64 bits.
pub proof fn lemma_withdrawal_rounds_down(ctx: Leave, shares: u64)
    requires
        shares > 0,
        ctx.share_supply > 0,
    ensures
        ({
            let paid = shares * ctx.pooled_balance / (ctx.share_supply as int);
            &&& paid * ctx.share_supply <= shares * ctx.pooled_balance
            &&& shares * ctx.pooled_balance < (paid + 1) * ctx.share_supply
            &&& leave_outcome(ctx, shares) == if shares * ctx.pooled_balance > u64::MAX {
                Err(ErrorCode::ArithmeticOverflow)
            } else {
                Ok(leave_calls(ctx, shares, paid as u64))
            }
        }),
{
    assert(shares * ctx.pooled_balance >= 0) by (nonlinear_arith);
    lemma_floor_div(shares * ctx.pooled_balance, ctx.share_supply as int);
}

/// A withdrawal while no shares are outstanding fails with a division by
/// zero, whatever the pool holds.
pub proof fn lemma_withdrawal_without_supply_fails(ctx: Leave, shares: u64)
    requires
        shares > 0,
        ctx.share_supply == 0,
    ensures
        leave_outcome(ctx, shares) == Err::<(CustodyCall, CustodyCall), _>(
            ErrorCode::DivisionByZero,
        ),
{
}

/// A deposit or a withdrawal of zero fails before any custody call.
pub proof fn lemma_zero_quantity_rejected(enter_ctx: Enter, leave_ctx: Leave)
    ensures
        enter_outcome(enter_ctx, 0) == Err::<(CustodyCall, CustodyCall), _>(
            ErrorCode::AmountMustBeGreaterThanZero,
        ),
        leave_outcome(leave_ctx, 0) == Err::<(CustodyCall, CustodyCall), _>(
            ErrorCode::AmountMustBeGreaterThanZero,
        ),
{
}

/// Depositing `amount` and at once redeeming the shares it minted, with the
/// pool changed by nothing else, returns at most `amount`: rounding only
/// ever loses value for the depositor. This holds unless assets sit in the
/// pool while no shares are outstanding; the first depositor then receives
/// them.
pub proof fn lemma_round_trip_never_gains(amount: u64, pooled_balance: u64, share_supply: u64)
    requires
        amount > 0,
        !(share_supply == 0 && pooled_balance > 0),
    ensures
        ({
            let minted = shares_for_deposit(amount as int, pooled_balance as int, share_supply as int);
            &&& minted >= 0
            &&& share_supply + minted > 0
            &&& assets_for_withdrawal(minted, pooled_balance + amount, share_supply + minted) <= amount
        }),
{
    let a = amount as int;
    let b = pooled_balance as int;
    let s = share_supply as int;
    let minted = shares_for_deposit(a, b, s);
    if is_bootstrap(b, s) {
        assert(a * (b + a) <= a * (s + a)) by (nonlinear_arith)
            requires
                b == 0,
                s >= 0,
                a > 0,
        ;
        assert(a * (b + a) >= 0) by (nonlinear_arith)
            requires
                b >= 0,
                a > 0,
        ;
        lemma_div_at_most(a * (b + a), s + a, a);
    } else {
        assert(a * s >= 0) by (nonlinear_arith)
            requires
                a > 0,
                s > 0,
        ;
        lemma_floor_div(a * s, b);
        assert(minted * (b + a) <= a * (s + minted)) by (nonlinear_arith)
            requires
                minted * b <= a * s,
                minted >= 0,
                a > 0,
        ;
        assert(minted * (b + a) >= 0) by (nonlinear_arith)
            requires
                minted >= 0,
                b > 0,
                a > 0,
        ;
        lemma_div_at_most(minted * (b + a), s + minted, a);
    }
}

/// The round trip on 64-bit integers: where both conversions succeed, the
/// redemption returns at most the amount deposited.
pub proof fn lemma_round_trip_conversions(amount: u64, pooled_balance: u64, share_supply: u64)
    requires
        amount > 0,
        !(share_supply == 0 && pooled_balance > 0),
        pooled_balance + amount <= u64::MAX,
    ensures
        deposit_conversion(amount, pooled_balance, share_supply) is Ok ==> {
            let minted = deposit_conversion(amount, pooled_balance, share_supply)->Ok_0;
            share_supply + minted <= u64::MAX ==> match withdrawal_conversion(
                minted,
                (pooled_balance + amount) as u64,
                (share_supply + minted) as u64,
            ) {
                Ok(paid) => paid <= amount,
                Err(e) => e == ErrorCode::ArithmeticOverflow,
            }
        },
{
    lemma_round_trip_never_gains(amount, pooled_balance, share_supply);
}

} // verus!
