use token_bar::error::ErrorCode;
use token_bar::shares::{asset_to_shares, shares_to_asset};
use token_bar::vault::{
    enter, initialize, leave, Address, Authority, CustodyCall, Enter, Initialize, Leave, TokenBar,
};

fn addr(b: u8) -> Address {
    Address { bytes: [b; 32] }
}

fn bar() -> TokenBar {
    TokenBar { token_mint: addr(1), token_vault: addr(2), xtoken_mint: addr(3), nonce: 254 }
}

fn enter_ctx(pooled_balance: u64, share_supply: u64) -> Enter {
    Enter {
        token_bar_key: addr(9),
        token_bar: bar(),
        user: addr(10),
        stake_from_account: addr(11),
        xtoken_vault: addr(12),
        pooled_balance,
        share_supply,
    }
}

fn leave_ctx(pooled_balance: u64, share_supply: u64) -> Leave {
    Leave {
        token_bar_key: addr(9),
        token_bar: bar(),
        user: addr(10),
        xtoken_vault: addr(12),
        user_token_vault: addr(13),
        pooled_balance,
        share_supply,
    }
}

fn minted(r: Result<(CustodyCall, CustodyCall), ErrorCode>) -> u64 {
    match r.unwrap().0 {
        CustodyCall::MintTo { amount, .. } => amount,
        other => panic!("expected a mint first, got {:?}", other),
    }
}

fn paid(r: Result<(CustodyCall, CustodyCall), ErrorCode>) -> u64 {
    match r.unwrap().1 {
        CustodyCall::Transfer { amount, .. } => amount,
        other => panic!("expected a transfer second, got {:?}", other),
    }
}

#[test]
fn initialize_records_configuration() {
    let ctx = Initialize { token_mint: addr(1), token_vault: addr(2), xtoken_mint: addr(3) };
    assert_eq!(initialize(&ctx, 254), bar());
}

#[test]
fn deposit_into_empty_vault_is_one_to_one() {
    assert_eq!(minted(enter(&enter_ctx(0, 0), 1000)), 1000);
    assert_eq!(minted(enter(&enter_ctx(0, 700), 42)), 42);
    assert_eq!(minted(enter(&enter_ctx(700, 0), 42)), 42);
}

#[test]
fn deposit_issues_mint_then_transfer() {
    let (first, second) = enter(&enter_ctx(1000, 1000), 500).unwrap();
    assert_eq!(
        first,
        CustodyCall::MintTo {
            mint: addr(3),
            to: addr(12),
            authority: Authority::Pool { vault: addr(9), nonce: 254 },
            amount: 500,
        }
    );
    assert_eq!(
        second,
        CustodyCall::Transfer {
            from: addr(11),
            to: addr(2),
            authority: Authority::User(addr(10)),
            amount: 500,
        }
    );
}

#[test]
fn withdrawal_issues_burn_then_transfer() {
    let (first, second) = leave(&leave_ctx(3000, 1500), 1500).unwrap();
    assert_eq!(
        first,
        CustodyCall::Burn {
            mint: addr(3),
            from: addr(12),
            authority: Authority::User(addr(10)),
            amount: 1500,
        }
    );
    assert_eq!(
        second,
        CustodyCall::Transfer {
            from: addr(2),
            to: addr(13),
            authority: Authority::Pool { vault: addr(9), nonce: 254 },
            amount: 3000,
        }
    );
}

#[test]
fn deposit_rounds_down() {
    // 10 * 3 / 7 = 4.28...
    assert_eq!(asset_to_shares(10, 7, 3), Ok(4));
    assert_eq!(minted(enter(&enter_ctx(7, 3), 10)), 4);
    // a tiny deposit into an appreciated pool mints nothing
    assert_eq!(minted(enter(&enter_ctx(3000, 1000), 2)), 0);
}

#[test]
fn withdrawal_rounds_down() {
    // 5 * 7 / 3 = 11.66...
    assert_eq!(shares_to_asset(5, 7, 3), Ok(11));
    assert_eq!(paid(leave(&leave_ctx(7, 3), 5)), 11);
}

#[test]
fn withdrawal_without_shares_outstanding_fails() {
    assert_eq!(shares_to_asset(5, 3000, 0), Err(ErrorCode::DivisionByZero));
    assert_eq!(leave(&leave_ctx(3000, 0), 5), Err(ErrorCode::DivisionByZero));
    assert_eq!(leave(&leave_ctx(u64::MAX, 0), u64::MAX), Err(ErrorCode::DivisionByZero));
}

#[test]
fn zero_quantity_is_rejected() {
    assert_eq!(enter(&enter_ctx(1000, 1000), 0), Err(ErrorCode::AmountMustBeGreaterThanZero));
    assert_eq!(enter(&enter_ctx(0, 0), 0), Err(ErrorCode::AmountMustBeGreaterThanZero));
    assert_eq!(leave(&leave_ctx(1000, 1000), 0), Err(ErrorCode::AmountMustBeGreaterThanZero));
    assert_eq!(leave(&leave_ctx(1000, 0), 0), Err(ErrorCode::AmountMustBeGreaterThanZero));
}

#[test]
fn round_trip_never_returns_more() {
    let (pooled, supply, amount) = (1000u64, 700u64, 333u64);
    let shares = minted(enter(&enter_ctx(pooled, supply), amount));
    assert_eq!(shares, 233);
    let back = paid(leave(&leave_ctx(pooled + amount, supply + shares), shares));
    assert_eq!(back, 332);
    assert!(back <= amount);
}

#[test]
fn deposits_and_donation_scenario() {
    let first = minted(enter(&enter_ctx(0, 0), 1000));
    assert_eq!(first, 1000);
    let second = minted(enter(&enter_ctx(1000, first), 500));
    assert_eq!(second, 500);
    // a third party donates 1500 straight into the pool
    let pooled = 1000 + 500 + 1500;
    let supply = first + second;
    assert_eq!((pooled, supply), (3000, 1500));
    assert_eq!(paid(leave(&leave_ctx(pooled, supply), 1500)), 3000);
}

#[test]
fn deposit_product_overflow_fails() {
    let amount = u64::MAX / 2;
    assert_eq!(asset_to_shares(amount, 10, 3), Err(ErrorCode::ArithmeticOverflow));
    assert_eq!(enter(&enter_ctx(10, 3), amount), Err(ErrorCode::ArithmeticOverflow));
    // the bootstrap rate multiplies nothing
    assert_eq!(minted(enter(&enter_ctx(0, 0), u64::MAX)), u64::MAX);
}

#[test]
fn withdrawal_product_overflow_fails() {
    assert_eq!(shares_to_asset(u64::MAX, 2, u64::MAX), Err(ErrorCode::ArithmeticOverflow));
    assert_eq!(leave(&leave_ctx(2, u64::MAX), u64::MAX), Err(ErrorCode::ArithmeticOverflow));
}

#[test]
fn largest_values_that_fit() {
    assert_eq!(asset_to_shares(u64::MAX, u64::MAX, 1), Ok(1));
    assert_eq!(shares_to_asset(1, u64::MAX, u64::MAX), Ok(1));
}

#[test]
fn error_messages() {
    assert_eq!(ErrorCode::AmountMustBeGreaterThanZero.message(), "Amount must be greater than zero.");
    assert_eq!(ErrorCode::InsufficientFundUnstake.message(), "Insufficient funds to unstake.");
    assert_eq!(ErrorCode::ArithmeticOverflow.message(), "Arithmetic overflow.");
    assert_eq!(ErrorCode::DivisionByZero.message(), "Division by zero.");
}
