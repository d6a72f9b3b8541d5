//! The price-discovery sale on concrete flows: deposits minting redeem
//! tokens, phase-gated withdrawals with penalties, redeeming at the
//! discovered price, and the minimum-price guard.

use dex_core::errors::DexError;
use dex_core::payment::EsdtTokenPayment;
use dex_core::price_discovery::{
    Phase, PriceDiscovery, PriceDiscoveryState, ACCEPTED_TOKEN_REDEEM_NONCE,
    LAUNCHED_TOKEN_REDEEM_NONCE, MIN_PRICE_PRECISION,
};

const LAUNCHED_TOKEN_ID: u64 = 51;
const ACCEPTED_TOKEN_ID: u64 = 52;
const REDEEM_TOKEN_ID: u64 = 53;

fn sale() -> PriceDiscoveryState {
    PriceDiscoveryState::init(
        LAUNCHED_TOKEN_ID,
        ACCEPTED_TOKEN_ID,
        REDEEM_TOKEN_ID,
        0,
        100,
        1_000,
        1_000,
        1_000,
        500,
        100,
        5_000,
        4_000,
        10,
    )
    .unwrap()
}

#[test]
fn init_validations() {
    assert_eq!(
        PriceDiscoveryState::init(5, 5, 6, 0, 100, 1, 1, 1, 1, 0, 0, 0, 10).unwrap_err(),
        DexError::TokensMustDiffer
    );
    assert_eq!(
        PriceDiscoveryState::init(5, 6, 7, 0, 100, 1, 1, 1, 1, 0, 0, 0, 100).unwrap_err(),
        DexError::StartBlockInPast
    );
    assert_eq!(
        PriceDiscoveryState::init(5, 6, 7, 0, 100, 1, 1, 1, 1, 9, 8, 0, 10).unwrap_err(),
        DexError::MinPercentageAboveMax
    );
    assert_eq!(
        PriceDiscoveryState::init(5, 6, 7, 0, 100, 1, 1, 1, 1, 0, 10_000, 0, 10).unwrap_err(),
        DexError::PercentageTooHigh
    );
    let sale = sale();
    assert_eq!(sale.end_block, 3_100);
}

#[test]
fn deposit_mints_redeem_tokens() {
    let mut sale = sale();
    // The launched side is seeded first; with no accepted tokens yet the
    // price check passes at zero.
    let payment = EsdtTokenPayment::new(LAUNCHED_TOKEN_ID, 0, 5_000);
    let (redeem, price) = sale.deposit(payment, Phase::NoLimit).unwrap();
    assert_eq!(redeem.token_identifier, REDEEM_TOKEN_ID);
    assert_eq!(redeem.token_nonce, LAUNCHED_TOKEN_REDEEM_NONCE);
    assert_eq!(redeem.amount, 5_000);
    assert_eq!(price, 0);
    assert_eq!(sale.launched_token_balance, 5_000);
    assert_eq!(sale.redeem_supply_launched, 5_000);

    let payment = EsdtTokenPayment::new(ACCEPTED_TOKEN_ID, 0, 10_000);
    let (redeem, price) = sale.deposit(payment, Phase::NoLimit).unwrap();
    assert_eq!(redeem.token_nonce, ACCEPTED_TOKEN_REDEEM_NONCE);
    assert_eq!(redeem.amount, 10_000);
    // 10_000 accepted against 5_000 launched: price 2, in fixed point.
    assert_eq!(price, 2 * MIN_PRICE_PRECISION as u128);
    assert_eq!(sale.accepted_token_balance, 10_000);
    assert_eq!(sale.redeem_supply_accepted, 10_000);

    let foreign = EsdtTokenPayment::new(99, 0, 1_000);
    assert_eq!(
        sale.deposit(foreign, Phase::NoLimit).unwrap_err(),
        DexError::InvalidPaymentToken
    );
    let payment = EsdtTokenPayment::new(ACCEPTED_TOKEN_ID, 0, 1_000);
    assert_eq!(
        sale.deposit(payment, Phase::Redeem).unwrap_err(),
        DexError::DepositNotAllowed
    );
}

#[test]
fn withdraw_pays_phase_penalty() {
    let mut sale = sale();
    let payment = EsdtTokenPayment::new(LAUNCHED_TOKEN_ID, 0, 5_000);
    sale.deposit(payment, Phase::NoLimit).unwrap();
    let payment = EsdtTokenPayment::new(ACCEPTED_TOKEN_ID, 0, 10_000);
    sale.deposit(payment, Phase::NoLimit).unwrap();

    let redeem = EsdtTokenPayment::new(REDEEM_TOKEN_ID, ACCEPTED_TOKEN_REDEEM_NONCE, 4_000);
    let (refund, penalty, _) = sale
        .withdraw(redeem, Phase::LinearPenalty { penalty_percentage: 2_500 })
        .unwrap();
    // A quarter of the withdrawal burns as penalty.
    assert_eq!(penalty, 1_000);
    assert_eq!(refund.token_identifier, ACCEPTED_TOKEN_ID);
    assert_eq!(refund.amount, 3_000);
    assert_eq!(sale.redeem_supply_accepted, 6_000);
    assert_eq!(sale.accepted_token_balance, 7_000);

    let foreign = EsdtTokenPayment::new(99, ACCEPTED_TOKEN_REDEEM_NONCE, 100);
    assert_eq!(
        sale.withdraw(foreign, Phase::NoLimit).unwrap_err(),
        DexError::InvalidPaymentToken
    );
    let redeem = EsdtTokenPayment::new(REDEEM_TOKEN_ID, ACCEPTED_TOKEN_REDEEM_NONCE, 100);
    assert_eq!(
        sale.withdraw(redeem, Phase::Redeem).unwrap_err(),
        DexError::WithdrawNotAllowed
    );
}

#[test]
fn redeem_converts_into_the_opposite_pool() {
    let mut sale = sale();
    let payment = EsdtTokenPayment::new(LAUNCHED_TOKEN_ID, 0, 5_000);
    sale.deposit(payment, Phase::NoLimit).unwrap();
    let payment = EsdtTokenPayment::new(ACCEPTED_TOKEN_ID, 0, 10_000);
    sale.deposit(payment, Phase::NoLimit).unwrap();

    // A fifth of the accepted-side redeem supply buys a fifth of the
    // launched pool.
    let redeem = EsdtTokenPayment::new(REDEEM_TOKEN_ID, ACCEPTED_TOKEN_REDEEM_NONCE, 2_000);
    let bought = sale.redeem(redeem, Phase::Redeem).unwrap();
    assert_eq!(bought.token_identifier, LAUNCHED_TOKEN_ID);
    assert_eq!(bought.amount, 1_000);

    // And the launched side buys accepted tokens.
    let redeem = EsdtTokenPayment::new(REDEEM_TOKEN_ID, LAUNCHED_TOKEN_REDEEM_NONCE, 1_000);
    let bought = sale.redeem(redeem, Phase::Redeem).unwrap();
    assert_eq!(bought.token_identifier, ACCEPTED_TOKEN_ID);
    assert_eq!(bought.amount, 2_000);

    let redeem = EsdtTokenPayment::new(REDEEM_TOKEN_ID, ACCEPTED_TOKEN_REDEEM_NONCE, 100);
    assert_eq!(
        sale.redeem(redeem, Phase::NoLimit).unwrap_err(),
        DexError::RedeemNotAllowed
    );
}

#[test]
fn min_price_guard_rejects_cheap_launched_tokens() {
    let mut sale = sale();
    sale.min_launched_token_price = 3 * MIN_PRICE_PRECISION as u128;

    let payment = EsdtTokenPayment::new(LAUNCHED_TOKEN_ID, 0, 5_000);
    sale.deposit(payment, Phase::NoLimit).unwrap();

    // 10_000 accepted over 5_000 launched prices at 2, below the minimum of
    // 3; while the price sits below the minimum only accepted-token deposits
    // (which push it up) are allowed.
    let payment = EsdtTokenPayment::new(ACCEPTED_TOKEN_ID, 0, 10_000);
    let (_, price) = sale.deposit(payment, Phase::NoLimit).unwrap();
    assert_eq!(price, 2 * MIN_PRICE_PRECISION as u128);

    // A launched-token deposit would push the price further down: refused.
    let payment = EsdtTokenPayment::new(LAUNCHED_TOKEN_ID, 0, 5_000);
    let err = sale.deposit(payment, Phase::NoLimit).unwrap_err();
    assert_eq!(err, DexError::BelowMinPrice);
    assert_eq!(err.message(), "Launched token below min price");

    // More accepted tokens keep pushing the price towards the minimum.
    let payment = EsdtTokenPayment::new(ACCEPTED_TOKEN_ID, 0, 5_000);
    let (_, price) = sale.deposit(payment, Phase::NoLimit).unwrap();
    assert_eq!(price, 3 * MIN_PRICE_PRECISION as u128);
}

#[test]
fn calculate_price_handles_empty_pool()
{
    let sale = sale();
    assert_eq!(sale.calculate_price(10_000, 0), 0);
    assert_eq!(
        sale.calculate_price(10_000, 4_000),
        (10_000u128 * MIN_PRICE_PRECISION as u128) / 4_000
    );
}
