//! The safe-price oracle on concrete buffers: exact lookups, clamping to the
//! newest observation, failing outside the retained history, interpolation,
//! wraparound search, and the time-weighted price computation.

use dex_core::errors::DexError;
use dex_core::payment::EsdtTokenPayment;
use dex_core::safe_price::{PriceObservation, SafePriceViewModule};

const FIRST_TOKEN_ID: u64 = 41;
const SECOND_TOKEN_ID: u64 = 42;

fn observation(round: u64, weight: u64, first: u64, second: u64) -> PriceObservation {
    PriceObservation {
        first_token_reserve_accumulated: first,
        second_token_reserve_accumulated: second,
        weight_accumulated: weight,
        recording_round: round,
    }
}

/// A buffer not yet full: five observations at rounds 10..50, each ten
/// rounds apart, reserves accumulating at 100 and 200 per round.
fn fresh_oracle() -> SafePriceViewModule {
    let observations = vec![
        observation(10, 0, 1_000, 2_000),
        observation(20, 10, 2_000, 4_000),
        observation(30, 20, 3_000, 6_000),
        observation(40, 30, 4_000, 8_000),
        observation(50, 40, 5_000, 10_000),
    ];
    SafePriceViewModule {
        first_token_id: FIRST_TOKEN_ID,
        second_token_id: SECOND_TOKEN_ID,
        lp_token_supply: 1_000,
        pair_reserve_first: 10_000,
        pair_reserve_second: 20_000,
        safe_price_current_index: 4,
        safe_price_max_observations: 8,
        price_observations: observations,
    }
}

/// A full, wrapped buffer: logical rounds 30,40,50,60 stored as
/// [50, 60, 30, 40] with the head at slot 1.
fn wrapped_oracle() -> SafePriceViewModule {
    let observations = vec![
        observation(50, 30, 5_000, 10_000),
        observation(60, 40, 6_000, 12_000),
        observation(30, 10, 3_000, 6_000),
        observation(40, 20, 4_000, 8_000),
    ];
    SafePriceViewModule {
        first_token_id: FIRST_TOKEN_ID,
        second_token_id: SECOND_TOKEN_ID,
        lp_token_supply: 1_000,
        pair_reserve_first: 10_000,
        pair_reserve_second: 20_000,
        safe_price_current_index: 1,
        safe_price_max_observations: 4,
        price_observations: observations,
    }
}

#[test]
fn lookup_returns_newest_for_future_rounds() {
    let oracle = fresh_oracle();
    // Any round at or past the newest clamps to the newest, unchanged.
    let newest = observation(50, 40, 5_000, 10_000);
    assert_eq!(oracle.get_price_observation(50).unwrap(), newest);
    assert_eq!(oracle.get_price_observation(77).unwrap(), newest);
}

#[test]
fn lookup_fails_before_oldest_round() {
    let oracle = fresh_oracle();
    let err = oracle.get_price_observation(9).unwrap_err();
    assert_eq!(err, DexError::ObservationDoesNotExist);
    assert_eq!(err.message(), "Price observation does not exist");

    let empty = SafePriceViewModule {
        price_observations: Vec::new(),
        safe_price_current_index: 0,
        ..fresh_oracle()
    };
    assert_eq!(
        empty.get_price_observation(50).unwrap_err(),
        DexError::ObservationDoesNotExist
    );
}

#[test]
fn lookup_finds_exact_and_interpolated_observations() {
    let oracle = fresh_oracle();
    // Exact matches come back as stored.
    assert_eq!(
        oracle.get_price_observation(30).unwrap(),
        observation(30, 20, 3_000, 6_000)
    );
    assert_eq!(
        oracle.get_price_observation(10).unwrap(),
        observation(10, 0, 1_000, 2_000)
    );
    // A miss interpolates between the neighbours of the round, recorded at
    // the searched round itself: each neighbour weighted by the round
    // distance to it.
    let interpolated = oracle.get_price_observation(25).unwrap();
    assert_eq!(interpolated.recording_round, 25);
    // (5 * 2000 + 5 * 3000) / 10 and (5 * 4000 + 5 * 6000) / 10
    assert_eq!(interpolated.first_token_reserve_accumulated, 2_500);
    assert_eq!(interpolated.second_token_reserve_accumulated, 5_000);
    // The left neighbour's weight advanced by the round distance.
    assert_eq!(interpolated.weight_accumulated, 15);
}

#[test]
fn lookup_crosses_the_wrap_seam() {
    let oracle = wrapped_oracle();
    // 45 sits between the physically last slot (round 40) and slot 0
    // (round 50).
    let interpolated = oracle.get_price_observation(45).unwrap();
    assert_eq!(interpolated.recording_round, 45);
    assert_eq!(interpolated.first_token_reserve_accumulated, 4_500);
    assert_eq!(interpolated.second_token_reserve_accumulated, 9_000);
    assert_eq!(interpolated.weight_accumulated, 25);

    // An exact match in the older (wrapped) half.
    assert_eq!(
        oracle.get_price_observation(30).unwrap(),
        observation(30, 10, 3_000, 6_000)
    );
    // Before the oldest retained round the history is gone.
    assert_eq!(
        oracle.get_price_observation(29).unwrap_err(),
        DexError::ObservationDoesNotExist
    );
    // 35 interpolates inside the older half.
    let inner = oracle.get_price_observation(35).unwrap();
    assert_eq!(inner.recording_round, 35);
    assert_eq!(inner.first_token_reserve_accumulated, 3_500);
}

#[test]
fn get_safe_price_weights_the_window() {
    let oracle = fresh_oracle();
    // Window 10..50: reserve diffs 4000 and 8000 over weight diff 40:
    // weighted reserves 100 and 200.
    let input = EsdtTokenPayment::new(FIRST_TOKEN_ID, 0, 500);
    let output = oracle.get_safe_price(10, 50, input).unwrap();
    assert_eq!(output.token_identifier, SECOND_TOKEN_ID);
    // 500 * 200 / 100
    assert_eq!(output.amount, 1_000);

    // The other direction halves instead of doubling.
    let input = EsdtTokenPayment::new(SECOND_TOKEN_ID, 0, 500);
    let output = oracle.get_safe_price(10, 50, input).unwrap();
    assert_eq!(output.token_identifier, FIRST_TOKEN_ID);
    assert_eq!(output.amount, 250);
}

#[test]
fn get_safe_price_validates_inputs() {
    let oracle = fresh_oracle();
    let input = EsdtTokenPayment::new(FIRST_TOKEN_ID, 0, 500);
    let err = oracle.get_safe_price(50, 10, input).unwrap_err();
    assert_eq!(err, DexError::InvalidParameters);

    let foreign = EsdtTokenPayment::new(77, 0, 500);
    let err = oracle.get_safe_price(10, 50, foreign).unwrap_err();
    assert_eq!(err, DexError::BadInputToken);
    assert_eq!(err.message(), "Bad input token");

    // A worthless output is rejected.
    let dust = EsdtTokenPayment::new(SECOND_TOKEN_ID, 0, 1);
    let err = oracle.get_safe_price(10, 50, dust).unwrap_err();
    assert_eq!(err, DexError::ZeroAmount);
}

#[test]
fn degenerate_window_falls_back_to_spot() {
    let oracle = fresh_oracle();
    let obs = observation(50, 40, 5_000, 10_000);
    // The same observation twice: no weight difference, raw accumulators.
    let (first, second) = oracle.compute_weighted_reserves(&obs, &obs);
    assert_eq!(first, 5_000);
    assert_eq!(second, 10_000);
}

#[test]
fn position_valuation_prices_both_sides() {
    let oracle = fresh_oracle();
    // 100 of 1000 lp tokens: worth 1000 and 2000 of the spot reserves.
    // The window 10..50 weighs the reserves at 100 and 200.
    let (first_payment, second_payment) = oracle
        .get_tokens_for_given_position_with_safe_price(100, 50)
        .unwrap();
    // 2000 second-tokens priced into first-tokens: 2000 * 100 / 200.
    assert_eq!(first_payment.token_identifier, FIRST_TOKEN_ID);
    assert_eq!(first_payment.amount, 1_000);
    // 1000 first-tokens priced into second-tokens: 1000 * 200 / 100.
    assert_eq!(second_payment.token_identifier, SECOND_TOKEN_ID);
    assert_eq!(second_payment.amount, 2_000);
}

#[test]
fn position_valuation_of_empty_pool_is_zero() {
    let oracle = SafePriceViewModule { lp_token_supply: 0, ..fresh_oracle() };
    let (first_payment, second_payment) = oracle
        .get_tokens_for_given_position_with_safe_price(100, 50)
        .unwrap();
    assert_eq!(first_payment.amount, 0);
    assert_eq!(second_payment.amount, 0);
}

#[test]
fn observation_view_mirrors_the_lookup() {
    let oracle = fresh_oracle();
    assert_eq!(
        oracle.get_price_observation_view(30).unwrap(),
        observation(30, 20, 3_000, 6_000)
    );
    assert_eq!(
        oracle.get_price_observation_view(99).unwrap(),
        observation(50, 40, 5_000, 10_000)
    );
    assert_eq!(
        oracle.get_price_observation_view(1).unwrap_err(),
        DexError::ObservationDoesNotExist
    );
}
