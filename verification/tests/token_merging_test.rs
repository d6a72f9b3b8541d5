//! Merging locked tokens: the aggregated unlock epoch comes from the
//! fee-weighted average of the inputs' unlock fees, and the user's energy is
//! re-credited for the merged lock.

use dex_core::simple_lock_energy::{
    Energy, LockOption, LockedToken, SimpleLockEnergy,
};

const BASE_ASSET_TOKEN_ID: u64 = 11;
const LOCKED_TOKEN_ID: u64 = 12;

fn factory_setup() -> SimpleLockEnergy {
    // One, two and four years, with their unlock fees.
    let lock_options = vec![
        LockOption { lock_epochs: 360, penalty_start_percentage: 4_000 },
        LockOption { lock_epochs: 720, penalty_start_percentage: 6_000 },
        LockOption { lock_epochs: 1_440, penalty_start_percentage: 8_000 },
    ];
    SimpleLockEnergy::init(BASE_ASSET_TOKEN_ID, LOCKED_TOKEN_ID, lock_options).unwrap()
}

fn lock(
    setup: &SimpleLockEnergy,
    energy: Energy,
    amount: u64,
    lock_epochs: u64,
    current_epoch: u64,
) -> (dex_core::simple_lock_energy::LockedTokenAttributes, u64, Energy) {
    let payment = dex_core::payment::EsdtTokenPayment::new(BASE_ASSET_TOKEN_ID, 0, amount);
    setup
        .lock_tokens_endpoint(energy, payment, lock_epochs, current_epoch)
        .unwrap()
}

#[test]
fn token_merging_test() {
    let setup = factory_setup();
    let mut user_energy = Energy::new(0, 0, 0);

    let first_token_amount = 400_000;
    let (first_attrs, first_amount, energy_after_first) =
        lock(&setup, user_energy, first_token_amount, 360, 0);
    user_energy = energy_after_first;

    let second_token_amount = 100_000;
    let (second_attrs, second_amount, energy_after_second) =
        lock(&setup, user_energy, second_token_amount, 720, 0);
    user_energy = energy_after_second;

    assert_eq!(first_attrs.unlock_epoch, 360);
    assert_eq!(second_attrs.unlock_epoch, 720);

    let payments = vec![
        LockedToken { amount: first_amount, attributes: first_attrs },
        LockedToken { amount: second_amount, attributes: second_attrs },
    ];
    let (merged_attrs, merged_amount, merged_energy) = setup
        .merge_tokens_endpoint(user_energy, &payments, 0)
        .unwrap();

    // (400_000 * 4_000 + 100_000 * 6_000) / 500_000 = 4_400 unlock fee
    // -> epoch 432 -> start of month (upper) = 450
    let expected_merged_token_unlock_epoch = 450;
    assert_eq!(merged_attrs.unlock_epoch, expected_merged_token_unlock_epoch);
    assert_eq!(merged_attrs.original_token_id, BASE_ASSET_TOKEN_ID);
    assert_eq!(merged_amount, first_token_amount + second_token_amount);

    let expected_energy = 500_000i128 * expected_merged_token_unlock_epoch as i128;
    assert_eq!(merged_energy.amount, expected_energy);
}

#[test]
fn token_merging_different_years_test() {
    let setup = factory_setup();
    let mut user_energy = Energy::new(0, 0, 0);

    let first_token_amount = 400_000;
    let (first_attrs, first_amount, energy_after_first) =
        lock(&setup, user_energy, first_token_amount, 720, 0);
    user_energy = energy_after_first;

    let second_token_amount = 100_000;
    let (second_attrs, second_amount, energy_after_second) =
        lock(&setup, user_energy, second_token_amount, 1_440, 0);
    user_energy = energy_after_second;

    assert_eq!(first_attrs.unlock_epoch, 720);
    assert_eq!(second_attrs.unlock_epoch, 1440);

    let payments = vec![
        LockedToken { amount: first_amount, attributes: first_attrs },
        LockedToken { amount: second_amount, attributes: second_attrs },
    ];
    let (merged_attrs, merged_amount, merged_energy) = setup
        .merge_tokens_endpoint(user_energy, &payments, 0)
        .unwrap();

    // (400_000 * 6_000 + 100_000 * 8_000) / 500_000 = 6_400 unlock fee
    // -> epoch 864 -> start of month (upper) = 870
    let expected_merged_token_unlock_epoch = 870;
    assert_eq!(merged_attrs.unlock_epoch, expected_merged_token_unlock_epoch);
    assert_eq!(merged_amount, first_token_amount + second_token_amount);

    let expected_energy = 500_000i128 * expected_merged_token_unlock_epoch as i128;
    assert_eq!(merged_energy.amount, expected_energy);
}

#[test]
fn token_merging_different_years2_test() {
    let setup = factory_setup();
    let mut user_energy = Energy::new(0, 0, 0);

    let first_token_amount = 400_000;
    let (first_attrs, first_amount, energy_after_first) =
        lock(&setup, user_energy, first_token_amount, 360, 0);
    user_energy = energy_after_first;

    let second_token_amount = 100_000;
    let (second_attrs, second_amount, energy_after_second) =
        lock(&setup, user_energy, second_token_amount, 1_440, 0);
    user_energy = energy_after_second;

    assert_eq!(first_attrs.unlock_epoch, 360);
    assert_eq!(second_attrs.unlock_epoch, 1440);

    let payments = vec![
        LockedToken { amount: first_amount, attributes: first_attrs },
        LockedToken { amount: second_amount, attributes: second_attrs },
    ];
    let (merged_attrs, merged_amount, merged_energy) = setup
        .merge_tokens_endpoint(user_energy, &payments, 0)
        .unwrap();

    // (400_000 * 4_000 + 100_000 * 8_000) / 500_000 = 4_800 unlock fee
    // -> epoch 504 -> start of month (upper) = 510
    let expected_merged_token_unlock_epoch = 510;
    assert_eq!(merged_attrs.unlock_epoch, expected_merged_token_unlock_epoch);
    assert_eq!(merged_amount, first_token_amount + second_token_amount);

    let expected_energy = 500_000i128 * expected_merged_token_unlock_epoch as i128;
    assert_eq!(merged_energy.amount, expected_energy);
}

#[test]
fn token_merging_same_option_rounds_up() {
    // Even two locks of the same option aggregate through the fee average,
    // whose epoch is snapped up to the next month start.
    let setup = factory_setup();
    let mut user_energy = Energy::new(0, 0, 0);

    let (first_attrs, first_amount, energy_after_first) =
        lock(&setup, user_energy, 250_000, 360, 0);
    user_energy = energy_after_first;
    let (second_attrs, second_amount, energy_after_second) =
        lock(&setup, user_energy, 250_000, 360, 0);
    user_energy = energy_after_second;

    let payments = vec![
        LockedToken { amount: first_amount, attributes: first_attrs },
        LockedToken { amount: second_amount, attributes: second_attrs },
    ];
    let (merged_attrs, merged_amount, merged_energy) = setup
        .merge_tokens_endpoint(user_energy, &payments, 0)
        .unwrap();

    // Fee 4_000 maps back to 360 epochs, snapped up to 390.
    assert_eq!(merged_attrs.unlock_epoch, 390);
    assert_eq!(merged_amount, 500_000);
    assert_eq!(merged_energy.amount, 500_000i128 * 390);
    assert_eq!(merged_energy.total_locked_tokens, 500_000);
}
