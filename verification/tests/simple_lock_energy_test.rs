//! Locking, unlocking, early unlocks with penalties, and lock extensions,
//! with the energy bookkeeping checked at every step.

use dex_core::errors::DexError;
use dex_core::payment::EsdtTokenPayment;
use dex_core::simple_lock_energy::{Energy, LockOption, SimpleLockEnergy};

const BASE_ASSET_TOKEN_ID: u64 = 21;
const LOCKED_TOKEN_ID: u64 = 22;
const USER_BALANCE: u64 = 1_000_000_000_000_000_000;
const EPOCHS_IN_YEAR: u64 = 360;
const LOCK_OPTIONS: [u64; 3] = [360, 1800, 3600];

fn energy_setup() -> SimpleLockEnergy {
    // One, five and ten years.
    let lock_options = vec![
        LockOption { lock_epochs: LOCK_OPTIONS[0], penalty_start_percentage: 2_000 },
        LockOption { lock_epochs: LOCK_OPTIONS[1], penalty_start_percentage: 6_000 },
        LockOption { lock_epochs: LOCK_OPTIONS[2], penalty_start_percentage: 9_999 },
    ];
    SimpleLockEnergy::init(BASE_ASSET_TOKEN_ID, LOCKED_TOKEN_ID, lock_options).unwrap()
}

#[test]
fn init_test() {
    let _ = energy_setup();
}

#[test]
fn try_lock() {
    let setup = energy_setup();
    let user_energy = Energy::new(0, 0, 0);

    // wrong token
    let fake_payment = EsdtTokenPayment::new(99, 0, 1_000);
    let err = setup
        .lock_tokens_endpoint(user_energy, fake_payment, LOCK_OPTIONS[0], 0)
        .unwrap_err();
    assert_eq!(err, DexError::InvalidPaymentToken);
    assert_eq!(err.message(), "Invalid payment token");

    // invalid lock option
    let payment = EsdtTokenPayment::new(BASE_ASSET_TOKEN_ID, 0, USER_BALANCE);
    let err = setup
        .lock_tokens_endpoint(user_energy, payment, 42, 0)
        .unwrap_err();
    assert_eq!(err, DexError::InvalidLockChoice);
    assert_eq!(err.message(), "Invalid lock choice");
}

#[test]
fn lock_ok() {
    let setup = energy_setup();
    let half_balance = USER_BALANCE / 2;
    let mut current_epoch = 1;

    let payment = EsdtTokenPayment::new(BASE_ASSET_TOKEN_ID, 0, half_balance);
    let (first_attrs, first_amount, mut user_energy) = setup
        .lock_tokens_endpoint(Energy::new(0, 0, 0), payment, LOCK_OPTIONS[0], current_epoch)
        .unwrap();

    let first_unlock_epoch = 360;
    assert_eq!(first_attrs.unlock_epoch, first_unlock_epoch);
    assert_eq!(first_attrs.original_token_id, BASE_ASSET_TOKEN_ID);
    assert_eq!(first_amount, half_balance);

    let mut expected_user_energy =
        half_balance as i128 * (first_unlock_epoch - current_epoch) as i128;
    assert_eq!(user_energy.amount, expected_user_energy);

    // check energy after half a year
    let half_year_epochs = EPOCHS_IN_YEAR / 2;
    current_epoch += half_year_epochs;
    expected_user_energy -= half_balance as i128 * half_year_epochs as i128;
    let mut depleted = user_energy;
    depleted.deplete(current_epoch);
    assert_eq!(depleted.amount, expected_user_energy);

    // lock more tokens
    let payment = EsdtTokenPayment::new(BASE_ASSET_TOKEN_ID, 0, half_balance);
    let (second_attrs, _, new_energy) = setup
        .lock_tokens_endpoint(user_energy, payment, LOCK_OPTIONS[0], current_epoch)
        .unwrap();
    user_energy = new_energy;

    let second_unlock_epoch = 540;
    assert_eq!(second_attrs.unlock_epoch, second_unlock_epoch);

    expected_user_energy += half_balance as i128 * (second_unlock_epoch - current_epoch) as i128;
    assert_eq!(user_energy.amount, expected_user_energy);

    // try unlock before deadline
    let err = setup
        .unlock_tokens_endpoint(user_energy, half_balance, first_attrs, current_epoch)
        .unwrap_err();
    assert_eq!(err, DexError::CannotUnlockYet);
    assert_eq!(err.message(), "Cannot unlock yet");

    // unlock the first tokens once their deadline has passed
    current_epoch = 1 + LOCK_OPTIONS[0];
    let (unlocked, _) = setup
        .unlock_tokens_endpoint(user_energy, half_balance, first_attrs, current_epoch)
        .unwrap();
    assert_eq!(unlocked.token_identifier, BASE_ASSET_TOKEN_ID);
    assert_eq!(unlocked.amount, half_balance);
}

#[test]
fn unlock_early_test() {
    let setup = energy_setup();
    let half_balance = USER_BALANCE / 2;
    let mut current_epoch = 1;

    let payment = EsdtTokenPayment::new(BASE_ASSET_TOKEN_ID, 0, half_balance);
    let (attrs, _, user_energy) = setup
        .lock_tokens_endpoint(Energy::new(0, 0, 0), payment, LOCK_OPTIONS[0], current_epoch)
        .unwrap();
    assert_eq!(attrs.unlock_epoch, 360);

    // unlock early after half a year - with half a year remaining
    // unlock epoch = 360, so epochs remaining after half a year
    // (1 + 360 / 2 = 181) = 360 - 181 = 179
    let half_year_epochs = EPOCHS_IN_YEAR / 2;
    current_epoch += half_year_epochs;

    let penalty_percentage = 498u64; // 1 + 9_999 * 179 / 3_600
    let expected_penalty_amount =
        (half_balance as u128 * penalty_percentage as u128 / 10_000u128) as u64;
    let penalty_amount = setup.get_penalty_amount(half_balance, 179);
    assert_eq!(penalty_amount, expected_penalty_amount);

    let (received, penalty, final_energy) =
        setup.unlock_early(user_energy, half_balance, attrs, current_epoch);
    assert_eq!(penalty, expected_penalty_amount);
    assert_eq!(received.token_identifier, BASE_ASSET_TOKEN_ID);
    assert_eq!(received.amount, half_balance - expected_penalty_amount);

    let expected_energy = 0i128;
    let actual_energy = final_energy.amount;
    assert_eq!(actual_energy, expected_energy);
}

#[test]
fn extend_locking_period_test() {
    let setup = energy_setup();
    let half_balance = USER_BALANCE / 2;
    let current_epoch = 1;

    let payment = EsdtTokenPayment::new(BASE_ASSET_TOKEN_ID, 0, half_balance);
    let (attrs, _, user_energy) = setup
        .lock_tokens_endpoint(Energy::new(0, 0, 0), payment, LOCK_OPTIONS[0], current_epoch)
        .unwrap();

    // extend to 3 years - unsupported option
    let err = setup
        .extend_locking_period(
            user_energy,
            half_balance,
            attrs,
            3 * EPOCHS_IN_YEAR,
            current_epoch,
        )
        .unwrap_err();
    assert_eq!(err, DexError::InvalidLockChoice);
    assert_eq!(err.message(), "Invalid lock choice");

    // extend to 10 years
    let (new_attrs, new_energy) = setup
        .extend_locking_period(user_energy, half_balance, attrs, LOCK_OPTIONS[2], current_epoch)
        .unwrap();
    let new_unlock_epoch = 3600;
    assert_eq!(new_attrs.unlock_epoch, new_unlock_epoch);

    let expected_energy = (new_unlock_epoch - current_epoch) as i128 * half_balance as i128;
    assert_eq!(new_energy.amount, expected_energy);

    // try to "extend" back down to 1 year
    let err = setup
        .extend_locking_period(
            new_energy,
            half_balance,
            new_attrs,
            LOCK_OPTIONS[0],
            current_epoch,
        )
        .unwrap_err();
    assert_eq!(err, DexError::NewLockPeriodNotLonger);
    assert_eq!(err.message(), "New lock period must be longer than the current one");
}

#[test]
fn test_same_token_nonce() {
    let setup = energy_setup();
    let half_balance = USER_BALANCE / 2;
    let mut current_epoch = 1;

    let payment = EsdtTokenPayment::new(BASE_ASSET_TOKEN_ID, 0, half_balance);
    let (first_attrs, first_amount, user_energy) = setup
        .lock_tokens_endpoint(Energy::new(0, 0, 0), payment, LOCK_OPTIONS[0], current_epoch)
        .unwrap();

    // lock again after 10 epochs
    current_epoch += 10;
    let payment = EsdtTokenPayment::new(BASE_ASSET_TOKEN_ID, 0, half_balance);
    let (second_attrs, second_amount, _) = setup
        .lock_tokens_endpoint(user_energy, payment, LOCK_OPTIONS[0], current_epoch)
        .unwrap();

    // both locks snap to the same unlock epoch, so the ledger reuses the
    // nonce: the attributes are identical and the amounts add up
    assert_eq!(first_attrs.unlock_epoch, 360);
    assert_eq!(second_attrs, first_attrs);
    assert_eq!(first_amount + second_amount, USER_BALANCE);
}

#[test]
fn init_and_lock_validations() {
    let err = SimpleLockEnergy::init(0, LOCKED_TOKEN_ID, Vec::new()).unwrap_err();
    assert_eq!(err, DexError::NotAnEsdt);
    // Options must be strictly increasing in both duration and fee.
    let unsorted = vec![
        LockOption { lock_epochs: 720, penalty_start_percentage: 6_000 },
        LockOption { lock_epochs: 360, penalty_start_percentage: 2_000 },
    ];
    assert_eq!(
        SimpleLockEnergy::init(BASE_ASSET_TOKEN_ID, LOCKED_TOKEN_ID, unsorted).unwrap_err(),
        DexError::InvalidLockChoice
    );

    // A lock needs a payment.
    let setup = energy_setup();
    let empty = EsdtTokenPayment::new(BASE_ASSET_TOKEN_ID, 0, 0);
    assert_eq!(
        setup
            .lock_tokens_endpoint(Energy::new(0, 0, 0), empty, LOCK_OPTIONS[0], 0)
            .unwrap_err(),
        DexError::NoPayment
    );
}

#[test]
fn unlock_after_expiry_refunds_over_decay() {
    // Unlocking late refunds the decay charged past the unlock epoch, so the
    // energy comes back to zero rather than going negative.
    let setup = energy_setup();
    let payment = EsdtTokenPayment::new(BASE_ASSET_TOKEN_ID, 0, 1_000);
    let (attrs, _, user_energy) = setup
        .lock_tokens_endpoint(Energy::new(0, 0, 0), payment, LOCK_OPTIONS[0], 0)
        .unwrap();
    assert_eq!(attrs.unlock_epoch, 360);

    // Ten epochs past expiry the raw decay overshoots by 1_000 * 10.
    let (unlocked, final_energy) = setup
        .unlock_tokens_endpoint(user_energy, 1_000, attrs, 370)
        .unwrap();
    assert_eq!(unlocked.amount, 1_000);
    assert_eq!(final_energy.amount, 0);
    assert_eq!(final_energy.total_locked_tokens, 0);
}
