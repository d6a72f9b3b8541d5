//! The reward accrual state machine and the token merge engine on concrete
//! farms: per-share accrual, exact reserve accounting on exit, early-exit
//! penalties, merging and compounding.

use dex_core::errors::DexError;
use dex_core::farm::{Farm, State};
use dex_core::farm_token::{FarmToken, FarmTokenAttributes};
use dex_core::farm_token_merge::FarmTokenMergeModule;
use dex_core::math::{self, ValueWeight};
use dex_core::payment::EsdtTokenPayment;

const REWARD_TOKEN_ID: u64 = 31;
const FARMING_TOKEN_ID: u64 = 32;
const FARM_TOKEN_ID: u64 = 33;
const DIVISION_SAFETY_CONSTANT: u64 = 1_000_000;

fn active_farm() -> Farm {
    let mut farm = Farm::init(REWARD_TOKEN_ID, FARMING_TOKEN_ID, DIVISION_SAFETY_CONSTANT)
        .unwrap();
    farm.farm_token_id = FARM_TOKEN_ID;
    farm.state = State::Active;
    farm.per_block_reward_amount = 100;
    farm.produce_rewards_enabled = true;
    farm
}

fn position(amount: u64, attributes: FarmTokenAttributes) -> FarmToken {
    FarmToken {
        token_amount: EsdtTokenPayment::new(FARM_TOKEN_ID, 1, amount),
        attributes,
    }
}

#[test]
fn farm_init_validations() {
    assert_eq!(
        Farm::init(0, FARMING_TOKEN_ID, DIVISION_SAFETY_CONSTANT).unwrap_err(),
        DexError::NotAnEsdt
    );
    assert_eq!(
        Farm::init(REWARD_TOKEN_ID, FARMING_TOKEN_ID, 0).unwrap_err(),
        DexError::ZeroAmount
    );
    let farm = Farm::init(REWARD_TOKEN_ID, FARMING_TOKEN_ID, DIVISION_SAFETY_CONSTANT).unwrap();
    assert_eq!(farm.state, State::Inactive);
    assert_eq!(farm.penalty_percent, 10);
    assert_eq!(farm.minimum_farming_epochs, 3);
}

#[test]
fn enter_farm_requires_active_state() {
    let mut farm = active_farm();
    farm.state = State::Inactive;
    let payment = EsdtTokenPayment::new(FARMING_TOKEN_ID, 0, 1_000);
    let err = farm.enter_farm(payment, &Vec::new(), 0, 0).unwrap_err();
    assert_eq!(err, DexError::NotActive);
}

#[test]
fn enter_farm_mints_fresh_position() {
    let mut farm = active_farm();
    let payment = EsdtTokenPayment::new(FARMING_TOKEN_ID, 0, 1_000);
    let (new_token, created_with_merge) = farm.enter_farm(payment, &Vec::new(), 0, 7).unwrap();

    assert!(!created_with_merge);
    assert_eq!(new_token.token_amount.amount, 1_000);
    assert_eq!(new_token.attributes.reward_per_share, 0);
    assert_eq!(new_token.attributes.entering_epoch, 7);
    assert_eq!(new_token.attributes.initial_farming_amount, 1_000);
    assert_eq!(new_token.attributes.compounded_reward, 0);
    assert_eq!(new_token.attributes.current_farm_amount, 1_000);
    assert_eq!(farm.farm_token_supply, 1_000);
}

#[test]
fn exit_farm_pays_exact_reward_from_reserve() {
    // Enter with 1000 units, advance 10 blocks, exit: the reserve decreases
    // by exactly the computed reward.
    let mut farm = active_farm();
    let payment = EsdtTokenPayment::new(FARMING_TOKEN_ID, 0, 1_000);
    let (new_token, _) = farm.enter_farm(payment, &Vec::new(), 0, 0).unwrap();

    // 10 blocks at 100 per block: 1000 new rewards over a supply of 1000,
    // so reward_per_share advances by 1000 * dsc / 1000 = dsc.
    let exit_result = farm
        .exit_farm(position(1_000, new_token.attributes), 10, 100)
        .unwrap();

    // The whole accrued reward belongs to the only position.
    assert_eq!(exit_result.reward_tokens.token_identifier, REWARD_TOKEN_ID);
    assert_eq!(exit_result.reward_tokens.amount, 1_000);
    // Minted 1000, paid out 1000: the reserve nets back to zero.
    assert_eq!(farm.reward_reserve, 0);
    assert_eq!(farm.reward_per_share, DIVISION_SAFETY_CONSTANT);
    // Exit long after the minimum farming window: no penalty.
    assert_eq!(exit_result.penalty_amount, 0);
    assert_eq!(exit_result.farming_tokens.token_identifier, FARMING_TOKEN_ID);
    assert_eq!(exit_result.farming_tokens.amount, 1_000);
    assert_eq!(farm.farm_token_supply, 0);
}

#[test]
fn early_exit_burns_penalty_from_farming_tokens() {
    // An exit before minimum_farming_epochs burns
    // initial_farming_amount * penalty_percent / MAX_PERCENT.
    let mut farm = active_farm();
    farm.produce_rewards_enabled = false;
    let payment = EsdtTokenPayment::new(FARMING_TOKEN_ID, 0, 1_000);
    let (new_token, _) = farm.enter_farm(payment, &Vec::new(), 0, 5).unwrap();

    // Exit at epoch 6, before 5 + 3: the 10% penalty applies.
    let exit_result = farm
        .exit_farm(position(1_000, new_token.attributes), 0, 6)
        .unwrap();
    assert_eq!(exit_result.penalty_amount, 100);
    assert_eq!(exit_result.farming_tokens.amount, 900);
    assert_eq!(exit_result.reward_tokens.amount, 0);
}

#[test]
fn exit_with_insufficient_reserve_fails() {
    let mut farm = active_farm();
    farm.produce_rewards_enabled = false;
    let payment = EsdtTokenPayment::new(FARMING_TOKEN_ID, 0, 1_000);
    let (new_token, _) = farm.enter_farm(payment, &Vec::new(), 0, 0).unwrap();

    // Pretend the accumulator moved without backing rewards.
    farm.reward_per_share = DIVISION_SAFETY_CONSTANT;
    farm.reward_reserve = 0;
    let err = farm
        .exit_farm(position(1_000, new_token.attributes), 0, 100)
        .unwrap_err();
    assert_eq!(err, DexError::InsufficientReserve);
}

#[test]
fn claim_rewards_resets_snapshot_and_keeps_supply() {
    let mut farm = active_farm();
    let payment = EsdtTokenPayment::new(FARMING_TOKEN_ID, 0, 1_000);
    let (new_token, _) = farm.enter_farm(payment, &Vec::new(), 0, 0).unwrap();

    let (claimed_token, reward, merged) = farm
        .claim_rewards(position(1_000, new_token.attributes), &Vec::new(), 10, 3)
        .unwrap();
    assert!(!merged);
    assert_eq!(reward.amount, 1_000);
    assert_eq!(claimed_token.attributes.reward_per_share, DIVISION_SAFETY_CONSTANT);
    assert_eq!(claimed_token.attributes.entering_epoch, 0);
    assert_eq!(claimed_token.attributes.initial_farming_amount, 1_000);
    assert_eq!(claimed_token.attributes.compounded_reward, 0);
    assert_eq!(farm.farm_token_supply, 1_000);
    assert_eq!(farm.reward_reserve, 0);
}

#[test]
fn compound_rewards_grows_position_and_supply() {
    let mut farm = active_farm();
    // Compounding needs farming and reward token to coincide.
    farm.farming_token_id = REWARD_TOKEN_ID;
    let payment = EsdtTokenPayment::new(REWARD_TOKEN_ID, 0, 1_000);
    let (new_token, _) = farm.enter_farm(payment, &Vec::new(), 0, 0).unwrap();

    let (compounded_token, _) = farm
        .compound_rewards(position(1_000, new_token.attributes), &Vec::new(), 10, 4)
        .unwrap();
    assert_eq!(compounded_token.token_amount.amount, 2_000);
    assert_eq!(compounded_token.attributes.current_farm_amount, 2_000);
    assert_eq!(compounded_token.attributes.initial_farming_amount, 1_000);
    assert_eq!(compounded_token.attributes.compounded_reward, 1_000);
    assert_eq!(compounded_token.attributes.entering_epoch, 4);
    // The reward entered at epoch 4 with the same weight as the stake at 0:
    // the weighted original entering epoch lands at 2.
    assert_eq!(compounded_token.attributes.original_entering_epoch, 2);
    assert_eq!(farm.farm_token_supply, 2_000);
    assert_eq!(farm.reward_reserve, 0);
}

#[test]
fn compound_requires_same_token() {
    let mut farm = active_farm();
    let payment = EsdtTokenPayment::new(FARMING_TOKEN_ID, 0, 1_000);
    let (new_token, _) = farm.enter_farm(payment, &Vec::new(), 0, 0).unwrap();
    let err = farm
        .compound_rewards(position(1_000, new_token.attributes), &Vec::new(), 10, 4)
        .unwrap_err();
    assert_eq!(err, DexError::DifferentTokenIds);
}

#[test]
fn merge_single_position_returns_attributes_unchanged() {
    // Merging exactly one position with no virtual position returns its
    // attributes byte-identical.
    let merge_module = FarmTokenMergeModule { farm_token_id: FARM_TOKEN_ID };
    let attrs = FarmTokenAttributes {
        reward_per_share: 123,
        entering_epoch: 4,
        original_entering_epoch: 2,
        initial_farming_amount: 700,
        compounded_reward: 300,
        current_farm_amount: 1_000,
    };
    let payments = vec![position(1_000, attrs)];
    let merged = merge_module
        .get_merged_farm_token_attributes(&payments, None, 99)
        .unwrap();
    assert_eq!(merged, attrs);
}

#[test]
fn merge_conserves_total_amount() {
    // sum(input.current_farm_amount) == output.current_farm_amount exactly
    // when whole positions are merged.
    let merge_module = FarmTokenMergeModule { farm_token_id: FARM_TOKEN_ID };
    let first = FarmTokenAttributes {
        reward_per_share: 100,
        entering_epoch: 1,
        original_entering_epoch: 1,
        initial_farming_amount: 600,
        compounded_reward: 400,
        current_farm_amount: 1_000,
    };
    let second = FarmTokenAttributes {
        reward_per_share: 300,
        entering_epoch: 2,
        original_entering_epoch: 2,
        initial_farming_amount: 3_000,
        compounded_reward: 0,
        current_farm_amount: 3_000,
    };
    let payments = vec![position(1_000, first), position(3_000, second)];
    let merged = merge_module
        .get_merged_farm_token_attributes(&payments, None, 10)
        .unwrap();

    assert_eq!(merged.current_farm_amount, 4_000);
    assert_eq!(merged.initial_farming_amount, 3_600);
    assert_eq!(merged.compounded_reward, 400);
    // ceil((100 * 1000 + 300 * 3000) / 4000) = 250
    assert_eq!(merged.reward_per_share, 250);
    assert_eq!(merged.entering_epoch, 10);
    // (1 * 1000 + 2 * 3000) / 4000 = 1: the vesting start is the
    // amount-weighted average of the constituents' original entering epochs.
    assert_eq!(merged.original_entering_epoch, 1);
}

#[test]
fn merge_weights_the_original_entering_epoch() {
    // Two equal positions entered at epochs 10 and 20, merged at epoch 3:
    // the merged position vests from their midpoint, not the merge epoch.
    let merge_module = FarmTokenMergeModule { farm_token_id: FARM_TOKEN_ID };
    let first = FarmTokenAttributes {
        reward_per_share: 0,
        entering_epoch: 10,
        original_entering_epoch: 10,
        initial_farming_amount: 100,
        compounded_reward: 0,
        current_farm_amount: 100,
    };
    let second = FarmTokenAttributes {
        reward_per_share: 0,
        entering_epoch: 20,
        original_entering_epoch: 20,
        initial_farming_amount: 100,
        compounded_reward: 0,
        current_farm_amount: 100,
    };
    let payments = vec![position(100, first), position(100, second)];
    let merged = merge_module
        .get_merged_farm_token_attributes(&payments, None, 3)
        .unwrap();
    assert_eq!(merged.original_entering_epoch, 15);
    assert_eq!(merged.entering_epoch, 3);
}

#[test]
fn merge_rejects_zero_amounts_and_foreign_tokens() {
    let merge_module = FarmTokenMergeModule { farm_token_id: FARM_TOKEN_ID };
    assert_eq!(
        merge_module
            .get_merged_farm_token_attributes(&Vec::new(), None, 0)
            .unwrap_err(),
        DexError::NoTokensToMerge
    );

    let attrs = FarmTokenAttributes {
        reward_per_share: 0,
        entering_epoch: 0,
        original_entering_epoch: 0,
        initial_farming_amount: 10,
        compounded_reward: 0,
        current_farm_amount: 10,
    };
    let zero = vec![position(0, attrs)];
    assert_eq!(
        merge_module
            .get_merged_farm_token_attributes(&zero, None, 0)
            .unwrap_err(),
        DexError::ZeroEntryAmount
    );

    let foreign = vec![FarmToken {
        token_amount: EsdtTokenPayment::new(77, 1, 10),
        attributes: attrs,
    }];
    assert_eq!(
        merge_module
            .get_merged_farm_token_attributes(&foreign, None, 0)
            .unwrap_err(),
        DexError::NotAFarmToken
    );
}

#[test]
fn merge_refuses_vanishing_initial_amount() {
    let merge_module = FarmTokenMergeModule { farm_token_id: FARM_TOKEN_ID };
    // A sliver of a large position whose proportional original deposit
    // floors to zero.
    let attrs = FarmTokenAttributes {
        reward_per_share: 0,
        entering_epoch: 0,
        original_entering_epoch: 0,
        initial_farming_amount: 5,
        compounded_reward: 99_995,
        current_farm_amount: 100_000,
    };
    let other = FarmTokenAttributes {
        reward_per_share: 0,
        entering_epoch: 0,
        original_entering_epoch: 0,
        initial_farming_amount: 10,
        compounded_reward: 0,
        current_farm_amount: 10,
    };
    let payments = vec![position(1, attrs), position(10, other)];
    assert_eq!(
        merge_module
            .get_merged_farm_token_attributes(&payments, None, 0)
            .unwrap_err(),
        DexError::ZeroResult
    );
}

#[test]
fn weighted_average_ceil_exact_value() {
    // ceil((3 * 2 + 5 * 3) / 5) = ceil(21 / 5) = 5, and the ceiling bounds
    // hold: 5 * 5 >= 21 and 5 * 5 < 21 + 5.
    let dataset = vec![
        ValueWeight { value: 3, weight: 2 },
        ValueWeight { value: 5, weight: 3 },
    ];
    assert_eq!(math::weighted_average_ceil(&dataset), 5);
    assert_eq!(math::weighted_average(&dataset), 4);
}

#[test]
fn rule_of_three_exact_values() {
    assert_eq!(math::rule_of_three(500, 1_000, 700), 350);
    assert_eq!(math::rule_of_three(1, 3, 2), 0);
    assert_eq!(math::rule_of_three_non_zero_result(500, 1_000, 700).unwrap(), 350);
    assert_eq!(
        math::rule_of_three_non_zero_result(1, 3, 2).unwrap_err(),
        DexError::ZeroResult
    );
}
