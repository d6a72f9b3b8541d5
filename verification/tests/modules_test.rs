//! The surrounding modules on concrete flows: the router's pair registry,
//! the proxy's accepted-funds bookkeeping, farming locked tokens through the
//! proxy, the staking farm and the dual-yield proxy, weekly claim progress,
//! and the fees collector.

use dex_core::errors::DexError;
use dex_core::farm_staking::{FarmStaking, FarmStakingState};
use dex_core::farm_staking_proxy::{DualYieldTokenAttributes, FarmStakingProxy, FarmStakingProxyState};
use dex_core::farm_token::{FarmToken, FarmTokenAttributes};
use dex_core::fees_collector::{EnergyCorrection, FeesCollector};
use dex_core::payment::EsdtTokenPayment;
use dex_core::progress_update::{ClaimProgress, ProgressUpdateModule};
use dex_core::proxy_common::{FundsEntry, ProxyCommonModule, ProxyCommonState};
use dex_core::proxy_farm::{FarmProxyTokenAttributes, FarmType, ProxyFarmModule, ProxyFarmState};
use dex_core::router::{Router, RouterState};
use dex_core::simple_lock_energy::{Energy, LockedTokenAttributes};

const OWNER: u64 = 1;

#[test]
fn router_creates_and_finds_pairs() {
    let mut router = RouterState {
        owner: OWNER,
        staking_address: 0,
        staking_token: 0,
        pair_map: Vec::new(),
    };
    assert_eq!(router.create_pair(5, 5, 100).unwrap_err(), DexError::IdenticalTokens);
    assert_eq!(router.create_pair(5, 0, 100).unwrap_err(), DexError::OnlyEsdtTokens);
    assert_eq!(router.create_pair(5, 6, 100).unwrap(), 100);
    assert_eq!(router.create_pair(6, 5, 101).unwrap_err(), DexError::PairAlreadyExists);

    assert_eq!(router.get_pair(5, 6), 100);
    assert_eq!(router.get_pair(6, 5), 100);
    assert_eq!(router.get_pair(5, 7), 0);
    assert_eq!(router.get_all_pairs(), vec![100]);

    assert_eq!(router.check_is_pair_sc(100).unwrap(), ());
    assert_eq!(router.check_is_pair_sc(101).unwrap_err(), DexError::NotAPairContract);

    assert_eq!(
        router.set_staking_info(99, 7, 8).unwrap_err(),
        DexError::PermissionDenied
    );
    router.set_staking_info(OWNER, 7, 8).unwrap();
    assert_eq!(router.staking_address, 7);
    assert_eq!(router.staking_token, 8);
}

#[test]
fn proxy_common_tracks_accepted_assets() {
    let mut proxy = ProxyCommonState {
        owner: OWNER,
        asset_token_id: 9,
        accepted_locked_assets: Vec::new(),
        current_tx_accepted_funds: Vec::new(),
    };
    assert_eq!(
        proxy.add_accepted_locked_asset_token_id(99, 5).unwrap_err(),
        DexError::PermissionDenied
    );
    proxy.add_accepted_locked_asset_token_id(OWNER, 5).unwrap();
    assert_eq!(proxy.require_is_accepted_locked_asset(5).unwrap(), ());
    assert_eq!(
        proxy.require_is_accepted_locked_asset(6).unwrap_err(),
        DexError::NotAcceptedLockedAsset
    );
    assert_eq!(
        proxy.remove_accepted_locked_asset_token_id(OWNER, 6).unwrap_err(),
        DexError::NotAcceptedLockedAsset
    );
    proxy.remove_accepted_locked_asset_token_id(OWNER, 5).unwrap();
    assert!(proxy.require_is_accepted_locked_asset(5).is_err());
}

#[test]
fn proxy_common_accounts_received_funds() {
    let mut proxy = ProxyCommonState {
        owner: OWNER,
        asset_token_id: 9,
        accepted_locked_assets: Vec::new(),
        current_tx_accepted_funds: Vec::new(),
    };
    proxy.acceptPay(5, 1, 100);
    proxy.acceptPay(5, 1, 50);
    proxy.acceptPay(6, 0, 30);
    assert_eq!(proxy.current_tx_accepted_funds.len(), 2);
    assert_eq!(proxy.validate_received_funds_on_current_tx_size(2).unwrap(), ());
    assert_eq!(
        proxy.validate_received_funds_on_current_tx_size(3).unwrap_err(),
        DexError::BadReceivedFundsSize
    );

    assert_eq!(proxy.validate_received_funds_on_current_tx(5, 1, 150).unwrap(), ());
    assert_eq!(
        proxy.validate_received_funds_on_current_tx(5, 1, 151).unwrap_err(),
        DexError::NotEnoughFunds
    );
    assert_eq!(
        proxy.validate_received_funds_on_current_tx(7, 0, 1).unwrap_err(),
        DexError::NoFundsOfThisType
    );
    assert_eq!(proxy.validate_received_funds_on_current_tx(7, 0, 0).unwrap(), ());

    // A chunk covering everything exactly validates and clears the record.
    let received = vec![
        FundsEntry { token_id: 5, token_nonce: 1, amount: 150 },
        FundsEntry { token_id: 6, token_nonce: 0, amount: 30 },
    ];
    assert_eq!(proxy.validate_received_funds_chunk(&received).unwrap(), ());
    assert_eq!(proxy.current_tx_accepted_funds.len(), 0);

    // Funds left unaccounted for are refused.
    proxy.acceptPay(5, 1, 100);
    let received = vec![FundsEntry { token_id: 5, token_nonce: 1, amount: 40 }];
    assert_eq!(
        proxy.validate_received_funds_chunk(&received).unwrap_err(),
        DexError::MoreFundsReceived
    );
    proxy.reset_received_funds_on_current_tx();
    assert_eq!(proxy.current_tx_accepted_funds.len(), 0);
}

#[test]
fn proxy_farm_whitelist_and_wrapping() {
    let mut proxy = ProxyFarmState {
        locked_token_id: 61,
        farm_proxy_token_id: 62,
        farm_whitelist: Vec::new(),
    };
    assert_eq!(
        proxy.add_farm_to_whitelist(200, 63, FarmType::SimpleFarm, false).unwrap_err(),
        DexError::InvalidScAddress
    );
    proxy.add_farm_to_whitelist(200, 63, FarmType::SimpleFarm, true).unwrap();
    assert_eq!(proxy.try_get_farm_address(63, FarmType::SimpleFarm).unwrap(), 200);
    let err = proxy
        .try_get_farm_address(63, FarmType::FarmWithLockedRewards)
        .unwrap_err();
    assert_eq!(err, DexError::NoFarmForTokenAndType);
    assert_eq!(
        err.message(),
        "No farm address for the specified token and type pair"
    );

    let locked_attrs = LockedTokenAttributes {
        original_token_id: 63,
        original_token_nonce: 0,
        unlock_epoch: 360,
    };
    let payment = EsdtTokenPayment::new(61, 3, 5_000);
    let (farm_address, farming_token, amount) = proxy
        .enter_farm_locked_token_request(&payment, locked_attrs, FarmType::SimpleFarm)
        .unwrap();
    assert_eq!((farm_address, farming_token, amount), (200, 63, 5_000));

    let farm_tokens = EsdtTokenPayment::new(64, 7, 5_000);
    let attrs = proxy.enter_farm_locked_token_response(
        FarmType::SimpleFarm,
        &farm_tokens,
        locked_attrs,
        3,
    );
    assert_eq!(attrs.farm_token_id, 64);
    assert_eq!(attrs.farm_token_nonce, 7);
    assert_eq!(attrs.farming_token_id, 63);
    assert_eq!(attrs.farming_token_locked_nonce, 3);

    // A non-fungible locked token cannot enter.
    let nft_attrs = LockedTokenAttributes { original_token_nonce: 2, ..locked_attrs };
    assert_eq!(
        proxy
            .enter_farm_locked_token_request(&payment, nft_attrs, FarmType::SimpleFarm)
            .unwrap_err(),
        DexError::OnlyFungibleTokens
    );

    // The exit response must hand the wrapped farming token back.
    let wrong = EsdtTokenPayment::new(99, 0, 5_000);
    assert_eq!(
        proxy.exit_farm_locked_token_response(attrs, &wrong).unwrap_err(),
        DexError::InvalidPaymentsFromFarm
    );
    let right = EsdtTokenPayment::new(63, 0, 5_000);
    assert_eq!(proxy.exit_farm_locked_token_response(attrs, &right).unwrap(), ());

    // A claim moves the proxy attributes to the new farm token nonce.
    let new_farm_tokens = EsdtTokenPayment::new(64, 9, 5_000);
    let new_attrs = proxy
        .farm_rewards_locked_token_response(attrs, &new_farm_tokens)
        .unwrap();
    assert_eq!(new_attrs.farm_token_nonce, 9);
    assert_eq!(new_attrs.farming_token_id, 63);

    proxy.remove_farm_from_whitelist(63, FarmType::SimpleFarm);
    assert!(proxy.try_get_farm_address(63, FarmType::SimpleFarm).is_err());

    let no_payment = EsdtTokenPayment::new(62, 1, 0);
    assert_eq!(
        proxy
            .validate_payment_and_get_farm_proxy_token_attributes(
                &no_payment,
                FarmProxyTokenAttributes {
                    farm_type: FarmType::SimpleFarm,
                    farm_token_id: 64,
                    farm_token_nonce: 7,
                    farming_token_id: 63,
                    farming_token_locked_nonce: 3,
                },
            )
            .unwrap_err(),
        DexError::NoPayment
    );
}

#[test]
fn farm_staking_init_and_rewards() {
    assert_eq!(
        FarmStakingState::init(71, 1_000_000, 0, 5).unwrap_err(),
        DexError::InvalidMaxApr
    );
    assert_eq!(
        FarmStakingState::init(71, 1_000_000, 2_500, 99).unwrap_err(),
        DexError::InvalidMinUnbondEpochs
    );
    let mut staking = FarmStakingState::init(71, 1_000_000, 2_500, 5).unwrap();
    staking.farm.farm_token_id = 72;
    staking.farm.per_block_reward_amount = 10;
    staking.farm.produce_rewards_enabled = true;
    staking.farm.farm_token_supply = 1_000;

    let attributes = FarmTokenAttributes {
        reward_per_share: 0,
        entering_epoch: 0,
        original_entering_epoch: 0,
        initial_farming_amount: 1_000,
        compounded_reward: 0,
        current_farm_amount: 1_000,
    };
    let err = staking
        .calculate_rewards_for_given_position(5, 6, 1_000, &attributes, 100)
        .unwrap_err();
    assert_eq!(err, DexError::OnlyVmQuery);
    assert_eq!(err.message(), "May only call this function through VM query");

    // 100 blocks at 10 per block over a supply of 1000.
    let reward = staking
        .calculate_rewards_for_given_position(6, 6, 1_000, &attributes, 100)
        .unwrap();
    assert_eq!(reward, 1_000);

    // Merging two staking positions through the endpoint.
    let first = FarmToken {
        token_amount: EsdtTokenPayment::new(72, 1, 400),
        attributes: FarmTokenAttributes {
            reward_per_share: 100,
            entering_epoch: 1,
            original_entering_epoch: 1,
            initial_farming_amount: 400,
            compounded_reward: 0,
            current_farm_amount: 400,
        },
    };
    let second = FarmToken {
        token_amount: EsdtTokenPayment::new(72, 2, 600),
        attributes: FarmTokenAttributes {
            reward_per_share: 200,
            entering_epoch: 2,
            original_entering_epoch: 2,
            initial_farming_amount: 600,
            compounded_reward: 0,
            current_farm_amount: 600,
        },
    };
    let payments = vec![first, second];
    let (merged_payment, merged_attrs, boosted_payment) = staking
        .merge_farm_tokens_endpoint(&payments, 77, 9)
        .unwrap();
    assert_eq!(merged_payment.amount, 1_000);
    assert_eq!(merged_attrs.current_farm_amount, 1_000);
    assert_eq!(merged_attrs.reward_per_share, 160);
    // (1 * 400 + 2 * 600) / 1000 = 1
    assert_eq!(merged_attrs.original_entering_epoch, 1);
    // The pending boosted rewards ride along as a reward-token payment.
    assert_eq!(boosted_payment.token_identifier, 71);
    assert_eq!(boosted_payment.token_nonce, 0);
    assert_eq!(boosted_payment.amount, 77);
}

#[test]
fn dual_yield_proxy_flows() {
    let proxy = FarmStakingProxyState::init(201, 202, 203, 81, 82, 83, 84, 85).unwrap();
    assert_eq!(
        FarmStakingProxyState::init(0, 202, 203, 81, 82, 83, 84, 85).unwrap_err(),
        DexError::InvalidScAddress
    );
    assert_eq!(
        FarmStakingProxyState::init(201, 202, 203, 0, 82, 83, 84, 85).unwrap_err(),
        DexError::NotAnEsdt
    );

    let attrs = DualYieldTokenAttributes {
        lp_farm_token_nonce: 1,
        lp_farm_token_amount: 4_000,
        staking_farm_token_nonce: 2,
        staking_farm_token_amount: 1_000,
    };
    assert_eq!(attrs.get_total_supply(), 1_000);
    let part = attrs.into_part(250);
    assert_eq!(part.staking_farm_token_amount, 250);
    assert_eq!(part.lp_farm_token_amount, 1_000);

    // Staking: the first payment must be the liquidity-farm position.
    let wrong_first = EsdtTokenPayment::new(99, 1, 500);
    assert_eq!(
        proxy.stake_farm_tokens_request(&wrong_first, &Vec::new()).unwrap_err(),
        DexError::InvalidFirstPayment
    );
    let lp_payment = EsdtTokenPayment::new(82, 1, 500);
    let additional = vec![(EsdtTokenPayment::new(85, 4, 1_000), attrs)];
    let (staking_tokens, lp_tokens) = proxy
        .stake_farm_tokens_request(&lp_payment, &additional)
        .unwrap();
    assert_eq!(staking_tokens[0], EsdtTokenPayment::new(83, 2, 1_000));
    assert_eq!(lp_tokens[0], EsdtTokenPayment::new(82, 1, 4_000));

    let (new_attrs, supply) = proxy.stake_farm_tokens_response(
        &EsdtTokenPayment::new(82, 5, 4_500),
        &EsdtTokenPayment::new(83, 6, 2_000),
    );
    assert_eq!(new_attrs.lp_farm_token_nonce, 5);
    assert_eq!(new_attrs.staking_farm_token_amount, 2_000);
    assert_eq!(supply, 2_000);

    // Unstaking must hand the whole position in.
    let payment = EsdtTokenPayment::new(85, 4, 900);
    assert_eq!(
        proxy.unstake_farm_tokens_request(&payment, attrs, 500).unwrap_err(),
        DexError::MustExitWithFullPosition
    );
    let payment = EsdtTokenPayment::new(85, 4, 1_000);
    assert_eq!(
        proxy.unstake_farm_tokens_request(&payment, attrs, 0).unwrap_err(),
        DexError::InvalidExitAmount
    );
    let exit_attrs = proxy.unstake_farm_tokens_request(&payment, attrs, 250).unwrap();
    assert_eq!(exit_attrs.staking_farm_token_amount, 250);
    assert_eq!(exit_attrs.lp_farm_token_amount, 1_000);

    let remainder = proxy.unstake_farm_tokens_response(attrs, 3_000, 750, 250).unwrap();
    assert_eq!(remainder.0.lp_farm_token_amount, 3_000);
    assert_eq!(remainder.0.staking_farm_token_amount, 750);
    assert_eq!(remainder.1, 750);
    assert!(proxy.unstake_farm_tokens_response(attrs, 0, 0, 1_000).is_none());
}

#[test]
fn claim_progress_checks_and_updates() {
    let module = ProgressUpdateModule { first_week_start_epoch: 0 };
    assert_eq!(module.check_claim_progress_for_merge(None, 5).unwrap(), ());
    let progress = ClaimProgress { energy: Energy::new(100, 30, 10), week: 5 };
    assert_eq!(module.check_claim_progress_for_merge(Some(&progress), 5).unwrap(), ());
    let err = module
        .check_claim_progress_for_merge(Some(&progress), 6)
        .unwrap_err();
    assert_eq!(err, DexError::ClaimProgressNotUpToDate);
    assert_eq!(err.message(), "The user claim progress must be up to date.");

    let fresh = module.update_energy_and_progress_after_enter(6, Energy::new(50, 40, 5));
    assert_eq!(fresh.week, 6);
    assert_eq!(fresh.energy.amount, 50);
}

#[test]
fn fees_collector_gating_and_recomputation() {
    let mut collector = FeesCollector::init(100);
    assert_eq!(collector.first_week_start_epoch, 100);
    assert_eq!(collector.claim_rewards().unwrap(), ());

    let correction = EnergyCorrection { user: 7, energy_amount: 5_000, total_locked_tokens: 50 };
    assert_eq!(
        collector
            .recompute_energy_entry(&correction, None, 3, 120)
            .unwrap_err(),
        DexError::OnlyRecomputeWhilePaused
    );

    collector.paused = true;
    assert_eq!(
        collector.claim_rewards().unwrap_err(),
        DexError::CannotClaimWhilePaused
    );
    let stale_progress = ClaimProgress { energy: Energy::new(1, 1, 1), week: 2 };
    let (energy, progress) = collector
        .recompute_energy_entry(&correction, Some(stale_progress), 3, 120)
        .unwrap();
    assert_eq!(energy, Energy::new(5_000, 120, 50));
    // A stale progress entry is left alone.
    assert_eq!(progress, Some(stale_progress));

    let current_progress = ClaimProgress { energy: Energy::new(1, 1, 1), week: 3 };
    let (_, progress) = collector
        .recompute_energy_entry(&correction, Some(current_progress), 3, 120)
        .unwrap();
    assert_eq!(progress, Some(ClaimProgress { energy, week: 3 }));
}
