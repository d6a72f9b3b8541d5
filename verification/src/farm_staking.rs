//! Single-asset staking farm: farming and reward token coincide, rewards are
//! capped by a maximum annual percentage, and unstaking passes through an
//! unbond window. The contract surface is the `FarmStaking` trait,
//! implemented by the farm's state.

use vstd::prelude::*;
use crate::errors::DexError;
use crate::farm::Farm;
use crate::farm_token::{FarmToken, FarmTokenAttributes};
use crate::farm_token_merge::{all_mergeable, sum_current, FarmTokenMergeModule};
use crate::payment::EsdtTokenPayment;

verus! {

pub const MAX_MIN_UNBOND_EPOCHS: u64 = 30;

/// The staking farm's state: the shared farm accounting plus its own caps.
#[derive(Debug)]
pub struct FarmStakingState {
    pub farm: Farm,
    pub max_annual_percentage_rewards: u64,
    pub min_unbond_epochs: u64,
}

impl FarmStakingState {
    pub open spec fn wf(self) -> bool {
        &&& self.farm.wf()
        &&& self.farm.farming_token_id == self.farm.reward_token_id
        &&& self.max_annual_percentage_rewards > 0
        &&& self.min_unbond_epochs <= MAX_MIN_UNBOND_EPOCHS
    }

    /// Sets a staking farm up: farming and reward token are the same, the
    /// annual percentage cap must be positive and the unbond window bounded.
    pub fn init(
        farming_token_id: u64,
        division_safety_constant: u64,
        max_apr: u64,
        min_unbond_epochs: u64,
    ) -> (r: Result<FarmStakingState, DexError>)
        ensures
            farming_token_id == 0 ==> r == Err::<FarmStakingState, DexError>(DexError::NotAnEsdt),
            farming_token_id != 0 && division_safety_constant == 0 ==> r == Err::<
                FarmStakingState,
                DexError,
            >(DexError::ZeroAmount),
            farming_token_id != 0 && division_safety_constant != 0 && max_apr == 0 ==> r == Err::<
                FarmStakingState,
                DexError,
            >(DexError::InvalidMaxApr),
            farming_token_id != 0 && division_safety_constant != 0 && max_apr != 0
                && min_unbond_epochs > MAX_MIN_UNBOND_EPOCHS ==> r == Err::<
                FarmStakingState,
                DexError,
            >(DexError::InvalidMinUnbondEpochs),
            r matches Ok(s) ==> s.wf() && s.farm.farming_token_id == farming_token_id
                && s.farm.reward_token_id == farming_token_id && s.farm.division_safety_constant
                == division_safety_constant && s.max_annual_percentage_rewards == max_apr
                && s.min_unbond_epochs == min_unbond_epochs,
    {
        let farm = match Farm::init(farming_token_id, farming_token_id, division_safety_constant) {
            Ok(f) => f,
            Err(e) => {
                return Err(e);
            },
        };
        if max_apr == 0 {
            return Err(DexError::InvalidMaxApr);
        }
        if min_unbond_epochs > MAX_MIN_UNBOND_EPOCHS {
            return Err(DexError::InvalidMinUnbondEpochs);
        }
        Ok(FarmStakingState { farm, max_annual_percentage_rewards: max_apr, min_unbond_epochs })
    }
}

/// The staking farm's contract surface.
pub trait FarmStaking: Sized {
    /// The shared farm accounting behind the contract.
    spec fn farm_spec(self) -> Farm;

    /// The configuration invariant.
    spec fn staking_wf(self) -> bool;

    /// Read-only query: the reward a position would accrue if the farm's
    /// bookkeeping were advanced to the current block. Only the contract
    /// itself (a ledger query) may ask.
    fn calculate_rewards_for_given_position(
        &self,
        caller: u64,
        sc_address: u64,
        farm_token_amount: u64,
        attributes: &FarmTokenAttributes,
        current_block_nonce: u64,
    ) -> (r: Result<u128, DexError>)
        requires
            self.staking_wf(),
            self.farm_spec().can_accrue(current_block_nonce),
        ensures
            caller != sc_address ==> r == Err::<u128, DexError>(DexError::OnlyVmQuery),
            caller == sc_address ==> r == Ok::<u128, DexError>(
                self.farm_spec().accrue_spec(current_block_nonce).calculate_reward_spec(
                    farm_token_amount,
                    attributes.reward_per_share,
                ) as u128,
            ),
    ;

    /// Merges staking positions into one, without touching the supply: the
    /// inputs are burned and the merged position minted for their total. The
    /// caller's pending boosted rewards, computed by the weekly-rewards
    /// machinery at the edge and handed in, are additionally paid out as a
    /// reward-token payment.
    fn merge_farm_tokens_endpoint(
        &self,
        payments: &Vec<FarmToken>,
        boosted_rewards: u64,
        current_epoch: u64,
    ) -> (r: Result<(EsdtTokenPayment, FarmTokenAttributes, EsdtTokenPayment), DexError>)
        requires
            self.staking_wf(),
            all_mergeable(payments@),
            sum_current(payments@) <= u64::MAX as int,
        ensures
            ({
                let merge_module = FarmTokenMergeModule {
                    farm_token_id: self.farm_spec().farm_token_id,
                };
                match merge_module.get_merged_spec(payments@, None, current_epoch) {
                    Ok(attrs) => r matches Ok(p) && p.1 == attrs && p.0.token_identifier
                        == self.farm_spec().farm_token_id && p.0.amount
                        == attrs.current_farm_amount && p.2 == (EsdtTokenPayment {
                        token_identifier: self.farm_spec().reward_token_id,
                        token_nonce: 0,
                        amount: boosted_rewards,
                    }),
                    Err(e) => r == Err::<
                        (EsdtTokenPayment, FarmTokenAttributes, EsdtTokenPayment),
                        DexError,
                    >(e),
                }
            }),
    ;

    /// Only the contract itself, through a ledger query, may call.
    fn require_queried(&self, caller: u64, sc_address: u64) -> (r: Result<(), DexError>)
        ensures
            caller != sc_address ==> r == Err::<(), DexError>(DexError::OnlyVmQuery),
            caller == sc_address ==> r == Ok::<(), DexError>(()),
    ;
}

impl FarmStaking for FarmStakingState {
    open spec fn farm_spec(self) -> Farm {
        self.farm
    }

    open spec fn staking_wf(self) -> bool {
        self.wf()
    }

    fn calculate_rewards_for_given_position(
        &self,
        caller: u64,
        sc_address: u64,
        farm_token_amount: u64,
        attributes: &FarmTokenAttributes,
        current_block_nonce: u64,
    ) -> (r: Result<u128, DexError>) {
        if caller != sc_address {
            return Err(DexError::OnlyVmQuery);
        }
        let mut accrued = Farm {
            state: self.farm.state,
            farm_token_id: self.farm.farm_token_id,
            farming_token_id: self.farm.farming_token_id,
            reward_token_id: self.farm.reward_token_id,
            division_safety_constant: self.farm.division_safety_constant,
            reward_per_share: self.farm.reward_per_share,
            farm_token_supply: self.farm.farm_token_supply,
            reward_reserve: self.farm.reward_reserve,
            per_block_reward_amount: self.farm.per_block_reward_amount,
            last_reward_block_nonce: self.farm.last_reward_block_nonce,
            produce_rewards_enabled: self.farm.produce_rewards_enabled,
            penalty_percent: self.farm.penalty_percent,
            minimum_farming_epochs: self.farm.minimum_farming_epochs,
        };
        accrued.generate_aggregated_rewards(current_block_nonce);
        Ok(accrued.calculate_reward(farm_token_amount, attributes.reward_per_share))
    }

    fn merge_farm_tokens_endpoint(
        &self,
        payments: &Vec<FarmToken>,
        boosted_rewards: u64,
        current_epoch: u64,
    ) -> (r: Result<(EsdtTokenPayment, FarmTokenAttributes, EsdtTokenPayment), DexError>) {
        let merge_module = FarmTokenMergeModule { farm_token_id: self.farm.farm_token_id };
        let (merged_payment, merged_attributes) = match merge_module.merge_farm_tokens(
            payments,
            current_epoch,
        ) {
            Ok(p) => p,
            Err(e) => {
                return Err(e);
            },
        };
        // Both payments are sent to the caller at the edge, each only when
        // non-zero.
        let boosted_rewards_payment = EsdtTokenPayment::new(
            self.farm.reward_token_id,
            0,
            boosted_rewards,
        );
        Ok((merged_payment, merged_attributes, boosted_rewards_payment))
    }

    fn require_queried(&self, caller: u64, sc_address: u64) -> (r: Result<(), DexError>) {
        if caller != sc_address {
            return Err(DexError::OnlyVmQuery);
        }
        Ok(())
    }
}

} // verus!
