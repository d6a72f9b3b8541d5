//! The per-farm reward accrual state machine: a global reward-per-share
//! accumulator advanced lazily on every user action, a reward reserve it is
//! paid from, and the enter/exit/claim/compound transitions over position
//! tokens. Token mints, burns and transfers happen at the transaction edge;
//! here every transition is a function from the old state and the payments to
//! the new state and the outputs, all-or-nothing.

use vstd::prelude::*;
use crate::errors::DexError;
use crate::farm_token::{FarmToken, FarmTokenAttributes};
use crate::farm_token_merge::{
    all_mergeable, combined_positions, compounded_part, initial_part, sum_current, total_amount,
    FarmTokenMergeModule,
};
use crate::math;
use crate::payment::EsdtTokenPayment;

verus! {

/// Denominator of the early-exit penalty percentage.
pub const MAX_PENALTY_PERCENT: u64 = 100;

pub const DEFAULT_PENALTY_PERCENT: u64 = 10;

pub const DEFAULT_MINUMUM_FARMING_EPOCHS: u64 = 3;

/// Whether user actions are accepted; no action may run while `Inactive`.
#[derive(Clone, Copy, Debug, PartialEq, Eq, Structural)]
pub enum State {
    Inactive,
    Active,
}

/// What an exit pays out: the farming tokens left after any early-exit
/// penalty, the accrued reward, and the penalty that was burned.
#[derive(Clone, Copy, Debug, PartialEq, Eq, Structural)]
pub struct ExitFarmResult {
    pub farming_tokens: EsdtTokenPayment,
    pub reward_tokens: EsdtTokenPayment,
    pub penalty_amount: u64,
}

/// The global state of one farm.
#[derive(Clone, Copy, Debug, PartialEq, Eq, Structural)]
pub struct Farm {
    pub state: State,
    /// The position token this farm mints (zero while unissued).
    pub farm_token_id: u64,
    /// The token users deposit.
    pub farming_token_id: u64,
    /// The token rewards are paid in.
    pub reward_token_id: u64,
    /// Fixed-point scale guarding reward-per-share precision.
    pub division_safety_constant: u64,
    /// Global monotonic reward-per-share accumulator.
    pub reward_per_share: u64,
    /// Total supply of live position tokens.
    pub farm_token_supply: u64,
    /// Rewards minted but not yet paid out.
    pub reward_reserve: u64,
    pub per_block_reward_amount: u64,
    pub last_reward_block_nonce: u64,
    pub produce_rewards_enabled: bool,
    /// Early-exit penalty, out of `MAX_PENALTY_PERCENT`.
    pub penalty_percent: u64,
    pub minimum_farming_epochs: u64,
}

impl Farm {
    /// The configuration invariant every operation relies on.
    pub open spec fn wf(self) -> bool {
        &&& self.division_safety_constant > 0
        &&& self.penalty_percent <= MAX_PENALTY_PERCENT
    }

    /// Sets a farm up, inactive, with default penalty parameters. Rejects a
    /// missing token or a zero division-safety constant.
    pub fn init(reward_token_id: u64, farming_token_id: u64, division_safety_constant: u64) -> (r:
        Result<Farm, DexError>)
        ensures
            reward_token_id == 0 || farming_token_id == 0 ==> r == Err::<Farm, DexError>(
                DexError::NotAnEsdt,
            ),
            reward_token_id != 0 && farming_token_id != 0 && division_safety_constant == 0 ==> r
                == Err::<Farm, DexError>(DexError::ZeroAmount),
            reward_token_id != 0 && farming_token_id != 0 && division_safety_constant != 0 ==> (
            r matches Ok(f) && f == (Farm {
                state: State::Inactive,
                farm_token_id: 0,
                farming_token_id,
                reward_token_id,
                division_safety_constant,
                reward_per_share: 0,
                farm_token_supply: 0,
                reward_reserve: 0,
                per_block_reward_amount: 0,
                last_reward_block_nonce: 0,
                produce_rewards_enabled: false,
                penalty_percent: DEFAULT_PENALTY_PERCENT,
                minimum_farming_epochs: DEFAULT_MINUMUM_FARMING_EPOCHS,
            })),
            r matches Ok(f) ==> f.wf(),
    {
        if reward_token_id == 0 || farming_token_id == 0 {
            return Err(DexError::NotAnEsdt);
        }
        if division_safety_constant == 0 {
            return Err(DexError::ZeroAmount);
        }
        Ok(
            Farm {
                state: State::Inactive,
                farm_token_id: 0,
                farming_token_id,
                reward_token_id,
                division_safety_constant,
                reward_per_share: 0,
                farm_token_supply: 0,
                reward_reserve: 0,
                per_block_reward_amount: 0,
                last_reward_block_nonce: 0,
                produce_rewards_enabled: false,
                penalty_percent: DEFAULT_PENALTY_PERCENT,
                minimum_farming_epochs: DEFAULT_MINUMUM_FARMING_EPOCHS,
            },
        )
    }

    /// Rewards owed for the blocks elapsed since the last update.
    pub open spec fn per_block_rewards_spec(self, current_block_nonce: u64) -> int {
        if current_block_nonce > self.last_reward_block_nonce && self.produce_rewards_enabled {
            self.per_block_reward_amount * (current_block_nonce - self.last_reward_block_nonce)
        } else {
            0
        }
    }

    /// How far the reward-per-share accumulator advances: the newly minted
    /// reward scaled by the safety constant, split over the supply.
    pub open spec fn rps_increase_spec(self, current_block_nonce: u64) -> int {
        let reward = self.per_block_rewards_spec(current_block_nonce);
        if reward > 0 && self.farm_token_supply > 0 {
            reward * self.division_safety_constant / self.farm_token_supply as int
        } else {
            0
        }
    }

    /// The farm state after lazily accruing rewards up to a block.
    pub open spec fn accrue_spec(self, current_block_nonce: u64) -> Farm {
        Farm {
            reward_reserve: (self.reward_reserve + self.per_block_rewards_spec(
                current_block_nonce,
            )) as u64,
            reward_per_share: (self.reward_per_share + self.rps_increase_spec(
                current_block_nonce,
            )) as u64,
            last_reward_block_nonce: if current_block_nonce > self.last_reward_block_nonce {
                current_block_nonce
            } else {
                self.last_reward_block_nonce
            },
            ..self
        }
    }

    /// The machine limits an accrual must respect.
    pub open spec fn can_accrue(self, current_block_nonce: u64) -> bool {
        &&& self.reward_reserve + self.per_block_rewards_spec(current_block_nonce)
            <= u64::MAX as int
        &&& self.reward_per_share + self.rps_increase_spec(current_block_nonce) <= u64::MAX as int
    }

    /// Advances the reward bookkeeping to the current block: mints the
    /// per-block rewards into the reserve and moves reward-per-share forward.
    /// The accumulator never decreases.
    pub fn generate_aggregated_rewards(&mut self, current_block_nonce: u64)
        requires
            old(self).wf(),
            old(self).can_accrue(current_block_nonce),
        ensures
            *final(self) == old(self).accrue_spec(current_block_nonce),
            final(self).reward_per_share >= old(self).reward_per_share,
    {
        let reward128: u128 = if current_block_nonce > self.last_reward_block_nonce
            && self.produce_rewards_enabled {
            proof {
                assert(self.per_block_reward_amount as int * (current_block_nonce
                    - self.last_reward_block_nonce) <= u64::MAX as int * u64::MAX as int)
                    by (nonlinear_arith)
                    requires
                        0 <= self.per_block_reward_amount <= u64::MAX,
                        0 <= current_block_nonce - self.last_reward_block_nonce <= u64::MAX,
                ;
            }
            (self.per_block_reward_amount as u128) * ((current_block_nonce
                - self.last_reward_block_nonce) as u128)
        } else {
            0
        };
        if current_block_nonce > self.last_reward_block_nonce {
            self.last_reward_block_nonce = current_block_nonce;
        }
        if reward128 > 0 {
            let reward = reward128 as u64;
            self.reward_reserve = self.reward_reserve + reward;
            if self.farm_token_supply > 0 {
                proof {
                    assert(reward as int * self.division_safety_constant as int
                        <= u64::MAX as int * u64::MAX as int) by (nonlinear_arith)
                        requires
                            0 <= reward <= u64::MAX,
                            0 <= self.division_safety_constant <= u64::MAX,
                    ;
                }
                let increase = ((reward as u128) * (self.division_safety_constant as u128)) / (
                self.farm_token_supply as u128);
                self.reward_per_share = self.reward_per_share + (increase as u64);
            }
        }
    }

    /// The accumulator law: accruing never moves reward-per-share backwards,
    /// whatever block the farm is advanced to.
    pub proof fn lemma_reward_per_share_monotonic(self, current_block_nonce: u64)
        requires
            self.can_accrue(current_block_nonce),
        ensures
            self.accrue_spec(current_block_nonce).reward_per_share >= self.reward_per_share,
    {
        let reward = self.per_block_rewards_spec(current_block_nonce);
        assert(reward >= 0) by (nonlinear_arith)
            requires
                reward == self.per_block_rewards_spec(current_block_nonce),
                self.per_block_reward_amount >= 0,
                current_block_nonce > self.last_reward_block_nonce
                    && self.produce_rewards_enabled ==> reward == self.per_block_reward_amount * (
                current_block_nonce - self.last_reward_block_nonce),
                !(current_block_nonce > self.last_reward_block_nonce
                    && self.produce_rewards_enabled) ==> reward == 0,
        ;
        if reward > 0 && self.farm_token_supply > 0 {
            assert(reward * self.division_safety_constant >= 0) by (nonlinear_arith)
                requires
                    reward >= 0,
                    self.division_safety_constant >= 0,
            ;
            vstd::arithmetic::div_mod::lemma_div_pos_is_pos(
                reward * self.division_safety_constant,
                self.farm_token_supply as int,
            );
        }
    }

    /// The reward a position of `amount` with snapshot `position_rps` has
    /// accrued: its share of the accumulator's advance since the snapshot,
    /// scaled back down by the safety constant.
    pub open spec fn calculate_reward_spec(self, amount: u64, position_rps: u64) -> int {
        if self.reward_per_share > position_rps {
            amount * (self.reward_per_share - position_rps) / self.division_safety_constant as int
        } else {
            0
        }
    }

    pub fn calculate_reward(&self, amount: u64, position_rps: u64) -> (r: u128)
        requires
            self.wf(),
        ensures
            r == self.calculate_reward_spec(amount, position_rps),
    {
        if self.reward_per_share > position_rps {
            let delta = self.reward_per_share - position_rps;
            proof {
                assert(amount as int * delta as int <= u64::MAX as int * u64::MAX as int)
                    by (nonlinear_arith)
                    requires
                        0 <= amount <= u64::MAX,
                        0 <= delta <= u64::MAX,
                ;
            }
            ((amount as u128) * (delta as u128)) / (self.division_safety_constant as u128)
        } else {
            0
        }
    }

    /// An exit within the minimum farming window pays a penalty.
    pub open spec fn should_apply_penalty_spec(self, entering_epoch: u64, current_epoch: u64)
        -> bool {
        entering_epoch + self.minimum_farming_epochs > current_epoch
    }

    pub fn should_apply_penalty(&self, entering_epoch: u64, current_epoch: u64) -> (r: bool)
        ensures
            r == self.should_apply_penalty_spec(entering_epoch, current_epoch),
    {
        (entering_epoch as u128) + (self.minimum_farming_epochs as u128) > (current_epoch as u128)
    }

    /// The penalty on an amount, `penalty_percent` out of
    /// `MAX_PENALTY_PERCENT`, rounded down.
    pub open spec fn penalty_amount_spec(self, amount: u64) -> int {
        amount * self.penalty_percent / MAX_PENALTY_PERCENT as int
    }

    pub fn get_penalty_amount(&self, amount: u64) -> (r: u64)
        requires
            self.wf(),
        ensures
            r == self.penalty_amount_spec(amount),
            r <= amount,
    {
        proof {
            assert(amount as int * self.penalty_percent as int
                <= u64::MAX as int * u64::MAX as int) by (nonlinear_arith)
                requires
                    0 <= amount <= u64::MAX,
                    0 <= self.penalty_percent <= u64::MAX,
            ;
            math::lemma_rule_of_three_le(
                self.penalty_percent as int,
                MAX_PENALTY_PERCENT as int,
                amount as int,
            );
            assert(amount as int * self.penalty_percent as int
                == self.penalty_percent as int * amount as int) by (nonlinear_arith);
        }
        (((amount as u128) * (self.penalty_percent as u128)) / (MAX_PENALTY_PERCENT as u128)) as u64
    }

    /// What an early exit burns from the farming amount, and what is left.
    pub open spec fn burn_penalty_spec(
        self,
        initial_farming_amount: u64,
        entering_epoch: u64,
        current_epoch: u64,
    ) -> (int, int) {
        if self.should_apply_penalty_spec(entering_epoch, current_epoch) {
            (
                initial_farming_amount - self.penalty_amount_spec(initial_farming_amount),
                self.penalty_amount_spec(initial_farming_amount),
            )
        } else {
            (initial_farming_amount as int, 0)
        }
    }

    /// Applies the early-exit penalty: the penalty share of the farming
    /// amount is burned (removed from what the exit returns).
    pub fn burn_penalty(
        &self,
        initial_farming_amount: u64,
        entering_epoch: u64,
        current_epoch: u64,
    ) -> (r: (u64, u64))
        requires
            self.wf(),
        ensures
            (r.0 as int, r.1 as int) == self.burn_penalty_spec(
                initial_farming_amount,
                entering_epoch,
                current_epoch,
            ),
            r.0 + r.1 == initial_farming_amount,
    {
        if self.should_apply_penalty(entering_epoch, current_epoch) {
            let penalty_amount = self.get_penalty_amount(initial_farming_amount);
            (initial_farming_amount - penalty_amount, penalty_amount)
        } else {
            (initial_farming_amount, 0)
        }
    }

    /// The proportional share of a position's compounded reward that a held
    /// amount carries out.
    pub fn calculate_new_compound_reward_amount(&self, position: &FarmToken) -> (r: u64)
        requires
            position.sound(),
        ensures
            r == compounded_part(*position),
    {
        proof {
            math::lemma_rule_of_three_le(
                position.token_amount.amount as int,
                position.attributes.current_farm_amount as int,
                position.attributes.compounded_reward as int,
            );
        }
        math::rule_of_three(
            position.token_amount.amount,
            position.attributes.current_farm_amount,
            position.attributes.compounded_reward,
        )
    }

    /// The virtual position an `enter` merges with the user's existing ones:
    /// the fresh deposit at the current accumulator snapshot.
    pub open spec fn enter_virtual_position(self, payment: EsdtTokenPayment, current_epoch: u64)
        -> FarmToken {
        FarmToken {
            token_amount: EsdtTokenPayment {
                token_identifier: self.farm_token_id,
                token_nonce: 0,
                amount: payment.amount,
            },
            attributes: FarmTokenAttributes {
                reward_per_share: self.reward_per_share,
                entering_epoch: current_epoch,
                original_entering_epoch: current_epoch,
                initial_farming_amount: payment.amount,
                compounded_reward: 0,
                current_farm_amount: payment.amount,
            },
        }
    }

    /// The merge engine of this farm.
    pub open spec fn merge_module(self) -> FarmTokenMergeModule {
        FarmTokenMergeModule { farm_token_id: self.farm_token_id }
    }

    /// What `enter_farm` does, as one specification: validate, accrue, merge
    /// the fresh deposit with the handed-in positions, and grow the supply by
    /// exactly the deposit.
    pub open spec fn enter_farm_spec(
        self,
        payment: EsdtTokenPayment,
        additional_positions: Seq<FarmToken>,
        current_block_nonce: u64,
        current_epoch: u64,
    ) -> Result<(Farm, FarmToken, bool), DexError> {
        if self.state != State::Active {
            Err(DexError::NotActive)
        } else if self.farm_token_id == 0 {
            Err(DexError::NoFarmToken)
        } else if payment.token_identifier != self.farming_token_id || payment.token_nonce != 0
            || payment.amount == 0 {
            Err(DexError::BadPayments)
        } else {
            let accrued = self.accrue_spec(current_block_nonce);
            let virtual_position = accrued.enter_virtual_position(payment, current_epoch);
            match self.merge_module().get_merged_spec(
                additional_positions,
                Some(virtual_position),
                current_epoch,
            ) {
                Err(e) => Err(e),
                Ok(attrs) => Ok(
                    (
                        Farm {
                            farm_token_supply: (accrued.farm_token_supply + payment.amount) as u64,
                            ..accrued
                        },
                        FarmToken {
                            token_amount: EsdtTokenPayment {
                                token_identifier: self.farm_token_id,
                                token_nonce: 0,
                                amount: attrs.current_farm_amount,
                            },
                            attributes: attrs,
                        },
                        additional_positions.len() != 0,
                    ),
                ),
            }
        }
    }

    /// Enter the farm: deposit farming tokens and receive one position token,
    /// merged with any positions handed in alongside. Burns the handed-in
    /// positions and mints the merged one; the supply grows by exactly the
    /// deposited amount.
    pub fn enter_farm(
        &mut self,
        payment: EsdtTokenPayment,
        additional_positions: &Vec<FarmToken>,
        current_block_nonce: u64,
        current_epoch: u64,
    ) -> (r: Result<(FarmToken, bool), DexError>)
        requires
            old(self).wf(),
            old(self).can_accrue(current_block_nonce),
            all_mergeable(additional_positions@),
            total_amount(additional_positions@) <= old(self).farm_token_supply,
            old(self).farm_token_supply + payment.amount <= u64::MAX,
            sum_current(additional_positions@) + payment.amount <= u64::MAX as int,
        ensures
            final(self).wf(),
            ({
                match old(self).enter_farm_spec(
                    payment,
                    additional_positions@,
                    current_block_nonce,
                    current_epoch,
                ) {
                    Ok((f, new_token, merged)) => *final(self) == f && r == Ok::<
                        (FarmToken, bool),
                        DexError,
                    >((new_token, merged)),
                    Err(e) => *final(self) == *old(self) && r == Err::<
                        (FarmToken, bool),
                        DexError,
                    >(e),
                }
            }),
    {
        if self.state != State::Active {
            return Err(DexError::NotActive);
        }
        if self.farm_token_id == 0 {
            return Err(DexError::NoFarmToken);
        }
        if payment.token_identifier != self.farming_token_id || payment.token_nonce != 0
            || payment.amount == 0 {
            return Err(DexError::BadPayments);
        }

        let mut next = *self;
        next.generate_aggregated_rewards(current_block_nonce);

        let virtual_position = FarmToken {
            token_amount: EsdtTokenPayment {
                token_identifier: next.farm_token_id,
                token_nonce: 0,
                amount: payment.amount,
            },
            attributes: FarmTokenAttributes {
                reward_per_share: next.reward_per_share,
                entering_epoch: current_epoch,
                original_entering_epoch: current_epoch,
                initial_farming_amount: payment.amount,
                compounded_reward: 0,
                current_farm_amount: payment.amount,
            },
        };
        proof {
            let combined = combined_positions(additional_positions@, Some(virtual_position));
            assert(combined.drop_last() =~= additional_positions@);
            assert(combined.last() == virtual_position);
        }

        let merge_module = FarmTokenMergeModule { farm_token_id: next.farm_token_id };
        let attrs = match merge_module.get_merged_farm_token_attributes(
            additional_positions,
            Some(virtual_position),
            current_epoch,
        ) {
            Ok(a) => a,
            Err(e) => {
                return Err(e);
            },
        };

        next.farm_token_supply = next.farm_token_supply + payment.amount;
        let new_farm_token = FarmToken {
            token_amount: EsdtTokenPayment {
                token_identifier: next.farm_token_id,
                token_nonce: 0,
                amount: attrs.current_farm_amount,
            },
            attributes: attrs,
        };
        let created_with_merge = additional_positions.len() != 0;
        *self = next;
        Ok((new_farm_token, created_with_merge))
    }

    /// What `exit_farm` does, as one specification: validate, accrue, pay the
    /// accrued reward out of the reserve, reconstruct the proportional
    /// original deposit, add the compounded share to the reward, burn the
    /// early-exit penalty, and retire the position from the supply.
    pub open spec fn exit_farm_spec(
        self,
        payment: FarmToken,
        current_block_nonce: u64,
        current_epoch: u64,
    ) -> Result<(Farm, ExitFarmResult), DexError> {
        if self.state != State::Active {
            Err(DexError::NotActive)
        } else if self.farm_token_id == 0 {
            Err(DexError::NoFarmToken)
        } else if payment.token_amount.token_identifier != self.farm_token_id
            || payment.token_amount.token_nonce == 0 || payment.token_amount.amount == 0 {
            Err(DexError::BadPayments)
        } else {
            let accrued = self.accrue_spec(current_block_nonce);
            let rps_reward = accrued.calculate_reward_spec(
                payment.token_amount.amount,
                payment.attributes.reward_per_share,
            );
            if rps_reward > accrued.reward_reserve {
                Err(DexError::InsufficientReserve)
            } else if initial_part(payment) == 0 {
                Err(DexError::ZeroResult)
            } else {
                let reward_total = rps_reward + compounded_part(payment);
                let burn = accrued.burn_penalty_spec(
                    initial_part(payment) as u64,
                    payment.attributes.entering_epoch,
                    current_epoch,
                );
                Ok(
                    (
                        Farm {
                            reward_reserve: (accrued.reward_reserve - rps_reward) as u64,
                            farm_token_supply: (accrued.farm_token_supply
                                - payment.token_amount.amount) as u64,
                            ..accrued
                        },
                        ExitFarmResult {
                            farming_tokens: EsdtTokenPayment {
                                token_identifier: self.farming_token_id,
                                token_nonce: 0,
                                amount: burn.0 as u64,
                            },
                            reward_tokens: EsdtTokenPayment {
                                token_identifier: self.reward_token_id,
                                token_nonce: 0,
                                amount: reward_total as u64,
                            },
                            penalty_amount: burn.1 as u64,
                        },
                    ),
                )
            }
        }
    }

    /// Exit the farm: burn the position, pay back the proportional original
    /// deposit (less any early-exit penalty) and the accrued reward. The
    /// reserve decreases by exactly the reward-per-share reward.
    pub fn exit_farm(
        &mut self,
        payment: FarmToken,
        current_block_nonce: u64,
        current_epoch: u64,
    ) -> (r: Result<ExitFarmResult, DexError>)
        requires
            old(self).wf(),
            old(self).can_accrue(current_block_nonce),
            payment.sound(),
            payment.token_amount.amount <= old(self).farm_token_supply,
            old(self).accrue_spec(current_block_nonce).reward_reserve
                + payment.attributes.compounded_reward <= u64::MAX,
        ensures
            final(self).wf(),
            ({
                match old(self).exit_farm_spec(payment, current_block_nonce, current_epoch) {
                    Ok((f, res)) => *final(self) == f && r == Ok::<ExitFarmResult, DexError>(res),
                    Err(e) => *final(self) == *old(self) && r == Err::<ExitFarmResult, DexError>(
                        e,
                    ),
                }
            }),
    {
        if self.state != State::Active {
            return Err(DexError::NotActive);
        }
        if self.farm_token_id == 0 {
            return Err(DexError::NoFarmToken);
        }
        if payment.token_amount.token_identifier != self.farm_token_id
            || payment.token_amount.token_nonce == 0 || payment.token_amount.amount == 0 {
            return Err(DexError::BadPayments);
        }

        let mut next = *self;
        next.generate_aggregated_rewards(current_block_nonce);

        let rps_reward = next.calculate_reward(
            payment.token_amount.amount,
            payment.attributes.reward_per_share,
        );
        if rps_reward > next.reward_reserve as u128 {
            return Err(DexError::InsufficientReserve);
        }
        next.reward_reserve = next.reward_reserve - (rps_reward as u64);

        proof {
            math::lemma_rule_of_three_le(
                payment.token_amount.amount as int,
                payment.attributes.current_farm_amount as int,
                payment.attributes.initial_farming_amount as int,
            );
        }
        let initial_farming_amount = match math::rule_of_three_non_zero_result(
            payment.token_amount.amount,
            payment.attributes.current_farm_amount,
            payment.attributes.initial_farming_amount,
        ) {
            Ok(v) => v,
            Err(e) => {
                return Err(e);
            },
        };

        let compounded = next.calculate_new_compound_reward_amount(&payment);
        proof {
            math::lemma_rule_of_three_le(
                payment.token_amount.amount as int,
                payment.attributes.current_farm_amount as int,
                payment.attributes.compounded_reward as int,
            );
        }
        let reward_total = (rps_reward as u64) + compounded;

        let (farming_amount, penalty_amount) = next.burn_penalty(
            initial_farming_amount,
            payment.attributes.entering_epoch,
            current_epoch,
        );
        next.farm_token_supply = next.farm_token_supply - payment.token_amount.amount;

        let result = ExitFarmResult {
            farming_tokens: EsdtTokenPayment {
                token_identifier: next.farming_token_id,
                token_nonce: 0,
                amount: farming_amount,
            },
            reward_tokens: EsdtTokenPayment {
                token_identifier: next.reward_token_id,
                token_nonce: 0,
                amount: reward_total,
            },
            penalty_amount,
        };
        *self = next;
        Ok(result)
    }

    /// The virtual position a claim merges back: the same stake, re-snapshot
    /// at the advanced accumulator, with its proportional deposit and
    /// compounded shares carried over.
    pub open spec fn claim_virtual_position(self, payment: FarmToken) -> FarmToken {
        FarmToken {
            token_amount: EsdtTokenPayment {
                token_identifier: self.farm_token_id,
                token_nonce: 0,
                amount: payment.token_amount.amount,
            },
            attributes: FarmTokenAttributes {
                reward_per_share: self.reward_per_share,
                entering_epoch: payment.attributes.entering_epoch,
                original_entering_epoch: payment.attributes.original_entering_epoch,
                initial_farming_amount: initial_part(payment) as u64,
                compounded_reward: compounded_part(payment) as u64,
                current_farm_amount: payment.token_amount.amount,
            },
        }
    }

    /// What `claim_rewards` does, as one specification: validate, accrue, pay
    /// the accrued reward out of the reserve, and re-mint the position (merged
    /// with any handed-in ones) at the new accumulator snapshot. The supply is
    /// unchanged: what is burned is re-minted.
    pub open spec fn claim_rewards_spec(
        self,
        payment: FarmToken,
        additional_positions: Seq<FarmToken>,
        current_block_nonce: u64,
        current_epoch: u64,
    ) -> Result<(Farm, FarmToken, EsdtTokenPayment, bool), DexError> {
        if self.state != State::Active {
            Err(DexError::NotActive)
        } else if self.farm_token_id == 0 {
            Err(DexError::NoFarmToken)
        } else if payment.token_amount.token_identifier != self.farm_token_id
            || payment.token_amount.token_nonce == 0 || payment.token_amount.amount == 0 {
            Err(DexError::BadPayments)
        } else {
            let accrued = self.accrue_spec(current_block_nonce);
            let rps_reward = accrued.calculate_reward_spec(
                payment.token_amount.amount,
                payment.attributes.reward_per_share,
            );
            if rps_reward > accrued.reward_reserve {
                Err(DexError::InsufficientReserve)
            } else if initial_part(payment) == 0 {
                Err(DexError::ZeroResult)
            } else {
                let virtual_position = accrued.claim_virtual_position(payment);
                match self.merge_module().get_merged_spec(
                    additional_positions,
                    Some(virtual_position),
                    current_epoch,
                ) {
                    Err(e) => Err(e),
                    Ok(attrs) => Ok(
                        (
                            Farm {
                                reward_reserve: (accrued.reward_reserve - rps_reward) as u64,
                                ..accrued
                            },
                            FarmToken {
                                token_amount: EsdtTokenPayment {
                                    token_identifier: self.farm_token_id,
                                    token_nonce: 0,
                                    amount: attrs.current_farm_amount,
                                },
                                attributes: attrs,
                            },
                            EsdtTokenPayment {
                                token_identifier: self.reward_token_id,
                                token_nonce: 0,
                                amount: rps_reward as u64,
                            },
                            additional_positions.len() != 0,
                        ),
                    ),
                }
            }
        }
    }

    /// Claim the accrued reward of a position without leaving the farm: the
    /// position is burned and re-minted at the advanced accumulator, merged
    /// with any positions handed in alongside; the reserve decreases by
    /// exactly the paid reward and the supply stays unchanged.
    pub fn claim_rewards(
        &mut self,
        payment: FarmToken,
        additional_positions: &Vec<FarmToken>,
        current_block_nonce: u64,
        current_epoch: u64,
    ) -> (r: Result<(FarmToken, EsdtTokenPayment, bool), DexError>)
        requires
            old(self).wf(),
            old(self).can_accrue(current_block_nonce),
            payment.sound(),
            all_mergeable(additional_positions@),
            sum_current(additional_positions@) + payment.token_amount.amount <= u64::MAX as int,
        ensures
            final(self).wf(),
            ({
                match old(self).claim_rewards_spec(
                    payment,
                    additional_positions@,
                    current_block_nonce,
                    current_epoch,
                ) {
                    Ok((f, new_token, reward, merged)) => *final(self) == f && r == Ok::<
                        (FarmToken, EsdtTokenPayment, bool),
                        DexError,
                    >((new_token, reward, merged)),
                    Err(e) => *final(self) == *old(self) && r == Err::<
                        (FarmToken, EsdtTokenPayment, bool),
                        DexError,
                    >(e),
                }
            }),
    {
        if self.state != State::Active {
            return Err(DexError::NotActive);
        }
        if self.farm_token_id == 0 {
            return Err(DexError::NoFarmToken);
        }
        if payment.token_amount.token_identifier != self.farm_token_id
            || payment.token_amount.token_nonce == 0 || payment.token_amount.amount == 0 {
            return Err(DexError::BadPayments);
        }

        let mut next = *self;
        next.generate_aggregated_rewards(current_block_nonce);

        let rps_reward = next.calculate_reward(
            payment.token_amount.amount,
            payment.attributes.reward_per_share,
        );
        if rps_reward > next.reward_reserve as u128 {
            return Err(DexError::InsufficientReserve);
        }

        proof {
            math::lemma_rule_of_three_le(
                payment.token_amount.amount as int,
                payment.attributes.current_farm_amount as int,
                payment.attributes.initial_farming_amount as int,
            );
        }
        let initial_farming_amount = match math::rule_of_three_non_zero_result(
            payment.token_amount.amount,
            payment.attributes.current_farm_amount,
            payment.attributes.initial_farming_amount,
        ) {
            Ok(v) => v,
            Err(e) => {
                return Err(e);
            },
        };
        let new_compound_reward_amount = next.calculate_new_compound_reward_amount(&payment);

        let virtual_position = FarmToken {
            token_amount: EsdtTokenPayment {
                token_identifier: next.farm_token_id,
                token_nonce: 0,
                amount: payment.token_amount.amount,
            },
            attributes: FarmTokenAttributes {
                reward_per_share: next.reward_per_share,
                entering_epoch: payment.attributes.entering_epoch,
                original_entering_epoch: payment.attributes.original_entering_epoch,
                initial_farming_amount,
                compounded_reward: new_compound_reward_amount,
                current_farm_amount: payment.token_amount.amount,
            },
        };
        proof {
            math::lemma_floor_parts_le(
                payment.token_amount.amount as int,
                payment.attributes.initial_farming_amount as int,
                payment.attributes.compounded_reward as int,
                payment.attributes.current_farm_amount as int,
            );
            let combined = combined_positions(additional_positions@, Some(virtual_position));
            assert(combined.drop_last() =~= additional_positions@);
            assert(combined.last() == virtual_position);
        }

        let merge_module = FarmTokenMergeModule { farm_token_id: next.farm_token_id };
        let attrs = match merge_module.get_merged_farm_token_attributes(
            additional_positions,
            Some(virtual_position),
            current_epoch,
        ) {
            Ok(a) => a,
            Err(e) => {
                return Err(e);
            },
        };

        // The payment and the handed-in positions are burned and the merged
        // position minted for their exact total, so the supply nets out.
        next.reward_reserve = next.reward_reserve - (rps_reward as u64);

        let new_farm_token = FarmToken {
            token_amount: EsdtTokenPayment {
                token_identifier: next.farm_token_id,
                token_nonce: 0,
                amount: attrs.current_farm_amount,
            },
            attributes: attrs,
        };
        let reward_payment = EsdtTokenPayment {
            token_identifier: next.reward_token_id,
            token_nonce: 0,
            amount: rps_reward as u64,
        };
        let created_with_merge = additional_positions.len() != 0;
        *self = next;
        Ok((new_farm_token, reward_payment, created_with_merge))
    }

    /// The fairness-weighted vesting start after compounding: the reward is
    /// treated as a synthetic sub-position entering now, and the original
    /// entering epoch becomes the amount-weighted average of the two.
    pub open spec fn aggregated_original_entering_epoch_on_compound_spec(
        position_amount: u64,
        original_entering_epoch: u64,
        reward_amount: u64,
        current_epoch: u64,
    ) -> int {
        if reward_amount == 0 {
            original_entering_epoch as int
        } else {
            (original_entering_epoch * position_amount + current_epoch * reward_amount) / (
            position_amount + reward_amount)
        }
    }

    pub fn aggregated_original_entering_epoch_on_compound(
        &self,
        position_amount: u64,
        position_attributes: &FarmTokenAttributes,
        reward_amount: u64,
        current_epoch: u64,
    ) -> (r: u64)
        requires
            position_amount > 0,
            position_attributes.original_entering_epoch * position_amount + current_epoch
                * reward_amount + position_amount + reward_amount <= u128::MAX as int,
        ensures
            r == Self::aggregated_original_entering_epoch_on_compound_spec(
                position_amount,
                position_attributes.original_entering_epoch,
                reward_amount,
                current_epoch,
            ),
    {
        if reward_amount == 0 {
            return position_attributes.original_entering_epoch;
        }

        let mut dataset: Vec<math::ValueWeight> = Vec::new();
        dataset.push(
            math::ValueWeight {
                value: position_attributes.original_entering_epoch,
                weight: position_amount,
            },
        );
        dataset.push(math::ValueWeight { value: current_epoch, weight: reward_amount });
        proof {
            let d = dataset@;
            let d1 = d.drop_last();
            let d0 = d1.drop_last();
            assert(d0 =~= Seq::<math::ValueWeight>::empty());
            assert(math::sum_weights(d0) == 0);
            assert(math::sum_products(d0) == 0);
            assert(d1.last() == d[0] && d.last() == d[1]);
            assert(math::sum_weights(d1) == position_amount);
            assert(math::sum_products(d1) == position_attributes.original_entering_epoch
                * position_amount);
            assert(math::sum_weights(d) == position_amount + reward_amount);
            assert(math::sum_products(d) == position_attributes.original_entering_epoch
                * position_amount + current_epoch * reward_amount);
        }
        math::weighted_average(&dataset)
    }

    /// The virtual position a compound merges back: the stake grown by the
    /// reward, which also counts as newly compounded, entering now.
    pub open spec fn compound_virtual_position(
        self,
        payment: FarmToken,
        rps_reward: int,
        current_epoch: u64,
    ) -> FarmToken {
        FarmToken {
            token_amount: EsdtTokenPayment {
                token_identifier: self.farm_token_id,
                token_nonce: 0,
                amount: (payment.token_amount.amount + rps_reward) as u64,
            },
            attributes: FarmTokenAttributes {
                reward_per_share: self.reward_per_share,
                entering_epoch: current_epoch,
                original_entering_epoch: Self::aggregated_original_entering_epoch_on_compound_spec(
                    payment.token_amount.amount,
                    payment.attributes.original_entering_epoch,
                    rps_reward as u64,
                    current_epoch,
                ) as u64,
                initial_farming_amount: initial_part(payment) as u64,
                compounded_reward: (compounded_part(payment) + rps_reward) as u64,
                current_farm_amount: (payment.token_amount.amount + rps_reward) as u64,
            },
        }
    }

    /// What `compound_rewards` does, as one specification: validate (farming
    /// and reward token must coincide), accrue, move the accrued reward from
    /// the reserve into the position itself, and re-mint the grown position.
    /// The supply grows by exactly the compounded reward.
    pub open spec fn compound_rewards_spec(
        self,
        payment: FarmToken,
        additional_positions: Seq<FarmToken>,
        current_block_nonce: u64,
        current_epoch: u64,
    ) -> Result<(Farm, FarmToken, bool), DexError> {
        if self.state != State::Active {
            Err(DexError::NotActive)
        } else if self.farm_token_id == 0 {
            Err(DexError::NoFarmToken)
        } else if payment.token_amount.token_identifier != self.farm_token_id
            || payment.token_amount.token_nonce == 0 || payment.token_amount.amount == 0 {
            Err(DexError::BadPayments)
        } else if self.farming_token_id != self.reward_token_id {
            Err(DexError::DifferentTokenIds)
        } else {
            let accrued = self.accrue_spec(current_block_nonce);
            let rps_reward = accrued.calculate_reward_spec(
                payment.token_amount.amount,
                payment.attributes.reward_per_share,
            );
            if rps_reward > accrued.reward_reserve {
                Err(DexError::InsufficientReserve)
            } else if initial_part(payment) == 0 {
                Err(DexError::ZeroResult)
            } else {
                let virtual_position = accrued.compound_virtual_position(
                    payment,
                    rps_reward,
                    current_epoch,
                );
                match self.merge_module().get_merged_spec(
                    additional_positions,
                    Some(virtual_position),
                    current_epoch,
                ) {
                    Err(e) => Err(e),
                    Ok(attrs) => Ok(
                        (
                            Farm {
                                reward_reserve: (accrued.reward_reserve - rps_reward) as u64,
                                farm_token_supply: (accrued.farm_token_supply + rps_reward) as u64,
                                ..accrued
                            },
                            FarmToken {
                                token_amount: EsdtTokenPayment {
                                    token_identifier: self.farm_token_id,
                                    token_nonce: 0,
                                    amount: attrs.current_farm_amount,
                                },
                                attributes: attrs,
                            },
                            additional_positions.len() != 0,
                        ),
                    ),
                }
            }
        }
    }

    /// Compound the accrued reward into the position itself: only possible
    /// when farming and reward token coincide. The reserve decreases and the
    /// supply grows by exactly the compounded reward.
    pub fn compound_rewards(
        &mut self,
        payment: FarmToken,
        additional_positions: &Vec<FarmToken>,
        current_block_nonce: u64,
        current_epoch: u64,
    ) -> (r: Result<(FarmToken, bool), DexError>)
        requires
            old(self).wf(),
            old(self).can_accrue(current_block_nonce),
            payment.sound(),
            all_mergeable(additional_positions@),
            ({
                let accrued = old(self).accrue_spec(current_block_nonce);
                let rps_reward = accrued.calculate_reward_spec(
                    payment.token_amount.amount,
                    payment.attributes.reward_per_share,
                );
                &&& payment.token_amount.amount + rps_reward <= u64::MAX
                &&& accrued.farm_token_supply + rps_reward <= u64::MAX
                &&& payment.attributes.original_entering_epoch * payment.token_amount.amount
                    + current_epoch * rps_reward + payment.token_amount.amount + rps_reward
                    <= u128::MAX as int
                &&& sum_current(additional_positions@) + payment.token_amount.amount + rps_reward
                    <= u64::MAX as int
            }),
        ensures
            final(self).wf(),
            ({
                match old(self).compound_rewards_spec(
                    payment,
                    additional_positions@,
                    current_block_nonce,
                    current_epoch,
                ) {
                    Ok((f, new_token, merged)) => *final(self) == f && r == Ok::<
                        (FarmToken, bool),
                        DexError,
                    >((new_token, merged)),
                    Err(e) => *final(self) == *old(self) && r == Err::<
                        (FarmToken, bool),
                        DexError,
                    >(e),
                }
            }),
    {
        if self.state != State::Active {
            return Err(DexError::NotActive);
        }
        if self.farm_token_id == 0 {
            return Err(DexError::NoFarmToken);
        }
        if payment.token_amount.token_identifier != self.farm_token_id
            || payment.token_amount.token_nonce == 0 || payment.token_amount.amount == 0 {
            return Err(DexError::BadPayments);
        }
        if self.farming_token_id != self.reward_token_id {
            return Err(DexError::DifferentTokenIds);
        }

        let mut next = *self;
        next.generate_aggregated_rewards(current_block_nonce);

        let rps_reward128 = next.calculate_reward(
            payment.token_amount.amount,
            payment.attributes.reward_per_share,
        );
        if rps_reward128 > next.reward_reserve as u128 {
            return Err(DexError::InsufficientReserve);
        }
        let rps_reward = rps_reward128 as u64;

        proof {
            math::lemma_rule_of_three_le(
                payment.token_amount.amount as int,
                payment.attributes.current_farm_amount as int,
                payment.attributes.initial_farming_amount as int,
            );
        }
        let initial_farming_amount = match math::rule_of_three_non_zero_result(
            payment.token_amount.amount,
            payment.attributes.current_farm_amount,
            payment.attributes.initial_farming_amount,
        ) {
            Ok(v) => v,
            Err(e) => {
                return Err(e);
            },
        };
        let new_compound_reward_amount = next.calculate_new_compound_reward_amount(&payment);

        let original_entering_epoch = next.aggregated_original_entering_epoch_on_compound(
            payment.token_amount.amount,
            &payment.attributes,
            rps_reward,
            current_epoch,
        );
        proof {
            math::lemma_floor_parts_le(
                payment.token_amount.amount as int,
                payment.attributes.initial_farming_amount as int,
                payment.attributes.compounded_reward as int,
                payment.attributes.current_farm_amount as int,
            );
        }
        let virtual_position = FarmToken {
            token_amount: EsdtTokenPayment {
                token_identifier: next.farm_token_id,
                token_nonce: 0,
                amount: payment.token_amount.amount + rps_reward,
            },
            attributes: FarmTokenAttributes {
                reward_per_share: next.reward_per_share,
                entering_epoch: current_epoch,
                original_entering_epoch,
                initial_farming_amount,
                compounded_reward: new_compound_reward_amount + rps_reward,
                current_farm_amount: payment.token_amount.amount + rps_reward,
            },
        };
        proof {
            let combined = combined_positions(additional_positions@, Some(virtual_position));
            assert(combined.drop_last() =~= additional_positions@);
            assert(combined.last() == virtual_position);
        }

        let merge_module = FarmTokenMergeModule { farm_token_id: next.farm_token_id };
        let attrs = match merge_module.get_merged_farm_token_attributes(
            additional_positions,
            Some(virtual_position),
            current_epoch,
        ) {
            Ok(a) => a,
            Err(e) => {
                return Err(e);
            },
        };

        next.reward_reserve = next.reward_reserve - rps_reward;
        // The burned inputs are re-minted grown by the reward.
        next.farm_token_supply = next.farm_token_supply + rps_reward;

        let new_farm_token = FarmToken {
            token_amount: EsdtTokenPayment {
                token_identifier: next.farm_token_id,
                token_nonce: 0,
                amount: attrs.current_farm_amount,
            },
            attributes: attrs,
        };
        let created_with_merge = additional_positions.len() != 0;
        *self = next;
        Ok((new_farm_token, created_with_merge))
    }
}

} // verus!
