//! The farm position model: a bearer token amount together with the
//! reward-bookkeeping attributes recorded when the position was created.

use vstd::prelude::*;
use crate::payment::EsdtTokenPayment;

verus! {

/// Bookkeeping attributes of a farm position.
#[derive(Clone, Copy, Debug, PartialEq, Eq, Structural)]
pub struct FarmTokenAttributes {
    /// Snapshot of the farm's reward-per-share accumulator for this position.
    pub reward_per_share: u64,
    /// Epoch at which this position (or its newest merge) entered the farm.
    pub entering_epoch: u64,
    /// Fairness-weighted vesting start preserved across merges and compounds.
    pub original_entering_epoch: u64,
    /// The share of this position that was an original deposit.
    pub initial_farming_amount: u64,
    /// The share of this position that came from compounded rewards.
    pub compounded_reward: u64,
    /// Total value of the position: initial deposit plus compounded rewards.
    pub current_farm_amount: u64,
}

impl FarmTokenAttributes {
    /// The attribute invariant of a stored position: its total value is
    /// exactly its original deposit plus everything compounded into it.
    pub open spec fn valid(self) -> bool {
        self.current_farm_amount == self.initial_farming_amount + self.compounded_reward
    }

    /// What the bookkeeping arithmetic needs: the two shares never exceed the
    /// total. A synthetic position cut proportionally from a larger one may
    /// round both shares down, so equality can be lost there, but never
    /// overshot.
    pub open spec fn consistent(self) -> bool {
        self.initial_farming_amount + self.compounded_reward <= self.current_farm_amount
    }
}

/// A held amount of a farm position token together with its attributes.
#[derive(Clone, Copy, Debug, PartialEq, Eq, Structural)]
pub struct FarmToken {
    pub token_amount: EsdtTokenPayment,
    pub attributes: FarmTokenAttributes,
}

impl FarmToken {
    /// A live stored position: a positive held amount, no more than the
    /// amount the position was created with, and exact attributes.
    pub open spec fn valid(self) -> bool {
        &&& 0 < self.token_amount.amount <= self.attributes.current_farm_amount
        &&& self.attributes.valid()
    }

    /// A live position whose attributes may carry rounding slack.
    pub open spec fn sound(self) -> bool {
        &&& 0 < self.token_amount.amount <= self.attributes.current_farm_amount
        &&& self.attributes.consistent()
    }
}

} // verus!
