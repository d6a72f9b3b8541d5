//! Locked-token energy: locking the base asset until a chosen unlock epoch
//! earns energy proportional to amount and remaining lock time; energy decays
//! each epoch, early unlocks pay a penalty scaled by the remaining time, and
//! merging locked tokens aggregates their unlock epochs through a
//! fee-weighted average.

use vstd::prelude::*;
use crate::errors::DexError;
use crate::math;
use crate::math::{sum_products, sum_weights, ValueWeight};
use crate::payment::EsdtTokenPayment;

verus! {

pub const EPOCHS_PER_MONTH: u64 = 30;

/// Penalty denominator: one hundred percent.
pub const MAX_PENALTY_PERCENTAGE: u64 = 10_000;

/// The smallest early-unlock penalty, charged as the lock approaches expiry.
pub const MIN_PENALTY_PERCENTAGE: u64 = 1;

/// The attributes a locked token carries: what was locked and until when.
#[derive(Clone, Copy, Debug, PartialEq, Eq, Structural)]
pub struct LockedTokenAttributes {
    pub original_token_id: u64,
    pub original_token_nonce: u64,
    pub unlock_epoch: u64,
}

/// A user's time-decaying stake measure: it grows by amount times remaining
/// lock time on every lock and shrinks by the total locked amount each epoch.
/// Depleting past an expired lock is refunded when the lock is removed, so
/// the running amount may transiently go negative.
#[derive(Clone, Copy, Debug, PartialEq, Eq, Structural)]
pub struct Energy {
    pub amount: i128,
    pub last_update_epoch: u64,
    pub total_locked_tokens: u64,
}

impl Energy {
    pub fn new(amount: i128, last_update_epoch: u64, total_locked_tokens: u64) -> (r: Energy)
        ensures
            r == (Energy { amount, last_update_epoch, total_locked_tokens }),
    {
        Energy { amount, last_update_epoch, total_locked_tokens }
    }

    /// The energy after decaying up to `current_epoch`.
    pub open spec fn deplete_spec(self, current_epoch: u64) -> Energy {
        if current_epoch > self.last_update_epoch {
            Energy {
                amount: (self.amount - self.total_locked_tokens * (current_epoch
                    - self.last_update_epoch)) as i128,
                last_update_epoch: current_epoch,
                total_locked_tokens: self.total_locked_tokens,
            }
        } else {
            self
        }
    }

    /// Whether the decay stays within the machine's integer range.
    pub open spec fn can_deplete(self, current_epoch: u64) -> bool {
        current_epoch > self.last_update_epoch ==> (i128::MIN <= self.amount
            - self.total_locked_tokens * (current_epoch - self.last_update_epoch)
            && self.total_locked_tokens * (current_epoch - self.last_update_epoch)
            <= i128::MAX)
    }

    /// Decays the energy by the total locked amount per elapsed epoch.
    pub fn deplete(&mut self, current_epoch: u64)
        requires
            old(self).can_deplete(current_epoch),
        ensures
            *final(self) == old(self).deplete_spec(current_epoch),
    {
        if current_epoch > self.last_update_epoch {
            proof {
                assert(self.total_locked_tokens as int * (current_epoch
                    - self.last_update_epoch) as int <= u64::MAX as int * u64::MAX as int)
                    by (nonlinear_arith)
                    requires
                        0 <= self.total_locked_tokens <= u64::MAX,
                        0 <= current_epoch - self.last_update_epoch <= u64::MAX,
                ;
            }
            let decay = (self.total_locked_tokens as u128) * ((current_epoch
                - self.last_update_epoch) as u128);
            self.amount = self.amount - (decay as i128);
            self.last_update_epoch = current_epoch;
        }
    }

    /// The energy after locking `lock_amount` until `unlock_epoch`.
    pub open spec fn add_after_token_lock_spec(
        self,
        lock_amount: u64,
        unlock_epoch: u64,
        current_epoch: u64,
    ) -> Energy {
        Energy {
            amount: (self.amount + lock_amount * (unlock_epoch - current_epoch)) as i128,
            total_locked_tokens: (self.total_locked_tokens + lock_amount) as u64,
            ..self
        }
    }

    pub open spec fn can_add_after_token_lock(
        self,
        lock_amount: u64,
        unlock_epoch: u64,
        current_epoch: u64,
    ) -> bool {
        &&& current_epoch <= unlock_epoch
        &&& lock_amount * (unlock_epoch - current_epoch) <= i128::MAX
        &&& self.amount + lock_amount * (unlock_epoch - current_epoch) <= i128::MAX
        &&& self.total_locked_tokens + lock_amount <= u64::MAX
    }

    /// Registers a fresh lock: the energy grows by amount times lock time.
    pub fn add_after_token_lock(&mut self, lock_amount: u64, unlock_epoch: u64, current_epoch: u64)
        requires
            old(self).can_add_after_token_lock(lock_amount, unlock_epoch, current_epoch),
        ensures
            *final(self) == old(self).add_after_token_lock_spec(
                lock_amount,
                unlock_epoch,
                current_epoch,
            ),
    {
        proof {
            assert(lock_amount as int * (unlock_epoch - current_epoch) as int
                <= u64::MAX as int * u64::MAX as int) by (nonlinear_arith)
                requires
                    0 <= lock_amount <= u64::MAX,
                    0 <= unlock_epoch - current_epoch <= u64::MAX,
            ;
        }
        let gain = (lock_amount as u128) * ((unlock_epoch - current_epoch) as u128);
        self.amount = self.amount + (gain as i128);
        self.total_locked_tokens = self.total_locked_tokens + lock_amount;
    }

    /// The energy after removing a lock of `token_amount` until
    /// `unlock_epoch`: the future energy of a live lock is taken back, the
    /// over-decay of an expired one is refunded.
    pub open spec fn remove_lock_spec(
        self,
        token_amount: u64,
        unlock_epoch: u64,
        current_epoch: u64,
    ) -> Energy {
        if current_epoch >= unlock_epoch {
            Energy {
                amount: (self.amount + token_amount * (current_epoch - unlock_epoch)) as i128,
                total_locked_tokens: (self.total_locked_tokens - token_amount) as u64,
                ..self
            }
        } else {
            Energy {
                amount: (self.amount - token_amount * (unlock_epoch - current_epoch)) as i128,
                total_locked_tokens: (self.total_locked_tokens - token_amount) as u64,
                ..self
            }
        }
    }

    pub open spec fn can_remove_lock(
        self,
        token_amount: u64,
        unlock_epoch: u64,
        current_epoch: u64,
    ) -> bool {
        &&& token_amount <= self.total_locked_tokens
        &&& current_epoch >= unlock_epoch ==> (token_amount * (current_epoch - unlock_epoch)
            <= i128::MAX && self.amount + token_amount * (current_epoch - unlock_epoch)
            <= i128::MAX)
        &&& current_epoch < unlock_epoch ==> (token_amount * (unlock_epoch - current_epoch)
            <= i128::MAX && i128::MIN <= self.amount - token_amount * (unlock_epoch
            - current_epoch))
    }

    /// Deregisters a lock from the energy bookkeeping.
    pub fn remove_lock(&mut self, token_amount: u64, unlock_epoch: u64, current_epoch: u64)
        requires
            old(self).can_remove_lock(token_amount, unlock_epoch, current_epoch),
        ensures
            *final(self) == old(self).remove_lock_spec(token_amount, unlock_epoch, current_epoch),
    {
        if current_epoch >= unlock_epoch {
            proof {
                assert(token_amount as int * (current_epoch - unlock_epoch) as int
                    <= u64::MAX as int * u64::MAX as int) by (nonlinear_arith)
                    requires
                        0 <= token_amount <= u64::MAX,
                        0 <= current_epoch - unlock_epoch <= u64::MAX,
                ;
            }
            let refund = (token_amount as u128) * ((current_epoch - unlock_epoch) as u128);
            self.amount = self.amount + (refund as i128);
        } else {
            proof {
                assert(token_amount as int * (unlock_epoch - current_epoch) as int
                    <= u64::MAX as int * u64::MAX as int) by (nonlinear_arith)
                    requires
                        0 <= token_amount <= u64::MAX,
                        0 <= unlock_epoch - current_epoch <= u64::MAX,
                ;
            }
            let future = (token_amount as u128) * ((unlock_epoch - current_epoch) as u128);
            self.amount = self.amount - (future as i128);
        }
        self.total_locked_tokens = self.total_locked_tokens - token_amount;
    }
}

/// One lock option: a lock duration and the penalty a full immediate unlock
/// of it would pay.
#[derive(Clone, Copy, Debug, PartialEq, Eq, Structural)]
pub struct LockOption {
    pub lock_epochs: u64,
    pub penalty_start_percentage: u64,
}

/// The locked-token energy contract: the base asset it locks and the lock
/// durations users may choose from.
#[derive(Debug)]
pub struct SimpleLockEnergy {
    pub base_asset_token_id: u64,
    pub locked_token_id: u64,
    pub lock_options: Vec<LockOption>,
}

impl SimpleLockEnergy {
    /// The configuration invariant: options strictly ordered in both fields,
    /// every duration at least a month, penalties within one hundred percent.
    pub open spec fn wf(self) -> bool {
        &&& forall|i: int, j: int|
            0 <= i < j < self.lock_options@.len() ==> (#[trigger] self.lock_options@[i]).lock_epochs
                < (#[trigger] self.lock_options@[j]).lock_epochs
                && self.lock_options@[i].penalty_start_percentage
                < self.lock_options@[j].penalty_start_percentage
        &&& forall|i: int|
            0 <= i < self.lock_options@.len() ==> (
            #[trigger] self.lock_options@[i]).lock_epochs >= EPOCHS_PER_MONTH && 0
                < self.lock_options@[i].penalty_start_percentage <= MAX_PENALTY_PERCENTAGE
    }

    /// Sets the contract up; the options must be strictly increasing in both
    /// duration and penalty, at least a month long, within one hundred
    /// percent.
    pub fn init(base_asset_token_id: u64, locked_token_id: u64, lock_options: Vec<LockOption>) -> (
        r: Result<SimpleLockEnergy, DexError>)
        ensures
            base_asset_token_id == 0 || locked_token_id == 0 ==> r == Err::<
                SimpleLockEnergy,
                DexError,
            >(DexError::NotAnEsdt),
            r matches Ok(s) ==> s.wf() && s.base_asset_token_id == base_asset_token_id
                && s.locked_token_id == locked_token_id && s.lock_options@ == lock_options@,
            r is Err ==> r == Err::<SimpleLockEnergy, DexError>(DexError::NotAnEsdt) || r == Err::<
                SimpleLockEnergy,
                DexError,
            >(DexError::InvalidLockChoice),
    {
        if base_asset_token_id == 0 || locked_token_id == 0 {
            return Err(DexError::NotAnEsdt);
        }
        let mut i: usize = 0;
        while i < lock_options.len()
            invariant
                base_asset_token_id != 0,
                locked_token_id != 0,
                i <= lock_options@.len(),
                forall|a: int, b: int|
                    0 <= a < b < i ==> (#[trigger] lock_options@[a]).lock_epochs < (
                    #[trigger] lock_options@[b]).lock_epochs
                        && lock_options@[a].penalty_start_percentage
                        < lock_options@[b].penalty_start_percentage,
                forall|a: int|
                    0 <= a < i ==> (#[trigger] lock_options@[a]).lock_epochs >= EPOCHS_PER_MONTH
                        && 0 < lock_options@[a].penalty_start_percentage
                        <= MAX_PENALTY_PERCENTAGE,
            decreases lock_options@.len() - i,
        {
            let opt = lock_options[i];
            if opt.lock_epochs < EPOCHS_PER_MONTH || opt.penalty_start_percentage == 0
                || opt.penalty_start_percentage > MAX_PENALTY_PERCENTAGE {
                return Err(DexError::InvalidLockChoice);
            }
            if i > 0 {
                let prev = lock_options[i - 1];
                if prev.lock_epochs >= opt.lock_epochs || prev.penalty_start_percentage
                    >= opt.penalty_start_percentage {
                    return Err(DexError::InvalidLockChoice);
                }
                proof {
                    assert(forall|a: int|
                        0 <= a < i - 1 ==> (#[trigger] lock_options@[a]).lock_epochs
                            < lock_options@[i - 1].lock_epochs
                            && lock_options@[a].penalty_start_percentage
                            < lock_options@[i - 1].penalty_start_percentage);
                }
            }
            i = i + 1;
        }
        Ok(SimpleLockEnergy { base_asset_token_id, locked_token_id, lock_options })
    }

    /// Unlock epochs snap to the start of a month.
    pub open spec fn start_of_month_spec(epoch: u64) -> int {
        epoch as int - (epoch as int) % (EPOCHS_PER_MONTH as int)
    }

    pub fn unlock_epoch_to_start_of_month(epoch: u64) -> (r: u64)
        ensures
            r == Self::start_of_month_spec(epoch),
            r <= epoch,
    {
        epoch - epoch % EPOCHS_PER_MONTH
    }

    pub open spec fn is_listed_lock_option(self, lock_epochs: u64) -> bool {
        exists|i: int|
            0 <= i < self.lock_options@.len() && (#[trigger] self.lock_options@[i]).lock_epochs
                == lock_epochs
    }

    fn require_is_listed_lock_option(&self, lock_epochs: u64) -> (r: bool)
        ensures
            r == self.is_listed_lock_option(lock_epochs),
    {
        let mut i: usize = 0;
        while i < self.lock_options.len()
            invariant
                i <= self.lock_options@.len(),
                forall|a: int|
                    0 <= a < i ==> (#[trigger] self.lock_options@[a]).lock_epochs != lock_epochs,
            decreases self.lock_options@.len() - i,
        {
            if self.lock_options[i].lock_epochs == lock_epochs {
                return true;
            }
            i = i + 1;
        }
        false
    }

    /// What a lock produces: locked tokens one-to-one until the start of the
    /// month `lock_epochs` away, and energy grown accordingly.
    pub open spec fn lock_tokens_spec(
        self,
        energy: Energy,
        payment: EsdtTokenPayment,
        lock_epochs: u64,
        current_epoch: u64,
    ) -> Result<(LockedTokenAttributes, u64, Energy), DexError> {
        if payment.token_identifier != self.base_asset_token_id {
            Err(DexError::InvalidPaymentToken)
        } else if payment.amount == 0 {
            Err(DexError::NoPayment)
        } else if !self.is_listed_lock_option(lock_epochs) {
            Err(DexError::InvalidLockChoice)
        } else {
            let unlock_epoch = Self::start_of_month_spec((current_epoch + lock_epochs) as u64)
                as u64;
            let attrs = LockedTokenAttributes {
                original_token_id: self.base_asset_token_id,
                original_token_nonce: 0,
                unlock_epoch,
            };
            Ok(
                (
                    attrs,
                    payment.amount,
                    energy.deplete_spec(current_epoch).add_after_token_lock_spec(
                        payment.amount,
                        unlock_epoch,
                        current_epoch,
                    ),
                ),
            )
        }
    }

    /// Locks base-asset tokens until the chosen option's unlock epoch,
    /// one-to-one, and credits the user's energy.
    pub fn lock_tokens_endpoint(
        &self,
        user_energy: Energy,
        payment: EsdtTokenPayment,
        lock_epochs: u64,
        current_epoch: u64,
    ) -> (r: Result<(LockedTokenAttributes, u64, Energy), DexError>)
        requires
            self.wf(),
            current_epoch + lock_epochs <= u64::MAX,
            user_energy.can_deplete(current_epoch),
            payment.amount * (current_epoch + lock_epochs) <= i128::MAX,
            user_energy.deplete_spec(current_epoch).amount + payment.amount * (current_epoch
                + lock_epochs) <= i128::MAX,
            user_energy.total_locked_tokens + payment.amount <= u64::MAX,
        ensures
            r == self.lock_tokens_spec(user_energy, payment, lock_epochs, current_epoch),
    {
        if payment.token_identifier != self.base_asset_token_id {
            return Err(DexError::InvalidPaymentToken);
        }
        if payment.amount == 0 {
            return Err(DexError::NoPayment);
        }
        if !self.require_is_listed_lock_option(lock_epochs) {
            return Err(DexError::InvalidLockChoice);
        }

        let unlock_epoch = Self::unlock_epoch_to_start_of_month(current_epoch + lock_epochs);
        proof {
            // The chosen option is at least a month, so snapping down cannot
            // cross below the current epoch.
            assert(unlock_epoch >= current_epoch) by {
                let x = (current_epoch + lock_epochs) as u64;
                vstd::arithmetic::div_mod::lemma_mod_bound(
                    x as int,
                    EPOCHS_PER_MONTH as int,
                );
                assert(lock_epochs >= EPOCHS_PER_MONTH) by {
                    assert(self.is_listed_lock_option(lock_epochs));
                    let i = choose|i: int|
                        0 <= i < self.lock_options@.len() && (
                        #[trigger] self.lock_options@[i]).lock_epochs == lock_epochs;
                    assert(self.lock_options@[i].lock_epochs >= EPOCHS_PER_MONTH);
                }
            }
            assert(payment.amount * (unlock_epoch - current_epoch) <= payment.amount * (
            current_epoch + lock_epochs)) by (nonlinear_arith)
                requires
                    0 <= payment.amount,
                    0 <= unlock_epoch - current_epoch <= current_epoch + lock_epochs,
            ;
        }

        let mut new_energy = user_energy;
        new_energy.deplete(current_epoch);
        new_energy.add_after_token_lock(payment.amount, unlock_epoch, current_epoch);

        let attrs = LockedTokenAttributes {
            original_token_id: self.base_asset_token_id,
            original_token_nonce: 0,
            unlock_epoch,
        };
        Ok((attrs, payment.amount, new_energy))
    }

    /// What an unlock produces: the original tokens back, once the unlock
    /// epoch has passed, and the lock removed from the energy bookkeeping.
    pub open spec fn unlock_tokens_spec(
        self,
        energy: Energy,
        payment_amount: u64,
        attributes: LockedTokenAttributes,
        current_epoch: u64,
    ) -> Result<(EsdtTokenPayment, Energy), DexError> {
        if current_epoch < attributes.unlock_epoch {
            Err(DexError::CannotUnlockYet)
        } else {
            Ok(
                (
                    EsdtTokenPayment {
                        token_identifier: attributes.original_token_id,
                        token_nonce: attributes.original_token_nonce,
                        amount: payment_amount,
                    },
                    energy.deplete_spec(current_epoch).remove_lock_spec(
                        payment_amount,
                        attributes.unlock_epoch,
                        current_epoch,
                    ),
                ),
            )
        }
    }

    /// Unlocks expired locked tokens one-to-one.
    pub fn unlock_tokens_endpoint(
        &self,
        user_energy: Energy,
        payment_amount: u64,
        attributes: LockedTokenAttributes,
        current_epoch: u64,
    ) -> (r: Result<(EsdtTokenPayment, Energy), DexError>)
        requires
            user_energy.can_deplete(current_epoch),
            user_energy.deplete_spec(current_epoch).can_remove_lock(
                payment_amount,
                attributes.unlock_epoch,
                current_epoch,
            ),
        ensures
            r == self.unlock_tokens_spec(user_energy, payment_amount, attributes, current_epoch),
    {
        if current_epoch < attributes.unlock_epoch {
            return Err(DexError::CannotUnlockYet);
        }
        let mut new_energy = user_energy;
        new_energy.deplete(current_epoch);
        new_energy.remove_lock(payment_amount, attributes.unlock_epoch, current_epoch);
        Ok(
            (
                EsdtTokenPayment::new(
                    attributes.original_token_id,
                    attributes.original_token_nonce,
                    payment_amount,
                ),
                new_energy,
            ),
        )
    }

    pub open spec fn max_lock_option(self) -> LockOption
        recommends
            self.lock_options@.len() > 0,
    {
        self.lock_options@.last()
    }

    /// The penalty a full early unlock pays, linear in the remaining lock
    /// time against the longest offered lock.
    pub open spec fn full_unlock_penalty_spec(self, lock_epochs_remaining: u64) -> int {
        MIN_PENALTY_PERCENTAGE + (MAX_PENALTY_PERCENTAGE - MIN_PENALTY_PERCENTAGE)
            * lock_epochs_remaining / self.max_lock_option().lock_epochs as int
    }

    pub fn calculate_penalty_percentage_full_unlock(&self, lock_epochs_remaining: u64) -> (r: u64)
        requires
            self.wf(),
            self.lock_options@.len() > 0,
            lock_epochs_remaining <= self.max_lock_option().lock_epochs,
        ensures
            r == self.full_unlock_penalty_spec(lock_epochs_remaining),
            MIN_PENALTY_PERCENTAGE <= r <= MAX_PENALTY_PERCENTAGE,
    {
        let max_epochs = self.lock_options[self.lock_options.len() - 1].lock_epochs;
        proof {
            assert(self.lock_options@[self.lock_options@.len() - 1] == self.max_lock_option());
            math::lemma_rule_of_three_le(
                lock_epochs_remaining as int,
                max_epochs as int,
                (MAX_PENALTY_PERCENTAGE - MIN_PENALTY_PERCENTAGE) as int,
            );
            assert(lock_epochs_remaining as int * (MAX_PENALTY_PERCENTAGE
                - MIN_PENALTY_PERCENTAGE) as int == (MAX_PENALTY_PERCENTAGE
                - MIN_PENALTY_PERCENTAGE) as int * lock_epochs_remaining as int)
                by (nonlinear_arith)
            ;
        }
        MIN_PENALTY_PERCENTAGE + ((((MAX_PENALTY_PERCENTAGE - MIN_PENALTY_PERCENTAGE) as u128)
            * (lock_epochs_remaining as u128)) / (max_epochs as u128)) as u64
    }

    /// The penalty an early unlock of `token_amount` with
    /// `lock_epochs_remaining` epochs left pays.
    pub open spec fn penalty_amount_spec(
        self,
        token_amount: u64,
        lock_epochs_remaining: u64,
    ) -> int {
        token_amount * self.full_unlock_penalty_spec(lock_epochs_remaining)
            / MAX_PENALTY_PERCENTAGE as int
    }

    pub fn get_penalty_amount(&self, token_amount: u64, lock_epochs_remaining: u64) -> (r: u64)
        requires
            self.wf(),
            self.lock_options@.len() > 0,
            lock_epochs_remaining <= self.max_lock_option().lock_epochs,
        ensures
            r == self.penalty_amount_spec(token_amount, lock_epochs_remaining),
            r <= token_amount,
    {
        let penalty_percentage = self.calculate_penalty_percentage_full_unlock(
            lock_epochs_remaining,
        );
        proof {
            math::lemma_rule_of_three_le(
                penalty_percentage as int,
                MAX_PENALTY_PERCENTAGE as int,
                token_amount as int,
            );
            assert(token_amount as int * penalty_percentage as int == penalty_percentage as int
                * token_amount as int) by (nonlinear_arith);
            assert(token_amount as int * penalty_percentage as int
                <= u64::MAX as int * u64::MAX as int) by (nonlinear_arith)
                requires
                    0 <= token_amount <= u64::MAX,
                    0 <= penalty_percentage <= u64::MAX,
            ;
        }
        (((token_amount as u128) * (penalty_percentage as u128)) / (MAX_PENALTY_PERCENTAGE
            as u128)) as u64
    }

    /// What an early unlock produces: the original tokens less the
    /// remaining-time penalty, and the lock's whole future energy taken back.
    pub open spec fn unlock_early_spec(
        self,
        energy: Energy,
        payment_amount: u64,
        attributes: LockedTokenAttributes,
        current_epoch: u64,
    ) -> (EsdtTokenPayment, int, Energy) {
        let penalty = self.penalty_amount_spec(
            payment_amount,
            (attributes.unlock_epoch - current_epoch) as u64,
        );
        (
            EsdtTokenPayment {
                token_identifier: attributes.original_token_id,
                token_nonce: attributes.original_token_nonce,
                amount: (payment_amount - penalty) as u64,
            },
            penalty,
            energy.deplete_spec(current_epoch).remove_lock_spec(
                payment_amount,
                attributes.unlock_epoch,
                current_epoch,
            ),
        )
    }

    /// Unlocks before the deadline: pays out the locked amount less the
    /// penalty (the penalty share is left with the contract to burn and
    /// forward) and removes the lock's energy.
    pub fn unlock_early(
        &self,
        user_energy: Energy,
        payment_amount: u64,
        attributes: LockedTokenAttributes,
        current_epoch: u64,
    ) -> (r: (EsdtTokenPayment, u64, Energy))
        requires
            self.wf(),
            self.lock_options@.len() > 0,
            current_epoch < attributes.unlock_epoch,
            attributes.unlock_epoch - current_epoch <= self.max_lock_option().lock_epochs,
            user_energy.can_deplete(current_epoch),
            user_energy.deplete_spec(current_epoch).can_remove_lock(
                payment_amount,
                attributes.unlock_epoch,
                current_epoch,
            ),
        ensures
            (r.0, r.1 as int, r.2) == self.unlock_early_spec(
                user_energy,
                payment_amount,
                attributes,
                current_epoch,
            ),
            r.1 <= payment_amount,
    {
        let lock_epochs_remaining = attributes.unlock_epoch - current_epoch;
        let penalty_amount = self.get_penalty_amount(payment_amount, lock_epochs_remaining);
        let unlocked_amount = payment_amount - penalty_amount;

        let mut new_energy = user_energy;
        new_energy.deplete(current_epoch);
        new_energy.remove_lock(payment_amount, attributes.unlock_epoch, current_epoch);

        (
            EsdtTokenPayment::new(
                attributes.original_token_id,
                attributes.original_token_nonce,
                unlocked_amount,
            ),
            penalty_amount,
            new_energy,
        )
    }

    /// What extending a lock produces: the same amount locked until the new,
    /// strictly later unlock epoch, with the energy moved accordingly.
    pub open spec fn extend_locking_period_spec(
        self,
        energy: Energy,
        token_amount: u64,
        attributes: LockedTokenAttributes,
        new_lock_epochs: u64,
        current_epoch: u64,
    ) -> Result<(LockedTokenAttributes, Energy), DexError> {
        if !self.is_listed_lock_option(new_lock_epochs) {
            Err(DexError::InvalidLockChoice)
        } else {
            let new_unlock_epoch = Self::start_of_month_spec(
                (current_epoch + new_lock_epochs) as u64,
            ) as u64;
            if new_unlock_epoch <= attributes.unlock_epoch {
                Err(DexError::NewLockPeriodNotLonger)
            } else {
                Ok(
                    (
                        LockedTokenAttributes { unlock_epoch: new_unlock_epoch, ..attributes },
                        energy.deplete_spec(current_epoch).remove_lock_spec(
                            token_amount,
                            attributes.unlock_epoch,
                            current_epoch,
                        ).add_after_token_lock_spec(
                            token_amount,
                            new_unlock_epoch,
                            current_epoch,
                        ),
                    ),
                )
            }
        }
    }

    /// Extends a lock to a strictly later listed option, re-crediting the
    /// energy for the added time.
    pub fn extend_locking_period(
        &self,
        user_energy: Energy,
        token_amount: u64,
        attributes: LockedTokenAttributes,
        new_lock_epochs: u64,
        current_epoch: u64,
    ) -> (r: Result<(LockedTokenAttributes, Energy), DexError>)
        requires
            self.wf(),
            current_epoch + new_lock_epochs <= u64::MAX,
            user_energy.can_deplete(current_epoch),
            user_energy.deplete_spec(current_epoch).can_remove_lock(
                token_amount,
                attributes.unlock_epoch,
                current_epoch,
            ),
            self.is_listed_lock_option(new_lock_epochs) ==> user_energy.deplete_spec(
                current_epoch,
            ).remove_lock_spec(
                token_amount,
                attributes.unlock_epoch,
                current_epoch,
            ).can_add_after_token_lock(
                token_amount,
                Self::start_of_month_spec((current_epoch + new_lock_epochs) as u64) as u64,
                current_epoch,
            ),
        ensures
            r == self.extend_locking_period_spec(
                user_energy,
                token_amount,
                attributes,
                new_lock_epochs,
                current_epoch,
            ),
    {
        if !self.require_is_listed_lock_option(new_lock_epochs) {
            return Err(DexError::InvalidLockChoice);
        }
        let new_unlock_epoch = Self::unlock_epoch_to_start_of_month(
            current_epoch + new_lock_epochs,
        );
        if new_unlock_epoch <= attributes.unlock_epoch {
            return Err(DexError::NewLockPeriodNotLonger);
        }

        let mut new_energy = user_energy;
        new_energy.deplete(current_epoch);
        new_energy.remove_lock(token_amount, attributes.unlock_epoch, current_epoch);
        new_energy.add_after_token_lock(token_amount, new_unlock_epoch, current_epoch);

        Ok(
            (
                LockedTokenAttributes {
                    original_token_id: attributes.original_token_id,
                    original_token_nonce: attributes.original_token_nonce,
                    unlock_epoch: new_unlock_epoch,
                },
                new_energy,
            ),
        )
    }

    /// The unlock fee of a lock with `remaining` epochs left: the piecewise
    /// linear interpolation through the offered options' start penalties,
    /// anchored at zero. `prev` is the last option already passed.
    pub open spec fn penalty_from_options(
        options: Seq<LockOption>,
        prev: LockOption,
        remaining: int,
    ) -> int
        decreases options.len(),
    {
        if options.len() == 0 {
            0
        } else if remaining <= options[0].lock_epochs {
            prev.penalty_start_percentage + (options[0].penalty_start_percentage
                - prev.penalty_start_percentage) * (remaining - prev.lock_epochs) / (
            options[0].lock_epochs - prev.lock_epochs)
        } else {
            Self::penalty_from_options(options.skip(1), options[0], remaining)
        }
    }

    /// The remaining lock time whose unlock fee is `fee`: the inverse of the
    /// piecewise interpolation.
    pub open spec fn epochs_from_penalty(
        options: Seq<LockOption>,
        prev: LockOption,
        fee: int,
    ) -> int
        decreases options.len(),
    {
        if options.len() == 0 {
            0
        } else if fee <= options[0].penalty_start_percentage {
            prev.lock_epochs + (fee - prev.penalty_start_percentage) * (options[0].lock_epochs
                - prev.lock_epochs) / (options[0].penalty_start_percentage
                - prev.penalty_start_percentage)
        } else {
            Self::epochs_from_penalty(options.skip(1), options[0], fee)
        }
    }

    pub open spec fn zero_option() -> LockOption {
        LockOption { lock_epochs: 0, penalty_start_percentage: 0 }
    }

    /// The unlock fee of a token with `lock_epochs_remaining` left.
    pub fn penalty_percentage_from_options(&self, lock_epochs_remaining: u64) -> (r: u64)
        requires
            self.wf(),
            self.lock_options@.len() > 0,
            0 < lock_epochs_remaining <= self.max_lock_option().lock_epochs,
        ensures
            r == Self::penalty_from_options(
                self.lock_options@,
                Self::zero_option(),
                lock_epochs_remaining as int,
            ),
            r <= self.max_lock_option().penalty_start_percentage,
    {
        let n = self.lock_options.len();
        let mut prev = LockOption { lock_epochs: 0, penalty_start_percentage: 0 };
        let mut i: usize = 0;
        proof {
            assert(self.lock_options@.skip(0) =~= self.lock_options@);
            assert(self.lock_options@[self.lock_options@.len() - 1] == self.max_lock_option());
        }
        while i < n
            invariant
                self.wf(),
                n == self.lock_options@.len(),
                0 < n,
                0 < lock_epochs_remaining <= self.max_lock_option().lock_epochs,
                self.lock_options@[n - 1] == self.max_lock_option(),
                i <= n,
                Self::penalty_from_options(
                    self.lock_options@,
                    Self::zero_option(),
                    lock_epochs_remaining as int,
                ) == Self::penalty_from_options(
                    self.lock_options@.skip(i as int),
                    prev,
                    lock_epochs_remaining as int,
                ),
                i == 0 ==> prev == Self::zero_option(),
                i > 0 ==> prev == self.lock_options@[i - 1],
                lock_epochs_remaining > prev.lock_epochs,
                prev.penalty_start_percentage <= MAX_PENALTY_PERCENTAGE,
                i < n ==> prev.lock_epochs < self.lock_options@[i as int].lock_epochs
                    && prev.penalty_start_percentage < self.lock_options@[
                    i as int
                ].penalty_start_percentage,
            decreases n - i,
        {
            let opt = self.lock_options[i];
            proof {
                assert(self.lock_options@.skip(i as int)[0] == self.lock_options@[i as int]);
            }
            if lock_epochs_remaining <= opt.lock_epochs {
                let dp = opt.penalty_start_percentage - prev.penalty_start_percentage;
                let de = opt.lock_epochs - prev.lock_epochs;
                let dr = lock_epochs_remaining - prev.lock_epochs;
                proof {
                    math::lemma_rule_of_three_le(dr as int, de as int, dp as int);
                    assert(dp as int * dr as int == dr as int * dp as int) by (nonlinear_arith);
                    assert(dp as int * dr as int <= u64::MAX as int * u64::MAX as int)
                        by (nonlinear_arith)
                        requires
                            0 <= dp <= u64::MAX,
                            0 <= dr <= u64::MAX,
                    ;
                }
                let step = (((dp as u128) * (dr as u128)) / (de as u128)) as u64;
                proof {
                    if i + 1 < n {
                        assert(self.lock_options@[i as int].penalty_start_percentage
                            <= self.lock_options@[n - 1].penalty_start_percentage);
                    }
                }
                return prev.penalty_start_percentage + step;
            }
            proof {
                assert(self.lock_options@.skip(i as int).skip(1) =~= self.lock_options@.skip(
                    i as int + 1,
                ));
                if i + 1 < n {
                    assert(self.lock_options@[i as int].lock_epochs < self.lock_options@[i as int
                        + 1].lock_epochs);
                }
            }
            prev = opt;
            i = i + 1;
        }
        proof {
            // The remaining time is within the longest option, so the scan
            // cannot run off the end.
            assert(prev == self.lock_options@[n - 1]);
            assert(false);
        }
        0
    }

    /// The remaining lock time that corresponds to an unlock fee.
    pub fn epochs_from_penalty_exec(&self, fee: u64) -> (r: u64)
        requires
            self.wf(),
            self.lock_options@.len() > 0,
            fee <= self.max_lock_option().penalty_start_percentage,
        ensures
            r == Self::epochs_from_penalty(self.lock_options@, Self::zero_option(), fee as int),
            r <= self.max_lock_option().lock_epochs,
    {
        let n = self.lock_options.len();
        let mut prev = LockOption { lock_epochs: 0, penalty_start_percentage: 0 };
        let mut i: usize = 0;
        proof {
            assert(self.lock_options@.skip(0) =~= self.lock_options@);
            assert(self.lock_options@[self.lock_options@.len() - 1] == self.max_lock_option());
        }
        while i < n
            invariant
                self.wf(),
                n == self.lock_options@.len(),
                0 < n,
                fee <= self.max_lock_option().penalty_start_percentage,
                self.lock_options@[n - 1] == self.max_lock_option(),
                i <= n,
                Self::epochs_from_penalty(self.lock_options@, Self::zero_option(), fee as int)
                    == Self::epochs_from_penalty(
                    self.lock_options@.skip(i as int),
                    prev,
                    fee as int,
                ),
                i == 0 ==> prev == Self::zero_option(),
                i > 0 ==> prev == self.lock_options@[i - 1],
                fee >= prev.penalty_start_percentage,
                i > 0 ==> fee > prev.penalty_start_percentage,
                prev.lock_epochs <= self.max_lock_option().lock_epochs,
                i < n ==> prev.lock_epochs < self.lock_options@[i as int].lock_epochs
                    && prev.penalty_start_percentage < self.lock_options@[
                    i as int
                ].penalty_start_percentage,
            decreases n - i,
        {
            let opt = self.lock_options[i];
            proof {
                assert(self.lock_options@.skip(i as int)[0] == self.lock_options@[i as int]);
            }
            if fee <= opt.penalty_start_percentage {
                let dp = opt.penalty_start_percentage - prev.penalty_start_percentage;
                let de = opt.lock_epochs - prev.lock_epochs;
                let df = fee - prev.penalty_start_percentage;
                proof {
                    math::lemma_rule_of_three_le(df as int, dp as int, de as int);
                    assert(df as int * de as int == de as int * df as int) by (nonlinear_arith);
                    assert(df as int * de as int <= u64::MAX as int * u64::MAX as int)
                        by (nonlinear_arith)
                        requires
                            0 <= df <= u64::MAX,
                            0 <= de <= u64::MAX,
                    ;
                    if i + 1 < n {
                        assert(self.lock_options@[i as int].lock_epochs <= self.lock_options@[n
                            - 1].lock_epochs);
                    }
                }
                let step = (((df as u128) * (de as u128)) / (dp as u128)) as u64;
                return prev.lock_epochs + step;
            }
            proof {
                assert(self.lock_options@.skip(i as int).skip(1) =~= self.lock_options@.skip(
                    i as int + 1,
                ));
                if i + 1 < n {
                    assert(self.lock_options@[i as int].lock_epochs < self.lock_options@[i as int
                        + 1].lock_epochs);
                }
            }
            prev = opt;
            i = i + 1;
        }
        proof {
            assert(prev == self.lock_options@[n - 1]);
            assert(false);
        }
        0
    }

    /// The unlock fee the merge weighs each token by: the fee of its
    /// remaining lock time.
    pub open spec fn merge_fee_of(self, token: LockedToken, current_epoch: u64) -> int {
        Self::penalty_from_options(
            self.lock_options@,
            Self::zero_option(),
            token.attributes.unlock_epoch - current_epoch,
        )
    }

    /// The dataset the merge averages over: each token's unlock fee weighted
    /// by its amount.
    pub open spec fn fee_dataset(self, tokens: Seq<LockedToken>, current_epoch: u64) -> Seq<
        ValueWeight,
    > {
        Seq::new(tokens.len(), |i: int| ValueWeight {
            value: self.merge_fee_of(tokens[i], current_epoch) as u64,
            weight: tokens[i].amount,
        })
    }

    /// The merged unlock epoch: the amount-weighted average unlock fee is
    /// mapped back to a remaining lock time, snapped up to the next start of
    /// month.
    pub open spec fn merged_unlock_epoch_spec(self, tokens: Seq<LockedToken>, current_epoch: u64)
        -> int {
        let fd = self.fee_dataset(tokens, current_epoch);
        let avg_fee = sum_products(fd) / sum_weights(fd);
        let remaining = Self::epochs_from_penalty(
            self.lock_options@,
            Self::zero_option(),
            avg_fee,
        );
        Self::start_of_month_spec((current_epoch + remaining) as u64) + EPOCHS_PER_MONTH
    }

    /// The energy after deregistering every merged lock, in order.
    pub open spec fn remove_all_spec(
        energy: Energy,
        tokens: Seq<LockedToken>,
        current_epoch: u64,
    ) -> Energy
        decreases tokens.len(),
    {
        if tokens.len() == 0 {
            energy
        } else {
            Self::remove_all_spec(
                energy.remove_lock_spec(
                    tokens[0].amount,
                    tokens[0].attributes.unlock_epoch,
                    current_epoch,
                ),
                tokens.skip(1),
                current_epoch,
            )
        }
    }

    pub open spec fn can_remove_all(
        energy: Energy,
        tokens: Seq<LockedToken>,
        current_epoch: u64,
    ) -> bool
        decreases tokens.len(),
    {
        tokens.len() > 0 ==> {
            &&& energy.can_remove_lock(
                tokens[0].amount,
                tokens[0].attributes.unlock_epoch,
                current_epoch,
            )
            &&& Self::can_remove_all(
                energy.remove_lock_spec(
                    tokens[0].amount,
                    tokens[0].attributes.unlock_epoch,
                    current_epoch,
                ),
                tokens.skip(1),
                current_epoch,
            )
        }
    }

    /// What merging locked tokens produces: one locked token for the total
    /// amount, unlocked at the fee-weighted aggregated epoch, with the energy
    /// moved from the old locks onto the merged one.
    pub open spec fn merge_tokens_spec(
        self,
        energy: Energy,
        tokens: Seq<LockedToken>,
        current_epoch: u64,
    ) -> Result<(LockedTokenAttributes, u64, Energy), DexError> {
        if tokens.len() == 0 {
            Err(DexError::NoTokensToMerge)
        } else {
            let total = sum_weights(self.fee_dataset(tokens, current_epoch)) as u64;
            let new_unlock_epoch = self.merged_unlock_epoch_spec(tokens, current_epoch) as u64;
            Ok(
                (
                    LockedTokenAttributes {
                        original_token_id: self.base_asset_token_id,
                        original_token_nonce: 0,
                        unlock_epoch: new_unlock_epoch,
                    },
                    total,
                    Self::remove_all_spec(
                        energy.deplete_spec(current_epoch),
                        tokens,
                        current_epoch,
                    ).add_after_token_lock_spec(total, new_unlock_epoch, current_epoch),
                ),
            )
        }
    }

    /// Merges locked tokens into one: the new unlock epoch is derived from
    /// the amount-weighted average of the tokens' unlock fees (rounded up to
    /// a month start), and the user's energy is re-credited for the merged
    /// lock in place of the old ones.
    #[verifier::rlimit(100)]
    pub fn merge_tokens_endpoint(
        &self,
        user_energy: Energy,
        payments: &Vec<LockedToken>,
        current_epoch: u64,
    ) -> (r: Result<(LockedTokenAttributes, u64, Energy), DexError>)
        requires
            self.wf(),
            self.lock_options@.len() > 0,
            forall|i: int|
                0 <= i < payments@.len() ==> {
                    &&& (#[trigger] payments@[i]).amount > 0
                    &&& current_epoch < payments@[i].attributes.unlock_epoch
                    &&& payments@[i].attributes.unlock_epoch - current_epoch
                        <= self.max_lock_option().lock_epochs
                },
            sum_products(self.fee_dataset(payments@, current_epoch)) + sum_weights(
                self.fee_dataset(payments@, current_epoch),
            ) <= u128::MAX as int,
            sum_weights(self.fee_dataset(payments@, current_epoch)) <= u64::MAX as int,
            current_epoch + self.max_lock_option().lock_epochs + EPOCHS_PER_MONTH <= u64::MAX,
            user_energy.can_deplete(current_epoch),
            Self::can_remove_all(
                user_energy.deplete_spec(current_epoch),
                payments@,
                current_epoch,
            ),
            payments@.len() > 0 ==> Self::remove_all_spec(
                user_energy.deplete_spec(current_epoch),
                payments@,
                current_epoch,
            ).can_add_after_token_lock(
                sum_weights(self.fee_dataset(payments@, current_epoch)) as u64,
                self.merged_unlock_epoch_spec(payments@, current_epoch) as u64,
                current_epoch,
            ),
        ensures
            r == self.merge_tokens_spec(user_energy, payments@, current_epoch),
    {
        if payments.len() == 0 {
            return Err(DexError::NoTokensToMerge);
        }

        let ghost fd = self.fee_dataset(payments@, current_epoch);
        let mut dataset: Vec<ValueWeight> = Vec::new();
        let mut total: u64 = 0;
        let mut i: usize = 0;
        proof {
            math::lemma_sums_nonnegative(fd);
        }
        while i < payments.len()
            invariant
                self.wf(),
                self.lock_options@.len() > 0,
                forall|k: int|
                    0 <= k < payments@.len() ==> {
                        &&& (#[trigger] payments@[k]).amount > 0
                        &&& current_epoch < payments@[k].attributes.unlock_epoch
                        &&& payments@[k].attributes.unlock_epoch - current_epoch
                            <= self.max_lock_option().lock_epochs
                    },
                fd == self.fee_dataset(payments@, current_epoch),
                sum_weights(fd) <= u64::MAX as int,
                i <= payments@.len(),
                dataset@ =~= fd.subrange(0, i as int),
                total == sum_weights(fd.subrange(0, i as int)),
                forall|k: int|
                    0 <= k < i ==> (#[trigger] dataset@[k]).value
                        <= self.max_lock_option().penalty_start_percentage,
            decreases payments@.len() - i,
        {
            let entry = payments[i];
            let fee = self.penalty_percentage_from_options(
                entry.attributes.unlock_epoch - current_epoch,
            );
            proof {
                let prefix = fd.subrange(0, i as int);
                let next = fd.subrange(0, i as int + 1);
                assert(next.drop_last() =~= prefix);
                math::lemma_prefix_sums_monotonic(fd, i as int + 1);
                math::lemma_sums_nonnegative(prefix);
            }
            dataset.push(ValueWeight { value: fee, weight: entry.amount });
            total = total + entry.amount;
            i = i + 1;
        }
        proof {
            assert(fd.subrange(0, fd.len() as int) =~= fd);
            assert(dataset@ =~= fd);
            math::lemma_sum_weights_positive(fd);
            math::lemma_max_value_bound(
                fd,
                self.max_lock_option().penalty_start_percentage as int,
            );
            math::lemma_weighted_average_le_max(fd);
        }

        let average_fee = math::weighted_average(&dataset);
        let remaining = self.epochs_from_penalty_exec(average_fee);
        let new_unlock_epoch = Self::unlock_epoch_to_start_of_month(current_epoch + remaining)
            + EPOCHS_PER_MONTH;

        let mut new_energy = user_energy;
        new_energy.deplete(current_epoch);
        let ghost depleted = new_energy;
        let mut j: usize = 0;
        proof {
            assert(payments@.skip(0) =~= payments@);
        }
        while j < payments.len()
            invariant
                j <= payments@.len(),
                forall|k: int|
                    0 <= k < payments@.len() ==> {
                        &&& (#[trigger] payments@[k]).amount > 0
                        &&& current_epoch < payments@[k].attributes.unlock_epoch
                    },
                Self::can_remove_all(new_energy, payments@.skip(j as int), current_epoch),
                Self::remove_all_spec(depleted, payments@, current_epoch)
                    == Self::remove_all_spec(new_energy, payments@.skip(j as int), current_epoch),
            decreases payments@.len() - j,
        {
            let entry = payments[j];
            proof {
                assert(payments@.skip(j as int)[0] == payments@[j as int]);
                assert(payments@.skip(j as int).skip(1) =~= payments@.skip(j as int + 1));
            }
            new_energy.remove_lock(
                entry.amount,
                entry.attributes.unlock_epoch,
                current_epoch,
            );
            j = j + 1;
        }
        proof {
            assert(payments@.skip(payments@.len() as int).len() == 0);
        }
        new_energy.add_after_token_lock(total, new_unlock_epoch, current_epoch);

        Ok(
            (
                LockedTokenAttributes {
                    original_token_id: self.base_asset_token_id,
                    original_token_nonce: 0,
                    unlock_epoch: new_unlock_epoch,
                },
                total,
                new_energy,
            ),
        )
    }

}

/// One locked-token payment handed to a merge: its amount and attributes.
#[derive(Clone, Copy, Debug, PartialEq, Eq, Structural)]
pub struct LockedToken {
    pub amount: u64,
    pub attributes: LockedTokenAttributes,
}

} // verus!
