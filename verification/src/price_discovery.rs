//! Price discovery: users deposit either side of a future token pair and
//! receive redeem tokens one-to-one; early withdrawals pay a phase-dependent
//! penalty, and after the unbond period redeem tokens convert into the
//! opposite side at the discovered price.

use vstd::prelude::*;
use crate::errors::DexError;
use crate::math;
use crate::payment::EsdtTokenPayment;

verus! {

/// Denominator of the phase penalty percentages.
pub const MAX_PERCENTAGE: u64 = 10_000;

/// Fixed-point scale of the launched-token price.
pub const MIN_PRICE_PRECISION: u64 = 1_000_000_000_000_000_000;

/// Redeem tokens for deposited accepted tokens carry this nonce.
pub const ACCEPTED_TOKEN_REDEEM_NONCE: u64 = 1;

/// Redeem tokens for deposited launched tokens carry this nonce.
pub const LAUNCHED_TOKEN_REDEEM_NONCE: u64 = 2;

/// Where the discovery currently stands; deposits and withdrawals are gated
/// by it and late exits pay the phase's penalty.
#[derive(Clone, Copy, Debug, PartialEq, Eq, Structural)]
pub enum Phase {
    Idle,
    NoLimit,
    LinearPenalty { penalty_percentage: u64 },
    OnlyWithdrawFixedPenalty { penalty_percentage: u64 },
    Redeem,
}

impl Phase {
    /// The penalty a withdrawal pays in this phase.
    pub open spec fn penalty_percentage_spec(self) -> u64 {
        match self {
            Phase::LinearPenalty { penalty_percentage } => penalty_percentage,
            Phase::OnlyWithdrawFixedPenalty { penalty_percentage } => penalty_percentage,
            _ => 0,
        }
    }

    pub fn get_penalty_percentage(&self) -> (r: u64)
        ensures
            r == self.penalty_percentage_spec(),
    {
        match self {
            Phase::LinearPenalty { penalty_percentage } => *penalty_percentage,
            Phase::OnlyWithdrawFixedPenalty { penalty_percentage } => *penalty_percentage,
            _ => 0,
        }
    }

    pub open spec fn deposit_allowed(self) -> bool {
        self == Phase::NoLimit || self matches Phase::LinearPenalty { .. }
    }

    pub open spec fn withdraw_allowed(self) -> bool {
        self == Phase::NoLimit || self matches Phase::LinearPenalty { .. }
            || self matches Phase::OnlyWithdrawFixedPenalty { .. }
    }

    pub open spec fn redeem_allowed(self) -> bool {
        self == Phase::Redeem
    }
}

/// The state of one price-discovery sale.
#[derive(Clone, Copy, Debug, PartialEq, Eq, Structural)]
pub struct PriceDiscoveryState {
    pub launched_token_id: u64,
    pub accepted_token_id: u64,
    pub redeem_token_id: u64,
    /// Minimum accepted price of the launched token, in `MIN_PRICE_PRECISION`
    /// fixed point.
    pub min_launched_token_price: u128,
    pub start_block: u64,
    pub end_block: u64,
    pub no_limit_phase_duration_blocks: u64,
    pub linear_penalty_phase_duration_blocks: u64,
    pub fixed_penalty_phase_duration_blocks: u64,
    pub unbond_period_blocks: u64,
    pub penalty_min_percentage: u64,
    pub penalty_max_percentage: u64,
    pub fixed_penalty_percentage: u64,
    pub launched_token_balance: u64,
    pub accepted_token_balance: u64,
    /// Circulating redeem tokens at `ACCEPTED_TOKEN_REDEEM_NONCE`.
    pub redeem_supply_accepted: u64,
    /// Circulating redeem tokens at `LAUNCHED_TOKEN_REDEEM_NONCE`.
    pub redeem_supply_launched: u64,
}

impl PriceDiscoveryState {
    /// Sets a sale up. The phase windows follow each other from the start
    /// block; the penalty percentages must stay below one hundred percent and
    /// be ordered.
    pub fn init(
        launched_token_id: u64,
        accepted_token_id: u64,
        redeem_token_id: u64,
        min_launched_token_price: u128,
        start_block: u64,
        no_limit_phase_duration_blocks: u64,
        linear_penalty_phase_duration_blocks: u64,
        fixed_penalty_phase_duration_blocks: u64,
        unbond_period_blocks: u64,
        penalty_min_percentage: u64,
        penalty_max_percentage: u64,
        fixed_penalty_percentage: u64,
        current_block: u64,
    ) -> (r: Result<PriceDiscoveryState, DexError>)
        requires
            start_block + no_limit_phase_duration_blocks + linear_penalty_phase_duration_blocks
                + fixed_penalty_phase_duration_blocks <= u64::MAX,
        ensures
            launched_token_id == accepted_token_id ==> r == Err::<PriceDiscoveryState, DexError>(
                DexError::TokensMustDiffer,
            ),
            launched_token_id != accepted_token_id && current_block >= start_block ==> r == Err::<
                PriceDiscoveryState,
                DexError,
            >(DexError::StartBlockInPast),
            launched_token_id != accepted_token_id && current_block < start_block
                && penalty_min_percentage > penalty_max_percentage ==> r == Err::<
                PriceDiscoveryState,
                DexError,
            >(DexError::MinPercentageAboveMax),
            launched_token_id != accepted_token_id && current_block < start_block
                && penalty_min_percentage <= penalty_max_percentage && (penalty_max_percentage
                >= MAX_PERCENTAGE || fixed_penalty_percentage >= MAX_PERCENTAGE) ==> r == Err::<
                PriceDiscoveryState,
                DexError,
            >(DexError::PercentageTooHigh),
            launched_token_id != accepted_token_id && current_block < start_block
                && penalty_min_percentage <= penalty_max_percentage && penalty_max_percentage
                < MAX_PERCENTAGE && fixed_penalty_percentage < MAX_PERCENTAGE ==> (r matches Ok(d)
                && d == (PriceDiscoveryState {
                launched_token_id,
                accepted_token_id,
                redeem_token_id,
                min_launched_token_price,
                start_block,
                end_block: (start_block + no_limit_phase_duration_blocks
                    + linear_penalty_phase_duration_blocks
                    + fixed_penalty_phase_duration_blocks) as u64,
                no_limit_phase_duration_blocks,
                linear_penalty_phase_duration_blocks,
                fixed_penalty_phase_duration_blocks,
                unbond_period_blocks,
                penalty_min_percentage,
                penalty_max_percentage,
                fixed_penalty_percentage,
                launched_token_balance: 0,
                accepted_token_balance: 0,
                redeem_supply_accepted: 0,
                redeem_supply_launched: 0,
            })),
    {
        if launched_token_id == accepted_token_id {
            return Err(DexError::TokensMustDiffer);
        }
        if current_block >= start_block {
            return Err(DexError::StartBlockInPast);
        }
        if penalty_min_percentage > penalty_max_percentage {
            return Err(DexError::MinPercentageAboveMax);
        }
        if penalty_max_percentage >= MAX_PERCENTAGE || fixed_penalty_percentage >= MAX_PERCENTAGE {
            return Err(DexError::PercentageTooHigh);
        }
        let end_block = start_block + no_limit_phase_duration_blocks
            + linear_penalty_phase_duration_blocks + fixed_penalty_phase_duration_blocks;
        Ok(
            PriceDiscoveryState {
                launched_token_id,
                accepted_token_id,
                redeem_token_id,
                min_launched_token_price,
                start_block,
                end_block,
                no_limit_phase_duration_blocks,
                linear_penalty_phase_duration_blocks,
                fixed_penalty_phase_duration_blocks,
                unbond_period_blocks,
                penalty_min_percentage,
                penalty_max_percentage,
                fixed_penalty_percentage,
                launched_token_balance: 0,
                accepted_token_balance: 0,
                redeem_supply_accepted: 0,
                redeem_supply_launched: 0,
            },
        )
    }

    pub fn increase_balance(&mut self, accepted_side: bool, amount: u64)
        requires
            accepted_side ==> old(self).accepted_token_balance + amount <= u64::MAX,
            !accepted_side ==> old(self).launched_token_balance + amount <= u64::MAX,
        ensures
            accepted_side ==> *final(self) == (PriceDiscoveryState {
                accepted_token_balance: (old(self).accepted_token_balance + amount) as u64,
                ..*old(self)
            }),
            !accepted_side ==> *final(self) == (PriceDiscoveryState {
                launched_token_balance: (old(self).launched_token_balance + amount) as u64,
                ..*old(self)
            }),
    {
        if accepted_side {
            self.accepted_token_balance = self.accepted_token_balance + amount;
        } else {
            self.launched_token_balance = self.launched_token_balance + amount;
        }
    }

    pub fn decrease_balance(&mut self, accepted_side: bool, amount: u64)
        requires
            accepted_side ==> amount <= old(self).accepted_token_balance,
            !accepted_side ==> amount <= old(self).launched_token_balance,
        ensures
            accepted_side ==> *final(self) == (PriceDiscoveryState {
                accepted_token_balance: (old(self).accepted_token_balance - amount) as u64,
                ..*old(self)
            }),
            !accepted_side ==> *final(self) == (PriceDiscoveryState {
                launched_token_balance: (old(self).launched_token_balance - amount) as u64,
                ..*old(self)
            }),
    {
        if accepted_side {
            self.accepted_token_balance = self.accepted_token_balance - amount;
        } else {
            self.launched_token_balance = self.launched_token_balance - amount;
        }
    }
}

/// The sale's contract surface.
pub trait PriceDiscovery: Sized {
    /// The launched-token price implied by a pair of balances, in
    /// `MIN_PRICE_PRECISION` fixed point; an empty launched side prices at
    /// zero.
    spec fn price_spec(accepted_token_balance: u64, launched_token_balance: u64) -> int;

    /// What the price check after a balance change decides, given the
    /// balances before it.
    spec fn price_over_min_spec(
        self,
        launched_token_balance_before: u64,
        accepted_token_balance_before: u64,
    ) -> Result<u128, DexError>;

    /// What a redeem token converts into: the opposite side's fair share.
    spec fn bought_tokens_spec(self, redeem_token_nonce: u64, redeem_token_amount: u64) -> Result<
        EsdtTokenPayment,
        DexError,
    >;

    /// What a deposit does: mint redeem tokens one-to-one for the deposited
    /// side and enforce the minimum launched-token price.
    spec fn deposit_spec(self, payment: EsdtTokenPayment, phase: Phase) -> Result<
        (Self, EsdtTokenPayment, u128),
        DexError,
    >;

    /// What a withdrawal does: burn the redeem tokens, pay the phase penalty,
    /// hand the rest back, and enforce the minimum price.
    spec fn withdraw_spec(self, payment: EsdtTokenPayment, phase: Phase) -> Result<
        (Self, EsdtTokenPayment, u64, u128),
        DexError,
    >;

    /// The sale's redeem token.
    spec fn redeem_token_id_spec(self) -> u64;

    /// The machine limits a deposit must respect.
    spec fn can_deposit(self, payment: EsdtTokenPayment) -> bool;

    /// What a withdrawal needs of the recorded balances and supplies.
    spec fn can_withdraw(self, payment: EsdtTokenPayment) -> bool;

    /// What converting redeem tokens needs of the recorded supplies.
    spec fn can_compute_bought(self, redeem_token_nonce: u64, redeem_token_amount: u64) -> bool;

    /// What a redeem needs of the recorded supplies.
    spec fn can_redeem(self, payment: EsdtTokenPayment) -> bool;

    fn calculate_price(&self, accepted_token_balance: u64, launched_token_balance: u64) -> (r:
        u128)
        ensures
            r == Self::price_spec(accepted_token_balance, launched_token_balance),
    ;

    fn get_launched_token_price_over_min_price(
        &self,
        launched_token_balance_before: u64,
        accepted_token_balance_before: u64,
    ) -> (r: Result<u128, DexError>)
        ensures
            r == self.price_over_min_spec(
                launched_token_balance_before,
                accepted_token_balance_before,
            ),
    ;

    /// Users that deposited accepted tokens receive launched tokens and
    /// vice-versa: the fair share of the opposite pool.
    fn compute_bought_tokens(&self, redeem_token_nonce: u64, redeem_token_amount: u64) -> (r:
        Result<EsdtTokenPayment, DexError>)
        requires
            self.can_compute_bought(redeem_token_nonce, redeem_token_amount),
        ensures
            r == self.bought_tokens_spec(redeem_token_nonce, redeem_token_amount),
    ;

    /// Deposit either side of the pair and receive redeem tokens one-to-one.
    /// The deposit must keep the launched-token price admissible.
    fn deposit(&mut self, payment: EsdtTokenPayment, phase: Phase) -> (r: Result<
        (EsdtTokenPayment, u128),
        DexError,
    >)
        requires
            old(self).can_deposit(payment),
        ensures
            ({
                match old(self).deposit_spec(payment, phase) {
                    Ok((next, redeem, price)) => *final(self) == next && r == Ok::<
                        (EsdtTokenPayment, u128),
                        DexError,
                    >((redeem, price)),
                    Err(e) => *final(self) == *old(self) && r == Err::<
                        (EsdtTokenPayment, u128),
                        DexError,
                    >(e),
                }
            }),
    ;

    /// Deposit redeem tokens to withdraw the originally deposited tokens,
    /// less the current phase's penalty.
    fn withdraw(&mut self, payment: EsdtTokenPayment, phase: Phase) -> (r: Result<
        (EsdtTokenPayment, u64, u128),
        DexError,
    >)
        requires
            phase.penalty_percentage_spec() <= MAX_PERCENTAGE,
            old(self).can_withdraw(payment),
        ensures
            ({
                match old(self).withdraw_spec(payment, phase) {
                    Ok((next, refund, penalty, price)) => *final(self) == next && r == Ok::<
                        (EsdtTokenPayment, u64, u128),
                        DexError,
                    >((refund, penalty, price)),
                    Err(e) => *final(self) == *old(self) && r == Err::<
                        (EsdtTokenPayment, u64, u128),
                        DexError,
                    >(e),
                }
            }),
    ;

    /// After the unbond period, redeem tokens convert into the opposite
    /// side's fair share; the pools and the circulating supply are left as
    /// they are so later redeemers get the same rate.
    fn redeem(&self, payment: EsdtTokenPayment, phase: Phase) -> (r: Result<
        EsdtTokenPayment,
        DexError,
    >)
        requires
            self.can_redeem(payment),
        ensures
            !phase.redeem_allowed() ==> r == Err::<EsdtTokenPayment, DexError>(
                DexError::RedeemNotAllowed,
            ),
            phase.redeem_allowed() && payment.token_identifier != self.redeem_token_id_spec() ==> r
                == Err::<EsdtTokenPayment, DexError>(DexError::InvalidPaymentToken),
            phase.redeem_allowed() && payment.token_identifier == self.redeem_token_id_spec() ==> r
                == self.bought_tokens_spec(payment.token_nonce, payment.amount),
    ;
}

impl PriceDiscovery for PriceDiscoveryState {
    open spec fn price_spec(accepted_token_balance: u64, launched_token_balance: u64) -> int {
        if launched_token_balance == 0 {
            0
        } else {
            accepted_token_balance * MIN_PRICE_PRECISION / launched_token_balance as int
        }
    }

    open spec fn price_over_min_spec(
        self,
        launched_token_balance_before: u64,
        accepted_token_balance_before: u64,
    ) -> Result<u128, DexError> {
        if self.accepted_token_balance == 0 {
            Ok(0)
        } else if self.launched_token_balance == 0 {
            Err(DexError::NoLaunchedTokens)
        } else {
            let price_before = Self::price_spec(
                accepted_token_balance_before,
                launched_token_balance_before,
            );
            let price_after = Self::price_spec(
                self.accepted_token_balance,
                self.launched_token_balance,
            );
            if price_before < self.min_launched_token_price && price_after
                < self.min_launched_token_price {
                if self.accepted_token_balance > accepted_token_balance_before {
                    Ok(price_after as u128)
                } else {
                    Err(DexError::BelowMinPrice)
                }
            } else {
                if price_after >= self.min_launched_token_price {
                    Ok(price_after as u128)
                } else {
                    Err(DexError::BelowMinPrice)
                }
            }
        }
    }

    open spec fn bought_tokens_spec(self, redeem_token_nonce: u64, redeem_token_amount: u64)
        -> Result<EsdtTokenPayment, DexError> {
        if redeem_token_nonce == ACCEPTED_TOKEN_REDEEM_NONCE {
            Ok(
                EsdtTokenPayment {
                    token_identifier: self.launched_token_id,
                    token_nonce: 0,
                    amount: (self.launched_token_balance * redeem_token_amount
                        / self.redeem_supply_accepted as int) as u64,
                },
            )
        } else if redeem_token_nonce == LAUNCHED_TOKEN_REDEEM_NONCE {
            Ok(
                EsdtTokenPayment {
                    token_identifier: self.accepted_token_id,
                    token_nonce: 0,
                    amount: (self.accepted_token_balance * redeem_token_amount
                        / self.redeem_supply_launched as int) as u64,
                },
            )
        } else {
            Err(DexError::InvalidPaymentToken)
        }
    }

    open spec fn deposit_spec(self, payment: EsdtTokenPayment, phase: Phase) -> Result<
        (PriceDiscoveryState, EsdtTokenPayment, u128),
        DexError,
    > {
        if !phase.deposit_allowed() {
            Err(DexError::DepositNotAllowed)
        } else if payment.token_identifier != self.accepted_token_id && payment.token_identifier
            != self.launched_token_id {
            Err(DexError::InvalidPaymentToken)
        } else {
            let accepted_side = payment.token_identifier == self.accepted_token_id;
            let next = if accepted_side {
                PriceDiscoveryState {
                    accepted_token_balance: (self.accepted_token_balance + payment.amount) as u64,
                    redeem_supply_accepted: (self.redeem_supply_accepted + payment.amount) as u64,
                    ..self
                }
            } else {
                PriceDiscoveryState {
                    launched_token_balance: (self.launched_token_balance + payment.amount) as u64,
                    redeem_supply_launched: (self.redeem_supply_launched + payment.amount) as u64,
                    ..self
                }
            };
            let nonce = if accepted_side {
                ACCEPTED_TOKEN_REDEEM_NONCE
            } else {
                LAUNCHED_TOKEN_REDEEM_NONCE
            };
            match next.price_over_min_spec(
                self.launched_token_balance,
                self.accepted_token_balance,
            ) {
                Err(e) => Err(e),
                Ok(price) => Ok(
                    (
                        next,
                        EsdtTokenPayment {
                            token_identifier: self.redeem_token_id,
                            token_nonce: nonce,
                            amount: payment.amount,
                        },
                        price,
                    ),
                ),
            }
        }
    }

    open spec fn withdraw_spec(self, payment: EsdtTokenPayment, phase: Phase) -> Result<
        (PriceDiscoveryState, EsdtTokenPayment, u64, u128),
        DexError,
    > {
        if !phase.withdraw_allowed() {
            Err(DexError::WithdrawNotAllowed)
        } else if payment.token_identifier != self.redeem_token_id || (payment.token_nonce
            != ACCEPTED_TOKEN_REDEEM_NONCE && payment.token_nonce != LAUNCHED_TOKEN_REDEEM_NONCE) {
            Err(DexError::InvalidPaymentToken)
        } else {
            let accepted_side = payment.token_nonce == ACCEPTED_TOKEN_REDEEM_NONCE;
            let penalty = payment.amount * phase.penalty_percentage_spec()
                / MAX_PERCENTAGE as int;
            let withdraw_amount = payment.amount - penalty;
            let refund_token_id = if accepted_side {
                self.accepted_token_id
            } else {
                self.launched_token_id
            };
            let burned = if accepted_side {
                PriceDiscoveryState {
                    redeem_supply_accepted: (self.redeem_supply_accepted - payment.amount) as u64,
                    ..self
                }
            } else {
                PriceDiscoveryState {
                    redeem_supply_launched: (self.redeem_supply_launched - payment.amount) as u64,
                    ..self
                }
            };
            let next = if withdraw_amount > 0 {
                if accepted_side {
                    PriceDiscoveryState {
                        accepted_token_balance: (burned.accepted_token_balance
                            - withdraw_amount) as u64,
                        ..burned
                    }
                } else {
                    PriceDiscoveryState {
                        launched_token_balance: (burned.launched_token_balance
                            - withdraw_amount) as u64,
                        ..burned
                    }
                }
            } else {
                burned
            };
            match next.price_over_min_spec(
                self.launched_token_balance,
                self.accepted_token_balance,
            ) {
                Err(e) => Err(e),
                Ok(price) => Ok(
                    (
                        next,
                        EsdtTokenPayment {
                            token_identifier: refund_token_id,
                            token_nonce: 0,
                            amount: withdraw_amount as u64,
                        },
                        penalty as u64,
                        price,
                    ),
                ),
            }
        }
    }

    open spec fn redeem_token_id_spec(self) -> u64 {
        self.redeem_token_id
    }

    open spec fn can_deposit(self, payment: EsdtTokenPayment) -> bool {
        &&& payment.token_identifier == self.accepted_token_id ==> (self.accepted_token_balance
            + payment.amount <= u64::MAX && self.redeem_supply_accepted + payment.amount
            <= u64::MAX)
        &&& payment.token_identifier == self.launched_token_id ==> (self.launched_token_balance
            + payment.amount <= u64::MAX && self.redeem_supply_launched + payment.amount
            <= u64::MAX)
    }

    open spec fn can_withdraw(self, payment: EsdtTokenPayment) -> bool {
        &&& payment.token_nonce == ACCEPTED_TOKEN_REDEEM_NONCE ==> payment.amount
            <= self.redeem_supply_accepted && payment.amount <= self.accepted_token_balance
        &&& payment.token_nonce == LAUNCHED_TOKEN_REDEEM_NONCE ==> payment.amount
            <= self.redeem_supply_launched && payment.amount <= self.launched_token_balance
    }

    open spec fn can_compute_bought(self, redeem_token_nonce: u64, redeem_token_amount: u64)
        -> bool {
        &&& redeem_token_nonce == ACCEPTED_TOKEN_REDEEM_NONCE ==> 0 < redeem_token_amount
            <= self.redeem_supply_accepted
        &&& redeem_token_nonce == LAUNCHED_TOKEN_REDEEM_NONCE ==> 0 < redeem_token_amount
            <= self.redeem_supply_launched
    }

    open spec fn can_redeem(self, payment: EsdtTokenPayment) -> bool {
        &&& payment.token_identifier == self.redeem_token_id && payment.token_nonce
            == ACCEPTED_TOKEN_REDEEM_NONCE ==> 0 < payment.amount <= self.redeem_supply_accepted
        &&& payment.token_identifier == self.redeem_token_id && payment.token_nonce
            == LAUNCHED_TOKEN_REDEEM_NONCE ==> 0 < payment.amount <= self.redeem_supply_launched
    }

    fn calculate_price(&self, accepted_token_balance: u64, launched_token_balance: u64) -> (r:
        u128)
    {
        if launched_token_balance == 0 {
            return 0;
        }
        proof {
            assert(accepted_token_balance as int * MIN_PRICE_PRECISION as int
                <= u64::MAX as int * u64::MAX as int) by (nonlinear_arith)
                requires
                    0 <= accepted_token_balance <= u64::MAX,
                    0 < MIN_PRICE_PRECISION <= u64::MAX,
            ;
        }
        ((accepted_token_balance as u128) * (MIN_PRICE_PRECISION as u128)) / (
        launched_token_balance as u128)
    }

    fn get_launched_token_price_over_min_price(
        &self,
        launched_token_balance_before: u64,
        accepted_token_balance_before: u64,
    ) -> (r: Result<u128, DexError>)
    {
        if self.accepted_token_balance == 0 {
            return Ok(0);
        }
        if self.launched_token_balance == 0 {
            return Err(DexError::NoLaunchedTokens);
        }

        let price_before = self.calculate_price(
            accepted_token_balance_before,
            launched_token_balance_before,
        );
        let price_after = self.calculate_price(
            self.accepted_token_balance,
            self.launched_token_balance,
        );

        if price_before < self.min_launched_token_price && price_after
            < self.min_launched_token_price {
            if self.accepted_token_balance > accepted_token_balance_before {
                Ok(price_after)
            } else {
                Err(DexError::BelowMinPrice)
            }
        } else {
            if price_after >= self.min_launched_token_price {
                Ok(price_after)
            } else {
                Err(DexError::BelowMinPrice)
            }
        }
    }

    fn compute_bought_tokens(&self, redeem_token_nonce: u64, redeem_token_amount: u64) -> (r:
        Result<EsdtTokenPayment, DexError>)
    {
        if redeem_token_nonce == ACCEPTED_TOKEN_REDEEM_NONCE {
            proof {
                math::lemma_rule_of_three_le(
                    redeem_token_amount as int,
                    self.redeem_supply_accepted as int,
                    self.launched_token_balance as int,
                );
                assert(self.launched_token_balance as int * redeem_token_amount as int
                    == redeem_token_amount as int * self.launched_token_balance as int)
                    by (nonlinear_arith)
                ;
            }
            let amount = math::rule_of_three(
                redeem_token_amount,
                self.redeem_supply_accepted,
                self.launched_token_balance,
            );
            Ok(EsdtTokenPayment::new(self.launched_token_id, 0, amount))
        } else if redeem_token_nonce == LAUNCHED_TOKEN_REDEEM_NONCE {
            proof {
                math::lemma_rule_of_three_le(
                    redeem_token_amount as int,
                    self.redeem_supply_launched as int,
                    self.accepted_token_balance as int,
                );
                assert(self.accepted_token_balance as int * redeem_token_amount as int
                    == redeem_token_amount as int * self.accepted_token_balance as int)
                    by (nonlinear_arith)
                ;
            }
            let amount = math::rule_of_three(
                redeem_token_amount,
                self.redeem_supply_launched,
                self.accepted_token_balance,
            );
            Ok(EsdtTokenPayment::new(self.accepted_token_id, 0, amount))
        } else {
            Err(DexError::InvalidPaymentToken)
        }
    }

    fn deposit(&mut self, payment: EsdtTokenPayment, phase: Phase) -> (r: Result<
        (EsdtTokenPayment, u128),
        DexError,
    >)
    {
        if !(matches!(phase, Phase::NoLimit) || matches!(phase, Phase::LinearPenalty { .. })) {
            return Err(DexError::DepositNotAllowed);
        }
        if payment.token_identifier != self.accepted_token_id && payment.token_identifier
            != self.launched_token_id {
            return Err(DexError::InvalidPaymentToken);
        }
        let accepted_side = payment.token_identifier == self.accepted_token_id;
        let redeem_token_nonce = if accepted_side {
            ACCEPTED_TOKEN_REDEEM_NONCE
        } else {
            LAUNCHED_TOKEN_REDEEM_NONCE
        };

        let launched_token_balance_before = self.launched_token_balance;
        let accepted_token_balance_before = self.accepted_token_balance;

        let mut next = *self;
        next.increase_balance(accepted_side, payment.amount);
        if accepted_side {
            next.redeem_supply_accepted = next.redeem_supply_accepted + payment.amount;
        } else {
            next.redeem_supply_launched = next.redeem_supply_launched + payment.amount;
        }

        let current_price = match next.get_launched_token_price_over_min_price(
            launched_token_balance_before,
            accepted_token_balance_before,
        ) {
            Ok(p) => p,
            Err(e) => {
                return Err(e);
            },
        };

        let redeem_payment = EsdtTokenPayment::new(
            self.redeem_token_id,
            redeem_token_nonce,
            payment.amount,
        );
        *self = next;
        Ok((redeem_payment, current_price))
    }

    fn withdraw(&mut self, payment: EsdtTokenPayment, phase: Phase) -> (r: Result<
        (EsdtTokenPayment, u64, u128),
        DexError,
    >)
    {
        if !(matches!(phase, Phase::NoLimit) || matches!(phase, Phase::LinearPenalty { .. })
            || matches!(phase, Phase::OnlyWithdrawFixedPenalty { .. })) {
            return Err(DexError::WithdrawNotAllowed);
        }
        if payment.token_identifier != self.redeem_token_id || (payment.token_nonce
            != ACCEPTED_TOKEN_REDEEM_NONCE && payment.token_nonce != LAUNCHED_TOKEN_REDEEM_NONCE) {
            return Err(DexError::InvalidPaymentToken);
        }
        let accepted_side = payment.token_nonce == ACCEPTED_TOKEN_REDEEM_NONCE;
        let refund_token_id = if accepted_side {
            self.accepted_token_id
        } else {
            self.launched_token_id
        };

        let launched_token_balance_before = self.launched_token_balance;
        let accepted_token_balance_before = self.accepted_token_balance;

        let mut next = *self;
        if accepted_side {
            next.redeem_supply_accepted = next.redeem_supply_accepted - payment.amount;
        } else {
            next.redeem_supply_launched = next.redeem_supply_launched - payment.amount;
        }

        let penalty_percentage = phase.get_penalty_percentage();
        proof {
            math::lemma_rule_of_three_le(
                penalty_percentage as int,
                MAX_PERCENTAGE as int,
                payment.amount as int,
            );
            assert(payment.amount as int * penalty_percentage as int == penalty_percentage as int
                * payment.amount as int) by (nonlinear_arith);
            assert(payment.amount as int * penalty_percentage as int
                <= u64::MAX as int * u64::MAX as int) by (nonlinear_arith)
                requires
                    0 <= payment.amount <= u64::MAX,
                    0 <= penalty_percentage <= u64::MAX,
            ;
        }
        let penalty_amount = (((payment.amount as u128) * (penalty_percentage as u128)) / (
        MAX_PERCENTAGE as u128)) as u64;
        let withdraw_amount = payment.amount - penalty_amount;

        if withdraw_amount > 0 {
            next.decrease_balance(accepted_side, withdraw_amount);
        }

        let current_price = match next.get_launched_token_price_over_min_price(
            launched_token_balance_before,
            accepted_token_balance_before,
        ) {
            Ok(p) => p,
            Err(e) => {
                return Err(e);
            },
        };

        let refund_payment = EsdtTokenPayment::new(refund_token_id, 0, withdraw_amount);
        *self = next;
        Ok((refund_payment, penalty_amount, current_price))
    }

    fn redeem(&self, payment: EsdtTokenPayment, phase: Phase) -> (r: Result<
        EsdtTokenPayment,
        DexError,
    >)
    {
        if !matches!(phase, Phase::Redeem) {
            return Err(DexError::RedeemNotAllowed);
        }
        if payment.token_identifier != self.redeem_token_id {
            return Err(DexError::InvalidPaymentToken);
        }
        self.compute_bought_tokens(payment.token_nonce, payment.amount)
    }
}

} // verus!
