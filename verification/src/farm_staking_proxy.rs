//! The dual-yield staking proxy: one token standing for a liquidity-farm
//! position and a staking-farm position at once. The calls into the two
//! farms and the pair happen at the transaction edge; the proxy's own logic
//! is validating payments, splitting positions proportionally and
//! re-assembling the dual-yield attributes from the farms' responses.

use vstd::prelude::*;
use crate::errors::DexError;
use crate::math;
use crate::payment::EsdtTokenPayment;

verus! {

/// What a dual-yield token stands for: a slice of a liquidity-farm position
/// and a slice of a staking-farm position. The token supply equals the
/// staking-farm amount.
#[derive(Clone, Copy, Debug, PartialEq, Eq, Structural)]
pub struct DualYieldTokenAttributes {
    pub lp_farm_token_nonce: u64,
    pub lp_farm_token_amount: u64,
    pub staking_farm_token_nonce: u64,
    pub staking_farm_token_amount: u64,
}

impl DualYieldTokenAttributes {
    /// The dual-yield token supply these attributes were minted for.
    pub open spec fn total_supply(self) -> u64 {
        self.staking_farm_token_amount
    }

    pub fn get_total_supply(&self) -> (r: u64)
        ensures
            r == self.total_supply(),
    {
        self.staking_farm_token_amount
    }

    /// The attributes of a proportional part of the position.
    pub open spec fn into_part_spec(self, payment_amount: u64) -> DualYieldTokenAttributes {
        if payment_amount == self.total_supply() {
            self
        } else {
            DualYieldTokenAttributes {
                lp_farm_token_nonce: self.lp_farm_token_nonce,
                lp_farm_token_amount: (payment_amount * self.lp_farm_token_amount
                    / self.total_supply() as int) as u64,
                staking_farm_token_nonce: self.staking_farm_token_nonce,
                staking_farm_token_amount: payment_amount,
            }
        }
    }

    /// Cuts a part out of the position: the staking side is the part itself,
    /// the liquidity side its proportional share.
    pub fn into_part(self, payment_amount: u64) -> (r: DualYieldTokenAttributes)
        requires
            0 < payment_amount <= self.total_supply(),
        ensures
            r == self.into_part_spec(payment_amount),
    {
        if payment_amount == self.staking_farm_token_amount {
            return self;
        }
        proof {
            math::lemma_rule_of_three_le(
                payment_amount as int,
                self.staking_farm_token_amount as int,
                self.lp_farm_token_amount as int,
            );
        }
        let new_lp_farm_token_amount = math::rule_of_three(
            payment_amount,
            self.staking_farm_token_amount,
            self.lp_farm_token_amount,
        );
        DualYieldTokenAttributes {
            lp_farm_token_nonce: self.lp_farm_token_nonce,
            lp_farm_token_amount: new_lp_farm_token_amount,
            staking_farm_token_nonce: self.staking_farm_token_nonce,
            staking_farm_token_amount: payment_amount,
        }
    }
}

/// The proxy's configuration: the contracts it orchestrates and the token
/// kinds it recognises.
#[derive(Clone, Copy, Debug, PartialEq, Eq, Structural)]
pub struct FarmStakingProxyState {
    pub lp_farm_address: u64,
    pub staking_farm_address: u64,
    pub pair_address: u64,
    pub staking_token_id: u64,
    pub lp_farm_token_id: u64,
    pub staking_farm_token_id: u64,
    pub lp_token_id: u64,
    pub dual_yield_token_id: u64,
}

impl FarmStakingProxyState {
    /// Sets the proxy up; every orchestrated contract must be a proper
    /// address and every token kind an issued token.
    pub fn init(
        lp_farm_address: u64,
        staking_farm_address: u64,
        pair_address: u64,
        staking_token_id: u64,
        lp_farm_token_id: u64,
        staking_farm_token_id: u64,
        lp_token_id: u64,
        dual_yield_token_id: u64,
    ) -> (r: Result<FarmStakingProxyState, DexError>)
        ensures
            lp_farm_address == 0 || staking_farm_address == 0 || pair_address == 0 ==> r == Err::<
                FarmStakingProxyState,
                DexError,
            >(DexError::InvalidScAddress),
            lp_farm_address != 0 && staking_farm_address != 0 && pair_address != 0 && (
            staking_token_id == 0 || lp_farm_token_id == 0 || staking_farm_token_id == 0
                || lp_token_id == 0 || dual_yield_token_id == 0) ==> r == Err::<
                FarmStakingProxyState,
                DexError,
            >(DexError::NotAnEsdt),
            lp_farm_address != 0 && staking_farm_address != 0 && pair_address != 0
                && staking_token_id != 0 && lp_farm_token_id != 0 && staking_farm_token_id != 0
                && lp_token_id != 0 && dual_yield_token_id != 0 ==> r == Ok::<
                FarmStakingProxyState,
                DexError,
            >(
                FarmStakingProxyState {
                    lp_farm_address,
                    staking_farm_address,
                    pair_address,
                    staking_token_id,
                    lp_farm_token_id,
                    staking_farm_token_id,
                    lp_token_id,
                    dual_yield_token_id,
                },
            ),
    {
        if lp_farm_address == 0 || staking_farm_address == 0 || pair_address == 0 {
            return Err(DexError::InvalidScAddress);
        }
        if staking_token_id == 0 || lp_farm_token_id == 0 || staking_farm_token_id == 0
            || lp_token_id == 0 || dual_yield_token_id == 0 {
            return Err(DexError::NotAnEsdt);
        }
        Ok(
            FarmStakingProxyState {
                lp_farm_address,
                staking_farm_address,
                pair_address,
                staking_token_id,
                lp_farm_token_id,
                staking_farm_token_id,
                lp_token_id,
                dual_yield_token_id,
            },
        )
    }
}

/// The dual-yield proxy's contract surface.
pub trait FarmStakingProxy: Sized {
    /// The liquidity-farm position token the proxy accepts first.
    spec fn lp_farm_token_id_spec(self) -> u64;

    /// The staking-farm position token wrapped inside.
    spec fn staking_farm_token_id_spec(self) -> u64;

    /// The proxy's own dual-yield token.
    spec fn dual_yield_token_id_spec(self) -> u64;

    /// The decision before staking: the first payment must be a
    /// liquidity-farm position, the rest dual-yield tokens, which are
    /// unwrapped into the farm positions they stand for (those are burned and
    /// re-entered at the edge).
    fn stake_farm_tokens_request(
        &self,
        lp_farm_token_payment: &EsdtTokenPayment,
        additional_payments: &Vec<(EsdtTokenPayment, DualYieldTokenAttributes)>,
    ) -> (r: Result<(Vec<EsdtTokenPayment>, Vec<EsdtTokenPayment>), DexError>)
        ensures
            lp_farm_token_payment.token_identifier != self.lp_farm_token_id_spec() ==> r == Err::<
                (Vec<EsdtTokenPayment>, Vec<EsdtTokenPayment>),
                DexError,
            >(DexError::InvalidFirstPayment),
            (exists|i: int|
                0 <= i < additional_payments@.len() && (#[trigger] additional_payments@[
                i].0).token_identifier != self.dual_yield_token_id_spec())
                && lp_farm_token_payment.token_identifier == self.lp_farm_token_id_spec() ==> r == Err::<
                (Vec<EsdtTokenPayment>, Vec<EsdtTokenPayment>),
                DexError,
            >(DexError::InvalidPaymentToken),
            lp_farm_token_payment.token_identifier == self.lp_farm_token_id_spec() && (forall|i: int|
                0 <= i < additional_payments@.len() ==> (#[trigger] additional_payments@[
                i].0).token_identifier == self.dual_yield_token_id_spec()) ==> (r matches Ok(lists) && {
                &&& lists.0@.len() == additional_payments@.len()
                &&& lists.1@.len() == additional_payments@.len()
                &&& forall|i: int|
                    0 <= i < additional_payments@.len() ==> (#[trigger] lists.0@[i])
                        == (EsdtTokenPayment {
                        token_identifier: self.staking_farm_token_id_spec(),
                        token_nonce: additional_payments@[i].1.staking_farm_token_nonce,
                        amount: additional_payments@[i].1.staking_farm_token_amount,
                    })
                &&& forall|i: int|
                    0 <= i < additional_payments@.len() ==> (#[trigger] lists.1@[i])
                        == (EsdtTokenPayment {
                        token_identifier: self.lp_farm_token_id_spec(),
                        token_nonce: additional_payments@[i].1.lp_farm_token_nonce,
                        amount: additional_payments@[i].1.lp_farm_token_amount,
                    })
            }),
    ;

    /// Wraps the two farms' responses into the new dual-yield attributes.
    fn stake_farm_tokens_response(
        &self,
        merged_lp_farm_tokens: &EsdtTokenPayment,
        received_staking_farm_token: &EsdtTokenPayment,
    ) -> (r: (DualYieldTokenAttributes, u64))
        ensures
            r.0 == (DualYieldTokenAttributes {
                lp_farm_token_nonce: merged_lp_farm_tokens.token_nonce,
                lp_farm_token_amount: merged_lp_farm_tokens.amount,
                staking_farm_token_nonce: received_staking_farm_token.token_nonce,
                staking_farm_token_amount: received_staking_farm_token.amount,
            }),
            r.1 == r.0.total_supply(),
    ;

    /// The decision before claiming both yields: the payment must be a
    /// dual-yield token; its attributes say which positions to claim.
    fn claim_dual_yield_request(
        &self,
        payment: &EsdtTokenPayment,
        attributes: DualYieldTokenAttributes,
    ) -> (r: Result<DualYieldTokenAttributes, DexError>)
        ensures
            payment.token_identifier != self.dual_yield_token_id_spec() ==> r == Err::<
                DualYieldTokenAttributes,
                DexError,
            >(DexError::InvalidPaymentToken),
            payment.token_identifier == self.dual_yield_token_id_spec() ==> r == Ok::<
                DualYieldTokenAttributes,
                DexError,
            >(attributes),
    ;

    /// Re-assembles the dual-yield attributes after both farms re-minted the
    /// claimed positions.
    fn claim_dual_yield_response(
        &self,
        new_lp_farm_tokens: &EsdtTokenPayment,
        new_staking_farm_tokens: &EsdtTokenPayment,
    ) -> (r: (DualYieldTokenAttributes, u64))
        ensures
            r.0 == (DualYieldTokenAttributes {
                lp_farm_token_nonce: new_lp_farm_tokens.token_nonce,
                lp_farm_token_amount: new_lp_farm_tokens.amount,
                staking_farm_token_nonce: new_staking_farm_tokens.token_nonce,
                staking_farm_token_amount: new_staking_farm_tokens.amount,
            }),
            r.1 == r.0.total_supply(),
    ;

    /// The decision before unstaking: the whole position must be handed in,
    /// the exit amount must be a non-empty part of it, and the exited slice
    /// is cut proportionally.
    fn unstake_farm_tokens_request(
        &self,
        payment: &EsdtTokenPayment,
        full_attributes: DualYieldTokenAttributes,
        exit_amount: u64,
    ) -> (r: Result<DualYieldTokenAttributes, DexError>)
        ensures
            payment.token_identifier != self.dual_yield_token_id_spec() ==> r == Err::<
                DualYieldTokenAttributes,
                DexError,
            >(DexError::InvalidPaymentToken),
            payment.token_identifier == self.dual_yield_token_id_spec() && payment.amount
                != full_attributes.total_supply() ==> r == Err::<
                DualYieldTokenAttributes,
                DexError,
            >(DexError::MustExitWithFullPosition),
            payment.token_identifier == self.dual_yield_token_id_spec() && payment.amount
                == full_attributes.total_supply() && (exit_amount == 0 || exit_amount
                > payment.amount) ==> r == Err::<DualYieldTokenAttributes, DexError>(
                DexError::InvalidExitAmount,
            ),
            payment.token_identifier == self.dual_yield_token_id_spec() && payment.amount
                == full_attributes.total_supply() && 0 < exit_amount <= payment.amount ==> r
                == Ok::<DualYieldTokenAttributes, DexError>(
                full_attributes.into_part_spec(exit_amount),
            ),
    ;

    /// The remainder after a partial unstake, re-minted as a fresh dual-yield
    /// token; a full exit leaves nothing behind.
    fn unstake_farm_tokens_response(
        &self,
        full_attributes: DualYieldTokenAttributes,
        remaining_lp_farm_tokens: u64,
        remaining_staking_farm_tokens: u64,
        exit_amount: u64,
    ) -> (r: Option<(DualYieldTokenAttributes, u64)>)
        ensures
            exit_amount == full_attributes.total_supply() ==> r is None,
            exit_amount != full_attributes.total_supply() ==> (r matches Some(p) && p.0
                == (DualYieldTokenAttributes {
                lp_farm_token_nonce: full_attributes.lp_farm_token_nonce,
                lp_farm_token_amount: remaining_lp_farm_tokens,
                staking_farm_token_nonce: full_attributes.staking_farm_token_nonce,
                staking_farm_token_amount: remaining_staking_farm_tokens,
            }) && p.1 == p.0.total_supply()),
    ;
}

impl FarmStakingProxy for FarmStakingProxyState {
    open spec fn lp_farm_token_id_spec(self) -> u64 {
        self.lp_farm_token_id
    }

    open spec fn staking_farm_token_id_spec(self) -> u64 {
        self.staking_farm_token_id
    }

    open spec fn dual_yield_token_id_spec(self) -> u64 {
        self.dual_yield_token_id
    }

    fn stake_farm_tokens_request(
        &self,
        lp_farm_token_payment: &EsdtTokenPayment,
        additional_payments: &Vec<(EsdtTokenPayment, DualYieldTokenAttributes)>,
    ) -> (r: Result<(Vec<EsdtTokenPayment>, Vec<EsdtTokenPayment>), DexError>)
    {
        if lp_farm_token_payment.token_identifier != self.lp_farm_token_id {
            return Err(DexError::InvalidFirstPayment);
        }
        let mut additional_staking_farm_tokens: Vec<EsdtTokenPayment> = Vec::new();
        let mut additional_lp_farm_tokens: Vec<EsdtTokenPayment> = Vec::new();
        let mut i: usize = 0;
        while i < additional_payments.len()
            invariant
                lp_farm_token_payment.token_identifier == self.lp_farm_token_id,
                i <= additional_payments@.len(),
                additional_staking_farm_tokens@.len() == i,
                additional_lp_farm_tokens@.len() == i,
                forall|k: int|
                    0 <= k < i ==> (#[trigger] additional_payments@[k].0).token_identifier
                        == self.dual_yield_token_id,
                forall|k: int|
                    0 <= k < i ==> (#[trigger] additional_staking_farm_tokens@[k])
                        == (EsdtTokenPayment {
                        token_identifier: self.staking_farm_token_id,
                        token_nonce: additional_payments@[k].1.staking_farm_token_nonce,
                        amount: additional_payments@[k].1.staking_farm_token_amount,
                    }),
                forall|k: int|
                    0 <= k < i ==> (#[trigger] additional_lp_farm_tokens@[k])
                        == (EsdtTokenPayment {
                        token_identifier: self.lp_farm_token_id,
                        token_nonce: additional_payments@[k].1.lp_farm_token_nonce,
                        amount: additional_payments@[k].1.lp_farm_token_amount,
                    }),
            decreases additional_payments@.len() - i,
        {
            let (payment, attributes) = additional_payments[i];
            proof {
                assert(payment == additional_payments@[i as int].0);
                assert(attributes == additional_payments@[i as int].1);
            }
            if payment.token_identifier != self.dual_yield_token_id {
                proof {
                    assert(exists|k: int|
                        0 <= k < additional_payments@.len() && (#[trigger] additional_payments@[
                        k].0).token_identifier != self.dual_yield_token_id);
                }
                return Err(DexError::InvalidPaymentToken);
            }
            additional_staking_farm_tokens.push(
                EsdtTokenPayment {
                    token_identifier: self.staking_farm_token_id,
                    token_nonce: attributes.staking_farm_token_nonce,
                    amount: attributes.staking_farm_token_amount,
                },
            );
            additional_lp_farm_tokens.push(
                EsdtTokenPayment {
                    token_identifier: self.lp_farm_token_id,
                    token_nonce: attributes.lp_farm_token_nonce,
                    amount: attributes.lp_farm_token_amount,
                },
            );
            i = i + 1;
        }
        Ok((additional_staking_farm_tokens, additional_lp_farm_tokens))
    }

    fn stake_farm_tokens_response(
        &self,
        merged_lp_farm_tokens: &EsdtTokenPayment,
        received_staking_farm_token: &EsdtTokenPayment,
    ) -> (r: (DualYieldTokenAttributes, u64))
    {
        let attributes = DualYieldTokenAttributes {
            lp_farm_token_nonce: merged_lp_farm_tokens.token_nonce,
            lp_farm_token_amount: merged_lp_farm_tokens.amount,
            staking_farm_token_nonce: received_staking_farm_token.token_nonce,
            staking_farm_token_amount: received_staking_farm_token.amount,
        };
        let supply = attributes.get_total_supply();
        (attributes, supply)
    }

    fn claim_dual_yield_request(
        &self,
        payment: &EsdtTokenPayment,
        attributes: DualYieldTokenAttributes,
    ) -> (r: Result<DualYieldTokenAttributes, DexError>)
    {
        if payment.token_identifier != self.dual_yield_token_id {
            return Err(DexError::InvalidPaymentToken);
        }
        Ok(attributes)
    }

    fn claim_dual_yield_response(
        &self,
        new_lp_farm_tokens: &EsdtTokenPayment,
        new_staking_farm_tokens: &EsdtTokenPayment,
    ) -> (r: (DualYieldTokenAttributes, u64))
    {
        let attributes = DualYieldTokenAttributes {
            lp_farm_token_nonce: new_lp_farm_tokens.token_nonce,
            lp_farm_token_amount: new_lp_farm_tokens.amount,
            staking_farm_token_nonce: new_staking_farm_tokens.token_nonce,
            staking_farm_token_amount: new_staking_farm_tokens.amount,
        };
        let supply = attributes.get_total_supply();
        (attributes, supply)
    }

    fn unstake_farm_tokens_request(
        &self,
        payment: &EsdtTokenPayment,
        full_attributes: DualYieldTokenAttributes,
        exit_amount: u64,
    ) -> (r: Result<DualYieldTokenAttributes, DexError>)
    {
        if payment.token_identifier != self.dual_yield_token_id {
            return Err(DexError::InvalidPaymentToken);
        }
        let total_for_nonce = full_attributes.get_total_supply();
        if payment.amount != total_for_nonce {
            return Err(DexError::MustExitWithFullPosition);
        }
        if exit_amount == 0 || exit_amount > payment.amount {
            return Err(DexError::InvalidExitAmount);
        }
        Ok(full_attributes.into_part(exit_amount))
    }

    fn unstake_farm_tokens_response(
        &self,
        full_attributes: DualYieldTokenAttributes,
        remaining_lp_farm_tokens: u64,
        remaining_staking_farm_tokens: u64,
        exit_amount: u64,
    ) -> (r: Option<(DualYieldTokenAttributes, u64)>)
    {
        if exit_amount == full_attributes.get_total_supply() {
            return None;
        }
        let new_token_attributes = DualYieldTokenAttributes {
            lp_farm_token_nonce: full_attributes.lp_farm_token_nonce,
            lp_farm_token_amount: remaining_lp_farm_tokens,
            staking_farm_token_nonce: full_attributes.staking_farm_token_nonce,
            staking_farm_token_amount: remaining_staking_farm_tokens,
        };
        let new_total = new_token_attributes.get_total_supply();
        Some((new_token_attributes, new_total))
    }
}

} // verus!
