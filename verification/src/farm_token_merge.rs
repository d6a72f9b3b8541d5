//! The token merge engine: aggregates several farm positions (possibly plus
//! one synthetic "virtual" position) into a single position whose attributes
//! are recomputed field by field, without losing any of the total amount.

use vstd::prelude::*;
use crate::errors::DexError;
use crate::farm_token::{FarmToken, FarmTokenAttributes};
use crate::math;
use crate::math::{ceil_div, sum_products, sum_weights, ValueWeight};
use crate::payment::EsdtTokenPayment;

verus! {

/// Sum of the held token amounts of a position list.
pub open spec fn total_amount(s: Seq<FarmToken>) -> int
    decreases s.len(),
{
    if s.len() == 0 {
        0
    } else {
        total_amount(s.drop_last()) + s.last().token_amount.amount
    }
}

/// Sum of `reward_per_share * amount` over a position list.
pub open spec fn sum_rps_products(s: Seq<FarmToken>) -> int
    decreases s.len(),
{
    if s.len() == 0 {
        0
    } else {
        sum_rps_products(s.drop_last()) + s.last().attributes.reward_per_share
            * s.last().token_amount.amount
    }
}

/// Sum of `original_entering_epoch * amount` over a position list.
pub open spec fn sum_oee_products(s: Seq<FarmToken>) -> int
    decreases s.len(),
{
    if s.len() == 0 {
        0
    } else {
        sum_oee_products(s.drop_last()) + s.last().attributes.original_entering_epoch
            * s.last().token_amount.amount
    }
}

/// Sum of the `current_farm_amount` attributes of a position list.
pub open spec fn sum_current(s: Seq<FarmToken>) -> int
    decreases s.len(),
{
    if s.len() == 0 {
        0
    } else {
        sum_current(s.drop_last()) + s.last().attributes.current_farm_amount
    }
}

/// The part of a position's original deposit that a held amount stands for,
/// reconstructed proportionally (floor).
pub open spec fn initial_part(t: FarmToken) -> int {
    t.token_amount.amount * t.attributes.initial_farming_amount
        / t.attributes.current_farm_amount as int
}

/// The part of a position's compounded reward that a held amount stands for.
pub open spec fn compounded_part(t: FarmToken) -> int {
    t.token_amount.amount * t.attributes.compounded_reward
        / t.attributes.current_farm_amount as int
}

pub open spec fn sum_initial_parts(s: Seq<FarmToken>) -> int
    decreases s.len(),
{
    if s.len() == 0 {
        0
    } else {
        sum_initial_parts(s.drop_last()) + initial_part(s.last())
    }
}

pub open spec fn sum_compounded_parts(s: Seq<FarmToken>) -> int
    decreases s.len(),
{
    if s.len() == 0 {
        0
    } else {
        sum_compounded_parts(s.drop_last()) + compounded_part(s.last())
    }
}

/// Whether some position's proportional original-deposit share floors to zero
/// (the merge refuses to silently lose it).
pub open spec fn has_zero_initial_part(s: Seq<FarmToken>) -> bool {
    exists|i: int| 0 <= i < s.len() && initial_part(s[i]) == 0
}

/// A position whose attributes are consistent and whose held amount does not
/// exceed what the position was created with (the held amount may be zero:
/// that is rejected at run time, not assumed away).
pub open spec fn mergeable(t: FarmToken) -> bool {
    &&& t.attributes.consistent()
    &&& t.token_amount.amount <= t.attributes.current_farm_amount
}

pub open spec fn all_mergeable(s: Seq<FarmToken>) -> bool {
    forall|i: int| 0 <= i < s.len() ==> mergeable(#[trigger] s[i])
}

/// The first validation error a payment list raises: a zero amount, or a
/// token that is not this farm's position token.
pub open spec fn first_payment_error(s: Seq<FarmToken>, farm_token_id: u64) -> Option<DexError>
    decreases s.len(),
{
    if s.len() == 0 {
        None
    } else if s[0].token_amount.amount == 0 {
        Some(DexError::ZeroEntryAmount)
    } else if s[0].token_amount.token_identifier != farm_token_id {
        Some(DexError::NotAFarmToken)
    } else {
        first_payment_error(s.skip(1), farm_token_id)
    }
}

/// The position list a merge works on: the payments, plus the virtual
/// position when one is present.
pub open spec fn combined_positions(s: Seq<FarmToken>, replic: Option<FarmToken>) -> Seq<
    FarmToken,
> {
    match replic {
        Some(r) => s.push(r),
        None => s,
    }
}

/// The attributes of the merged position: ceiling-weighted reward-per-share,
/// proportional original-deposit and compounded shares, exact total amount,
/// the merge epoch as the new entering epoch, and the amount-weighted average
/// of the constituents' original entering epochs as the preserved,
/// fairness-weighted vesting start.
pub open spec fn merged_attributes(s: Seq<FarmToken>, current_epoch: u64) -> FarmTokenAttributes {
    FarmTokenAttributes {
        reward_per_share: ceil_div(sum_rps_products(s), total_amount(s)) as u64,
        entering_epoch: current_epoch,
        original_entering_epoch: (sum_oee_products(s) / total_amount(s)) as u64,
        initial_farming_amount: sum_initial_parts(s) as u64,
        compounded_reward: sum_compounded_parts(s) as u64,
        current_farm_amount: total_amount(s) as u64,
    }
}

/// The dataset the reward-per-share average runs over: each position's
/// snapshot weighted by its held amount.
pub open spec fn rps_dataset(s: Seq<FarmToken>) -> Seq<ValueWeight> {
    Seq::new(s.len(), |i: int| ValueWeight {
        value: s[i].attributes.reward_per_share,
        weight: s[i].token_amount.amount,
    })
}

pub proof fn lemma_rps_dataset_sums(s: Seq<FarmToken>)
    ensures
        sum_weights(rps_dataset(s)) == total_amount(s),
        sum_products(rps_dataset(s)) == sum_rps_products(s),
    decreases s.len(),
{
    if s.len() > 0 {
        lemma_rps_dataset_sums(s.drop_last());
        assert(rps_dataset(s).drop_last() =~= rps_dataset(s.drop_last()));
    }
}

/// The dataset the original-entering-epoch average runs over: each
/// position's original entering epoch weighted by its held amount.
pub open spec fn oee_dataset(s: Seq<FarmToken>) -> Seq<ValueWeight> {
    Seq::new(s.len(), |i: int| ValueWeight {
        value: s[i].attributes.original_entering_epoch,
        weight: s[i].token_amount.amount,
    })
}

pub proof fn lemma_oee_dataset_sums(s: Seq<FarmToken>)
    ensures
        sum_weights(oee_dataset(s)) == total_amount(s),
        sum_products(oee_dataset(s)) == sum_oee_products(s),
    decreases s.len(),
{
    if s.len() > 0 {
        lemma_oee_dataset_sums(s.drop_last());
        assert(oee_dataset(s).drop_last() =~= oee_dataset(s.drop_last()));
    }
}

/// All the per-position sums are nonnegative, and each position's
/// proportional shares stay under its attributes.
pub proof fn lemma_position_sums_nonnegative(s: Seq<FarmToken>)
    requires
        forall|i: int| 0 <= i < s.len() ==> (#[trigger] s[i]).sound(),
    ensures
        0 <= total_amount(s) <= sum_current(s),
        0 <= sum_initial_parts(s) <= sum_current(s),
        0 <= sum_compounded_parts(s) <= sum_current(s),
        sum_rps_products(s) >= 0,
    decreases s.len(),
{
    if s.len() > 0 {
        let t = s.last();
        assert(forall|i: int|
            0 <= i < s.drop_last().len() ==> s.drop_last()[i] == s[i]);
        lemma_position_sums_nonnegative(s.drop_last());
        assert(t.sound()) by {
            assert(s[s.len() - 1] == t);
        }
        math::lemma_rule_of_three_le(
            t.token_amount.amount as int,
            t.attributes.current_farm_amount as int,
            t.attributes.initial_farming_amount as int,
        );
        math::lemma_rule_of_three_le(
            t.token_amount.amount as int,
            t.attributes.current_farm_amount as int,
            t.attributes.compounded_reward as int,
        );
        assert(t.attributes.reward_per_share * t.token_amount.amount >= 0) by (nonlinear_arith)
            requires
                t.attributes.reward_per_share >= 0,
                t.token_amount.amount >= 0,
        ;
    }
}

/// A non-empty list of live positions has a positive total.
pub proof fn lemma_total_amount_positive(s: Seq<FarmToken>)
    requires
        s.len() > 0,
        forall|i: int| 0 <= i < s.len() ==> (#[trigger] s[i]).token_amount.amount > 0,
    ensures
        total_amount(s) > 0,
    decreases s.len(),
{
    if s.len() > 1 {
        assert(forall|i: int|
            0 <= i < s.drop_last().len() ==> s.drop_last()[i] == s[i]);
        lemma_total_amount_positive(s.drop_last());
    } else {
        assert(s.drop_last().len() == 0);
        assert(total_amount(s.drop_last()) == 0);
    }
    assert(s[s.len() - 1] == s.last());
}

/// Merging keeps the bookkeeping consistent: the merged original-deposit and
/// compounded shares never overshoot the merged total, so rounding always
/// favours the protocol and a merged position can never claim more than its
/// constituents could.
pub proof fn lemma_merge_consistent(s: Seq<FarmToken>)
    requires
        forall|i: int| 0 <= i < s.len() ==> (#[trigger] s[i]).sound(),
    ensures
        sum_initial_parts(s) + sum_compounded_parts(s) <= total_amount(s),
    decreases s.len(),
{
    if s.len() > 0 {
        let t = s.last();
        assert(forall|i: int|
            0 <= i < s.drop_last().len() ==> s.drop_last()[i] == s[i]);
        lemma_merge_consistent(s.drop_last());
        assert(t.sound()) by {
            assert(s[s.len() - 1] == t);
        }
        math::lemma_floor_parts_le(
            t.token_amount.amount as int,
            t.attributes.initial_farming_amount as int,
            t.attributes.compounded_reward as int,
            t.attributes.current_farm_amount as int,
        );
    }
}

/// Merging whole positions loses nothing at all: when every held amount is
/// the full amount its position was created with and the positions' books are
/// exact, the merged original-deposit and compounded shares add up to the
/// merged total exactly.
pub proof fn lemma_whole_position_merge_exact(s: Seq<FarmToken>)
    requires
        forall|i: int| 0 <= i < s.len() ==> (#[trigger] s[i]).valid(),
        forall|i: int|
            0 <= i < s.len() ==> (#[trigger] s[i]).token_amount.amount
                == s[i].attributes.current_farm_amount,
    ensures
        sum_initial_parts(s) + sum_compounded_parts(s) == total_amount(s),
    decreases s.len(),
{
    if s.len() > 0 {
        let t = s.last();
        assert(forall|i: int|
            0 <= i < s.drop_last().len() ==> s.drop_last()[i] == s[i]);
        lemma_whole_position_merge_exact(s.drop_last());
        assert(t.valid() && t.token_amount.amount == t.attributes.current_farm_amount) by {
            assert(s[s.len() - 1] == t);
        }
        let c = t.attributes.current_farm_amount as int;
        vstd::arithmetic::div_mod::lemma_div_multiples_vanish(
            t.attributes.initial_farming_amount as int,
            c,
        );
        vstd::arithmetic::div_mod::lemma_div_multiples_vanish(
            t.attributes.compounded_reward as int,
            c,
        );
        assert(c * t.attributes.initial_farming_amount
            == t.token_amount.amount * t.attributes.initial_farming_amount)
            by (nonlinear_arith)
            requires
                t.token_amount.amount == c,
        ;
        assert(c * t.attributes.compounded_reward
            == t.token_amount.amount * t.attributes.compounded_reward) by (nonlinear_arith)
            requires
                t.token_amount.amount == c,
        ;
    }
}

/// Merge conservation: when whole positions are merged (each held amount is
/// the full amount the position was created with), the merged position's
/// `current_farm_amount` is exactly the sum of the inputs'
/// `current_farm_amount` fields - no rounding loss on the total.
pub proof fn lemma_merge_conserves_total(s: Seq<FarmToken>)
    requires
        forall|i: int|
            0 <= i < s.len() ==> (#[trigger] s[i]).token_amount.amount
                == s[i].attributes.current_farm_amount,
    ensures
        total_amount(s) == sum_current(s),
    decreases s.len(),
{
    if s.len() > 0 {
        assert(forall|i: int|
            0 <= i < s.drop_last().len() ==> s.drop_last()[i] == s[i]);
        lemma_merge_conserves_total(s.drop_last());
        assert(s[s.len() - 1] == s.last());
    }
}

/// The merge engine of one farm, tied to that farm's position token.
pub struct FarmTokenMergeModule {
    pub farm_token_id: u64,
}

impl FarmTokenMergeModule {
    /// Aggregates positions into the attributes of one merged position.
    ///
    /// Exactly one input (and no virtual position beside it) is returned
    /// unchanged, so a trivial merge never rounds. Otherwise every attribute
    /// is recomputed: the reward-per-share as a ceiling-rounded weighted
    /// average, the original entering epoch as the amount-weighted average of
    /// the constituents' original entering epochs, the original-deposit and
    /// compounded shares proportionally (the original-deposit share must not
    /// floor to zero), and the total as the exact sum of the held amounts.
    pub fn get_merged_farm_token_attributes(
        &self,
        payments: &Vec<FarmToken>,
        replic: Option<FarmToken>,
        current_epoch: u64,
    ) -> (r: Result<FarmTokenAttributes, DexError>)
        requires
            all_mergeable(payments@),
            replic is Some ==> replic->0.sound(),
            sum_current(combined_positions(payments@, replic)) <= u64::MAX as int,
        ensures
            ({
                let combined = combined_positions(payments@, replic);
                if payments@.len() == 0 && replic is None {
                    r == Err::<FarmTokenAttributes, DexError>(DexError::NoTokensToMerge)
                } else if first_payment_error(payments@, self.farm_token_id) is Some {
                    r == Err::<FarmTokenAttributes, DexError>(
                        first_payment_error(payments@, self.farm_token_id)->0,
                    )
                } else if combined.len() == 1 {
                    r == Ok::<FarmTokenAttributes, DexError>(combined[0].attributes)
                } else if has_zero_initial_part(combined) {
                    r == Err::<FarmTokenAttributes, DexError>(DexError::ZeroResult)
                } else {
                    r == Ok::<FarmTokenAttributes, DexError>(
                        merged_attributes(combined, current_epoch),
                    )
                }
            }),
    {
        let ghost combined = combined_positions(payments@, replic);
        if payments.len() == 0 && replic.is_none() {
            return Err(DexError::NoTokensToMerge);
        }

        let mut tokens: Vec<FarmToken> = Vec::new();
        let mut i: usize = 0;
        proof {
            assert(payments@.skip(0) =~= payments@);
        }
        while i < payments.len()
            invariant
                i <= payments.len(),
                tokens@ =~= payments@.subrange(0, i as int),
                first_payment_error(payments@.skip(i as int), self.farm_token_id)
                    == first_payment_error(payments@, self.farm_token_id),
                forall|k: int|
                    0 <= k < i ==> (#[trigger] payments@[k]).token_amount.amount != 0
                        && payments@[k].token_amount.token_identifier == self.farm_token_id,
            decreases payments.len() - i,
        {
            let entry = payments[i];
            proof {
                assert(payments@.skip(i as int)[0] == payments@[i as int]);
            }
            if entry.token_amount.amount == 0 {
                return Err(DexError::ZeroEntryAmount);
            }
            if entry.token_amount.token_identifier != self.farm_token_id {
                return Err(DexError::NotAFarmToken);
            }
            proof {
                assert(payments@.skip(i as int).skip(1) =~= payments@.skip(i as int + 1));
            }
            tokens.push(entry);
            i = i + 1;
        }
        proof {
            assert(payments@.subrange(0, payments@.len() as int) =~= payments@);
        }

        if let Some(r) = replic {
            tokens.push(r);
        }
        proof {
            assert(tokens@ =~= combined);
            assert(all_mergeable(combined)) by {
                assert(forall|k: int|
                    0 <= k < payments@.len() ==> combined[k] == payments@[k]);
            }
        }

        if tokens.len() == 1 {
            return Ok(tokens[0].attributes);
        }

        proof {
            assert(forall|k: int|
                0 <= k < tokens@.len() ==> (#[trigger] tokens@[k]).sound()) by {
                if replic is Some {
                    assert(forall|k: int|
                        0 <= k < payments@.len() ==> tokens@[k] == payments@[k]);
                    assert(tokens@[tokens@.len() - 1] == replic->0);
                } else {
                    assert(forall|k: int|
                        0 <= k < payments@.len() ==> tokens@[k] == payments@[k]);
                }
            }
            assert(forall|k: int|
                0 <= k < tokens@.len() ==> (#[trigger] tokens@[k]).token_amount.amount > 0);
            lemma_total_amount_positive(tokens@);
        }
        proof {
            lemma_position_sums_nonnegative(tokens@);
        }
        let reward_per_share = self.aggregated_reward_per_share(&tokens);
        let original_entering_epoch = self.aggregated_original_entering_epoch(&tokens);
        let initial_farming_amount = match self.aggregated_initial_farming_amount(&tokens) {
            Ok(v) => v,
            Err(e) => {
                return Err(e);
            },
        };
        let compounded_reward = self.aggregated_compounded_reward(&tokens);
        let current_farm_amount = self.aggregated_current_farm_amount(&tokens);

        Ok(
            FarmTokenAttributes {
                reward_per_share,
                entering_epoch: current_epoch,
                original_entering_epoch,
                initial_farming_amount,
                compounded_reward,
                current_farm_amount,
            },
        )
    }

    /// The merged reward-per-share: the ceiling-rounded average of the
    /// positions' snapshots, weighted by their held amounts.
    pub fn aggregated_reward_per_share(&self, tokens: &Vec<FarmToken>) -> (r: u64)
        requires
            0 < total_amount(tokens@) <= u64::MAX as int,
        ensures
            r == ceil_div(sum_rps_products(tokens@), total_amount(tokens@)),
    {
        let mut dataset: Vec<ValueWeight> = Vec::new();
        let mut i: usize = 0;
        while i < tokens.len()
            invariant
                i <= tokens.len(),
                dataset@ =~= rps_dataset(tokens@).subrange(0, i as int),
            decreases tokens.len() - i,
        {
            let entry = tokens[i];
            dataset.push(
                ValueWeight {
                    value: entry.attributes.reward_per_share,
                    weight: entry.token_amount.amount,
                },
            );
            i = i + 1;
        }
        proof {
            assert(dataset@ =~= rps_dataset(tokens@));
            lemma_rps_dataset_sums(tokens@);
            math::lemma_weighted_sums_fit(rps_dataset(tokens@));
        }
        math::weighted_average_ceil(&dataset)
    }

    /// The merged original entering epoch: the average of the positions'
    /// original entering epochs, weighted by their held amounts and rounded
    /// down, preserving a fairness-weighted vesting start across merges.
    pub fn aggregated_original_entering_epoch(&self, tokens: &Vec<FarmToken>) -> (r: u64)
        requires
            0 < total_amount(tokens@) <= u64::MAX as int,
        ensures
            r == sum_oee_products(tokens@) / total_amount(tokens@),
    {
        let mut dataset: Vec<ValueWeight> = Vec::new();
        let mut i: usize = 0;
        while i < tokens.len()
            invariant
                i <= tokens.len(),
                dataset@ =~= oee_dataset(tokens@).subrange(0, i as int),
            decreases tokens.len() - i,
        {
            let entry = tokens[i];
            dataset.push(
                ValueWeight {
                    value: entry.attributes.original_entering_epoch,
                    weight: entry.token_amount.amount,
                },
            );
            i = i + 1;
        }
        proof {
            assert(dataset@ =~= oee_dataset(tokens@));
            lemma_oee_dataset_sums(tokens@);
            math::lemma_weighted_sums_fit(oee_dataset(tokens@));
        }
        math::weighted_average(&dataset)
    }

    /// The merged original-deposit amount: each position contributes its held
    /// amount's proportional share of its original deposit; a share that
    /// floors to zero aborts the merge with `ZeroResult`.
    pub fn aggregated_initial_farming_amount(&self, tokens: &Vec<FarmToken>) -> (r: Result<
        u64,
        DexError,
    >)
        requires
            all_mergeable(tokens@),
            forall|i: int| 0 <= i < tokens@.len() ==> (#[trigger] tokens@[i]).sound(),
            sum_current(tokens@) <= u64::MAX as int,
        ensures
            has_zero_initial_part(tokens@) ==> r == Err::<u64, DexError>(DexError::ZeroResult),
            !has_zero_initial_part(tokens@) ==> r == Ok::<u64, DexError>(
                sum_initial_parts(tokens@) as u64,
            ),
    {
        let mut sum: u64 = 0;
        let mut i: usize = 0;
        while i < tokens.len()
            invariant
                i <= tokens.len(),
                all_mergeable(tokens@),
                forall|k: int| 0 <= k < tokens@.len() ==> (#[trigger] tokens@[k]).sound(),
                sum_current(tokens@) <= u64::MAX as int,
                sum == sum_initial_parts(tokens@.subrange(0, i as int)),
                forall|k: int| 0 <= k < i ==> initial_part(#[trigger] tokens@[k]) != 0,
            decreases tokens.len() - i,
        {
            let entry = tokens[i];
            proof {
                lemma_position_sums_nonnegative(tokens@.subrange(0, i as int));
                lemma_sum_current_prefix(tokens@, i as int + 1);
                assert(tokens@.subrange(0, i as int + 1).drop_last() =~= tokens@.subrange(
                    0,
                    i as int,
                ));
                math::lemma_rule_of_three_le(
                    entry.token_amount.amount as int,
                    entry.attributes.current_farm_amount as int,
                    entry.attributes.initial_farming_amount as int,
                );
            }
            let part = match math::rule_of_three_non_zero_result(
                entry.token_amount.amount,
                entry.attributes.current_farm_amount,
                entry.attributes.initial_farming_amount,
            ) {
                Ok(v) => v,
                Err(e) => {
                    proof {
                        assert(initial_part(tokens@[i as int]) == 0);
                        assert(has_zero_initial_part(tokens@));
                    }
                    return Err(e);
                },
            };
            sum = sum + part;
            i = i + 1;
        }
        proof {
            assert(tokens@.subrange(0, tokens@.len() as int) =~= tokens@);
        }
        Ok(sum)
    }

    /// The merged compounded reward: proportional shares, floored; a zero
    /// share is legitimate here.
    pub fn aggregated_compounded_reward(&self, tokens: &Vec<FarmToken>) -> (r: u64)
        requires
            all_mergeable(tokens@),
            forall|i: int| 0 <= i < tokens@.len() ==> (#[trigger] tokens@[i]).sound(),
            sum_current(tokens@) <= u64::MAX as int,
        ensures
            r == sum_compounded_parts(tokens@),
    {
        let mut sum: u64 = 0;
        let mut i: usize = 0;
        while i < tokens.len()
            invariant
                i <= tokens.len(),
                all_mergeable(tokens@),
                forall|k: int| 0 <= k < tokens@.len() ==> (#[trigger] tokens@[k]).sound(),
                sum_current(tokens@) <= u64::MAX as int,
                sum == sum_compounded_parts(tokens@.subrange(0, i as int)),
            decreases tokens.len() - i,
        {
            let entry = tokens[i];
            proof {
                lemma_position_sums_nonnegative(tokens@.subrange(0, i as int));
                lemma_sum_current_prefix(tokens@, i as int + 1);
                assert(tokens@.subrange(0, i as int + 1).drop_last() =~= tokens@.subrange(
                    0,
                    i as int,
                ));
                math::lemma_rule_of_three_le(
                    entry.token_amount.amount as int,
                    entry.attributes.current_farm_amount as int,
                    entry.attributes.compounded_reward as int,
                );
            }
            let part = math::rule_of_three(
                entry.token_amount.amount,
                entry.attributes.current_farm_amount,
                entry.attributes.compounded_reward,
            );
            sum = sum + part;
            i = i + 1;
        }
        proof {
            assert(tokens@.subrange(0, tokens@.len() as int) =~= tokens@);
        }
        sum
    }

    /// The merged position's total value: the exact sum of the held amounts.
    pub fn aggregated_current_farm_amount(&self, tokens: &Vec<FarmToken>) -> (r: u64)
        requires
            forall|i: int| 0 <= i < tokens@.len() ==> (#[trigger] tokens@[i]).sound(),
            sum_current(tokens@) <= u64::MAX as int,
        ensures
            r == total_amount(tokens@),
    {
        let mut aggregated_amount: u64 = 0;
        let mut i: usize = 0;
        while i < tokens.len()
            invariant
                i <= tokens.len(),
                forall|k: int| 0 <= k < tokens@.len() ==> (#[trigger] tokens@[k]).sound(),
                sum_current(tokens@) <= u64::MAX as int,
                aggregated_amount == total_amount(tokens@.subrange(0, i as int)),
            decreases tokens.len() - i,
        {
            proof {
                lemma_position_sums_nonnegative(tokens@.subrange(0, i as int));
                lemma_sum_current_prefix(tokens@, i as int + 1);
                assert(tokens@.subrange(0, i as int + 1).drop_last() =~= tokens@.subrange(
                    0,
                    i as int,
                ));
                lemma_position_sums_nonnegative(tokens@.subrange(0, i as int + 1));
            }
            aggregated_amount = aggregated_amount + tokens[i].token_amount.amount;
            i = i + 1;
        }
        proof {
            assert(tokens@.subrange(0, tokens@.len() as int) =~= tokens@);
        }
        aggregated_amount
    }

    /// Merges the payments and hands back the payment of the single merged
    /// token (minted at the edge; nonce assignment is the ledger's) together
    /// with its attributes. All input tokens are burned and exactly one
    /// output is minted, atomically, by the surrounding transaction.
    pub fn merge_farm_tokens(&self, payments: &Vec<FarmToken>, current_epoch: u64) -> (r: Result<
        (EsdtTokenPayment, FarmTokenAttributes),
        DexError,
    >)
        requires
            all_mergeable(payments@),
            sum_current(payments@) <= u64::MAX as int,
        ensures
            ({
                let merged = self.get_merged_spec(payments@, None, current_epoch);
                match r {
                    Ok((payment, attrs)) => {
                        &&& merged == Ok::<FarmTokenAttributes, DexError>(attrs)
                        &&& payment.token_identifier == self.farm_token_id
                        &&& payment.amount == attrs.current_farm_amount
                    },
                    Err(e) => merged == Err::<FarmTokenAttributes, DexError>(e),
                }
            }),
    {
        let attrs = match self.get_merged_farm_token_attributes(payments, None, current_epoch) {
            Ok(a) => a,
            Err(e) => {
                return Err(e);
            },
        };
        let payment = EsdtTokenPayment::new(self.farm_token_id, 0, attrs.current_farm_amount);
        Ok((payment, attrs))
    }

    /// What `get_merged_farm_token_attributes` returns, as one specification.
    pub open spec fn get_merged_spec(
        &self,
        payments: Seq<FarmToken>,
        replic: Option<FarmToken>,
        current_epoch: u64,
    ) -> Result<FarmTokenAttributes, DexError> {
        let combined = combined_positions(payments, replic);
        if payments.len() == 0 && replic is None {
            Err(DexError::NoTokensToMerge)
        } else if first_payment_error(payments, self.farm_token_id) is Some {
            Err(first_payment_error(payments, self.farm_token_id)->0)
        } else if combined.len() == 1 {
            Ok(combined[0].attributes)
        } else if has_zero_initial_part(combined) {
            Err(DexError::ZeroResult)
        } else {
            Ok(merged_attributes(combined, current_epoch))
        }
    }
}

/// A prefix of the `current_farm_amount` sum never exceeds the whole.
pub proof fn lemma_sum_current_prefix(s: Seq<FarmToken>, n: int)
    requires
        0 <= n <= s.len(),
    ensures
        sum_current(s.subrange(0, n)) <= sum_current(s),
    decreases s.len() - n,
{
    if n == s.len() {
        assert(s.subrange(0, n) =~= s);
    } else {
        lemma_sum_current_prefix(s, n + 1);
        assert(s.subrange(0, n + 1).drop_last() =~= s.subrange(0, n));
    }
}

} // verus!
