//! Proportional-scaling and weighted-average primitives used wherever token
//! amounts are split or recombined.

use vstd::prelude::*;
use crate::errors::DexError;

verus! {

/// A value together with the weight it carries in an average.
#[derive(Clone, Copy, Debug, PartialEq, Eq, Structural)]
pub struct ValueWeight {
    pub value: u64,
    pub weight: u64,
}

/// Ceiling division of `a` by `b`.
pub open spec fn ceil_div(a: int, b: int) -> int
    recommends
        b > 0,
{
    (a + b - 1) / b
}

/// Sum of the weights of a dataset.
pub open spec fn sum_weights(s: Seq<ValueWeight>) -> int
    decreases s.len(),
{
    if s.len() == 0 {
        0
    } else {
        sum_weights(s.drop_last()) + s.last().weight
    }
}

/// Sum of `value * weight` over a dataset.
pub open spec fn sum_products(s: Seq<ValueWeight>) -> int
    decreases s.len(),
{
    if s.len() == 0 {
        0
    } else {
        sum_products(s.drop_last()) + s.last().value * s.last().weight
    }
}

/// Largest value in a dataset (zero when empty).
pub open spec fn max_value(s: Seq<ValueWeight>) -> int
    decreases s.len(),
{
    if s.len() == 0 {
        0
    } else if s.last().value >= max_value(s.drop_last()) {
        s.last().value as int
    } else {
        max_value(s.drop_last())
    }
}

pub proof fn lemma_sums_nonnegative(s: Seq<ValueWeight>)
    ensures
        sum_weights(s) >= 0,
        sum_products(s) >= 0,
        0 <= max_value(s) <= u64::MAX as int,
    decreases s.len(),
{
    if s.len() > 0 {
        lemma_sums_nonnegative(s.drop_last());
        assert(s.last().value * s.last().weight >= 0) by (nonlinear_arith)
            requires
                s.last().value >= 0,
                s.last().weight >= 0,
        ;
    }
}

/// The weighted sum never exceeds the largest value times the total weight.
pub proof fn lemma_sum_products_bound(s: Seq<ValueWeight>)
    ensures
        sum_products(s) <= max_value(s) * sum_weights(s),
    decreases s.len(),
{
    if s.len() > 0 {
        let init = s.drop_last();
        let v = s.last().value as int;
        let w = s.last().weight as int;
        lemma_sum_products_bound(init);
        lemma_sums_nonnegative(init);
        assert(max_value(init) * sum_weights(init) <= max_value(s) * sum_weights(init))
            by (nonlinear_arith)
            requires
                max_value(init) <= max_value(s),
                sum_weights(init) >= 0,
        ;
        assert(v * w <= max_value(s) * w) by (nonlinear_arith)
            requires
                v <= max_value(s),
                w >= 0,
        ;
        assert(max_value(s) * sum_weights(init) + max_value(s) * w
            == max_value(s) * sum_weights(s)) by (nonlinear_arith)
            requires
                sum_weights(s) == sum_weights(init) + w,
        ;
    }
}

/// A proportional share of `target` never exceeds `target` itself when the
/// part is no larger than the whole.
pub proof fn lemma_rule_of_three_le(part: int, whole: int, target: int)
    requires
        0 <= part <= whole,
        0 < whole,
        0 <= target,
    ensures
        0 <= part * target / whole <= target,
{
    assert(part * target <= whole * target) by (nonlinear_arith)
        requires
            0 <= part <= whole,
            0 <= target,
    ;
    assert(part * target >= 0) by (nonlinear_arith)
        requires
            0 <= part,
            0 <= target,
    ;
    vstd::arithmetic::div_mod::lemma_div_is_ordered(part * target, whole * target, whole);
    vstd::arithmetic::div_mod::lemma_div_multiples_vanish(target, whole);
    vstd::arithmetic::div_mod::lemma_div_pos_is_pos(part * target, whole);
}

/// A non-empty dataset of positive weights has a positive total weight.
pub proof fn lemma_sum_weights_positive(s: Seq<ValueWeight>)
    requires
        s.len() > 0,
        forall|i: int| 0 <= i < s.len() ==> (#[trigger] s[i]).weight > 0,
    ensures
        sum_weights(s) > 0,
    decreases s.len(),
{
    if s.len() > 1 {
        assert(forall|i: int|
            0 <= i < s.drop_last().len() ==> s.drop_last()[i] == s[i]);
        lemma_sum_weights_positive(s.drop_last());
    } else {
        assert(s.drop_last().len() == 0);
        assert(sum_weights(s.drop_last()) == 0);
    }
    assert(s[s.len() - 1] == s.last());
}

/// A dataset whose total weight fits a `u64` has a weighted sum that fits
/// the intermediate arithmetic: every value is a `u64`, so the sum is at most
/// `u64::MAX` squared.
pub proof fn lemma_weighted_sums_fit(s: Seq<ValueWeight>)
    requires
        sum_weights(s) <= u64::MAX as int,
    ensures
        sum_products(s) + sum_weights(s) <= u128::MAX as int,
{
    lemma_sums_nonnegative(s);
    lemma_sum_products_bound(s);
    assert(max_value(s) * sum_weights(s) <= u64::MAX as int * u64::MAX as int)
        by (nonlinear_arith)
        requires
            0 <= max_value(s) <= u64::MAX as int,
            0 <= sum_weights(s) <= u64::MAX as int,
    ;
    assert(u64::MAX as int * u64::MAX as int + u64::MAX as int <= u128::MAX as int)
        by (nonlinear_arith);
}

/// A pointwise bound on the values bounds the maximum.
pub proof fn lemma_max_value_bound(s: Seq<ValueWeight>, b: int)
    requires
        b >= 0,
        forall|i: int| 0 <= i < s.len() ==> (#[trigger] s[i]).value <= b,
    ensures
        max_value(s) <= b,
    decreases s.len(),
{
    if s.len() > 0 {
        assert(forall|i: int|
            0 <= i < s.drop_last().len() ==> s.drop_last()[i] == s[i]);
        lemma_max_value_bound(s.drop_last(), b);
        assert(s[s.len() - 1] == s.last());
    }
}

/// The floored weighted average never exceeds the largest value.
pub proof fn lemma_weighted_average_le_max(s: Seq<ValueWeight>)
    requires
        sum_weights(s) > 0,
    ensures
        0 <= sum_products(s) / sum_weights(s) <= max_value(s),
{
    lemma_sums_nonnegative(s);
    lemma_sum_products_bound(s);
    vstd::arithmetic::div_mod::lemma_div_is_ordered(
        sum_products(s),
        max_value(s) * sum_weights(s),
        sum_weights(s),
    );
    vstd::arithmetic::div_mod::lemma_div_pos_is_pos(sum_products(s), sum_weights(s));
    vstd::arithmetic::div_mod::lemma_div_multiples_vanish(max_value(s), sum_weights(s));
    assert(max_value(s) * sum_weights(s) == sum_weights(s) * max_value(s)) by (nonlinear_arith);
}

/// A weighted mean of two values stays within their range.
pub proof fn lemma_two_point_mean_bounds(lw: int, a: int, rw: int, b: int)
    requires
        lw >= 0,
        rw >= 0,
        lw + rw > 0,
        0 <= a,
        0 <= b,
    ensures
        lw * a + rw * b <= (lw + rw) * (if a >= b {
            a
        } else {
            b
        }),
        0 <= (lw * a + rw * b) / (lw + rw) <= (if a >= b {
            a
        } else {
            b
        }),
{
    let m = if a >= b {
        a
    } else {
        b
    };
    assert(lw * a + rw * b >= 0 && lw * a + rw * b <= (lw + rw) * m) by (nonlinear_arith)
        requires
            lw >= 0,
            rw >= 0,
            0 <= a <= m,
            0 <= b <= m,
    ;
    vstd::arithmetic::div_mod::lemma_div_is_ordered(lw * a + rw * b, (lw + rw) * m, lw + rw);
    vstd::arithmetic::div_mod::lemma_div_pos_is_pos(lw * a + rw * b, lw + rw);
    vstd::arithmetic::div_mod::lemma_div_multiples_vanish(m, lw + rw);
    assert((lw + rw) * m == m * (lw + rw)) by (nonlinear_arith);
}

/// Two floored proportional parts of complementary targets never exceed the
/// part of the whole: splitting can only lose to rounding, never gain.
pub proof fn lemma_floor_parts_le(a: int, x: int, y: int, c: int)
    requires
        c > 0,
        a >= 0,
        x >= 0,
        y >= 0,
        x + y <= c,
    ensures
        a * x / c + a * y / c <= a,
{
    let p = a * x;
    let q = a * y;
    assert(a * x >= 0 && a * y >= 0 && a * x + a * y <= c * a) by (nonlinear_arith)
        requires
            c > 0,
            a >= 0,
            x >= 0,
            y >= 0,
            x + y <= c,
    ;
    vstd::arithmetic::div_mod::lemma_fundamental_div_mod(p, c);
    vstd::arithmetic::div_mod::lemma_fundamental_div_mod(q, c);
    vstd::arithmetic::div_mod::lemma_mod_bound(p, c);
    vstd::arithmetic::div_mod::lemma_mod_bound(q, c);
    assert(c * (p / c + q / c) <= p + q) by (nonlinear_arith)
        requires
            p == c * (p / c) + p % c,
            q == c * (q / c) + q % c,
            p % c >= 0,
            q % c >= 0,
    ;
    vstd::arithmetic::div_mod::lemma_div_is_ordered(c * (p / c + q / c), c * a, c);
    vstd::arithmetic::div_mod::lemma_div_multiples_vanish(p / c + q / c, c);
    vstd::arithmetic::div_mod::lemma_div_multiples_vanish(a, c);
}

/// Proportional scaling: the share of `target` that `part` is of `whole`,
/// rounded down. The original aborts on a zero divisor, so that input is
/// excluded here.
pub fn rule_of_three(part: u64, whole: u64, target: u64) -> (r: u64)
    requires
        whole > 0,
        part as int * target as int / whole as int <= u64::MAX as int,
    ensures
        r == part as int * target as int / whole as int,
{
    proof {
        assert(part as int * target as int <= u64::MAX as int * u64::MAX as int)
            by (nonlinear_arith)
            requires
                part <= u64::MAX,
                target <= u64::MAX,
        ;
    }
    let prod: u128 = (part as u128) * (target as u128);
    (prod / (whole as u128)) as u64
}

/// Proportional scaling that must not lose the whole amount: returns
/// `ZeroResult` exactly when the floored share is zero.
pub fn rule_of_three_non_zero_result(part: u64, whole: u64, target: u64) -> (r: Result<
    u64,
    DexError,
>)
    requires
        whole > 0,
        part as int * target as int / whole as int <= u64::MAX as int,
    ensures
        part as int * target as int / whole as int == 0 ==> r == Err::<u64, DexError>(
            DexError::ZeroResult,
        ),
        part as int * target as int / whole as int > 0 ==> r == Ok::<u64, DexError>(
            (part as int * target as int / whole as int) as u64,
        ),
{
    let scaled = rule_of_three(part, whole, target);
    if scaled == 0 {
        Err(DexError::ZeroResult)
    } else {
        Ok(scaled)
    }
}

/// Value-weighted average, rounded up. Rounding up biases merged
/// reward-per-share snapshots against the merged position, so a merge can
/// never claim more than its constituents could.
pub fn weighted_average_ceil(dataset: &Vec<ValueWeight>) -> (r: u64)
    requires
        sum_weights(dataset@) > 0,
        sum_products(dataset@) + sum_weights(dataset@) <= u128::MAX as int,
    ensures
        r == ceil_div(sum_products(dataset@), sum_weights(dataset@)),
{
    let mut weight_sum: u128 = 0;
    let mut elem_weight_sum: u128 = 0;
    let mut i: usize = 0;
    proof {
        lemma_sums_nonnegative(dataset@);
    }
    while i < dataset.len()
        invariant
            i <= dataset.len(),
            weight_sum == sum_weights(dataset@.subrange(0, i as int)),
            elem_weight_sum == sum_products(dataset@.subrange(0, i as int)),
            sum_weights(dataset@.subrange(0, i as int)) <= sum_weights(dataset@),
            sum_products(dataset@.subrange(0, i as int)) <= sum_products(dataset@),
            sum_products(dataset@) + sum_weights(dataset@) <= u128::MAX as int,
        decreases dataset.len() - i,
    {
        let entry = dataset[i];
        proof {
            let prefix = dataset@.subrange(0, i as int);
            let next = dataset@.subrange(0, i as int + 1);
            assert(next.drop_last() =~= prefix);
            lemma_prefix_sums_monotonic(dataset@, i as int + 1);
            assert(entry.value as int * entry.weight as int
                <= u64::MAX as int * u64::MAX as int) by (nonlinear_arith)
                requires
                    entry.value <= u64::MAX,
                    entry.weight <= u64::MAX,
            ;
        }
        weight_sum = weight_sum + entry.weight as u128;
        elem_weight_sum = elem_weight_sum + (entry.value as u128) * (entry.weight as u128);
        i = i + 1;
    }
    proof {
        assert(dataset@.subrange(0, dataset@.len() as int) =~= dataset@);
        lemma_sums_nonnegative(dataset@);
        lemma_sum_products_bound(dataset@);
        lemma_ceil_div_le_max(sum_products(dataset@), sum_weights(dataset@), max_value(dataset@));
    }
    ((elem_weight_sum + weight_sum - 1) / weight_sum) as u64
}

/// Each prefix contributes at most the whole: the sums over `s.subrange(0, n)`
/// are bounded by the sums over `s`.
pub proof fn lemma_prefix_sums_monotonic(s: Seq<ValueWeight>, n: int)
    requires
        0 <= n <= s.len(),
    ensures
        sum_weights(s.subrange(0, n)) <= sum_weights(s),
        sum_products(s.subrange(0, n)) <= sum_products(s),
    decreases s.len() - n,
{
    if n == s.len() {
        assert(s.subrange(0, n) =~= s);
    } else {
        lemma_prefix_sums_monotonic(s, n + 1);
        let prefix = s.subrange(0, n);
        let next = s.subrange(0, n + 1);
        assert(next.drop_last() =~= prefix);
        assert(next.last().value * next.last().weight >= 0) by (nonlinear_arith)
            requires
                next.last().value >= 0,
                next.last().weight >= 0,
        ;
    }
}

/// The ceiling of a weighted average never exceeds the largest value.
proof fn lemma_ceil_div_le_max(sum: int, total: int, maxv: int)
    requires
        total > 0,
        sum >= 0,
        maxv >= 0,
        sum <= maxv * total,
    ensures
        0 <= ceil_div(sum, total) <= maxv,
{
    assert(0 <= (sum + total - 1) / total <= maxv) by (nonlinear_arith)
        requires
            total > 0,
            sum >= 0,
            maxv >= 0,
            sum <= maxv * total,
    ;
}

/// The defining property of the ceiling-rounded weighted average: scaled back
/// up by the total weight it covers the exact weighted sum, but overshoots it
/// by less than one whole weight.
pub proof fn lemma_weighted_average_ceil_bounds(s: Seq<ValueWeight>)
    requires
        sum_weights(s) > 0,
    ensures
        ceil_div(sum_products(s), sum_weights(s)) * sum_weights(s) >= sum_products(s),
        ceil_div(sum_products(s), sum_weights(s)) * sum_weights(s) < sum_products(s)
            + sum_weights(s),
{
    let total = sum_weights(s);
    let sum = sum_products(s);
    let q = (sum + total - 1) / total;
    let m = (sum + total - 1) % total;
    vstd::arithmetic::div_mod::lemma_fundamental_div_mod(sum + total - 1, total);
    vstd::arithmetic::div_mod::lemma_mod_bound(sum + total - 1, total);
    assert(q * total == sum + total - 1 - m) by (nonlinear_arith)
        requires
            sum + total - 1 == total * q + m,
    ;
}

/// Value-weighted average, rounded down. Used where a fairness-weighted epoch
/// is aggregated and overshooting would favour the user.
pub fn weighted_average(dataset: &Vec<ValueWeight>) -> (r: u64)
    requires
        sum_weights(dataset@) > 0,
        sum_products(dataset@) + sum_weights(dataset@) <= u128::MAX as int,
    ensures
        r == sum_products(dataset@) / sum_weights(dataset@),
{
    let mut weight_sum: u128 = 0;
    let mut elem_weight_sum: u128 = 0;
    let mut i: usize = 0;
    proof {
        lemma_sums_nonnegative(dataset@);
    }
    while i < dataset.len()
        invariant
            i <= dataset.len(),
            weight_sum == sum_weights(dataset@.subrange(0, i as int)),
            elem_weight_sum == sum_products(dataset@.subrange(0, i as int)),
            sum_weights(dataset@.subrange(0, i as int)) <= sum_weights(dataset@),
            sum_products(dataset@.subrange(0, i as int)) <= sum_products(dataset@),
            sum_products(dataset@) + sum_weights(dataset@) <= u128::MAX as int,
        decreases dataset.len() - i,
    {
        let entry = dataset[i];
        proof {
            let prefix = dataset@.subrange(0, i as int);
            let next = dataset@.subrange(0, i as int + 1);
            assert(next.drop_last() =~= prefix);
            lemma_prefix_sums_monotonic(dataset@, i as int + 1);
            assert(entry.value as int * entry.weight as int
                <= u64::MAX as int * u64::MAX as int) by (nonlinear_arith)
                requires
                    entry.value <= u64::MAX,
                    entry.weight <= u64::MAX,
            ;
        }
        weight_sum = weight_sum + entry.weight as u128;
        elem_weight_sum = elem_weight_sum + (entry.value as u128) * (entry.weight as u128);
        i = i + 1;
    }
    proof {
        assert(dataset@.subrange(0, dataset@.len() as int) =~= dataset@);
        lemma_sums_nonnegative(dataset@);
        lemma_sum_products_bound(dataset@);
        lemma_ceil_div_le_max(sum_products(dataset@), sum_weights(dataset@), max_value(dataset@));
        vstd::arithmetic::div_mod::lemma_div_is_ordered(
            sum_products(dataset@),
            sum_products(dataset@) + sum_weights(dataset@) - 1,
            sum_weights(dataset@),
        );
        vstd::arithmetic::div_mod::lemma_div_pos_is_pos(
            sum_products(dataset@),
            sum_weights(dataset@),
        );
    }
    (elem_weight_sum / weight_sum) as u64
}

} // verus!
