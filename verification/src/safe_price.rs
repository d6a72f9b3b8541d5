//! The time-weighted safe-price oracle: a fixed-capacity circular buffer of
//! cumulative reserve observations per round, point lookup by exact match,
//! wraparound binary search or linear interpolation, and time-weighted price
//! computation between two points.

use vstd::prelude::*;
use crate::errors::DexError;
use crate::math;
use crate::payment::EsdtTokenPayment;

verus! {

/// The default window, in rounds, that the position-valuation view averages
/// over.
pub const DEFAULT_SAFE_PRICE_ROUNDS_OFFSET: u64 = 14400;

/// A snapshot of the pair's cumulative reserves at a round. Between two
/// observations the difference of the accumulated values over the difference
/// of the accumulated weights is the time-weighted reserve.
#[derive(Clone, Copy, Debug, PartialEq, Eq, Structural)]
pub struct PriceObservation {
    pub first_token_reserve_accumulated: u64,
    pub second_token_reserve_accumulated: u64,
    pub weight_accumulated: u64,
    pub recording_round: u64,
}

/// The pair state the safe-price views read: the circular observation buffer
/// with its head index, and the pair's spot state for position valuation.
#[derive(Debug)]
pub struct SafePriceViewModule {
    pub first_token_id: u64,
    pub second_token_id: u64,
    pub lp_token_supply: u64,
    pub pair_reserve_first: u64,
    pub pair_reserve_second: u64,
    /// Index of the most recent observation.
    pub safe_price_current_index: usize,
    /// Capacity of the circular buffer.
    pub safe_price_max_observations: usize,
    pub price_observations: Vec<PriceObservation>,
}

impl SafePriceViewModule {
    pub open spec fn obs(self) -> Seq<PriceObservation> {
        self.price_observations@
    }

    /// Index of the oldest retained observation: the slot after the head once
    /// the buffer has wrapped, the start otherwise.
    pub open spec fn oldest_index(self) -> int {
        if self.obs().len() < self.safe_price_max_observations {
            0
        } else if self.safe_price_current_index + 1 == self.obs().len() {
            0
        } else {
            self.safe_price_current_index + 1
        }
    }

    pub open spec fn newest(self) -> PriceObservation {
        self.obs()[self.safe_price_current_index as int]
    }

    pub open spec fn oldest(self) -> PriceObservation {
        self.obs()[self.oldest_index()]
    }

    /// The physical slot that logically follows slot `i` (wrapping).
    pub open spec fn circ_next(self, i: int) -> int {
        if i + 1 == self.obs().len() {
            0
        } else {
            i + 1
        }
    }

    /// The buffer invariant. Until the buffer is full the head is the last
    /// filled slot; afterwards it wraps. `recording_round` is strictly
    /// increasing along the buffer's logical (oldest to newest) order, which
    /// physically means: both straight segments are sorted and the last slot
    /// precedes slot `0` when the buffer has wrapped. Accumulated weights grow
    /// by exactly the round distance between neighbouring observations, and
    /// accumulated reserves never decrease.
    pub open spec fn wf(self) -> bool {
        let len = self.obs().len() as int;
        let cur = self.safe_price_current_index as int;
        &&& self.safe_price_max_observations > 0
        &&& len <= self.safe_price_max_observations
        &&& len > 0 ==> cur < len
        &&& (0 < len && len < self.safe_price_max_observations) ==> cur + 1 == len
        &&& len == 0 ==> cur == 0
        &&& forall|i: int, j: int|
            0 <= i < j <= cur < len ==> self.obs()[i].recording_round
                < self.obs()[j].recording_round
        &&& forall|i: int, j: int|
            cur < i < j < len ==> self.obs()[i].recording_round < self.obs()[j].recording_round
        &&& (len == self.safe_price_max_observations && cur + 1 < len) ==> self.obs()[len
            - 1].recording_round < self.obs()[0].recording_round
        &&& forall|i: int|
            #![trigger self.circ_next(i)]
            0 <= i < len && i != cur ==> {
                &&& self.obs()[i].recording_round < self.obs()[self.circ_next(
                    i,
                )].recording_round
                &&& self.obs()[self.circ_next(i)].weight_accumulated
                    == self.obs()[i].weight_accumulated + (self.obs()[self.circ_next(
                    i,
                )].recording_round - self.obs()[i].recording_round)
                &&& self.obs()[i].first_token_reserve_accumulated <= self.obs()[self.circ_next(
                    i,
                )].first_token_reserve_accumulated
                &&& self.obs()[i].second_token_reserve_accumulated <= self.obs()[self.circ_next(
                    i,
                )].second_token_reserve_accumulated
            }
    }

    /// A slot whose observation and logical successor straddle `round`.
    pub open spec fn brackets(self, i: int, round: u64) -> bool {
        &&& 0 <= i < self.obs().len()
        &&& self.obs()[i].recording_round < round < self.obs()[self.circ_next(
            i,
        )].recording_round
    }

    /// Classic binary search over one straight, strictly sorted segment
    /// `[lo, hi]` of the buffer. On a miss the reported slot sits directly
    /// beside the searched round within the segment.
    fn binary_search_segment(&self, lo: usize, hi: usize, search_round: u64) -> (r: (
        Option<PriceObservation>,
        usize,
    ))
        requires
            lo <= hi < self.obs().len(),
            forall|k1: int, k2: int|
                lo <= k1 < k2 <= hi ==> (#[trigger] self.obs()[k1]).recording_round < (
                #[trigger] self.obs()[k2]).recording_round,
            self.obs()[lo as int].recording_round <= search_round,
        ensures
            match r.0 {
                Some(o) => {
                    &&& lo <= r.1 <= hi
                    &&& o == self.obs()[r.1 as int]
                    &&& o.recording_round == search_round
                },
                None => {
                    &&& lo <= r.1 <= hi
                    &&& forall|k: int|
                        lo <= k <= hi ==> (#[trigger] self.obs()[k]).recording_round
                            != search_round
                    &&& (self.obs()[r.1 as int].recording_round < search_round ==> (r.1 == hi
                        || self.obs()[r.1 as int + 1].recording_round > search_round))
                    &&& (self.obs()[r.1 as int].recording_round > search_round ==> (r.1 > lo
                        && self.obs()[r.1 as int - 1].recording_round < search_round))
                },
            },
    {
        let n = self.price_observations.len();
        let mut left_index: usize = lo;
        let mut right_index: usize = hi;
        let mut search_index: usize = lo;
        let mut went_less: bool = false;
        let mut probed: bool = false;
        while left_index <= right_index
            invariant
                n == self.obs().len(),
                lo <= hi < self.obs().len(),
                hi < n,
                forall|k1: int, k2: int|
                    lo <= k1 < k2 <= hi ==> (#[trigger] self.obs()[k1]).recording_round < (
                    #[trigger] self.obs()[k2]).recording_round,
                self.obs()[lo as int].recording_round <= search_round,
                lo <= left_index as int,
                left_index as int <= right_index as int + 1,
                right_index as int <= hi,
                forall|k: int|
                    lo <= k < left_index as int ==> (#[trigger] self.obs()[k]).recording_round
                        < search_round,
                forall|k: int|
                    right_index < k <= hi ==> (#[trigger] self.obs()[k]).recording_round
                        > search_round,
                !probed ==> left_index as int == lo && right_index as int == hi,
                probed ==> lo <= search_index as int <= hi,
                probed && went_less ==> left_index as int > lo && search_index as int
                    == left_index as int - 1 && self.obs()[search_index as int].recording_round
                    < search_round,
                probed && !went_less ==> (right_index as int) < hi && search_index as int
                    == right_index as int + 1 && self.obs()[search_index as int].recording_round
                    > search_round,
            decreases right_index + 1 - left_index,
        {
            let search_index_new = left_index + (right_index - left_index) / 2;
            proof {
                assert((right_index - left_index) as int / 2 <= (right_index - left_index) as int)
                    by (nonlinear_arith)
                    requires
                        right_index as int - left_index as int >= 0,
                ;
            }
            let observation = self.price_observations[search_index_new];
            if observation.recording_round == search_round {
                return (Some(observation), search_index_new);
            } else if observation.recording_round < search_round {
                search_index = search_index_new;
                left_index = search_index_new + 1;
                went_less = true;
                probed = true;
            } else {
                proof {
                    // The segment starts at or below the searched round, so
                    // the probe that read above it is not at the start.
                    assert(search_index_new as int != lo);
                }
                search_index = search_index_new;
                right_index = search_index_new - 1;
                went_less = false;
                probed = true;
            }
        }
        proof {
            assert(probed);
        }
        (None, search_index)
    }

    /// Wraparound binary search for an exact observation at `search_round`,
    /// strictly inside the retained round range. On a miss it reports a slot
    /// that sits directly beside the searched round, and no slot in the
    /// buffer holds the round.
    #[verifier::rlimit(100)]
    pub fn price_observation_by_binary_search(&self, search_round: u64) -> (r: (
        Option<PriceObservation>,
        usize,
    ))
        requires
            self.wf(),
            self.obs().len() > 0,
            self.oldest().recording_round < search_round < self.newest().recording_round,
        ensures
            match r.0 {
                Some(o) => {
                    &&& r.1 < self.obs().len()
                    &&& o == self.obs()[r.1 as int]
                    &&& o.recording_round == search_round
                },
                None => {
                    &&& r.1 < self.obs().len()
                    &&& forall|k: int|
                        0 <= k < self.obs().len() ==> (#[trigger] self.obs()[k]).recording_round
                            != search_round
                    &&& self.obs()[r.1 as int].recording_round != search_round
                    &&& (self.obs()[r.1 as int].recording_round < search_round ==> self.brackets(
                        r.1 as int,
                        search_round,
                    ))
                    &&& (self.obs()[r.1 as int].recording_round > search_round ==> (r.1 >= 1
                        && self.brackets(r.1 as int - 1, search_round)))
                },
            },
    {
        let len = self.price_observations.len();
        let cur = self.safe_price_current_index;
        let observation_at_index_0 = self.price_observations[0];

        if observation_at_index_0.recording_round <= search_round {
            proof {
                // The newest observation is strictly above the searched
                // round, so it cannot sit at slot 0.
                assert(cur != 0);
            }
            let (found, idx) = self.binary_search_segment(0, cur - 1, search_round);
            proof {
                if found is None {
                    // Nothing above the head holds the round either: those
                    // slots are all older than slot 0, which is at or below
                    // the searched round.
                    assert(forall|k: int|
                        cur < k < len ==> (#[trigger] self.obs()[k]).recording_round
                            < self.obs()[0].recording_round) by {
                        assert(forall|k: int|
                            cur < k < len - 1 ==> (#[trigger] self.obs()[k]).recording_round
                                < self.obs()[len - 1].recording_round);
                    }
                    if self.obs()[idx as int].recording_round < search_round {
                        assert(self.circ_next(idx as int) == idx + 1);
                        assert(self.obs()[idx as int + 1].recording_round > search_round);
                    }
                }
            }
            (found, idx)
        } else {
            proof {
                // Slot 0 is above the searched round, so the oldest
                // observation is not at slot 0: the buffer is full and has
                // wrapped.
                assert(len == self.safe_price_max_observations && cur + 1 < len);
                assert(self.oldest_index() == cur + 1);
            }
            let (found, idx) = self.binary_search_segment(cur + 1, len - 1, search_round);
            proof {
                if found is None {
                    // The straight segment up to the head is entirely above
                    // the searched round.
                    assert(forall|k: int|
                        0 < k <= cur ==> self.obs()[0].recording_round <= (
                        #[trigger] self.obs()[k]).recording_round);
                    if self.obs()[idx as int].recording_round < search_round {
                        if idx as int == len - 1 {
                            assert(self.circ_next(idx as int) == 0);
                        } else {
                            assert(self.circ_next(idx as int) == idx + 1);
                            assert(self.obs()[idx as int + 1].recording_round > search_round);
                        }
                    }
                }
            }
            (found, idx)
        }
    }

    /// The observation synthesized between two logically adjacent stored
    /// observations straddling `round`: each neighbour's accumulated reserves
    /// weighted by the round distance to that neighbour, and the weight
    /// accumulator advanced from the left neighbour by the round distance.
    pub open spec fn interpolate_spec(
        left: PriceObservation,
        right: PriceObservation,
        round: u64,
    ) -> PriceObservation
        recommends
            left.recording_round < round < right.recording_round,
    {
        let lw = round - left.recording_round;
        let rw = right.recording_round - round;
        let ws = lw + rw;
        PriceObservation {
            first_token_reserve_accumulated: ((lw * left.first_token_reserve_accumulated + rw
                * right.first_token_reserve_accumulated) / ws) as u64,
            second_token_reserve_accumulated: ((lw * left.second_token_reserve_accumulated + rw
                * right.second_token_reserve_accumulated) / ws) as u64,
            weight_accumulated: (left.weight_accumulated + lw) as u64,
            recording_round: round,
        }
    }

    /// Synthesizes the observation at `search_round` by interpolating between
    /// the stored observation beside it (as reported by the binary search)
    /// and that observation's logical neighbour on the other side.
    pub fn price_observation_by_linear_interpolation(
        &self,
        search_round: u64,
        search_index: usize,
    ) -> (r: PriceObservation)
        requires
            self.wf(),
            self.obs().len() > 0,
            self.oldest().recording_round < search_round < self.newest().recording_round,
            search_index < self.obs().len(),
            self.obs()[search_index as int].recording_round != search_round,
            self.obs()[search_index as int].recording_round < search_round ==> self.brackets(
                search_index as int,
                search_round,
            ),
            self.obs()[search_index as int].recording_round > search_round ==> (search_index >= 1
                && self.brackets(search_index as int - 1, search_round)),
        ensures
            self.obs()[search_index as int].recording_round < search_round ==> r
                == Self::interpolate_spec(
                self.obs()[search_index as int],
                self.obs()[self.circ_next(search_index as int)],
                search_round,
            ),
            self.obs()[search_index as int].recording_round > search_round ==> r
                == Self::interpolate_spec(
                self.obs()[search_index as int - 1],
                self.obs()[search_index as int],
                search_round,
            ),
    {
        let len = self.price_observations.len();
        let last_found_observation = self.price_observations[search_index];
        let left_observation: PriceObservation;
        let right_observation: PriceObservation;
        if last_found_observation.recording_round < search_round {
            proof {
                // The bracketing slot is not the head: the head's round is
                // above the searched round.
                assert(search_index as int != self.safe_price_current_index as int);
                assert(self.circ_next(search_index as int) == if search_index as int + 1 == len
                    as int {
                    0int
                } else {
                    search_index as int + 1
                });
            }
            left_observation = last_found_observation;
            let right_observation_index = if search_index + 1 == len {
                0
            } else {
                search_index + 1
            };
            right_observation = self.price_observations[right_observation_index];
        } else {
            proof {
                assert(search_index as int - 1 != self.safe_price_current_index as int);
                assert(self.circ_next(search_index as int - 1) == search_index as int);
            }
            let left_observation_index = search_index - 1;
            left_observation = self.price_observations[left_observation_index];
            right_observation = last_found_observation;
        }

        proof {
            // The weight accumulator grows by exactly the round distance
            // between the two neighbours, so advancing it by part of that
            // distance stays within the right neighbour's accumulator.
            assert(right_observation.weight_accumulated == left_observation.weight_accumulated + (
            right_observation.recording_round - left_observation.recording_round));
        }

        let left_weight = search_round - left_observation.recording_round;
        let right_weight = right_observation.recording_round - search_round;
        let weight_sum = left_weight + right_weight;
        proof {
            math::lemma_two_point_mean_bounds(
                left_weight as int,
                left_observation.first_token_reserve_accumulated as int,
                right_weight as int,
                right_observation.first_token_reserve_accumulated as int,
            );
            math::lemma_two_point_mean_bounds(
                left_weight as int,
                left_observation.second_token_reserve_accumulated as int,
                right_weight as int,
                right_observation.second_token_reserve_accumulated as int,
            );
            assert(left_weight as int * left_observation.first_token_reserve_accumulated as int
                + right_weight as int * right_observation.first_token_reserve_accumulated as int
                <= u64::MAX as int * u64::MAX as int) by (nonlinear_arith)
                requires
                    0 <= left_weight,
                    0 <= right_weight,
                    left_weight + right_weight <= u64::MAX,
                    0 <= left_observation.first_token_reserve_accumulated <= u64::MAX,
                    0 <= right_observation.first_token_reserve_accumulated <= u64::MAX,
            ;
            assert(left_weight as int * left_observation.second_token_reserve_accumulated as int
                + right_weight as int * right_observation.second_token_reserve_accumulated as int
                <= u64::MAX as int * u64::MAX as int) by (nonlinear_arith)
                requires
                    0 <= left_weight,
                    0 <= right_weight,
                    left_weight + right_weight <= u64::MAX,
                    0 <= left_observation.second_token_reserve_accumulated <= u64::MAX,
                    0 <= right_observation.second_token_reserve_accumulated <= u64::MAX,
            ;
        }
        let first_token_reserve_sum = (left_weight as u128)
            * (left_observation.first_token_reserve_accumulated as u128) + (right_weight as u128)
            * (right_observation.first_token_reserve_accumulated as u128);
        let second_token_reserve_sum = (left_weight as u128)
            * (left_observation.second_token_reserve_accumulated as u128) + (right_weight as u128)
            * (right_observation.second_token_reserve_accumulated as u128);

        let first_token_reserve_accumulated = (first_token_reserve_sum / (weight_sum as u128))
            as u64;
        let second_token_reserve_accumulated = (second_token_reserve_sum / (weight_sum as u128))
            as u64;
        let weight_accumulated = left_observation.weight_accumulated + (search_round
            - left_observation.recording_round);

        PriceObservation {
            first_token_reserve_accumulated,
            second_token_reserve_accumulated,
            weight_accumulated,
            recording_round: search_round,
        }
    }

    /// Point lookup in the retained price history. A round at or past the
    /// newest observation is clamped to the newest; a round before the oldest
    /// is outside the retained history and fails; anything in between is
    /// either the exact stored observation or one interpolated between the
    /// two neighbouring observations, recorded at the searched round itself.
    pub fn get_price_observation(&self, search_round: u64) -> (r: Result<
        PriceObservation,
        DexError,
    >)
        requires
            self.wf(),
        ensures
            self.obs().len() == 0 ==> r == Err::<PriceObservation, DexError>(
                DexError::ObservationDoesNotExist,
            ),
            self.obs().len() > 0 && search_round >= self.newest().recording_round ==> r == Ok::<
                PriceObservation,
                DexError,
            >(self.newest()),
            self.obs().len() > 0 && search_round == self.oldest().recording_round ==> r == Ok::<
                PriceObservation,
                DexError,
            >(self.oldest()),
            self.obs().len() > 0 && search_round < self.oldest().recording_round ==> r == Err::<
                PriceObservation,
                DexError,
            >(DexError::ObservationDoesNotExist),
            self.obs().len() > 0 && self.oldest().recording_round < search_round
                < self.newest().recording_round ==> (r matches Ok(o) && {
                &&& o.recording_round == search_round
                &&& (exists|k: int|
                    0 <= k < self.obs().len() && (#[trigger] self.obs()[k]).recording_round
                        == search_round) ==> (exists|k: int|
                    0 <= k < self.obs().len() && (#[trigger] self.obs()[k]).recording_round
                        == search_round && o == self.obs()[k])
                &&& (forall|k: int|
                    0 <= k < self.obs().len() ==> (#[trigger] self.obs()[k]).recording_round
                        != search_round) ==> (exists|i: int|
                    #![trigger self.circ_next(i)]
                    self.brackets(i, search_round) && o == Self::interpolate_spec(
                        self.obs()[i],
                        self.obs()[self.circ_next(i)],
                        search_round,
                    ))
            }),
    {
        if self.price_observations.len() == 0 {
            return Err(DexError::ObservationDoesNotExist);
        }

        // Check if the requested price observation is the newest one.
        let last_observation = self.price_observations[self.safe_price_current_index];
        if last_observation.recording_round <= search_round {
            return Ok(last_observation);
        }

        let oldest_observation_index = if self.price_observations.len()
            < self.safe_price_max_observations {
            0
        } else {
            (self.safe_price_current_index + 1) % self.safe_price_max_observations
        };
        proof {
            if self.price_observations.len() == self.safe_price_max_observations {
                if self.safe_price_current_index + 1 == self.safe_price_max_observations {
                    vstd::arithmetic::div_mod::lemma_mod_self_0(
                        self.safe_price_max_observations as int,
                    );
                } else {
                    vstd::arithmetic::div_mod::lemma_small_mod(
                        (self.safe_price_current_index + 1) as nat,
                        self.safe_price_max_observations as nat,
                    );
                }
            }
            assert(oldest_observation_index as int == self.oldest_index());
        }
        let oldest_observation = self.price_observations[oldest_observation_index];
        if search_round == oldest_observation.recording_round {
            return Ok(oldest_observation);
        }
        if search_round < oldest_observation.recording_round {
            return Err(DexError::ObservationDoesNotExist);
        }

        let (found, last_search_index) = self.price_observation_by_binary_search(search_round);
        match found {
            Some(observation) => Ok(observation),
            None => {
                let interpolated = self.price_observation_by_linear_interpolation(
                    search_round,
                    last_search_index,
                );
                proof {
                    if self.obs()[last_search_index as int].recording_round < search_round {
                        assert(self.brackets(last_search_index as int, search_round));
                    } else {
                        assert(self.brackets(last_search_index as int - 1, search_round));
                        assert(self.circ_next(last_search_index as int - 1)
                            == last_search_index as int);
                    }
                }
                Ok(interpolated)
            },
        }
    }

    /// What a point lookup may return for `round`: the clamped newest
    /// observation, the oldest, an exact stored match, or the interpolation
    /// between the two stored neighbours of the round.
    pub open spec fn admissible_observation(self, round: u64, o: PriceObservation) -> bool {
        &&& self.obs().len() > 0
        &&& if round >= self.newest().recording_round {
            o == self.newest()
        } else if round == self.oldest().recording_round {
            o == self.oldest()
        } else if round < self.oldest().recording_round {
            false
        } else {
            ||| exists|k: int|
                0 <= k < self.obs().len() && (#[trigger] self.obs()[k]).recording_round == round
                    && o == self.obs()[k]
            ||| (forall|k: int|
                0 <= k < self.obs().len() ==> (#[trigger] self.obs()[k]).recording_round != round)
                && (exists|i: int|
                #![trigger self.circ_next(i)]
                self.brackets(i, round) && o == Self::interpolate_spec(
                    self.obs()[i],
                    self.obs()[self.circ_next(i)],
                    round,
                ))
        }
    }

    /// The time-weighted reserves over the window between two observations:
    /// the accumulated reserve difference over the accumulated weight
    /// difference, or the later observation's raw accumulators when the
    /// window is too narrow to average.
    pub open spec fn weighted_reserves_spec(first: PriceObservation, last: PriceObservation) -> (
        int,
        int,
    ) {
        let weight_diff = last.weight_accumulated - first.weight_accumulated;
        if weight_diff == 0 {
            (
                last.first_token_reserve_accumulated as int,
                last.second_token_reserve_accumulated as int,
            )
        } else {
            (
                (last.first_token_reserve_accumulated - first.first_token_reserve_accumulated)
                    / weight_diff,
                (last.second_token_reserve_accumulated - first.second_token_reserve_accumulated)
                    / weight_diff,
            )
        }
    }

    /// Observations taken in round order have monotone accumulators; the
    /// original subtracts them unchecked, so a decreasing pair is excluded.
    pub open spec fn monotone_pair(first: PriceObservation, last: PriceObservation) -> bool {
        &&& first.weight_accumulated <= last.weight_accumulated
        &&& first.first_token_reserve_accumulated <= last.first_token_reserve_accumulated
        &&& first.second_token_reserve_accumulated <= last.second_token_reserve_accumulated
    }

    pub fn compute_weighted_reserves(
        &self,
        first_price_observation: &PriceObservation,
        last_price_observation: &PriceObservation,
    ) -> (r: (u64, u64))
        requires
            Self::monotone_pair(*first_price_observation, *last_price_observation),
        ensures
            (r.0 as int, r.1 as int) == Self::weighted_reserves_spec(
                *first_price_observation,
                *last_price_observation,
            ),
    {
        let weight_diff = last_price_observation.weight_accumulated
            - first_price_observation.weight_accumulated;
        if weight_diff == 0 {
            return (
                last_price_observation.first_token_reserve_accumulated,
                last_price_observation.second_token_reserve_accumulated,
            );
        }

        let first_token_reserve_diff = last_price_observation.first_token_reserve_accumulated
            - first_price_observation.first_token_reserve_accumulated;
        let second_token_reserve_diff = last_price_observation.second_token_reserve_accumulated
            - first_price_observation.second_token_reserve_accumulated;
        let weighted_first_token_reserve = first_token_reserve_diff / weight_diff;
        let weighted_second_token_reserve = second_token_reserve_diff / weight_diff;
        (weighted_first_token_reserve, weighted_second_token_reserve)
    }

    /// What exchanging `input` at the window's time-weighted price returns.
    pub open spec fn weighted_price_spec(
        self,
        input_payment: EsdtTokenPayment,
        first: PriceObservation,
        last: PriceObservation,
    ) -> Result<EsdtTokenPayment, DexError> {
        let reserves = Self::weighted_reserves_spec(first, last);
        if input_payment.token_identifier != self.first_token_id
            && input_payment.token_identifier != self.second_token_id {
            Err(DexError::BadInputToken)
        } else if input_payment.token_identifier == self.first_token_id {
            let out = input_payment.amount * reserves.1 / reserves.0;
            if out == 0 {
                Err(DexError::ZeroAmount)
            } else {
                Ok(
                    EsdtTokenPayment {
                        token_identifier: self.second_token_id,
                        token_nonce: 0,
                        amount: out as u64,
                    },
                )
            }
        } else {
            let out = input_payment.amount * reserves.0 / reserves.1;
            if out == 0 {
                Err(DexError::ZeroAmount)
            } else {
                Ok(
                    EsdtTokenPayment {
                        token_identifier: self.first_token_id,
                        token_nonce: 0,
                        amount: out as u64,
                    },
                )
            }
        }
    }

    /// The machine limits and defined-division conditions a weighted-price
    /// computation needs for a window.
    pub open spec fn price_computable(
        self,
        input_payment: EsdtTokenPayment,
        first: PriceObservation,
        last: PriceObservation,
    ) -> bool {
        let reserves = Self::weighted_reserves_spec(first, last);
        &&& Self::monotone_pair(first, last)
        &&& (input_payment.token_identifier == self.first_token_id ==> (reserves.0 > 0
            && input_payment.amount * reserves.1 / reserves.0 <= u64::MAX as int))
        &&& (input_payment.token_identifier == self.second_token_id
            && input_payment.token_identifier != self.first_token_id ==> (reserves.1 > 0
            && input_payment.amount * reserves.0 / reserves.1 <= u64::MAX as int))
    }

    /// Values `input_payment` at the time-weighted price of the window
    /// between the two observations: the output amount is the input amount
    /// times the other side's weighted reserve over the input side's. A
    /// worthless (zero) output and a token from neither pool side fail.
    pub fn compute_weighted_price(
        &self,
        input_payment: EsdtTokenPayment,
        first_price_observation: &PriceObservation,
        last_price_observation: &PriceObservation,
    ) -> (r: Result<EsdtTokenPayment, DexError>)
        requires
            input_payment.token_identifier == self.first_token_id
                || input_payment.token_identifier == self.second_token_id ==> self.price_computable(
                input_payment,
                *first_price_observation,
                *last_price_observation,
            ),
        ensures
            r == self.weighted_price_spec(
                input_payment,
                *first_price_observation,
                *last_price_observation,
            ),
    {
        if input_payment.token_identifier != self.first_token_id
            && input_payment.token_identifier != self.second_token_id {
            return Err(DexError::BadInputToken);
        }

        let (weighted_first_token_reserve, weighted_second_token_reserve) = self
            .compute_weighted_reserves(first_price_observation, last_price_observation);

        let output_payment: EsdtTokenPayment;
        if input_payment.token_identifier == self.first_token_id {
            proof {
                assert(input_payment.amount as int * weighted_second_token_reserve as int
                    <= u64::MAX as int * u64::MAX as int) by (nonlinear_arith)
                    requires
                        0 <= input_payment.amount <= u64::MAX,
                        0 <= weighted_second_token_reserve <= u64::MAX,
                ;
            }
            let output_amount = (((input_payment.amount as u128) * (weighted_second_token_reserve
                as u128)) / (weighted_first_token_reserve as u128)) as u64;
            output_payment = EsdtTokenPayment {
                token_identifier: self.second_token_id,
                token_nonce: 0,
                amount: output_amount,
            };
        } else {
            proof {
                assert(input_payment.amount as int * weighted_first_token_reserve as int
                    <= u64::MAX as int * u64::MAX as int) by (nonlinear_arith)
                    requires
                        0 <= input_payment.amount <= u64::MAX,
                        0 <= weighted_first_token_reserve <= u64::MAX,
                ;
            }
            let output_amount = (((input_payment.amount as u128) * (weighted_first_token_reserve
                as u128)) / (weighted_second_token_reserve as u128)) as u64;
            output_payment = EsdtTokenPayment {
                token_identifier: self.first_token_id,
                token_nonce: 0,
                amount: output_amount,
            };
        }
        if output_payment.amount == 0 {
            return Err(DexError::ZeroAmount);
        }
        Ok(output_payment)
    }

    /// The newest retained round never precedes the oldest one.
    pub proof fn lemma_oldest_le_newest(self)
        requires
            self.wf(),
            self.obs().len() > 0,
        ensures
            self.oldest().recording_round <= self.newest().recording_round,
    {
        let len = self.obs().len() as int;
        let cur = self.safe_price_current_index as int;
        if self.oldest_index() != 0 {
            assert(self.obs()[cur + 1].recording_round <= self.obs()[len - 1].recording_round);
            assert(self.obs()[len - 1].recording_round < self.obs()[0].recording_round);
            assert(self.obs()[0].recording_round <= self.obs()[cur].recording_round);
        }
    }

    /// The time-weighted value of `input_payment` between two rounds of the
    /// retained history.
    pub fn get_safe_price(
        &self,
        start_round: u64,
        end_round: u64,
        input_payment: EsdtTokenPayment,
    ) -> (r: Result<EsdtTokenPayment, DexError>)
        requires
            self.wf(),
            forall|f: PriceObservation, l: PriceObservation|
                self.admissible_observation(start_round, f) && self.admissible_observation(
                    end_round,
                    l,
                ) ==> self.price_computable(input_payment, f, l),
        ensures
            end_round < start_round ==> r == Err::<EsdtTokenPayment, DexError>(
                DexError::InvalidParameters,
            ),
            end_round >= start_round && self.obs().len() == 0 ==> r == Err::<
                EsdtTokenPayment,
                DexError,
            >(DexError::ObservationDoesNotExist),
            end_round >= start_round && self.obs().len() > 0 && start_round
                < self.oldest().recording_round ==> r == Err::<EsdtTokenPayment, DexError>(
                DexError::ObservationDoesNotExist,
            ),
            end_round >= start_round && self.obs().len() > 0 && start_round
                >= self.oldest().recording_round ==> exists|f: PriceObservation,
            l: PriceObservation|
                self.admissible_observation(start_round, f) && self.admissible_observation(
                    end_round,
                    l,
                ) && r == self.weighted_price_spec(input_payment, f, l),
    {
        if end_round < start_round {
            return Err(DexError::InvalidParameters);
        }

        let first_price_observation = match self.get_price_observation(start_round) {
            Ok(o) => o,
            Err(e) => {
                return Err(e);
            },
        };
        proof {
            self.lemma_oldest_le_newest();
        }
        let last_price_observation = match self.get_price_observation(end_round) {
            Ok(o) => o,
            Err(e) => {
                return Err(e);
            },
        };
        proof {
            assert(self.admissible_observation(start_round, first_price_observation));
            assert(self.admissible_observation(end_round, last_price_observation));
        }
        self.compute_weighted_price(
            input_payment,
            &first_price_observation,
            &last_price_observation,
        )
    }

    /// Read-only query for the observation (stored or synthesized) at a
    /// round; the same lookup `get_safe_price` uses.
    pub fn get_price_observation_view(&self, search_round: u64) -> (r: Result<
        PriceObservation,
        DexError,
    >)
        requires
            self.wf(),
        ensures
            self.obs().len() == 0 ==> r == Err::<PriceObservation, DexError>(
                DexError::ObservationDoesNotExist,
            ),
            self.obs().len() > 0 && search_round >= self.newest().recording_round ==> r == Ok::<
                PriceObservation,
                DexError,
            >(self.newest()),
            self.obs().len() > 0 && search_round == self.oldest().recording_round ==> r == Ok::<
                PriceObservation,
                DexError,
            >(self.oldest()),
            self.obs().len() > 0 && search_round < self.oldest().recording_round ==> r == Err::<
                PriceObservation,
                DexError,
            >(DexError::ObservationDoesNotExist),
            self.obs().len() > 0 && self.oldest().recording_round < search_round
                < self.newest().recording_round ==> (r matches Ok(o)
                && self.admissible_observation(search_round, o)),
    {
        let r = self.get_price_observation(search_round);
        proof {
            if self.obs().len() > 0 && self.oldest().recording_round < search_round
                < self.newest().recording_round {
                assert(r matches Ok(o) && self.admissible_observation(search_round, o));
            }
        }
        r
    }

    /// What each unit of liquidity is worth in the pair's spot reserves.
    pub open spec fn first_token_worth_spec(self, liquidity: u64) -> int {
        liquidity * self.pair_reserve_first / self.lp_token_supply as int
    }

    pub open spec fn second_token_worth_spec(self, liquidity: u64) -> int {
        liquidity * self.pair_reserve_second / self.lp_token_supply as int
    }

    /// The observation window the position valuation averages over: the
    /// newest observation for the current round against the oldest one,
    /// pulled up to the default offset when the history reaches further back.
    pub open spec fn valuation_window(
        self,
        current_round: u64,
        f: PriceObservation,
        l: PriceObservation,
    ) -> bool {
        &&& self.admissible_observation(current_round, l)
        &&& if l.recording_round - self.oldest().recording_round
            > DEFAULT_SAFE_PRICE_ROUNDS_OFFSET {
            self.admissible_observation(
                (l.recording_round - DEFAULT_SAFE_PRICE_ROUNDS_OFFSET) as u64,
                f,
            )
        } else {
            f == self.oldest()
        }
    }

    /// Combines the two one-sided valuations; either failure aborts.
    pub open spec fn paired_result(
        a: Result<EsdtTokenPayment, DexError>,
        b: Result<EsdtTokenPayment, DexError>,
    ) -> Result<(EsdtTokenPayment, EsdtTokenPayment), DexError> {
        match a {
            Err(e) => Err(e),
            Ok(p1) => match b {
                Err(e) => Err(e),
                Ok(p2) => Ok((p1, p2)),
            },
        }
    }

    /// Values a liquidity position manipulation-resistantly: each side's spot
    /// worth is priced through the time-weighted window ending at the current
    /// round, so the two outputs are the two sides' safe values. An empty
    /// pool values to zero on both sides.
    pub fn get_tokens_for_given_position_with_safe_price(
        &self,
        liquidity: u64,
        current_round: u64,
    ) -> (r: Result<(EsdtTokenPayment, EsdtTokenPayment), DexError>)
        requires
            self.wf(),
            self.lp_token_supply > 0 ==> self.first_token_worth_spec(liquidity)
                <= u64::MAX as int && self.second_token_worth_spec(liquidity) <= u64::MAX as int,
            self.lp_token_supply > 0 ==> forall|f: PriceObservation, l: PriceObservation|
                self.valuation_window(current_round, f, l) ==> {
                    &&& self.price_computable(
                        EsdtTokenPayment {
                            token_identifier: self.second_token_id,
                            token_nonce: 0,
                            amount: self.second_token_worth_spec(liquidity) as u64,
                        },
                        f,
                        l,
                    )
                    &&& self.price_computable(
                        EsdtTokenPayment {
                            token_identifier: self.first_token_id,
                            token_nonce: 0,
                            amount: self.first_token_worth_spec(liquidity) as u64,
                        },
                        f,
                        l,
                    )
                },
            self.second_token_id != self.first_token_id,
        ensures
            self.lp_token_supply == 0 ==> r == Ok::<(EsdtTokenPayment, EsdtTokenPayment), DexError>(
                (
                    EsdtTokenPayment {
                        token_identifier: self.first_token_id,
                        token_nonce: 0,
                        amount: 0,
                    },
                    EsdtTokenPayment {
                        token_identifier: self.second_token_id,
                        token_nonce: 0,
                        amount: 0,
                    },
                ),
            ),
            self.lp_token_supply > 0 && self.obs().len() == 0 ==> r == Err::<
                (EsdtTokenPayment, EsdtTokenPayment),
                DexError,
            >(DexError::ObservationDoesNotExist),
            self.lp_token_supply > 0 && self.obs().len() > 0 && current_round
                < self.oldest().recording_round ==> r == Err::<
                (EsdtTokenPayment, EsdtTokenPayment),
                DexError,
            >(DexError::ObservationDoesNotExist),
            self.lp_token_supply > 0 && self.obs().len() > 0 && current_round
                >= self.oldest().recording_round ==> exists|f: PriceObservation,
            l: PriceObservation|
                self.valuation_window(current_round, f, l) && r == Self::paired_result(
                    self.weighted_price_spec(
                        EsdtTokenPayment {
                            token_identifier: self.second_token_id,
                            token_nonce: 0,
                            amount: self.second_token_worth_spec(liquidity) as u64,
                        },
                        f,
                        l,
                    ),
                    self.weighted_price_spec(
                        EsdtTokenPayment {
                            token_identifier: self.first_token_id,
                            token_nonce: 0,
                            amount: self.first_token_worth_spec(liquidity) as u64,
                        },
                        f,
                        l,
                    ),
                ),
    {
        if self.lp_token_supply == 0 {
            return Ok(
                (
                    EsdtTokenPayment::new(self.first_token_id, 0, 0),
                    EsdtTokenPayment::new(self.second_token_id, 0, 0),
                ),
            );
        }

        let last_price_observation = match self.get_price_observation(current_round) {
            Ok(o) => o,
            Err(e) => {
                return Err(e);
            },
        };

        let oldest_observation_index = if self.price_observations.len()
            < self.safe_price_max_observations {
            0
        } else {
            (self.safe_price_current_index + 1) % self.safe_price_max_observations
        };
        proof {
            if self.price_observations.len() == self.safe_price_max_observations {
                if self.safe_price_current_index + 1 == self.safe_price_max_observations {
                    vstd::arithmetic::div_mod::lemma_mod_self_0(
                        self.safe_price_max_observations as int,
                    );
                } else {
                    vstd::arithmetic::div_mod::lemma_small_mod(
                        (self.safe_price_current_index + 1) as nat,
                        self.safe_price_max_observations as nat,
                    );
                }
            }
            assert(oldest_observation_index as int == self.oldest_index());
            self.lemma_oldest_le_newest();
        }
        let oldest_observation = self.price_observations[oldest_observation_index];

        let mut first_price_observation = oldest_observation;
        if last_price_observation.recording_round - oldest_observation.recording_round
            > DEFAULT_SAFE_PRICE_ROUNDS_OFFSET {
            let offset_round = last_price_observation.recording_round
                - DEFAULT_SAFE_PRICE_ROUNDS_OFFSET;
            first_price_observation = match self.get_price_observation(offset_round) {
                Ok(o) => o,
                Err(e) => {
                    return Err(e);
                },
            };
        }
        proof {
            assert(self.valuation_window(
                current_round,
                first_price_observation,
                last_price_observation,
            ));
        }

        proof {
            assert(liquidity as int * self.pair_reserve_first as int
                <= u64::MAX as int * u64::MAX as int) by (nonlinear_arith)
                requires
                    0 <= liquidity <= u64::MAX,
                    0 <= self.pair_reserve_first <= u64::MAX,
            ;
            assert(liquidity as int * self.pair_reserve_second as int
                <= u64::MAX as int * u64::MAX as int) by (nonlinear_arith)
                requires
                    0 <= liquidity <= u64::MAX,
                    0 <= self.pair_reserve_second <= u64::MAX,
            ;
        }
        let first_token_worth = (((liquidity as u128) * (self.pair_reserve_first as u128)) / (
        self.lp_token_supply as u128)) as u64;
        let second_token_worth = (((liquidity as u128) * (self.pair_reserve_second as u128)) / (
        self.lp_token_supply as u128)) as u64;

        let first_token_payment = EsdtTokenPayment::new(self.first_token_id, 0, first_token_worth);
        let second_token_payment = EsdtTokenPayment::new(
            self.second_token_id,
            0,
            second_token_worth,
        );

        let first_token_weighted = match self.compute_weighted_price(
            second_token_payment,
            &first_price_observation,
            &last_price_observation,
        ) {
            Ok(p) => p,
            Err(e) => {
                return Err(e);
            },
        };
        let second_token_weighted = match self.compute_weighted_price(
            first_token_payment,
            &first_price_observation,
            &last_price_observation,
        ) {
            Ok(p) => p,
            Err(e) => {
                return Err(e);
            },
        };
        Ok((first_token_weighted, second_token_weighted))
    }
}

} // verus!
