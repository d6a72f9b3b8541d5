//! The fees collector: weekly accumulated fees are claimable while the
//! contract runs, and the owner may recompute users' energy entries while it
//! is paused. Collecting and forwarding the fee payments is ledger work; the
//! gating and the recomputation of the entries live here.

use vstd::prelude::*;
use crate::errors::DexError;
use crate::progress_update::ClaimProgress;
use crate::simple_lock_energy::Energy;

verus! {

/// The collector's state: when its first week started and whether it is
/// paused.
#[derive(Clone, Copy, Debug, PartialEq, Eq, Structural)]
pub struct FeesCollector {
    pub first_week_start_epoch: u64,
    pub paused: bool,
}

/// One energy correction: the user, the recomputed energy amount, and the
/// total tokens they have locked.
#[derive(Clone, Copy, Debug, PartialEq, Eq, Structural)]
pub struct EnergyCorrection {
    pub user: u64,
    pub energy_amount: i128,
    pub total_locked_tokens: u64,
}

impl FeesCollector {
    /// Sets the collector up: its first week starts now, unpaused.
    pub fn init(current_epoch: u64) -> (r: FeesCollector)
        ensures
            r == (FeesCollector { first_week_start_epoch: current_epoch, paused: false }),
    {
        FeesCollector { first_week_start_epoch: current_epoch, paused: false }
    }

    /// Rewards may be claimed only while the collector runs; the accumulated
    /// fee payments themselves are collected by the caller at the edge.
    pub fn claim_rewards(&self) -> (r: Result<(), DexError>)
        ensures
            self.paused ==> r == Err::<(), DexError>(DexError::CannotClaimWhilePaused),
            !self.paused ==> r == Ok::<(), DexError>(()),
    {
        if self.paused {
            return Err(DexError::CannotClaimWhilePaused);
        }
        Ok(())
    }

    /// What recomputing one user's entry yields: a fresh energy record for
    /// the current epoch, and the claim progress moved to it only when the
    /// progress already sits in the current week.
    pub open spec fn recompute_entry_spec(
        correction: EnergyCorrection,
        claim_progress: Option<ClaimProgress>,
        current_week: u64,
        current_epoch: u64,
    ) -> (Energy, Option<ClaimProgress>) {
        let energy_entry = Energy {
            amount: correction.energy_amount,
            last_update_epoch: current_epoch,
            total_locked_tokens: correction.total_locked_tokens,
        };
        (
            energy_entry,
            match claim_progress {
                Some(p) => if p.week == current_week {
                    Some(ClaimProgress { energy: energy_entry, week: p.week })
                } else {
                    Some(p)
                },
                None => None,
            },
        )
    }

    /// Recomputes one user's energy entry; only allowed while paused.
    pub fn recompute_energy_entry(
        &self,
        correction: &EnergyCorrection,
        claim_progress: Option<ClaimProgress>,
        current_week: u64,
        current_epoch: u64,
    ) -> (r: Result<(Energy, Option<ClaimProgress>), DexError>)
        ensures
            !self.paused ==> r == Err::<(Energy, Option<ClaimProgress>), DexError>(
                DexError::OnlyRecomputeWhilePaused,
            ),
            self.paused ==> r == Ok::<(Energy, Option<ClaimProgress>), DexError>(
                Self::recompute_entry_spec(
                    *correction,
                    claim_progress,
                    current_week,
                    current_epoch,
                ),
            ),
    {
        if !self.paused {
            return Err(DexError::OnlyRecomputeWhilePaused);
        }
        let energy_entry = Energy::new(
            correction.energy_amount,
            current_epoch,
            correction.total_locked_tokens,
        );
        let new_progress = match claim_progress {
            Some(p) => {
                if p.week == current_week {
                    Some(ClaimProgress { energy: energy_entry, week: p.week })
                } else {
                    Some(p)
                }
            },
            None => None,
        };
        Ok((energy_entry, new_progress))
    }
}

} // verus!
