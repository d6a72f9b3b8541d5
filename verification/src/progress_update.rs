//! Weekly claim-progress upkeep around farm entries and merges: positions may
//! only be merged once the user's weekly claim progress has caught up, and
//! entering refreshes the recorded energy for the current week.

use vstd::prelude::*;
use crate::errors::DexError;
use crate::simple_lock_energy::Energy;

verus! {

/// Where a user's weekly reward claiming stands.
#[derive(Clone, Copy, Debug, PartialEq, Eq, Structural)]
pub struct ClaimProgress {
    pub energy: Energy,
    pub week: u64,
}

/// The merge-time progress checks of a farm with weekly reward splitting.
pub struct ProgressUpdateModule {
    pub first_week_start_epoch: u64,
}

impl ProgressUpdateModule {
    /// Positions may be merged only when the user's claim progress, if any,
    /// is already at the current week.
    pub fn check_claim_progress_for_merge(
        &self,
        claim_progress: Option<&ClaimProgress>,
        current_week: u64,
    ) -> (r: Result<(), DexError>)
        ensures
            claim_progress is None ==> r == Ok::<(), DexError>(()),
            (claim_progress matches Some(p) && p.week == current_week) ==> r == Ok::<
                (),
                DexError,
            >(()),
            (claim_progress matches Some(p) && p.week != current_week) ==> r == Err::<
                (),
                DexError,
            >(DexError::ClaimProgressNotUpToDate),
    {
        match claim_progress {
            None => Ok(()),
            Some(progress) => {
                if progress.week == current_week {
                    Ok(())
                } else {
                    Err(DexError::ClaimProgressNotUpToDate)
                }
            },
        }
    }

    /// After entering, the user's energy is recorded for the current week and
    /// the claim progress reset to it.
    pub fn update_energy_and_progress_after_enter(
        &self,
        current_week: u64,
        current_user_energy: Energy,
    ) -> (r: ClaimProgress)
        ensures
            r == (ClaimProgress { energy: current_user_energy, week: current_week }),
    {
        ClaimProgress { energy: current_user_energy, week: current_week }
    }
}

} // verus!
