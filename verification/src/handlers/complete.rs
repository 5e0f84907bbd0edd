//! Completing a plan.

use vstd::prelude::*;
use crate::error::MeditationPlanError;
use crate::identity::Identity;
use crate::identity::same_identity;
use crate::integrity::Request;
use crate::state::meditation_plan::MeditationPlan;
use crate::state::meditation_plan::MeditationPlanView;

verus! {

/// A request to settle a plan.
#[derive(Clone, Debug, PartialEq, Eq)]
pub struct Complete {
    /// Who asks for the settlement.
    pub owner: Identity,
    /// The plan to settle.
    pub meditation_plan: MeditationPlan,
    /// What the vault of the plan holds at the time of the request.
    pub vault_amount: u64,
}

impl MeditationPlanView {
    /// Why the plan is not settled for `caller` at time `now`, or `None` if
    /// it is. Only the owner may ask; the plan must not be completed already;
    /// it must be active; and its schedule must be fulfilled or have run out.
    pub open spec fn complete_fault(self, caller: Identity, now: i64) -> Option<
        MeditationPlanError,
    > {
        if caller != self.owner {
            Some(MeditationPlanError::UnauthorizedAccess)
        } else if self.is_completed {
            Some(MeditationPlanError::PlanCompleted)
        } else if !self.is_active {
            Some(MeditationPlanError::PlanInactive)
        } else {
            self.completion_fault(now)
        }
    }
}

impl Complete {
    /// What the vault is to pay out for rewards of `rewards`: as much of them
    /// as it holds, and no payment at all where that is nothing.
    pub open spec fn payout(rewards: u64, vault_amount: u64) -> Option<u64> {
        if rewards == 0 || vault_amount == 0 {
            None
        } else if rewards <= vault_amount {
            Some(rewards)
        } else {
            Some(vault_amount)
        }
    }

    /// The amount that the vault is to release to the owner for the rewards
    /// that the plan shows, or `None` if nothing is to be released.
    pub fn transfer_rewards(&self) -> (amount: Option<u64>)
        ensures
            amount == Self::payout(self.meditation_plan.rewards, self.vault_amount),
    {
        let rewards: u64 = if self.meditation_plan.rewards <= self.vault_amount {
            self.meditation_plan.rewards
        } else {
            self.vault_amount
        };
        if rewards < 1 {
            return None;
        }
        Some(rewards)
    }

    /// Settles the plan at time `now` and says what the vault is to release to
    /// the owner: the rewards, as far as the vault holds them, or `None` where
    /// that is nothing. What is forfeited stays in the vault. A refused
    /// request changes nothing, and whoever is not the owner is turned away
    /// as unauthorized before anything else is looked at. After a settlement
    /// rewards and penalties are the stake exactly; a completed plan stays
    /// completed and a well-formed plan well-formed.
    pub fn complete(&mut self, now: i64) -> (result: Result<Option<u64>, MeditationPlanError>)
        ensures
            match result {
                Ok(amount) => {
                    &&& old(self).meditation_plan@.complete_fault(old(self).owner, now) is None
                    &&& final(self).meditation_plan@ == old(self).meditation_plan@.settle()
                    &&& final(self).meditation_plan.attestations
                        == old(self).meditation_plan.attestations
                    &&& final(self).owner == old(self).owner
                    &&& final(self).vault_amount == old(self).vault_amount
                    &&& amount == Self::payout(
                        final(self).meditation_plan.rewards,
                        old(self).vault_amount,
                    )
                },
                Err(fault) => {
                    &&& old(self).meditation_plan@.complete_fault(old(self).owner, now) == Some(
                        fault,
                    )
                    &&& *final(self) == *old(self)
                },
            },
            final(self).meditation_plan@ == old(self).meditation_plan@.after(
                (Request::Complete { caller: old(self).owner, now }),
            ),
            old(self).owner != old(self).meditation_plan.owner ==> result == Err::<
                Option<u64>,
                MeditationPlanError,
            >(MeditationPlanError::UnauthorizedAccess),
            result is Ok ==> final(self).meditation_plan.rewards
                + final(self).meditation_plan.penalties
                == old(self).meditation_plan.commitment_stake,
            old(self).meditation_plan.is_completed ==> final(self).meditation_plan.is_completed,
            old(self).meditation_plan@.well_formed() ==> final(self).meditation_plan@.well_formed(),
    {
        if !same_identity(&self.owner, &self.meditation_plan.owner) {
            return Err(MeditationPlanError::UnauthorizedAccess);
        }
        if self.meditation_plan.is_completed {
            return Err(MeditationPlanError::PlanCompleted);
        }
        if !self.meditation_plan.is_active {
            return Err(MeditationPlanError::PlanInactive);
        }
        match self.meditation_plan.complete(now) {
            Ok(()) => {},
            Err(fault) => {
                return Err(fault);
            },
        }
        Ok(self.transfer_rewards())
    }
}

} // verus!
