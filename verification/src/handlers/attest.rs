//! Attesting a session.

use vstd::prelude::*;
use crate::error::MeditationPlanError;
use crate::identity::Identity;
use crate::integrity::Request;
use crate::state::meditation_attestation::MeditationAttestation;
use crate::state::meditation_plan::MeditationPlan;
use crate::state::meditation_plan::MeditationPlanView;

verus! {

/// A request to record a session against a plan.
#[derive(Clone, Debug, PartialEq, Eq)]
pub struct Attest {
    /// Who attests.
    pub attester: Identity,
    /// The plan attested to.
    pub meditation_plan: MeditationPlan,
}

impl MeditationPlanView {
    /// Why the plan takes no attestation in the state it is in, or `None` if
    /// it does. A completed plan takes none. A plan that is not active takes
    /// one only as long as nothing is recorded: the first attestation is what
    /// makes a plan active, so one that holds sessions and is not active has
    /// been deactivated.
    pub open spec fn attest_state_fault(self) -> Option<MeditationPlanError> {
        if self.is_completed {
            Some(MeditationPlanError::PlanCompleted)
        } else if !self.is_active && self.attestations.len() > 0 {
            Some(MeditationPlanError::PlanInactive)
        } else {
            None
        }
    }

    /// Why a session that `attester` offers at time `now` is not recorded, or
    /// `None` if it is: the state of the plan comes first, then the rules of
    /// admission, then the accrual.
    pub open spec fn attest_fault(
        self,
        attester: Identity,
        started_at: i64,
        ended_at: i64,
        now: i64,
    ) -> Option<MeditationPlanError> {
        match self.attest_state_fault() {
            Some(fault) => Some(fault),
            None => self.save_attestation_fault(attester, started_at, ended_at, now),
        }
    }
}

impl Attest {
    /// Records the session that began at `started_at` and ended at `ended_at`,
    /// as seen at time `now`. On success the plan holds one session more, is
    /// active and has accrued the reward of one session; no funds move. A
    /// refused request changes nothing. The rewards never decrease, a
    /// completed plan stays completed and a well-formed plan well-formed. As
    /// long as the plan takes attestations at all, anyone but its owner is
    /// turned away as unauthorized.
    pub fn attest(&mut self, started_at: i64, ended_at: i64, now: i64) -> (result: Result<
        (),
        MeditationPlanError,
    >)
        ensures
            match result {
                Ok(()) => {
                    &&& old(self).meditation_plan@.attest_fault(
                        old(self).attester,
                        started_at,
                        ended_at,
                        now,
                    ) is None
                    &&& final(self).meditation_plan@ == old(self).meditation_plan@.record(
                        (MeditationAttestation {
                            attester: old(self).attester,
                            started_at,
                            ended_at,
                        }),
                    )
                    &&& final(self).attester == old(self).attester
                },
                Err(fault) => {
                    &&& old(self).meditation_plan@.attest_fault(
                        old(self).attester,
                        started_at,
                        ended_at,
                        now,
                    ) == Some(fault)
                    &&& *final(self) == *old(self)
                },
            },
            final(self).meditation_plan@ == old(self).meditation_plan@.after(
                (Request::Attest { attester: old(self).attester, started_at, ended_at, now }),
            ),
            final(self).meditation_plan.rewards >= old(self).meditation_plan.rewards,
            final(self).meditation_plan.is_completed == old(self).meditation_plan.is_completed,
            old(self).meditation_plan@.well_formed() ==> final(self).meditation_plan@.well_formed(),
            old(self).meditation_plan@.attest_state_fault() is None
                && old(self).attester != old(self).meditation_plan.owner
                ==> result == Err::<(), MeditationPlanError>(
                MeditationPlanError::UnauthorizedAccess,
            ),
    {
        if self.meditation_plan.is_completed {
            return Err(MeditationPlanError::PlanCompleted);
        }
        if !self.meditation_plan.is_active && self.meditation_plan.attestations.len() > 0 {
            return Err(MeditationPlanError::PlanInactive);
        }
        let attester: Identity = self.attester;
        self.meditation_plan.save_attestation(attester, started_at, ended_at, now)
    }
}

} // verus!
