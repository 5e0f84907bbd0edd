//! Creating a plan.

use vstd::prelude::*;
use crate::constants::DAY_IN_SECONDS;
use crate::constants::MAX_COMMITMENT_STAKE;
use crate::constants::MAX_DAILY_FREQUENCY;
use crate::constants::MAX_DURATION_MINUTES;
use crate::constants::MAX_NUMBER_OF_DAYS;
use crate::constants::MIN_COMMITMENT_STAKE;
use crate::constants::MIN_DAILY_FREQUENCY;
use crate::constants::MIN_DURATION_MINUTES;
use crate::constants::MIN_NUMBER_OF_DAYS;
use crate::constants::USDC_MINT;
use crate::error::MeditationPlanError;
use crate::identity::Identity;
use crate::identity::same_identity;
use crate::state::meditation_plan::MeditationPlan;
use crate::state::meditation_plan::MeditationPlanView;

verus! {

/// A request to create a plan.
#[derive(Clone, Copy, Debug, PartialEq, Eq)]
pub struct Initialize {
    /// Who creates the plan and puts up the stake.
    pub owner: Identity,
    /// The mint in which the stake is offered.
    pub mint: Identity,
}

impl Initialize {
    /// Why a plan with this schedule and stake is not created at time `now`,
    /// or `None` if it is. The checks are taken in the order in which they
    /// stand here; the last one is for a schedule that would end after the
    /// last instant that a timestamp can hold.
    pub open spec fn creation_fault(
        &self,
        number_of_days: u8,
        daily_frequency: u8,
        duration_minutes: u8,
        commitment_stake: u64,
        now: i64,
    ) -> Option<MeditationPlanError> {
        if number_of_days < MIN_NUMBER_OF_DAYS || number_of_days > MAX_NUMBER_OF_DAYS {
            Some(MeditationPlanError::InvalidNumberOfDays)
        } else if daily_frequency < MIN_DAILY_FREQUENCY || daily_frequency > MAX_DAILY_FREQUENCY {
            Some(MeditationPlanError::InvalidDailyFrequency)
        } else if duration_minutes < MIN_DURATION_MINUTES || duration_minutes
            > MAX_DURATION_MINUTES {
            Some(MeditationPlanError::InvalidDurationMinutes)
        } else if commitment_stake < MIN_COMMITMENT_STAKE || commitment_stake
            > MAX_COMMITMENT_STAKE {
            Some(MeditationPlanError::InvalidCommitmentStakeAmount)
        } else if self.mint != USDC_MINT {
            Some(MeditationPlanError::InvalidMint)
        } else if now + number_of_days * DAY_IN_SECONDS > i64::MAX {
            Some(MeditationPlanError::ArithmeticOverflow)
        } else {
            None
        }
    }

    /// The plan that this request creates at time `now`: it starts now and
    /// ends after its days, belongs to the one who asked, and has nothing
    /// recorded, accrued or forfeited yet.
    pub open spec fn created(
        &self,
        id: u64,
        number_of_days: u8,
        daily_frequency: u8,
        duration_minutes: u8,
        commitment_stake: u64,
        bump: u8,
        now: i64,
    ) -> MeditationPlanView {
        MeditationPlanView {
            attestations: Seq::empty(),
            bump,
            commitment_stake: commitment_stake as int,
            daily_frequency: daily_frequency as int,
            duration_minutes: duration_minutes as int,
            end_at: now + number_of_days * DAY_IN_SECONDS,
            id,
            is_active: false,
            is_completed: false,
            number_of_days: number_of_days as int,
            owner: self.owner,
            penalties: 0,
            rewards: 0,
            start_at: now as int,
        }
    }

    /// Creates the plan at time `now`, if the schedule, the stake and the mint
    /// are acceptable. The plan that comes back is well-formed. Its stake is
    /// what the owner has to lock; if that fails, the plan must not be kept.
    pub fn initialize(
        &self,
        id: u64,
        number_of_days: u8,
        daily_frequency: u8,
        duration_minutes: u8,
        commitment_stake: u64,
        bump: u8,
        now: i64,
    ) -> (result: Result<MeditationPlan, MeditationPlanError>)
        ensures
            match result {
                Ok(plan) => {
                    &&& self.creation_fault(
                        number_of_days,
                        daily_frequency,
                        duration_minutes,
                        commitment_stake,
                        now,
                    ) is None
                    &&& plan@ == self.created(
                        id,
                        number_of_days,
                        daily_frequency,
                        duration_minutes,
                        commitment_stake,
                        bump,
                        now,
                    )
                },
                Err(fault) => self.creation_fault(
                    number_of_days,
                    daily_frequency,
                    duration_minutes,
                    commitment_stake,
                    now,
                ) == Some(fault),
            },
            result matches Ok(plan) ==> plan@.well_formed(),
    {
        if number_of_days < MIN_NUMBER_OF_DAYS || number_of_days > MAX_NUMBER_OF_DAYS {
            return Err(MeditationPlanError::InvalidNumberOfDays);
        }
        if daily_frequency < MIN_DAILY_FREQUENCY || daily_frequency > MAX_DAILY_FREQUENCY {
            return Err(MeditationPlanError::InvalidDailyFrequency);
        }
        if duration_minutes < MIN_DURATION_MINUTES || duration_minutes > MAX_DURATION_MINUTES {
            return Err(MeditationPlanError::InvalidDurationMinutes);
        }
        if commitment_stake < MIN_COMMITMENT_STAKE || commitment_stake > MAX_COMMITMENT_STAKE {
            return Err(MeditationPlanError::InvalidCommitmentStakeAmount);
        }
        if !same_identity(&self.mint, &USDC_MINT) {
            return Err(MeditationPlanError::InvalidMint);
        }
        let start_at: i64 = now;
        let end_at: i64 = match start_at.checked_add(number_of_days as i64 * DAY_IN_SECONDS) {
            Some(end_at) => end_at,
            None => {
                return Err(MeditationPlanError::ArithmeticOverflow);
            },
        };
        Ok(
            MeditationPlan {
                attestations: Vec::new(),
                bump,
                commitment_stake,
                daily_frequency,
                duration_minutes,
                end_at,
                id,
                is_active: false,
                is_completed: false,
                number_of_days,
                owner: self.owner,
                penalties: 0,
                rewards: 0,
                start_at,
            },
        )
    }
}

} // verus!
