//! The plan record: its schedule, its running account, and the rules by
//! which a session is admitted and the stake is settled.
//!
//! The rules are written once, over [`MeditationPlanView`], the plan as a
//! mathematical value. The methods of [`MeditationPlan`] compute what the
//! rules say, within the numbers that a record can hold.

use vstd::prelude::*;
use crate::constants::DAY_IN_SECONDS;
use crate::error::MeditationPlanError;
use crate::identity::Identity;
use crate::identity::same_identity;
use crate::integrity::lemma_record_keeps_well_formed;
use crate::integrity::lemma_settle_keeps_well_formed;
use crate::state::meditation_attestation::MeditationAttestation;
use crate::state::meditation_attestation::started_within;
use crate::state::meditation_attestation::count_started_within;

verus! {

/// One participant's staked schedule, with everything recorded against it.
#[derive(Clone, Debug, PartialEq, Eq)]
pub struct MeditationPlan {
    /// The sessions attested so far, in the order in which they came.
    pub attestations: Vec<MeditationAttestation>,
    /// The bump of the address under which the record is stored.
    pub bump: u8,
    /// The amount locked when the plan was created, in base units.
    pub commitment_stake: u64,
    /// How many sessions a day the plan asks for.
    pub daily_frequency: u8,
    /// How many minutes a session must last to count.
    pub duration_minutes: u8,
    /// When the schedule runs out: `start_at` plus its days.
    pub end_at: i64,
    /// The number that the owner gave the plan.
    pub id: u64,
    /// Set by the first attestation, cleared by completion.
    pub is_active: bool,
    /// Set by completion, never cleared.
    pub is_completed: bool,
    /// How many days the schedule runs.
    pub number_of_days: u8,
    /// Who created the plan and alone may attest to it and complete it.
    pub owner: Identity,
    /// The part of the stake forfeited at completion.
    pub penalties: u64,
    /// Accrued with every attestation; at completion, the part of the stake
    /// that goes back to the owner.
    pub rewards: u64,
    /// When the plan was created.
    pub start_at: i64,
}

/// A plan as a mathematical value: field by field the record itself, with the
/// sessions as a sequence and with amounts, counts and times as integers
/// without bounds.
#[verifier::ext_equal]
pub ghost struct MeditationPlanView {
    pub attestations: Seq<MeditationAttestation>,
    pub bump: u8,
    pub commitment_stake: int,
    pub daily_frequency: int,
    pub duration_minutes: int,
    pub end_at: int,
    pub id: u64,
    pub is_active: bool,
    pub is_completed: bool,
    pub number_of_days: int,
    pub owner: Identity,
    pub penalties: int,
    pub rewards: int,
    pub start_at: int,
}

impl View for MeditationPlan {
    type V = MeditationPlanView;

    open spec fn view(&self) -> MeditationPlanView {
        MeditationPlanView {
            attestations: self.attestations@,
            bump: self.bump,
            commitment_stake: self.commitment_stake as int,
            daily_frequency: self.daily_frequency as int,
            duration_minutes: self.duration_minutes as int,
            end_at: self.end_at as int,
            id: self.id,
            is_active: self.is_active,
            is_completed: self.is_completed,
            number_of_days: self.number_of_days as int,
            owner: self.owner,
            penalties: self.penalties as int,
            rewards: self.rewards as int,
            start_at: self.start_at as int,
        }
    }
}

impl MeditationPlanView {
    /// The sessions of a fully kept schedule.
    pub open spec fn total_sessions(self) -> int {
        self.number_of_days * self.daily_frequency
    }

    /// What one session is worth: the stake divided by the sessions of the
    /// schedule, rounded down.
    pub open spec fn reward_per_session(self) -> int {
        self.commitment_stake / self.total_sessions()
    }

    /// The day of the plan, counted from zero, in which the instant `at`
    /// lies. Days are counted from `start_at`.
    pub open spec fn day_of(self, at: int) -> int {
        (at - self.start_at) / (DAY_IN_SECONDS as int)
    }

    /// The instant at which day `day` of the plan begins.
    pub open spec fn day_start(self, day: int) -> int {
        self.start_at + day * DAY_IN_SECONDS
    }

    /// How many recorded sessions began on day `day` of the plan.
    pub open spec fn sessions_on_day(self, day: int) -> nat {
        started_within(self.attestations, self.day_start(day), self.day_start(day + 1))
    }

    /// The first rule that a session offered by `attester` at time `now`
    /// breaks, or `None` if the session is admitted. The rules are taken in
    /// the order in which they stand here. A session whose length does not fit
    /// a timestamp is refused for its timestamps.
    pub open spec fn attestation_fault(
        self,
        attester: Identity,
        started_at: i64,
        ended_at: i64,
        now: i64,
    ) -> Option<MeditationPlanError> {
        if self.owner != attester {
            Some(MeditationPlanError::UnauthorizedAccess)
        } else if started_at > now || ended_at > now {
            Some(MeditationPlanError::InvalidTimestamps)
        } else if ended_at <= started_at {
            Some(MeditationPlanError::InvalidTimestamps)
        } else if started_at < self.start_at {
            Some(MeditationPlanError::PlanNotStarted)
        } else if started_at > self.end_at {
            Some(MeditationPlanError::PlanExpired)
        } else if ended_at - started_at > i64::MAX {
            Some(MeditationPlanError::InvalidTimestamps)
        } else if ended_at - started_at < self.duration_minutes * 60 {
            Some(MeditationPlanError::AttestationTooShort)
        } else if ended_at - started_at > MeditationAttestation::MAX_DURATION {
            Some(MeditationPlanError::AttestationTooLong)
        } else if self.sessions_on_day(self.day_of(started_at as int)) >= self.daily_frequency {
            Some(MeditationPlanError::DailyFrequencyExceeded)
        } else {
            None
        }
    }

    /// Why the reward of one more session cannot be added to the account, if
    /// it cannot: the schedule has no sessions to divide the stake by, or the
    /// sum does not fit the account.
    pub open spec fn accrual_fault(self) -> Option<MeditationPlanError> {
        if self.total_sessions() == 0 || self.rewards + self.reward_per_session() > u64::MAX {
            Some(MeditationPlanError::ArithmeticOverflow)
        } else {
            None
        }
    }

    /// Why a session offered by `attester` at time `now` is not recorded, or
    /// `None` if it is: the first rule of admission that it breaks, else what
    /// stops the accrual.
    pub open spec fn save_attestation_fault(
        self,
        attester: Identity,
        started_at: i64,
        ended_at: i64,
        now: i64,
    ) -> Option<MeditationPlanError> {
        match self.attestation_fault(attester, started_at, ended_at, now) {
            Some(fault) => Some(fault),
            None => self.accrual_fault(),
        }
    }

    /// The plan with `session` recorded: the session is appended, the plan is
    /// active, and the reward of one session is accrued.
    pub open spec fn record(self, session: MeditationAttestation) -> MeditationPlanView {
        MeditationPlanView {
            attestations: self.attestations.push(session),
            is_active: true,
            rewards: self.rewards + self.reward_per_session(),
            ..self
        }
    }

    /// The plan with `session` recorded `times` times over.
    pub open spec fn record_repeatedly(
        self,
        session: MeditationAttestation,
        times: nat,
    ) -> MeditationPlanView
        decreases times,
    {
        if times == 0 {
            self
        } else {
            self.record_repeatedly(session, (times - 1) as nat).record(session)
        }
    }

    /// Whether every session of the schedule has been attested.
    pub open spec fn all_sessions_completed(self) -> bool {
        self.attestations.len() >= self.total_sessions()
    }

    /// Why the plan cannot be settled at time `now`, or `None` if it can: it
    /// can once the schedule is fulfilled or has run out.
    pub open spec fn completion_fault(self, now: i64) -> Option<MeditationPlanError> {
        if self.all_sessions_completed() || now > self.end_at {
            None
        } else {
            Some(MeditationPlanError::PlanNotEnded)
        }
    }

    /// What a settlement forfeits: nothing if the schedule is fulfilled, else
    /// the worth of one session for every session that is missing.
    pub open spec fn settlement_penalties(self) -> int {
        if self.all_sessions_completed() {
            0
        } else {
            self.reward_per_session() * (self.total_sessions() - self.attestations.len())
        }
    }

    /// What a settlement gives back: the stake less what is forfeited.
    pub open spec fn settlement_rewards(self) -> int {
        self.commitment_stake - self.settlement_penalties()
    }

    /// The plan settled: completed, no longer active, and the stake split
    /// into what goes back and what is forfeited.
    pub open spec fn settle(self) -> MeditationPlanView {
        MeditationPlanView {
            is_completed: true,
            is_active: false,
            penalties: self.settlement_penalties(),
            rewards: self.settlement_rewards(),
            ..self
        }
    }
}

impl MeditationPlan {
    /// The sessions of a fully kept schedule.
    pub fn total_sessions(&self) -> (total: u64)
        ensures
            total == self@.total_sessions(),
    {
        assert(self.number_of_days as int * self.daily_frequency as int <= 255 * 255)
            by (nonlinear_arith)
            requires
                self.number_of_days <= 255,
                self.daily_frequency <= 255,
        ;
        self.number_of_days as u64 * self.daily_frequency as u64
    }

    /// What one session is worth when the schedule has `total_sessions`
    /// sessions. A schedule without sessions has nothing to divide by.
    pub fn reward_per_session(&self, total_sessions: u64) -> (result: Result<
        u64,
        MeditationPlanError,
    >)
        ensures
            result == (if total_sessions == 0 {
                Err::<u64, MeditationPlanError>(MeditationPlanError::ArithmeticOverflow)
            } else {
                Ok(self.commitment_stake / total_sessions)
            }),
    {
        match self.commitment_stake.checked_div(total_sessions) {
            Some(reward) => Ok(reward),
            None => Err(MeditationPlanError::ArithmeticOverflow),
        }
    }

    /// Holds a session offered by `attester` at time `now` against the rules
    /// of the plan, and names the first one that it breaks.
    pub fn validate_attestation(
        &self,
        attester: Identity,
        started_at: i64,
        ended_at: i64,
        now: i64,
    ) -> (result: Result<(), MeditationPlanError>)
        ensures
            result == (match self@.attestation_fault(attester, started_at, ended_at, now) {
                Some(fault) => Err::<(), MeditationPlanError>(fault),
                None => Ok(()),
            }),
    {
        if !same_identity(&self.owner, &attester) {
            return Err(MeditationPlanError::UnauthorizedAccess);
        }
        if started_at > now || ended_at > now {
            return Err(MeditationPlanError::InvalidTimestamps);
        }
        if ended_at <= started_at {
            return Err(MeditationPlanError::InvalidTimestamps);
        }
        if started_at < self.start_at {
            return Err(MeditationPlanError::PlanNotStarted);
        }
        if started_at > self.end_at {
            return Err(MeditationPlanError::PlanExpired);
        }
        let duration: i64 = match ended_at.checked_sub(started_at) {
            Some(duration) => duration,
            None => {
                return Err(MeditationPlanError::InvalidTimestamps);
            },
        };
        if duration < self.duration_minutes as i64 * 60 {
            return Err(MeditationPlanError::AttestationTooShort);
        }
        if duration > MeditationAttestation::MAX_DURATION {
            return Err(MeditationPlanError::AttestationTooLong);
        }
        let elapsed_seconds: i128 = started_at as i128 - self.start_at as i128;
        let day_index: i128 = elapsed_seconds / (DAY_IN_SECONDS as i128);
        let day_start: i128 = self.start_at as i128 + day_index * (DAY_IN_SECONDS as i128);
        let day_end: i128 = day_start + DAY_IN_SECONDS as i128;
        let sessions_today: usize = count_started_within(&self.attestations, day_start, day_end);
        if sessions_today >= self.daily_frequency as usize {
            return Err(MeditationPlanError::DailyFrequencyExceeded);
        }
        Ok(())
    }

    /// Records a session offered by `attester` at time `now`, if the rules
    /// admit it: appends it, marks the plan active and accrues the reward of
    /// one session. A refused session changes nothing. The rewards never
    /// decrease, and an open plan that was well-formed stays so.
    pub fn save_attestation(
        &mut self,
        attester: Identity,
        started_at: i64,
        ended_at: i64,
        now: i64,
    ) -> (result: Result<(), MeditationPlanError>)
        ensures
            match result {
                Ok(()) => {
                    &&& old(self)@.save_attestation_fault(attester, started_at, ended_at, now)
                        is None
                    &&& final(self)@ == old(self)@.record(
                        (MeditationAttestation { attester, started_at, ended_at }),
                    )
                },
                Err(fault) => {
                    &&& old(self)@.save_attestation_fault(attester, started_at, ended_at, now)
                        == Some(fault)
                    &&& *final(self) == *old(self)
                },
            },
            final(self).rewards >= old(self).rewards,
            final(self).is_completed == old(self).is_completed,
            old(self)@.well_formed() && !old(self).is_completed ==> final(self)@.well_formed(),
    {
        match self.validate_attestation(attester, started_at, ended_at, now) {
            Ok(()) => {},
            Err(fault) => {
                return Err(fault);
            },
        }
        let total_sessions: u64 = self.total_sessions();
        let reward_per_session: u64 = match self.reward_per_session(total_sessions) {
            Ok(reward) => reward,
            Err(fault) => {
                return Err(fault);
            },
        };
        let rewards: u64 = match self.rewards.checked_add(reward_per_session) {
            Some(rewards) => rewards,
            None => {
                return Err(MeditationPlanError::ArithmeticOverflow);
            },
        };
        self.attestations.push(MeditationAttestation { attester, started_at, ended_at });
        self.is_active = true;
        self.rewards = rewards;
        proof {
            if old(self)@.well_formed() && !old(self).is_completed {
                lemma_record_keeps_well_formed(
                    old(self)@,
                    MeditationAttestation { attester, started_at, ended_at },
                    now,
                );
            }
        }
        Ok(())
    }

    /// Settles the plan at time `now`, if the schedule is fulfilled or has run
    /// out: the owner gets the whole stake back for a fulfilled schedule, and
    /// forfeits the worth of one session for each one missing otherwise. The
    /// plan is then completed for good, and rewards and penalties are the
    /// stake exactly. What is forfeited never exceeds the stake, so the
    /// arithmetic of a settlement cannot fail. A plan that has not ended is
    /// left as it was.
    pub fn complete(&mut self, now: i64) -> (result: Result<(), MeditationPlanError>)
        ensures
            match result {
                Ok(()) => {
                    &&& old(self)@.completion_fault(now) is None
                    &&& final(self)@ == old(self)@.settle()
                    &&& final(self).attestations == old(self).attestations
                },
                Err(fault) => {
                    &&& old(self)@.completion_fault(now) == Some(fault)
                    &&& *final(self) == *old(self)
                },
            },
            result is Ok ==> final(self).rewards + final(self).penalties
                == old(self).commitment_stake,
            old(self).is_completed ==> final(self).is_completed,
            old(self)@.well_formed() ==> final(self)@.well_formed(),
    {
        let total_sessions: u64 = self.total_sessions();
        let completed_sessions: u64 = self.attestations.len() as u64;
        let all_sessions_completed: bool = completed_sessions >= total_sessions;
        let is_expired: bool = now > self.end_at;
        if !(all_sessions_completed || is_expired) {
            return Err(MeditationPlanError::PlanNotEnded);
        }
        proof {
            if old(self)@.well_formed() {
                lemma_settle_keeps_well_formed(old(self)@);
            }
        }
        if all_sessions_completed {
            self.is_completed = true;
            self.is_active = false;
            self.rewards = self.commitment_stake;
            self.penalties = 0;
            return Ok(());
        }
        let penalty_per_session: u64 = self.commitment_stake / total_sessions;
        let missed_sessions: u64 = total_sessions - completed_sessions;
        assert(penalty_per_session * missed_sessions <= self.commitment_stake) by (nonlinear_arith)
            requires
                penalty_per_session == self.commitment_stake / total_sessions,
                0 < missed_sessions <= total_sessions,
        ;
        let penalties: u64 = penalty_per_session * missed_sessions;
        self.is_completed = true;
        self.is_active = false;
        self.penalties = penalties;
        self.rewards = self.commitment_stake - penalties;
        Ok(())
    }
}

} // verus!
