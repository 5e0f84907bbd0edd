//! What holds of every plan that was created and then only attested to and
//! completed, and what follows from it.
//!
//! Creation establishes [`MeditationPlanView::well_formed`], and whatever a
//! plan is asked afterwards keeps it ([`lemma_requests_keep_well_formed`]).
//! The other public lemmas say what a well-formed plan can be relied on for.

use vstd::prelude::*;
use crate::constants::DAY_IN_SECONDS;
use crate::constants::MAX_COMMITMENT_STAKE;
use crate::constants::MAX_DAILY_FREQUENCY;
use crate::constants::MAX_DURATION_MINUTES;
use crate::constants::MAX_NUMBER_OF_DAYS;
use crate::constants::MIN_COMMITMENT_STAKE;
use crate::constants::MIN_DAILY_FREQUENCY;
use crate::constants::MIN_DURATION_MINUTES;
use crate::constants::MIN_NUMBER_OF_DAYS;
use crate::error::MeditationPlanError;
use crate::identity::Identity;
use crate::state::meditation_attestation::MeditationAttestation;
use crate::state::meditation_attestation::started_within;
use crate::state::meditation_attestation::lemma_started_within_all;
use crate::state::meditation_attestation::lemma_started_within_none;
use crate::state::meditation_attestation::lemma_started_within_push;
use crate::state::meditation_attestation::lemma_started_within_split;
use crate::state::meditation_plan::MeditationPlanView;

verus! {

/// What a plan can be asked once it is created.
pub ghost enum Request {
    /// `attester` attests at time `now` the session that began at
    /// `started_at` and ended at `ended_at`.
    Attest { attester: Identity, started_at: i64, ended_at: i64, now: i64 },
    /// `caller` asks at time `now` for the settlement.
    Complete { caller: Identity, now: i64 },
}

impl MeditationPlanView {
    /// The plan after `request`: changed as the request asks if it is
    /// granted, and as it was if it is refused.
    pub open spec fn after(self, request: Request) -> MeditationPlanView {
        match request {
            Request::Attest { attester, started_at, ended_at, now } => {
                if self.attest_fault(attester, started_at, ended_at, now) is None {
                    self.record(MeditationAttestation { attester, started_at, ended_at })
                } else {
                    self
                }
            },
            Request::Complete { caller, now } => {
                if self.complete_fault(caller, now) is None {
                    self.settle()
                } else {
                    self
                }
            },
        }
    }

    /// The plan after all of `requests`, one after the other.
    pub open spec fn after_all(self, requests: Seq<Request>) -> MeditationPlanView
        decreases requests.len(),
    {
        if requests.len() == 0 {
            self
        } else {
            self.after_all(requests.drop_last()).after(requests.last())
        }
    }

    /// The schedule and the stake are within their bounds, and the plan ends
    /// when its days are over.
    pub open spec fn schedule_valid(self) -> bool {
        &&& MIN_NUMBER_OF_DAYS <= self.number_of_days <= MAX_NUMBER_OF_DAYS
        &&& MIN_DAILY_FREQUENCY <= self.daily_frequency <= MAX_DAILY_FREQUENCY
        &&& MIN_DURATION_MINUTES <= self.duration_minutes <= MAX_DURATION_MINUTES
        &&& MIN_COMMITMENT_STAKE <= self.commitment_stake <= MAX_COMMITMENT_STAKE
        &&& self.end_at == self.start_at + self.number_of_days * DAY_IN_SECONDS
    }

    /// `session` is one that the plan admits at some time: it is the owner's,
    /// began while the plan ran, and lasted long enough and not too long.
    pub open spec fn session_valid(self, session: MeditationAttestation) -> bool {
        &&& session.attester == self.owner
        &&& self.start_at <= session.started_at <= self.end_at
        &&& self.duration_minutes * 60 <= session.ended_at - session.started_at
        &&& session.ended_at - session.started_at <= MeditationAttestation::MAX_DURATION
    }

    /// Every recorded session is one that the plan admits.
    pub open spec fn sessions_valid(self) -> bool {
        forall|i: int|
            0 <= i < self.attestations.len() ==> self.session_valid(
                #[trigger] self.attestations[i],
            )
    }

    /// No day of the plan holds more sessions than the plan asks for.
    pub open spec fn quota_kept(self) -> bool {
        forall|day: int| #[trigger] self.sessions_on_day(day) <= self.daily_frequency
    }

    /// The account fits the record. An open plan has forfeited nothing, has
    /// accrued the worth of one session for each one recorded, and is active
    /// once a session is recorded. A completed plan is not active and shows
    /// the settlement of what is recorded.
    pub open spec fn account_valid(self) -> bool {
        if self.is_completed {
            &&& !self.is_active
            &&& self.penalties == self.settlement_penalties()
            &&& self.rewards == self.settlement_rewards()
        } else {
            &&& self.penalties == 0
            &&& self.rewards == self.attestations.len() * self.reward_per_session()
            &&& self.is_active <==> self.attestations.len() > 0
        }
    }

    /// What creation establishes and attesting and completing keep.
    pub open spec fn well_formed(self) -> bool {
        &&& self.schedule_valid()
        &&& self.sessions_valid()
        &&& self.quota_kept()
        &&& self.account_valid()
    }

    /// How many recorded sessions began before the plan ended.
    pub open spec fn sessions_before_end(self) -> nat {
        started_within(self.attestations, self.start_at, self.end_at)
    }

    /// How many recorded sessions began at the very instant at which the plan
    /// ended. Such a session is still admitted, and it falls on the day after
    /// the last one of the schedule.
    pub open spec fn sessions_at_end(self) -> nat {
        started_within(self.attestations, self.end_at, self.end_at + 1)
    }
}

/// In a valid schedule there are between 7 and 120 sessions, and each is
/// worth more base units than there are sessions.
proof fn lemma_schedule_arithmetic(plan: MeditationPlanView)
    requires
        plan.schedule_valid(),
    ensures
        7 <= plan.total_sessions() <= 120,
        plan.total_sessions() < plan.reward_per_session() <= plan.commitment_stake,
{
    let total = plan.total_sessions();
    let stake = plan.commitment_stake;
    assert(7 <= total <= 120) by (nonlinear_arith)
        requires
            total == plan.number_of_days * plan.daily_frequency,
            7 <= plan.number_of_days <= 30,
            1 <= plan.daily_frequency <= 4,
    ;
    assert(120 < stake / total <= stake) by (nonlinear_arith)
        requires
            7 <= total <= 120,
            10_000_000 <= stake,
    ;
}

/// The first `days` days of a plan hold at most `days` times the daily quota.
proof fn lemma_days_within_quota(plan: MeditationPlanView, days: nat)
    requires
        plan.quota_kept(),
    ensures
        started_within(plan.attestations, plan.start_at, plan.day_start(days as int)) <= days
            * plan.daily_frequency,
    decreases days,
{
    if days == 0 {
        lemma_started_within_none(plan.attestations, plan.start_at, plan.day_start(0));
    } else {
        let fewer = (days - 1) as nat;
        lemma_days_within_quota(plan, fewer);
        lemma_started_within_split(
            plan.attestations,
            plan.start_at,
            plan.day_start(fewer as int),
            plan.day_start(days as int),
        );
        assert(plan.sessions_on_day(fewer as int) <= plan.daily_frequency);
        assert(fewer * plan.daily_frequency + plan.daily_frequency == days * plan.daily_frequency)
            by (nonlinear_arith)
            requires
                fewer + 1 == days,
        ;
    }
}

/// The sessions of a plan against its schedule. Every session began either
/// before the plan ended or at the very instant of its end. Those of the
/// first kind never outnumber the schedule, and those of the second never a
/// day's quota. So a plan in which no session began at the instant of its end
/// holds no more sessions than its schedule has.
pub proof fn lemma_sessions_within_schedule(plan: MeditationPlanView)
    requires
        plan.well_formed(),
    ensures
        plan.attestations.len() == plan.sessions_before_end() + plan.sessions_at_end(),
        plan.sessions_before_end() <= plan.total_sessions(),
        plan.sessions_at_end() <= plan.daily_frequency,
        plan.sessions_at_end() == 0 ==> plan.attestations.len() <= plan.total_sessions(),
{
    let sessions = plan.attestations;
    let end = plan.end_at;
    let days = plan.number_of_days as nat;
    lemma_days_within_quota(plan, days);
    assert(days * plan.daily_frequency == plan.total_sessions()) by (nonlinear_arith)
        requires
            days == plan.number_of_days,
            plan.total_sessions() == plan.number_of_days * plan.daily_frequency,
    ;
    assert forall|i: int| 0 <= i < sessions.len() implies (#[trigger] sessions[i]).began_within(
        plan.start_at,
        end + 1,
    ) by {
        assert(plan.session_valid(sessions[i]));
    }
    lemma_started_within_all(sessions, plan.start_at, end + 1);
    lemma_started_within_split(sessions, plan.start_at, end, end + 1);
    lemma_started_within_split(sessions, end, end + 1, end + DAY_IN_SECONDS);
    assert(plan.sessions_on_day(days as int) <= plan.daily_frequency);
}

/// A plan in which no session began at the instant of its end holds none
/// that did, as counted.
pub proof fn lemma_no_session_at_end(plan: MeditationPlanView)
    requires
        forall|i: int|
            0 <= i < plan.attestations.len() ==> (#[trigger] plan.attestations[i]).started_at
                != plan.end_at,
    ensures
        plan.sessions_at_end() == 0,
{
    lemma_started_within_none(plan.attestations, plan.end_at, plan.end_at + 1);
}

/// The account of a plan against its stake. Once the plan is completed,
/// rewards and penalties are the stake exactly. Before that, they are within
/// the stake exactly as long as the sessions do not outnumber the schedule,
/// and they are the whole stake only when the schedule is fulfilled and the
/// stake divides evenly among its sessions.
pub proof fn lemma_account_within_stake(plan: MeditationPlanView)
    requires
        plan.well_formed(),
    ensures
        plan.is_completed ==> plan.rewards + plan.penalties == plan.commitment_stake,
        !plan.is_completed ==> (plan.rewards + plan.penalties <= plan.commitment_stake
            <==> plan.attestations.len() <= plan.total_sessions()),
        !plan.is_completed ==> (plan.rewards + plan.penalties == plan.commitment_stake <==> {
            &&& plan.attestations.len() == plan.total_sessions()
            &&& plan.commitment_stake % plan.total_sessions() == 0
        }),
{
    if !plan.is_completed {
        let total = plan.total_sessions();
        let stake = plan.commitment_stake;
        let each = plan.reward_per_session();
        let recorded = plan.attestations.len() as int;
        lemma_schedule_arithmetic(plan);
        assert(stake % total == stake - each * total && 0 <= stake % total < total)
            by (nonlinear_arith)
            requires
                each == stake / total,
                total > 0,
        ;
        if recorded < total {
            assert(recorded * each + each <= each * total) by (nonlinear_arith)
                requires
                    recorded + 1 <= total,
                    0 <= each,
            ;
        } else if recorded == total {
            assert(recorded * each == each * total) by (nonlinear_arith)
                requires
                    recorded == total,
            ;
        } else {
            assert(recorded * each >= each * total + each) by (nonlinear_arith)
                requires
                    recorded >= total + 1,
                    0 <= each,
            ;
        }
    }
}

/// A well-formed plan in which no session began at the instant of its end
/// shows rewards and penalties within its stake.
pub proof fn lemma_account_within_stake_before_end(plan: MeditationPlanView)
    requires
        plan.well_formed(),
        plan.sessions_at_end() == 0,
    ensures
        plan.attestations.len() <= plan.total_sessions(),
        plan.rewards + plan.penalties <= plan.commitment_stake,
{
    lemma_sessions_within_schedule(plan);
    lemma_account_within_stake(plan);
}

/// Under a valid schedule the reward of one more session always fits the
/// account of an open plan: the accrual cannot fault.
pub proof fn lemma_accrual_never_faults(plan: MeditationPlanView)
    requires
        plan.well_formed(),
        !plan.is_completed,
    ensures
        plan.accrual_fault() is None,
{
    let each = plan.reward_per_session();
    let recorded = plan.attestations.len() as int;
    lemma_schedule_arithmetic(plan);
    lemma_sessions_within_schedule(plan);
    assert(recorded * each + each <= 125 * each) by (nonlinear_arith)
        requires
            recorded <= 124,
            0 <= each,
    ;
}

/// A well-formed open plan stays well-formed when a session that it admits
/// is recorded.
pub proof fn lemma_record_keeps_well_formed(
    plan: MeditationPlanView,
    session: MeditationAttestation,
    now: i64,
)
    requires
        plan.well_formed(),
        !plan.is_completed,
        plan.attestation_fault(session.attester, session.started_at, session.ended_at, now)
            is None,
    ensures
        plan.record(session).well_formed(),
{
    let after = plan.record(session);
    assert forall|i: int| 0 <= i < after.attestations.len() implies after.session_valid(
        #[trigger] after.attestations[i],
    ) by {
        if i < plan.attestations.len() {
            assert(plan.session_valid(plan.attestations[i]));
        }
    }
    let today = plan.day_of(session.started_at as int);
    assert forall|day: int| #[trigger] after.sessions_on_day(day) <= after.daily_frequency by {
        lemma_started_within_push(
            plan.attestations,
            session,
            plan.day_start(day),
            plan.day_start(day + 1),
        );
        assert(plan.sessions_on_day(day) <= plan.daily_frequency);
        if plan.day_start(day) <= session.started_at < plan.day_start(day + 1) {
            assert(day == today);
        }
    }
    let each = plan.reward_per_session();
    let recorded = plan.attestations.len() as int;
    assert((recorded + 1) * each == recorded * each + each) by (nonlinear_arith);
}

/// A well-formed plan is well-formed after its settlement.
pub proof fn lemma_settle_keeps_well_formed(plan: MeditationPlanView)
    requires
        plan.well_formed(),
    ensures
        plan.settle().well_formed(),
{
    let after = plan.settle();
    assert forall|i: int| 0 <= i < after.attestations.len() implies after.session_valid(
        #[trigger] after.attestations[i],
    ) by {
        assert(plan.session_valid(plan.attestations[i]));
    }
    assert forall|day: int| #[trigger] after.sessions_on_day(day) <= after.daily_frequency by {
        assert(plan.sessions_on_day(day) <= plan.daily_frequency);
    }
}

/// Whatever a well-formed plan is asked, and whether it grants the request
/// or refuses it, it is well-formed afterwards. A plan is well-formed when it
/// is created, so every plan is that has only been attested to and completed
/// since.
pub proof fn lemma_requests_keep_well_formed(plan: MeditationPlanView, requests: Seq<Request>)
    requires
        plan.well_formed(),
    ensures
        plan.after_all(requests).well_formed(),
    decreases requests.len(),
{
    if requests.len() > 0 {
        let before = plan.after_all(requests.drop_last());
        lemma_requests_keep_well_formed(plan, requests.drop_last());
        match requests.last() {
            Request::Attest { attester, started_at, ended_at, now } => {
                if before.attest_fault(attester, started_at, ended_at, now) is None {
                    lemma_record_keeps_well_formed(
                        before,
                        MeditationAttestation { attester, started_at, ended_at },
                        now,
                    );
                }
            },
            Request::Complete { caller, now } => {
                if before.complete_fault(caller, now) is None {
                    lemma_settle_keeps_well_formed(before);
                }
            },
        }
    }
}

/// Completion is final: whatever a completed plan is asked, it refuses, and
/// stays exactly as it is.
pub proof fn lemma_completed_is_final(plan: MeditationPlanView, requests: Seq<Request>)
    requires
        plan.is_completed,
    ensures
        plan.after_all(requests) == plan,
    decreases requests.len(),
{
    if requests.len() > 0 {
        lemma_completed_is_final(plan, requests.drop_last());
    }
}

/// What recording the same session `times` times over leaves behind: the
/// session stands `times` times at the end of the record, its reward is
/// accrued that many times, the plan is active once the session is recorded,
/// and nothing else has changed. A day window then holds `times` sessions
/// more if the session began inside it, and as many as before otherwise.
pub proof fn lemma_record_repeatedly(
    plan: MeditationPlanView,
    session: MeditationAttestation,
    times: nat,
    from: int,
    until: int,
)
    ensures
        plan.record_repeatedly(session, times) == (MeditationPlanView {
            attestations: plan.attestations + Seq::new(times, |i: int| session),
            rewards: plan.rewards + times * plan.reward_per_session(),
            is_active: plan.is_active || times > 0,
            ..plan
        }),
        started_within(plan.record_repeatedly(session, times).attestations, from, until)
            == started_within(plan.attestations, from, until) + (if session.began_within(
            from,
            until,
        ) {
            times
        } else {
            0nat
        }),
    decreases times,
{
    if times == 0 {
        assert(plan.attestations + Seq::new(times, |i: int| session) =~= plan.attestations);
    } else {
        let fewer = (times - 1) as nat;
        let before = plan.record_repeatedly(session, fewer);
        lemma_record_repeatedly(plan, session, fewer, from, until);
        assert(plan.attestations + Seq::new(times, |i: int| session) =~= (plan.attestations
            + Seq::new(fewer, |i: int| session)).push(session));
        lemma_started_within_push(before.attestations, session, from, until);
        let each = plan.reward_per_session();
        assert(before.reward_per_session() == each);
        assert(times * each == fewer * each + each) by (nonlinear_arith)
            requires
                times == fewer + 1,
        ;
    }
}

/// Attesting the same session over and over. Let a request be granted on a
/// well-formed plan, and let the same session be attested again, at the same
/// time or later, after it was recorded `repeats` times. The day of the
/// session then holds `repeats` sessions more than at first, and the new
/// request is refused exactly when that fills the daily quota, and then for
/// that reason: the attempt that goes beyond the quota is the first one to be
/// refused.
pub proof fn lemma_repeated_attestation(
    plan: MeditationPlanView,
    attester: Identity,
    started_at: i64,
    ended_at: i64,
    now: i64,
    later_now: i64,
    repeats: nat,
)
    requires
        plan.well_formed(),
        plan.attest_fault(attester, started_at, ended_at, now) is None,
        now <= later_now,
    ensures
        ({
            let session = MeditationAttestation { attester, started_at, ended_at };
            let later = plan.record_repeatedly(session, repeats);
            let today = plan.day_of(started_at as int);
            let sessions_today = plan.sessions_on_day(today) + repeats;
            &&& later.sessions_on_day(today) == sessions_today
            &&& later.attest_fault(attester, started_at, ended_at, later_now) == (if sessions_today
                >= plan.daily_frequency {
                Some(MeditationPlanError::DailyFrequencyExceeded)
            } else {
                None
            })
        }),
{
    let session = MeditationAttestation { attester, started_at, ended_at };
    let later = plan.record_repeatedly(session, repeats);
    let today = plan.day_of(started_at as int);
    lemma_record_repeatedly(
        plan,
        session,
        repeats,
        plan.day_start(today),
        plan.day_start(today + 1),
    );
    assert(plan.day_start(today) <= started_at < plan.day_start(today + 1));
    assert(later.attest_state_fault() is None);
    if plan.sessions_on_day(today) + repeats < plan.daily_frequency {
        let each = plan.reward_per_session();
        let recorded = plan.attestations.len() as int;
        lemma_schedule_arithmetic(plan);
        lemma_sessions_within_schedule(plan);
        assert(later.reward_per_session() == each);
        assert(recorded * each + repeats * each + each <= 129 * each) by (nonlinear_arith)
            requires
                recorded <= 124,
                repeats <= 4,
                0 <= each,
        ;
    }
}

} // verus!
