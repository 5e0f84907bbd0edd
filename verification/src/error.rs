//! The reasons for which a request to a plan is refused.

use vstd::prelude::*;

verus! {

/// Why a plan could not be created, attested to or completed. A refused
/// request leaves the plan as it was.
#[derive(Clone, Copy, Debug, PartialEq, Eq, Structural)]
pub enum MeditationPlanError {
    /// A session lasted more than eight hours.
    AttestationTooLong,
    /// A session lasted less than the plan asks for.
    AttestationTooShort,
    /// The day of the session holds its quota of sessions already.
    DailyFrequencyExceeded,
    /// The stake is under 10 or over 500 USDC.
    InvalidCommitmentStakeAmount,
    /// The plan asks for no session a day or for more than four.
    InvalidDailyFrequency,
    /// The plan asks for sessions under 5 or over 60 minutes.
    InvalidDurationMinutes,
    /// The stake is offered in another mint than USDC.
    InvalidMint,
    /// The schedule runs under 7 or over 30 days.
    InvalidNumberOfDays,
    /// A session lies in the future, or does not end after it began.
    InvalidTimestamps,
    /// The plan is settled and takes no further request.
    PlanCompleted,
    /// A session began after the plan had ended.
    PlanExpired,
    /// The plan is not active: it was never attested to, or was deactivated.
    PlanInactive,
    /// The schedule is neither fulfilled nor run out.
    PlanNotEnded,
    /// A session began before the plan did.
    PlanNotStarted,
    /// The caller is not the owner of the plan.
    UnauthorizedAccess,
    /// An amount or a time does not fit the number that holds it.
    ArithmeticOverflow,
}

impl MeditationPlanError {
    /// The variant's name as text.
    pub open spec fn spec_name(self) -> Seq<char> {
        match self {
            MeditationPlanError::AttestationTooLong => "AttestationTooLong"@,
            MeditationPlanError::AttestationTooShort => "AttestationTooShort"@,
            MeditationPlanError::DailyFrequencyExceeded => "DailyFrequencyExceeded"@,
            MeditationPlanError::InvalidCommitmentStakeAmount => "InvalidCommitmentStakeAmount"@,
            MeditationPlanError::InvalidDailyFrequency => "InvalidDailyFrequency"@,
            MeditationPlanError::InvalidDurationMinutes => "InvalidDurationMinutes"@,
            MeditationPlanError::InvalidMint => "InvalidMint"@,
            MeditationPlanError::InvalidNumberOfDays => "InvalidNumberOfDays"@,
            MeditationPlanError::InvalidTimestamps => "InvalidTimestamps"@,
            MeditationPlanError::PlanCompleted => "PlanCompleted"@,
            MeditationPlanError::PlanExpired => "PlanExpired"@,
            MeditationPlanError::PlanInactive => "PlanInactive"@,
            MeditationPlanError::PlanNotEnded => "PlanNotEnded"@,
            MeditationPlanError::PlanNotStarted => "PlanNotStarted"@,
            MeditationPlanError::UnauthorizedAccess => "UnauthorizedAccess"@,
            MeditationPlanError::ArithmeticOverflow => "ArithmeticOverflow"@,
        }
    }

    /// The sentence that explains the variant.
    pub open spec fn spec_message(self) -> Seq<char> {
        match self {
            MeditationPlanError::AttestationTooLong => {
                "Meditation attestation must be under 8 hours"@
            },
            MeditationPlanError::AttestationTooShort => {
                "Meditation attestation is shorter than planned duration"@
            },
            MeditationPlanError::DailyFrequencyExceeded => {
                "Daily sessions are already completed for today"@
            },
            MeditationPlanError::InvalidCommitmentStakeAmount => {
                "Commitment stake must be between 10 and 500 USDC"@
            },
            MeditationPlanError::InvalidDailyFrequency => {
                "Daily frequency must be between 1 and 4"@
            },
            MeditationPlanError::InvalidDurationMinutes => {
                "Duration minutes must be between 5 and 60"@
            },
            MeditationPlanError::InvalidMint => "Only USDC mint is allowed"@,
            MeditationPlanError::InvalidNumberOfDays => "Number of days must be between 7 and 30"@,
            MeditationPlanError::InvalidTimestamps => "Attestation timestamps are invalid"@,
            MeditationPlanError::PlanCompleted => "Meditation plan has already been completed"@,
            MeditationPlanError::PlanExpired => "Meditation plan has expired"@,
            MeditationPlanError::PlanInactive => "Meditation plan is inactive"@,
            MeditationPlanError::PlanNotEnded => "Meditation plan has not ended yet"@,
            MeditationPlanError::PlanNotStarted => "Meditation plan has not started yet"@,
            MeditationPlanError::UnauthorizedAccess => {
                "Unauthorized access to the meditation plan"@
            },
            MeditationPlanError::ArithmeticOverflow => "An arithmetic operation overflowed"@,
        }
    }

    /// What `to_string` renders: the name and the message, each with its
    /// label.
    pub open spec fn spec_to_string(self) -> Seq<char> {
        "Error Code: "@ + self.spec_name() + ". Error Message: "@ + self.spec_message() + "."@
    }

    /// The variant's name, for logs and for callers that match on text.
    pub fn name(&self) -> (text: &'static str)
        ensures
            text@ == self.spec_name(),
    {
        match self {
            MeditationPlanError::AttestationTooLong => "AttestationTooLong",
            MeditationPlanError::AttestationTooShort => "AttestationTooShort",
            MeditationPlanError::DailyFrequencyExceeded => "DailyFrequencyExceeded",
            MeditationPlanError::InvalidCommitmentStakeAmount => "InvalidCommitmentStakeAmount",
            MeditationPlanError::InvalidDailyFrequency => "InvalidDailyFrequency",
            MeditationPlanError::InvalidDurationMinutes => "InvalidDurationMinutes",
            MeditationPlanError::InvalidMint => "InvalidMint",
            MeditationPlanError::InvalidNumberOfDays => "InvalidNumberOfDays",
            MeditationPlanError::InvalidTimestamps => "InvalidTimestamps",
            MeditationPlanError::PlanCompleted => "PlanCompleted",
            MeditationPlanError::PlanExpired => "PlanExpired",
            MeditationPlanError::PlanInactive => "PlanInactive",
            MeditationPlanError::PlanNotEnded => "PlanNotEnded",
            MeditationPlanError::PlanNotStarted => "PlanNotStarted",
            MeditationPlanError::UnauthorizedAccess => "UnauthorizedAccess",
            MeditationPlanError::ArithmeticOverflow => "ArithmeticOverflow",
        }
    }

    /// One sentence for the person who made the request.
    pub fn message(&self) -> (text: &'static str)
        ensures
            text@ == self.spec_message(),
    {
        match self {
            MeditationPlanError::AttestationTooLong => {
                "Meditation attestation must be under 8 hours"
            },
            MeditationPlanError::AttestationTooShort => {
                "Meditation attestation is shorter than planned duration"
            },
            MeditationPlanError::DailyFrequencyExceeded => {
                "Daily sessions are already completed for today"
            },
            MeditationPlanError::InvalidCommitmentStakeAmount => {
                "Commitment stake must be between 10 and 500 USDC"
            },
            MeditationPlanError::InvalidDailyFrequency => "Daily frequency must be between 1 and 4",
            MeditationPlanError::InvalidDurationMinutes => {
                "Duration minutes must be between 5 and 60"
            },
            MeditationPlanError::InvalidMint => "Only USDC mint is allowed",
            MeditationPlanError::InvalidNumberOfDays => "Number of days must be between 7 and 30",
            MeditationPlanError::InvalidTimestamps => "Attestation timestamps are invalid",
            MeditationPlanError::PlanCompleted => "Meditation plan has already been completed",
            MeditationPlanError::PlanExpired => "Meditation plan has expired",
            MeditationPlanError::PlanInactive => "Meditation plan is inactive",
            MeditationPlanError::PlanNotEnded => "Meditation plan has not ended yet",
            MeditationPlanError::PlanNotStarted => "Meditation plan has not started yet",
            MeditationPlanError::UnauthorizedAccess => "Unauthorized access to the meditation plan",
            MeditationPlanError::ArithmeticOverflow => "An arithmetic operation overflowed",
        }
    }

    /// The error as one line of text:
    /// `Error Code: <name>. Error Message: <message>.`
    pub fn to_string(&self) -> (text: String)
        ensures
            text@ == self.spec_to_string(),
    {
        let text = String::from_str("Error Code: ");
        let text = text.concat(self.name());
        let text = text.concat(". Error Message: ");
        let text = text.concat(self.message());
        text.concat(".")
    }
}

} // verus!
