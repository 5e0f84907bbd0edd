//! A commitment-and-escrow meditation tracker.
//!
//! A participant locks a stake, commits to a schedule of timed sessions and
//! attests each session as it happens. When the schedule is fulfilled or the
//! plan has run out, the stake is settled: refunded in full, or reduced by a
//! penalty for every missed session.
//!
//! The crate holds the rules and the arithmetic only. It reads no clock and
//! moves no funds: every request is told the time, and says what is to be
//! locked or released.
//!
//! - [`handlers`]: the three requests, [`Initialize`], [`Attest`] and
//!   [`Complete`], and who may make them in which state of a plan.
//! - [`state`]: the record of a plan, the rules by which a session is
//!   admitted, and the settlement.
//! - [`integrity`]: what is true of every plan, however it was used.

pub mod constants;
pub mod error;
pub mod handlers;
pub mod identity;
pub mod integrity;
pub mod state;

pub use crate::constants::DAY_IN_SECONDS;
pub use crate::constants::HOUR_IN_SECONDS;
pub use crate::constants::USDC_MINT;
pub use crate::error::MeditationPlanError;
pub use crate::handlers::attest::Attest;
pub use crate::handlers::complete::Complete;
pub use crate::handlers::initialize::Initialize;
pub use crate::identity::Identity;
pub use crate::state::meditation_attestation::MeditationAttestation;
pub use crate::state::meditation_plan::MeditationPlan;
pub use crate::state::meditation_plan::MeditationPlanView;
