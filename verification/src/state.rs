//! The persisted record of a plan and the sessions recorded against it.

pub mod meditation_attestation;
pub mod meditation_plan;

pub use crate::state::meditation_attestation::MeditationAttestation;
pub use crate::state::meditation_plan::MeditationPlan;
pub use crate::state::meditation_plan::MeditationPlanView;
