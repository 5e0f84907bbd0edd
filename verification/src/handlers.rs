//! The three requests that a plan answers: create it, attest a session,
//! complete it. Each names who asks and holds what the request works on.

pub mod attest;
pub mod complete;
pub mod initialize;

pub use crate::handlers::attest::Attest;
pub use crate::handlers::complete::Complete;
pub use crate::handlers::initialize::Initialize;
