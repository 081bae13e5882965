//! Supervision: strategies, and the supervisor's decisions on child
//! failures.
pub mod strategy;
pub mod supervisor;

pub use strategy::{SupervisionDecision, SupervisionStrategy};
pub use supervisor::{Supervisor, SupervisorMessage};
