//! Age-structured population dynamics for a multi-stage plant life cycle.
//!
//! The core is the exact cohort pipe — an age ledger with a configurable
//! lifespan whose loss, population, tick, resize and cull operations carry
//! exact conservation contracts — and the life-cycle machine that composes
//! nine such pipes and two raw counters into one conservation-respecting
//! tick, driven by named control parameters resolved from the environment.
//! Every tick is specified as a function of the previous state and the
//! parameters alone, so runs are deterministic by construction.

pub mod fsm;
pub mod param;
pub mod state_pipe;
pub mod sums;

pub use fsm::PlantStateMachine;
pub use param::{ParamError, PlantFsmParams, SpecificParameterVector};
pub use state_pipe::GroundTruthStatePipe;
pub use sums::sum_of;
