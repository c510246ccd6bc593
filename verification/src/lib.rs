//! Orchestration of transaction simulations against a pinned fork of a chain.
//!
//! The library decides which endpoint to fork from, turns client requests into
//! calls for an execution engine, and turns the engine's outcomes into
//! responses. The engine itself and all transport live outside of it.

pub mod assemble;
pub mod chain;
pub mod model;
pub mod orchestrator;
pub mod value;

pub use assemble::{assemble_response, flatten_trace};
pub use chain::chain_id_to_fork_url;
pub use model::{
    Address, CallKind, CallTrace, ContextParams, EngineFailure, ExecutionCall, ExecutionOutcome,
    SimulationError, SimulationRequest, SimulationResponse, TraceNode, Uint256,
};
pub use orchestrator::{
    conclude_simulation, plan_bundle, plan_simulation, prepare_call, BundlePlan, BundleRun,
    SimulationPlan,
};
pub use value::normalize_value;
