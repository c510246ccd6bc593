//! Turning the engine's outcome into the client's response.

use crate::model::{
    text_of, CallTrace, ExecutionOutcome, SimulationResponse, SimulationResponseView, TraceNode,
};
use vstd::prelude::*;

verus! {

/// The client's record of one frame of the arena.
pub open spec fn call_trace_of(node: TraceNode) -> CallTrace {
    CallTrace { call_type: node.kind, from: node.caller, to: node.address, value: node.value }
}

/// The client's trace of an arena: the record of each frame, in the arena's
/// order.
pub open spec fn flattened(arena: Seq<TraceNode>) -> Seq<CallTrace> {
    Seq::new(arena.len(), |i: int| call_trace_of(arena[i]))
}

/// The frames of an outcome's arena; none where the engine captured no trace.
pub open spec fn arena_of(outcome: ExecutionOutcome) -> Seq<TraceNode> {
    match outcome.trace {
        Some(arena) => arena@,
        None => Seq::empty(),
    }
}

/// The response that an outcome assembles to under an identifier.
pub open spec fn assembled(simulation_id: u64, outcome: ExecutionOutcome) -> SimulationResponseView {
    SimulationResponseView {
        simulation_id,
        gas_used: outcome.gas_used,
        block_number: outcome.block_number,
        success: outcome.success,
        trace: flattened(arena_of(outcome)),
        formatted_trace: text_of(outcome.formatted_trace),
        logs: outcome.logs@,
        exit_reason: outcome.exit_reason,
    }
}

impl CallTrace {
    /// The client's record of one frame of the arena.
    pub fn from_node(node: &TraceNode) -> (r: CallTrace)
        ensures
            r == call_trace_of(*node),
    {
        CallTrace { call_type: node.kind, from: node.caller, to: node.address, value: node.value }
    }
}

/// Flattens a call-trace arena: one record per frame, in the arena's order.
pub fn flatten_trace(arena: &Vec<TraceNode>) -> (r: Vec<CallTrace>)
    ensures
        r@ == flattened(arena@),
{
    let mut trace: Vec<CallTrace> = Vec::new();
    let mut i: usize = 0;
    while i < arena.len()
        invariant
            i <= arena.len(),
            trace@ == flattened(arena@.take(i as int)),
        decreases arena.len() - i,
    {
        trace.push(CallTrace::from_node(&arena[i]));
        i = i + 1;
        assert(trace@ =~= flattened(arena@.take(i as int)));
    }
    assert(arena@.take(i as int) =~= arena@);
    trace
}

/// Assembles the response to one execution: the flattened trace, and every
/// other part of the outcome as the engine gave it.
pub fn assemble_response(simulation_id: u64, outcome: ExecutionOutcome) -> (r: SimulationResponse)
    ensures
        r@ == assembled(simulation_id, outcome),
{
    let trace = match &outcome.trace {
        Some(arena) => flatten_trace(arena),
        None => Vec::new(),
    };
    assert(trace@ =~= flattened(arena_of(outcome)));
    SimulationResponse {
        simulation_id,
        gas_used: outcome.gas_used,
        block_number: outcome.block_number,
        success: outcome.success,
        trace,
        formatted_trace: outcome.formatted_trace,
        logs: outcome.logs,
        exit_reason: outcome.exit_reason,
    }
}

/// The trace keeps the arena's frames one for one and in their order: it is
/// as long as the arena, and its record at each place is that of the frame at
/// the same place.
pub proof fn lemma_trace_order_preserved(arena: Seq<TraceNode>)
    ensures
        flattened(arena).len() == arena.len(),
        forall|i: int| 0 <= i < arena.len() ==> #[trigger] flattened(arena)[i] == call_trace_of(arena[i]),
{
}

/// Two responses assembled from one outcome differ in the identifier at most.
pub proof fn lemma_assembly_repeatable(first_id: u64, second_id: u64, outcome: ExecutionOutcome)
    ensures
        assembled(first_id, outcome) == (SimulationResponseView {
            simulation_id: first_id,
            ..assembled(second_id, outcome)
        }),
{
}

} // verus!
