//! Planning a simulation before any context exists, and driving a bundle.

use crate::assemble::{assemble_response, assembled};
use crate::chain::{chain_id_to_fork_url, fork_url};
use crate::model::{
    bytes_of, text_of, ContextParams, ContextParamsView, EngineFailure, ExecutionCall, ExecutionCallView,
    ExecutionOutcome, SimulationError, SimulationRequest, SimulationResponse,
};
use crate::value::{normalize_value, normalized};
use vstd::prelude::*;

verus! {

/// The call that a request asks for, or the rejection of its value.
pub open spec fn call_for(request: SimulationRequest, commit: bool) -> Result<
    ExecutionCallView,
    SimulationError,
> {
    match normalized(text_of(request.value)) {
        Err(e) => Err(e),
        Ok(value) => Ok(
            ExecutionCallView {
                from: request.from,
                to: request.to,
                value,
                data: bytes_of(request.data),
                gas_limit: request.gas_limit,
                format_trace: request.format_trace == Some(true),
                commit,
            },
        ),
    }
}

/// The context that a request is simulated in, forked from `url`: pinned at
/// the request's block height, capped by its gas limit, and tracing.
pub open spec fn context_for(request: SimulationRequest, url: Seq<char>) -> ContextParamsView {
    ContextParamsView {
        fork_url: url,
        block_number: request.block_number,
        gas_limit: request.gas_limit,
        trace_enabled: true,
    }
}

/// The plan of a single simulation: its value is normalized first, its chain
/// resolved second.
pub open spec fn single_plan(request: SimulationRequest, key: Seq<char>) -> Result<
    (ContextParamsView, ExecutionCallView),
    SimulationError,
> {
    match call_for(request, false) {
        Err(e) => Err(e),
        Ok(call) => match fork_url(request.chain_id, key) {
            None => Err(SimulationError::UnsupportedChain),
            Some(url) => Ok((context_for(request, url), call)),
        },
    }
}

/// The first fault in a sequence of findings, if there is one.
pub open spec fn first_fault(findings: Seq<Option<SimulationError>>) -> Option<SimulationError>
    decreases findings.len(),
{
    if findings.len() == 0 {
        None
    } else {
        match first_fault(findings.drop_last()) {
            Some(e) => Some(e),
            None => findings.last(),
        }
    }
}

/// How a request of a bundle departs from the bundle's first request: by its
/// chain, else by its block height.
pub open spec fn consistency_fault(first: SimulationRequest, request: SimulationRequest) -> Option<
    SimulationError,
> {
    if request.chain_id != first.chain_id {
        Some(SimulationError::MultipleChainIds)
    } else if request.block_number != first.block_number {
        Some(SimulationError::MultipleBlockNumbers)
    } else {
        None
    }
}

/// The rejection of a request's value, if it does not normalize.
pub open spec fn value_fault(request: SimulationRequest) -> Option<SimulationError> {
    match call_for(request, true) {
        Err(e) => Some(e),
        Ok(_) => None,
    }
}

/// The finding of `consistency_fault` for each request of a bundle.
pub open spec fn consistency_findings(bundle: Seq<SimulationRequest>) -> Seq<
    Option<SimulationError>,
> {
    Seq::new(bundle.len(), |i: int| consistency_fault(bundle[0], bundle[i]))
}

/// The finding of `value_fault` for each request of a bundle.
pub open spec fn value_findings(bundle: Seq<SimulationRequest>) -> Seq<Option<SimulationError>> {
    Seq::new(bundle.len(), |i: int| value_fault(bundle[i]))
}

/// Why a bundle is rejected before any context exists, if it is: for its
/// first request that departs from the first one; else for a chain that is
/// not known; else for its first value that does not normalize.
pub open spec fn bundle_rejection(bundle: Seq<SimulationRequest>, key: Seq<char>) -> Option<
    SimulationError,
> {
    match first_fault(consistency_findings(bundle)) {
        Some(e) => Some(e),
        None => match fork_url(bundle[0].chain_id, key) {
            None => Some(SimulationError::UnsupportedChain),
            Some(_) => first_fault(value_findings(bundle)),
        },
    }
}

/// A single simulation, ready to run: one context and one read-only call.
#[derive(Clone, Debug, PartialEq, Eq)]
pub struct SimulationPlan {
    pub context: ContextParams,
    pub call: ExecutionCall,
}

/// A bundle, ready to run: one context and its committing calls in order.
#[derive(Clone, Debug, PartialEq, Eq)]
pub struct BundlePlan {
    pub context: ContextParams,
    pub calls: Vec<ExecutionCall>,
}

/// A copy of a byte vector.
fn copy_bytes(bytes: &Vec<u8>) -> (r: Vec<u8>)
    ensures
        r@ == bytes@,
{
    let mut copy: Vec<u8> = Vec::new();
    let mut i: usize = 0;
    while i < bytes.len()
        invariant
            i <= bytes.len(),
            copy@ == bytes@.take(i as int),
        decreases bytes.len() - i,
    {
        copy.push(bytes[i]);
        i = i + 1;
        assert(copy@ =~= bytes@.take(i as int));
    }
    assert(bytes@.take(i as int) =~= bytes@);
    copy
}

/// Turns a request into the call for the engine, or rejects its value.
pub fn prepare_call(request: &SimulationRequest, commit: bool) -> (r: Result<
    ExecutionCall,
    SimulationError,
>)
    ensures
        match call_for(*request, commit) {
            Ok(call) => r is Ok && r->Ok_0@ == call,
            Err(e) => r is Err && r->Err_0 == e,
        },
{
    let value = match normalize_value(&request.value) {
        Ok(v) => v,
        Err(e) => {
            return Err(e);
        },
    };
    let data = match &request.data {
        Some(d) => Some(copy_bytes(d)),
        None => None,
    };
    let format_trace = match request.format_trace {
        Some(flag) => flag,
        None => false,
    };
    Ok(
        ExecutionCall {
            from: request.from,
            to: request.to,
            value,
            data,
            gas_limit: request.gas_limit,
            format_trace,
            commit,
        },
    )
}

/// Plans a single simulation: the context to construct and the read-only
/// call to run in it. A value that does not normalize is rejected first, a
/// chain that is not known second.
pub fn plan_simulation(request: &SimulationRequest, alchemy_key: String) -> (r: Result<
    SimulationPlan,
    SimulationError,
>)
    ensures
        match single_plan(*request, alchemy_key@) {
            Ok(plan) => r is Ok && r->Ok_0.context@ == plan.0 && r->Ok_0.call@ == plan.1,
            Err(e) => r is Err && r->Err_0 == e,
        },
{
    let call = match prepare_call(request, false) {
        Ok(c) => c,
        Err(e) => {
            return Err(e);
        },
    };
    let url = match chain_id_to_fork_url(request.chain_id, alchemy_key) {
        Ok(u) => u,
        Err(e) => {
            return Err(e);
        },
    };
    Ok(
        SimulationPlan {
            context: ContextParams {
                fork_url: url,
                block_number: request.block_number,
                gas_limit: request.gas_limit,
                trace_enabled: true,
            },
            call,
        },
    )
}

/// Checks that every request of a bundle names the chain and the block
/// height of the first one.
pub fn check_bundle(transactions: &Vec<SimulationRequest>) -> (r: Result<(), SimulationError>)
    requires
        transactions@.len() > 0,
    ensures
        match first_fault(consistency_findings(transactions@)) {
            Some(e) => r is Err && r->Err_0 == e,
            None => r is Ok,
        },
{
    let first_chain_id: u64 = transactions[0].chain_id;
    let first_block_number = transactions[0].block_number;
    let ghost findings = consistency_findings(transactions@);
    let mut i: usize = 0;
    while i < transactions.len()
        invariant
            i <= transactions.len(),
            transactions@.len() > 0,
            findings == consistency_findings(transactions@),
            first_chain_id == transactions@[0].chain_id,
            first_block_number == transactions@[0].block_number,
            first_fault(findings.take(i as int)) is None,
        decreases transactions.len() - i,
    {
        proof {
            assert(findings.take(i + 1).drop_last() =~= findings.take(i as int));
            if findings[i as int] is Some {
                lemma_first_fault_extends(findings, i + 1);
            }
        }
        if transactions[i].chain_id != first_chain_id {
            return Err(SimulationError::MultipleChainIds);
        }
        if !same_block(transactions[i].block_number, first_block_number) {
            return Err(SimulationError::MultipleBlockNumbers);
        }
        i = i + 1;
    }
    assert(findings.take(i as int) =~= findings);
    Ok(())
}

/// Whether two optional block heights are the same.
fn same_block(a: Option<u64>, b: Option<u64>) -> (r: bool)
    ensures
        r == (a == b),
{
    match (a, b) {
        (Some(x), Some(y)) => x == y,
        (None, None) => true,
        _ => false,
    }
}

/// A fault found in a prefix of the findings is the fault of the whole.
pub proof fn lemma_first_fault_extends(findings: Seq<Option<SimulationError>>, n: int)
    requires
        0 <= n <= findings.len(),
        first_fault(findings.take(n)) is Some,
    ensures
        first_fault(findings) == first_fault(findings.take(n)),
    decreases findings.len() - n,
{
    if n < findings.len() {
        assert(findings.take(n + 1).drop_last() =~= findings.take(n));
        lemma_first_fault_extends(findings, n + 1);
    } else {
        assert(findings.take(n) =~= findings);
    }
}

/// Plans a bundle: the one context to construct and the committing call of
/// each request, in the bundle's order.
///
/// The bundle is rejected, before any context exists, for its first request
/// that names another chain or another block height than the first one; else
/// for a chain that is not known; else for its first value that does not
/// normalize.
pub fn plan_bundle(transactions: &Vec<SimulationRequest>, alchemy_key: String) -> (r: Result<
    BundlePlan,
    SimulationError,
>)
    requires
        transactions@.len() > 0,
    ensures
        match bundle_rejection(transactions@, alchemy_key@) {
            Some(e) => r is Err && r->Err_0 == e,
            None => r is Ok && r->Ok_0.context@ == context_for(
                transactions@[0],
                fork_url(transactions@[0].chain_id, alchemy_key@)->Some_0,
            ) && r->Ok_0.calls@.len() == transactions@.len() && forall|i: int|
                0 <= i < transactions@.len() ==> Ok::<ExecutionCallView, SimulationError>(
                    (#[trigger] r->Ok_0.calls@[i])@,
                ) == call_for(transactions@[i], true),
        },
{
    match check_bundle(transactions) {
        Ok(()) => {},
        Err(e) => {
            return Err(e);
        },
    }
    let url = match chain_id_to_fork_url(transactions[0].chain_id, alchemy_key) {
        Ok(u) => u,
        Err(e) => {
            return Err(e);
        },
    };
    let ghost findings = value_findings(transactions@);
    let mut calls: Vec<ExecutionCall> = Vec::new();
    let mut i: usize = 0;
    while i < transactions.len()
        invariant
            i <= transactions.len(),
            findings == value_findings(transactions@),
            first_fault(findings.take(i as int)) is None,
            first_fault(consistency_findings(transactions@)) is None,
            fork_url(transactions@[0].chain_id, alchemy_key@) is Some,
            calls@.len() == i,
            forall|j: int|
                0 <= j < i ==> Ok::<ExecutionCallView, SimulationError>((#[trigger] calls@[j])@)
                    == call_for(transactions@[j], true),
        decreases transactions.len() - i,
    {
        proof {
            assert(findings.take(i + 1).drop_last() =~= findings.take(i as int));
            if findings[i as int] is Some {
                lemma_first_fault_extends(findings, i + 1);
            }
        }
        match prepare_call(&transactions[i], true) {
            Ok(call) => {
                calls.push(call);
            },
            Err(e) => {
                proof {
                    assert(findings[i as int] == value_fault(transactions@[i as int]));
                    assert(first_fault(findings.take(i + 1)) == Some(e));
                }
                return Err(e);
            },
        }
        i = i + 1;
    }
    assert(findings.take(i as int) =~= findings);
    Ok(
        BundlePlan {
            context: ContextParams {
                fork_url: url,
                block_number: transactions[0].block_number,
                gas_limit: transactions[0].gas_limit,
                trace_enabled: true,
            },
            calls,
        },
    )
}

/// Concludes a single simulation from what the engine reported: an outcome
/// is assembled under the identifier 1, reverted or not; a failure of the
/// engine is surfaced as it is.
pub fn conclude_simulation(event: Result<ExecutionOutcome, EngineFailure>) -> (r: Result<
    SimulationResponse,
    SimulationError,
>)
    ensures
        match event {
            Ok(outcome) => r is Ok && r->Ok_0@ == assembled(1, outcome),
            Err(failure) => r is Err && r->Err_0 == failure.rejection(),
        },
{
    match event {
        Ok(outcome) => Ok(assemble_response(1, outcome)),
        Err(failure) => Err(failure.to_error()),
    }
}

/// A bundle under execution: its calls, and the responses to those that have
/// run so far.
#[derive(Clone, Debug, PartialEq)]
pub struct BundleRun {
    pub calls: Vec<ExecutionCall>,
    pub responses: Vec<SimulationResponse>,
}

impl BundleRun {
    /// No more responses than calls, and the response at each place carries
    /// that place's number, counted from one.
    pub open spec fn wf(&self) -> bool {
        &&& self.responses@.len() <= self.calls@.len()
        &&& forall|i: int|
            0 <= i < self.responses@.len() ==> (#[trigger] self.responses@[i]).simulation_id == i
                + 1
    }

    /// Whether every call has its response.
    pub open spec fn complete(&self) -> bool {
        self.responses@.len() == self.calls@.len()
    }

    /// Starts the run of a bundle's calls: none has run yet.
    pub fn start(calls: Vec<ExecutionCall>) -> (r: BundleRun)
        ensures
            r.wf(),
            r.calls == calls,
            r.responses@.len() == 0,
    {
        BundleRun { calls, responses: Vec::new() }
    }

    /// The call to hand to the engine next: the first one without a response,
    /// or none when the bundle is complete.
    pub fn next_call(&self) -> (r: Option<&ExecutionCall>)
        requires
            self.wf(),
        ensures
            match r {
                Some(call) => !self.complete() && *call == self.calls@[self.responses@.len() as int],
                None => self.complete(),
            },
    {
        if self.responses.len() < self.calls.len() {
            Some(&self.calls[self.responses.len()])
        } else {
            None
        }
    }

    /// Records what the engine reported of the call that `next_call` gave.
    ///
    /// An outcome, reverted or not, is assembled under the next identifier
    /// and appended, and the run goes on. A failure of the engine ends the
    /// run: it is surfaced as it is, and no call of the bundle follows.
    pub fn record(self, event: Result<ExecutionOutcome, EngineFailure>) -> (r: Result<
        BundleRun,
        SimulationError,
    >)
        requires
            self.wf(),
            !self.complete(),
        ensures
            match event {
                Ok(outcome) => {
                    &&& r is Ok
                    &&& r->Ok_0.wf()
                    &&& r->Ok_0.calls == self.calls
                    &&& r->Ok_0.responses@.len() == self.responses@.len() + 1
                    &&& r->Ok_0.responses@.drop_last() == self.responses@
                    &&& r->Ok_0.responses@.last()@ == assembled(
                        (self.responses@.len() + 1) as u64,
                        outcome,
                    )
                },
                Err(failure) => r is Err && r->Err_0 == failure.rejection(),
            },
    {
        match event {
            Ok(outcome) => {
                let total: usize = self.calls.len();
                assert(self.responses@.len() < total);
                let place: usize = self.responses.len() + 1;
                let id: u64 = place as u64;
                let response = assemble_response(id, outcome);
                let mut responses = self.responses;
                responses.push(response);
                assert(responses@.drop_last() =~= self.responses@);
                Ok(BundleRun { calls: self.calls, responses })
            },
            Err(failure) => Err(failure.to_error()),
        }
    }

    /// The responses of a complete run, one per call and in the calls' order.
    pub fn finish(self) -> (r: Vec<SimulationResponse>)
        requires
            self.wf(),
            self.complete(),
        ensures
            r == self.responses,
            r@.len() == self.calls@.len(),
    {
        self.responses
    }
}

/// A bundle whose request at `i` is the first to depart from the first
/// request, and departs by its chain, is rejected for naming several chains,
/// whatever else holds of it.
pub proof fn lemma_mixed_chains_rejected(bundle: Seq<SimulationRequest>, key: Seq<char>, i: int)
    requires
        0 <= i < bundle.len(),
        bundle[i].chain_id != bundle[0].chain_id,
        forall|j: int| 0 <= j < i ==> consistency_fault(bundle[0], #[trigger] bundle[j]) is None,
    ensures
        bundle_rejection(bundle, key) == Some(SimulationError::MultipleChainIds),
{
    let findings = consistency_findings(bundle);
    lemma_first_fault_at(findings, i);
}

/// A bundle whose request at `i` is the first to depart from the first
/// request, and departs by its block height alone, is rejected for naming
/// several block heights, whatever else holds of it.
pub proof fn lemma_mixed_blocks_rejected(bundle: Seq<SimulationRequest>, key: Seq<char>, i: int)
    requires
        0 <= i < bundle.len(),
        bundle[i].chain_id == bundle[0].chain_id,
        bundle[i].block_number != bundle[0].block_number,
        forall|j: int| 0 <= j < i ==> consistency_fault(bundle[0], #[trigger] bundle[j]) is None,
    ensures
        bundle_rejection(bundle, key) == Some(SimulationError::MultipleBlockNumbers),
{
    let findings = consistency_findings(bundle);
    lemma_first_fault_at(findings, i);
}

/// Where the finding at `i` is a fault and none stands before it, it is the
/// first fault.
pub proof fn lemma_first_fault_at(findings: Seq<Option<SimulationError>>, i: int)
    requires
        0 <= i < findings.len(),
        findings[i] is Some,
        forall|j: int| 0 <= j < i ==> (#[trigger] findings[j]) is None,
    ensures
        first_fault(findings) == findings[i],
    decreases findings.len(),
{
    let front = findings.drop_last();
    if i == findings.len() - 1 {
        lemma_no_fault(front);
    } else {
        lemma_first_fault_at(front, i);
    }
}

/// Findings without a fault have no first fault.
pub proof fn lemma_no_fault(findings: Seq<Option<SimulationError>>)
    requires
        forall|j: int| 0 <= j < findings.len() ==> (#[trigger] findings[j]) is None,
    ensures
        first_fault(findings) is None,
    decreases findings.len(),
{
    if findings.len() > 0 {
        lemma_no_fault(findings.drop_last());
    }
}

/// A single simulation runs its call read-only; a bundle runs every call
/// committing. Apart from that the two ask the engine for the same call.
pub proof fn lemma_commit_modes(request: SimulationRequest, key: Seq<char>)
    ensures
        single_plan(request, key) matches Ok(plan) ==> !plan.1.commit,
        call_for(request, true) matches Ok(call) ==> call.commit,
        call_for(request, false) matches Ok(single) ==> call_for(request, true) == Ok::<
            ExecutionCallView,
            SimulationError,
        >((ExecutionCallView { commit: true, ..single })),
        call_for(request, false) is Err ==> call_for(request, true) == call_for(request, false),
{
}

/// Within one run no two responses carry the same identifier.
pub proof fn lemma_identifiers_unique(run: BundleRun, i: int, j: int)
    requires
        run.wf(),
        0 <= i < run.responses@.len(),
        0 <= j < run.responses@.len(),
        i != j,
    ensures
        run.responses@[i].simulation_id != run.responses@[j].simulation_id,
{
}

} // verus!
