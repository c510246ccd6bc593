//! The data that flows between a client, the orchestrator and the engine.

use vstd::prelude::*;

verus! {

/// Trusted: `ethers::types::Log`, an emitted log record. It is declared
/// without its fields: the library carries logs from the engine to the client
/// and never looks inside one.
#[verifier::external_type_specification]
#[verifier::external_body]
pub struct ExLog(ethers::types::Log);

/// Trusted: `revm::Return`, the engine's exit-status code. It is declared
/// without its variants: the library carries the code to the client and never
/// tells one from another.
#[verifier::external_type_specification]
#[verifier::external_body]
pub struct ExReturn(revm::Return);

/// Trusted: `Clone::clone` of `revm::Return`, derived on a `Copy` enum
/// without fields: the clone is the code itself.
pub assume_specification[ <revm::Return as Clone>::clone ](code: &revm::Return) -> (r: revm::Return)
    ensures
        r == *code,
;

/// A 20-byte account address.
#[derive(Clone, Copy, Debug, PartialEq, Eq)]
pub struct Address {
    pub bytes: [u8; 20],
}

/// The base of one limb of a [`Uint256`]: two to the power 64.
pub open spec fn limb_base() -> nat {
    0x1_0000_0000_0000_0000
}

/// The first number that a [`Uint256`] cannot hold: two to the power 256.
pub open spec fn uint256_bound() -> nat {
    limb_base() * limb_base() * limb_base() * limb_base()
}

/// A 256-bit unsigned integer, as four 64-bit limbs, least significant first.
#[derive(Clone, Copy, Debug, PartialEq, Eq)]
pub struct Uint256 {
    pub limbs: [u64; 4],
}

impl View for Uint256 {
    type V = nat;

    /// The number that the four limbs stand for.
    open spec fn view(&self) -> nat {
        self.limbs@[0] as nat + self.limbs@[1] as nat * limb_base() + self.limbs@[2] as nat
            * limb_base() * limb_base() + self.limbs@[3] as nat * limb_base() * limb_base()
            * limb_base()
    }
}

/// Four digits in a base stand for a number below the base's fourth power.
proof fn lemma_four_digits_bounded(a: nat, b: nat, c: nat, d: nat, base: nat)
    requires
        a < base,
        b < base,
        c < base,
        d < base,
    ensures
        a + b * base + c * base * base + d * base * base * base < base * base * base * base,
{
    assert(b * base + base <= base * base) by (nonlinear_arith)
        requires
            b < base,
    ;
    assert(c * base * base + base * base <= base * base * base) by (nonlinear_arith)
        requires
            c < base,
    ;
    assert(d * base * base * base + base * base * base <= base * base * base * base)
        by (nonlinear_arith)
        requires
            d < base,
    ;
}

impl Uint256 {
    /// Every value stands for a number of at most 256 bits.
    pub proof fn lemma_fits(self)
        ensures
            self@ < uint256_bound(),
    {
        lemma_four_digits_bounded(
            self.limbs@[0] as nat,
            self.limbs@[1] as nat,
            self.limbs@[2] as nat,
            self.limbs@[3] as nat,
            limb_base(),
        );
    }

    /// The 256-bit integer equal to `v`.
    pub fn from_u64(v: u64) -> (r: Uint256)
        ensures
            r@ == v as nat,
            r.limbs@ == seq![v, 0u64, 0u64, 0u64],
    {
        let r = Uint256 { limbs: [v, 0, 0, 0] };
        assert(r.limbs@ =~= seq![v, 0u64, 0u64, 0u64]);
        r
    }
}

/// The characters of an optional text.
pub open spec fn text_of(value: Option<String>) -> Option<Seq<char>> {
    match value {
        Some(s) => Some(s@),
        None => None,
    }
}

/// The bytes of optional call data.
pub open spec fn bytes_of(data: Option<Vec<u8>>) -> Option<Seq<u8>> {
    match data {
        Some(d) => Some(d@),
        None => None,
    }
}

/// The number that an optional value stands for.
pub open spec fn amount_of(value: Option<Uint256>) -> Option<nat> {
    match value {
        Some(v) => Some(v@),
        None => None,
    }
}

/// How a call frame was entered.
#[derive(Clone, Copy, Debug, PartialEq, Eq)]
pub enum CallKind {
    Call,
    StaticCall,
    CallCode,
    DelegateCall,
    Create,
    Create2,
}

/// Why a simulation was rejected.
#[derive(Clone, Copy, Debug, PartialEq, Eq, Structural)]
pub enum SimulationError {
    /// The chain identifier has no known fork endpoint.
    UnsupportedChain,
    /// A `0x`-prefixed value is not a hexadecimal number of at most 256 bits.
    InvalidHexValue,
    /// A value without prefix is not a decimal number of at most 256 bits.
    InvalidDecimalValue,
    /// The requests of a bundle name more than one chain.
    MultipleChainIds,
    /// The requests of a bundle name more than one block height.
    MultipleBlockNumbers,
    /// The fork could not be set up.
    ForkInitialization,
    /// The remote state could not be fetched during an execution.
    StateFetch,
}

/// An infrastructure failure reported by the execution engine.
#[derive(Clone, Copy, Debug, PartialEq, Eq, Structural)]
pub enum EngineFailure {
    ForkInitialization,
    StateFetch,
}

impl EngineFailure {
    /// The rejection that a failure of the engine surfaces as.
    pub open spec fn rejection(self) -> SimulationError {
        match self {
            EngineFailure::ForkInitialization => SimulationError::ForkInitialization,
            EngineFailure::StateFetch => SimulationError::StateFetch,
        }
    }

    /// Maps the failure to the rejection it surfaces as, one to one.
    pub fn to_error(self) -> (e: SimulationError)
        ensures
            e == self.rejection(),
    {
        match self {
            EngineFailure::ForkInitialization => SimulationError::ForkInitialization,
            EngineFailure::StateFetch => SimulationError::StateFetch,
        }
    }
}

/// One transaction to simulate, as the client states it.
#[derive(Clone, Debug)]
pub struct SimulationRequest {
    pub chain_id: u64,
    pub from: Address,
    pub to: Address,
    pub data: Option<Vec<u8>>,
    pub gas_limit: u64,
    pub value: Option<String>,
    pub block_number: Option<u64>,
    pub format_trace: Option<bool>,
}

/// What an execution context is built from.
#[derive(Clone, Debug, PartialEq, Eq)]
pub struct ContextParams {
    pub fork_url: String,
    pub block_number: Option<u64>,
    pub gas_limit: u64,
    pub trace_enabled: bool,
}

/// The model of [`ContextParams`].
pub ghost struct ContextParamsView {
    pub fork_url: Seq<char>,
    pub block_number: Option<u64>,
    pub gas_limit: u64,
    pub trace_enabled: bool,
}

impl View for ContextParams {
    type V = ContextParamsView;

    open spec fn view(&self) -> ContextParamsView {
        ContextParamsView {
            fork_url: self.fork_url@,
            block_number: self.block_number,
            gas_limit: self.gas_limit,
            trace_enabled: self.trace_enabled,
        }
    }
}

/// One call handed to the execution engine.
#[derive(Clone, Debug, PartialEq, Eq)]
pub struct ExecutionCall {
    pub from: Address,
    pub to: Address,
    pub value: Option<Uint256>,
    pub data: Option<Vec<u8>>,
    pub gas_limit: u64,
    pub format_trace: bool,
    /// Whether the call's state changes stay in the context.
    pub commit: bool,
}

/// The model of [`ExecutionCall`].
pub ghost struct ExecutionCallView {
    pub from: Address,
    pub to: Address,
    pub value: Option<nat>,
    pub data: Option<Seq<u8>>,
    pub gas_limit: u64,
    pub format_trace: bool,
    pub commit: bool,
}

impl View for ExecutionCall {
    type V = ExecutionCallView;

    open spec fn view(&self) -> ExecutionCallView {
        ExecutionCallView {
            from: self.from,
            to: self.to,
            value: amount_of(self.value),
            data: bytes_of(self.data),
            gas_limit: self.gas_limit,
            format_trace: self.format_trace,
            commit: self.commit,
        }
    }
}

/// One frame of the engine's call-trace arena.
#[derive(Clone, Copy, Debug, PartialEq, Eq)]
pub struct TraceNode {
    pub kind: CallKind,
    pub caller: Address,
    pub address: Address,
    pub value: Uint256,
}

/// What the engine reports of one execution.
#[derive(Clone, Debug, PartialEq)]
pub struct ExecutionOutcome {
    pub gas_used: u64,
    pub block_number: u64,
    pub success: bool,
    /// The call-trace arena, in the order in which the frames were entered.
    pub trace: Option<Vec<TraceNode>>,
    pub logs: Vec<ethers::types::Log>,
    pub exit_reason: revm::Return,
    pub formatted_trace: Option<String>,
}

/// One call frame, as the client sees it.
#[derive(Clone, Copy, Debug, PartialEq, Eq)]
pub struct CallTrace {
    pub call_type: CallKind,
    pub from: Address,
    pub to: Address,
    pub value: Uint256,
}

/// The result of one simulated transaction.
#[derive(Clone, Debug, PartialEq)]
pub struct SimulationResponse {
    pub simulation_id: u64,
    pub gas_used: u64,
    pub block_number: u64,
    pub success: bool,
    pub trace: Vec<CallTrace>,
    pub formatted_trace: Option<String>,
    pub logs: Vec<ethers::types::Log>,
    pub exit_reason: revm::Return,
}

/// The model of [`SimulationResponse`].
pub ghost struct SimulationResponseView {
    pub simulation_id: u64,
    pub gas_used: u64,
    pub block_number: u64,
    pub success: bool,
    pub trace: Seq<CallTrace>,
    pub formatted_trace: Option<Seq<char>>,
    pub logs: Seq<ethers::types::Log>,
    pub exit_reason: revm::Return,
}

impl View for SimulationResponse {
    type V = SimulationResponseView;

    open spec fn view(&self) -> SimulationResponseView {
        SimulationResponseView {
            simulation_id: self.simulation_id,
            gas_used: self.gas_used,
            block_number: self.block_number,
            success: self.success,
            trace: self.trace@,
            formatted_trace: text_of(self.formatted_trace),
            logs: self.logs@,
            exit_reason: self.exit_reason,
        }
    }
}

} // verus!
