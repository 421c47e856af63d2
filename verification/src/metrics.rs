//! The report that a benchmark run leaves of one fixture.

use vstd::prelude::*;

use crate::duration::Duration;

verus! {

/// Why a run crashed.
#[derive(Debug, Clone)]
pub struct CrashInfo {
    /// The reason, in words.
    pub reason: String,
}

/// What is recorded of an execution.
#[derive(Debug, Clone)]
pub enum ExecutionMetrics {
    /// The execution came to its end.
    Success {
        /// Whether it committed the expected public values.
        output_matched: bool,
        /// The cycles that it took.
        total_num_cycles: u64,
        /// The cycles of each named region.
        region_cycles: Vec<(String, u64)>,
        /// The time that it took.
        execution_duration: Duration,
    },
    /// The execution failed or panicked.
    Crashed(CrashInfo),
}

/// What is recorded of a proof.
#[derive(Debug, Clone)]
pub enum ProvingMetrics {
    /// A proof was made and verified.
    Success {
        /// Whether the prover and the verifier both gave the expected public
        /// values.
        output_matched: bool,
        /// The number of bytes of the encoded proof.
        proof_size: usize,
        /// The time of proving, in whole milliseconds.
        proving_time_ms: u128,
        /// The time of verifying, in whole milliseconds.
        verification_time_ms: u128,
    },
    /// Proving failed or panicked.
    Crashed(CrashInfo),
}

/// What is recorded of the verification of a saved proof.
#[derive(Debug, Clone)]
pub struct VerificationMetrics {
    /// Whether the verifier gave the expected public values.
    pub output_matched: bool,
    /// The time of verifying, in whole milliseconds.
    pub verification_time_ms: u128,
}

/// The report of one fixture on one zkVM. One that a run of the fixture leaves
/// is either of an execution or of a proof.
#[derive(Debug, Clone)]
pub struct BenchmarkRun {
    /// The name of the fixture.
    pub name: String,
    /// What the fixture says of itself, as JSON.
    pub metadata: String,
    /// What is recorded of the execution.
    pub execution: Option<ExecutionMetrics>,
    /// What is recorded of the proof.
    pub proving: Option<ProvingMetrics>,
    /// What is recorded of the verification of a saved proof.
    pub verification: Option<VerificationMetrics>,
}

} // verus!
