use vstd::prelude::*;
use crate::sampler::SamplingRatio;

verus! {

/// What one engine aggregation call hands back on success.
///
/// The engine works over IEEE-754 single-precision values; the coordinator
/// never interprets them, so they travel through the core as raw 32-bit
/// patterns. A caller at the service edge converts them back to
/// floating-point values.
pub struct EngineOutput {
    /// The updated model parameters, one 32-bit pattern per parameter.
    pub updated_parameter_bits: Vec<u32>,
    /// Per-phase execution-time measurements reported by the engine.
    pub phase_time_bits: Vec<u32>,
    /// Wall-clock duration of the aggregation call, in microseconds,
    /// measured around the call by the engine binding.
    pub elapsed_micros: u64,
}

/// The secure compute engine: the external collaborator that decrypts the
/// submitted updates, aggregates them and injects differential-privacy noise.
///
/// The coordinator drives a session through this capability and promises
/// nothing about what a call returns: any abnormal status (the `Err` code) is
/// fatal for the enclosing operation, and the session is left in its last
/// consistent state. An implementation binds these calls to the real isolated
/// execution environment; a test implementation can stand in for it, which
/// keeps the orchestration logic testable without the engine.
pub trait SecureComputeEngine {
    /// Establishes engine-side state for a new session.
    fn session_init(
        &mut self,
        fl_id: u32,
        client_ids: &Vec<u32>,
        sigma_bits: u32,
        clipping_bits: u32,
        sampling_ratio: SamplingRatio,
        aggregation_alg: u32,
        verbose: bool,
        dp_enabled: bool,
    ) -> Result<(), u32>;

    /// Announces the participant count of the round about to begin.
    fn round_begin(&mut self, fl_id: u32, round: u32, sample_size: usize) -> Result<(), u32>;

    /// Runs standard secure aggregation over the submitted encrypted updates.
    fn aggregate(
        &mut self,
        fl_id: u32,
        round: u32,
        client_ids: &Vec<u32>,
        encrypted_parameters: &Vec<u8>,
        num_of_parameters: usize,
        num_of_sparse_parameters: usize,
        aggregation_alg: u32,
    ) -> Result<EngineOutput, u32>;

    /// Runs the client-size-optimized secure aggregation variant.
    fn aggregate_client_size_optimized(
        &mut self,
        fl_id: u32,
        round: u32,
        optimal_num_of_clients: usize,
        client_ids: &Vec<u32>,
        encrypted_parameters: &Vec<u8>,
        num_of_parameters: usize,
        num_of_sparse_parameters: usize,
        aggregation_alg: u32,
    ) -> Result<EngineOutput, u32>;
}

} // verus!
