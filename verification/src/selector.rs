use vstd::prelude::*;
use crate::errors::AggregatorError;

verus! {

/// The algorithm identifier that selects the client-size-optimized
/// aggregation path; every other identifier dispatches to the standard path.
pub const CLIENT_SIZE_OPTIMIZED_ALG: u32 = 6;

/// Which engine aggregation call a round dispatches to.
#[derive(Clone, Copy, Debug, PartialEq, Eq, Structural)]
pub enum DispatchTarget {
    /// The standard secure aggregation call.
    Standard,
    /// The client-size-optimized secure aggregation call, which additionally
    /// takes the caller's optimal client count.
    Optimized,
}

/// The target `resolve` picks once its validation gate has passed.
pub open spec fn resolve_spec(aggregation_alg: u32) -> DispatchTarget {
    if aggregation_alg == CLIENT_SIZE_OPTIMIZED_ALG {
        DispatchTarget::Optimized
    } else {
        DispatchTarget::Standard
    }
}

/// Maps an algorithm identifier to its dispatch target after validating that
/// the caller's optimal client count does not exceed the clients it submitted.
///
/// The selector carries no state: it is a pure mapping plus a validation
/// step, which rejects `optimal_num_of_clients > client_count` for every
/// algorithm identifier, before any engine call is made.
pub fn resolve(aggregation_alg: u32, client_count: usize, optimal_num_of_clients: usize) -> (r:
    Result<DispatchTarget, AggregatorError>)
    ensures
        optimal_num_of_clients <= client_count ==> r == Ok::<DispatchTarget, AggregatorError>(
            resolve_spec(aggregation_alg),
        ),
        optimal_num_of_clients > client_count ==> r == Err::<DispatchTarget, AggregatorError>(
            AggregatorError::InvalidOptimalCount,
        ),
{
    if optimal_num_of_clients > client_count {
        Err(AggregatorError::InvalidOptimalCount)
    } else if aggregation_alg == CLIENT_SIZE_OPTIMIZED_ALG {
        Ok(DispatchTarget::Optimized)
    } else {
        Ok(DispatchTarget::Standard)
    }
}

} // verus!
