use vstd::prelude::*;

verus! {

/// Structured failure reported to a caller of the coordination core.
///
/// The variants up to `RoundTooLarge` are precondition errors: the request is
/// rejected before any call reaches the secure compute engine. `EngineFailure`
/// carries the abnormal status code of an engine call; the session is left in
/// its last consistent state.
#[derive(Clone, Copy, Debug, PartialEq, Eq, Structural)]
pub enum AggregatorError {
    /// A Start request named an `fl_id` that is already live.
    DuplicateSession,
    /// A request named an `fl_id` that was never started.
    UnknownSession,
    /// A Start request carried an empty client pool, so nothing can be sampled.
    EmptyPool,
    /// An Aggregate request asked for more optimal clients than it submitted.
    InvalidOptimalCount,
    /// An Aggregate request named a round other than the session's current one.
    RoundMismatch,
    /// The session's round counter cannot be advanced any further.
    RoundTooLarge,
    /// A secure-compute-engine call reported the carried abnormal status code.
    EngineFailure(u32),
}

} // verus!
