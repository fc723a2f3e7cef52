//! Round coordination for federated-learning secure aggregation.
//!
//! A federated-learning session (`fl_id`) runs over a fixed pool of registered
//! clients. Each round, a subset of clients is sampled, their encrypted model
//! updates are handed to a secure compute engine, and the session advances to
//! the next round with a fresh sample. This crate holds the verified
//! orchestration core: the session registry, the client sampler, the
//! aggregation-algorithm selector, and the round coordinator that drives the
//! `start -> aggregate -> aggregate -> ...` lifecycle. The engine itself
//! (decryption, weighted summation, differential-privacy noise) is an external
//! collaborator reached through the `SecureComputeEngine` capability; the
//! coordinator only prepares its inputs and consumes its outputs, and treats
//! any abnormal engine status as fatal for the current operation.

pub mod coordinator;
pub mod engine;
pub mod errors;
pub mod registry;
pub mod sampler;
pub mod selector;
