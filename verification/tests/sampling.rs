use secure_aggregation::errors::AggregatorError;
use secure_aggregation::registry::{Session, SessionRegistry};
use secure_aggregation::sampler::{compute_sample_size, sample, sample_by_ratio, SamplingRatio};
use secure_aggregation::selector::{resolve, DispatchTarget, CLIENT_SIZE_OPTIMIZED_ALG};

fn ratio(num: u32, den: u32) -> SamplingRatio {
    SamplingRatio { num, den }
}

#[test]
fn sample_size_is_floor_of_ratio_times_pool() {
    assert_eq!(compute_sample_size(ratio(1, 2), 10), 5);
    assert_eq!(compute_sample_size(ratio(1, 2), 11), 5);
    assert_eq!(compute_sample_size(ratio(1, 3), 10), 3);
    assert_eq!(compute_sample_size(ratio(2, 3), 10), 6);
    assert_eq!(compute_sample_size(ratio(1, 1), 10), 10);
    assert_eq!(compute_sample_size(ratio(1, 10), 9), 0);
    assert_eq!(compute_sample_size(ratio(999, 1000), 1000), 999);
    assert_eq!(compute_sample_size(ratio(1, 2), 0), 0);
}

#[test]
fn sample_is_the_cyclic_window_at_the_seed() {
    let pool: Vec<u32> = vec![10, 20, 30, 40, 50];
    assert_eq!(sample(&pool, 3, 0), vec![10, 20, 30]);
    assert_eq!(sample(&pool, 3, 2), vec![30, 40, 50]);
    // The window wraps around the end of the pool.
    assert_eq!(sample(&pool, 5, 3), vec![40, 50, 10, 20, 30]);
    // The seed is taken modulo the pool size.
    assert_eq!(sample(&pool, 2, 7), vec![30, 40]);
    assert_eq!(sample(&pool, 0, 1), Vec::<u32>::new());
    // A size above the pool size cycles through the pool again.
    assert_eq!(sample(&pool, 7, 0), vec![10, 20, 30, 40, 50, 10, 20]);
}

#[test]
fn every_sampled_id_comes_from_the_pool() {
    let pool: Vec<u32> = (100..200).step_by(7).collect();
    for seed in 0..20 {
        for k in 0..pool.len() {
            for id in sample(&pool, k, seed) {
                assert!(pool.contains(&id));
            }
        }
    }
}

#[test]
fn ratio_sampling_fails_only_on_an_empty_pool() {
    assert_eq!(
        sample_by_ratio(&Vec::new(), ratio(1, 2), 0).unwrap_err(),
        AggregatorError::EmptyPool
    );
    assert_eq!(
        sample_by_ratio(&vec![8, 9], ratio(1, 1), 0).unwrap(),
        vec![8, 9]
    );
    assert_eq!(
        sample_by_ratio(&vec![5, 6, 7, 8], ratio(1, 2), 1).unwrap(),
        vec![6, 7]
    );
    // A tiny ratio of a tiny pool still succeeds, with an empty sample.
    assert_eq!(sample_by_ratio(&vec![3], ratio(1, 2), 0).unwrap(), Vec::<u32>::new());
}

#[test]
fn resolve_picks_optimized_only_for_the_designated_alg() {
    assert_eq!(resolve(CLIENT_SIZE_OPTIMIZED_ALG, 10, 5), Ok(DispatchTarget::Optimized));
    assert_eq!(resolve(CLIENT_SIZE_OPTIMIZED_ALG, 10, 10), Ok(DispatchTarget::Optimized));
    assert_eq!(resolve(0, 10, 5), Ok(DispatchTarget::Standard));
    assert_eq!(resolve(1, 10, 0), Ok(DispatchTarget::Standard));
    assert_eq!(resolve(7, 3, 0), Ok(DispatchTarget::Standard));
}

#[test]
fn resolve_rejects_oversized_optimal_count_for_every_alg() {
    for alg in [0u32, 1, CLIENT_SIZE_OPTIMIZED_ALG, 40] {
        assert_eq!(resolve(alg, 10, 11), Err(AggregatorError::InvalidOptimalCount));
        assert_eq!(resolve(alg, 0, 1), Err(AggregatorError::InvalidOptimalCount));
    }
}

fn session(fl_id: u32, clients: Vec<u32>) -> Session {
    Session {
        fl_id,
        clients,
        sigma_bits: 0,
        clipping_bits: 0,
        dp_enabled: false,
        sampling_ratio: SamplingRatio { num: 1, den: 2 },
        aggregation_alg: 0,
        verbose: false,
        round: 0,
        sampled_clients: Vec::new(),
    }
}

#[test]
fn registry_create_get_and_advance() {
    let mut registry = SessionRegistry::new();
    registry.create(session(1, vec![1, 2, 3])).unwrap();
    registry.create(session(2, vec![4, 5])).unwrap();
    assert_eq!(
        registry.create(session(1, vec![9])).unwrap_err(),
        AggregatorError::DuplicateSession
    );

    let s = registry.get(1).unwrap();
    assert_eq!(s.fl_id, 1);
    assert_eq!(s.clients, vec![1, 2, 3]);
    assert_eq!(s.round, 0);
    assert_eq!(
        registry.get(3).unwrap_err(),
        AggregatorError::UnknownSession
    );

    assert_eq!(registry.advance_round(1, vec![2, 3]).unwrap(), 1);
    assert_eq!(registry.advance_round(1, vec![1, 2]).unwrap(), 2);
    let s = registry.get(1).unwrap();
    assert_eq!(s.round, 2);
    assert_eq!(s.sampled_clients, vec![1, 2]);
    // The registered pool is untouched by round advancement.
    assert_eq!(s.clients, vec![1, 2, 3]);
    // Other sessions are untouched too.
    assert_eq!(registry.get(2).unwrap().round, 0);
    assert_eq!(
        registry.advance_round(9, vec![]).unwrap_err(),
        AggregatorError::UnknownSession
    );
}
