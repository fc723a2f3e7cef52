use vstd::prelude::*;
use vstd::arithmetic::div_mod::{lemma_add_mod_noop, lemma_mod_bound, lemma_mod_self_0, lemma_small_mod};
use vstd::arithmetic::div_mod::{lemma_div_is_ordered, lemma_div_multiples_vanish};
use vstd::arithmetic::mul::lemma_mul_inequality;
use crate::errors::AggregatorError;

verus! {

/// Fraction of the registered client pool that participates in a round.
///
/// The ratio is the exact rational `num / den` and lies in `(0, 1]`, which
/// `wf` captures as `1 <= num <= den`. Keeping the ratio as a rational lets
/// the sample size `floor(ratio * pool_len)` be computed and specified
/// exactly; a caller that receives the ratio as a binary floating-point
/// value converts it to a rational before entering the core.
#[derive(Clone, Copy, Debug, PartialEq, Eq, Structural)]
pub struct SamplingRatio {
    pub num: u32,
    pub den: u32,
}

impl SamplingRatio {
    /// The ratio is a well-formed element of `(0, 1]`.
    pub open spec fn wf(self) -> bool {
        1 <= self.num <= self.den
    }
}

/// Number of clients a round samples: `floor(ratio * pool_len)`.
pub open spec fn sample_size_spec(ratio: SamplingRatio, pool_len: nat) -> nat {
    ((ratio.num as nat) * pool_len) / (ratio.den as nat)
}

/// Computes `floor(ratio * pool_len)`, the participant count of a round.
pub fn compute_sample_size(ratio: SamplingRatio, pool_len: usize) -> (k: usize)
    requires
        ratio.wf(),
    ensures
        k == sample_size_spec(ratio, pool_len as nat),
        k <= pool_len,
{
    proof {
        assert((ratio.num as int) * (pool_len as int) <= 0xffff_ffff * 0xffff_ffff_ffff_ffff)
            by (nonlinear_arith)
            requires
                ratio.num as int <= 0xffff_ffff,
                pool_len as int <= 0xffff_ffff_ffff_ffff,
        ;
    }
    let product: u128 = (ratio.num as u128) * (pool_len as u128);
    let quotient: u128 = product / (ratio.den as u128);
    proof {
        lemma_mul_inequality(ratio.num as int, ratio.den as int, pool_len as int);
        lemma_div_is_ordered(
            ratio.num as int * pool_len as int,
            ratio.den as int * pool_len as int,
            ratio.den as int,
        );
        lemma_div_multiples_vanish(pool_len as int, ratio.den as int);
    }
    quotient as usize
}

/// The deterministic sample a pool yields for a given size and seed: the
/// cyclic window of `k` elements beginning at index `seed % pool.len()`.
pub open spec fn sample_spec(pool: Seq<u32>, k: nat, seed: nat) -> Seq<u32> {
    Seq::new(k, |i: int| pool[(seed + i) % (pool.len() as int)])
}

/// Every identifier of a sample is drawn from the pool it was sampled from,
/// and the sample has exactly the requested size — for every pool, size and
/// seed.
pub proof fn lemma_sample_drawn_from_pool(pool: Seq<u32>, k: nat, seed: nat)
    requires
        pool.len() > 0,
    ensures
        sample_spec(pool, k, seed).len() == k,
        forall|j: int|
            0 <= j < k ==> pool.contains(#[trigger] sample_spec(pool, k, seed)[j]),
{
    let s = sample_spec(pool, k, seed);
    assert forall|j: int| 0 <= j < k implies pool.contains(s[j]) by {
        let n = pool.len() as int;
        lemma_mod_bound(seed + j, n);
        let idx = (seed + j) % n;
        assert(s[j] == pool[idx]);
        assert(pool.contains(pool[idx]));
    }
}

/// Selects the participants of a round: `k` identifiers drawn from `pool`,
/// the cyclic window starting at `seed % pool.len()`.
///
/// The selection policy is deterministic in the pool, the size and the seed;
/// the coordinator seeds it with the round number, so successive rounds walk
/// different windows of the same registered pool.
pub fn sample(pool: &Vec<u32>, k: usize, seed: usize) -> (r: Vec<u32>)
    requires
        pool.len() > 0,
    ensures
        r@ == sample_spec(pool@, k as nat, seed as nat),
        r@.len() == k,
        forall|j: int| 0 <= j < k ==> pool@.contains(#[trigger] r@[j]),
{
    let n: usize = pool.len();
    let base: usize = seed % n;
    let mut out: Vec<u32> = Vec::new();
    let mut i: usize = 0;
    while i < k
        invariant
            0 < n == pool.len(),
            base == (seed as int) % (n as int),
            i <= k,
            out.len() == i,
            forall|j: int| 0 <= j < i ==> out@[j] == pool@[(seed + j) % (n as int)],
        decreases k - i,
    {
        let rem: usize = i % n;
        let idx: usize = if rem < n - base {
            base + rem
        } else {
            rem - (n - base)
        };
        proof {
            lemma_add_mod_noop(seed as int, i as int, n as int);
            if rem < n - base {
                lemma_small_mod((base + rem) as nat, n as nat);
            } else {
                let x = base + rem - n;
                lemma_small_mod(x as nat, n as nat);
                lemma_mod_self_0(n as int);
                lemma_add_mod_noop(x as int, n as int, n as int);
            }
            assert(idx as int == (seed + i) % (n as int));
        }
        let picked: u32 = pool[idx];
        out.push(picked);
        i += 1;
    }
    proof {
        assert(out@ =~= sample_spec(pool@, k as nat, seed as nat));
        lemma_sample_drawn_from_pool(pool@, k as nat, seed as nat);
    }
    out
}

/// Selects a round's participants by the configured ratio:
/// `floor(ratio * |pool|)` identifiers drawn from `pool`, starting at the
/// window the seed picks; fails with `EmptyPool`, for every ratio and seed,
/// exactly when the pool is empty.
pub fn sample_by_ratio(pool: &Vec<u32>, ratio: SamplingRatio, seed: usize) -> (r: Result<
    Vec<u32>,
    AggregatorError,
>)
    requires
        ratio.wf(),
    ensures
        match r {
            Ok(s) => {
                &&& pool@.len() > 0
                &&& s@ == sample_spec(pool@, sample_size_spec(ratio, pool@.len()), seed as nat)
                &&& s@.len() == sample_size_spec(ratio, pool@.len())
                &&& forall|j: int| 0 <= j < s@.len() ==> pool@.contains(#[trigger] s@[j])
            },
            Err(e) => e == AggregatorError::EmptyPool && pool@.len() == 0,
        },
{
    if pool.is_empty() {
        return Err(AggregatorError::EmptyPool);
    }
    let k = compute_sample_size(ratio, pool.len());
    Ok(sample(pool, k, seed))
}

} // verus!
