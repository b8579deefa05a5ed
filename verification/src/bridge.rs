//! The blocking-offload bridge: CPU-bound recognition jobs run on a bounded
//! pool of workers, away from the request-handling reactor's threads.
//!
//! Jobs are independent and stateless, so the pool runs up to its size of
//! them truly concurrently; a job never waits for an unrelated one, only for
//! a free worker. The model here is the round schedule: job `i` runs in round
//! `i / pool`, and every round takes one job latency. The laws state the two
//! facts that make the pool worth having: each round holds at most `pool`
//! jobs, and all `n` jobs finish within `ceil(n / pool)` rounds — the
//! parallel bound, not the serialized `n` rounds.

use vstd::prelude::*;

use vstd::arithmetic::div_mod::{
    lemma_div_is_ordered,
    lemma_div_plus_one,
    lemma_div_pos_is_pos,
    lemma_fundamental_div_mod,
    lemma_fundamental_div_mod_converse_div,
    lemma_mod_division_less_than_divisor,
    lemma_multiply_divide_lt,
};
use vstd::arithmetic::mul::{lemma_mul_inequality, lemma_mul_is_distributive_add_other_way};
use vstd::set_lib::lemma_int_range;

verus! {

/// One recognition job: independent of every other job, processed by any
/// free worker with a fresh, unshared engine instance.
#[derive(Debug)]
pub struct RecognitionJob {
    /// The raw image to recognize.
    pub image_bytes: Vec<u8>,
    /// The language the engine is to use.
    pub language: String,
}

/// The rounds a pool of `pool` workers needs for `n` independent jobs:
/// the ceiling of `n / pool`.
pub open spec fn pool_rounds(n: int, pool: int) -> int {
    (n + pool - 1) / pool
}

/// The round in which job `i` runs when jobs are handed to workers in
/// arrival order.
pub open spec fn job_round(i: int, pool: int) -> int {
    i / pool
}

/// When job `i` starts, with every round taking one job latency.
pub open spec fn job_start(i: int, pool: int, latency: int) -> int {
    job_round(i, pool) * latency
}

/// When job `i` finishes.
pub open spec fn job_end(i: int, pool: int, latency: int) -> int {
    job_start(i, pool, latency) + latency
}

/// Computes `pool_rounds` for a job count and pool size.
pub fn pool_rounds_u64(n: u64, pool: u64) -> (r: u64)
    requires
        pool >= 1,
    ensures
        r == pool_rounds(n as int, pool as int),
{
    let whole = n / pool;
    let part = n % pool;
    proof {
        lemma_fundamental_div_mod(n as int, pool as int);
        lemma_mod_division_less_than_divisor(n as int, pool as int);
        lemma_div_pos_is_pos(n as int, pool as int);
        if part == 0 {
            lemma_fundamental_div_mod_converse_div(
                n as int + pool - 1,
                pool as int,
                whole as int,
                pool as int - 1,
            );
        } else {
            assert((whole as int + 1) * pool == whole as int * pool + pool) by {
                lemma_mul_is_distributive_add_other_way(pool as int, whole as int, 1);
            }
            lemma_fundamental_div_mod_converse_div(
                n as int + pool - 1,
                pool as int,
                whole as int + 1,
                part as int - 1,
            );
            assert(whole as int * pool >= whole as int) by {
                lemma_mul_inequality(1, pool as int, whole as int);
            }
        }
    }
    if part == 0 {
        whole
    } else {
        whole + 1
    }
}

/// Independence law, width: at most `pool` of the `n` jobs share any one
/// round, so the pool never runs more than `pool` jobs at once — and within a
/// round the jobs overlap freely, none waiting on another.
pub proof fn lemma_pool_width(n: int, pool: int, r: int)
    requires
        pool >= 1,
        n >= 0,
    ensures
        Set::new(|i: int| 0 <= i < n && job_round(i, pool) == r).finite(),
        Set::new(|i: int| 0 <= i < n && job_round(i, pool) == r).len() <= pool,
{
    let round = Set::new(|i: int| 0 <= i < n && job_round(i, pool) == r);
    let range = vstd::set_lib::set_int_range(r * pool, r * pool + pool);
    lemma_int_range(r * pool, r * pool + pool);
    assert forall|i: int| round.contains(i) implies range.contains(i) by {
        lemma_fundamental_div_mod(i, pool);
        lemma_mod_division_less_than_divisor(i, pool);
        vstd::arithmetic::mul::lemma_mul_is_commutative(pool, r);
        assert(i == pool * r + (i % pool));
    }
    vstd::set_lib::lemma_len_subset(round, range);
}

/// Independence law, makespan: every one of the `n` jobs finishes by
/// `pool_rounds(n, pool) * latency` — the `ceil(n / pool)` bound — and that
/// bound never exceeds the serialized bound `n * latency`, and stays strictly
/// under it whenever there are at least two workers and two jobs.
pub proof fn lemma_pool_independence(n: int, pool: int, latency: int, i: int)
    requires
        pool >= 1,
        0 <= i < n,
        latency >= 0,
    ensures
        job_end(i, pool, latency) <= pool_rounds(n, pool) * latency,
        pool_rounds(n, pool) * latency <= n * latency,
        pool >= 2 && n >= 2 ==> pool_rounds(n, pool) < n,
{
    if pool >= 2 && n >= 2 {
        assert(n + pool - 1 < pool * n) by (nonlinear_arith)
            requires
                pool >= 2,
                n >= 2,
        ;
        lemma_multiply_divide_lt(n + pool - 1, pool, n);
    }
    lemma_div_is_ordered(i, n - 1, pool);
    lemma_div_plus_one(n - 1, pool);
    assert(job_round(i, pool) + 1 <= pool_rounds(n, pool));
    lemma_mul_inequality(job_round(i, pool) + 1, pool_rounds(n, pool), latency);
    assert((job_round(i, pool) + 1) * latency == job_round(i, pool) * latency + latency) by {
        lemma_mul_is_distributive_add_other_way(latency, job_round(i, pool), 1);
    }
    assert(pool_rounds(n, pool) <= n) by {
        assert(n + pool - 1 <= n * pool) by (nonlinear_arith)
            requires
                pool >= 1,
                n >= 1,
        ;
        lemma_div_is_ordered(n + pool - 1, n * pool, pool);
        vstd::arithmetic::div_mod::lemma_div_by_multiple(n, pool);
    }
    lemma_mul_inequality(pool_rounds(n, pool), n, latency);
}

} // verus!
