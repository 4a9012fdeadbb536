//! The Fibonacci engine: arbitrary-precision values, computed top-down
//! with a memoization cache shared across concurrent callers.
//!
//! The cache sits behind a reader-writer lock whose invariant is that
//! every entry holds the true Fibonacci number of its key, so no caller
//! can ever read a wrong value out of it, however calls interleave.
//! Two concurrent callers may both miss on the same fresh index and both
//! compute it; both then store the same correct value, which the
//! invariant tolerates by construction.

use vstd::prelude::*;

verus! {

use std::collections::HashMap;
use vstd::rwlock::{RwLock, RwLockPredicate};
use crate::bignum::{big_val, big_add, big_clone, big_from_u64, big_to_string, dec_seq};
use crate::api::ApiResponse;

broadcast use vstd::std_specs::hash::group_hash_axioms;

/// The mathematical Fibonacci sequence: `0, 1, 1, 2, 3, 5, ...`.
pub open spec fn spec_fib(n: nat) -> nat
    decreases n,
{
    if n == 0 {
        0
    } else if n == 1 {
        1
    } else {
        spec_fib((n - 1) as nat) + spec_fib((n - 2) as nat)
    }
}

/// The invariant of the memoization cache: whatever index is present
/// maps to the true Fibonacci number of that index.
pub struct FiboCachePred;

impl RwLockPredicate<HashMap<usize, num::BigUint>> for FiboCachePred {
    open spec fn inv(self, m: HashMap<usize, num::BigUint>) -> bool {
        forall|k: usize| #[trigger] m@.contains_key(k) ==> big_val(m@[k]) == spec_fib(k as nat)
    }
}

/// The process-wide memoization cache of the Fibonacci engine: created
/// empty, it only ever grows, and it is shared by all concurrent callers
/// through a readers-writer lock, so a cache hit never waits on another
/// reader and a write never corrupts a concurrent read.
pub struct FiboCache {
    lock: RwLock<HashMap<usize, num::BigUint>, FiboCachePred>,
}

impl FiboCache {
    pub closed spec fn wf(&self) -> bool {
        self.lock.pred() == FiboCachePred
    }

    /// An empty cache.
    pub fn new() -> (c: Self)
        ensures
            c.wf(),
    {
        let m: HashMap<usize, num::BigUint> = HashMap::new();
        FiboCache { lock: RwLock::new(m, Ghost(FiboCachePred)) }
    }
}

/// The `n`-th Fibonacci number, computed top-down with memoization:
/// consult the shared cache first, and after computing a fresh value
/// store it keyed by `n`.  Total over every `n`, and every caller gets
/// the mathematically correct value.
pub fn calc_fibo_rec(n: usize, cache: &FiboCache) -> (r: num::BigUint)
    requires
        cache.wf(),
    ensures
        big_val(r) == spec_fib(n as nat),
    decreases n,
{
    let read_handle = cache.lock.acquire_read();
    let cached: Option<num::BigUint> = match read_handle.borrow().get(&n) {
        Some(v) => Some(big_clone(v)),
        None => None,
    };
    read_handle.release_read();
    match cached {
        Some(res) => res,
        None => {
            if n == 0 || n == 1 {
                big_from_u64(n as u64)
            } else {
                let a = calc_fibo_rec(n - 1, cache);
                let b = calc_fibo_rec(n - 2, cache);
                let res = big_add(&a, &b);
                let (mut m, write_handle) = cache.lock.acquire_write();
                m.insert(n, big_clone(&res));
                write_handle.release_write(m);
                res
            }
        }
    }
}

/// The Fibonacci recurrence holds exactly at every index from the second
/// on, however far beyond machine range the values grow.
pub proof fn lemma_fib_recurrence(n: nat)
    requires
        n >= 2,
    ensures
        spec_fib(n) == spec_fib((n - 1) as nat) + spec_fib((n - 2) as nat),
{
}

/// The engine is deterministic: two calls for the same index — by one
/// caller twice, or by any two concurrent callers — carry the same
/// value, cached or not.
pub proof fn lemma_fibo_deterministic(n: usize, r1: num::BigUint, r2: num::BigUint)
    requires
        big_val(r1) == spec_fib(n as nat),
        big_val(r2) == spec_fib(n as nat),
    ensures
        big_val(r1) == big_val(r2),
        dec_seq(big_val(r1)) == dec_seq(big_val(r2)),
{
}

pub struct FiboQuery {
    pub n: usize,
}

/// Builds the response for a Fibonacci request: indices above 5000 are
/// rejected as too large; any other index is answered with the decimal
/// rendering of its Fibonacci number.
pub fn fibo(query: FiboQuery, cache: &FiboCache) -> (r: ApiResponse<String>)
    requires
        cache.wf(),
    ensures
        query.n > 5000 ==> r.code == 1 && r.resp@ == "Bad Request"@ && r.data@
            == "The number is too big! (>5,000)"@,
        query.n <= 5000 ==> r.code == 0 && r.resp@ == "ok"@ && r.data@ == dec_seq(
            spec_fib(query.n as nat),
        ),
{
    if query.n > 5_000 {
        ApiResponse {
            code: 1,
            resp: "Bad Request".to_owned(),
            data: "The number is too big! (>5,000)".to_owned(),
        }
    } else {
        let res = calc_fibo_rec(query.n, cache);
        ApiResponse { code: 0, resp: "ok".to_owned(), data: big_to_string(&res) }
    }
}

} // verus!
