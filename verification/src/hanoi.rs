//! Tower-of-Hanoi: exact move enumeration for small towers, a move count
//! (`2^n - 1`) for large ones, and the boundary policy that picks between
//! them.
//!
//! The enumeration and the count are pure; the host is expected to run
//! them on a worker so its own scheduler is never blocked, and to report
//! a worker fault as a distinct outcome ([`HanoiOutcome::OffloadFailed`]).

use vstd::prelude::*;

verus! {

use vstd::arithmetic::power::pow;
use vstd::arithmetic::power2::{pow2, lemma_pow2, lemma_pow2_pos, lemma_pow2_unfold};
use crate::bignum::{big_val, big_from_u64, big_pow, big_sub, big_to_string, dec_seq, usize_to_string};
use crate::api::ApiResponse;

/// The optimal move sequence carrying `n` disks from peg `from` to peg
/// `to` with `via` as the spare: solve `n - 1` disks onto the spare, move
/// the largest disk, then solve `n - 1` disks from the spare onto the
/// destination.  Each move is a `(source, destination)` peg pair.
pub open spec fn hanoi_moves(n: nat, from: u8, to: u8, via: u8) -> Seq<(u8, u8)>
    decreases n,
{
    if n == 0 {
        Seq::empty()
    } else {
        hanoi_moves((n - 1) as nat, from, via, to) + seq![(from, to)] + hanoi_moves(
            (n - 1) as nat,
            via,
            to,
            from,
        )
    }
}

/// An optimal solution for `n` disks takes exactly `2^n - 1` moves,
/// whichever pegs it runs over: the value that `calc_hanoi_num` returns
/// is exactly the length of the sequence that `calc_hanoi_rec` builds.
pub proof fn lemma_hanoi_moves_len(n: nat, from: u8, to: u8, via: u8)
    ensures
        hanoi_moves(n, from, to, via).len() + 1 == pow2(n),
    decreases n,
{
    if n == 0 {
        assert(pow2(0) == 1) by {
            lemma_pow2(0);
            reveal(pow);
        }
    } else {
        lemma_hanoi_moves_len((n - 1) as nat, from, via, to);
        lemma_hanoi_moves_len((n - 1) as nat, via, to, from);
        lemma_pow2_unfold(n);
    }
}

/// Appends to `res_vec` the optimal move sequence for `num_cell` disks
/// from peg `from` to peg `to`, using peg `via` as the spare.
pub fn calc_hanoi_inner_(num_cell: usize, from: u8, to: u8, via: u8, res_vec: &mut Vec<(u8, u8)>)
    requires
        num_cell >= 1,
    ensures
        final(res_vec)@ == old(res_vec)@ + hanoi_moves(num_cell as nat, from, to, via),
    decreases num_cell,
{
    if num_cell == 1 {
        res_vec.push((from, to));
        proof {
            assert(res_vec@ =~= old(res_vec)@ + hanoi_moves(1, from, to, via));
        }
    } else {
        calc_hanoi_inner_(num_cell - 1, from, via, to, res_vec);
        res_vec.push((from, to));
        calc_hanoi_inner_(num_cell - 1, via, to, from, res_vec);
        proof {
            assert(res_vec@ =~= old(res_vec)@ + hanoi_moves(num_cell as nat, from, to, via));
        }
    }
}

/// The full move sequence of an optimal solution for `num_cell` disks,
/// over the canonical pegs: 1 the source, 3 the destination, 2 the spare.
///
/// Intended for small towers only; the host offloads this call to a
/// worker and treats a worker fault as [`HanoiOutcome::OffloadFailed`].
pub fn calc_hanoi_rec(num_cell: usize) -> (orders: Vec<(u8, u8)>)
    requires
        num_cell >= 1,
    ensures
        orders@ == hanoi_moves(num_cell as nat, 1, 3, 2),
{
    let mut orders: Vec<(u8, u8)> = Vec::new();
    calc_hanoi_inner_(num_cell, 1, 3, 2, &mut orders);
    orders
}

/// The number of moves of an optimal solution for `num_cell` disks,
/// `2^num_cell - 1`, computed without building the sequence.
pub fn calc_hanoi_num(num_cell: usize) -> (r: num::BigUint)
    ensures
        big_val(r) + 1 == pow2(num_cell as nat),
{
    let two = big_from_u64(2);
    let p = big_pow(&two, num_cell);
    let one = big_from_u64(1);
    proof {
        lemma_pow2(num_cell as nat);
        lemma_pow2_pos(num_cell as nat);
    }
    big_sub(&p, &one)
}

/// Whether computing the move count for `num_cell` disks is heavy enough
/// that the host should hand it to a worker rather than run it inline.
pub fn hanoi_count_offloads(num_cell: usize) -> (b: bool)
    ensures
        b == (num_cell >= 1_000_000),
{
    num_cell >= 1_000_000
}

pub struct HanoiQuery {
    pub n: usize,
}

#[derive(Debug, PartialEq, Eq, Clone)]
pub struct HanoiResponse {
    pub num_replacement: String,
    pub orders: Option<Vec<(u8, u8)>>,
}

/// What the admission policy decides to compute for a tower of a given
/// size: the full sequence for small towers, the bare count for towers
/// whose sequence would be impractical to build, nothing at all beyond
/// the absolute limit.
#[derive(Debug, PartialEq, Eq, Clone, Copy)]
pub enum HanoiPlan {
    Sequence,
    CountOnly,
    Reject,
}

/// The admission policy for a tower of `n` disks.
pub fn hanoi_plan(n: usize) -> (p: HanoiPlan)
    ensures
        n < 15 ==> p is Sequence,
        15 <= n < 10_000_000 ==> p is CountOnly,
        n >= 10_000_000 ==> p is Reject,
{
    if n < 15 {
        HanoiPlan::Sequence
    } else if n < 10_000_000 {
        HanoiPlan::CountOnly
    } else {
        HanoiPlan::Reject
    }
}

/// What came back from the worker the host consulted: the move sequence,
/// the bare count, a worker fault, or nothing because the plan was
/// [`HanoiPlan::Reject`] and no worker was consulted.
pub enum HanoiOutcome {
    Moves(Vec<(u8, u8)>),
    Count(num::BigUint),
    OffloadFailed,
    Skipped,
}

/// The response reporting a worker fault: such a fault surfaces as this
/// distinct failure response, never as a crash.
fn offload_failed_response() -> (r: ApiResponse<HanoiResponse>)
    ensures
        r.code == -1,
        r.resp@ == "Thread join Error occur!"@,
        r.data.num_replacement@ == Seq::<char>::empty(),
        r.data.orders is None,
{
    ApiResponse {
        code: -1,
        resp: "Thread join Error occur!".to_owned(),
        data: HanoiResponse { num_replacement: String::new(), orders: None },
    }
}

/// Builds the response for a Hanoi request of `query.n` disks, given
/// what the worker the host consulted came back with.
pub fn hanoi(query: HanoiQuery, outcome: HanoiOutcome) -> (r: ApiResponse<HanoiResponse>)
    requires
        query.n < 15 ==> outcome is Moves || outcome is OffloadFailed,
        15 <= query.n < 10_000_000 ==> outcome is Count || outcome is OffloadFailed,
        query.n >= 10_000_000 ==> outcome is Skipped,
    ensures
        outcome matches HanoiOutcome::Moves(v) ==> r.code == 0 && r.resp@ == "ok"@
            && r.data.num_replacement@ == dec_seq(v@.len() as nat) && r.data.orders == Some(v),
        outcome matches HanoiOutcome::Count(c) ==> r.code == 1 && r.resp@
            == "Input number exceeds order calculation limit (14)"@ && r.data.num_replacement@
            == dec_seq(big_val(c)) && r.data.orders is None,
        outcome is OffloadFailed ==> r.code == -1 && r.resp@ == "Thread join Error occur!"@
            && r.data.num_replacement@ == Seq::<char>::empty() && r.data.orders is None,
        outcome is Skipped ==> r.code == 2 && r.resp@ == "Input number exceeds limit (10,000,000)"@
            && r.data.num_replacement@ == Seq::<char>::empty() && r.data.orders is None,
{
    if query.n < 15 {
        match outcome {
            HanoiOutcome::Moves(v) => {
                let num_replacement = usize_to_string(v.len());
                ApiResponse {
                    code: 0,
                    resp: "ok".to_owned(),
                    data: HanoiResponse { num_replacement, orders: Some(v) },
                }
            }
            _ => offload_failed_response(),
        }
    } else if query.n < 10_000_000 {
        match outcome {
            HanoiOutcome::Count(c) => {
                ApiResponse {
                    code: 1,
                    resp: "Input number exceeds order calculation limit (14)".to_owned(),
                    data: HanoiResponse { num_replacement: big_to_string(&c), orders: None },
                }
            }
            _ => offload_failed_response(),
        }
    } else {
        ApiResponse {
            code: 2,
            resp: "Input number exceeds limit (10,000,000)".to_owned(),
            data: HanoiResponse { num_replacement: String::new(), orders: None },
        }
    }
}

} // verus!
