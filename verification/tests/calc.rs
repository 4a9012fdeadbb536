use calc_api::bignum::usize_to_string;
use calc_api::fibo::{calc_fibo_rec, fibo, FiboCache, FiboQuery};
use calc_api::hanoi::{
    calc_hanoi_num, calc_hanoi_rec, hanoi, hanoi_count_offloads, hanoi_plan, HanoiOutcome,
    HanoiPlan, HanoiQuery,
};
use num::BigUint;

#[test]
fn fibonacci_base_and_small_values() {
    let cache = FiboCache::new();
    assert_eq!(calc_fibo_rec(0, &cache), BigUint::from(0u64));
    assert_eq!(calc_fibo_rec(1, &cache), BigUint::from(1u64));
    assert_eq!(calc_fibo_rec(10, &cache), BigUint::from(55u64));
    assert_eq!(calc_fibo_rec(20, &cache), BigUint::from(6765u64));
}

#[test]
fn fibonacci_recurrence_beyond_machine_range() {
    let cache = FiboCache::new();
    let f98 = calc_fibo_rec(98, &cache);
    let f99 = calc_fibo_rec(99, &cache);
    let f100 = calc_fibo_rec(100, &cache);
    assert_eq!(f100, &f98 + &f99);
    assert_eq!(f100.to_string(), "354224848179261915075");
}

#[test]
fn fibonacci_repeated_calls_agree() {
    let cache = FiboCache::new();
    let first = calc_fibo_rec(300, &cache);
    let second = calc_fibo_rec(300, &cache);
    assert_eq!(first, second);
    // the second call is answered from the cache the first one filled;
    // a later read from a fresh engine agrees as well
    let other = FiboCache::new();
    assert_eq!(calc_fibo_rec(300, &other), first);
}

#[test]
fn fibonacci_many_callers_one_cache() {
    let cache = FiboCache::new();
    for _ in 0..20 {
        assert_eq!(calc_fibo_rec(30, &cache), BigUint::from(832040u64));
    }
}

#[test]
fn fibo_route_small_value() {
    let cache = FiboCache::new();
    let r = fibo(FiboQuery { n: 10 }, &cache);
    assert_eq!(r.code, 0);
    assert_eq!(r.resp, "ok");
    assert_eq!(r.data, "55");
}

#[test]
fn fibo_route_accepts_the_largest_index() {
    let cache = FiboCache::new();
    let r = fibo(FiboQuery { n: 5000 }, &cache);
    assert_eq!(r.code, 0);
    assert_eq!(r.resp, "ok");
    assert_eq!(r.data, calc_fibo_rec(5000, &cache).to_string());
}

#[test]
fn fibo_route_rejects_above_the_limit() {
    let cache = FiboCache::new();
    let r = fibo(FiboQuery { n: 5001 }, &cache);
    assert_eq!(r.code, 1);
    assert_eq!(r.resp, "Bad Request");
    assert_eq!(r.data, "The number is too big! (>5,000)");
}

#[test]
fn hanoi_sequence_one_disk() {
    assert_eq!(calc_hanoi_rec(1), vec![(1, 3)]);
}

#[test]
fn hanoi_sequence_two_disks() {
    assert_eq!(calc_hanoi_rec(2), vec![(1, 2), (1, 3), (2, 3)]);
}

#[test]
fn hanoi_sequence_three_disks() {
    let moves = calc_hanoi_rec(3);
    assert_eq!(moves.len(), 7);
    assert_eq!(
        moves,
        vec![(1, 3), (1, 2), (3, 2), (1, 3), (2, 1), (2, 3), (1, 3)]
    );
}

#[test]
fn hanoi_sequence_length_matches_count() {
    for n in 1..=14 {
        let moves = calc_hanoi_rec(n);
        assert_eq!(BigUint::from(moves.len()), calc_hanoi_num(n));
        assert_eq!(moves.len(), (1usize << n) - 1);
    }
}

#[test]
fn hanoi_count_zero_disks() {
    assert_eq!(calc_hanoi_num(0), BigUint::from(0u64));
}

#[test]
fn hanoi_count_large_tower() {
    let expected = "1071508607186267320948425049060001810561404811705533607443750388370351\
0511249361224931983788156958581275946729175531468251871452856923140435\
9845775746985748039345677748242309854210746050623711418779541821530464\
7498358194126739876755916554394607706291457119647768654216766042983165\
2624386837205668069375";
    assert_eq!(calc_hanoi_num(1000).to_string(), expected);
}

#[test]
fn hanoi_plan_boundaries() {
    assert_eq!(hanoi_plan(0), HanoiPlan::Sequence);
    assert_eq!(hanoi_plan(14), HanoiPlan::Sequence);
    assert_eq!(hanoi_plan(15), HanoiPlan::CountOnly);
    assert_eq!(hanoi_plan(9_999_999), HanoiPlan::CountOnly);
    assert_eq!(hanoi_plan(10_000_000), HanoiPlan::Reject);
}

#[test]
fn hanoi_count_offload_threshold() {
    assert!(!hanoi_count_offloads(999_999));
    assert!(hanoi_count_offloads(1_000_000));
}

#[test]
fn hanoi_route_sequence() {
    let moves = calc_hanoi_rec(3);
    let r = hanoi(HanoiQuery { n: 3 }, HanoiOutcome::Moves(moves.clone()));
    assert_eq!(r.code, 0);
    assert_eq!(r.resp, "ok");
    assert_eq!(r.data.num_replacement, "7");
    assert_eq!(r.data.orders, Some(moves));
}

#[test]
fn hanoi_route_count_only() {
    let count = calc_hanoi_num(20);
    let r = hanoi(HanoiQuery { n: 20 }, HanoiOutcome::Count(count));
    assert_eq!(r.code, 1);
    assert_eq!(r.resp, "Input number exceeds order calculation limit (14)");
    assert_eq!(r.data.num_replacement, "1048575");
    assert_eq!(r.data.orders, None);
}

#[test]
fn hanoi_route_rejects_above_the_limit() {
    let r = hanoi(HanoiQuery { n: 10_000_000 }, HanoiOutcome::Skipped);
    assert_eq!(r.code, 2);
    assert_eq!(r.resp, "Input number exceeds limit (10,000,000)");
    assert_eq!(r.data.num_replacement, "");
    assert_eq!(r.data.orders, None);
}

#[test]
fn hanoi_route_offload_failure_on_sequence() {
    let r = hanoi(HanoiQuery { n: 5 }, HanoiOutcome::OffloadFailed);
    assert_eq!(r.code, -1);
    assert_eq!(r.resp, "Thread join Error occur!");
    assert_eq!(r.data.num_replacement, "");
    assert_eq!(r.data.orders, None);
}

#[test]
fn hanoi_route_offload_failure_on_count() {
    let r = hanoi(HanoiQuery { n: 2_000_000 }, HanoiOutcome::OffloadFailed);
    assert_eq!(r.code, -1);
    assert_eq!(r.resp, "Thread join Error occur!");
    assert_eq!(r.data.orders, None);
}

#[test]
fn decimal_rendering_of_machine_words() {
    assert_eq!(usize_to_string(0), "0");
    assert_eq!(usize_to_string(7), "7");
    assert_eq!(usize_to_string(10), "10");
    assert_eq!(usize_to_string(909), "909");
    assert_eq!(usize_to_string(123_456_789), "123456789");
    assert_eq!(usize_to_string(usize::MAX), usize::MAX.to_string());
}
