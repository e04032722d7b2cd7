use vstd::prelude::*;

use crate::ballot::{all_below, contains_idx, has_duplicate, overlaps};
use crate::errors::ErrorCode;

verus! {

/// The adjustment a validated ballot makes to the counter of choice `k`:
/// plus one when `k` is a positive selection, minus one when it is a
/// negative one, zero otherwise. (A validated ballot never has `k` in both.)
pub open spec fn vote_delta(plus: Seq<u8>, minus: Seq<u8>, k: int) -> int {
    (if contains_idx(plus, k) {
        1int
    } else {
        0int
    }) - (if contains_idx(minus, k) {
        1int
    } else {
        0int
    })
}

/// Whether applying the ballot would overflow some counter: a positive
/// selection whose counter is already at the maximum, or a negative one
/// whose counter is already at the minimum.
pub open spec fn tally_would_overflow(votes: Seq<i64>, plus: Seq<u8>, minus: Seq<u8>) -> bool {
    ||| exists|i: int| 0 <= i < plus.len() && votes[plus[i] as int] == i64::MAX
    ||| exists|i: int| 0 <= i < minus.len() && votes[minus[i] as int] == i64::MIN
}

/// `contains_idx` over a one-longer prefix sees exactly the one new entry.
proof fn lemma_contains_take_step(s: Seq<u8>, i: int, k: int)
    requires
        0 <= i < s.len(),
    ensures
        contains_idx(s.take(i + 1), k) <==> (contains_idx(s.take(i), k) || s[i] as int == k),
{
    let t0 = s.take(i);
    let t1 = s.take(i + 1);
    if contains_idx(t1, k) {
        let j = choose|j: int| 0 <= j < t1.len() && t1[j] as int == k;
        if j < i {
            assert(t0[j] as int == k);
            assert(contains_idx(t0, k));
        } else {
            assert(s[i] as int == k);
        }
    }
    if contains_idx(t0, k) {
        let j = choose|j: int| 0 <= j < t0.len() && t0[j] as int == k;
        assert(t1[j] as int == k);
        assert(contains_idx(t1, k));
    }
    if s[i] as int == k {
        assert(t1[i] as int == k);
        assert(contains_idx(t1, k));
    }
}

/// Applies an already-validated ballot to the tally as one all-or-nothing
/// unit: every adjustment is pre-checked for overflow before any counter is
/// touched, so a failing call leaves the tally exactly as it was.
pub fn apply_ballot(votes: &mut Vec<i64>, plus: &Vec<u8>, minus: &Vec<u8>) -> (r: Result<
    (),
    ErrorCode,
>)
    requires
        !has_duplicate(plus@),
        !has_duplicate(minus@),
        !overlaps(plus@, minus@),
        all_below(plus@, old(votes)@.len() as int),
        all_below(minus@, old(votes)@.len() as int),
    ensures
        match r {
            Ok(()) => {
                &&& !tally_would_overflow(old(votes)@, plus@, minus@)
                &&& final(votes)@.len() == old(votes)@.len()
                &&& forall|k: int|
                    0 <= k < old(votes)@.len() ==> final(votes)@[k] as int == old(votes)@[k] as int
                        + vote_delta(plus@, minus@, k)
            },
            Err(e) => {
                &&& e == ErrorCode::Overflow
                &&& tally_would_overflow(old(votes)@, plus@, minus@)
                &&& *final(votes) == *old(votes)
            },
        },
{
    // Pre-flight: every adjustment must fit before any counter is touched.
    let mut i: usize = 0;
    while i < plus.len()
        invariant
            i <= plus@.len(),
            *votes == *old(votes),
            all_below(plus@, votes@.len() as int),
            forall|j: int| 0 <= j < i ==> votes@[plus@[j] as int] != i64::MAX,
        decreases plus@.len() - i,
    {
        let idx = plus[i] as usize;
        if votes[idx] == i64::MAX {
            return Err(ErrorCode::Overflow);
        }
        i += 1;
    }
    let mut i: usize = 0;
    while i < minus.len()
        invariant
            i <= minus@.len(),
            *votes == *old(votes),
            all_below(minus@, votes@.len() as int),
            forall|j: int| 0 <= j < i ==> votes@[minus@[j] as int] != i64::MIN,
        decreases minus@.len() - i,
    {
        let idx = minus[i] as usize;
        if votes[idx] == i64::MIN {
            return Err(ErrorCode::Overflow);
        }
        i += 1;
    }
    assert(!tally_would_overflow(votes@, plus@, minus@));
    let ghost votes0 = votes@;

    // Apply the positive adjustments.
    let mut i: usize = 0;
    while i < plus.len()
        invariant
            i <= plus@.len(),
            votes@.len() == votes0.len(),
            !has_duplicate(plus@),
            all_below(plus@, votes0.len() as int),
            forall|j: int| 0 <= j < plus@.len() ==> votes0[plus@[j] as int] != i64::MAX,
            forall|k: int|
                0 <= k < votes0.len() ==> votes@[k] as int == votes0[k] as int + (
                if contains_idx(plus@.take(i as int), k) {
                    1int
                } else {
                    0int
                }),
        decreases plus@.len() - i,
    {
        let idx = plus[i] as usize;
        proof {
            if contains_idx(plus@.take(i as int), idx as int) {
                let j = choose|j: int|
                    0 <= j < i && plus@.take(i as int)[j] as int == idx as int;
                assert(plus@[j] == plus@[i as int]);
                assert(has_duplicate(plus@));
            }
        }
        let cur = votes[idx];
        votes.set(idx, cur + 1);
        proof {
            assert forall|k: int|
                0 <= k < votes0.len() implies votes@[k] as int == votes0[k] as int + (
            if contains_idx(plus@.take(i as int + 1), k) {
                1int
            } else {
                0int
            }) by {
                lemma_contains_take_step(plus@, i as int, k);
            }
        }
        i += 1;
    }
    proof {
        assert(plus@.take(plus@.len() as int) =~= plus@);
    }
    let ghost votes1 = votes@;

    // Apply the negative adjustments.
    let mut i: usize = 0;
    while i < minus.len()
        invariant
            i <= minus@.len(),
            votes@.len() == votes1.len(),
            votes1.len() == votes0.len(),
            !has_duplicate(minus@),
            !overlaps(plus@, minus@),
            all_below(minus@, votes0.len() as int),
            forall|j: int| 0 <= j < minus@.len() ==> votes0[minus@[j] as int] != i64::MIN,
            forall|k: int|
                0 <= k < votes0.len() ==> votes1[k] as int == votes0[k] as int + (
                if contains_idx(plus@, k) {
                    1int
                } else {
                    0int
                }),
            forall|k: int|
                0 <= k < votes0.len() ==> votes@[k] as int == votes1[k] as int - (
                if contains_idx(minus@.take(i as int), k) {
                    1int
                } else {
                    0int
                }),
        decreases minus@.len() - i,
    {
        let idx = minus[i] as usize;
        proof {
            if contains_idx(minus@.take(i as int), idx as int) {
                let j = choose|j: int|
                    0 <= j < i && minus@.take(i as int)[j] as int == idx as int;
                assert(minus@[j] == minus@[i as int]);
                assert(has_duplicate(minus@));
            }
            if contains_idx(plus@, idx as int) {
                let j = choose|j: int| 0 <= j < plus@.len() && plus@[j] as int == idx as int;
                assert(plus@[j] == minus@[i as int]);
                assert(overlaps(plus@, minus@));
            }
        }
        let cur = votes[idx];
        votes.set(idx, cur - 1);
        proof {
            assert forall|k: int|
                0 <= k < votes0.len() implies votes@[k] as int == votes1[k] as int - (
            if contains_idx(minus@.take(i as int + 1), k) {
                1int
            } else {
                0int
            }) by {
                lemma_contains_take_step(minus@, i as int, k);
            }
        }
        i += 1;
    }
    proof {
        assert(minus@.take(minus@.len() as int) =~= minus@);
    }
    Ok(())
}

} // verus!
