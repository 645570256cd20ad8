//! The one arithmetic operation the module exposes: signed 64-bit
//! addition with two's-complement wraparound.
//!
//! Overflow policy, chosen and documented here: the sum wraps. Whenever
//! the true sum fits in the signed 64-bit range the result is exact; on
//! overflow the result is the true sum shifted by one full 64-bit cycle,
//! so `add_numbers(i64::MAX, 1)` yields `i64::MIN`.

use vstd::prelude::*;

verus! {

/// One full cycle of the 64-bit two's-complement representation.
pub open spec fn two_pow_64() -> int {
    0x1_0000_0000_0000_0000
}

/// The sum of `a` and `b` under two's-complement 64-bit wraparound:
/// the unique value congruent to `a + b` modulo 2^64 that lies in the
/// signed 64-bit range.
pub open spec fn wrapped_sum(a: i64, b: i64) -> i64 {
    if a + b > i64::MAX {
        (a + b - two_pow_64()) as i64
    } else if a + b < i64::MIN {
        (a + b + two_pow_64()) as i64
    } else {
        (a + b) as i64
    }
}

/// The exported callable's computation: the wraparound sum of `a` and
/// `b`. Exact whenever the true sum is representable; pure, total, and
/// deterministic, with no failure path of its own.
pub fn add_numbers(a: i64, b: i64) -> (sum: i64)
    ensures
        sum == wrapped_sum(a, b),
        i64::MIN <= a + b <= i64::MAX ==> sum == a + b,
{
    a.wrapping_add(b)
}

/// The wraparound sum is commutative: the callable returns the same
/// value whichever order the two arguments arrive in.
pub proof fn lemma_add_commutative(a: i64, b: i64)
    ensures
        wrapped_sum(a, b) == wrapped_sum(b, a),
{
}

/// Zero is an identity: adding zero to any representable value returns
/// that value unchanged.
pub proof fn lemma_add_identity(a: i64)
    ensures
        wrapped_sum(a, 0) == a,
{
}

} // verus!
