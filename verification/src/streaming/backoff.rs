//! Exponential backoff with a ceiling for reconnect attempts.

use vstd::arithmetic::mul::lemma_mul_left_inequality;
use vstd::arithmetic::power2::{
    lemma2_to64, lemma_pow2_pos, lemma_pow2_strictly_increases, lemma_pow2_unfold, pow2,
};
use vstd::prelude::*;

verus! {

/// The delay before reconnect attempt number `attempt` (the first reconnect
/// attempt is 1): `min(initial * 2^(attempt - 1), max)`, in milliseconds.
pub open spec fn spec_backoff_delay_ms(initial: u64, max: u64, attempt: u64) -> int
    recommends
        1 <= attempt,
{
    let unclamped = initial * pow2((attempt - 1) as nat);
    if unclamped <= max {
        unclamped as int
    } else {
        max as int
    }
}

/// `pow2` never decreases as the exponent grows.
proof fn lemma_pow2_increases(e1: nat, e2: nat)
    requires
        e1 <= e2,
    ensures
        pow2(e1) <= pow2(e2),
{
    if e1 < e2 {
        lemma_pow2_strictly_increases(e1, e2);
    }
}

/// The backoff delay for a later attempt is never shorter: for
/// `1 <= a1 <= a2`, `delay(a1) <= delay(a2)`.
pub proof fn lemma_backoff_monotonic(initial: u64, max: u64, a1: u64, a2: u64)
    requires
        1 <= a1 <= a2,
    ensures
        spec_backoff_delay_ms(initial, max, a1) <= spec_backoff_delay_ms(initial, max, a2),
{
    lemma_pow2_increases((a1 - 1) as nat, (a2 - 1) as nat);
    if initial == 0 {
        assert(0 * pow2((a1 - 1) as nat) == 0) by (nonlinear_arith);
        assert(0 * pow2((a2 - 1) as nat) == 0) by (nonlinear_arith);
    } else {
        lemma_mul_left_inequality(
            initial as int,
            pow2((a1 - 1) as nat) as int,
            pow2((a2 - 1) as nat) as int,
        );
    }
}

/// The backoff delay never exceeds the ceiling `max`.
pub proof fn lemma_backoff_capped(initial: u64, max: u64, attempt: u64)
    requires
        1 <= attempt,
    ensures
        spec_backoff_delay_ms(initial, max, attempt) <= max,
{
}

/// Computes `min(initial * 2^(attempt - 1), max)`: the classic exponential
/// backoff with a ceiling.  `attempt` is 1 for the first reconnect attempt.
pub fn backoff_delay_ms(initial: u64, max: u64, attempt: u64) -> (r: u64)
    requires
        1 <= attempt,
    ensures
        r == spec_backoff_delay_ms(initial, max, attempt),
{
    proof {
        lemma_pow2_pos((attempt - 1) as nat);
        lemma2_to64();
    }
    if initial == 0 {
        assert(0 * pow2((attempt - 1) as nat) == 0) by (nonlinear_arith);
        return 0;
    }
    if initial >= max {
        proof {
            lemma_mul_left_inequality(initial as int, 1, pow2((attempt - 1) as nat) as int);
            assert(initial * 1 == initial) by (nonlinear_arith);
        }
        return max;
    }
    let mut d: u64 = initial;
    let mut i: u64 = 1;
    assert(d == initial * pow2(0));
    while i < attempt
        invariant
            1 <= i <= attempt,
            0 < initial < max,
            d == initial * pow2((i - 1) as nat),
            d < max,
        decreases attempt - i,
    {
        proof {
            lemma_pow2_pos((i - 1) as nat);
            lemma_pow2_unfold(i as nat);
            assert(initial * (2 * pow2((i - 1) as nat)) == 2 * (initial * pow2((i - 1) as nat)))
                by (nonlinear_arith);
        }
        // Now: initial * pow2(i) == 2 * d.
        if d > u64::MAX / 2 {
            // Doubling would overflow u64, so the unclamped delay already
            // exceeds any representable ceiling.
            proof {
                lemma_pow2_increases(i as nat, (attempt - 1) as nat);
                lemma_mul_left_inequality(
                    initial as int,
                    pow2(i as nat) as int,
                    pow2((attempt - 1) as nat) as int,
                );
            }
            return max;
        }
        let d2 = d * 2;
        if d2 >= max {
            proof {
                lemma_pow2_increases(i as nat, (attempt - 1) as nat);
                lemma_mul_left_inequality(
                    initial as int,
                    pow2(i as nat) as int,
                    pow2((attempt - 1) as nat) as int,
                );
            }
            return max;
        }
        d = d2;
        i = i + 1;
    }
    d
}

} // verus!
