//! Power-of-two widening for the rejection sampler.
//!
//! A zero-based span `[0, ub]` holds `ub + 1` values; it is widened to the
//! smallest power of two at least `ub + 1`, capped at `2^127` so the
//! widening itself cannot overflow.  Reducing a raw draw modulo that power
//! of two is exact because the raw output space is itself a power of two,
//! and every value of the span — its upper end included — remains
//! reachable.

use vstd::prelude::*;

use vstd::arithmetic::power2::{
    pow2, lemma_pow2_adds, lemma_pow2_strictly_increases, lemma_pow2_unfold, lemma2_to64,
    lemma2_to64_rest,
};

verus! {

/// Cap on the widened span: `2^127`, the largest power of two a `u128` holds.
pub const SPAN_CAP: u128 = 170141183460469231731687303715884105728;

/// The smallest power of two at least `x` (and 1 for `x <= 1`).
pub open spec fn pow2_ceil(x: int) -> int
    decreases x,
{
    if x <= 1 {
        1
    } else {
        2 * pow2_ceil((x + 1) / 2)
    }
}

/// The modulus the rejection sampler reduces raw draws by, for the
/// zero-based span `[0, ub]`: the smallest power of two that can hold all
/// `ub + 1` values of the span, capped at `2^127`.
pub open spec fn reject_mod(ub: int) -> int {
    if ub >= SPAN_CAP as int {
        SPAN_CAP as int
    } else {
        pow2_ceil(ub + 1)
    }
}

/// The span cap is the 127th power of two.
pub proof fn lemma_span_cap_pow2()
    ensures
        SPAN_CAP as int == pow2(127),
{
    lemma2_to64();
    lemma2_to64_rest();
    lemma_pow2_adds(64, 63);
}

/// A power of two that contains `x` and whose predecessor does not is
/// exactly the ceiling.
pub proof fn lemma_pow2_ceil_unique(x: int, e: nat)
    requires
        pow2(e) >= x,
        e == 0 || pow2((e - 1) as nat) < x,
    ensures
        pow2_ceil(x) == pow2(e),
    decreases e,
{
    lemma2_to64();
    if e == 0 {
        assert(x <= 1);
    } else {
        lemma_pow2_unfold(e);
        if e >= 2 {
            lemma_pow2_unfold((e - 1) as nat);
        }
        let h = (x + 1) / 2;
        assert(x > pow2((e - 1) as nat));
        assert(x >= 2);
        assert(h <= pow2((e - 1) as nat));
        assert(e - 1 == 0 || pow2((e - 2) as nat) < h);
        lemma_pow2_ceil_unique(h, (e - 1) as nat);
        assert(pow2_ceil(x) == 2 * pow2_ceil(h));
    }
}

/// Compute the power-of-two modulus for the zero-based span `[0, ub]`.
pub fn range_modulus(ub: u128) -> (r: u128)
    ensures
        r as int == reject_mod(ub as int),
        r >= 1,
{
    let mut p: u128 = 1;
    let ghost mut e: nat = 0;
    proof {
        lemma2_to64();
        lemma_span_cap_pow2();
    }
    while p <= ub && p < SPAN_CAP
        invariant
            1 <= p <= SPAN_CAP,
            p as int == pow2(e),
            e == 0 || pow2((e - 1) as nat) <= ub as int,
        decreases SPAN_CAP as int - p as int,
    {
        proof {
            lemma_span_cap_pow2();
            if e >= 127 {
                if e > 127 {
                    lemma_pow2_strictly_increases(127, e);
                }
                assert(false);
            }
            lemma_pow2_unfold((e + 1) as nat);
            if e + 1 < 127 {
                lemma_pow2_strictly_increases((e + 1) as nat, 127);
            }
        }
        p = p * 2;
        proof {
            e = e + 1;
        }
    }
    proof {
        lemma_span_cap_pow2();
        if p <= ub {
            assert(p == SPAN_CAP);
            assert(reject_mod(ub as int) == SPAN_CAP as int);
        } else {
            assert(ub < SPAN_CAP);
            lemma_pow2_ceil_unique(ub as int + 1, e);
        }
    }
    p
}

} // verus!
