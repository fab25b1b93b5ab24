//! The rejection sampler: uniform draws from an arbitrary inclusive range.
//!
//! A request for `[lo, hi]` is normalised to the zero-based span
//! `[0, hi - lo]`.  Raw steps of the engine are reduced modulo the smallest
//! power of two that holds the whole span and rejected while they fall
//! outside it; the first accepted draw, shifted back by `lo`, is the
//! result.  Because the
//! raw output space is a power of two, the reduction is exact and every
//! value of the span is equally likely.
//!
//! Each redraw is rejected with probability below one half, so in practice a
//! handful of steps suffice; termination cannot be proved outright, though,
//! so the redraw count carries the hard ceiling [`MAX_DRAWS`].  No feasible
//! run reaches it, and the contracts state exactly what holds if one did.

use vstd::prelude::*;

use crate::engine::Acorn;
use crate::powers::{range_modulus, reject_mod};

verus! {

/// Hard ceiling on the number of raw draws one sampling request may spend.
pub const MAX_DRAWS: u64 = 18446744073709551615;

/// What a finished rejection pass over the zero-based span `[0, ub]` did:
/// for some draw count `n`, every earlier reduced draw missed the span, the
/// result is the `n`-th reduced draw, and the generator advanced by exactly
/// `n` steps.
pub open spec fn zero_range_post(pre: Acorn, post: Acorn, ub: int, r: int) -> bool {
    &&& post.k == pre.k
    &&& post.m == pre.m
    &&& exists|n: nat| #![auto]
        1 <= n && (forall|j: nat| 1 <= j < n ==> pre.out_at(j) % reject_mod(ub) > ub) && r
            == pre.out_at(n) % reject_mod(ub) && (post.y.0 as int, post.y.1 as int)
            == pre.state_after(n)
}

/// The never-reached-in-practice alternative: all `MAX_DRAWS` reduced draws
/// missed the span and the generator advanced by exactly `MAX_DRAWS` steps.
pub open spec fn draws_exhausted(pre: Acorn, post: Acorn, ub: int) -> bool {
    &&& post.k == pre.k
    &&& post.m == pre.m
    &&& forall|j: nat| #![auto] 1 <= j <= MAX_DRAWS ==> pre.out_at(j) % reject_mod(ub) > ub
    &&& (post.y.0 as int, post.y.1 as int) == pre.state_after(MAX_DRAWS as nat)
}

/// The full contract of one sampling request over `[lo, hi]`: the result is
/// in range, and it is the first accepted reduced draw shifted by `lo` —
/// unless every draw up to the ceiling was rejected, in which case it is
/// `lo` itself.
pub open spec fn range_draw_post(pre: Acorn, post: Acorn, lo: int, hi: int, r: int) -> bool {
    &&& lo <= r <= hi
    &&& (zero_range_post(pre, post, hi - lo, r - lo) || (draws_exhausted(pre, post, hi - lo) && r
        == lo))
}

impl Acorn {
    /// Draw a value uniformly from `[0, upper_bound]`.
    ///
    /// Raw steps are reduced modulo the smallest power of two that holds
    /// the whole span and redrawn while the result lies beyond
    /// `upper_bound`.
    pub fn generate_from_zero_range(&mut self, upper_bound: u128) -> (r: u128)
        requires
            old(self).wf(),
        ensures
            final(self).wf(),
            range_draw_post(*old(self), *final(self), 0, upper_bound as int, r as int),
    {
        let ghost pre = *self;
        let x: u128 = range_modulus(upper_bound);
        let mut number: u128 = self.generate_u128() % x;
        let mut draws: u64 = 1;
        while number > upper_bound && draws < MAX_DRAWS
            invariant
                self.wf(),
                pre.wf(),
                self.k == pre.k,
                self.m == pre.m,
                x as int == reject_mod(upper_bound as int),
                x >= 1,
                1 <= draws,
                number as int == pre.out_at(draws as nat) % reject_mod(upper_bound as int),
                (self.y.0 as int, self.y.1 as int) == pre.state_after(draws as nat),
                forall|j: nat| #![auto]
                    1 <= j < draws as nat ==> pre.out_at(j) % reject_mod(upper_bound as int)
                        > upper_bound as int,
            decreases MAX_DRAWS as int - draws as int,
        {
            number = self.generate_u128() % x;
            draws = draws + 1;
        }
        if number <= upper_bound {
            proof {
                assert(zero_range_post(pre, *self, upper_bound as int, number as int));
            }
            number
        } else {
            proof {
                assert(draws == MAX_DRAWS);
                assert(draws_exhausted(pre, *self, upper_bound as int));
            }
            0
        }
    }

    /// Draw a value uniformly from the inclusive range `[lo, hi]`.
    pub fn generate_number_between_range(&mut self, lo: u128, hi: u128) -> (r: u128)
        requires
            old(self).wf(),
            lo <= hi,
        ensures
            final(self).wf(),
            range_draw_post(*old(self), *final(self), lo as int, hi as int, r as int),
    {
        let d: u128 = self.generate_from_zero_range(hi - lo);
        d + lo
    }
}

} // verus!
