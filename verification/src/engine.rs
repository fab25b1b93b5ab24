//! The state engine: the ACORN recurrence itself.
//!
//! A generator owns an order `k`, the fixed modulus `m = 2^120`, and a
//! rolling pair of state words.  Each step folds the running sum of the
//! pair back into one side of it, alternating sides `k - 1` times, and
//! returns the freshly produced word.  The whole step is modelled by the
//! spec functions below, so every contract in the crate can speak of the
//! exact value a step produces.
//!
//! The two-word state layout, the exact fold order and the warm-up length
//! determine every output bit for bit.  They are fixed compatibility
//! constants of this generator: changing any of them would change the
//! sequences that callers reproduce from a saved `(order, seed)` pair.

use vstd::prelude::*;

use crate::params::{Order, Seed, ORDER_MIN, ORDER_MAX};

verus! {

/// The fixed modulus `2^120` shared by every generator instance.
pub const MODULUS: u128 = 1329227995784915872903807060280344576;

/// Number of initial steps discarded at construction, so that the state has
/// wrapped past the modulus even for the smallest order and seed.
pub const WARMUP_STEPS: usize = 20;

/// One iteration of the recurrence's inner loop.  `st` is the loop state
/// `(y0, y1, previous, current)` before iteration `index`; the result is the
/// state after it.
pub open spec fn engine_round(st: (int, int, int, int), index: int, m: int) -> (int, int, int, int) {
    let r = (st.2 + st.3) % m;
    if index % 2 == 0 {
        (st.0, st.2, r, st.0)
    } else {
        (st.2, st.1, r, st.1)
    }
}

/// The loop state after running iterations `index .. k` of the inner loop.
pub open spec fn engine_run(st: (int, int, int, int), index: int, k: int, m: int) -> (int, int, int, int)
    decreases k - index,
{
    if index >= k {
        st
    } else {
        engine_run(engine_round(st, index, m), index + 1, k, m)
    }
}

/// One full step of the recurrence of order `k` starting from the pair
/// `(y0, y1)`: the new pair, and the value the step returns.
pub open spec fn engine_next(y0: int, y1: int, k: int, m: int) -> (int, int, int) {
    let st = engine_run((y0, y1, y0, y1), 1, k, m);
    (st.0, st.1, if k % 2 == 0 { st.0 } else { st.1 })
}

/// The state pair after `n` full steps from `(y0, y1)`.
pub open spec fn engine_state(y0: int, y1: int, k: int, m: int, n: nat) -> (int, int)
    decreases n,
{
    if n == 0 {
        (y0, y1)
    } else {
        let s = engine_state(y0, y1, k, m, (n - 1) as nat);
        let t = engine_next(s.0, s.1, k, m);
        (t.0, t.1)
    }
}

/// The value returned by the `n`-th step from `(y0, y1)`, counting from 1.
pub open spec fn engine_out(y0: int, y1: int, k: int, m: int, n: nat) -> int
    recommends
        n >= 1,
{
    let s = engine_state(y0, y1, k, m, (n - 1) as nat);
    engine_next(s.0, s.1, k, m).2
}

/// The seed word actually installed in the initial state: forced odd, then
/// reduced modulo the modulus.
pub open spec fn prepared_seed(seed: Seed) -> int {
    (if seed.0 % 2 == 0 {
        seed.0 + 1
    } else {
        seed.0 as int
    }) % (MODULUS as int)
}

/// Additive Congruential Random Number (ACORN) generator.
#[derive(Debug, PartialEq, Eq)]
pub struct Acorn {
    /// The recurrence depth.
    pub k: Order,
    /// The fixed modulus, always `MODULUS`.
    pub m: u128,
    /// The rolling pair of state words, each below `m`.
    pub y: (u128, u128),
}

/// The generator state that construction from `(k, seed)` yields: the
/// prepared seed replicated across the pair, advanced by the warm-up steps.
pub open spec fn constructed(k: Order, seed: Seed) -> Acorn {
    let s0 = prepared_seed(seed);
    let st = engine_state(s0, s0, k.0 as int, MODULUS as int, WARMUP_STEPS as nat);
    Acorn { k: k, m: MODULUS, y: (st.0 as u128, st.1 as u128) }
}

impl Acorn {
    /// Well-formedness: the modulus is the fixed one, both state words are
    /// below it, and the order is in the accepted band.
    pub open spec fn wf(self) -> bool {
        &&& self.m == MODULUS
        &&& (self.y.0 as int) < MODULUS as int
        &&& (self.y.1 as int) < MODULUS as int
        &&& ORDER_MIN <= self.k.0 <= ORDER_MAX
    }

    /// The state pair this generator holds after `n` further steps.
    pub open spec fn state_after(self, n: nat) -> (int, int) {
        engine_state(self.y.0 as int, self.y.1 as int, self.k.0 as int, self.m as int, n)
    }

    /// The value the `n`-th further step returns, counting from 1.
    pub open spec fn out_at(self, n: nat) -> int {
        engine_out(self.y.0 as int, self.y.1 as int, self.k.0 as int, self.m as int, n)
    }
}

/// Every component of the loop state stays below the modulus.
proof fn lemma_engine_run_in_range(st: (int, int, int, int), index: int, k: int, m: int)
    requires
        m > 0,
        0 <= st.0 < m,
        0 <= st.1 < m,
        0 <= st.2 < m,
        0 <= st.3 < m,
    ensures
        ({
            let t = engine_run(st, index, k, m);
            0 <= t.0 < m && 0 <= t.1 < m && 0 <= t.2 < m && 0 <= t.3 < m
        }),
    decreases k - index,
{
    if index < k {
        lemma_engine_run_in_range(engine_round(st, index, m), index + 1, k, m);
    }
}

/// One full step keeps both state words and the output below the modulus.
pub proof fn lemma_engine_next_in_range(y0: int, y1: int, k: int, m: int)
    requires
        m > 0,
        0 <= y0 < m,
        0 <= y1 < m,
    ensures
        ({
            let t = engine_next(y0, y1, k, m);
            0 <= t.0 < m && 0 <= t.1 < m && 0 <= t.2 < m
        }),
{
    lemma_engine_run_in_range((y0, y1, y0, y1), 1, k, m);
}

/// Any number of full steps keeps the state pair below the modulus.
pub proof fn lemma_engine_state_in_range(y0: int, y1: int, k: int, m: int, n: nat)
    requires
        m > 0,
        0 <= y0 < m,
        0 <= y1 < m,
    ensures
        ({
            let s = engine_state(y0, y1, k, m, n);
            0 <= s.0 < m && 0 <= s.1 < m
        }),
    decreases n,
{
    if n > 0 {
        lemma_engine_state_in_range(y0, y1, k, m, (n - 1) as nat);
        let s = engine_state(y0, y1, k, m, (n - 1) as nat);
        lemma_engine_next_in_range(s.0, s.1, k, m);
    }
}

/// Law: every raw output of a well-formed generator lies in `[0, m)`.
pub proof fn lemma_raw_output_in_modulus(a: Acorn, n: nat)
    requires
        a.wf(),
        n >= 1,
    ensures
        0 <= a.out_at(n) < a.m,
{
    lemma_engine_state_in_range(a.y.0 as int, a.y.1 as int, a.k.0 as int, a.m as int, (n - 1) as nat);
    let s = engine_state(a.y.0 as int, a.y.1 as int, a.k.0 as int, a.m as int, (n - 1) as nat);
    lemma_engine_next_in_range(s.0, s.1, a.k.0 as int, a.m as int);
}

/// Law: the generator is deterministic.  Fresh constructions from equal
/// order and seed yield equal states, and equal states yield the same value
/// at every position of the output sequence.
pub proof fn lemma_deterministic_sequence(k1: Order, s1: Seed, k2: Order, s2: Seed, n: nat)
    requires
        k1 == k2,
        s1 == s2,
    ensures
        constructed(k1, s1) == constructed(k2, s2),
        constructed(k1, s1).out_at(n) == constructed(k2, s2).out_at(n),
{
}

/// Law: a generator's future outputs depend on its own state alone, so
/// independently constructed instances never disturb one another.
pub proof fn lemma_instance_independence(a: Acorn, b: Acorn, n: nat)
    requires
        a.k == b.k,
        a.m == b.m,
        a.y == b.y,
    ensures
        a.out_at(n) == b.out_at(n),
        a.state_after(n) == b.state_after(n),
{
}

impl Acorn {
    /// Create a new ACORN generator from a validated order and seed.
    ///
    /// The seed is forced odd and reduced modulo `2^120`, copied across the
    /// state pair, and the generator is then advanced `WARMUP_STEPS` times so
    /// the state has wrapped past the modulus ceiling even for the smallest
    /// parameters.  The result is an exact function of `(k, seed)`.
    #[must_use]
    pub fn new(k: Order, seed: Seed) -> (r: Acorn)
        requires
            ORDER_MIN <= k.0 <= ORDER_MAX,
        ensures
            r == constructed(k, seed),
            r.wf(),
    {
        let ghost k0 = k;
        let ghost seed0 = seed;
        let mut seed = seed;
        if seed.0 % 2 == 0 {
            seed.0 = seed.0 + 1;
        }
        let m: u128 = MODULUS;
        seed.0 = seed.0 % m;
        let y = (seed.0, seed.0);
        let mut acorn = Acorn { k, m, y };
        let ghost s0 = prepared_seed(seed0);
        assert(acorn.y.0 as int == s0 && acorn.y.1 as int == s0);
        let mut i: usize = 0;
        while i < WARMUP_STEPS
            invariant
                i <= WARMUP_STEPS,
                acorn.k == k0,
                acorn.m == MODULUS,
                acorn.wf(),
                (acorn.y.0 as int, acorn.y.1 as int)
                    == engine_state(s0, s0, k0.0 as int, MODULUS as int, i as nat),
            decreases WARMUP_STEPS - i,
        {
            let _drawn = acorn.generate_u128();
            i = i + 1;
        }
        proof {
            lemma_engine_state_in_range(s0, s0, k0.0 as int, MODULUS as int, WARMUP_STEPS as nat);
        }
        acorn
    }

    /// Advance the recurrence by exactly one step and return the new word.
    ///
    /// The new state and the returned value are exactly one application of
    /// the recurrence to the old state.
    pub fn generate_u128(&mut self) -> (r: u128)
        requires
            old(self).wf(),
        ensures
            final(self).wf(),
            final(self).k == old(self).k,
            final(self).m == old(self).m,
            final(self).y.0 as int
                == engine_next(old(self).y.0 as int, old(self).y.1 as int, old(self).k.0 as int, old(self).m as int).0,
            final(self).y.1 as int
                == engine_next(old(self).y.0 as int, old(self).y.1 as int, old(self).k.0 as int, old(self).m as int).1,
            r as int
                == engine_next(old(self).y.0 as int, old(self).y.1 as int, old(self).k.0 as int, old(self).m as int).2,
            r < old(self).m,
    {
        let ghost init = *self;
        let mut previous: u128 = self.y.0;
        let mut current: u128 = self.y.1;
        let k: usize = self.k.0;
        let m: u128 = self.m;
        let mut index: usize = 1;
        while index < k
            invariant
                1 <= index <= k,
                init.wf(),
                self.k == init.k,
                self.m == init.m,
                k == init.k.0,
                m == init.m,
                self.y.0 < m,
                self.y.1 < m,
                previous < m,
                current < m,
                engine_run(
                    (self.y.0 as int, self.y.1 as int, previous as int, current as int),
                    index as int,
                    k as int,
                    m as int,
                ) == engine_run(
                    (init.y.0 as int, init.y.1 as int, init.y.0 as int, init.y.1 as int),
                    1,
                    k as int,
                    m as int,
                ),
            decreases k - index,
        {
            let ghost st = (self.y.0 as int, self.y.1 as int, previous as int, current as int);
            let result: u128 = (previous + current) % m;
            if index % 2 == 0 {
                self.y.1 = previous;
                current = self.y.0;
            } else {
                self.y.0 = previous;
                current = self.y.1;
            }
            previous = result;
            proof {
                assert((self.y.0 as int, self.y.1 as int, previous as int, current as int)
                    == engine_round(st, index as int, m as int));
            }
            index = index + 1;
        }
        if k % 2 == 0 {
            self.y.0
        } else {
            self.y.1
        }
    }
}

} // verus!
