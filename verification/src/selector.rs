//! The fair index selector: an unbiased choice among `n` candidates using
//! only fair coin flips.
//!
//! Each live candidate is dealt one coin flip per round: one raw draw,
//! counted as heads when it lands in the upper half of the output space
//! `[0, m)`.  (The halves test is used rather than the draw's parity: the
//! lowest bit of this additive recurrence alternates deterministically,
//! while a uniform draw lands in either half with equal probability.)  A
//! round where every flip landed the same way is discarded — otherwise
//! every candidate that flipped heads is eliminated.  Rounds repeat until
//! one candidate remains.  Because each surviving set is cut by an
//! independent fair bit, the final survivor is uniform over the original
//! candidates.
//!
//! The engine is deterministic, so the survivor and the number of draws
//! spent are exact functions of the starting state; the spec functions
//! below model the whole elimination and the contract of [`Acorn::select_index`]
//! pins both.  As with the rejection sampler, the number of rounds is
//! unbounded but almost surely finite; the loop carries the hard ceiling
//! [`MAX_ROUNDS`], which no feasible run reaches, and the model counts
//! rounds the same way.

use vstd::prelude::*;

use crate::engine::Acorn;

verus! {

/// Hard ceiling on the number of elimination rounds one selection may
/// spend.
pub const MAX_ROUNDS: u64 = 18446744073709551615;

/// The midpoint of the engine's output space: `2^119`.  A raw draw at or
/// above it counts as heads.
pub const COIN_SPLIT: u128 = 664613997892457936451903530140172288;

/// The flip dealt to the candidate at position `i` of a round that begins
/// after `d` draws of `pre`: heads when the draw lands in the upper half.
pub open spec fn flip_at(pre: Acorn, d: nat, i: nat) -> bool {
    pre.out_at((d + i + 1) as nat) >= COIN_SPLIT as int
}

/// Whether all `c` flips of the round beginning after `d` draws landed the
/// same way — such a round is discarded.
pub open spec fn round_uniform(pre: Acorn, d: nat, c: nat) -> bool {
    forall|i: nat| i < c ==> #[trigger] flip_at(pre, d, i) == flip_at(pre, d, 0)
}

/// The candidates of `live` from position `i` on that survive the round
/// beginning after `d` draws: those whose flip was tails.
pub open spec fn round_survivors(live: Seq<usize>, pre: Acorn, d: nat, i: nat) -> Seq<usize>
    decreases live.len() - i,
{
    if i >= live.len() {
        Seq::empty()
    } else {
        let rest = round_survivors(live, pre, d, (i + 1) as nat);
        if flip_at(pre, d, i) {
            rest
        } else {
            seq![live[i as int]] + rest
        }
    }
}

/// The surviving candidate list and the total draw count after playing
/// elimination rounds from `live`, starting after `d` draws of `pre`, with
/// `rounds_left` rounds allowed.  Each round deals one flip per live
/// candidate; an all-equal round changes nothing, any other round keeps
/// the tails.
pub open spec fn run_rounds(pre: Acorn, live: Seq<usize>, d: nat, rounds_left: nat) -> (Seq<
    usize,
>, nat)
    decreases rounds_left,
{
    if live.len() <= 1 || rounds_left == 0 {
        (live, d)
    } else if round_uniform(pre, d, live.len()) {
        run_rounds(pre, live, (d + live.len()) as nat, (rounds_left - 1) as nat)
    } else {
        run_rounds(
            pre,
            round_survivors(live, pre, d, 0),
            (d + live.len()) as nat,
            (rounds_left - 1) as nat,
        )
    }
}

/// The index that one whole selection over the candidates `0 .. n` yields,
/// and the exact number of raw draws it consumes.
pub open spec fn selection(pre: Acorn, n: nat) -> (usize, nat)
    recommends
        n >= 1,
{
    let outcome = run_rounds(pre, Seq::new(n, |i: int| i as usize), 0, MAX_ROUNDS as nat);
    (outcome.0[0], outcome.1)
}

impl Acorn {
    /// Pick one index in `[0, n)` with uniform probability.
    ///
    /// With `n == 1` the answer is forced and the generator is untouched;
    /// otherwise coin flips are drawn until a single index survives.  The
    /// chosen index and the number of draws spent are exactly those of the
    /// modelled elimination.
    pub fn select_index(&mut self, n: usize) -> (r: usize)
        requires
            old(self).wf(),
            n >= 1,
        ensures
            final(self).wf(),
            final(self).k == old(self).k,
            final(self).m == old(self).m,
            r < n,
            r == selection(*old(self), n as nat).0,
            (final(self).y.0 as int, final(self).y.1 as int) == old(self).state_after(
                selection(*old(self), n as nat).1,
            ),
            n == 1 ==> r == 0 && *final(self) == *old(self),
    {
        let ghost pre = *self;
        let ghost start = Seq::new(n as nat, |i: int| i as usize);
        if n == 1 {
            proof {
                assert(start.len() == 1);
                assert(run_rounds(pre, start, 0, MAX_ROUNDS as nat) == (start, 0nat));
                assert(start[0] == 0usize);
                assert(pre.state_after(0) == (pre.y.0 as int, pre.y.1 as int));
            }
            return 0;
        }
        let mut live: Vec<usize> = Vec::new();
        let mut i: usize = 0;
        while i < n
            invariant
                i <= n,
                live.len() == i as int,
                forall|q: int| 0 <= q < live.len() ==> live[q] == q as usize,
            decreases n - i,
        {
            live.push(i);
            i = i + 1;
        }
        proof {
            assert(live@ =~= start);
            assert(pre.state_after(0) == (pre.y.0 as int, pre.y.1 as int));
        }
        let ghost mut d: nat = 0;
        let mut rounds: u64 = 0;
        while live.len() > 1 && rounds < MAX_ROUNDS
            invariant
                self.wf(),
                pre.wf(),
                self.k == pre.k,
                self.m == pre.m,
                live.len() >= 1,
                forall|q: int| 0 <= q < live.len() ==> live[q] < n,
                rounds <= MAX_ROUNDS,
                (self.y.0 as int, self.y.1 as int) == pre.state_after(d),
                run_rounds(pre, live@, d, (MAX_ROUNDS - rounds) as nat) == run_rounds(
                    pre,
                    start,
                    0,
                    MAX_ROUNDS as nat,
                ),
            decreases MAX_ROUNDS as int - rounds as int,
        {
            let ghost round_live = live@;
            let ghost rounds_in = rounds;
            let mut flips: Vec<bool> = Vec::new();
            let mut any_heads: bool = false;
            let mut any_tails: bool = false;
            let mut j: usize = 0;
            while j < live.len()
                invariant
                    self.wf(),
                    pre.wf(),
                    self.k == pre.k,
                    self.m == pre.m,
                    j <= live.len(),
                    flips.len() == j as int,
                    (self.y.0 as int, self.y.1 as int) == pre.state_after((d + j as nat) as nat),
                    forall|q: int| #![auto] 0 <= q < j ==> flips[q] == flip_at(pre, d, q as nat),
                    any_heads ==> exists|q: int| #![auto] 0 <= q < j && flips[q],
                    any_tails ==> exists|q: int| #![auto] 0 <= q < j && !flips[q],
                    !any_heads ==> forall|q: int| #![auto] 0 <= q < j ==> !flips[q],
                    !any_tails ==> forall|q: int| #![auto] 0 <= q < j ==> flips[q],
                decreases live.len() - j,
            {
                let raw: u128 = self.generate_u128();
                let heads: bool = raw >= COIN_SPLIT;
                let ghost flips_before = flips@;
                let ghost heads_before = any_heads;
                let ghost tails_before = any_tails;
                flips.push(heads);
                if heads {
                    any_heads = true;
                } else {
                    any_tails = true;
                }
                proof {
                    assert(raw as int == pre.out_at((d + j as nat + 1) as nat));
                    assert(flips[j as int] == flip_at(pre, d, j as nat));
                    if heads_before {
                        let w = choose|q: int| 0 <= q < j && flips_before[q];
                        assert(flips[w]);
                    }
                    if tails_before {
                        let w = choose|q: int| 0 <= q < j && !flips_before[q];
                        assert(!flips[w]);
                    }
                }
                j = j + 1;
            }
            let ghost c = live@.len();
            if any_heads && any_tails {
                proof {
                    assert(!round_uniform(pre, d, c)) by {
                        let wh = choose|q: int| 0 <= q < c && flips@[q];
                        let wt = choose|q: int| 0 <= q < c && !flips@[q];
                        if round_uniform(pre, d, c) {
                            assert(flip_at(pre, d, wh as nat) == flip_at(pre, d, 0));
                            assert(flip_at(pre, d, wt as nat) == flip_at(pre, d, 0));
                            assert(false);
                        }
                    }
                }
                let mut survivors: Vec<usize> = Vec::new();
                let mut t: usize = 0;
                proof {
                    assert(survivors@ + round_survivors(round_live, pre, d, 0) =~= round_survivors(
                        round_live,
                        pre,
                        d,
                        0,
                    ));
                }
                while t < live.len()
                    invariant
                        t <= live.len(),
                        live@ == round_live,
                        flips.len() == live.len(),
                        forall|q: int| #![auto]
                            0 <= q < live.len() ==> flips[q] == flip_at(pre, d, q as nat),
                        forall|q: int| 0 <= q < live.len() ==> live[q] < n,
                        forall|q: int| 0 <= q < survivors.len() ==> survivors[q] < n,
                        survivors.len() >= 1 || (forall|q: int| #![auto]
                            0 <= q < t ==> flips[q]),
                        survivors@ + round_survivors(round_live, pre, d, t as nat)
                            == round_survivors(round_live, pre, d, 0),
                    decreases live.len() - t,
                {
                    let ghost survivors_before = survivors@;
                    if !flips[t] {
                        survivors.push(live[t]);
                    }
                    t = t + 1;
                    proof {
                        if flips[t - 1] {
                            assert(round_survivors(round_live, pre, d, (t - 1) as nat)
                                == round_survivors(round_live, pre, d, t as nat));
                        } else {
                            assert(survivors@ =~= survivors_before + seq![round_live[t - 1]]);
                            assert((survivors_before + seq![round_live[t - 1]])
                                + round_survivors(round_live, pre, d, t as nat)
                                =~= survivors_before + (seq![round_live[t - 1]]
                                + round_survivors(round_live, pre, d, t as nat)));
                            assert(round_survivors(round_live, pre, d, (t - 1) as nat)
                                == seq![round_live[t - 1]] + round_survivors(
                                round_live,
                                pre,
                                d,
                                t as nat,
                            ));
                        }
                    }
                }
                proof {
                    if survivors.len() == 0 {
                        let w = choose|q: int| 0 <= q < live@.len() && !flips@[q];
                        assert(flips@[w]);
                        assert(false);
                    }
                    assert(round_survivors(round_live, pre, d, c as nat) =~= Seq::<
                        usize,
                    >::empty());
                    assert(survivors@ + round_survivors(round_live, pre, d, c as nat)
                        =~= survivors@);
                    assert(survivors@ == round_survivors(round_live, pre, d, 0));
                }
                live = survivors;
            } else {
                proof {
                    assert(round_uniform(pre, d, c)) by {
                        if c > 0 {
                            if !any_tails {
                                assert forall|i: nat| i < c implies #[trigger] flip_at(pre, d, i)
                                    == flip_at(pre, d, 0) by {
                                    assert(flips@[i as int]);
                                    assert(flips@[0]);
                                }
                            } else {
                                assert(!any_heads);
                                assert forall|i: nat| i < c implies #[trigger] flip_at(pre, d, i)
                                    == flip_at(pre, d, 0) by {
                                    assert(!flips@[i as int]);
                                    assert(!flips@[0]);
                                }
                            }
                        }
                    }
                }
            }
            proof {
                assert(run_rounds(pre, round_live, d, (MAX_ROUNDS - rounds_in) as nat)
                    == run_rounds(
                    pre,
                    live@,
                    (d + c) as nat,
                    (MAX_ROUNDS - (rounds_in + 1)) as nat,
                ));
                d = (d + c) as nat;
            }
            rounds = rounds + 1;
        }
        proof {
            assert(run_rounds(pre, live@, d, (MAX_ROUNDS - rounds) as nat) == (live@, d));
        }
        live[0]
    }
}

} // verus!
