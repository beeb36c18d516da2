//! The torque-reversal tally of the swing-up harness.
//!
//! Each control step the applied joint-0 torque is classified as positive,
//! negative or negligible (sign `1`, `-1` or `0`). A reversal is a change of
//! sign between consecutive non-negligible torques: the literal count of
//! back-and-forth moves the "fewer moves" comparison reports.

use vstd::prelude::*;

verus! {

/// Whether a sign counts as a move (non-negligible torque).
pub open spec fn is_move(s: i32) -> bool {
    s != 0
}

/// The non-negligible signs of a run, in order.
pub open spec fn moves(signs: Seq<i32>) -> Seq<i32> {
    signs.filter(|s: i32| is_move(s))
}

/// The number of adjacent pairs of `s` that differ.
pub open spec fn changes(s: Seq<i32>) -> nat
    decreases s.len(),
{
    if s.len() < 2 {
        0
    } else {
        changes(s.drop_last()) + if s.last() != s[s.len() - 2] {
            1nat
        } else {
            0nat
        }
    }
}

/// The number of reversals in a run of signs.
pub open spec fn reversals_in(signs: Seq<i32>) -> nat {
    changes(moves(signs))
}

/// The sign of the latest move of a run, or `0` before any move.
pub open spec fn last_move(signs: Seq<i32>) -> i32 {
    if moves(signs).len() == 0 {
        0
    } else {
        moves(signs).last()
    }
}

/// Running tally of torque reversals over the signs observed so far.
pub struct ReversalCounter {
    last_sign: i32,
    reversals: usize,
    observed: Ghost<Seq<i32>>,
}

impl ReversalCounter {
    #[verifier::type_invariant]
    closed spec fn consistent(self) -> bool {
        &&& self.last_sign == last_move(self.observed@)
        &&& self.reversals == reversals_in(self.observed@)
    }

    /// The signs observed since the counter was created.
    pub closed spec fn history(self) -> Seq<i32> {
        self.observed@
    }

    /// A counter that has seen nothing.
    pub fn new() -> (c: Self)
        ensures
            c.history() == Seq::<i32>::empty(),
    {
        let c = ReversalCounter { last_sign: 0, reversals: 0, observed: Ghost(Seq::empty()) };
        assert(moves(Seq::<i32>::empty()) =~= Seq::<i32>::empty());
        c
    }

    /// Reversals among the signs observed so far.
    pub fn reversals(&self) -> (r: usize)
        ensures
            r == reversals_in(self.history()),
    {
        proof {
            use_type_invariant(self);
        }
        self.reversals
    }

    /// Sign of the latest non-negligible torque (`0` before any).
    pub fn last_sign(&self) -> (s: i32)
        ensures
            s == last_move(self.history()),
    {
        proof {
            use_type_invariant(self);
        }
        self.last_sign
    }

    /// Record the sign of one step's torque.
    pub fn observe(&mut self, sign: i32)
        requires
            reversals_in(old(self).history()) < usize::MAX,
        ensures
            final(self).history() == old(self).history().push(sign),
    {
        proof {
            use_type_invariant(&*self);
        }
        let ghost h = self.observed@;
        proof {
            h.lemma_filter_push(sign, |s: i32| is_move(s));
        }
        let ghost h2 = h.push(sign);
        let mut last_sign = self.last_sign;
        let mut reversals = self.reversals;
        if sign != 0 {
            assert(moves(h2) == moves(h).push(sign));
            assert(moves(h2).drop_last() =~= moves(h));
            if last_sign != 0 && sign != last_sign {
                reversals = reversals + 1;
            }
            last_sign = sign;
        } else {
            assert(moves(h2) == moves(h));
        }
        *self = ReversalCounter { last_sign, reversals, observed: Ghost(h2) };
    }
}

} // verus!
