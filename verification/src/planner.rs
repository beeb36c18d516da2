//! Receding-horizon bookkeeping of the CEM model-predictive swing-up.
//!
//! The planner commits the first move of its best plan and holds it for
//! `hold_steps` control steps before re-planning; the next search is warm-started
//! from the previous plan shifted forward by one move. Every refinement
//! iteration rolls out the sampled population plus the current mean and, when
//! the plan memory offered one, the recalled plan.

use vstd::prelude::*;

verus! {

/// The re-plan countdown after `k` control steps with a hold of `h` steps,
/// starting from a fresh clock.
pub open spec fn countdown_after(h: nat, k: nat) -> nat
    decreases k,
{
    if k == 0 {
        0
    } else {
        let c = countdown_after(h, (k - 1) as nat);
        if c == 0 {
            (h - 1) as nat
        } else {
            (c - 1) as nat
        }
    }
}

/// Counts down the control steps until the next re-plan.
pub struct ReplanClock {
    countdown: usize,
}

impl ReplanClock {
    /// Steps left before the next re-plan.
    pub closed spec fn remaining(self) -> nat {
        self.countdown as nat
    }

    /// A clock that re-plans on the very next step.
    pub fn new() -> (c: Self)
        ensures
            c.remaining() == 0,
    {
        ReplanClock { countdown: 0 }
    }

    /// Steps left before the next re-plan.
    pub fn countdown(&self) -> (n: usize)
        ensures
            n == self.remaining(),
    {
        self.countdown
    }

    /// Advance one control step. Returns whether the planner must re-plan on this
    /// step; a re-plan restarts the hold of `hold_steps` steps.
    pub fn tick(&mut self, hold_steps: usize) -> (replan: bool)
        requires
            hold_steps > 0,
        ensures
            replan == (old(self).remaining() == 0),
            final(self).remaining() == if replan {
                (hold_steps - 1) as nat
            } else {
                (old(self).remaining() - 1) as nat
            },
    {
        let replan = self.countdown == 0;
        if replan {
            self.countdown = hold_steps;
        }
        self.countdown = self.countdown - 1;
        replan
    }
}

/// Re-plan schedule law: with a fixed hold of `h > 0` steps, a fresh clock
/// re-plans exactly on the steps `k` with `k % h == 0`, and after `k` steps the
/// countdown is `(h - k % h) % h`.
pub proof fn lemma_replan_period(h: nat, k: nat)
    requires
        h > 0,
    ensures
        countdown_after(h, k) == (h - k % h) % (h as int),
        (countdown_after(h, k) == 0) == (k % h == 0),
    decreases k,
{
    if k > 0 {
        lemma_replan_period(h, (k - 1) as nat);
        let p = (k - 1) as nat;
        let r = p % h;
        let q = k % h;
        assert(q == if r == h - 1 { 0 } else { r + 1 }) by (nonlinear_arith)
            requires
                h > 0,
                k == p + 1,
                r == p % h,
                q == k % h,
        {
            vstd::arithmetic::div_mod::lemma_fundamental_div_mod(p as int, h as int);
            vstd::arithmetic::div_mod::lemma_fundamental_div_mod(k as int, h as int);
            vstd::arithmetic::div_mod::lemma_mod_bound(p as int, h as int);
            vstd::arithmetic::div_mod::lemma_mod_bound(k as int, h as int);
        }
        vstd::arithmetic::div_mod::lemma_mod_bound(p as int, h as int);
        vstd::arithmetic::div_mod::lemma_mod_self_0(h as int);
        if r > 0 {
            vstd::arithmetic::div_mod::lemma_small_mod((h - r) as nat, h);
        }
        if q > 0 {
            vstd::arithmetic::div_mod::lemma_small_mod((h - q) as nat, h);
        }
    } else {
        vstd::arithmetic::div_mod::lemma_mod_self_0(h as int);
    }
}

/// The warm start of the next search: the plan shifted forward by one move, with
/// the final move repeated so the horizon keeps its length.
pub fn shift_plan<T: Copy>(plan: &Vec<T>) -> (next: Vec<T>)
    requires
        plan.len() > 0,
    ensures
        next@ == plan@.skip(1).push(plan@.last()),
        next.len() == plan.len(),
{
    let mut next: Vec<T> = Vec::new();
    let mut i: usize = 1;
    while i < plan.len()
        invariant
            1 <= i <= plan.len(),
            next@ =~= plan@.subrange(1, i as int),
        decreases plan.len() - i,
    {
        next.push(plan[i]);
        i = i + 1;
    }
    next.push(plan[plan.len() - 1]);
    next
}

/// Candidate trajectories one refinement iteration rolls out: the sampled
/// population, the current mean, and the recalled plan when there is one.
pub fn iteration_rollouts(pop: usize, recalled: bool) -> (n: u64)
    requires
        pop + 2 <= u64::MAX,
    ensures
        n == pop + 1 + if recalled {
            1int
        } else {
            0int
        },
{
    let extra: u64 = if recalled {
        2
    } else {
        1
    };
    pop as u64 + extra
}

} // verus!
