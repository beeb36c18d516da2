//! Schedule and bookkeeping of the evolutionary searches.
//!
//! The cross-entropy searches refit their Gaussian to an elite of at least two
//! candidates; the competing CEM islands each get their own seed derived from
//! the run seed, and when sharing is on they migrate champions through the
//! shared store every `migrate_every` generations.

use vstd::prelude::*;

verus! {

/// Elite size for a population of `pop` candidates: a quarter, but at least two.
pub fn elite_count(pop: usize) -> (e: usize)
    ensures
        e == if pop / 4 >= 2 {
            pop / 4
        } else {
            2
        },
        e >= 2,
        pop >= 8 ==> e <= pop,
{
    let q = pop / 4;
    if q >= 2 {
        q
    } else {
        2
    }
}

/// Seed of island `i` in a population run seeded with `seed`.
pub fn island_seed(seed: u64, i: usize) -> (s: u64)
    requires
        i < u64::MAX,
    ensures
        s == (seed as nat + i as nat + 1) % 0x1_0000_0000_0000_0000nat,
{
    seed.wrapping_add(i as u64 + 1)
}

/// Seed of the shared training cases of a population run seeded with `seed`.
pub fn case_seed(seed: u64) -> (s: u64)
    ensures
        s == seed ^ 0xABCDu64,
{
    seed ^ 0xABCD
}

/// Whether the islands migrate champions after generation `generation` (0-based).
pub open spec fn migrates(generation: nat, share: bool, every: nat) -> bool {
    share && (generation + 1) % every == 0
}

/// Migration decision after generation `generation` of a population run.
pub fn migrates_after(generation: usize, share: bool, migrate_every: usize) -> (m: bool)
    requires
        share ==> migrate_every > 0,
        generation < usize::MAX,
    ensures
        m == migrates(generation as nat, share, migrate_every as nat),
{
    share && (generation + 1) % migrate_every == 0
}

/// Rollouts one island generation consumes: every candidate on every case.
pub fn generation_rollouts(pop: usize, cases: usize) -> (n: usize)
    requires
        pop * cases <= usize::MAX,
    ensures
        n == pop * cases,
{
    pop * cases
}

/// How a population of `len` candidates is split across the worker threads:
/// `(workers, chunk)`, where `workers = min(available, len)` and every worker
/// but possibly the last scores `chunk` candidates.
pub fn worker_split(len: usize, available: usize) -> (r: (usize, usize))
    requires
        len > 0,
        available > 0,
    ensures
        r.0 == if available < len {
            available
        } else {
            len
        },
        r.1 == (len + r.0 - 1) / (r.0 as int),
        r.1 >= 1,
        r.0 * r.1 >= len,
{
    let workers = if available < len {
        available
    } else {
        len
    };
    let q = len / workers;
    let rem = len % workers;
    proof {
        vstd::arithmetic::div_mod::lemma_fundamental_div_mod(len as int, workers as int);
        vstd::arithmetic::div_mod::lemma_mod_bound(len as int, workers as int);
        if rem != 0 {
            assert(workers >= 2);
            assert(q < len) by (nonlinear_arith)
                requires
                    len == workers * q + rem,
                    workers >= 2,
                    rem > 0,
                    q >= 0,
            ;
        }
        assert(q >= 1) by (nonlinear_arith)
            requires
                len == workers * q + rem,
                0 <= rem < workers,
                workers <= len,
        ;
    }
    let chunk = if rem == 0 {
        q
    } else {
        q + 1
    };
    proof {
        let w = workers as int;
        let l = len as int;
        let c = chunk as int;
        let rr = if rem == 0 { w - 1 } else { rem - 1 };
        assert(l + w - 1 == w * c + rr) by (nonlinear_arith)
            requires
                l == w * q + rem,
                c == if rem == 0 { q as int } else { q + 1 },
                rr == if rem == 0 { w - 1 } else { rem - 1 },
        ;
        vstd::arithmetic::div_mod::lemma_fundamental_div_mod_converse(l + w - 1, w, c, rr);
        assert(w * c >= l) by (nonlinear_arith)
            requires
                l == w * q + rem,
                c == if rem == 0 { q as int } else { q + 1 },
                0 <= rem < w,
        ;
    }
    (workers, chunk)
}

/// Number of migrations during the first `g` generations.
pub open spec fn migrations_in(g: nat, share: bool, every: nat) -> nat
    decreases g,
{
    if g == 0 {
        0
    } else {
        migrations_in((g - 1) as nat, share, every) + if migrates((g - 1) as nat, share, every) {
            1nat
        } else {
            0nat
        }
    }
}

/// Migration schedule law: with sharing on, the first `g` generations contain
/// exactly `g / every` migrations; with sharing off, none.
pub proof fn lemma_migration_count(g: nat, share: bool, every: nat)
    requires
        every > 0,
    ensures
        migrations_in(g, share, every) == if share {
            g / every
        } else {
            0
        },
    decreases g,
{
    if g > 0 {
        lemma_migration_count((g - 1) as nat, share, every);
        let p = (g - 1) as nat;
        assert(g / every == p / every + if g % every == 0 { 1int } else { 0int }) by (nonlinear_arith)
            requires
                every > 0,
                g == p + 1,
        {
            vstd::arithmetic::div_mod::lemma_fundamental_div_mod(p as int, every as int);
            vstd::arithmetic::div_mod::lemma_fundamental_div_mod(g as int, every as int);
            vstd::arithmetic::div_mod::lemma_mod_bound(p as int, every as int);
            vstd::arithmetic::div_mod::lemma_mod_bound(g as int, every as int);
        }
    }
}

/// Distinct islands of one run draw from distinct seeds.
pub proof fn lemma_island_seeds_distinct(seed: u64, i: nat, j: nat)
    requires
        i < j,
        j < u64::MAX,
    ensures
        (seed as nat + i + 1) % 0x1_0000_0000_0000_0000nat != (seed as nat + j + 1)
            % 0x1_0000_0000_0000_0000nat,
{
    let m = 0x1_0000_0000_0000_0000int;
    let a = seed as int + i + 1;
    let b = seed as int + j + 1;
    assert(0 < b - a < m);
    vstd::arithmetic::div_mod::lemma_fundamental_div_mod(a, m);
    vstd::arithmetic::div_mod::lemma_fundamental_div_mod(b, m);
    assert(a / m <= 1 && b / m <= 1 && a / m >= 0 && b / m >= 0) by {
        vstd::arithmetic::div_mod::lemma_div_pos_is_pos(a, m);
        vstd::arithmetic::div_mod::lemma_div_pos_is_pos(b, m);
        vstd::arithmetic::div_mod::lemma_div_is_ordered(a, 2 * m, m);
        vstd::arithmetic::div_mod::lemma_div_is_ordered(b, 2 * m, m);
        vstd::arithmetic::div_mod::lemma_div_multiples_vanish(2, m);
    }
}

} // verus!
