//! Structure of the n-link pendulum's inertia coupling.
//!
//! In the manipulator equation of a chain of point masses, joint `i` and joint
//! `j` are coupled through every mass at or beyond the farther of the two, so
//! the constant part of the mass matrix is `mu[i][j] = tail[max(i, j)]`, where
//! `tail[k]` is the total mass from link `k` to the tip.

use vstd::prelude::*;

verus! {

/// The coupling matrix built from the tail masses (any value type).
pub open spec fn coupling_of<T>(tail: Seq<T>) -> Seq<Seq<T>> {
    Seq::new(tail.len(), |i: int| Seq::new(tail.len(), |j: int| tail[if i >= j { i } else { j }]))
}

/// Build `mu[i][j] = tail[max(i, j)]` for an `n`-link chain (`n = tail.len()`).
pub fn tail_coupling<T: Copy>(tail: &Vec<T>) -> (mu: Vec<Vec<T>>)
    ensures
        mu@.len() == tail.len(),
        forall|i: int| 0 <= i < tail.len() ==> (#[trigger] mu@[i])@ == coupling_of(tail@)[i],
        forall|i: int| 0 <= i < tail.len() ==> (#[trigger] mu@[i])@.len() == tail.len(),
        forall|i: int, j: int|
            0 <= i < tail.len() && 0 <= j <= i ==> #[trigger] mu@[i]@[j] == tail@[i],
        forall|i: int, j: int|
            0 <= i < tail.len() && i <= j < tail.len() ==> #[trigger] mu@[i]@[j] == tail@[j],
{
    let n = tail.len();
    let mut mu: Vec<Vec<T>> = Vec::new();
    let mut i: usize = 0;
    while i < n
        invariant
            n == tail.len(),
            i <= n,
            mu@.len() == i,
            forall|a: int| 0 <= a < i ==> (#[trigger] mu@[a])@ == coupling_of(tail@)[a],
        decreases n - i,
    {
        let mut row: Vec<T> = Vec::new();
        let mut j: usize = 0;
        while j < n
            invariant
                n == tail.len(),
                i < n,
                j <= n,
                row@.len() == j,
                forall|b: int| 0 <= b < j ==> row@[b] == tail@[if i >= b { i as int } else { b }],
            decreases n - j,
        {
            let k = if i >= j {
                i
            } else {
                j
            };
            row.push(tail[k]);
            j = j + 1;
        }
        assert(row@ =~= coupling_of(tail@)[i as int]);
        mu.push(row);
        i = i + 1;
    }
    mu
}

/// Coupling-entry law: every entry is the tail mass of the farther of its two
/// joints. On and below the diagonal (`j <= i`) it is `tail[i]`; on and above it
/// (`j >= i`) it is `tail[j]`. So the diagonal is the tail itself, and the last
/// row and column are all the tip's mass.
pub proof fn lemma_coupling_entries<T>(tail: Seq<T>, i: int, j: int)
    requires
        0 <= i < tail.len(),
        0 <= j < tail.len(),
    ensures
        coupling_of(tail).len() == tail.len(),
        coupling_of(tail)[i].len() == tail.len(),
        j <= i ==> coupling_of(tail)[i][j] == tail[i],
        i <= j ==> coupling_of(tail)[i][j] == tail[j],
        coupling_of(tail)[i][i] == tail[i],
        coupling_of(tail)[tail.len() - 1][j] == tail[tail.len() - 1],
{
}

/// The coupling matrix is symmetric: joint `i` is coupled to joint `j` exactly
/// as `j` is to `i`.
pub proof fn lemma_coupling_symmetric<T>(tail: Seq<T>, i: int, j: int)
    requires
        0 <= i < tail.len(),
        0 <= j < tail.len(),
    ensures
        coupling_of(tail)[i][j] == coupling_of(tail)[j][i],
{
}

} // verus!
