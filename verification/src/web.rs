//! Shape bookkeeping of the browser exhibit's free-swinging pendulum.

use vstd::prelude::*;

verus! {

/// Fewest links the exhibit simulates.
pub const MIN_LINKS: usize = 1;

/// Most links the exhibit simulates.
pub const MAX_LINKS: usize = 6;

/// The number of links actually simulated for a requested count: the request
/// clamped to `[MIN_LINKS, MAX_LINKS]`.
pub fn free_swing_links(links: usize) -> (n: usize)
    ensures
        n == if links < MIN_LINKS {
            MIN_LINKS
        } else if links > MAX_LINKS {
            MAX_LINKS
        } else {
            links
        },
        MIN_LINKS <= n <= MAX_LINKS,
{
    if links < MIN_LINKS {
        MIN_LINKS
    } else if links > MAX_LINKS {
        MAX_LINKS
    } else {
        links
    }
}

/// Flatten `(x, y)` points into the render buffer `[x0, y0, x1, y1, ...]`.
pub fn flatten_points<T: Copy>(points: &Vec<(T, T)>) -> (flat: Vec<T>)
    requires
        2 * points.len() <= usize::MAX,
    ensures
        flat.len() == 2 * points.len(),
        forall|i: int|
            0 <= i < points.len() ==> flat@[2 * i] == (#[trigger] points@[i]).0 && flat@[2 * i
                + 1] == points@[i].1,
{
    let mut flat: Vec<T> = Vec::new();
    let mut i: usize = 0;
    while i < points.len()
        invariant
            i <= points.len(),
            flat.len() == 2 * i,
            forall|k: int|
                0 <= k < i ==> flat@[2 * k] == (#[trigger] points@[k]).0 && flat@[2 * k + 1]
                    == points@[k].1,
        decreases points.len() - i,
    {
        let (x, y) = points[i];
        flat.push(x);
        flat.push(y);
        i = i + 1;
    }
    flat
}

} // verus!
