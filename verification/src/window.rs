//! The online estimator's sliding sample window.
//!
//! The dithered probe records one regression sample per control step and keeps
//! at most `window` of them: once full, each new sample pushes the oldest one
//! out. The window is generic over the sample type so the regression (which is
//! floating-point) can store whatever row it needs.

use vstd::prelude::*;

verus! {

/// Samples the ridge regression needs before it fits (five unknowns).
pub const MIN_FIT_SAMPLES: usize = 6;

/// The last `w` entries of `h` (all of `h` when it is shorter).
pub open spec fn slide<T>(h: Seq<T>, w: nat) -> Seq<T> {
    if h.len() > w {
        h.skip(h.len() - w)
    } else {
        h
    }
}

/// A bounded FIFO of samples: the most recent `capacity` pushes since the last clear.
pub struct SampleWindow<T> {
    window: usize,
    items: Vec<T>,
}

impl<T> View for SampleWindow<T> {
    type V = Seq<T>;

    closed spec fn view(&self) -> Seq<T> {
        self.items@
    }
}

impl<T> SampleWindow<T> {
    #[verifier::type_invariant]
    closed spec fn within_capacity(self) -> bool {
        self.items@.len() <= self.window
    }

    /// The maximum number of samples kept.
    pub closed spec fn capacity(self) -> nat {
        self.window as nat
    }

    /// An empty window that keeps at most `window` samples.
    pub fn new(window: usize) -> (w: Self)
        ensures
            w@ == Seq::<T>::empty(),
            w.capacity() == window,
    {
        SampleWindow { window, items: Vec::new() }
    }

    /// How many samples are currently in the window.
    pub fn len(&self) -> (n: usize)
        ensures
            n == self@.len(),
            n <= self.capacity(),
    {
        proof {
            use_type_invariant(self);
        }
        self.items.len()
    }

    /// Whether the window holds no sample.
    pub fn is_empty(&self) -> (b: bool)
        ensures
            b == (self@.len() == 0),
    {
        self.items.len() == 0
    }

    /// Whether enough samples are held to fit the regression.
    pub fn ready_to_fit(&self) -> (b: bool)
        ensures
            b == (self@.len() >= MIN_FIT_SAMPLES),
    {
        self.items.len() >= MIN_FIT_SAMPLES
    }

    /// The maximum number of samples kept.
    pub fn window(&self) -> (w: usize)
        ensures
            w == self.capacity(),
    {
        self.window
    }

    /// Drop every sample (the capacity stays).
    pub fn clear(&mut self)
        ensures
            final(self)@ == Seq::<T>::empty(),
            final(self).capacity() == old(self).capacity(),
    {
        self.items = Vec::new();
    }

    /// Record a sample; when that overflows the capacity, the oldest sample
    /// slides out.
    pub fn push(&mut self, sample: T)
        ensures
            final(self)@ == slide(old(self)@.push(sample), old(self).capacity()),
            final(self).capacity() == old(self).capacity(),
            final(self)@.len() == if old(self)@.len() + 1 <= old(self).capacity() {
                old(self)@.len() + 1
            } else {
                old(self).capacity()
            },
            final(self)@.len() > 0 ==> final(self)@.last() == sample,
            forall|k: int|
                0 <= k < final(self)@.len() ==> #[trigger] final(self)@[k] == old(self)@.push(
                    sample,
                )[old(self)@.len() + 1 - final(self)@.len() + k],
    {
        proof {
            use_type_invariant(&*self);
        }
        let ghost before = self.items@;
        let mut items = Vec::new();
        std::mem::swap(&mut items, &mut self.items);
        items.push(sample);
        if items.len() > self.window {
            items.remove(0);
            assert(items@ =~= before.push(sample).skip(1));
        }
        self.items = items;
    }

    /// The samples, oldest first.
    pub fn samples(&self) -> (s: &Vec<T>)
        ensures
            s@ == self@,
    {
        &self.items
    }
}

/// Window-content law: the window of a history `h` with capacity `w` holds
/// exactly `min(|h|, w)` entries, and they are the last entries of `h` in order.
pub proof fn lemma_slide_is_recent_suffix<T>(h: Seq<T>, w: nat)
    ensures
        slide(h, w).len() == if h.len() <= w {
            h.len()
        } else {
            w
        },
        forall|k: int|
            0 <= k < slide(h, w).len() ==> #[trigger] slide(h, w)[k] == h[h.len() - slide(h, w).len() + k],
{
}

/// Sliding-window law: pushing a sample into the window of a history gives the
/// window of the history extended by that sample. Hence, after any run of pushes
/// since the last clear, the window holds exactly the last `min(n, capacity)`
/// samples, in arrival order.
pub proof fn lemma_window_of_history<T>(h: Seq<T>, x: T, w: nat)
    ensures
        slide(slide(h, w).push(x), w) == slide(h.push(x), w),
{
    let s = slide(h, w);
    if h.len() > w {
        assert(s.push(x).len() == w + 1);
        assert(slide(s.push(x), w) =~= slide(h.push(x), w));
    } else {
        assert(s =~= h);
    }
}

} // verus!
