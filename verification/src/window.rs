//! Bounded sliding window of transformed frames: a FIFO buffer of fixed
//! capacity whose contents are always the most recent frames, oldest first.

use vstd::prelude::*;

verus! {

/// What one push does to the ordered contents of a window of capacity
/// `cap`: append at the back and, past capacity, evict the oldest entry.
pub open spec fn window_push<F>(w: Seq<F>, cap: nat, f: F) -> Seq<F> {
    let grown = w.push(f);
    if grown.len() <= cap {
        grown
    } else {
        grown.subrange(1, grown.len() as int)
    }
}

/// The contents after pushing the frames of `fs`, in order, into an
/// initially empty window of capacity `cap`.
pub open spec fn window_after<F>(cap: nat, fs: Seq<F>) -> Seq<F>
    decreases fs.len(),
{
    if fs.len() == 0 {
        Seq::empty()
    } else {
        window_push(window_after(cap, fs.drop_last()), cap, fs.last())
    }
}

/// The most recent `cap` entries of `fs`, in order (all of them when
/// there are fewer than `cap`).
pub open spec fn recent<F>(cap: nat, fs: Seq<F>) -> Seq<F> {
    if fs.len() <= cap {
        fs
    } else {
        fs.subrange(fs.len() - cap, fs.len() as int)
    }
}

/// Pushing one more frame keeps the window at the most recent `cap`
/// frames of the whole arrival history.
pub proof fn lemma_recent_push<F>(cap: nat, fs: Seq<F>, f: F)
    requires
        cap >= 1,
    ensures
        window_push(recent(cap, fs), cap, f) =~= recent(cap, fs.push(f)),
{
    let len = fs.len() as int;
    if fs.len() < cap {
        assert(recent(cap, fs) == fs);
    } else {
        let w = recent(cap, fs);
        let grown = w.push(f);
        let lhs = grown.subrange(1, grown.len() as int);
        let rhs = recent(cap, fs.push(f));
        assert forall|i: int| 0 <= i < cap implies lhs[i] == rhs[i] by {
            if i < cap - 1 {
                assert(lhs[i] == fs[len - cap + i + 1]);
                assert(rhs[i] == fs.push(f)[len + 1 - cap + i]);
            } else {
                assert(lhs[i] == f);
                assert(rhs[i] == f);
            }
        }
        assert(lhs.len() == rhs.len());
    }
}

/// A window that was fed the arrival history `fs` one frame at a time
/// holds exactly the most recent `cap` frames, in their original order.
pub proof fn lemma_window_holds_recent<F>(cap: nat, fs: Seq<F>)
    requires
        cap >= 1,
    ensures
        window_after(cap, fs) =~= recent(cap, fs),
    decreases fs.len(),
{
    if fs.len() == 0 {
    } else {
        let h = fs.drop_last();
        lemma_window_holds_recent(cap, h);
        assert(window_after(cap, h) == recent(cap, h));
        lemma_recent_push(cap, h, fs.last());
        assert(h.push(fs.last()) =~= fs);
    }
}

/// Bounded FIFO buffer of transformed frames.  `push` appends at the back
/// and, once the capacity is reached, evicts the oldest entry, so the
/// contents are always the most recent `capacity` frames in arrival order.
pub struct SlidingWindow<F> {
    frames: Vec<F>,
    capacity: usize,
}

impl<F> SlidingWindow<F> {
    /// The ordered contents, oldest first.
    pub closed spec fn contents(&self) -> Seq<F> {
        self.frames@
    }

    /// The fixed capacity.
    pub closed spec fn cap(&self) -> nat {
        self.capacity as nat
    }

    /// The window never holds more than its capacity.
    pub open spec fn wf(&self) -> bool {
        self.cap() >= 1 && self.contents().len() <= self.cap()
    }

    pub fn new(capacity: usize) -> (w: Self)
        requires
            capacity >= 1,
        ensures
            w.wf(),
            w.cap() == capacity as nat,
            w.contents() =~= Seq::<F>::empty(),
    {
        SlidingWindow { frames: Vec::new(), capacity }
    }

    pub fn capacity(&self) -> (c: usize)
        ensures
            c as nat == self.cap(),
    {
        self.capacity
    }

    pub fn len(&self) -> (l: usize)
        ensures
            l as nat == self.contents().len(),
    {
        self.frames.len()
    }

    /// Appends at the back; past capacity the oldest frame is evicted.
    pub fn push(&mut self, f: F)
        requires
            old(self).wf(),
        ensures
            final(self).wf(),
            final(self).cap() == old(self).cap(),
            final(self).contents() =~= window_push(old(self).contents(), old(self).cap(), f),
    {
        self.frames.push(f);
        if self.frames.len() > self.capacity {
            self.frames.remove(0);
            proof {
                let g = old(self).contents().push(f);
                assert(g.subrange(0, 0) + g.subrange(1, g.len() as int)
                    =~= g.subrange(1, g.len() as int));
            }
        }
    }

    /// Read-only ordered view of the current contents, oldest first.
    pub fn frames(&self) -> (v: &Vec<F>)
        ensures
            v@ =~= self.contents(),
    {
        &self.frames
    }
}

} // verus!
