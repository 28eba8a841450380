//! The accumulation driver: the state machine behind the main receive loop.
//!
//! The driver receives transformed frames over a channel, pushes each into
//! the sliding window, and triggers one accumulation pass every time the
//! window has been refilled with a full capacity of new frames.  Once the
//! stream has ended and been drained, it decides whether finalization runs
//! (normalize by the pass count, reduce, persist) or is skipped outright.
//! The surrounding application performs the channel I/O and the numeric
//! folds; this state machine makes every decision.

use vstd::arithmetic::div_mod::{
    lemma_fundamental_div_mod, lemma_fundamental_div_mod_converse, lemma_mod_bound,
    lemma_small_mod,
};
use vstd::prelude::*;

use crate::window::{recent, window_push, SlidingWindow};

verus! {

/// One message observed by the driver on its frame channel.
pub enum StreamEvent<F> {
    /// A transformed frame arrived and is handed over by ownership move.
    Frame(F),
    /// The worker's explicit end marker: the stream is ending, but queued
    /// frames may still be in flight and must keep draining.
    EndMarker,
    /// The frame channel reports permanent closure: the authoritative
    /// end-of-stream signal; nothing further is pending.
    Disconnected,
}

/// What finalization does once the driver's loop has drained the stream.
#[derive(PartialEq, Eq, Structural, Clone, Copy, Debug)]
pub enum FinalizeDecision {
    /// At least one accumulation pass ran: divide every accumulator element
    /// by `divisor`, the pass count, then reduce and persist the result.
    Normalize { divisor: usize },
    /// No pass ever ran: skip normalization, reduction and persistence and
    /// proceed directly to the shutdown protocol.
    Skip,
}

/// Driver state: the sliding window, the count of frames pushed so far,
/// the accumulation pass counter and the end-of-stream flag, together with
/// the ghost history of every frame pushed, oldest first.
pub struct DriverState<F> {
    window: SlidingWindow<F>,
    frames_seen: usize,
    passes: usize,
    ended: bool,
    history: Ghost<Seq<F>>,
}

impl<F> DriverState<F> {
    /// The window capacity `C`: one accumulation pass runs per `C` frames.
    pub closed spec fn cap(&self) -> nat {
        self.window.cap()
    }

    /// Every frame pushed so far, oldest first.
    pub closed spec fn hist(&self) -> Seq<F> {
        self.history@
    }

    /// How many frames have been pushed so far.
    pub closed spec fn frames_seen_spec(&self) -> usize {
        self.frames_seen
    }

    /// How many accumulation passes have run so far.
    pub closed spec fn passes_spec(&self) -> usize {
        self.passes
    }

    /// Whether an end marker or the channel closure has been observed.
    pub closed spec fn ended_spec(&self) -> bool {
        self.ended
    }

    /// The current contents of the sliding window, oldest first.
    pub closed spec fn window_view(&self) -> Seq<F> {
        self.window.contents()
    }

    /// The driver invariant: the window holds the most recent `cap` frames
    /// of the history, and exactly one pass has run per full refill.
    pub open spec fn wf(&self) -> bool {
        &&& self.cap() >= 1
        &&& self.frames_seen_spec() == self.hist().len()
        &&& self.window_view() == recent(self.cap(), self.hist())
        &&& self.passes_spec() == self.hist().len() / self.cap()
    }

    pub fn new(capacity: usize) -> (d: Self)
        requires
            capacity >= 1,
        ensures
            d.wf(),
            d.cap() == capacity as nat,
            d.hist() =~= Seq::<F>::empty(),
            d.passes_spec() == 0,
            !d.ended_spec(),
    {
        let d = DriverState {
            window: SlidingWindow::new(capacity),
            frames_seen: 0,
            passes: 0,
            ended: false,
            history: Ghost(Seq::empty()),
        };
        proof {
            assert(recent(capacity as nat, Seq::<F>::empty()) =~= Seq::<F>::empty());
        }
        d
    }

    /// Feeds one received message to the driver.  A frame is pushed into
    /// the window; an end marker or the channel closure sets the
    /// end-of-stream flag.  The result says whether one accumulation pass
    /// must run now, which happens exactly when the frame just pushed
    /// completes a full capacity of new frames; the window is then full.
    pub fn on_event(&mut self, e: StreamEvent<F>) -> (run_pass: bool)
        requires
            old(self).wf(),
            old(self).frames_seen_spec() < usize::MAX,
        ensures
            final(self).wf(),
            final(self).cap() == old(self).cap(),
            (e matches StreamEvent::Frame(f) ==> {
                &&& final(self).hist() =~= old(self).hist().push(f)
                &&& final(self).ended_spec() == old(self).ended_spec()
                &&& run_pass == (final(self).hist().len() % final(self).cap() == 0)
                &&& final(self).passes_spec() == old(self).passes_spec() + (
                if run_pass {
                    1int
                } else {
                    0int
                })
                &&& run_pass ==> final(self).window_view().len() == final(self).cap()
            }),
            !(e matches StreamEvent::Frame(_)) ==> {
                &&& final(self).hist() =~= old(self).hist()
                &&& final(self).window_view() == old(self).window_view()
                &&& final(self).passes_spec() == old(self).passes_spec()
                &&& final(self).ended_spec()
                &&& !run_pass
            },
    {
        match e {
            StreamEvent::Frame(f) => {
                proof {
                    crate::window::lemma_recent_push(
                        old(self).cap(),
                        old(self).hist(),
                        f,
                    );
                }
                self.window.push(f);
                self.frames_seen = self.frames_seen + 1;
                proof {
                    self.history@ = self.history@.push(f);
                }
                let capacity = self.window.capacity();
                let run_pass = self.frames_seen % capacity == 0;
                proof {
                    let c = self.cap() as int;
                    let l = old(self).hist().len() as int;
                    lemma_fundamental_div_mod(l, c);
                    lemma_mod_bound(l, c);
                    let q = l / c;
                    let r = l % c;
                    assert(l + 1 == c * q + (r + 1));
                    if r + 1 == c {
                        assert(l + 1 == c * (q + 1)) by {
                            assert(c * (q + 1) == c * q + c) by (nonlinear_arith);
                        }
                        lemma_fundamental_div_mod_converse(l + 1, c, q + 1, 0);
                    } else {
                        lemma_fundamental_div_mod_converse(l + 1, c, q, r + 1);
                    }
                    if run_pass {
                        if self.hist().len() < self.cap() {
                            lemma_small_mod(self.hist().len(), self.cap());
                        }
                    }
                }
                if run_pass {
                    self.passes = self.passes + 1;
                }
                run_pass
            },
            StreamEvent::EndMarker => {
                self.ended = true;
                false
            },
            StreamEvent::Disconnected => {
                self.ended = true;
                false
            },
        }
    }

    /// Whether the end of the stream has been observed; the receive loop
    /// ends once this holds and no further message is pending.
    pub fn is_done(&self) -> (r: bool)
        ensures
            r == self.ended_spec(),
    {
        self.ended
    }

    /// Read-only ordered view of the window, oldest first: what one
    /// accumulation pass folds into the accumulator.
    pub fn window_frames(&self) -> (v: &Vec<F>)
        ensures
            v@ =~= self.window_view(),
    {
        self.window.frames()
    }

    pub fn frames_seen(&self) -> (n: usize)
        ensures
            n == self.frames_seen_spec(),
    {
        self.frames_seen
    }

    pub fn passes(&self) -> (p: usize)
        ensures
            p == self.passes_spec(),
    {
        self.passes
    }

    /// Decides finalization once the stream is drained: with at least one
    /// accumulation pass the accumulator is normalized elementwise by the
    /// pass count; with none, finalization is skipped entirely.
    pub fn finalize_decision(&self) -> (d: FinalizeDecision)
        ensures
            self.passes_spec() == 0 ==> d == FinalizeDecision::Skip,
            self.passes_spec() > 0 ==> d == (FinalizeDecision::Normalize {
                divisor: self.passes_spec(),
            }),
    {
        if self.passes == 0 {
            FinalizeDecision::Skip
        } else {
            FinalizeDecision::Normalize { divisor: self.passes }
        }
    }
}

/// The window capacity: the source's frames per unit time, unless an
/// explicit override is requested.
pub fn window_capacity(frame_rate: usize, requested: Option<usize>) -> (c: usize)
    requires
        frame_rate >= 1,
        requested matches Some(r) ==> r >= 1,
    ensures
        c >= 1,
        c == (match requested {
            Some(r) => r,
            None => frame_rate,
        }),
{
    match requested {
        Some(r) => r,
        None => frame_rate,
    }
}

} // verus!
