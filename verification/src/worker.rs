//! The capture worker's decision logic: what to do with each acquisition
//! outcome.  The worker itself runs on a background thread, pulling frames
//! from the capture source, transforming them and sending them to the
//! driver; this state machine decides the padded dimension on the first
//! frame, asks for the radial-bin set exactly once, and chooses between
//! transforming and ending the stream.

use vstd::prelude::*;

use crate::padding::{closest_efficient_size, five_smooth, is_closest_efficient_size};

verus! {

/// What the worker does with one acquisition outcome.
#[derive(PartialEq, Eq, Structural, Clone, Copy, Debug)]
pub enum WorkerDirective {
    /// No frame was available: send the explicit end marker on the frame
    /// channel and leave the loop, which closes the channel for good.
    SendEnd,
    /// Zero-pad the frame to `dim`×`dim`, Fourier-transform it, apply the
    /// centering shift and send it.  On the very first frame only,
    /// `announce_bins` additionally asks for the radial-bin set of `dim`
    /// to be generated and sent on its one-shot channel.
    Transform { dim: u64, announce_bins: bool },
}

/// Worker state: the padded FFT dimension, fixed by the first frame and
/// immutable for the rest of the session.
pub struct WorkerState {
    dim: Option<u64>,
}

impl WorkerState {
    /// The padded dimension, once the first frame has fixed it.
    pub closed spec fn dim_spec(&self) -> Option<u64> {
        self.dim
    }

    /// Any dimension ever chosen is 5-smooth, hence FFT-efficient.
    pub open spec fn wf(&self) -> bool {
        self.dim_spec() matches Some(d) ==> five_smooth(d as int)
    }

    pub fn new() -> (w: Self)
        ensures
            w.wf(),
            w.dim_spec() is None,
    {
        WorkerState { dim: None }
    }

    /// Decides the directive for one acquisition outcome, given the row
    /// and column counts of the acquired frame, if any.  The first frame
    /// fixes the padded dimension to the smallest 5-smooth size at least
    /// `max(rows, cols)` and announces the radial-bin set; every later
    /// frame reuses that dimension unchanged.
    pub fn on_acquired(&mut self, frame: Option<(u64, u64)>) -> (d: WorkerDirective)
        requires
            old(self).wf(),
            frame matches Some((rows, cols)) ==> {
                &&& 1 <= rows <= 0x8000_0000_0000_0000u64
                &&& 1 <= cols <= 0x8000_0000_0000_0000u64
            },
        ensures
            final(self).wf(),
            frame is None ==> d == WorkerDirective::SendEnd && *final(self) == *old(self),
            (frame matches Some((rows, cols)) ==> {
                let side = if rows >= cols {
                    rows
                } else {
                    cols
                };
                &&& old(self).dim_spec() is None ==> {
                    &&& final(self).dim_spec() matches Some(n)
                        && is_closest_efficient_size(side as int, n as int)
                        && d == (WorkerDirective::Transform { dim: n, announce_bins: true })
                }
                &&& old(self).dim_spec() matches Some(n) ==> {
                    &&& *final(self) == *old(self)
                    &&& d == (WorkerDirective::Transform { dim: n, announce_bins: false })
                }
            }),
    {
        match frame {
            None => WorkerDirective::SendEnd,
            Some((rows, cols)) => {
                let side = if rows >= cols {
                    rows
                } else {
                    cols
                };
                match self.dim {
                    None => {
                        let n = closest_efficient_size(side);
                        self.dim = Some(n);
                        WorkerDirective::Transform { dim: n, announce_bins: true }
                    },
                    Some(n) => WorkerDirective::Transform { dim: n, announce_bins: false },
                }
            },
        }
    }
}

/// The symmetric centering shift for a `rows`×`cols` transform: half the
/// extent on each axis, which moves the zero-frequency component to the
/// center of both axes.
pub fn center_shift(rows: u64, cols: u64) -> (s: (u64, u64))
    ensures
        s.0 == rows / 2,
        s.1 == cols / 2,
{
    (rows / 2, cols / 2)
}

} // verus!
