//! Core logic of an online differential dynamic microscopy (DDM) pipeline.
//!
//! A capture worker Fourier-transforms incoming video frames and hands them
//! to a driver, which keeps a bounded sliding window of transformed frames,
//! folds every full window into a running accumulator, and finally normalizes
//! and reduces the result.  This crate holds the decision logic of that
//! pipeline: the FFT-efficient padding-size selection, the sliding window,
//! the driver and worker state machines, the command-line command parsing,
//! the backend choice, and the transpose reindexing of the reduced data.
//! The GPU numeric runtime, the capture source and plot persistence are
//! collaborators that the surrounding application supplies.

pub mod backend;
pub mod cli;
pub mod driver;
pub mod padding;
pub mod reduce;
pub mod window;
pub mod worker;
