//! Choice of the numeric runtime's compute backend: accelerated hardware
//! is preferred, with a fall back to general-purpose compute.

use vstd::prelude::*;

verus! {

/// A compute backend of the numeric runtime.
#[derive(PartialEq, Eq, Structural, Clone, Copy, Debug)]
pub enum ComputeBackend {
    Cuda,
    OpenCl,
    Cpu,
}

/// Picks the backend to run on from the list of available ones: CUDA when
/// available, otherwise OpenCL, otherwise the CPU fallback.
pub fn select_backend(available: &Vec<ComputeBackend>) -> (b: ComputeBackend)
    ensures
        b == (if available@.contains(ComputeBackend::Cuda) {
            ComputeBackend::Cuda
        } else if available@.contains(ComputeBackend::OpenCl) {
            ComputeBackend::OpenCl
        } else {
            ComputeBackend::Cpu
        }),
{
    let mut has_cuda = false;
    let mut has_opencl = false;
    let mut i: usize = 0;
    while i < available.len()
        invariant
            i <= available@.len(),
            has_cuda == exists|k: int|
                0 <= k < i && available@[k] == ComputeBackend::Cuda,
            has_opencl == exists|k: int|
                0 <= k < i && available@[k] == ComputeBackend::OpenCl,
        decreases available@.len() - i,
    {
        if available[i] == ComputeBackend::Cuda {
            has_cuda = true;
        }
        if available[i] == ComputeBackend::OpenCl {
            has_opencl = true;
        }
        i = i + 1;
    }
    if has_cuda {
        ComputeBackend::Cuda
    } else if has_opencl {
        ComputeBackend::OpenCl
    } else {
        ComputeBackend::Cpu
    }
}

} // verus!
