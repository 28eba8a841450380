use ddm_core::backend::{select_backend, ComputeBackend};

#[test]
fn prefers_cuda_when_available() {
    let available = vec![ComputeBackend::Cpu, ComputeBackend::OpenCl, ComputeBackend::Cuda];
    assert_eq!(select_backend(&available), ComputeBackend::Cuda);
}

#[test]
fn falls_back_to_opencl() {
    let available = vec![ComputeBackend::Cpu, ComputeBackend::OpenCl];
    assert_eq!(select_backend(&available), ComputeBackend::OpenCl);
}

#[test]
fn falls_back_to_cpu() {
    assert_eq!(select_backend(&vec![ComputeBackend::Cpu]), ComputeBackend::Cpu);
    assert_eq!(select_backend(&Vec::new()), ComputeBackend::Cpu);
}
