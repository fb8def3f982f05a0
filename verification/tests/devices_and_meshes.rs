use aerocore::ffi::{FfiPrecisionMode, FfiSimulationState};
use aerocore::gpu_compute::device::{CpuFallbackBackend, GpuBackendType, GpuComputeBackend, GpuError};
use aerocore::io_mesh::mesh::MeshError;
use aerocore::io_mesh::stl::{parse_stl_binary, Triangle};
use aerocore::io_mesh::voxelize::parity_mask;
use aerocore::solvers::navier_stokes::compressible::CompressibleNsSolver;
use aerocore::solvers::traits::PrecisionMode;

#[test]
fn test_cpu_fallback_lifecycle() {
    let mut backend = CpuFallbackBackend::new();
    let info = backend.init().unwrap();
    assert_eq!(info.backend, GpuBackendType::CpuFallback);
    assert!(info.supports_fp64);

    let handle = backend.allocate_buffer(1024, "test_buffer").unwrap();
    backend.upload(&handle, &[1u8; 1024]).unwrap();

    let mut output = vec![0u8; 1024];
    backend.download(&handle, &mut output).unwrap();

    backend.dispatch_kernel("test_kernel", [1, 1, 1], &[handle]).unwrap();
    backend.sync().unwrap();
    backend.free_buffer(handle).unwrap();
}

#[test]
fn cpu_fallback_handles_and_errors() {
    let mut backend = CpuFallbackBackend::default();
    let a = backend.allocate_buffer(4, "a").unwrap();
    let b = backend.allocate_buffer(2, "b").unwrap();
    assert_eq!((a.id(), b.id()), (0, 1));
    let mut out = [9u8; 3];
    backend.download(&b, &mut out).unwrap();
    assert_eq!(out, [0, 0, 9]);
    backend.free_buffer(a).unwrap();
    assert!(!backend.has_buffer(0));
    match backend.upload(&a, &[1]) {
        Err(GpuError::DriverError(m)) => assert_eq!(m, "Invalid handle: 0"),
        other => panic!("unexpected {:?}", other),
    }
    match backend.download(&a, &mut out) {
        Err(GpuError::DriverError(m)) => assert_eq!(m, "Invalid handle: 0"),
        other => panic!("unexpected {:?}", other),
    }
    let info = backend.device_info();
    assert_eq!(info.name, "CPU Fallback");
    assert_eq!(info.max_workgroup_size, [1024, 1, 1]);
    assert_eq!(info.vram_bytes, 0);
}

fn stl_body(n: usize) -> Vec<u8> {
    let mut buf = Vec::new();
    for i in 0..n {
        let x = i as f32;
        for v in [0.0f32, 0.0, 1.0, x, 0.0, 0.0, x + 1.0, 0.0, 0.0, x, 1.0, 0.0] {
            buf.extend_from_slice(&v.to_le_bytes());
        }
        buf.extend_from_slice(&(i as u16).to_le_bytes());
    }
    buf
}

#[test]
fn stl_binary_records_are_decoded() {
    let mut body = stl_body(3);
    body.push(0xAB); // trailing byte is ignored
    let tris: Vec<Triangle> = parse_stl_binary(&body, 3).unwrap();
    assert_eq!(tris.len(), 3);
    assert_eq!(tris[2].normal_bits, [0.0f32.to_bits(), 0.0f32.to_bits(), 1.0f32.to_bits()]);
    assert_eq!(tris[2].vertex_bits[1][0], 3.0f32.to_bits());
    assert_eq!(f32::from_bits(tris[1].vertex_bits[2][1]), 1.0);
    assert_eq!(tris[2].attribute, 2);
    assert_eq!(parse_stl_binary(&body, 0).unwrap().len(), 0);
}

#[test]
fn stl_binary_truncated_body_is_an_error() {
    let body = stl_body(2);
    match parse_stl_binary(&body[..99], 2) {
        Err(MeshError::ParseError { line, message }) => {
            assert_eq!(line, 0);
            assert!(message.starts_with("failed to parse binary STL triangle data"));
        }
        other => panic!("unexpected {:?}", other.map(|v| v.len())),
    }
    assert!(parse_stl_binary(&body, usize::MAX).is_err());
}

#[test]
fn mesh_error_from_io_error() {
    let e: MeshError = std::io::Error::new(std::io::ErrorKind::NotFound, "gone").into();
    assert!(matches!(e, MeshError::IoError(_)));
}

#[test]
fn navier_stokes_step_counter() {
    let mut s = CompressibleNsSolver::new();
    assert!(s.step().is_err());
    s.init();
    assert_eq!(s.step(), Ok(1));
    assert_eq!(s.step(), Ok(2));
    assert_eq!(s.timestep(), 2);
    s.finalize();
    assert!(!s.is_initialized());
    assert_eq!(s.timestep(), 0);
    assert_eq!(s.name(), "Compressible Navier-Stokes (Roe/HLLC)");
}

#[test]
fn ffi_codes() {
    assert_eq!(FfiPrecisionMode::from_rust(PrecisionMode::default()), FfiPrecisionMode::FP64);
    assert_eq!(FfiPrecisionMode::from_rust(PrecisionMode::FP32).code(), 1);
    assert_eq!(FfiSimulationState::Idle.code(), 0);
    assert_eq!(FfiSimulationState::Error.code(), 6);
}

#[test]
fn parity_mask_marks_odd_crossings_solid() {
    let crossings: Vec<u32> = vec![0, 1, 2, 3, 4, 5, 12, 13];
    let mask = parity_mask(&crossings);
    assert_eq!(mask, vec![false, true, false, true, false, true, false, true]);
    assert!(parity_mask(&Vec::new()).is_empty());
}

#[test]
fn cpu_fallback_upload_then_download_returns_the_data() {
    let mut backend = CpuFallbackBackend::new();
    let h = backend.allocate_buffer(4, "buf").unwrap();
    backend.upload(&h, &[7]).unwrap();
    let mut one = [0u8; 1];
    backend.download(&h, &mut one).unwrap();
    assert_eq!(one, [7]);
    let mut all = [9u8; 4];
    backend.download(&h, &mut all).unwrap();
    assert_eq!(all, [7, 0, 0, 0]);
    // data longer than the buffer fills it and stops there
    backend.upload(&h, &[1, 2, 3, 4, 5, 6]).unwrap();
    backend.download(&h, &mut all).unwrap();
    assert_eq!(all, [1, 2, 3, 4]);
}

#[test]
fn cpu_fallback_refusal_names_the_handle_in_decimal() {
    let mut backend = CpuFallbackBackend::new();
    let mut last = backend.allocate_buffer(1, "b").unwrap();
    for _ in 0..10 {
        last = backend.allocate_buffer(1, "b").unwrap();
    }
    assert_eq!(last.id(), 10);
    backend.free_buffer(last).unwrap();
    match backend.upload(&last, &[1]) {
        Err(GpuError::DriverError(m)) => assert_eq!(m, "Invalid handle: 10"),
        other => panic!("unexpected {:?}", other),
    }
}
