//! The dirty-state machine and the multiply protocol, driven against a
//! software compute device.

use matmul_wgpu::device::DeviceContext;
use matmul_wgpu::error::MatmulError;
use matmul_wgpu::matrix::Dirty;
use matmul_wgpu::matrix::Matrix;

/// A software device: frames are plain `f32` buffers and the kernel is
/// a straightforward dense multiply, so every transfer and dispatch of
/// the protocol can be exercised and counted without an accelerator.
struct SoftwareDevice {
    frames: Vec<(u32, Vec<f32>)>,
    uploads: usize,
    reads: usize,
    dispatches: Vec<(u32, u32)>,
    fail_reads: bool,
    short_reads: bool,
}

impl SoftwareDevice {
    fn new() -> SoftwareDevice {
        SoftwareDevice {
            frames: Vec::new(),
            uploads: 0,
            reads: 0,
            dispatches: Vec::new(),
            fail_reads: false,
            short_reads: false,
        }
    }
}

impl DeviceContext for SoftwareDevice {
    fn upload(&mut self, words: &Vec<u32>, size: u32) -> u64 {
        self.uploads += 1;
        let data = words.iter().map(|w| f32::from_bits(*w)).collect();
        self.frames.push((size, data));
        (self.frames.len() - 1) as u64
    }

    fn alloc_output(&mut self, size: u32) -> u64 {
        self.frames.push((size, vec![0.0; (size * size) as usize]));
        (self.frames.len() - 1) as u64
    }

    fn dispatch(&mut self, out: u64, left: u64, right: u64, size: u32, groups: u32) {
        self.dispatches.push((size, groups));
        let n = size as usize;
        let l = self.frames[left as usize].1.clone();
        let r = self.frames[right as usize].1.clone();
        let o = &mut self.frames[out as usize].1;
        for i in 0..n {
            for j in 0..n {
                let mut acc = 0.0f32;
                for k in 0..n {
                    acc += l[i * n + k] * r[k * n + j];
                }
                o[i * n + j] = acc;
            }
        }
    }

    fn read(&mut self, frame: u64, count: usize) -> Option<Vec<u32>> {
        self.reads += 1;
        if self.fail_reads {
            return None;
        }
        if self.short_reads {
            return Some(vec![0u32; count - 1]);
        }
        Some(self.frames[frame as usize].1.iter().map(|x| x.to_bits()).collect())
    }
}

fn close_enough(got: f32, want: f32) -> bool {
    let scale = if want.abs() > 1.0 { want.abs() } else { 1.0 };
    (got - want).abs() <= 1e-4 * scale
}

#[test]
fn no_spurious_transfer() {
    let mut dev = SoftwareDevice::new();
    let mut m = Matrix::generate(0, 3, |r, c| (r * 17 + c * 5) as u32);
    let before: Vec<u32> = (0..3).flat_map(|r| (0..3).map(move |c| (r * 17 + c * 5) as u32)).collect();
    m.move_to_gpu(&mut dev);
    assert_eq!(m.residency(), Some(Dirty::Clean));
    let pulled = m.move_to_cpu(&mut dev);
    assert!(pulled.is_ok());
    assert_eq!(m.residency(), Some(Dirty::Clean));
    let mut i = 0;
    for r in 0..3 {
        for c in 0..3 {
            assert_eq!(m.index(r, c), before[i]);
            i += 1;
        }
    }
    assert_eq!(dev.reads, 0);
    assert_eq!(dev.uploads, 1);
}

#[test]
fn move_to_gpu_is_idempotent() {
    let mut dev = SoftwareDevice::new();
    let mut m = Matrix::zeros(0, 2);
    m.move_to_gpu(&mut dev);
    m.move_to_gpu(&mut dev);
    m.move_to_gpu(&mut dev);
    assert_eq!(dev.uploads, 1);
    assert_eq!(m.residency(), Some(Dirty::Clean));
}

#[test]
fn move_to_cpu_on_host_only_is_noop() {
    let mut dev = SoftwareDevice::new();
    let mut m = Matrix::zeros(0, 2);
    assert!(m.move_to_cpu(&mut dev).is_ok());
    assert_eq!(m.residency(), None::<Dirty>);
    assert_eq!(dev.reads, 0);
}

#[test]
fn identity_law() {
    let mut dev = SoftwareDevice::new();
    let n = 17;
    let mut a = Matrix::generate(0, n, |r, c| (((r * n + c) as f32) * 0.37 - 2.5).to_bits());
    let mut eye = Matrix::eye(0, n);
    a.move_to_gpu(&mut dev);
    eye.move_to_gpu(&mut dev);
    let mut out = eye.mul(&a, &mut dev).unwrap_or_else(|e| panic!("multiply failed: {:?}", e));
    assert!(out.move_to_cpu(&mut dev).is_ok());
    for r in 0..n {
        for c in 0..n {
            let want = f32::from_bits(a.index(r, c));
            let got = f32::from_bits(out.index(r, c));
            assert!(close_enough(got, want), "({}, {}): {} vs {}", r, c, got, want);
        }
    }
}

#[test]
fn size_mismatch_rejected() {
    let mut dev = SoftwareDevice::new();
    let a = Matrix::zeros(0, 4);
    let b = Matrix::zeros(0, 5);
    match a.mul(&b, &mut dev) {
        Err(e) => assert_eq!(e, MatmulError::SizeMismatch),
        Ok(_) => panic!("size mismatch was accepted"),
    }
    assert!(dev.dispatches.is_empty());
    assert_eq!(dev.reads, 0);
    assert_eq!(dev.uploads, 0);
}

#[test]
fn host_only_operand_rejected() {
    let mut dev = SoftwareDevice::new();
    let a = Matrix::zeros(0, 4);
    let mut b = Matrix::zeros(0, 4);
    b.move_to_gpu(&mut dev);
    match a.mul(&b, &mut dev) {
        Err(e) => assert_eq!(e, MatmulError::NotResident),
        Ok(_) => panic!("host-only operand was accepted"),
    }
    match b.mul(&a, &mut dev) {
        Err(e) => assert_eq!(e, MatmulError::NotResident),
        Ok(_) => panic!("host-only operand was accepted"),
    }
    assert!(dev.dispatches.is_empty());
}

#[test]
fn context_mismatch_rejected() {
    let mut dev = SoftwareDevice::new();
    let mut a = Matrix::zeros(1, 4);
    let mut b = Matrix::zeros(2, 4);
    a.move_to_gpu(&mut dev);
    b.move_to_gpu(&mut dev);
    match a.mul(&b, &mut dev) {
        Err(e) => assert_eq!(e, MatmulError::ContextMismatch),
        Ok(_) => panic!("operands from different contexts were accepted"),
    }
    assert!(dev.dispatches.is_empty());
}

#[test]
fn dispatch_grid_is_two_by_two_for_seventeen() {
    let mut dev = SoftwareDevice::new();
    let mut a = Matrix::eye(0, 17);
    let mut b = Matrix::eye(0, 17);
    a.move_to_gpu(&mut dev);
    b.move_to_gpu(&mut dev);
    let out = a.mul(&b, &mut dev);
    assert!(out.is_ok());
    assert_eq!(dev.dispatches, vec![(17, 2)]);
}

#[test]
fn multiply_output_is_stale_until_pulled() {
    let mut dev = SoftwareDevice::new();
    let n = 3;
    let mut a = Matrix::generate(0, n, |r, c| (((r + 2 * c) as f32) + 1.0).to_bits());
    let mut eye = Matrix::eye(0, n);
    a.move_to_gpu(&mut dev);
    eye.move_to_gpu(&mut dev);
    let mut out = a.mul(&eye, &mut dev).unwrap_or_else(|e| panic!("multiply failed: {:?}", e));
    assert_eq!(out.residency(), Some(Dirty::CPUDirty));
    for r in 0..n {
        for c in 0..n {
            assert_eq!(out.index(r, c), 0, "host copy must still be zeros before the pull");
        }
    }
    assert!(out.move_to_cpu(&mut dev).is_ok());
    assert_eq!(out.residency(), Some(Dirty::Clean));
    for r in 0..n {
        for c in 0..n {
            let want = f32::from_bits(a.index(r, c));
            let got = f32::from_bits(out.index(r, c));
            assert!(close_enough(got, want), "({}, {}): {} vs {}", r, c, got, want);
        }
    }
}

#[test]
fn concrete_scenario() {
    let mut dev = SoftwareDevice::new();
    let mut left = Matrix::eye(0, 4);
    let mut right = Matrix::generate(0, 4, |r, c| ((r * 4 + c) as f32).to_bits());
    left.move_to_gpu(&mut dev);
    right.move_to_gpu(&mut dev);
    let mut out = left.mul(&right, &mut dev).unwrap_or_else(|e| panic!("multiply failed: {:?}", e));
    assert!(out.move_to_cpu(&mut dev).is_ok());
    for r in 0..4 {
        for c in 0..4 {
            let got = f32::from_bits(out.index(r, c));
            let want = (r * 4 + c) as f32;
            assert!(close_enough(got, want), "({}, {}): {} vs {}", r, c, got, want);
        }
    }
}

#[test]
fn install_readback_installs_exactly_the_read_words() {
    let mut dev = SoftwareDevice::new();
    let mut a = Matrix::eye(0, 4);
    let mut b = Matrix::eye(0, 4);
    a.move_to_gpu(&mut dev);
    b.move_to_gpu(&mut dev);
    let mut out = a.mul(&b, &mut dev).unwrap_or_else(|e| panic!("multiply failed: {:?}", e));

    let payload: Vec<u32> = (0..16u32).map(|i| i * 3 + 1).collect();
    assert!(out.install_readback(Some(payload.clone())).is_ok());
    assert_eq!(out.residency(), Some(Dirty::Clean));
    for r in 0..4 {
        for c in 0..4 {
            assert_eq!(out.index(r, c), payload[r * 4 + c]);
        }
    }
}

#[test]
fn install_readback_rejects_missing_or_short_payload() {
    let mut dev = SoftwareDevice::new();
    let mut a = Matrix::eye(0, 2);
    let mut b = Matrix::eye(0, 2);
    a.move_to_gpu(&mut dev);
    b.move_to_gpu(&mut dev);
    let mut out = a.mul(&b, &mut dev).unwrap_or_else(|e| panic!("multiply failed: {:?}", e));

    match out.install_readback(None) {
        Err(e) => assert_eq!(e, MatmulError::TransferFailure),
        Ok(_) => panic!("missing payload was accepted"),
    }
    assert_eq!(out.residency(), Some(Dirty::CPUDirty));
    match out.install_readback(Some(vec![7, 7, 7])) {
        Err(e) => assert_eq!(e, MatmulError::TransferFailure),
        Ok(_) => panic!("short payload was accepted"),
    }
    assert_eq!(out.residency(), Some(Dirty::CPUDirty));
    for r in 0..2 {
        for c in 0..2 {
            assert_eq!(out.index(r, c), 0, "host copy must be untouched after a failed install");
        }
    }
    assert!(out.install_readback(Some(vec![1, 2, 3, 4])).is_ok());
    assert_eq!(out.residency(), Some(Dirty::Clean));
    assert_eq!(out.index(1, 1), 4);
}

#[test]
fn failed_readback_is_reported_and_state_kept() {
    let mut dev = SoftwareDevice::new();
    let n = 2;
    let mut a = Matrix::eye(0, n);
    let mut b = Matrix::eye(0, n);
    a.move_to_gpu(&mut dev);
    b.move_to_gpu(&mut dev);
    let mut out = a.mul(&b, &mut dev).unwrap_or_else(|e| panic!("multiply failed: {:?}", e));

    dev.fail_reads = true;
    match out.move_to_cpu(&mut dev) {
        Err(e) => assert_eq!(e, MatmulError::TransferFailure),
        Ok(_) => panic!("failed mapping was not reported"),
    }
    assert_eq!(out.residency(), Some(Dirty::CPUDirty));

    dev.fail_reads = false;
    dev.short_reads = true;
    match out.move_to_cpu(&mut dev) {
        Err(e) => assert_eq!(e, MatmulError::TransferFailure),
        Ok(_) => panic!("short readback was not reported"),
    }
    assert_eq!(out.residency(), Some(Dirty::CPUDirty));

    dev.short_reads = false;
    assert!(out.move_to_cpu(&mut dev).is_ok());
    assert_eq!(out.residency(), Some(Dirty::Clean));
    assert_eq!(f32::from_bits(out.index(0, 0)), 1.0);
    assert_eq!(f32::from_bits(out.index(0, 1)), 0.0);
}
