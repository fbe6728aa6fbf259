//! The dual-location matrix and its dirty-state machine.
//!
//! A matrix always holds an authoritative-by-default host buffer of
//! `size`² element words, and optionally a device frame.  When a frame
//! exists, [`Dirty`] records which copy is the fresher one; the job of
//! the state machine is to make sure the host buffer is up to date
//! *before* a caller reads it, without ever performing an unnecessary
//! transfer.  Indexing never pulls implicitly: after an operation that
//! leaves the device copy ahead, the caller must request host residency
//! explicitly or it will read the stale host words.

use vstd::prelude::*;

use crate::device::DeviceContext;
use crate::device::dispatch_groups;
use crate::error::MatmulError;

verus! {

/// The bit pattern of the single-precision float one; the identity
/// matrix is built from this word and zero.
pub const ONE_BITS: u32 = 0x3F80_0000;

/// Which of the two copies of a device-resident matrix is the fresher
/// one.
#[derive(Copy, Clone, Debug, PartialEq, Eq, Structural)]
pub enum Dirty {
    /// The CPU and GPU buffers are in sync.
    Clean,
    /// The GPU buffer has changes not reflected in the CPU buffer; the
    /// host copy is stale and must not be read until a pull occurs.
    CPUDirty,
    /// The CPU buffer has changes not reflected in the GPU buffer.  No
    /// mutator in scope edits the host copy of a resident matrix, so
    /// this state is unreachable here; it is retained for completeness
    /// of the state space.
    GPUDirty,
}

/// The device-side half of a matrix: the handle of its device frame —
/// buffers and bound resource group, owned by the backend — together
/// with the dirty state between the two copies.
#[derive(Copy, Clone, Debug, PartialEq, Eq, Structural)]
pub struct GpuFrame {
    /// The backend's name for the device resources of this matrix.
    pub handle: u64,
    /// Which copy is the fresher one.
    pub dirty: Dirty,
}

/// A `size` × `size` matrix living on the host and, once residency has
/// been requested, on the compute device as well.
///
/// `data` is row-major and holds the element bit patterns; it is always
/// present and is authoritative whenever no device frame exists.  A
/// device frame is acquired at most once and persists for the matrix's
/// lifetime.
pub struct Matrix {
    size: usize,
    data: Vec<u32>,
    gpu: u64,
    gpu_frame: Option<GpuFrame>,
}

impl Matrix {
    /// The matrix dimension.
    pub closed spec fn spec_size(&self) -> int {
        self.size as int
    }

    /// The row-major host buffer.
    pub closed spec fn spec_data(&self) -> Seq<u32> {
        self.data@
    }

    /// The identity of the compute context this matrix was built
    /// against.
    pub closed spec fn spec_gpu(&self) -> u64 {
        self.gpu
    }

    /// The device frame, if residency has been acquired.
    pub closed spec fn spec_frame(&self) -> Option<GpuFrame> {
        self.gpu_frame
    }

    /// The dirty state of the device frame; `None` while the matrix is
    /// host-only.
    pub open spec fn frame_state(&self) -> Option<Dirty> {
        match self.spec_frame() {
            None => None,
            Some(frame) => Some(frame.dirty),
        }
    }

    /// Whether the matrix has a device frame.
    pub open spec fn is_resident(&self) -> bool {
        self.spec_frame() is Some
    }

    /// Well-formedness: the dimension is positive, fits the 4-byte
    /// dimension value the kernel is handed, and the host buffer holds
    /// exactly `size`² words.
    pub open spec fn wf(&self) -> bool {
        &&& 1 <= self.spec_size()
        &&& self.spec_size() <= u32::MAX as int
        &&& self.spec_size() * self.spec_size() <= usize::MAX as int
        &&& self.spec_data().len() == self.spec_size() * self.spec_size()
    }

    /// The element word at row `r`, column `c`.
    pub open spec fn entry(&self, r: int, c: int) -> u32 {
        self.spec_data()[r * self.spec_size() + c]
    }

    /// Build a host-only matrix whose element at (`r`, `c`) is
    /// `factory(r, c)`.
    pub fn generate<F: Fn(usize, usize) -> u32>(gpu: u64, size: usize, factory: F) -> (m: Matrix)
        requires
            1 <= size,
            size <= u32::MAX,
            size * size <= usize::MAX,
            forall|r: usize, c: usize|
                r < size && c < size ==> call_requires(factory, (r, c)),
        ensures
            m.wf(),
            m.spec_size() == size,
            m.spec_gpu() == gpu,
            m.spec_frame() is None,
            forall|r: usize, c: usize|
                r < size && c < size ==> call_ensures(
                    factory,
                    (r, c),
                    #[trigger] m.entry(r as int, c as int),
                ),
    {
        let mut data: Vec<u32> = Vec::new();
        let mut row: usize = 0;
        while row < size
            invariant
                row <= size,
                size * size <= usize::MAX,
                data@.len() == row * size,
                forall|r: usize, c: usize|
                    r < size && c < size ==> call_requires(factory, (r, c)),
                forall|r: usize, c: usize|
                    r < row && c < size ==> call_ensures(
                        factory,
                        (r, c),
                        #[trigger] data@[r as int * size as int + c as int],
                    ),
            decreases size - row,
        {
            let mut col: usize = 0;
            while col < size
                invariant
                    row < size,
                    col <= size,
                    size * size <= usize::MAX,
                    data@.len() == row * size + col,
                    forall|r: usize, c: usize|
                        r < size && c < size ==> call_requires(factory, (r, c)),
                    forall|r: usize, c: usize|
                        r < row && c < size ==> call_ensures(
                            factory,
                            (r, c),
                            #[trigger] data@[r as int * size as int + c as int],
                        ),
                    forall|c: usize|
                        c < col ==> call_ensures(
                            factory,
                            (row, c),
                            #[trigger] data@[row as int * size as int + c as int],
                        ),
                decreases size - col,
            {
                proof {
                    assert(row * size + col < size * size) by (nonlinear_arith)
                        requires
                            row < size,
                            col < size,
                    ;
                }
                let value = factory(row, col);
                let ghost pre = data@;
                data.push(value);
                proof {
                    assert forall|r: usize, c: usize|
                        r < row && c < size implies call_ensures(
                            factory,
                            (r, c),
                            #[trigger] data@[r as int * size as int + c as int],
                        ) by {
                        assert((r as int) * (size as int) + (c as int) < (row as int) * (
                        size as int)) by (nonlinear_arith)
                            requires
                                r < row,
                                c < size,
                        ;
                        assert(data@[r as int * size as int + c as int]
                            == pre[r as int * size as int + c as int]);
                    }
                }
                col = col + 1;
            }
            proof {
                assert((row + 1) * size == row * size + size) by (nonlinear_arith);
                assert forall|r: usize, c: usize|
                    r < row + 1 && c < size implies call_ensures(
                        factory,
                        (r, c),
                        #[trigger] data@[r as int * size as int + c as int],
                    ) by {
                    if r == row {
                        assert(call_ensures(factory, (row, c),
                            data@[row as int * size as int + c as int]));
                    }
                }
            }
            row = row + 1;
        }
        Matrix { size, data, gpu, gpu_frame: None }
    }

    /// Build a host-only matrix of zero words.
    pub fn zeros(gpu: u64, size: usize) -> (m: Matrix)
        requires
            1 <= size,
            size <= u32::MAX,
            size * size <= usize::MAX,
        ensures
            m.wf(),
            m.spec_size() == size,
            m.spec_gpu() == gpu,
            m.spec_frame() is None,
            forall|r: int, c: int|
                0 <= r < size && 0 <= c < size ==> m.entry(r, c) == 0,
    {
        let zero = |r: usize, c: usize| -> (v: u32)
            ensures
                v == 0u32,
            { 0 };
        let m = Matrix::generate(gpu, size, zero);
        proof {
            assert forall|r: int, c: int|
                0 <= r < size && 0 <= c < size implies #[trigger] m.entry(r, c) == 0 by {
                assert(call_ensures(zero, (r as usize, c as usize),
                    m.entry(r as usize as int, c as usize as int)));
            }
        }
        m
    }

    /// Build the host-only identity matrix: the float-one bit pattern
    /// on the diagonal, zero words elsewhere.
    pub fn eye(gpu: u64, size: usize) -> (m: Matrix)
        requires
            1 <= size,
            size <= u32::MAX,
            size * size <= usize::MAX,
        ensures
            m.wf(),
            m.spec_size() == size,
            m.spec_gpu() == gpu,
            m.spec_frame() is None,
            forall|r: int, c: int|
                0 <= r < size && 0 <= c < size ==> m.entry(r, c)
                    == (if r == c { ONE_BITS } else { 0u32 }),
    {
        let diagonal = |r: usize, c: usize| -> (v: u32)
            ensures
                v == (if r == c { ONE_BITS } else { 0u32 }),
            {
                if r == c { ONE_BITS } else { 0 }
            };
        let m = Matrix::generate(gpu, size, diagonal);
        proof {
            assert forall|r: int, c: int|
                0 <= r < size && 0 <= c < size implies #[trigger] m.entry(r, c)
                    == (if r == c { ONE_BITS } else { 0u32 }) by {
                assert(call_ensures(diagonal, (r as usize, c as usize),
                    m.entry(r as usize as int, c as usize as int)));
            }
        }
        m
    }

    /// The element at row `row`, column `col` of the host buffer.
    ///
    /// This always reads the host copy: while the frame is
    /// [`Dirty::CPUDirty`] the caller gets the stale host words, so a
    /// pull must be requested first.
    pub fn index(&self, row: usize, col: usize) -> (v: u32)
        requires
            self.wf(),
            row < self.spec_size(),
            col < self.spec_size(),
        ensures
            v == self.entry(row as int, col as int),
    {
        proof {
            assert(row * self.size + col < self.size * self.size) by (nonlinear_arith)
                requires
                    row < self.size,
                    col < self.size,
            ;
        }
        self.data[row * self.size + col]
    }

    /// The identity of the compute context this matrix was built
    /// against.
    pub fn gpu(&self) -> (g: u64)
        ensures
            g == self.spec_gpu(),
    {
        self.gpu
    }

    /// The matrix dimension.
    pub fn size(&self) -> (s: usize)
        ensures
            s == self.spec_size(),
    {
        self.size
    }

    /// The dirty state of the device frame; `None` while host-only.
    pub fn residency(&self) -> (d: Option<Dirty>)
        ensures
            d == self.frame_state(),
    {
        match &self.gpu_frame {
            None => None,
            Some(frame) => Some(frame.dirty),
        }
    }

    /// Request device residency.
    ///
    /// When the matrix is host-only, this allocates its device frame
    /// and uploads the host words in the same operation, leaving the
    /// two copies in sync.  When a frame already exists the call is a
    /// no-op in every dirty state: in `Clean` there is nothing to do;
    /// `GPUDirty` is unreachable, as no mutator of the host copy of a
    /// resident matrix is in scope; and in `CPUDirty` the device copy
    /// is the authoritative one, so an upload here would overwrite a
    /// result that has not been pulled yet — a deliberate decision, not
    /// an omission.  On the no-op path the backend is not touched at
    /// all.
    pub fn move_to_gpu<D: DeviceContext>(&mut self, dev: &mut D)
        requires
            old(self).wf(),
        ensures
            final(self).wf(),
            moved_to_gpu(*old(self), *final(self)),
            old(self).is_resident() ==> *final(dev) == *old(dev),
    {
        match &self.gpu_frame {
            Some(_) => {},
            None => {
                let handle = dev.upload(&self.data, self.size as u32);
                self.gpu_frame = Some(GpuFrame { handle, dirty: Dirty::Clean });
            },
        }
    }

    /// Install the outcome of a device-to-host readback.
    ///
    /// The device copy must be the fresher one; `words` is whatever the
    /// backend's read returned.  A full payload — `size`² words —
    /// becomes the new host buffer, exactly as read, and the frame goes
    /// `Clean`; anything else (a reported mapping failure, or a payload
    /// of the wrong length) is a [`MatmulError::TransferFailure`] that
    /// leaves the matrix untouched, the device copy still marked
    /// fresher.  This fixes what a pull does for *every* possible
    /// readback outcome, which no contract on the backend itself could.
    pub fn install_readback(&mut self, words: Option<Vec<u32>>) -> (r: Result<(), MatmulError>)
        requires
            old(self).wf(),
            old(self).frame_state() == Some(Dirty::CPUDirty),
        ensures
            final(self).wf(),
            readback_installed(*old(self), *final(self), words, r),
    {
        let handle: u64 = match &self.gpu_frame {
            None => {
                return Err(MatmulError::TransferFailure);
            },
            Some(frame) => frame.handle,
        };
        match words {
            None => Err(MatmulError::TransferFailure),
            Some(w) => {
                if w.len() != self.size * self.size {
                    Err(MatmulError::TransferFailure)
                } else {
                    self.data = w;
                    self.gpu_frame = Some(GpuFrame { handle, dirty: Dirty::Clean });
                    Ok(())
                }
            },
        }
    }

    /// Request host residency.
    ///
    /// Unless the device copy is ahead (`CPUDirty`), there is nothing
    /// to pull and the call is a no-op that touches neither the matrix
    /// nor the backend.  Otherwise the frame's words are read back
    /// from the device — the only place data crosses from device to
    /// host, and always as a full-matrix transfer — and installed as
    /// the host copy by [`Matrix::install_readback`], whose contract
    /// pins the result for every readback outcome.  A failed or short
    /// readback is reported as [`MatmulError::TransferFailure`] and
    /// leaves the matrix exactly as it was, the device copy still
    /// marked fresher.
    pub fn move_to_cpu<D: DeviceContext>(&mut self, dev: &mut D) -> (r: Result<(), MatmulError>)
        requires
            old(self).wf(),
        ensures
            final(self).wf(),
            moved_to_cpu(*old(self), *final(self), r),
            old(self).frame_state() != Some(Dirty::CPUDirty) ==> *final(dev) == *old(dev),
    {
        let handle: u64 = match &self.gpu_frame {
            None => {
                return Ok(());
            },
            Some(frame) => {
                if frame.dirty != Dirty::CPUDirty {
                    return Ok(());
                }
                frame.handle
            },
        };
        let count: usize = self.size * self.size;
        let words = dev.read(handle, count);
        self.install_readback(words)
    }

    /// Multiply `self` by `rhs` on the compute device.
    ///
    /// Both operands must have the same size, must be device-resident,
    /// and must have been built against the same compute context; each
    /// violation is reported as its own error, checked in that order,
    /// and nothing is dispatched.  On success a new matrix of the same
    /// size is returned whose device frame holds the product and whose
    /// host buffer is still all zero words: its state is
    /// [`Dirty::CPUDirty`], and the caller must request host residency
    /// before reading any element.
    pub fn mul<D: DeviceContext>(&self, rhs: &Matrix, dev: &mut D) -> (r: Result<
        Matrix,
        MatmulError,
    >)
        requires
            self.wf(),
            rhs.wf(),
        ensures
            r is Ok <==> mul_accepted(*self, *rhs),
            r == Err::<Matrix, MatmulError>(MatmulError::SizeMismatch) <==> self.spec_size()
                != rhs.spec_size(),
            r == Err::<Matrix, MatmulError>(MatmulError::NotResident) <==> (self.spec_size()
                == rhs.spec_size() && !(self.is_resident() && rhs.is_resident())),
            r == Err::<Matrix, MatmulError>(MatmulError::ContextMismatch) <==> (self.spec_size()
                == rhs.spec_size() && self.is_resident() && rhs.is_resident() && self.spec_gpu()
                != rhs.spec_gpu()),
            r matches Ok(out) ==> out.wf() && out.spec_size() == self.spec_size()
                && out.spec_gpu() == self.spec_gpu() && out.frame_state() == Some(Dirty::CPUDirty)
                && (forall|rr: int, cc: int|
                0 <= rr < out.spec_size() && 0 <= cc < out.spec_size() ==> out.entry(rr, cc)
                    == 0),
    {
        if self.size != rhs.size {
            return Err(MatmulError::SizeMismatch);
        }
        let left_handle: u64 = match &self.gpu_frame {
            None => {
                return Err(MatmulError::NotResident);
            },
            Some(frame) => frame.handle,
        };
        let right_handle: u64 = match &rhs.gpu_frame {
            None => {
                return Err(MatmulError::NotResident);
            },
            Some(frame) => frame.handle,
        };
        if self.gpu != rhs.gpu {
            return Err(MatmulError::ContextMismatch);
        }
        let mut out = Matrix::zeros(self.gpu, self.size);
        let ghost host_only_out = out;
        let out_handle = dev.alloc_output(self.size as u32);
        out.gpu_frame = Some(GpuFrame { handle: out_handle, dirty: Dirty::CPUDirty });
        let groups = dispatch_groups(self.size);
        dev.dispatch(out_handle, left_handle, right_handle, self.size as u32, groups);
        proof {
            assert forall|rr: int, cc: int|
                0 <= rr < out.spec_size() && 0 <= cc < out.spec_size() implies #[trigger] out.entry(
                rr,
                cc,
            ) == 0 by {
                assert(host_only_out.entry(rr, cc) == 0);
            }
        }
        Ok(out)
    }
}

/// Whether a multiply of `left` by `right` meets all three of its
/// preconditions: equal sizes, both operands device-resident, one
/// shared compute context.
pub open spec fn mul_accepted(left: Matrix, right: Matrix) -> bool {
    &&& left.spec_size() == right.spec_size()
    &&& left.is_resident()
    &&& right.is_resident()
    &&& left.spec_gpu() == right.spec_gpu()
}

/// How a device-residency request changes a matrix: a host-only matrix
/// acquires a frame in sync with the unchanged host words; a resident
/// matrix is left untouched.
pub open spec fn moved_to_gpu(pre: Matrix, post: Matrix) -> bool {
    if pre.is_resident() {
        post == pre
    } else {
        &&& post.spec_size() == pre.spec_size()
        &&& post.spec_gpu() == pre.spec_gpu()
        &&& post.spec_data() == pre.spec_data()
        &&& post.frame_state() == Some(Dirty::Clean)
    }
}

/// How installing a readback outcome changes a matrix whose device
/// copy is ahead.  A full payload of `size`² words becomes the host
/// buffer exactly as read and the same frame goes `Clean`; a missing
/// or short payload is a transfer failure that leaves the matrix
/// untouched.
pub open spec fn readback_installed(
    pre: Matrix,
    post: Matrix,
    words: Option<Vec<u32>>,
    r: Result<(), MatmulError>,
) -> bool {
    match pre.spec_frame() {
        Some(frame) => match words {
            Some(w) => if w@.len() == pre.spec_size() * pre.spec_size() {
                &&& r is Ok
                &&& post.spec_size() == pre.spec_size()
                &&& post.spec_gpu() == pre.spec_gpu()
                &&& post.spec_data() == w@
                &&& post.spec_frame() == Some(
                    GpuFrame { handle: frame.handle, dirty: Dirty::Clean },
                )
            } else {
                &&& r == Err::<(), MatmulError>(MatmulError::TransferFailure)
                &&& post == pre
            },
            None => {
                &&& r == Err::<(), MatmulError>(MatmulError::TransferFailure)
                &&& post == pre
            },
        },
        None => false,
    }
}

/// How a host-residency request changes a matrix.  Unless the device
/// copy was ahead, nothing happens and the call succeeds.  When it was
/// ahead, success installs a device payload of the right length and
/// marks the same frame `Clean`; failure reports a transfer failure
/// and leaves the matrix untouched.  Which payload is installed is
/// fixed by [`readback_installed`], the contract of the install step.
pub open spec fn moved_to_cpu(pre: Matrix, post: Matrix, r: Result<(), MatmulError>) -> bool {
    if pre.frame_state() == Some(Dirty::CPUDirty) {
        match pre.spec_frame() {
            Some(frame) => match r {
                Ok(_) => {
                    &&& post.spec_size() == pre.spec_size()
                    &&& post.spec_gpu() == pre.spec_gpu()
                    &&& post.spec_data().len() == pre.spec_data().len()
                    &&& post.spec_frame() == Some(
                        GpuFrame { handle: frame.handle, dirty: Dirty::Clean },
                    )
                },
                Err(e) => e == MatmulError::TransferFailure && post == pre,
            },
            None => false,
        }
    } else {
        &&& post == pre
        &&& r is Ok
    }
}

} // verus!
