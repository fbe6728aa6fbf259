//! The error taxonomy of the library.

use vstd::prelude::*;

verus! {

/// Everything that can go wrong in this crate.
///
/// `SizeMismatch`, `NotResident` and `ContextMismatch` are precondition
/// violations of the multiply operation; they are reported as values so
/// that a caller can handle misuse without crashing.  `TransferFailure`
/// is raised when a device-to-host readback does not deliver the matrix
/// payload.  `InitializationError` is reserved for the device backend:
/// it means no suitable accelerator or logical device could be
/// acquired, which is fatal and not retried.
#[derive(Copy, Clone, Debug, PartialEq, Eq, Structural)]
pub enum MatmulError {
    /// No accelerator or logical device could be acquired.
    InitializationError,
    /// A device-to-host readback failed or returned the wrong payload.
    TransferFailure,
    /// The two operands of a multiply have different sizes.
    SizeMismatch,
    /// An operand of a multiply has no device frame.
    NotResident,
    /// The operands of a multiply were built against different compute
    /// contexts.
    ContextMismatch,
}

} // verus!
