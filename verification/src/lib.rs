//! Dense square-matrix products offloaded to a parallel compute device.
//!
//! The library keeps an authoritative host-side copy of every matrix and
//! tracks, per matrix, whether the host copy or the device copy is the
//! fresher one (the dirty-state machine).  All decisions of that state
//! machine — when a transfer is needed, when an operation is a no-op,
//! which misuses are rejected — are verified here.  The device itself is
//! reached through the [`device::DeviceContext`] capability trait, so any
//! native compute backend (or a software one, as the test suite does) can
//! carry out the transfers and the dispatch.
//!
//! Matrix elements are stored as 32-bit words: the bit patterns of the
//! single-precision floats the compute kernel operates on.  The library
//! never interprets them arithmetically — the numeric product is the
//! kernel's job — so the host-side model stays exact.

pub mod device;
pub mod error;
pub mod matrix;
pub mod laws;
