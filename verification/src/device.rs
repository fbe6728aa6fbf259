//! The capability interface to the compute device.
//!
//! The matrix layer never talks to a native compute API directly: every
//! transfer and every dispatch goes through [`DeviceContext`], so the
//! state machine and the multiply protocol are verified for *every*
//! backend.  A backend implements the four operations over whatever
//! device API it has — the shipped driver does so over a GPU compute
//! API, the test suite over a software device — and the methods carry no
//! postconditions: nothing about a backend is taken on trust, and the
//! verified callers check at run time whatever they need of a result.

use vstd::prelude::*;

verus! {

/// How many elements wide the kernel's fixed work tile is.
///
/// The dispatch grid of a multiply is sized in units of this tile; the
/// value is a structural contract with the external kernel, not a
/// tunable.
pub const TILE_WIDTH: u32 = 16;

/// The number of work groups that covers `size` elements in tiles of
/// [`TILE_WIDTH`]: the ceiling of `size / TILE_WIDTH`.
pub open spec fn group_count(size: int) -> int {
    (size + (TILE_WIDTH as int) - 1) / (TILE_WIDTH as int)
}

/// Each spatial dimension of the dispatch grid of a multiply of
/// dimension `size`: enough work groups of [`TILE_WIDTH`] lanes to
/// cover every output element.
pub fn dispatch_groups(size: usize) -> (groups: u32)
    requires
        1 <= size,
        size <= u32::MAX,
    ensures
        groups == group_count(size as int),
{
    let tile: u64 = TILE_WIDTH as u64;
    let wide: u64 = ((size as u64) + (tile - 1)) / tile;
    proof {
        vstd::arithmetic::div_mod::lemma_div_is_ordered(
            size as int + 15,
            u32::MAX as int + 15,
            16,
        );
    }
    wide as u32
}

/// A backend that owns the device connection, the compiled kernel and
/// the device-side frames.
///
/// Frames are named by opaque `u64` handles chosen by the backend; a
/// handle returned by [`upload`](Self::upload) or
/// [`alloc_output`](Self::alloc_output) stands for one device buffer together with its
/// bound dimension value, and stays valid for the backend's lifetime.
pub trait DeviceContext {
    /// Allocate a device frame for a `size` × `size` matrix and fill it
    /// with `words`, the row-major element bit patterns, in one
    /// combined allocate-and-upload step.
    fn upload(&mut self, words: &Vec<u32>, size: u32) -> (frame: u64)
        requires
            1 <= size,
            words@.len() == size * size,
    ;

    /// Allocate a device frame for a `size` × `size` matrix without
    /// writing any host data into it; the frame is about to be filled
    /// by a dispatch.
    fn alloc_output(&mut self, size: u32) -> (frame: u64)
        requires
            1 <= size,
    ;

    /// Submit one compute dispatch of the multiplication kernel over
    /// the three frames — output, left operand, right operand — on a
    /// `groups` × `groups` grid of work tiles, and block until the
    /// device reports completion of that exact submission.
    fn dispatch(&mut self, out: u64, left: u64, right: u64, size: u32, groups: u32)
        requires
            1 <= size,
            groups == group_count(size as int),
    ;

    /// Read the `count` = `size`² element words of `frame` back from
    /// the device, blocking until the transfer is complete.  Returns
    /// `None` when the device reports a mapping failure; the verified
    /// caller also treats a result of the wrong length as a failed
    /// transfer.
    fn read(&mut self, frame: u64, count: usize) -> (words: Option<Vec<u32>>);
}

} // verus!
