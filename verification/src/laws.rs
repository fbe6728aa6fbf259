//! Properties that relate several operations of the library.

use vstd::prelude::*;

use crate::error::MatmulError;
use crate::matrix::Matrix;
use crate::matrix::moved_to_cpu;
use crate::matrix::moved_to_gpu;

verus! {

/// A matrix that was built by [`Matrix::generate`] from `factory`:
/// well-formed, and every element is an output `factory` admits for its
/// position.
pub open spec fn generated_from<F: Fn(usize, usize) -> u32>(m: Matrix, factory: F) -> bool {
    &&& m.wf()
    &&& forall|r: usize, c: usize|
        r < m.spec_size() && c < m.spec_size() ==> call_ensures(
            factory,
            (r, c),
            #[trigger] m.entry(r as int, c as int),
        )
}

/// Generator round-trip: if `factory` can only ever return `f(r, c)` at
/// position (`r`, `c`), then a matrix built from it holds exactly
/// `f(r, c)` there — which is what [`Matrix::index`] returns.
pub proof fn lemma_generate_round_trip<F: Fn(usize, usize) -> u32>(
    m: Matrix,
    factory: F,
    f: spec_fn(int, int) -> u32,
    r: usize,
    c: usize,
)
    requires
        generated_from(m, factory),
        forall|rr: usize, cc: usize, v: u32|
            call_ensures(factory, (rr, cc), v) ==> v == f(rr as int, cc as int),
        r < m.spec_size(),
        c < m.spec_size(),
    ensures
        m.entry(r as int, c as int) == f(r as int, c as int),
{
    assert(call_ensures(factory, (r, c), m.entry(r as int, c as int)));
}

/// No spurious transfer: requesting device residency for a host-only
/// matrix and then immediately requesting host residency leaves the
/// host buffer exactly as it was, and succeeds — no `CPUDirty`
/// transition happened, so no device-to-host transfer took place.
pub proof fn lemma_no_spurious_transfer(
    m0: Matrix,
    m1: Matrix,
    m2: Matrix,
    r: Result<(), MatmulError>,
)
    requires
        m0.wf(),
        !m0.is_resident(),
        moved_to_gpu(m0, m1),
        moved_to_cpu(m1, m2, r),
    ensures
        m2.spec_data() == m0.spec_data(),
        r is Ok,
{
}

/// A device-residency request is idempotent: once a matrix is
/// resident, any further request leaves it exactly as it is, in every
/// dirty state.
pub proof fn lemma_move_to_gpu_idempotent(m0: Matrix, m1: Matrix, m2: Matrix)
    requires
        m0.wf(),
        moved_to_gpu(m0, m1),
        moved_to_gpu(m1, m2),
    ensures
        m2 == m1,
{
}

} // verus!
