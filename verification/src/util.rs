//! Small numeric helpers shared by the renderer's callers.

use vstd::prelude::*;

verus! {

/// Round `value` up to the next multiple of `align`: the result is the least
/// multiple of `align` that is at least `value`. Buffer row pitches handed to
/// the GPU must be aligned this way.
pub fn align_to(value: u32, align: u32) -> (r: u32)
    requires
        align >= 1,
        value + align - 1 <= u32::MAX,
    ensures
        r % align == 0,
        value <= r < value + align,
{
    let q: u32 = (value + (align - 1)) / align;
    proof {
        assert(q * align <= value + align - 1 && q * align + align > value + align - 1)
            by (nonlinear_arith)
            requires
                align >= 1,
                q == (value + align - 1) as int / align as int;
        assert((q * align) % (align as int) == 0) by (nonlinear_arith)
            requires
                align >= 1;
    }
    q * align
}

} // verus!
