//! Sizes of uniform buffers.

use vstd::prelude::*;

verus! {

/// Bytes that the size of a uniform buffer is a multiple of.
pub const UNIFORM_ALIGN: u64 = 16;

/// Size of the uniform buffer for `size` bytes of data: the least multiple of the
/// alignment that holds them, and not nothing.
pub fn uniform_size(size: u64) -> (aligned: u64)
    requires
        size <= u64::MAX - 15,
    ensures
        aligned % UNIFORM_ALIGN == 0,
        aligned >= UNIFORM_ALIGN,
        aligned >= size,
        aligned == UNIFORM_ALIGN || aligned - UNIFORM_ALIGN < size,
{
    if size <= UNIFORM_ALIGN {
        UNIFORM_ALIGN
    } else {
        (size + 15) / UNIFORM_ALIGN * UNIFORM_ALIGN
    }
}

} // verus!
