//! The size of the heaps that the allocator of a program asks the kernel
//! for when it runs out of memory.
use vstd::prelude::*;

verus! {

/// The smallest heap the allocator asks for, in bytes.
pub const MINIMUM_HEAP_SIZE: usize = 1024 * 1024;

/// The size of the heap asked for when an allocation of `size` bytes does
/// not fit: twice the size rounded up to a page, and at least
/// [`MINIMUM_HEAP_SIZE`].
pub fn heap_size(size: usize) -> (r: usize)
    requires
        size + 4095 <= usize::MAX,
        ((size + 4095) - (size + 4095) % 4096) * 2 <= usize::MAX,
    ensures
        ({
            let requested = (size + 4095) - (size + 4095) % 4096;
            r == if requested * 2 >= MINIMUM_HEAP_SIZE {
                requested * 2
            } else {
                MINIMUM_HEAP_SIZE as int
            }
        }),
        r >= size,
        r % 4096 == 0,
{
    let padded = size + 4095;
    let requested = padded - padded % 4096;
    let doubled = requested * 2;
    assert(requested % 4096 == 0 && requested >= size) by (nonlinear_arith)
        requires
            padded == size + 4095,
            requested == padded - padded % 4096,
    ;
    assert(doubled % 4096 == 0) by (nonlinear_arith)
        requires
            requested % 4096 == 0,
            doubled == requested * 2,
    ;
    if doubled >= MINIMUM_HEAP_SIZE {
        doubled
    } else {
        MINIMUM_HEAP_SIZE
    }
}

} // verus!
