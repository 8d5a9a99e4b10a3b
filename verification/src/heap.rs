//! The bounds and alignment arithmetic of the fixed-size heap: the region
//! bookkeeping that every allocation decision rests on.

use vstd::prelude::*;

verus! {

/// A power of two: exactly one bit set.
pub open spec fn spec_is_power_of_two(a: usize) -> bool {
    a != 0 && a & ((a - 1) as usize) == 0
}

/// A fixed size heap: the bookkeeping of the backing region.
pub struct Heap {
    bottom: usize,
    size: usize,
}

impl Heap {
    /// The lowest address of the backing region.
    pub closed spec fn spec_bottom(self) -> usize {
        self.bottom
    }

    /// The size of the backing region in bytes.
    pub closed spec fn spec_size(self) -> usize {
        self.size
    }

    /// Creates an empty heap. All allocate calls will return `None`.
    pub fn empty() -> (r: Heap)
        ensures
            r.spec_bottom() == 0,
            r.spec_size() == 0,
    {
        Heap { bottom: 0, size: 0 }
    }

    /// Returns the bottom address of the heap.
    pub fn bottom(&self) -> (r: usize)
        ensures
            r == self.spec_bottom(),
    {
        self.bottom
    }

    /// Returns the size of the heap.
    pub fn size(&self) -> (r: usize)
        ensures
            r == self.spec_size(),
    {
        self.size
    }

    /// Return the top address of the heap.
    pub fn top(&self) -> (r: usize)
        requires
            self.spec_bottom() + self.spec_size() <= usize::MAX,
        ensures
            r == self.spec_bottom() + self.spec_size(),
    {
        self.bottom + self.size
    }
}

/// Align downwards. Returns the greatest x with alignment `align` so that
/// x <= addr. The alignment must be a power of 2 or zero; zero leaves the
/// address unchanged.
pub fn align_down(addr: usize, align: usize) -> (r: usize)
    requires
        align == 0 || spec_is_power_of_two(align),
    ensures
        align == 0 ==> r == addr,
        spec_is_power_of_two(align) ==> r == addr & !((align - 1) as usize),
{
    if align != 0 && align & (align - 1) == 0 {
        addr & !(align - 1)
    } else {
        addr
    }
}

/// Align upwards. Returns the smallest x with alignment `align` so that
/// x >= addr. The alignment must be a power of 2.
pub fn align_up(addr: usize, align: usize) -> (r: usize)
    requires
        spec_is_power_of_two(align),
        addr + align - 1 <= usize::MAX,
    ensures
        r == ((addr + align - 1) as usize) & !((align - 1) as usize),
{
    align_down(addr + (align - 1), align)
}

} // verus!
