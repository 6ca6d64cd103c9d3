//! Address alignment arithmetic for the typed allocation layer.
//!
//! A raw region starts at an arbitrary address. To carve a correctly aligned
//! slot for a value type out of it, the start address is advanced to the next
//! multiple of the type's alignment, and the raw request is padded by
//! `align - 1` bytes so that the advanced slot still fits.

use vstd::prelude::*;

verus! {

/// The first multiple of `align` at or after `addr`.
pub open spec fn spec_align_up(addr: int, align: int) -> int {
    addr + ((align - addr % align) % align)
}

/// Advancing `addr` to `spec_align_up(addr, align)` lands on a multiple of
/// `align`, never moves backwards, and skips fewer than `align` bytes.
pub proof fn lemma_align_up(addr: int, align: int)
    requires
        0 <= addr,
        0 < align,
    ensures
        spec_align_up(addr, align) % align == 0,
        addr <= spec_align_up(addr, align) < addr + align,
        addr % align == 0 ==> spec_align_up(addr, align) == addr,
        addr % align != 0 ==> spec_align_up(addr, align) == addr + align - addr % align,
{
    let m = addr % align;
    assert(0 <= m < align) by (nonlinear_arith)
        requires
            0 <= addr && 0 < align && m == addr % align,
    ;
    if m == 0 {
        assert((align - m) % align == 0) by (nonlinear_arith)
            requires
                0 < align && m == 0,
        ;
        assert(spec_align_up(addr, align) == addr);
    } else {
        assert((align - m) % align == align - m) by (nonlinear_arith)
            requires
                0 < m < align,
        ;
        assert(spec_align_up(addr, align) == addr + align - m);
        assert((addr + align - m) % align == 0) by (nonlinear_arith)
            requires
                0 < align && 0 <= addr && m == addr % align && 0 < m < align,
        ;
    }
}

/// A slot of `size` bytes placed at the aligned-up address still ends within
/// a raw region of `size + align - 1` bytes that starts at `addr`: worst-case
/// padding of `align - 1` bytes is always enough.
pub proof fn lemma_aligned_slot_fits(addr: int, size: int, align: int)
    requires
        0 <= addr,
        0 <= size,
        0 < align,
    ensures
        spec_align_up(addr, align) + size <= addr + size + align - 1,
{
    lemma_align_up(addr, align);
}

/// The first multiple of `align` at or after `addr`.
///
/// An address already aligned is returned unchanged; address zero is aligned
/// at every `align`.
pub fn align_up(addr: usize, align: usize) -> (r: usize)
    requires
        0 < align,
        addr + align - 1 <= usize::MAX,
    ensures
        r == spec_align_up(addr as int, align as int),
        r % align == 0,
        addr <= r < addr + align,
{
    proof {
        lemma_align_up(addr as int, align as int);
    }
    let m = addr % align;
    if m == 0 {
        addr
    } else {
        addr + (align - m)
    }
}

/// The raw byte count the typed layer requests for a slot of `size` bytes at
/// alignment `align`: the slot itself plus worst-case padding.
pub fn padded_size(size: usize, align: usize) -> (r: usize)
    requires
        0 < align,
        size + align - 1 <= usize::MAX,
    ensures
        r == size + align - 1,
{
    size + (align - 1)
}

} // verus!
