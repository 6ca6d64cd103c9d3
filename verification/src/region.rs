//! The byte region handed to a caller's closure.
//!
//! A `StackRegion` is the safe face of the grown stack area: a contiguous,
//! writable run of bytes of a length fixed when the region is created. It is
//! owned by the closure for the dynamic extent of one call and dies with it.

use vstd::prelude::*;

verus! {

/// The contents of a fully zeroed region of `n` bytes.
pub open spec fn zero_bytes(n: nat) -> Seq<u8> {
    Seq::new(n, |i: int| 0u8)
}

/// A contiguous, writable run of bytes delivered to a callback.
///
/// The view of a region is the sequence of its bytes.
pub struct StackRegion {
    bytes: Vec<u8>,
}

impl View for StackRegion {
    type V = Seq<u8>;

    closed spec fn view(&self) -> Seq<u8> {
        self.bytes@
    }
}

impl StackRegion {
    /// Carves out a fresh region of exactly `size` bytes.
    ///
    /// The contract fixes only the length: a caller of the raw entry point
    /// must treat the contents as arbitrary until it writes them.
    pub fn new(size: usize) -> (region: StackRegion)
        ensures
            region@.len() == size,
    {
        let mut bytes: Vec<u8> = Vec::new();
        let mut i: usize = 0;
        while i < size
            invariant
                i <= size,
                bytes@.len() == i,
            decreases size - i,
        {
            bytes.push(0u8);
            i = i + 1;
        }
        StackRegion { bytes }
    }

    /// The number of bytes in the region.
    pub fn len(&self) -> (n: usize)
        ensures
            n == self@.len(),
    {
        self.bytes.len()
    }

    /// Reads the byte at offset `i`.
    pub fn read(&self, i: usize) -> (b: u8)
        requires
            i < self@.len(),
        ensures
            b == self@[i as int],
    {
        self.bytes[i]
    }

    /// Writes `b` at offset `i`; every other byte keeps its value.
    pub fn write(&mut self, i: usize, b: u8)
        requires
            i < old(self)@.len(),
        ensures
            final(self)@ == old(self)@.update(i as int, b),
    {
        self.bytes[i] = b;
    }

    /// Writes zero to every byte of the region, one linear pass.
    pub fn zero_fill(&mut self)
        ensures
            final(self)@ == zero_bytes(old(self)@.len()),
    {
        let len = self.bytes.len();
        let mut i: usize = 0;
        while i < len
            invariant
                i <= len,
                len == self.bytes@.len(),
                forall|j: int| 0 <= j < i ==> self.bytes@[j] == 0u8,
            decreases len - i,
        {
            self.bytes[i] = 0u8;
            i = i + 1;
        }
        proof {
            assert(self.bytes@ =~= zero_bytes(old(self)@.len()));
        }
    }
}

} // verus!
