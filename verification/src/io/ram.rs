//! A block of RAM.

use vstd::prelude::*;

verus! {

/// The byte that fresh RAM holds.
pub const RAM_FILL: u8 = 0xca;

/// A RAM image of fixed size.
pub struct Ram {
    data: Vec<u8>,
}

impl View for Ram {
    type V = Seq<u8>;

    closed spec fn view(&self) -> Seq<u8> {
        self.data@
    }
}

impl Ram {
    /// A RAM of `size` bytes, each holding `RAM_FILL`: what real RAM holds
    /// at power-on is undetermined.
    pub fn new(size: usize) -> (ram: Ram)
        ensures
            ram@.len() == size,
            forall|i: int| 0 <= i < size ==> ram@[i] == RAM_FILL,
    {
        let mut data: Vec<u8> = Vec::new();
        let mut i: usize = 0;
        while i < size
            invariant
                i <= size,
                data@.len() == i,
                forall|k: int| 0 <= k < i ==> data@[k] == RAM_FILL,
            decreases size - i,
        {
            data.push(RAM_FILL);
            i += 1;
        }
        Ram { data }
    }

    /// The number of bytes.
    pub fn len(&self) -> (n: usize)
        ensures
            n == self@.len(),
    {
        self.data.len()
    }

    /// The byte at `offset`.
    pub fn byte(&self, offset: u16) -> (v: u8)
        requires
            offset < self@.len(),
        ensures
            v == self@[offset as int],
    {
        self.data[offset as usize]
    }

    /// Stores `val` at `offset`.
    pub fn set_byte(&mut self, offset: u16, val: u8)
        requires
            offset < old(self)@.len(),
        ensures
            final(self)@ == old(self)@.update(offset as int, val),
    {
        self.data.set(offset as usize, val);
    }
}

} // verus!
