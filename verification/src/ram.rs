//! The machine's memory: a flat store of bytes with bounds-checked access.

use vstd::prelude::*;
use vstd::slice::slice_subrange;
use crate::error::Error;

verus! {

/// Number of addressable cells; valid addresses are `0x000..=0xFFF`.
pub const MEMORY_SIZE: usize = 4096;

/// What a read of `addr` yields on a memory holding `cells`.
pub open spec fn read_spec(cells: Seq<u8>, addr: int) -> Result<u8, Error> {
    if 0 <= addr < cells.len() {
        Ok(cells[addr])
    } else {
        Err(Error::OutOfBounds)
    }
}

/// What a write of `value` to `addr` makes of a memory holding `cells`.
pub open spec fn write_spec(cells: Seq<u8>, addr: int, value: u8) -> Result<Seq<u8>, Error> {
    if 0 <= addr < cells.len() {
        Ok(cells.update(addr, value))
    } else {
        Err(Error::OutOfBounds)
    }
}

/// The `count` bytes of `cells` from `addr` on; `OutOfBounds` where one of
/// them lies outside the cells.
pub open spec fn read_range_spec(cells: Seq<u8>, addr: int, count: int) -> Result<Seq<u8>, Error> {
    if count <= 0 {
        Ok(Seq::empty())
    } else if 0 <= addr && addr + count <= cells.len() {
        Ok(cells.subrange(addr, addr + count))
    } else {
        Err(Error::OutOfBounds)
    }
}

/// A byte written to a valid address is the byte read back from it, and a
/// read of any other address is what it was before the write.
pub proof fn lemma_read_after_write(cells: Seq<u8>, addr: int, value: u8, other: int)
    requires
        0 <= addr < cells.len(),
    ensures
        write_spec(cells, addr, value) matches Ok(written) && {
            &&& read_spec(written, addr) == Ok::<u8, Error>(value)
            &&& other != addr ==> read_spec(written, other) == read_spec(cells, other)
        },
{
}

/// A fixed-size byte store.
pub struct Ram {
    cells: [u8; MEMORY_SIZE],
}

impl View for Ram {
    type V = Seq<u8>;

    closed spec fn view(&self) -> Seq<u8> {
        self.cells@
    }
}

impl Ram {
    /// Every memory has `MEMORY_SIZE` cells.
    pub proof fn lemma_size(&self)
        ensures
            self@.len() == MEMORY_SIZE,
    {
    }

    /// A memory with every cell zero.
    pub fn new() -> (ram: Ram)
        ensures
            ram@.len() == MEMORY_SIZE,
            forall|a: int| 0 <= a < MEMORY_SIZE ==> ram@[a] == 0,
    {
        Ram { cells: [0u8; MEMORY_SIZE] }
    }

    /// Reads the byte at `addr`.
    pub fn read_byte(&self, addr: u16) -> (result: Result<u8, Error>)
        ensures
            result == read_spec(self@, addr as int),
    {
        if (addr as usize) < MEMORY_SIZE {
            Ok(self.cells[addr as usize])
        } else {
            Err(Error::OutOfBounds)
        }
    }

    /// Borrows the `count` bytes from `addr` on. An empty range reads
    /// nothing and so lies inside the memory wherever it starts.
    pub fn read_range(&self, addr: u16, count: u8) -> (result: Result<&[u8], Error>)
        ensures
            match read_range_spec(self@, addr as int, count as int) {
                Ok(bytes) => result is Ok && result->Ok_0@ == bytes,
                Err(e) => result == Err::<&[u8], Error>(e),
            },
    {
        let cells: &[u8] = self.cells.as_slice();
        if count == 0 {
            Ok(slice_subrange(cells, 0, 0))
        } else if addr as usize + count as usize <= MEMORY_SIZE {
            Ok(slice_subrange(cells, addr as usize, addr as usize + count as usize))
        } else {
            Err(Error::OutOfBounds)
        }
    }

    /// Writes `value` to the cell at `addr`; no other cell changes.
    pub fn write_byte(&mut self, addr: u16, value: u8) -> (result: Result<(), Error>)
        ensures
            match write_spec(old(self)@, addr as int, value) {
                Ok(cells) => result == Ok::<(), Error>(()) && final(self)@ == cells,
                Err(e) => result == Err::<(), Error>(e) && final(self)@ == old(self)@,
            },
    {
        if (addr as usize) < MEMORY_SIZE {
            self.cells[addr as usize] = value;
            Ok(())
        } else {
            Err(Error::OutOfBounds)
        }
    }
}

} // verus!
