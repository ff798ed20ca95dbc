//! Memory ranges that a process has shared with the kernel.

use vstd::prelude::*;

verus! {

/// A range of a process's memory, given by its first address and its length
/// in bytes. The range may be empty.
#[derive(Clone, Copy, Debug, PartialEq, Eq, Structural)]
pub struct AppSlice {
    pub addr: usize,
    pub size: usize,
}

impl AppSlice {
    /// The range that starts at `addr` and holds `size` bytes.
    pub fn new(addr: usize, size: usize) -> (slice: AppSlice)
        ensures
            slice == (AppSlice { addr, size }),
    {
        AppSlice { addr, size }
    }

    /// The empty range at address zero, which stands for "no buffer".
    pub fn empty() -> (slice: AppSlice)
        ensures
            slice == (AppSlice { addr: 0, size: 0 }),
    {
        AppSlice { addr: 0, size: 0 }
    }

    /// The first address of the range.
    pub fn ptr(&self) -> (addr: usize)
        ensures
            addr == self.addr,
    {
        self.addr
    }

    /// The number of bytes in the range.
    pub fn len(&self) -> (size: usize)
        ensures
            size == self.size,
    {
        self.size
    }

    /// One past the last address of the range, as a mathematical integer.
    pub open spec fn end(&self) -> int {
        self.addr + self.size
    }

}

/// What a process may do with a region of memory.
#[derive(Clone, Copy, Debug, PartialEq, Eq, Structural)]
pub enum Access {
    /// Read and execute, as for its code.
    ReadExecute,
    /// Read and write, as for its data.
    ReadWrite,
}

/// A region of memory that the memory-protection unit opens to a process.
#[derive(Clone, Copy, Debug, PartialEq, Eq, Structural)]
pub struct Region {
    pub start: usize,
    pub size: usize,
    pub access: Access,
}

} // verus!
