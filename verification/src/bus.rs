//! The flat 16-bit memory bus.
//!
//! A bus is 64 KiB of byte-addressable storage with no mirroring, banking or
//! memory-mapped dispatch: the map from address to cell is the identity.

use crate::data_flow::{HexSlice, ReadRange, ReadWrite};
use vstd::prelude::*;

verus! {

/// How many bytes the bus addresses: every 16-bit address is valid.
pub const MAX_MEMORY: usize = 0x10000;

/// The flat 64 KiB memory that the processor reads and writes.
pub struct Bus {
    ram: Vec<u8>,
}

impl View for Bus {
    type V = Seq<u8>;

    closed spec fn view(&self) -> Seq<u8> {
        self.ram@
    }
}

impl Bus {
    /// A bus is well formed when it holds exactly one byte per 16-bit address.
    pub open spec fn wf(&self) -> bool {
        self@.len() == MAX_MEMORY
    }

    /// A fresh bus, all cells zero.
    pub fn new() -> (r: Bus)
        ensures
            r.wf(),
            forall|a: int| 0 <= a < MAX_MEMORY ==> r@[a] == 0u8,
    {
        let mut ram: Vec<u8> = Vec::new();
        let mut i: usize = 0;
        while i < MAX_MEMORY
            invariant
                i == ram@.len(),
                i <= MAX_MEMORY,
                forall|a: int| 0 <= a < i ==> ram@[a] == 0u8,
            decreases MAX_MEMORY - i,
        {
            ram.push(0);
            i = i + 1;
        }
        Bus { ram }
    }

    /// Stores one byte; total over the whole address space.
    pub fn write_addr(&mut self, addr: u16, data: u8)
        requires
            old(self).wf(),
        ensures
            final(self).wf(),
            final(self)@ == old(self)@.update(addr as int, data),
    {
        self.ram[addr as usize] = data;
    }

    /// Loads one byte; total over the whole address space.
    pub fn read_addr(&self, addr: u16) -> (r: u8)
        requires
            self.wf(),
        ensures
            r == self@[addr as int],
    {
        self.ram[addr as usize]
    }

    /// Copies the inclusive range of bytes `addr_start ..= addr_end` for rendering.
    pub fn read_range(&self, addr_start: u16, addr_end: u16) -> (r: HexSlice)
        requires
            self.wf(),
            addr_start <= addr_end,
        ensures
            r@ == self@.subrange(addr_start as int, addr_end + 1),
    {
        let mut data: Vec<u8> = Vec::new();
        let mut a: usize = addr_start as usize;
        let end: usize = addr_end as usize;
        while a <= end
            invariant
                self.wf(),
                addr_start <= a,
                a <= end + 1,
                end == addr_end as usize,
                end < MAX_MEMORY,
                data@ =~= self@.subrange(addr_start as int, a as int),
            decreases end + 1 - a,
        {
            data.push(self.ram[a]);
            a = a + 1;
        }
        HexSlice::new(data.as_slice())
    }
}

impl ReadWrite for Bus {
    open spec fn access_req(&self) -> bool {
        self.wf()
    }

    fn read_addr(&self, addr: u16) -> u8 {
        self.read_addr(addr)
    }

    fn write_addr(&mut self, addr: u16, data: u8) {
        self.write_addr(addr, data)
    }
}

impl ReadRange for Bus {
    open spec fn range_req(&self, addr_start: u16, addr_end: u16) -> bool {
        self.wf() && addr_start <= addr_end
    }

    fn read_range(&self, addr_start: u16, addr_end: u16) -> HexSlice {
        self.read_range(addr_start, addr_end)
    }
}

/// Writing a byte and reading it back at the same address yields that byte,
/// for every address and every byte.
pub proof fn lemma_write_then_read(m: Seq<u8>, addr: u16, data: u8)
    requires
        m.len() == MAX_MEMORY,
    ensures
        m.update(addr as int, data)[addr as int] == data,
{
}

} // verus!
