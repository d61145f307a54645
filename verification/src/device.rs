//! A sized byte store with fallible access.
//!
//! Unlike the bus, a device holds an arbitrary amount of memory and reports
//! its size when an access falls outside it.

use crate::bus::MAX_MEMORY;
use vstd::prelude::*;

verus! {

/// A store that knows how many bytes it holds.
pub trait ExactSize {
    /// How many bytes the store holds.
    spec fn spec_size(&self) -> usize;

    fn mem_size(&self) -> (r: usize)
        ensures
            r == self.spec_size(),
    ;
}

/// A store whose bytes can be read by index.
pub trait Readable {
    /// The bytes the store holds, as read.
    spec fn read_view(&self) -> Seq<u8>;

    /// Reads the byte at `addr`, or reports the store's size (folded into
    /// 16 bits) when `addr` falls outside it.
    fn read_addr(&self, addr: usize) -> (r: Result<u8, u16>)
        ensures
            match r {
                Ok(b) => addr < self.read_view().len() && b == self.read_view()[addr as int],
                Err(e) => addr >= self.read_view().len() && e == (self.read_view().len() % 0x10000)
                    as u16,
            },
    ;
}

/// A store whose bytes can be written by index.
pub trait Writable {
    /// The bytes the store holds, as written.
    spec fn write_view(&self) -> Seq<u8>;

    /// Writes the byte at `addr` and hands it back, or reports the store's
    /// size (folded into 16 bits) when `addr` falls outside it.
    fn write_addr(&mut self, addr: usize, data: u8) -> (r: Result<u8, u16>)
        ensures
            match r {
                Ok(b) => addr < old(self).write_view().len() && b == data && final(self).write_view() == old(self).write_view().update(addr as int, data),
                Err(e) => addr >= old(self).write_view().len() && e == (old(self).write_view().len() % 0x10000) as u16 && final(self).write_view() == old(self).write_view(),
            },
    ;
}

/// A byte store of at most 64 KiB.
pub struct Device {
    memory: Vec<u8>,
}

impl View for Device {
    type V = Seq<u8>;

    closed spec fn view(&self) -> Seq<u8> {
        self.memory@
    }
}

impl Device {
    /// Wraps a block of memory no larger than the 16-bit address space.
    pub fn new(memory: Vec<u8>) -> (r: Device)
        requires
            memory@.len() <= MAX_MEMORY,
        ensures
            r@ == memory@,
    {
        Device { memory }
    }
}

impl ExactSize for Device {
    open spec fn spec_size(&self) -> usize {
        self@.len() as usize
    }

    fn mem_size(&self) -> usize {
        self.memory.len()
    }
}

impl Readable for Device {
    open spec fn read_view(&self) -> Seq<u8> {
        self@
    }

    fn read_addr(&self, addr: usize) -> Result<u8, u16> {
        if self.memory.len() > addr {
            Ok(self.memory[addr])
        } else {
            Err((self.memory.len() % 0x10000) as u16)
        }
    }
}

impl Writable for Device {
    open spec fn write_view(&self) -> Seq<u8> {
        self@
    }

    fn write_addr(&mut self, addr: usize, data: u8) -> Result<u8, u16> {
        if self.memory.len() > addr {
            self.memory[addr] = data;
            Ok(data)
        } else {
            Err((self.memory.len() % 0x10000) as u16)
        }
    }
}

} // verus!
