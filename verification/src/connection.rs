//! A device mapped at a base address.
//!
//! A connection pins a device to a starting address and answers which
//! addresses fall inside the mapped range.

use crate::device::{ExactSize, Readable, Writable};
use vstd::prelude::*;

verus! {

/// A device together with the address range it occupies.
pub struct Connection<T: ExactSize + Readable + Writable> {
    addr_start: u16,
    device: T,
}

impl<T: ExactSize + Readable + Writable> Connection<T> {
    /// Where the mapped range begins.
    pub closed spec fn spec_start(&self) -> u16 {
        self.addr_start
    }

    /// How many bytes the mapped device holds.
    pub closed spec fn spec_size(&self) -> usize {
        self.device.spec_size()
    }

    /// The mapped device's bytes, as read.
    pub closed spec fn spec_read_view(&self) -> Seq<u8> {
        self.device.read_view()
    }

    /// The mapped device's bytes, as written.
    pub closed spec fn spec_write_view(&self) -> Seq<u8> {
        self.device.write_view()
    }

    pub fn new(device: T, addr_start: u16) -> (r: Connection<T>)
        ensures
            r.spec_start() == addr_start,
            r.spec_size() == device.spec_size(),
            r.spec_read_view() == device.read_view(),
            r.spec_write_view() == device.write_view(),
    {
        Connection { addr_start, device }
    }

    pub fn get_start(&self) -> (r: u16)
        ensures
            r == self.spec_start(),
    {
        self.addr_start
    }

    /// The last address of the mapped range.
    pub fn get_end(&self) -> (r: u16)
        requires
            self.spec_size() >= 1,
            self.spec_start() + self.spec_size() - 1 <= u16::MAX,
        ensures
            r == self.spec_start() + self.spec_size() - 1,
    {
        let end = self.addr_start as usize + self.device.mem_size() - 1;
        end as u16
    }

    /// Whether an address falls inside the mapped range.
    pub fn is_addr_in_range(&self, addr: u16) -> (r: bool)
        requires
            self.spec_size() >= 1,
            self.spec_start() + self.spec_size() - 1 <= u16::MAX,
        ensures
            r == (self.spec_start() <= addr <= self.spec_start() + self.spec_size() - 1),
    {
        addr >= self.get_start() && addr <= self.get_end()
    }

    /// Writes through to the mapped device, which checks the bound itself.
    pub fn write_addr(&mut self, addr: u16, data: u8) -> (r: Result<u8, u16>)
        ensures
            final(self).spec_start() == old(self).spec_start(),
            match r {
                Ok(b) => addr < old(self).spec_write_view().len() && b == data && final(self).spec_write_view() == old(self).spec_write_view().update(addr as int, data),
                Err(e) => addr >= old(self).spec_write_view().len() && e == (old(self).spec_write_view().len() % 0x10000) as u16 && final(self).spec_write_view() == old(self).spec_write_view(),
            },
    {
        self.device.write_addr(addr as usize, data)
    }

    /// Reads through to the mapped device, which checks the bound itself.
    pub fn read_addr(&self, addr: u16) -> (r: Result<u8, u16>)
        ensures
            match r {
                Ok(b) => addr < self.spec_read_view().len() && b == self.spec_read_view()[addr as int],
                Err(e) => addr >= self.spec_read_view().len() && e == (self.spec_read_view().len()
                    % 0x10000) as u16,
            },
    {
        self.device.read_addr(addr as usize)
    }
}

} // verus!
