//! Copying cartridge images onto the bus.
//!
//! A flat image lands at 0x4020 and is cut off at the top of the address
//! space. The NES test-ROM layout skips a 16-byte header and maps the next
//! 16 KiB twice, at 0x8000 and at 0xC000.

use crate::bus::Bus;
use vstd::prelude::*;

verus! {

/// Where a flat cartridge image begins on the bus.
pub const CARTRIDGE_ADDR: u16 = 0x4020;

/// How many bytes of a flat image fit between 0x4020 and 0xFFFF.
pub const FLAT_CAPACITY: usize = 0xBFE0;

/// How many bytes a mirrored test-ROM bank holds.
pub const BANK_SIZE: usize = 0x4000;

/// The number of leading bytes of a flat image that land on the bus.
pub open spec fn flat_count(len: nat) -> nat {
    if len < FLAT_CAPACITY {
        len
    } else {
        FLAT_CAPACITY as nat
    }
}

/// Copies a flat cartridge image onto the bus starting at 0x4020, stopping
/// at the top of the address space; every other cell keeps its byte.
pub fn load_flat(bus: &mut Bus, memory: &Vec<u8>)
    requires
        old(bus).wf(),
    ensures
        final(bus).wf(),
        forall|i: int|
            0 <= i < flat_count(memory@.len()) ==> final(bus)@[CARTRIDGE_ADDR + i] == memory@[i],
        forall|a: int|
            0 <= a < 0x10000 && !(CARTRIDGE_ADDR <= a < CARTRIDGE_ADDR + flat_count(memory@.len()))
                ==> final(bus)@[a] == old(bus)@[a],
{
    let count: usize = if memory.len() < FLAT_CAPACITY {
        memory.len()
    } else {
        FLAT_CAPACITY
    };
    let mut i: usize = 0;
    while i < count
        invariant
            bus.wf(),
            i <= count,
            count == flat_count(memory@.len()),
            count <= memory@.len(),
            forall|j: int| 0 <= j < i ==> bus@[CARTRIDGE_ADDR + j] == memory@[j],
            forall|a: int|
                0 <= a < 0x10000 && !(CARTRIDGE_ADDR <= a < CARTRIDGE_ADDR + i) ==> bus@[a] == old(
                    bus,
                )@[a],
        decreases count - i,
    {
        bus.write_addr(CARTRIDGE_ADDR + (i as u16), memory[i]);
        i = i + 1;
    }
}

/// Copies the NES test-ROM image onto the bus: the 16-byte header is
/// skipped and the next 16 KiB bank lands both at 0x8000 and at 0xC000;
/// everything below 0x8000 keeps its byte.
pub fn load_nestest(bus: &mut Bus, memory: &Vec<u8>)
    requires
        old(bus).wf(),
        memory@.len() >= 0x10 + BANK_SIZE,
    ensures
        final(bus).wf(),
        forall|i: int|
            0 <= i < BANK_SIZE ==> #[trigger] final(bus)@[0x8000 + i] == memory@[0x10 + i],
        forall|i: int|
            0 <= i < BANK_SIZE ==> #[trigger] final(bus)@[0xC000 + i] == memory@[0x10 + i],
        forall|a: int| 0 <= a < 0x8000 ==> #[trigger] final(bus)@[a] == old(bus)@[a],
{
    let mut i: usize = 0;
    while i < BANK_SIZE
        invariant
            bus.wf(),
            i <= BANK_SIZE,
            memory@.len() >= 0x10 + BANK_SIZE,
            forall|j: int| 0 <= j < i ==> #[trigger] bus@[0x8000 + j] == memory@[0x10 + j],
            forall|a: int|
                0 <= a < 0x10000 && !(0x8000 <= a < 0x8000 + i) ==> #[trigger] bus@[a] == old(
                    bus,
                )@[a],
        decreases BANK_SIZE - i,
    {
        bus.write_addr(0x8000 + (i as u16), memory[0x10 + i]);
        i = i + 1;
    }
    let ghost half = bus@;
    let mut i: usize = 0;
    while i < BANK_SIZE
        invariant
            bus.wf(),
            i <= BANK_SIZE,
            memory@.len() >= 0x10 + BANK_SIZE,
            forall|j: int| 0 <= j < i ==> #[trigger] bus@[0xC000 + j] == memory@[0x10 + j],
            forall|a: int|
                0 <= a < 0x10000 && !(0xC000 <= a < 0xC000 + i) ==> #[trigger] bus@[a] == half[a],
        decreases BANK_SIZE - i,
    {
        bus.write_addr(0xC000 + (i as u16), memory[0x10 + i]);
        i = i + 1;
    }
}

} // verus!
