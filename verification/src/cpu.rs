//! The 6502 processor.
//!
//! The processor owns its bus and advances one emulated cycle per call of
//! [`Cpu::clock`]: when no cycles are owed it fetches an opcode, resolves the
//! operand address for the addressing mode, executes the operation and seeds
//! the cycle budget; otherwise it only counts the cycle down. The whole
//! transition is pinned by the spec functions in this module, which operate
//! on the mathematical state [`CpuView`].

pub mod instruction;
pub mod laws;

use crate::bus::{Bus, MAX_MEMORY};
use crate::data_flow::ReadWrite;
use crate::cpu::instruction::{get_instruction, spec_decode, AddressMode, Operation};
use vstd::prelude::*;

verus! {

/// Base of the stack page: the stack lives at `0x0100 + SP`.
pub const STACK_BASE_ADDR: u16 = 0x0100;

/// The reset vector: the word here seeds the program counter.
pub const RESET_ADDRESS: u16 = 0xFFFC;

/// The interrupt-request / break vector.
pub const BRK_ADDR_BEGIN: u16 = 0xFFFE;

/// The non-maskable-interrupt vector.
pub const NMI_ADDR_BEGIN: u16 = 0xFFFA;

/// Carry flag: bit 0 of the status byte.
pub const MASK_C: u8 = 0x01;

/// Zero flag: bit 1 of the status byte.
pub const MASK_Z: u8 = 0x02;

/// Interrupt-disable flag: bit 2 of the status byte.
pub const MASK_I: u8 = 0x04;

/// Decimal flag: bit 3 of the status byte.
pub const MASK_D: u8 = 0x08;

/// Break flag: bit 4 of the status byte.
pub const MASK_B: u8 = 0x10;

/// Unused flag: bit 5 of the status byte, conventionally 1.
pub const MASK_U: u8 = 0x20;

/// Overflow flag: bit 6 of the status byte.
pub const MASK_V: u8 = 0x40;

/// Negative flag: bit 7 of the status byte.
pub const MASK_N: u8 = 0x80;

/// The one-based bit number of each flag letter, or 0 for any other character.
pub open spec fn spec_flag_from_char(flag: char) -> u8 {
    match flag {
        'C' => 1,
        'Z' => 2,
        'I' => 3,
        'D' => 4,
        'B' => 5,
        'U' => 6,
        'V' => 7,
        'N' => 8,
        _ => 0,
    }
}

/// The status-byte mask of each flag letter, or 0 for any other character.
pub open spec fn flag_mask(flag: char) -> u8 {
    match flag {
        'C' => MASK_C,
        'Z' => MASK_Z,
        'I' => MASK_I,
        'D' => MASK_D,
        'B' => MASK_B,
        'U' => MASK_U,
        'V' => MASK_V,
        'N' => MASK_N,
        _ => 0,
    }
}

/// The status-byte mask of a one-based bit number in 1 ..= 8.
pub open spec fn mask_of_num(num: u8) -> u8 {
    match num {
        1 => MASK_C,
        2 => MASK_Z,
        3 => MASK_I,
        4 => MASK_D,
        5 => MASK_B,
        6 => MASK_U,
        7 => MASK_V,
        8 => MASK_N,
        _ => 0,
    }
}

/// The status byte with the masked flag forced to the given value.
pub open spec fn flag_set_to(p: u8, mask: u8, value: bool) -> u8 {
    if value {
        p | mask
    } else {
        p & !mask
    }
}

/// Whether the masked flag is set in the status byte.
pub open spec fn flag_is(p: u8, mask: u8) -> bool {
    p & mask != 0
}

/// What the flag letter reads from a status byte: false for unknown letters.
pub open spec fn spec_get_flag(p: u8, flag: char) -> bool {
    spec_flag_from_char(flag) != 0 && flag_is(p, flag_mask(flag))
}

/// The 16-bit word assembled from a low and a high byte.
pub open spec fn word(lo: u8, hi: u8) -> u16 {
    ((hi as int) * 256 + (lo as int)) as u16
}

/// The mathematical state of the processor: its registers, bookkeeping
/// counters and the full contents of the bus.
#[verifier::ext_equal]
pub struct CpuView {
    /// Accumulator.
    pub acc: u8,
    /// Index register X.
    pub x: u8,
    /// Index register Y.
    pub y: u8,
    /// Stack pointer: an offset within page 1.
    pub stkp: u8,
    /// Program counter.
    pub pc: u16,
    /// Status flags.
    pub status: u8,
    /// Total clock ticks observed.
    pub current_tick: usize,
    /// Cycles still owed for the in-flight instruction.
    pub cycles: u8,
    /// The opcode of the last decoded instruction.
    pub opcode: u8,
    /// The operand address the last instruction resolved.
    pub addr_of_data: u16,
    /// The program counter at the start of the last instruction.
    pub ppc: u16,
    /// The bytes on the bus.
    pub mem: Seq<u8>,
}

impl CpuView {
    /// A state is well formed when its bus holds one byte per 16-bit address.
    pub open spec fn wf(self) -> bool {
        self.mem.len() == MAX_MEMORY
    }
}

/// The state after a push: the byte lands at `0x0100 + SP` and the stack
/// pointer moves down, wrapping within the page.
pub open spec fn spec_push(s: CpuView, data: u8) -> CpuView {
    CpuView {
        mem: s.mem.update(STACK_BASE_ADDR + s.stkp as int, data),
        stkp: s.stkp.wrapping_sub(1),
        ..s
    }
}

/// The state and byte of a pop: the stack pointer moves up, wrapping within
/// the page, and the byte at the new offset comes back.
pub open spec fn spec_pop(s: CpuView) -> (CpuView, u8) {
    let sp = s.stkp.wrapping_add(1);
    (CpuView { stkp: sp, ..s }, s.mem[STACK_BASE_ADDR + sp as int])
}

/// The little-endian word at an address; the high byte wraps at the top of
/// the address space.
pub open spec fn spec_word_at(s: CpuView, addr: u16) -> u16 {
    word(s.mem[addr as int], s.mem[addr.wrapping_add(1) as int])
}

/// The 6502 processor: its six architectural registers, the status byte,
/// the cycle bookkeeping, the last-instruction introspection fields, and
/// the bus it exclusively owns.
pub struct Cpu {
    bus: Bus,
    acc: u8,
    x: u8,
    y: u8,
    stkp: u8,
    pc: u16,
    status: u8,
    current_tick: usize,
    cycles: u8,
    opcode: u8,
    addr_of_data: u16,
    ppc: u16,
}

impl View for Cpu {
    type V = CpuView;

    closed spec fn view(&self) -> CpuView {
        CpuView {
            acc: self.acc,
            x: self.x,
            y: self.y,
            stkp: self.stkp,
            pc: self.pc,
            status: self.status,
            current_tick: self.current_tick,
            cycles: self.cycles,
            opcode: self.opcode,
            addr_of_data: self.addr_of_data,
            ppc: self.ppc,
            mem: self.bus@,
        }
    }
}

/// The one-based bit number of a flag letter: C is 1 up to N at 8, and any
/// other character maps to 0.
pub fn flag_from_char(flag: char) -> (r: u8)
    ensures
        r == spec_flag_from_char(flag),
{
    match flag {
        'C' => 1,
        'Z' => 2,
        'I' => 3,
        'D' => 4,
        'B' => 5,
        'U' => 6,
        'V' => 7,
        'N' => 8,
        _ => 0,
    }
}

/// The status mask of a one-based flag bit number.
fn mask_from_num(num: u8) -> (r: u8)
    ensures
        r == mask_of_num(num),
{
    match num {
        1 => MASK_C,
        2 => MASK_Z,
        3 => MASK_I,
        4 => MASK_D,
        5 => MASK_B,
        6 => MASK_U,
        7 => MASK_V,
        8 => MASK_N,
        _ => 0,
    }
}

impl Cpu {
    /// A processor is well formed when its bus is.
    pub open spec fn wf(&self) -> bool {
        self@.wf()
    }

    /// A fresh processor: registers clear, stack pointer at 0xFD, program
    /// counter parked on the reset vector, memory all zero.
    pub fn new() -> (r: Cpu)
        ensures
            r.wf(),
            r@.acc == 0,
            r@.x == 0,
            r@.y == 0,
            r@.stkp == 0xFD,
            r@.pc == RESET_ADDRESS,
            r@.status == 0,
            r@.current_tick == 0,
            r@.cycles == 0,
            r@.opcode == 0,
            r@.addr_of_data == 0,
            r@.ppc == RESET_ADDRESS,
            forall|a: int| 0 <= a < MAX_MEMORY ==> r@.mem[a] == 0u8,
    {
        Cpu {
            bus: Bus::new(),
            acc: 0x00,
            x: 0x00,
            y: 0x00,
            stkp: 0xFD,
            pc: RESET_ADDRESS,
            status: 0x00,
            current_tick: 0,
            cycles: 0x00,
            opcode: 0x00,
            addr_of_data: 0x0000,
            ppc: RESET_ADDRESS,
        }
    }

    /// A processor wired to an already-loaded bus.
    pub fn new_with_bus(bus: Bus) -> (r: Cpu)
        requires
            bus.wf(),
        ensures
            r.wf(),
            r@.acc == 0,
            r@.x == 0,
            r@.y == 0,
            r@.stkp == 0xFD,
            r@.pc == RESET_ADDRESS,
            r@.status == 0,
            r@.current_tick == 0,
            r@.cycles == 0,
            r@.opcode == 0,
            r@.addr_of_data == 0,
            r@.ppc == RESET_ADDRESS,
            r@.mem == bus@,
    {
        Cpu {
            bus,
            acc: 0x00,
            x: 0x00,
            y: 0x00,
            stkp: 0xFD,
            pc: RESET_ADDRESS,
            status: 0x00,
            current_tick: 0,
            cycles: 0x00,
            opcode: 0x00,
            addr_of_data: 0x0000,
            ppc: RESET_ADDRESS,
        }
    }

    /// A processor with every register chosen by the caller.
    pub fn new_with_values(
        acc: u8,
        x: u8,
        y: u8,
        stkp: u8,
        pc: u16,
        status: u8,
        bus: Bus,
    ) -> (r: Cpu)
        requires
            bus.wf(),
        ensures
            r.wf(),
            r@.acc == acc,
            r@.x == x,
            r@.y == y,
            r@.stkp == stkp,
            r@.pc == pc,
            r@.status == status,
            r@.current_tick == 0,
            r@.cycles == 0,
            r@.opcode == 0,
            r@.addr_of_data == 0,
            r@.ppc == pc,
            r@.mem == bus@,
    {
        Cpu {
            bus,
            acc,
            x,
            y,
            stkp,
            pc,
            status,
            current_tick: 0,
            cycles: 0x00,
            opcode: 0x00,
            addr_of_data: 0x0000,
            ppc: pc,
        }
    }

    pub fn get_acc(&self) -> (r: u8)
        ensures
            r == self@.acc,
    {
        self.acc
    }

    pub fn get_x(&self) -> (r: u8)
        ensures
            r == self@.x,
    {
        self.x
    }

    pub fn get_y(&self) -> (r: u8)
        ensures
            r == self@.y,
    {
        self.y
    }

    pub fn get_stkp(&self) -> (r: u8)
        ensures
            r == self@.stkp,
    {
        self.stkp
    }

    pub fn get_pc(&self) -> (r: u16)
        ensures
            r == self@.pc,
    {
        self.pc
    }

    pub fn get_status(&self) -> (r: u8)
        ensures
            r == self@.status,
    {
        self.status
    }

    pub fn get_current_tick(&self) -> (r: usize)
        ensures
            r == self@.current_tick,
    {
        self.current_tick
    }

    pub fn get_cycles(&self) -> (r: u8)
        ensures
            r == self@.cycles,
    {
        self.cycles
    }

    pub fn get_opcode(&self) -> (r: u8)
        ensures
            r == self@.opcode,
    {
        self.opcode
    }

    pub fn get_addr_of_data(&self) -> (r: u16)
        ensures
            r == self@.addr_of_data,
    {
        self.addr_of_data
    }

    pub fn get_ppc(&self) -> (r: u16)
        ensures
            r == self@.ppc,
    {
        self.ppc
    }

    pub fn set_acc(&mut self, val: u8)
        ensures
            final(self)@ == (CpuView { acc: val, ..old(self)@ }),
    {
        self.acc = val;
    }

    pub fn set_x(&mut self, val: u8)
        ensures
            final(self)@ == (CpuView { x: val, ..old(self)@ }),
    {
        self.x = val;
    }

    pub fn set_y(&mut self, val: u8)
        ensures
            final(self)@ == (CpuView { y: val, ..old(self)@ }),
    {
        self.y = val;
    }

    pub fn set_stkp(&mut self, val: u8)
        ensures
            final(self)@ == (CpuView { stkp: val, ..old(self)@ }),
    {
        self.stkp = val;
    }

    pub fn set_pc(&mut self, val: u16)
        ensures
            final(self)@ == (CpuView { pc: val, ..old(self)@ }),
    {
        self.pc = val;
    }

    pub fn set_status(&mut self, val: u8)
        ensures
            final(self)@ == (CpuView { status: val, ..old(self)@ }),
    {
        self.status = val;
    }

    pub fn set_opcode(&mut self, val: u8)
        ensures
            final(self)@ == (CpuView { opcode: val, ..old(self)@ }),
    {
        self.opcode = val;
    }

    /// A read-only borrow of the bus, for rendering.
    pub fn get_bus_ref(&self) -> (r: &Bus)
        ensures
            r@ == self@.mem,
            r.wf() == self.wf(),
    {
        &self.bus
    }

    /// A mutable borrow of the bus, for loading a cartridge in place.
    pub fn get_mut_bus_ref(&mut self) -> (r: &mut Bus)
        ensures
            r@ == old(self)@.mem,
            final(self)@ == (CpuView { mem: final(r)@, ..old(self)@ }),
    {
        &mut self.bus
    }

    /// Swaps in another bus, keeping every register as it is.
    pub fn replace_bus(&mut self, bus: Bus)
        requires
            bus.wf(),
        ensures
            final(self)@ == (CpuView { mem: bus@, ..old(self)@ }),
    {
        self.bus = bus;
    }

    /// Whether the in-flight instruction has used up its cycle budget.
    pub fn is_cycle_complete(&self) -> (r: bool)
        ensures
            r == (self@.cycles == 0),
    {
        self.cycles == 0
    }

    /// Reads the flag named by a letter of `C Z I D B U V N`; any other
    /// character reads as false.
    pub fn get_flag(&self, flag: char) -> (r: bool)
        ensures
            r == spec_get_flag(self@.status, flag),
    {
        let flag_val = flag_from_char(flag);
        if 1 <= flag_val && flag_val <= 8 {
            let mask = mask_from_num(flag_val);
            proof {
                assert(mask == flag_mask(flag));
            }
            (self.status & mask) != 0
        } else {
            false
        }
    }

    /// Forces the numbered flag bit to 1.
    fn set_flag_true(&mut self, flag: u8)
        requires
            1 <= flag <= 8,
        ensures
            final(self)@ == (CpuView {
                status: old(self)@.status | mask_of_num(flag),
                ..old(self)@
            }),
    {
        let mask = mask_from_num(flag);
        self.status = self.status | mask;
    }

    /// Forces the numbered flag bit to 0.
    fn set_flag_false(&mut self, flag: u8)
        requires
            1 <= flag <= 8,
        ensures
            final(self)@ == (CpuView {
                status: old(self)@.status & !mask_of_num(flag),
                ..old(self)@
            }),
    {
        let mask = mask_from_num(flag);
        self.status = self.status & !mask;
    }

    /// Sets the lettered flag to 0 or 1; any other value or letter changes
    /// nothing.
    fn set_flag(&mut self, flag: char, value: u8)
        ensures
            final(self)@ == (CpuView {
                status: if spec_flag_from_char(flag) != 0 && value <= 1 {
                    flag_set_to(old(self)@.status, flag_mask(flag), value == 1)
                } else {
                    old(self)@.status
                },
                ..old(self)@
            }),
    {
        let flag_val = flag_from_char(flag);
        if 1 <= flag_val && flag_val <= 8 {
            proof {
                assert(mask_of_num(spec_flag_from_char(flag)) == flag_mask(flag));
            }
            if value == 0 {
                self.set_flag_false(flag_val);
            } else if value == 1 {
                self.set_flag_true(flag_val);
            }
        }
    }

    /// Sets the lettered flag from a boolean.
    pub fn set_flag_with_bool(&mut self, flag: char, value: bool)
        requires
            spec_flag_from_char(flag) != 0,
        ensures
            final(self)@ == (CpuView {
                status: flag_set_to(old(self)@.status, flag_mask(flag), value),
                ..old(self)@
            }),
    {
        let flag_val = flag_from_char(flag);
        proof {
            assert(mask_of_num(spec_flag_from_char(flag)) == flag_mask(flag));
        }
        match value {
            false => self.set_flag_false(flag_val),
            true => self.set_flag_true(flag_val),
        }
    }

    /// Reads one byte off the bus.
    pub fn read_addr(&self, addr: u16) -> (r: u8)
        requires
            self.wf(),
        ensures
            r == self@.mem[addr as int],
    {
        self.bus.read_addr(addr)
    }

    /// Writes one byte onto the bus.
    pub fn write_addr(&mut self, addr: u16, data: u8)
        requires
            old(self).wf(),
        ensures
            final(self)@ == (CpuView {
                mem: old(self)@.mem.update(addr as int, data),
                ..old(self)@
            }),
    {
        self.bus.write_addr(addr, data);
    }

    /// Pushes one byte: the stack descends through page 1 and wraps there.
    pub fn stack_push(&mut self, data: u8)
        requires
            old(self).wf(),
        ensures
            final(self)@ == spec_push(old(self)@, data),
    {
        self.write_addr(STACK_BASE_ADDR + (self.stkp as u16), data);
        self.stkp = self.stkp.wrapping_sub(1);
    }

    /// Pops one byte: the stack ascends through page 1 and wraps there.
    pub fn stack_pop(&mut self) -> (r: u8)
        requires
            old(self).wf(),
        ensures
            final(self)@ == spec_pop(old(self)@).0,
            r == spec_pop(old(self)@).1,
    {
        self.stkp = self.stkp.wrapping_add(1);
        self.read_addr(STACK_BASE_ADDR + (self.stkp as u16))
    }

    /// Pushes the program counter, high byte first.
    fn push_pc_to_stack(&mut self)
        requires
            old(self).wf(),
        ensures
            final(self)@ == spec_push(spec_push(old(self)@, (old(self)@.pc / 256) as u8), (old(
                self,
            )@.pc % 256) as u8),
    {
        let hi = (self.pc / 256) as u8;
        let lo = (self.pc % 256) as u8;
        self.stack_push(hi);
        self.stack_push(lo);
    }

    /// Pops a word, low byte first.
    fn pop_address_from_stack(&mut self) -> (r: u16)
        requires
            old(self).wf(),
        ensures
            final(self)@ == spec_pop(spec_pop(old(self)@).0).0,
            r == word(spec_pop(old(self)@).1, spec_pop(spec_pop(old(self)@).0).1),
    {
        let lo = self.stack_pop();
        let hi = self.stack_pop();
        (hi as u16) * 256 + (lo as u16)
    }

    /// Reads the byte under the program counter and moves past it.
    fn read_pc_addr(&mut self) -> (r: u8)
        requires
            old(self).wf(),
        ensures
            final(self)@ == (CpuView { pc: old(self)@.pc.wrapping_add(1), ..old(self)@ }),
            r == old(self)@.mem[old(self)@.pc as int],
    {
        let result = self.read_addr(self.pc);
        self.pc = self.pc.wrapping_add(1);
        result
    }

    /// Reads the little-endian word under the program counter and moves past
    /// both bytes.
    fn get_byte_at_pc(&mut self) -> (r: u16)
        requires
            old(self).wf(),
        ensures
            final(self)@ == (CpuView {
                pc: old(self)@.pc.wrapping_add(1).wrapping_add(1),
                ..old(self)@
            }),
            r == word(
                old(self)@.mem[old(self)@.pc as int],
                old(self)@.mem[old(self)@.pc.wrapping_add(1) as int],
            ),
    {
        let lo = self.read_pc_addr();
        let hi = self.read_pc_addr();
        (hi as u16) * 256 + (lo as u16)
    }

    /// Reads the little-endian word at an address; the high byte wraps at
    /// the top of the address space.
    fn read_addr_from(&self, addr: u16) -> (r: u16)
        requires
            self.wf(),
        ensures
            r == spec_word_at(self@, addr),
    {
        let lo = self.read_addr(addr);
        let hi = self.read_addr(addr.wrapping_add(1));
        (hi as u16) * 256 + (lo as u16)
    }
}

/// The state and operand address that resolving an addressing mode yields:
/// operand bytes are consumed from the program counter, and the modes with a
/// page-cross penalty may add one owed cycle. Modes without a memory operand
/// resolve to the sentinel address 0.
#[verifier::opaque]
pub open spec fn spec_resolve(s: CpuView, mode: AddressMode) -> (CpuView, u16) {
    match mode {
        AddressMode::Absolute => {
            let ptr = word(s.mem[s.pc as int], s.mem[s.pc.wrapping_add(1) as int]);
            (CpuView { pc: s.pc.wrapping_add(1).wrapping_add(1), ..s }, ptr)
        },
        AddressMode::AbsoluteIndirect => {
            let ptr = word(s.mem[s.pc as int], s.mem[s.pc.wrapping_add(1) as int]);
            let t = CpuView { pc: s.pc.wrapping_add(1).wrapping_add(1), ..s };
            if ptr % 256 == 0xFF {
                let page = (ptr / 256) * 256;
                (t, word(s.mem[ptr as int], s.mem[page as int]))
            } else {
                (t, word(s.mem[ptr as int], s.mem[ptr + 1]))
            }
        },
        AddressMode::AbsoluteX => {
            let addr = word(s.mem[s.pc as int], s.mem[s.pc.wrapping_add(1) as int]);
            let offset_addr = addr.wrapping_add(s.x as u16);
            let t = CpuView { pc: s.pc.wrapping_add(1).wrapping_add(1), ..s };
            if offset_addr / 256 != addr / 256 {
                (CpuView { cycles: t.cycles.wrapping_add(1), ..t }, offset_addr)
            } else {
                (t, offset_addr)
            }
        },
        AddressMode::AbsoluteY => {
            let addr = word(s.mem[s.pc as int], s.mem[s.pc.wrapping_add(1) as int]);
            let offset_addr = addr.wrapping_add(s.y as u16);
            let t = CpuView { pc: s.pc.wrapping_add(1).wrapping_add(1), ..s };
            if offset_addr / 256 != addr / 256 {
                (CpuView { cycles: t.cycles.wrapping_add(1), ..t }, offset_addr)
            } else {
                (t, offset_addr)
            }
        },
        AddressMode::Accumulator => (s, 0),
        AddressMode::Immediate => (s, s.pc),
        AddressMode::Implied => (s, 0),
        AddressMode::IndirectX => {
            let offset = s.mem[s.pc as int];
            let zero_ptr = s.x.wrapping_add(offset);
            let lo = s.mem[zero_ptr as int];
            let hi = s.mem[zero_ptr.wrapping_add(1) as int];
            (CpuView { pc: s.pc.wrapping_add(1), ..s }, word(lo, hi))
        },
        AddressMode::IndirectY => {
            let zero_ptr = s.mem[s.pc as int];
            let lo = s.mem[zero_ptr as int];
            let hi = s.mem[zero_ptr.wrapping_add(1) as int];
            let addr = word(lo, hi);
            let offset_addr = addr.wrapping_add(s.y as u16);
            let t = CpuView { pc: s.pc.wrapping_add(1), ..s };
            if offset_addr / 256 != addr / 256 {
                (CpuView { cycles: t.cycles.wrapping_add(1), ..t }, offset_addr)
            } else {
                (t, offset_addr)
            }
        },
        AddressMode::Relative => {
            let offset = s.mem[s.pc as int];
            let pc1 = s.pc.wrapping_add(1);
            let offset16: u16 = if offset >= 0x80 {
                (0xFF00 + offset as int) as u16
            } else {
                offset as u16
            };
            (CpuView { pc: pc1, ..s }, pc1.wrapping_add(offset16))
        },
        AddressMode::ZeroPage => {
            (CpuView { pc: s.pc.wrapping_add(1), ..s }, s.mem[s.pc as int] as u16)
        },
        AddressMode::ZeroPageX => {
            let b = s.mem[s.pc as int];
            (CpuView { pc: s.pc.wrapping_add(1), ..s }, s.x.wrapping_add(b) as u16)
        },
        AddressMode::ZeroPageY => {
            let b = s.mem[s.pc as int];
            (CpuView { pc: s.pc.wrapping_add(1), ..s }, s.y.wrapping_add(b) as u16)
        },
        AddressMode::XXX => (s, 0),
    }
}

impl Cpu {
    /// Resolves the operand address for one addressing mode, consuming the
    /// operand bytes at the program counter and charging any page-cross
    /// penalty to the cycle budget.
    #[verifier::rlimit(60)]
    pub fn get_data_ptr(&mut self, addressing_mode: &AddressMode) -> (r: u16)
        requires
            old(self).wf(),
        ensures
            final(self).wf(),
            final(self)@ == spec_resolve(old(self)@, *addressing_mode).0,
            r == spec_resolve(old(self)@, *addressing_mode).1,
    {
        proof {
            reveal(spec_resolve);
        }
        let r = match addressing_mode {
            AddressMode::Absolute => self.get_byte_at_pc(),
            AddressMode::AbsoluteIndirect => {
                // The word at the program counter points at the address to
                // jump through.
                let ptr = self.get_byte_at_pc();
                if ptr % 256 == 0xFF {
                    // The hardware page-boundary bug: the high byte comes
                    // from the start of the pointer's own page, not from the
                    // next page.
                    let lo_pc_addr = self.read_addr(ptr);
                    let hi_pc_addr = self.read_addr((ptr / 256) * 256);
                    (hi_pc_addr as u16) * 256 + (lo_pc_addr as u16)
                } else {
                    let lo_pc_addr = self.read_addr(ptr);
                    let hi_pc_addr = self.read_addr(ptr + 1);
                    (hi_pc_addr as u16) * 256 + (lo_pc_addr as u16)
                }
            },
            AddressMode::AbsoluteX => {
                let addr = self.get_byte_at_pc();
                let offset_addr = addr.wrapping_add(self.x as u16);
                if offset_addr / 256 != addr / 256 {
                    self.cycles = self.cycles.wrapping_add(1);
                }
                offset_addr
            },
            AddressMode::AbsoluteY => {
                let addr = self.get_byte_at_pc();
                let offset_addr = addr.wrapping_add(self.y as u16);
                if offset_addr / 256 != addr / 256 {
                    self.cycles = self.cycles.wrapping_add(1);
                }
                offset_addr
            },
            AddressMode::Accumulator => 0x0000,
            AddressMode::Immediate => self.pc,
            AddressMode::Implied => 0x0000,
            AddressMode::IndirectX => {
                let offset = self.read_pc_addr();
                let zero_ptr = self.x.wrapping_add(offset);
                let lo = self.read_addr(zero_ptr as u16);
                let hi = self.read_addr(zero_ptr.wrapping_add(1) as u16);
                (hi as u16) * 256 + (lo as u16)
            },
            AddressMode::IndirectY => {
                let zero_ptr = self.read_pc_addr();
                let lo = self.read_addr(zero_ptr as u16);
                let hi = self.read_addr(zero_ptr.wrapping_add(1) as u16);
                let addr = (hi as u16) * 256 + (lo as u16);
                let offset_addr = addr.wrapping_add(self.y as u16);
                if offset_addr / 256 != addr / 256 {
                    self.cycles = self.cycles.wrapping_add(1);
                }
                offset_addr
            },
            AddressMode::Relative => {
                let offset = self.read_pc_addr();
                // Sign-extend the offset so that plain 16-bit addition moves
                // the program counter backwards for negative offsets.
                let offset16: u16 = if offset >= 0x80 {
                    0xFF00 + (offset as u16)
                } else {
                    offset as u16
                };
                self.pc.wrapping_add(offset16)
            },
            AddressMode::ZeroPage => self.read_pc_addr() as u16,
            AddressMode::ZeroPageX => {
                let b = self.read_pc_addr();
                self.x.wrapping_add(b) as u16
            },
            AddressMode::ZeroPageY => {
                let b = self.read_pc_addr();
                self.y.wrapping_add(b) as u16
            },
            AddressMode::XXX => 0x0000,
        };
        proof {
            assert(self@ =~= spec_resolve(old(self)@, *addressing_mode).0);
        }
        r
    }
}

/// The state after a taken branch: one cycle for branching, one more when
/// the destination lies on another page than the program counter.
pub open spec fn spec_branch(s: CpuView, dest: u16) -> CpuView {
    let c1 = s.cycles.wrapping_add(1);
    let c2 = if dest / 256 != s.pc / 256 {
        c1.wrapping_add(1)
    } else {
        c1
    };
    CpuView { cycles: c2, pc: dest, ..s }
}

/// The state after adding a byte and the carry into the accumulator: the
/// 16-bit sum sets carry past 0xFF, zero and negative from its low byte, and
/// overflow when two like-signed operands produce the other sign.
pub open spec fn spec_adc(s: CpuView, data: u8) -> CpuView {
    let carry: u16 = if flag_is(s.status, MASK_C) {
        1
    } else {
        0
    };
    let sum: u16 = (s.acc + data + carry) as u16;
    let p1 = flag_set_to(s.status, MASK_C, sum > 0xFF);
    let p2 = flag_set_to(p1, MASK_Z, sum % 256 == 0);
    let p3 = flag_set_to(
        p2,
        MASK_V,
        ((s.acc as u16 ^ sum) & !(s.acc as u16 ^ data as u16)) & 0x0080 != 0,
    );
    let p4 = flag_set_to(p3, MASK_N, sum & 0x0080 != 0);
    CpuView { acc: (sum % 256) as u8, status: p4, ..s }
}

/// The state after one operation, before the immediate-mode adjustment of
/// the program counter. `ptr` is the resolved operand address and the data
/// byte is read from it.
#[verifier::opaque]
pub open spec fn spec_execute(
    s: CpuView,
    ptr: u16,
    operation: Operation,
    address_mode: AddressMode,
) -> CpuView {
    let data = s.mem[ptr as int];
    match operation {
        Operation::ADC => spec_adc(s, data),
        Operation::AND => {
            let result = s.acc & data;
            let p1 = flag_set_to(s.status, MASK_Z, result == 0);
            let p2 = flag_set_to(p1, MASK_N, result & 0x80 != 0);
            CpuView { acc: result, status: p2, ..s }
        },
        Operation::ASL => {
            match address_mode {
                AddressMode::Accumulator => {
                    let result = s.acc << 1;
                    let p1 = flag_set_to(s.status, MASK_C, result < s.acc);
                    let p2 = flag_set_to(p1, MASK_Z, result == 0);
                    let p3 = flag_set_to(p2, MASK_N, result & 0x80 != 0);
                    CpuView { acc: result, status: p3, ..s }
                },
                _ => {
                    let result = data << 1;
                    let p1 = flag_set_to(s.status, MASK_C, result < data);
                    let p2 = flag_set_to(p1, MASK_Z, result == 0);
                    let p3 = flag_set_to(p2, MASK_N, result & 0x80 != 0);
                    CpuView { status: p3, mem: s.mem.update(ptr as int, result), ..s }
                },
            }
        },
        Operation::BCC => {
            if !flag_is(s.status, MASK_C) {
                spec_branch(s, ptr)
            } else {
                s
            }
        },
        Operation::BCS => {
            if flag_is(s.status, MASK_C) {
                spec_branch(s, ptr)
            } else {
                s
            }
        },
        Operation::BEQ => {
            if flag_is(s.status, MASK_Z) {
                spec_branch(s, ptr)
            } else {
                s
            }
        },
        Operation::BIT => {
            let result = s.acc & data;
            let p1 = flag_set_to(s.status, MASK_Z, result == 0);
            let p2 = flag_set_to(p1, MASK_N, data & 0x80 != 0);
            let p3 = flag_set_to(p2, MASK_V, data & 0x40 != 0);
            CpuView { status: p3, ..s }
        },
        Operation::BMI => {
            if flag_is(s.status, MASK_N) {
                spec_branch(s, ptr)
            } else {
                s
            }
        },
        Operation::BNE => {
            if !flag_is(s.status, MASK_Z) {
                spec_branch(s, ptr)
            } else {
                s
            }
        },
        Operation::BPL => {
            if !flag_is(s.status, MASK_N) {
                spec_branch(s, ptr)
            } else {
                s
            }
        },
        Operation::BRK => {
            let p1 = flag_set_to(s.status, MASK_I, true);
            let p2 = flag_set_to(p1, MASK_B, true);
            let pc1 = s.pc.wrapping_add(1);
            let t0 = CpuView { status: p2, pc: pc1, ..s };
            let t1 = spec_push(t0, (pc1 / 256) as u8);
            let t2 = spec_push(t1, (pc1 % 256) as u8);
            let t3 = spec_push(t2, p2);
            let t4 = CpuView { status: flag_set_to(p2, MASK_B, false), ..t3 };
            CpuView { pc: spec_word_at(t4, BRK_ADDR_BEGIN), ..t4 }
        },
        Operation::BVC => {
            if !flag_is(s.status, MASK_V) {
                spec_branch(s, ptr)
            } else {
                s
            }
        },
        Operation::BVS => {
            if flag_is(s.status, MASK_V) {
                spec_branch(s, ptr)
            } else {
                s
            }
        },
        Operation::CLC => CpuView { status: flag_set_to(s.status, MASK_C, false), ..s },
        Operation::CLD => CpuView { status: flag_set_to(s.status, MASK_D, false), ..s },
        Operation::CLI => CpuView { status: flag_set_to(s.status, MASK_I, false), ..s },
        Operation::CLV => CpuView { status: flag_set_to(s.status, MASK_V, false), ..s },
        Operation::CMP => {
            let result = s.acc.wrapping_sub(data);
            let p1 = flag_set_to(s.status, MASK_Z, result == 0);
            let p2 = flag_set_to(p1, MASK_C, s.acc >= data);
            let p3 = flag_set_to(p2, MASK_N, result & 0x80 != 0);
            CpuView { status: p3, ..s }
        },
        Operation::CPX => {
            let result = (s.x as u16).wrapping_sub(data as u16);
            let p1 = flag_set_to(s.status, MASK_Z, result == 0);
            let p2 = flag_set_to(p1, MASK_C, s.x >= data);
            let p3 = flag_set_to(p2, MASK_N, result & 0x80 != 0);
            CpuView { status: p3, ..s }
        },
        Operation::CPY => {
            let result = (s.y as u16).wrapping_sub(data as u16);
            let p1 = flag_set_to(s.status, MASK_Z, result == 0);
            let p2 = flag_set_to(p1, MASK_C, s.y >= data);
            let p3 = flag_set_to(p2, MASK_N, result & 0x80 != 0);
            CpuView { status: p3, ..s }
        },
        Operation::DEC => {
            let result = data.wrapping_sub(1);
            let p1 = flag_set_to(s.status, MASK_Z, result == 0);
            let p2 = flag_set_to(p1, MASK_N, result & 0x80 != 0);
            CpuView { status: p2, mem: s.mem.update(ptr as int, result), ..s }
        },
        Operation::DEX => {
            let result = s.x.wrapping_sub(1);
            let p1 = flag_set_to(s.status, MASK_Z, result == 0);
            let p2 = flag_set_to(p1, MASK_N, result & 0x80 != 0);
            CpuView { x: result, status: p2, ..s }
        },
        Operation::DEY => {
            let result = s.y.wrapping_sub(1);
            let p1 = flag_set_to(s.status, MASK_Z, result == 0);
            let p2 = flag_set_to(p1, MASK_N, result & 0x80 != 0);
            CpuView { y: result, status: p2, ..s }
        },
        Operation::EOR => {
            let result = s.acc ^ data;
            let p1 = flag_set_to(s.status, MASK_Z, result == 0);
            let p2 = flag_set_to(p1, MASK_N, result & 0x80 != 0);
            CpuView { acc: result, status: p2, ..s }
        },
        Operation::INC => {
            let result = data.wrapping_add(1);
            let p1 = flag_set_to(s.status, MASK_Z, result == 0);
            let p2 = flag_set_to(p1, MASK_N, result & 0x80 != 0);
            CpuView { status: p2, mem: s.mem.update(ptr as int, result), ..s }
        },
        Operation::INX => {
            let result = s.x.wrapping_add(1);
            let p1 = flag_set_to(s.status, MASK_Z, result == 0);
            let p2 = flag_set_to(p1, MASK_N, result & 0x80 != 0);
            CpuView { x: result, status: p2, ..s }
        },
        Operation::INY => {
            let result = s.y.wrapping_add(1);
            let p1 = flag_set_to(s.status, MASK_Z, result == 0);
            let p2 = flag_set_to(p1, MASK_N, result & 0x80 != 0);
            CpuView { y: result, status: p2, ..s }
        },
        Operation::JMP => CpuView { pc: ptr, ..s },
        Operation::JSR => {
            let pc1 = s.pc.wrapping_sub(1);
            let t0 = CpuView { pc: pc1, ..s };
            let t1 = spec_push(t0, (pc1 / 256) as u8);
            let t2 = spec_push(t1, (pc1 % 256) as u8);
            CpuView { pc: ptr, ..t2 }
        },
        Operation::LDA => {
            let p1 = flag_set_to(s.status, MASK_Z, data == 0);
            let p2 = flag_set_to(p1, MASK_N, data & 0x80 != 0);
            CpuView { acc: data, status: p2, ..s }
        },
        Operation::LDX => {
            let p1 = flag_set_to(s.status, MASK_Z, data == 0);
            let p2 = flag_set_to(p1, MASK_N, data & 0x80 != 0);
            CpuView { x: data, status: p2, ..s }
        },
        Operation::LDY => {
            let p1 = flag_set_to(s.status, MASK_Z, data == 0);
            let p2 = flag_set_to(p1, MASK_N, data & 0x80 != 0);
            CpuView { y: data, status: p2, ..s }
        },
        Operation::LSR => {
            match address_mode {
                AddressMode::Accumulator => {
                    let result = s.acc >> 1;
                    let p1 = flag_set_to(s.status, MASK_C, s.acc & 0x01 != 0);
                    let p2 = flag_set_to(p1, MASK_N, false);
                    let p3 = flag_set_to(p2, MASK_Z, result == 0);
                    CpuView { acc: result, status: p3, ..s }
                },
                _ => {
                    let result = data >> 1;
                    let p1 = flag_set_to(s.status, MASK_C, data & 0x01 != 0);
                    let p2 = flag_set_to(p1, MASK_N, false);
                    let p3 = flag_set_to(p2, MASK_Z, result == 0);
                    CpuView { status: p3, mem: s.mem.update(ptr as int, result), ..s }
                },
            }
        },
        Operation::NOP => {
            if s.opcode == 0xFC {
                CpuView { cycles: s.cycles.wrapping_add(1), ..s }
            } else {
                s
            }
        },
        Operation::ORA => {
            let result = s.acc | data;
            let p1 = flag_set_to(s.status, MASK_Z, result == 0);
            let p2 = flag_set_to(p1, MASK_N, result & 0x80 != 0);
            CpuView { acc: result, status: p2, ..s }
        },
        Operation::PHA => spec_push(s, s.acc),
        Operation::PHP => spec_push(s, s.status),
        Operation::PLA => {
            let t = spec_pop(s).0;
            let v = spec_pop(s).1;
            let p1 = flag_set_to(s.status, MASK_Z, v == 0);
            let p2 = flag_set_to(p1, MASK_N, v & 0x80 != 0);
            CpuView { acc: v, status: p2, ..t }
        },
        Operation::PLP => {
            let t = spec_pop(s).0;
            let v = spec_pop(s).1;
            CpuView { status: (v & !MASK_B) | (s.status & MASK_B) | MASK_U, ..t }
        },
        Operation::ROL => {
            let carry: u16 = if flag_is(s.status, MASK_C) {
                1
            } else {
                0
            };
            match address_mode {
                AddressMode::Accumulator => {
                    let result = ((s.acc as u16) * 2 + carry) as u16;
                    let p1 = flag_set_to(s.status, MASK_C, result > 0xFF);
                    let p2 = flag_set_to(p1, MASK_Z, result == 0);
                    let p3 = flag_set_to(p2, MASK_N, result & 0x0080 != 0);
                    CpuView { acc: (result % 256) as u8, status: p3, ..s }
                },
                _ => {
                    let result = ((data as u16) * 2 + carry) as u16;
                    let p1 = flag_set_to(s.status, MASK_C, result > 0xFF);
                    let p2 = flag_set_to(p1, MASK_Z, result == 0);
                    let p3 = flag_set_to(p2, MASK_N, result & 0x0080 != 0);
                    CpuView {
                        status: p3,
                        mem: s.mem.update(ptr as int, (result % 256) as u8),
                        ..s
                    }
                },
            }
        },
        Operation::ROR => {
            let carry_bit: u8 = if flag_is(s.status, MASK_C) {
                0x80
            } else {
                0
            };
            match address_mode {
                AddressMode::Accumulator => {
                    let result = (carry_bit + s.acc / 2) as u8;
                    let p1 = flag_set_to(s.status, MASK_C, s.acc & 0x01 != 0);
                    let p2 = flag_set_to(p1, MASK_Z, result == 0);
                    let p3 = flag_set_to(p2, MASK_N, result & 0x80 != 0);
                    CpuView { acc: result, status: p3, ..s }
                },
                _ => {
                    let result = (carry_bit + data / 2) as u8;
                    let p1 = flag_set_to(s.status, MASK_C, data & 0x01 != 0);
                    let p2 = flag_set_to(p1, MASK_Z, result == 0);
                    let p3 = flag_set_to(p2, MASK_N, result & 0x80 != 0);
                    CpuView { status: p3, mem: s.mem.update(ptr as int, result), ..s }
                },
            }
        },
        Operation::RTI => {
            let t1 = spec_pop(s).0;
            let v = spec_pop(s).1;
            let p1 = flag_set_to(flag_set_to(v, MASK_B, false), MASK_U, false);
            let t2 = CpuView { status: p1, ..t1 };
            let t3 = spec_pop(t2).0;
            let lo = spec_pop(t2).1;
            let t4 = spec_pop(t3).0;
            let hi = spec_pop(t3).1;
            CpuView { pc: word(lo, hi), ..t4 }
        },
        Operation::RTS => {
            let t1 = spec_pop(s).0;
            let lo = spec_pop(s).1;
            let t2 = spec_pop(t1).0;
            let hi = spec_pop(t1).1;
            CpuView { pc: word(lo, hi).wrapping_add(1), ..t2 }
        },
        Operation::SBC => spec_adc(s, data ^ 0xFF),
        Operation::SEC => CpuView { status: flag_set_to(s.status, MASK_C, true), ..s },
        Operation::SED => CpuView { status: flag_set_to(s.status, MASK_D, true), ..s },
        Operation::SEI => CpuView { status: flag_set_to(s.status, MASK_I, true), ..s },
        Operation::STA => CpuView { mem: s.mem.update(ptr as int, s.acc), ..s },
        Operation::STX => CpuView { mem: s.mem.update(ptr as int, s.x), ..s },
        Operation::STY => CpuView { mem: s.mem.update(ptr as int, s.y), ..s },
        Operation::TAX => CpuView { x: s.acc, ..s },
        Operation::TAY => CpuView { y: s.acc, ..s },
        Operation::TSX => CpuView { x: s.stkp, ..s },
        Operation::TXA => CpuView { acc: s.x, ..s },
        Operation::TXS => CpuView { stkp: s.x, ..s },
        Operation::TYA => CpuView { acc: s.y, ..s },
        Operation::XXX => s,
    }
}

/// The state after one operation, the immediate-mode adjustment included:
/// with immediate addressing the program counter moves past the operand byte
/// once the operation is done.
pub open spec fn spec_operation(
    s: CpuView,
    ptr: u16,
    operation: Operation,
    address_mode: AddressMode,
) -> CpuView {
    let t = spec_execute(s, ptr, operation, address_mode);
    if address_mode == AddressMode::Immediate {
        CpuView { pc: t.pc.wrapping_add(1), ..t }
    } else {
        t
    }
}

impl Cpu {
    /// Takes a branch to `dest`: one extra cycle, and another when `dest`
    /// lies on a different page than the program counter.
    fn branch(&mut self, dest: u16)
        ensures
            final(self)@ == spec_branch(old(self)@, dest),
    {
        self.cycles = self.cycles.wrapping_add(1);
        if dest / 256 != self.pc / 256 {
            self.cycles = self.cycles.wrapping_add(1);
        }
        self.pc = dest;
    }

    /// Adds `data` and the carry flag into the accumulator; SBC reuses this
    /// with the operand inverted.
    fn add_with_carry(&mut self, data: u8)
        ensures
            final(self)@ == spec_adc(old(self)@, data),
    {
        let carry: u16 = if self.get_flag('C') {
            1
        } else {
            0
        };
        let sum: u16 = (self.acc as u16) + (data as u16) + carry;
        let acc16: u16 = self.acc as u16;
        self.set_flag_with_bool('C', sum > 0xFF);
        self.set_flag_with_bool('Z', sum % 256 == 0);
        self.set_flag_with_bool('V', ((acc16 ^ sum) & !(acc16 ^ (data as u16))) & 0x0080 > 0);
        self.set_flag_with_bool('N', sum & 0x0080 > 0);
        self.acc = (sum % 256) as u8;
        proof {
            assert(self@ =~= spec_adc(old(self)@, data));
        }
    }

    /// Executes one decoded operation against the resolved operand address.
    #[verifier::rlimit(100)]
    #[verifier::spinoff_prover]
    pub fn perform_operation(&mut self, ptr: u16, operation: &Operation, address_mode: &AddressMode)
        requires
            old(self).wf(),
        ensures
            final(self).wf(),
            final(self)@ == spec_operation(old(self)@, ptr, *operation, *address_mode),
    {
        proof {
            reveal(spec_execute);
        }
        let data: u8 = self.read_addr(ptr);

        match *operation {
            Operation::ADC => self.add_with_carry(data),
            Operation::AND => {
                let result = self.acc & data;
                self.set_flag_with_bool('Z', result == 0);
                self.set_flag_with_bool('N', result & 0x80 > 0);
                self.acc = result;
            },
            Operation::ASL => {
                match *address_mode {
                    AddressMode::Accumulator => {
                        let result = self.acc << 1u8;
                        self.set_flag_with_bool('C', result < self.acc);
                        self.set_flag_with_bool('Z', result == 0);
                        self.set_flag_with_bool('N', result & 0x80 > 0);
                        self.acc = result;
                    },
                    _ => {
                        let result = data << 1u8;
                        self.set_flag_with_bool('C', result < data);
                        self.set_flag_with_bool('Z', result == 0);
                        self.set_flag_with_bool('N', result & 0x80 > 0);
                        self.write_addr(ptr, result);
                    },
                }
            },
            Operation::BCC => {
                if !self.get_flag('C') {
                    self.branch(ptr);
                }
            },
            Operation::BCS => {
                if self.get_flag('C') {
                    self.branch(ptr);
                }
            },
            Operation::BEQ => {
                if self.get_flag('Z') {
                    self.branch(ptr);
                }
            },
            Operation::BIT => {
                let result = self.acc & data;
                self.set_flag_with_bool('Z', result == 0);
                self.set_flag_with_bool('N', data & 0x80 > 0);
                self.set_flag_with_bool('V', data & 0x40 > 0);
            },
            Operation::BMI => {
                if self.get_flag('N') {
                    self.branch(ptr);
                }
            },
            Operation::BNE => {
                if !self.get_flag('Z') {
                    self.branch(ptr);
                }
            },
            Operation::BPL => {
                if !self.get_flag('N') {
                    self.branch(ptr);
                }
            },
            Operation::BRK => {
                self.set_flag('I', 1);
                self.set_flag('B', 1);
                // Push the incremented program counter so that a later RTI
                // resumes past the break padding byte.
                self.pc = self.pc.wrapping_add(1);
                let pc_hi = (self.pc / 256) as u8;
                let pc_lo = (self.pc % 256) as u8;
                self.stack_push(pc_hi);
                self.stack_push(pc_lo);
                self.stack_push(self.status);
                self.set_flag('B', 0);
                self.pc = self.read_addr_from(BRK_ADDR_BEGIN);
            },
            Operation::BVC => {
                if !self.get_flag('V') {
                    self.branch(ptr);
                }
            },
            Operation::BVS => {
                if self.get_flag('V') {
                    self.branch(ptr);
                }
            },
            Operation::CLC => self.set_flag('C', 0),
            Operation::CLD => self.set_flag('D', 0),
            Operation::CLI => self.set_flag('I', 0),
            Operation::CLV => self.set_flag('V', 0),
            Operation::CMP => {
                let result = self.acc.wrapping_sub(data);
                self.set_flag_with_bool('Z', result == 0);
                self.set_flag_with_bool('C', self.acc >= data);
                self.set_flag_with_bool('N', result & 0x80 > 0);
            },
            Operation::CPX => {
                let result = (self.x as u16).wrapping_sub(data as u16);
                self.set_flag_with_bool('Z', result == 0);
                self.set_flag_with_bool('C', self.x >= data);
                self.set_flag_with_bool('N', result & 0x80 > 0);
            },
            Operation::CPY => {
                let result = (self.y as u16).wrapping_sub(data as u16);
                self.set_flag_with_bool('Z', result == 0);
                self.set_flag_with_bool('C', self.y >= data);
                self.set_flag_with_bool('N', result & 0x80 > 0);
            },
            Operation::DEC => {
                let result = data.wrapping_sub(1);
                self.set_flag_with_bool('Z', result == 0);
                self.set_flag_with_bool('N', result & 0x80 > 0);
                self.write_addr(ptr, result);
            },
            Operation::DEX => {
                let result = self.x.wrapping_sub(1);
                self.set_flag_with_bool('Z', result == 0);
                self.set_flag_with_bool('N', result & 0x80 > 0);
                self.x = result;
            },
            Operation::DEY => {
                let result = self.y.wrapping_sub(1);
                self.set_flag_with_bool('Z', result == 0);
                self.set_flag_with_bool('N', result & 0x80 > 0);
                self.y = result;
            },
            Operation::EOR => {
                let result = self.acc ^ data;
                self.set_flag_with_bool('Z', result == 0);
                self.set_flag_with_bool('N', result & 0x80 > 0);
                self.acc = result;
            },
            Operation::INC => {
                let result = data.wrapping_add(1);
                self.set_flag_with_bool('Z', result == 0);
                self.set_flag_with_bool('N', result & 0x80 > 0);
                self.write_addr(ptr, result);
            },
            Operation::INX => {
                let result = self.x.wrapping_add(1);
                self.set_flag_with_bool('Z', result == 0);
                self.set_flag_with_bool('N', result & 0x80 > 0);
                self.x = result;
            },
            Operation::INY => {
                let result = self.y.wrapping_add(1);
                self.set_flag_with_bool('Z', result == 0);
                self.set_flag_with_bool('N', result & 0x80 > 0);
                self.y = result;
            },
            Operation::JMP => self.pc = ptr,
            Operation::JSR => {
                self.pc = self.pc.wrapping_sub(1);
                self.push_pc_to_stack();
                self.pc = ptr;
            },
            Operation::LDA => {
                self.set_flag_with_bool('Z', data == 0);
                self.set_flag_with_bool('N', data & 0x80 > 0);
                self.acc = data;
            },
            Operation::LDX => {
                self.set_flag_with_bool('Z', data == 0);
                self.set_flag_with_bool('N', data & 0x80 > 0);
                self.x = data;
            },
            Operation::LDY => {
                self.set_flag_with_bool('Z', data == 0);
                self.set_flag_with_bool('N', data & 0x80 > 0);
                self.y = data;
            },
            Operation::LSR => {
                match *address_mode {
                    AddressMode::Accumulator => {
                        let result = self.acc >> 1u8;
                        self.set_flag_with_bool('C', self.acc & 0x01 > 0);
                        self.set_flag_with_bool('N', false);
                        self.set_flag_with_bool('Z', result == 0);
                        self.acc = result;
                    },
                    _ => {
                        let result = data >> 1u8;
                        self.set_flag_with_bool('C', data & 0x01 > 0);
                        self.set_flag_with_bool('N', false);
                        self.set_flag_with_bool('Z', result == 0);
                        self.write_addr(ptr, result);
                    },
                }
            },
            Operation::NOP => {
                // One undocumented no-op variant costs an extra cycle.
                if self.opcode == 0xFC {
                    self.cycles = self.cycles.wrapping_add(1);
                }
            },
            Operation::ORA => {
                let result = self.acc | data;
                self.set_flag_with_bool('Z', result == 0);
                self.set_flag_with_bool('N', result & 0x80 > 0);
                self.acc = result;
            },
            Operation::PHA => {
                let acc = self.acc;
                self.stack_push(acc);
            },
            Operation::PHP => {
                let status = self.status;
                self.stack_push(status);
            },
            Operation::PLA => {
                let v = self.stack_pop();
                self.set_flag_with_bool('Z', v == 0);
                self.set_flag_with_bool('N', v & 0x80 > 0);
                self.acc = v;
            },
            Operation::PLP => {
                // The break bit on the stack is ignored and the unused bit
                // is forced to 1, as the hardware does.
                let v = self.stack_pop();
                self.status = (v & !MASK_B) | (self.status & MASK_B) | MASK_U;
            },
            Operation::ROL => {
                let carry: u16 = if self.get_flag('C') {
                    1
                } else {
                    0
                };
                match *address_mode {
                    AddressMode::Accumulator => {
                        let result = (self.acc as u16) * 2 + carry;
                        self.set_flag_with_bool('C', result > 0xFF);
                        self.set_flag_with_bool('Z', result == 0);
                        self.set_flag_with_bool('N', result & 0x0080 > 0);
                        self.acc = (result % 256) as u8;
                    },
                    _ => {
                        let result = (data as u16) * 2 + carry;
                        self.set_flag_with_bool('C', result > 0xFF);
                        self.set_flag_with_bool('Z', result == 0);
                        self.set_flag_with_bool('N', result & 0x0080 > 0);
                        self.write_addr(ptr, (result % 256) as u8);
                    },
                }
            },
            Operation::ROR => {
                let carry_bit: u8 = if self.get_flag('C') {
                    0x80
                } else {
                    0
                };
                match *address_mode {
                    AddressMode::Accumulator => {
                        let result = carry_bit + self.acc / 2;
                        self.set_flag_with_bool('C', self.acc & 0x01 > 0);
                        self.set_flag_with_bool('Z', result == 0);
                        self.set_flag_with_bool('N', result & 0x80 > 0);
                        self.acc = result;
                    },
                    _ => {
                        let result = carry_bit + data / 2;
                        self.set_flag_with_bool('C', data & 0x01 > 0);
                        self.set_flag_with_bool('Z', result == 0);
                        self.set_flag_with_bool('N', result & 0x80 > 0);
                        self.write_addr(ptr, result);
                    },
                }
            },
            Operation::RTI => {
                // The status comes back from the stack with the break and
                // unused bits cleared; the interrupt-disable bit is whatever
                // the pushed byte holds.
                let v = self.stack_pop();
                self.status = v;
                self.set_flag('B', 0);
                self.set_flag('U', 0);
                let addr = self.pop_address_from_stack();
                self.pc = addr;
            },
            Operation::RTS => {
                let addr = self.pop_address_from_stack();
                self.pc = addr.wrapping_add(1);
            },
            Operation::SBC => self.add_with_carry(data ^ 0xFF),
            Operation::SEC => self.set_flag('C', 1),
            Operation::SED => self.set_flag('D', 1),
            Operation::SEI => self.set_flag('I', 1),
            Operation::STA => {
                let acc = self.acc;
                self.write_addr(ptr, acc);
            },
            Operation::STX => {
                let x = self.x;
                self.write_addr(ptr, x);
            },
            Operation::STY => {
                let y = self.y;
                self.write_addr(ptr, y);
            },
            Operation::TAX => self.x = self.acc,
            Operation::TAY => self.y = self.acc,
            Operation::TSX => self.x = self.stkp,
            Operation::TXA => self.acc = self.x,
            Operation::TXS => self.stkp = self.x,
            Operation::TYA => self.acc = self.y,
            Operation::XXX => (),
        }
        match *address_mode {
            AddressMode::Immediate => {
                self.pc = self.pc.wrapping_add(1);
            },
            _ => (),
        }
        proof {
            assert(self@ =~= spec_operation(old(self)@, ptr, *operation, *address_mode));
        }
    }
}

/// The state after a reset: registers cleared, stack pointer at 0xFD, the
/// program counter reloaded from the reset vector, the status byte keeping
/// only its unused bit, and seven cycles owed.
pub open spec fn spec_reset(s: CpuView) -> CpuView {
    let lo = s.mem[RESET_ADDRESS as int];
    let hi = s.mem[RESET_ADDRESS + 1];
    CpuView {
        pc: word(lo, hi),
        acc: 0,
        x: 0,
        y: 0,
        stkp: 0xFD,
        status: s.status & MASK_U,
        addr_of_data: 0,
        cycles: 7,
        ..s
    }
}

/// The state after an interrupt request: nothing while interrupts are
/// disabled; otherwise the program counter and the status byte (break
/// cleared, unused and interrupt-disable set) go onto the stack, the
/// program counter reloads from the interrupt vector and seven cycles are
/// owed.
pub open spec fn spec_irq(s: CpuView) -> CpuView {
    if flag_is(s.status, MASK_I) {
        s
    } else {
        let t1 = spec_push(s, (s.pc / 256) as u8);
        let t2 = spec_push(t1, (s.pc % 256) as u8);
        let p1 = flag_set_to(s.status, MASK_B, false);
        let p2 = flag_set_to(p1, MASK_U, true);
        let p3 = flag_set_to(p2, MASK_I, true);
        let t3 = CpuView { status: p3, ..t2 };
        let t4 = spec_push(t3, p3);
        CpuView { pc: spec_word_at(t4, BRK_ADDR_BEGIN), cycles: 7, ..t4 }
    }
}

/// The state after a non-maskable interrupt: like an interrupt request but
/// unconditional, through the NMI vector, with eight cycles owed.
pub open spec fn spec_nmi(s: CpuView) -> CpuView {
    let t1 = spec_push(s, (s.pc / 256) as u8);
    let t2 = spec_push(t1, (s.pc % 256) as u8);
    let p1 = flag_set_to(s.status, MASK_B, false);
    let p2 = flag_set_to(p1, MASK_U, true);
    let p3 = flag_set_to(p2, MASK_I, true);
    let t3 = CpuView { status: p3, ..t2 };
    let t4 = spec_push(t3, p3);
    CpuView { pc: spec_word_at(t4, NMI_ADDR_BEGIN), cycles: 8, ..t4 }
}

/// The state after one emulated cycle. With no cycles owed, the processor
/// dispatches one whole instruction: it snapshots the program counter,
/// fetches and decodes the opcode, forces the unused flag to 1, seeds the
/// cycle budget from the table, resolves the operand address (which may add
/// page-cross penalties) and executes. Otherwise one owed cycle is paid off
/// and the tick counter advances.
pub open spec fn spec_clock(s: CpuView) -> CpuView {
    if s.cycles == 0 {
        let s1 = CpuView { ppc: s.pc, opcode: s.mem[s.pc as int], pc: s.pc.wrapping_add(1), ..s };
        let s2 = CpuView { status: flag_set_to(s1.status, MASK_U, true), ..s1 };
        let instr = spec_decode(s2.opcode);
        let s3 = CpuView { cycles: instr.cycles, ..s2 };
        let resolved = spec_resolve(s3, instr.address_mode);
        let s4 = CpuView { addr_of_data: resolved.1, ..resolved.0 };
        spec_operation(s4, resolved.1, instr.operation, instr.address_mode)
    } else {
        CpuView {
            current_tick: s.current_tick.wrapping_add(1),
            cycles: (s.cycles - 1) as u8,
            ..s
        }
    }
}

/// The state once every owed cycle is paid off: `spec_clock` applied until
/// the cycle counter reaches zero.
pub open spec fn spec_drain(s: CpuView) -> CpuView
    decreases s.cycles,
{
    if s.cycles == 0 {
        s
    } else {
        spec_drain(spec_clock(s))
    }
}

/// The state after one whole instruction: a dispatch if none is in flight,
/// then all owed cycles paid off.
pub open spec fn spec_step(s: CpuView) -> CpuView {
    if s.cycles == 0 {
        spec_drain(spec_clock(s))
    } else {
        spec_drain(s)
    }
}

impl Cpu {
    /// Resets the processor: registers cleared, stack pointer at 0xFD, the
    /// program counter loaded from the reset vector at 0xFFFC, the status
    /// byte keeping only its unused bit, seven cycles owed.
    pub fn reset(&mut self)
        requires
            old(self).wf(),
        ensures
            final(self).wf(),
            final(self)@ == spec_reset(old(self)@),
    {
        let lo = self.read_addr(RESET_ADDRESS);
        let hi = self.read_addr(RESET_ADDRESS + 1);
        self.pc = (hi as u16) * 256 + (lo as u16);

        self.acc = 0;
        self.x = 0;
        self.y = 0;
        self.stkp = 0xFD;
        self.status = self.status & MASK_U;

        self.addr_of_data = 0x0000;

        self.cycles = 7;
        proof {
            assert(self@ =~= spec_reset(old(self)@));
        }
    }

    /// Requests an interrupt; honoured only while the interrupt-disable
    /// flag is clear.
    pub fn irq(&mut self)
        requires
            old(self).wf(),
        ensures
            final(self).wf(),
            final(self)@ == spec_irq(old(self)@),
    {
        if !self.get_flag('I') {
            let pc_hi = (self.pc / 256) as u8;
            let pc_lo = (self.pc % 256) as u8;
            self.stack_push(pc_hi);
            self.stack_push(pc_lo);

            self.set_flag('B', 0);
            self.set_flag('U', 1);
            self.set_flag('I', 1);
            let status = self.status;
            self.stack_push(status);
            self.pc = self.read_addr_from(BRK_ADDR_BEGIN);

            self.cycles = 7;
        }
        proof {
            assert(self@ =~= spec_irq(old(self)@));
        }
    }

    /// Raises the non-maskable interrupt; always honoured.
    pub fn nmi(&mut self)
        requires
            old(self).wf(),
        ensures
            final(self).wf(),
            final(self)@ == spec_nmi(old(self)@),
    {
        let pc_hi = (self.pc / 256) as u8;
        let pc_lo = (self.pc % 256) as u8;
        self.stack_push(pc_hi);
        self.stack_push(pc_lo);

        self.set_flag('B', 0);
        self.set_flag('U', 1);
        self.set_flag('I', 1);
        let status = self.status;
        self.stack_push(status);
        self.pc = self.read_addr_from(NMI_ADDR_BEGIN);

        self.cycles = 8;
        proof {
            assert(self@ =~= spec_nmi(old(self)@));
        }
    }

    /// Advances the processor by exactly one emulated cycle.
    pub fn clock(&mut self)
        requires
            old(self).wf(),
        ensures
            final(self).wf(),
            final(self)@ == spec_clock(old(self)@),
    {
        if self.is_cycle_complete() {
            self.ppc = self.pc;
            // Fetch the opcode under the program counter.
            self.opcode = self.read_pc_addr();
            // The unused flag always reads as set once an instruction runs.
            self.set_flag('U', 1);
            let instruction = get_instruction(self.opcode);

            // Seed the cycle budget with the instruction's base cost.
            self.cycles = instruction.get_cycles();

            // Resolve where the operand byte lives; page crosses may add
            // owed cycles here.
            let data_ptr = self.get_data_ptr(instruction.get_address_mode());
            self.addr_of_data = data_ptr;

            self.perform_operation(
                data_ptr,
                instruction.get_operation(),
                instruction.get_address_mode(),
            );
        } else {
            self.current_tick = self.current_tick.wrapping_add(1);
            self.cycles = self.cycles - 1;
        }
        proof {
            assert(self@ =~= spec_clock(old(self)@));
        }
    }

    /// Runs the clock until the instruction in flight has paid off its
    /// whole cycle budget, dispatching one instruction if none is in
    /// flight.
    pub fn step(&mut self)
        requires
            old(self).wf(),
        ensures
            final(self).wf(),
            final(self)@ == spec_step(old(self)@),
            final(self)@.cycles == 0,
    {
        if self.is_cycle_complete() {
            self.clock();
        }
        let ghost staged = self@;
        while !self.is_cycle_complete()
            invariant
                self.wf(),
                spec_drain(self@) == spec_drain(staged),
            decreases self@.cycles,
        {
            self.clock();
        }
    }
}

impl ReadWrite for Cpu {
    open spec fn access_req(&self) -> bool {
        self.wf()
    }

    fn read_addr(&self, addr: u16) -> u8 {
        self.read_addr(addr)
    }

    fn write_addr(&mut self, addr: u16, data: u8) {
        self.write_addr(addr, data)
    }
}

} // verus!
