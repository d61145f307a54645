//! The 6502 instruction table.
//!
//! Decoding is a total function from an 8-bit opcode to a descriptor that
//! carries the operation, the addressing mode, the declared instruction
//! length in bytes, and the base cycle cost. Opcodes outside the documented
//! set decode to the invalid descriptor, which the executor treats as a
//! no-operation.

use vstd::prelude::*;

verus! {

/// The 56 documented operations of the 6502, and a tag for the undocumented rest.
#[derive(Clone, Copy, PartialEq, Eq, Structural, Debug)]
pub enum Operation {
    /// add with carry
    ADC,
    /// and with the accumulator
    AND,
    /// arithmetic shift left
    ASL,
    /// branch on carry clear
    BCC,
    /// branch on carry set
    BCS,
    /// branch on equal (zero set)
    BEQ,
    /// bit test
    BIT,
    /// branch on minus (negative set)
    BMI,
    /// branch on not equal (zero clear)
    BNE,
    /// branch on plus (negative clear)
    BPL,
    /// break / interrupt
    BRK,
    /// branch on overflow clear
    BVC,
    /// branch on overflow set
    BVS,
    /// clear carry
    CLC,
    /// clear decimal
    CLD,
    /// clear interrupt disable
    CLI,
    /// clear overflow
    CLV,
    /// compare with the accumulator
    CMP,
    /// compare with X
    CPX,
    /// compare with Y
    CPY,
    /// decrement memory
    DEC,
    /// decrement X
    DEX,
    /// decrement Y
    DEY,
    /// exclusive or with the accumulator
    EOR,
    /// increment memory
    INC,
    /// increment X
    INX,
    /// increment Y
    INY,
    /// jump
    JMP,
    /// jump to subroutine
    JSR,
    /// load the accumulator
    LDA,
    /// load X
    LDX,
    /// load Y
    LDY,
    /// logical shift right
    LSR,
    /// no operation
    NOP,
    /// or with the accumulator
    ORA,
    /// push the accumulator
    PHA,
    /// push the status register
    PHP,
    /// pull the accumulator
    PLA,
    /// pull the status register
    PLP,
    /// rotate left through carry
    ROL,
    /// rotate right through carry
    ROR,
    /// return from interrupt
    RTI,
    /// return from subroutine
    RTS,
    /// subtract with carry
    SBC,
    /// set carry
    SEC,
    /// set decimal
    SED,
    /// set interrupt disable
    SEI,
    /// store the accumulator
    STA,
    /// store X
    STX,
    /// store Y
    STY,
    /// transfer the accumulator to X
    TAX,
    /// transfer the accumulator to Y
    TAY,
    /// transfer the stack pointer to X
    TSX,
    /// transfer X to the accumulator
    TXA,
    /// transfer X to the stack pointer
    TXS,
    /// transfer Y to the accumulator
    TYA,
    /// invalid operation
    XXX,
}

/// The 13 addressing modes of the 6502, and a tag for the undocumented rest.
#[derive(Clone, Copy, PartialEq, Eq, Structural, Debug)]
pub enum AddressMode {
    /// the operand is the accumulator itself
    Accumulator,
    /// the operand byte follows the opcode; the program counter is moved past it after execution
    Immediate,
    /// a little-endian operand word names the address
    Absolute,
    /// one operand byte names an address in the first page
    ZeroPage,
    /// one operand byte plus X, wrapping within the first page
    ZeroPageX,
    /// one operand byte plus Y, wrapping within the first page
    ZeroPageY,
    /// an operand word plus X with 16-bit wrap; one extra cycle on a page cross
    AbsoluteX,
    /// an operand word plus Y with 16-bit wrap; one extra cycle on a page cross
    AbsoluteY,
    /// the operation names no memory operand
    Implied,
    /// a signed operand byte offsets the program counter
    Relative,
    /// a zero-page byte plus X points at the little-endian address
    IndirectX,
    /// a zero-page byte points at an address to which Y is added; one extra cycle on a page cross
    IndirectY,
    /// an operand word points at the address, with the hardware page-boundary bug
    AbsoluteIndirect,
    /// addressing mode of the invalid operation
    XXX,
}

/// What one opcode tells the processor to do.
#[derive(Clone, Copy, PartialEq, Eq, Structural, Debug)]
pub struct Instruction {
    pub operation: Operation,
    pub address_mode: AddressMode,
    pub instruction_bytes: u8,
    pub cycles: u8,
}

impl Instruction {
    pub fn new(
        operation: Operation,
        address_mode: AddressMode,
        instruction_bytes: u8,
        cycles: u8,
    ) -> (r: Instruction)
        ensures
            r == (Instruction { operation, address_mode, instruction_bytes, cycles }),
    {
        Instruction { operation, address_mode, instruction_bytes, cycles }
    }

    /// The descriptor of every opcode outside the documented set.
    pub fn invalid() -> (r: Instruction)
        ensures
            r == spec_invalid(),
    {
        Instruction {
            operation: Operation::XXX,
            address_mode: AddressMode::XXX,
            instruction_bytes: 0,
            cycles: 0,
        }
    }

    pub fn get_operation(&self) -> (r: &Operation)
        ensures
            *r == self.operation,
    {
        &self.operation
    }

    pub fn get_address_mode(&self) -> (r: &AddressMode)
        ensures
            *r == self.address_mode,
    {
        &self.address_mode
    }

    pub fn get_instruction_bytes(&self) -> (r: u8)
        ensures
            r == self.instruction_bytes,
    {
        self.instruction_bytes
    }

    pub fn get_cycles(&self) -> (r: u8)
        ensures
            r == self.cycles,
    {
        self.cycles
    }
}

/// The invalid descriptor: length 0, cycles 0, operation and mode both invalid.
pub open spec fn spec_invalid() -> Instruction {
    Instruction {
        operation: Operation::XXX,
        address_mode: AddressMode::XXX,
        instruction_bytes: 0,
        cycles: 0,
    }
}

/// The fixed opcode map of the Rockwell R650x data sheet.
#[verifier::opaque]
pub open spec fn spec_decode(opcode: u8) -> Instruction {
    match opcode {
        0x00 => Instruction { operation: Operation::BRK, address_mode: AddressMode::Implied, instruction_bytes: 1, cycles: 7 },
        0x01 => Instruction { operation: Operation::ORA, address_mode: AddressMode::IndirectX, instruction_bytes: 2, cycles: 6 },
        0x05 => Instruction { operation: Operation::ORA, address_mode: AddressMode::ZeroPage, instruction_bytes: 2, cycles: 3 },
        0x06 => Instruction { operation: Operation::ASL, address_mode: AddressMode::ZeroPage, instruction_bytes: 2, cycles: 5 },
        0x08 => Instruction { operation: Operation::PHP, address_mode: AddressMode::Implied, instruction_bytes: 1, cycles: 3 },
        0x09 => Instruction { operation: Operation::ORA, address_mode: AddressMode::Immediate, instruction_bytes: 2, cycles: 2 },
        0x0A => Instruction { operation: Operation::ASL, address_mode: AddressMode::Accumulator, instruction_bytes: 1, cycles: 2 },
        0x0D => Instruction { operation: Operation::ORA, address_mode: AddressMode::Absolute, instruction_bytes: 3, cycles: 4 },
        0x0E => Instruction { operation: Operation::ASL, address_mode: AddressMode::Absolute, instruction_bytes: 3, cycles: 6 },
        0x10 => Instruction { operation: Operation::BPL, address_mode: AddressMode::Relative, instruction_bytes: 2, cycles: 2 },
        0x11 => Instruction { operation: Operation::ORA, address_mode: AddressMode::IndirectY, instruction_bytes: 2, cycles: 5 },
        0x15 => Instruction { operation: Operation::ORA, address_mode: AddressMode::ZeroPageX, instruction_bytes: 2, cycles: 4 },
        0x16 => Instruction { operation: Operation::ASL, address_mode: AddressMode::ZeroPageX, instruction_bytes: 2, cycles: 6 },
        0x18 => Instruction { operation: Operation::CLC, address_mode: AddressMode::Implied, instruction_bytes: 1, cycles: 2 },
        0x19 => Instruction { operation: Operation::ORA, address_mode: AddressMode::AbsoluteY, instruction_bytes: 3, cycles: 4 },
        0x1D => Instruction { operation: Operation::ORA, address_mode: AddressMode::AbsoluteX, instruction_bytes: 3, cycles: 4 },
        0x1E => Instruction { operation: Operation::ASL, address_mode: AddressMode::AbsoluteX, instruction_bytes: 3, cycles: 7 },
        0x20 => Instruction { operation: Operation::JSR, address_mode: AddressMode::Absolute, instruction_bytes: 3, cycles: 6 },
        0x21 => Instruction { operation: Operation::AND, address_mode: AddressMode::IndirectX, instruction_bytes: 2, cycles: 6 },
        0x24 => Instruction { operation: Operation::BIT, address_mode: AddressMode::ZeroPage, instruction_bytes: 2, cycles: 3 },
        0x25 => Instruction { operation: Operation::AND, address_mode: AddressMode::ZeroPage, instruction_bytes: 2, cycles: 3 },
        0x26 => Instruction { operation: Operation::ROL, address_mode: AddressMode::ZeroPage, instruction_bytes: 2, cycles: 5 },
        0x28 => Instruction { operation: Operation::PLP, address_mode: AddressMode::Implied, instruction_bytes: 1, cycles: 4 },
        0x29 => Instruction { operation: Operation::AND, address_mode: AddressMode::Immediate, instruction_bytes: 2, cycles: 2 },
        0x2A => Instruction { operation: Operation::ROL, address_mode: AddressMode::Accumulator, instruction_bytes: 1, cycles: 2 },
        0x2C => Instruction { operation: Operation::BIT, address_mode: AddressMode::Absolute, instruction_bytes: 3, cycles: 4 },
        0x2D => Instruction { operation: Operation::AND, address_mode: AddressMode::Absolute, instruction_bytes: 3, cycles: 4 },
        0x2E => Instruction { operation: Operation::ROL, address_mode: AddressMode::Absolute, instruction_bytes: 3, cycles: 6 },
        0x30 => Instruction { operation: Operation::BMI, address_mode: AddressMode::Relative, instruction_bytes: 2, cycles: 2 },
        0x31 => Instruction { operation: Operation::AND, address_mode: AddressMode::IndirectY, instruction_bytes: 2, cycles: 5 },
        0x35 => Instruction { operation: Operation::AND, address_mode: AddressMode::ZeroPageX, instruction_bytes: 2, cycles: 4 },
        0x36 => Instruction { operation: Operation::ROL, address_mode: AddressMode::ZeroPageX, instruction_bytes: 2, cycles: 6 },
        0x38 => Instruction { operation: Operation::SEC, address_mode: AddressMode::Implied, instruction_bytes: 1, cycles: 2 },
        0x39 => Instruction { operation: Operation::AND, address_mode: AddressMode::AbsoluteY, instruction_bytes: 3, cycles: 4 },
        0x3D => Instruction { operation: Operation::AND, address_mode: AddressMode::AbsoluteX, instruction_bytes: 3, cycles: 4 },
        0x3E => Instruction { operation: Operation::ROL, address_mode: AddressMode::AbsoluteX, instruction_bytes: 3, cycles: 7 },
        0x40 => Instruction { operation: Operation::RTI, address_mode: AddressMode::Implied, instruction_bytes: 1, cycles: 6 },
        0x41 => Instruction { operation: Operation::EOR, address_mode: AddressMode::IndirectX, instruction_bytes: 2, cycles: 6 },
        0x45 => Instruction { operation: Operation::EOR, address_mode: AddressMode::ZeroPage, instruction_bytes: 2, cycles: 3 },
        0x46 => Instruction { operation: Operation::LSR, address_mode: AddressMode::ZeroPage, instruction_bytes: 2, cycles: 5 },
        0x48 => Instruction { operation: Operation::PHA, address_mode: AddressMode::Implied, instruction_bytes: 1, cycles: 3 },
        0x49 => Instruction { operation: Operation::EOR, address_mode: AddressMode::Immediate, instruction_bytes: 2, cycles: 2 },
        0x4A => Instruction { operation: Operation::LSR, address_mode: AddressMode::Accumulator, instruction_bytes: 1, cycles: 2 },
        0x4C => Instruction { operation: Operation::JMP, address_mode: AddressMode::Absolute, instruction_bytes: 3, cycles: 3 },
        0x4D => Instruction { operation: Operation::EOR, address_mode: AddressMode::Absolute, instruction_bytes: 3, cycles: 4 },
        0x4E => Instruction { operation: Operation::LSR, address_mode: AddressMode::Absolute, instruction_bytes: 3, cycles: 6 },
        0x50 => Instruction { operation: Operation::BVC, address_mode: AddressMode::Relative, instruction_bytes: 2, cycles: 2 },
        0x51 => Instruction { operation: Operation::EOR, address_mode: AddressMode::IndirectY, instruction_bytes: 2, cycles: 5 },
        0x55 => Instruction { operation: Operation::EOR, address_mode: AddressMode::ZeroPageX, instruction_bytes: 2, cycles: 4 },
        0x56 => Instruction { operation: Operation::LSR, address_mode: AddressMode::ZeroPageX, instruction_bytes: 2, cycles: 6 },
        0x58 => Instruction { operation: Operation::CLI, address_mode: AddressMode::Implied, instruction_bytes: 1, cycles: 2 },
        0x59 => Instruction { operation: Operation::EOR, address_mode: AddressMode::AbsoluteY, instruction_bytes: 3, cycles: 4 },
        0x5D => Instruction { operation: Operation::EOR, address_mode: AddressMode::AbsoluteX, instruction_bytes: 3, cycles: 4 },
        0x5E => Instruction { operation: Operation::LSR, address_mode: AddressMode::AbsoluteX, instruction_bytes: 3, cycles: 7 },
        0x60 => Instruction { operation: Operation::RTS, address_mode: AddressMode::Implied, instruction_bytes: 1, cycles: 6 },
        0x61 => Instruction { operation: Operation::ADC, address_mode: AddressMode::IndirectX, instruction_bytes: 2, cycles: 6 },
        0x65 => Instruction { operation: Operation::ADC, address_mode: AddressMode::ZeroPage, instruction_bytes: 2, cycles: 3 },
        0x66 => Instruction { operation: Operation::ROR, address_mode: AddressMode::ZeroPage, instruction_bytes: 2, cycles: 5 },
        0x68 => Instruction { operation: Operation::PLA, address_mode: AddressMode::Implied, instruction_bytes: 1, cycles: 4 },
        0x69 => Instruction { operation: Operation::ADC, address_mode: AddressMode::Immediate, instruction_bytes: 2, cycles: 2 },
        0x6A => Instruction { operation: Operation::ROR, address_mode: AddressMode::Accumulator, instruction_bytes: 1, cycles: 2 },
        0x6C => Instruction { operation: Operation::JMP, address_mode: AddressMode::AbsoluteIndirect, instruction_bytes: 3, cycles: 5 },
        0x6D => Instruction { operation: Operation::ADC, address_mode: AddressMode::Absolute, instruction_bytes: 3, cycles: 4 },
        0x6E => Instruction { operation: Operation::ROR, address_mode: AddressMode::Absolute, instruction_bytes: 3, cycles: 6 },
        0x70 => Instruction { operation: Operation::BVS, address_mode: AddressMode::Relative, instruction_bytes: 2, cycles: 2 },
        0x71 => Instruction { operation: Operation::ADC, address_mode: AddressMode::IndirectY, instruction_bytes: 2, cycles: 5 },
        0x75 => Instruction { operation: Operation::ADC, address_mode: AddressMode::ZeroPageX, instruction_bytes: 2, cycles: 4 },
        0x76 => Instruction { operation: Operation::ROR, address_mode: AddressMode::ZeroPageX, instruction_bytes: 2, cycles: 6 },
        0x78 => Instruction { operation: Operation::SEI, address_mode: AddressMode::Implied, instruction_bytes: 1, cycles: 2 },
        0x79 => Instruction { operation: Operation::ADC, address_mode: AddressMode::AbsoluteY, instruction_bytes: 3, cycles: 4 },
        0x7D => Instruction { operation: Operation::ADC, address_mode: AddressMode::AbsoluteX, instruction_bytes: 3, cycles: 4 },
        0x7E => Instruction { operation: Operation::ROR, address_mode: AddressMode::AbsoluteX, instruction_bytes: 3, cycles: 7 },
        0x81 => Instruction { operation: Operation::STA, address_mode: AddressMode::IndirectX, instruction_bytes: 2, cycles: 6 },
        0x84 => Instruction { operation: Operation::STY, address_mode: AddressMode::ZeroPage, instruction_bytes: 2, cycles: 3 },
        0x85 => Instruction { operation: Operation::STA, address_mode: AddressMode::ZeroPage, instruction_bytes: 2, cycles: 3 },
        0x86 => Instruction { operation: Operation::STX, address_mode: AddressMode::ZeroPage, instruction_bytes: 2, cycles: 3 },
        0x88 => Instruction { operation: Operation::DEY, address_mode: AddressMode::Implied, instruction_bytes: 1, cycles: 2 },
        0x8A => Instruction { operation: Operation::TXA, address_mode: AddressMode::Implied, instruction_bytes: 1, cycles: 2 },
        0x8C => Instruction { operation: Operation::STY, address_mode: AddressMode::Absolute, instruction_bytes: 3, cycles: 4 },
        0x8D => Instruction { operation: Operation::STA, address_mode: AddressMode::Absolute, instruction_bytes: 3, cycles: 4 },
        0x8E => Instruction { operation: Operation::STX, address_mode: AddressMode::Absolute, instruction_bytes: 3, cycles: 4 },
        0x90 => Instruction { operation: Operation::BCC, address_mode: AddressMode::Relative, instruction_bytes: 2, cycles: 2 },
        0x91 => Instruction { operation: Operation::STA, address_mode: AddressMode::IndirectY, instruction_bytes: 2, cycles: 6 },
        0x94 => Instruction { operation: Operation::STY, address_mode: AddressMode::ZeroPageX, instruction_bytes: 2, cycles: 4 },
        0x95 => Instruction { operation: Operation::STA, address_mode: AddressMode::ZeroPageX, instruction_bytes: 2, cycles: 4 },
        0x96 => Instruction { operation: Operation::STX, address_mode: AddressMode::ZeroPageY, instruction_bytes: 2, cycles: 4 },
        0x98 => Instruction { operation: Operation::TYA, address_mode: AddressMode::Implied, instruction_bytes: 1, cycles: 2 },
        0x99 => Instruction { operation: Operation::STA, address_mode: AddressMode::AbsoluteY, instruction_bytes: 3, cycles: 5 },
        0x9A => Instruction { operation: Operation::TXS, address_mode: AddressMode::Implied, instruction_bytes: 1, cycles: 2 },
        0x9D => Instruction { operation: Operation::STA, address_mode: AddressMode::AbsoluteX, instruction_bytes: 3, cycles: 5 },
        0xA0 => Instruction { operation: Operation::LDY, address_mode: AddressMode::Immediate, instruction_bytes: 2, cycles: 2 },
        0xA1 => Instruction { operation: Operation::LDA, address_mode: AddressMode::IndirectX, instruction_bytes: 2, cycles: 6 },
        0xA2 => Instruction { operation: Operation::LDX, address_mode: AddressMode::Immediate, instruction_bytes: 2, cycles: 2 },
        0xA4 => Instruction { operation: Operation::LDY, address_mode: AddressMode::ZeroPage, instruction_bytes: 2, cycles: 3 },
        0xA5 => Instruction { operation: Operation::LDA, address_mode: AddressMode::ZeroPage, instruction_bytes: 2, cycles: 3 },
        0xA6 => Instruction { operation: Operation::LDX, address_mode: AddressMode::ZeroPage, instruction_bytes: 2, cycles: 3 },
        0xA8 => Instruction { operation: Operation::TAY, address_mode: AddressMode::Implied, instruction_bytes: 1, cycles: 2 },
        0xA9 => Instruction { operation: Operation::LDA, address_mode: AddressMode::Immediate, instruction_bytes: 2, cycles: 2 },
        0xAA => Instruction { operation: Operation::TAX, address_mode: AddressMode::Implied, instruction_bytes: 1, cycles: 2 },
        0xAC => Instruction { operation: Operation::LDY, address_mode: AddressMode::Absolute, instruction_bytes: 3, cycles: 4 },
        0xAD => Instruction { operation: Operation::LDA, address_mode: AddressMode::Absolute, instruction_bytes: 3, cycles: 4 },
        0xAE => Instruction { operation: Operation::LDX, address_mode: AddressMode::Absolute, instruction_bytes: 3, cycles: 4 },
        0xB0 => Instruction { operation: Operation::BCS, address_mode: AddressMode::Relative, instruction_bytes: 2, cycles: 2 },
        0xB1 => Instruction { operation: Operation::LDA, address_mode: AddressMode::IndirectY, instruction_bytes: 2, cycles: 5 },
        0xB4 => Instruction { operation: Operation::LDY, address_mode: AddressMode::ZeroPageX, instruction_bytes: 2, cycles: 4 },
        0xB5 => Instruction { operation: Operation::LDA, address_mode: AddressMode::ZeroPageX, instruction_bytes: 2, cycles: 4 },
        0xB6 => Instruction { operation: Operation::LDX, address_mode: AddressMode::ZeroPageY, instruction_bytes: 2, cycles: 4 },
        0xB8 => Instruction { operation: Operation::CLV, address_mode: AddressMode::Implied, instruction_bytes: 1, cycles: 2 },
        0xB9 => Instruction { operation: Operation::LDA, address_mode: AddressMode::AbsoluteY, instruction_bytes: 3, cycles: 4 },
        0xBA => Instruction { operation: Operation::TSX, address_mode: AddressMode::Implied, instruction_bytes: 1, cycles: 2 },
        0xBC => Instruction { operation: Operation::LDY, address_mode: AddressMode::AbsoluteX, instruction_bytes: 3, cycles: 4 },
        0xBD => Instruction { operation: Operation::LDA, address_mode: AddressMode::AbsoluteX, instruction_bytes: 3, cycles: 4 },
        0xBE => Instruction { operation: Operation::LDX, address_mode: AddressMode::AbsoluteY, instruction_bytes: 3, cycles: 4 },
        0xC0 => Instruction { operation: Operation::CPY, address_mode: AddressMode::Immediate, instruction_bytes: 2, cycles: 2 },
        0xC1 => Instruction { operation: Operation::CMP, address_mode: AddressMode::IndirectX, instruction_bytes: 2, cycles: 6 },
        0xC4 => Instruction { operation: Operation::CPY, address_mode: AddressMode::ZeroPage, instruction_bytes: 2, cycles: 3 },
        0xC5 => Instruction { operation: Operation::CMP, address_mode: AddressMode::ZeroPage, instruction_bytes: 2, cycles: 3 },
        0xC6 => Instruction { operation: Operation::DEC, address_mode: AddressMode::ZeroPage, instruction_bytes: 2, cycles: 5 },
        0xC8 => Instruction { operation: Operation::INY, address_mode: AddressMode::Implied, instruction_bytes: 1, cycles: 2 },
        0xC9 => Instruction { operation: Operation::CMP, address_mode: AddressMode::Immediate, instruction_bytes: 2, cycles: 2 },
        0xCA => Instruction { operation: Operation::DEX, address_mode: AddressMode::Implied, instruction_bytes: 1, cycles: 2 },
        0xCC => Instruction { operation: Operation::CPY, address_mode: AddressMode::Absolute, instruction_bytes: 3, cycles: 4 },
        0xCD => Instruction { operation: Operation::CMP, address_mode: AddressMode::Absolute, instruction_bytes: 3, cycles: 4 },
        0xCE => Instruction { operation: Operation::DEC, address_mode: AddressMode::Absolute, instruction_bytes: 3, cycles: 6 },
        0xD0 => Instruction { operation: Operation::BNE, address_mode: AddressMode::Relative, instruction_bytes: 2, cycles: 2 },
        0xD1 => Instruction { operation: Operation::CMP, address_mode: AddressMode::IndirectY, instruction_bytes: 2, cycles: 5 },
        0xD5 => Instruction { operation: Operation::CMP, address_mode: AddressMode::ZeroPageX, instruction_bytes: 2, cycles: 4 },
        0xD6 => Instruction { operation: Operation::DEC, address_mode: AddressMode::ZeroPageX, instruction_bytes: 2, cycles: 6 },
        0xD8 => Instruction { operation: Operation::CLD, address_mode: AddressMode::Implied, instruction_bytes: 1, cycles: 2 },
        0xD9 => Instruction { operation: Operation::CMP, address_mode: AddressMode::AbsoluteY, instruction_bytes: 3, cycles: 4 },
        0xDD => Instruction { operation: Operation::CMP, address_mode: AddressMode::AbsoluteX, instruction_bytes: 3, cycles: 4 },
        0xDE => Instruction { operation: Operation::DEC, address_mode: AddressMode::AbsoluteX, instruction_bytes: 3, cycles: 7 },
        0xE0 => Instruction { operation: Operation::CPX, address_mode: AddressMode::Immediate, instruction_bytes: 2, cycles: 2 },
        0xE1 => Instruction { operation: Operation::SBC, address_mode: AddressMode::IndirectX, instruction_bytes: 2, cycles: 6 },
        0xE4 => Instruction { operation: Operation::CPX, address_mode: AddressMode::ZeroPage, instruction_bytes: 2, cycles: 3 },
        0xE5 => Instruction { operation: Operation::SBC, address_mode: AddressMode::ZeroPage, instruction_bytes: 2, cycles: 3 },
        0xE6 => Instruction { operation: Operation::INC, address_mode: AddressMode::ZeroPage, instruction_bytes: 2, cycles: 5 },
        0xE8 => Instruction { operation: Operation::INX, address_mode: AddressMode::Implied, instruction_bytes: 1, cycles: 2 },
        0xE9 => Instruction { operation: Operation::SBC, address_mode: AddressMode::Immediate, instruction_bytes: 2, cycles: 2 },
        0xEA => Instruction { operation: Operation::NOP, address_mode: AddressMode::Implied, instruction_bytes: 1, cycles: 2 },
        0xEC => Instruction { operation: Operation::CPX, address_mode: AddressMode::Absolute, instruction_bytes: 3, cycles: 4 },
        0xED => Instruction { operation: Operation::SBC, address_mode: AddressMode::Absolute, instruction_bytes: 3, cycles: 4 },
        0xEE => Instruction { operation: Operation::INC, address_mode: AddressMode::Absolute, instruction_bytes: 3, cycles: 6 },
        0xF0 => Instruction { operation: Operation::BEQ, address_mode: AddressMode::Relative, instruction_bytes: 2, cycles: 2 },
        0xF1 => Instruction { operation: Operation::SBC, address_mode: AddressMode::IndirectY, instruction_bytes: 2, cycles: 5 },
        0xF5 => Instruction { operation: Operation::SBC, address_mode: AddressMode::ZeroPageX, instruction_bytes: 2, cycles: 4 },
        0xF6 => Instruction { operation: Operation::INC, address_mode: AddressMode::ZeroPageX, instruction_bytes: 2, cycles: 6 },
        0xF8 => Instruction { operation: Operation::SED, address_mode: AddressMode::Implied, instruction_bytes: 1, cycles: 2 },
        0xF9 => Instruction { operation: Operation::SBC, address_mode: AddressMode::AbsoluteY, instruction_bytes: 3, cycles: 4 },
        0xFD => Instruction { operation: Operation::SBC, address_mode: AddressMode::AbsoluteX, instruction_bytes: 3, cycles: 4 },
        0xFE => Instruction { operation: Operation::INC, address_mode: AddressMode::AbsoluteX, instruction_bytes: 3, cycles: 7 },
        _ => spec_invalid(),
    }
}

/// Looks one opcode up in the instruction table; total on all 256 opcodes.
#[verifier::rlimit(100)]
pub fn get_instruction(opcode: u8) -> (r: Instruction)
    ensures
        r == spec_decode(opcode),
{
    proof {
        reveal(spec_decode);
    }
    match opcode {
        0x00 => Instruction::new(Operation::BRK, AddressMode::Implied, 1, 7),
        0x01 => Instruction::new(Operation::ORA, AddressMode::IndirectX, 2, 6),
        0x05 => Instruction::new(Operation::ORA, AddressMode::ZeroPage, 2, 3),
        0x06 => Instruction::new(Operation::ASL, AddressMode::ZeroPage, 2, 5),
        0x08 => Instruction::new(Operation::PHP, AddressMode::Implied, 1, 3),
        0x09 => Instruction::new(Operation::ORA, AddressMode::Immediate, 2, 2),
        0x0A => Instruction::new(Operation::ASL, AddressMode::Accumulator, 1, 2),
        0x0D => Instruction::new(Operation::ORA, AddressMode::Absolute, 3, 4),
        0x0E => Instruction::new(Operation::ASL, AddressMode::Absolute, 3, 6),
        0x10 => Instruction::new(Operation::BPL, AddressMode::Relative, 2, 2),
        0x11 => Instruction::new(Operation::ORA, AddressMode::IndirectY, 2, 5),
        0x15 => Instruction::new(Operation::ORA, AddressMode::ZeroPageX, 2, 4),
        0x16 => Instruction::new(Operation::ASL, AddressMode::ZeroPageX, 2, 6),
        0x18 => Instruction::new(Operation::CLC, AddressMode::Implied, 1, 2),
        0x19 => Instruction::new(Operation::ORA, AddressMode::AbsoluteY, 3, 4),
        0x1D => Instruction::new(Operation::ORA, AddressMode::AbsoluteX, 3, 4),
        0x1E => Instruction::new(Operation::ASL, AddressMode::AbsoluteX, 3, 7),
        0x20 => Instruction::new(Operation::JSR, AddressMode::Absolute, 3, 6),
        0x21 => Instruction::new(Operation::AND, AddressMode::IndirectX, 2, 6),
        0x24 => Instruction::new(Operation::BIT, AddressMode::ZeroPage, 2, 3),
        0x25 => Instruction::new(Operation::AND, AddressMode::ZeroPage, 2, 3),
        0x26 => Instruction::new(Operation::ROL, AddressMode::ZeroPage, 2, 5),
        0x28 => Instruction::new(Operation::PLP, AddressMode::Implied, 1, 4),
        0x29 => Instruction::new(Operation::AND, AddressMode::Immediate, 2, 2),
        0x2A => Instruction::new(Operation::ROL, AddressMode::Accumulator, 1, 2),
        0x2C => Instruction::new(Operation::BIT, AddressMode::Absolute, 3, 4),
        0x2D => Instruction::new(Operation::AND, AddressMode::Absolute, 3, 4),
        0x2E => Instruction::new(Operation::ROL, AddressMode::Absolute, 3, 6),
        0x30 => Instruction::new(Operation::BMI, AddressMode::Relative, 2, 2),
        0x31 => Instruction::new(Operation::AND, AddressMode::IndirectY, 2, 5),
        0x35 => Instruction::new(Operation::AND, AddressMode::ZeroPageX, 2, 4),
        0x36 => Instruction::new(Operation::ROL, AddressMode::ZeroPageX, 2, 6),
        0x38 => Instruction::new(Operation::SEC, AddressMode::Implied, 1, 2),
        0x39 => Instruction::new(Operation::AND, AddressMode::AbsoluteY, 3, 4),
        0x3D => Instruction::new(Operation::AND, AddressMode::AbsoluteX, 3, 4),
        0x3E => Instruction::new(Operation::ROL, AddressMode::AbsoluteX, 3, 7),
        0x40 => Instruction::new(Operation::RTI, AddressMode::Implied, 1, 6),
        0x41 => Instruction::new(Operation::EOR, AddressMode::IndirectX, 2, 6),
        0x45 => Instruction::new(Operation::EOR, AddressMode::ZeroPage, 2, 3),
        0x46 => Instruction::new(Operation::LSR, AddressMode::ZeroPage, 2, 5),
        0x48 => Instruction::new(Operation::PHA, AddressMode::Implied, 1, 3),
        0x49 => Instruction::new(Operation::EOR, AddressMode::Immediate, 2, 2),
        0x4A => Instruction::new(Operation::LSR, AddressMode::Accumulator, 1, 2),
        0x4C => Instruction::new(Operation::JMP, AddressMode::Absolute, 3, 3),
        0x4D => Instruction::new(Operation::EOR, AddressMode::Absolute, 3, 4),
        0x4E => Instruction::new(Operation::LSR, AddressMode::Absolute, 3, 6),
        0x50 => Instruction::new(Operation::BVC, AddressMode::Relative, 2, 2),
        0x51 => Instruction::new(Operation::EOR, AddressMode::IndirectY, 2, 5),
        0x55 => Instruction::new(Operation::EOR, AddressMode::ZeroPageX, 2, 4),
        0x56 => Instruction::new(Operation::LSR, AddressMode::ZeroPageX, 2, 6),
        0x58 => Instruction::new(Operation::CLI, AddressMode::Implied, 1, 2),
        0x59 => Instruction::new(Operation::EOR, AddressMode::AbsoluteY, 3, 4),
        0x5D => Instruction::new(Operation::EOR, AddressMode::AbsoluteX, 3, 4),
        0x5E => Instruction::new(Operation::LSR, AddressMode::AbsoluteX, 3, 7),
        0x60 => Instruction::new(Operation::RTS, AddressMode::Implied, 1, 6),
        0x61 => Instruction::new(Operation::ADC, AddressMode::IndirectX, 2, 6),
        0x65 => Instruction::new(Operation::ADC, AddressMode::ZeroPage, 2, 3),
        0x66 => Instruction::new(Operation::ROR, AddressMode::ZeroPage, 2, 5),
        0x68 => Instruction::new(Operation::PLA, AddressMode::Implied, 1, 4),
        0x69 => Instruction::new(Operation::ADC, AddressMode::Immediate, 2, 2),
        0x6A => Instruction::new(Operation::ROR, AddressMode::Accumulator, 1, 2),
        0x6C => Instruction::new(Operation::JMP, AddressMode::AbsoluteIndirect, 3, 5),
        0x6D => Instruction::new(Operation::ADC, AddressMode::Absolute, 3, 4),
        0x6E => Instruction::new(Operation::ROR, AddressMode::Absolute, 3, 6),
        0x70 => Instruction::new(Operation::BVS, AddressMode::Relative, 2, 2),
        0x71 => Instruction::new(Operation::ADC, AddressMode::IndirectY, 2, 5),
        0x75 => Instruction::new(Operation::ADC, AddressMode::ZeroPageX, 2, 4),
        0x76 => Instruction::new(Operation::ROR, AddressMode::ZeroPageX, 2, 6),
        0x78 => Instruction::new(Operation::SEI, AddressMode::Implied, 1, 2),
        0x79 => Instruction::new(Operation::ADC, AddressMode::AbsoluteY, 3, 4),
        0x7D => Instruction::new(Operation::ADC, AddressMode::AbsoluteX, 3, 4),
        0x7E => Instruction::new(Operation::ROR, AddressMode::AbsoluteX, 3, 7),
        0x81 => Instruction::new(Operation::STA, AddressMode::IndirectX, 2, 6),
        0x84 => Instruction::new(Operation::STY, AddressMode::ZeroPage, 2, 3),
        0x85 => Instruction::new(Operation::STA, AddressMode::ZeroPage, 2, 3),
        0x86 => Instruction::new(Operation::STX, AddressMode::ZeroPage, 2, 3),
        0x88 => Instruction::new(Operation::DEY, AddressMode::Implied, 1, 2),
        0x8A => Instruction::new(Operation::TXA, AddressMode::Implied, 1, 2),
        0x8C => Instruction::new(Operation::STY, AddressMode::Absolute, 3, 4),
        0x8D => Instruction::new(Operation::STA, AddressMode::Absolute, 3, 4),
        0x8E => Instruction::new(Operation::STX, AddressMode::Absolute, 3, 4),
        0x90 => Instruction::new(Operation::BCC, AddressMode::Relative, 2, 2),
        0x91 => Instruction::new(Operation::STA, AddressMode::IndirectY, 2, 6),
        0x94 => Instruction::new(Operation::STY, AddressMode::ZeroPageX, 2, 4),
        0x95 => Instruction::new(Operation::STA, AddressMode::ZeroPageX, 2, 4),
        0x96 => Instruction::new(Operation::STX, AddressMode::ZeroPageY, 2, 4),
        0x98 => Instruction::new(Operation::TYA, AddressMode::Implied, 1, 2),
        0x99 => Instruction::new(Operation::STA, AddressMode::AbsoluteY, 3, 5),
        0x9A => Instruction::new(Operation::TXS, AddressMode::Implied, 1, 2),
        0x9D => Instruction::new(Operation::STA, AddressMode::AbsoluteX, 3, 5),
        0xA0 => Instruction::new(Operation::LDY, AddressMode::Immediate, 2, 2),
        0xA1 => Instruction::new(Operation::LDA, AddressMode::IndirectX, 2, 6),
        0xA2 => Instruction::new(Operation::LDX, AddressMode::Immediate, 2, 2),
        0xA4 => Instruction::new(Operation::LDY, AddressMode::ZeroPage, 2, 3),
        0xA5 => Instruction::new(Operation::LDA, AddressMode::ZeroPage, 2, 3),
        0xA6 => Instruction::new(Operation::LDX, AddressMode::ZeroPage, 2, 3),
        0xA8 => Instruction::new(Operation::TAY, AddressMode::Implied, 1, 2),
        0xA9 => Instruction::new(Operation::LDA, AddressMode::Immediate, 2, 2),
        0xAA => Instruction::new(Operation::TAX, AddressMode::Implied, 1, 2),
        0xAC => Instruction::new(Operation::LDY, AddressMode::Absolute, 3, 4),
        0xAD => Instruction::new(Operation::LDA, AddressMode::Absolute, 3, 4),
        0xAE => Instruction::new(Operation::LDX, AddressMode::Absolute, 3, 4),
        0xB0 => Instruction::new(Operation::BCS, AddressMode::Relative, 2, 2),
        0xB1 => Instruction::new(Operation::LDA, AddressMode::IndirectY, 2, 5),
        0xB4 => Instruction::new(Operation::LDY, AddressMode::ZeroPageX, 2, 4),
        0xB5 => Instruction::new(Operation::LDA, AddressMode::ZeroPageX, 2, 4),
        0xB6 => Instruction::new(Operation::LDX, AddressMode::ZeroPageY, 2, 4),
        0xB8 => Instruction::new(Operation::CLV, AddressMode::Implied, 1, 2),
        0xB9 => Instruction::new(Operation::LDA, AddressMode::AbsoluteY, 3, 4),
        0xBA => Instruction::new(Operation::TSX, AddressMode::Implied, 1, 2),
        0xBC => Instruction::new(Operation::LDY, AddressMode::AbsoluteX, 3, 4),
        0xBD => Instruction::new(Operation::LDA, AddressMode::AbsoluteX, 3, 4),
        0xBE => Instruction::new(Operation::LDX, AddressMode::AbsoluteY, 3, 4),
        0xC0 => Instruction::new(Operation::CPY, AddressMode::Immediate, 2, 2),
        0xC1 => Instruction::new(Operation::CMP, AddressMode::IndirectX, 2, 6),
        0xC4 => Instruction::new(Operation::CPY, AddressMode::ZeroPage, 2, 3),
        0xC5 => Instruction::new(Operation::CMP, AddressMode::ZeroPage, 2, 3),
        0xC6 => Instruction::new(Operation::DEC, AddressMode::ZeroPage, 2, 5),
        0xC8 => Instruction::new(Operation::INY, AddressMode::Implied, 1, 2),
        0xC9 => Instruction::new(Operation::CMP, AddressMode::Immediate, 2, 2),
        0xCA => Instruction::new(Operation::DEX, AddressMode::Implied, 1, 2),
        0xCC => Instruction::new(Operation::CPY, AddressMode::Absolute, 3, 4),
        0xCD => Instruction::new(Operation::CMP, AddressMode::Absolute, 3, 4),
        0xCE => Instruction::new(Operation::DEC, AddressMode::Absolute, 3, 6),
        0xD0 => Instruction::new(Operation::BNE, AddressMode::Relative, 2, 2),
        0xD1 => Instruction::new(Operation::CMP, AddressMode::IndirectY, 2, 5),
        0xD5 => Instruction::new(Operation::CMP, AddressMode::ZeroPageX, 2, 4),
        0xD6 => Instruction::new(Operation::DEC, AddressMode::ZeroPageX, 2, 6),
        0xD8 => Instruction::new(Operation::CLD, AddressMode::Implied, 1, 2),
        0xD9 => Instruction::new(Operation::CMP, AddressMode::AbsoluteY, 3, 4),
        0xDD => Instruction::new(Operation::CMP, AddressMode::AbsoluteX, 3, 4),
        0xDE => Instruction::new(Operation::DEC, AddressMode::AbsoluteX, 3, 7),
        0xE0 => Instruction::new(Operation::CPX, AddressMode::Immediate, 2, 2),
        0xE1 => Instruction::new(Operation::SBC, AddressMode::IndirectX, 2, 6),
        0xE4 => Instruction::new(Operation::CPX, AddressMode::ZeroPage, 2, 3),
        0xE5 => Instruction::new(Operation::SBC, AddressMode::ZeroPage, 2, 3),
        0xE6 => Instruction::new(Operation::INC, AddressMode::ZeroPage, 2, 5),
        0xE8 => Instruction::new(Operation::INX, AddressMode::Implied, 1, 2),
        0xE9 => Instruction::new(Operation::SBC, AddressMode::Immediate, 2, 2),
        0xEA => Instruction::new(Operation::NOP, AddressMode::Implied, 1, 2),
        0xEC => Instruction::new(Operation::CPX, AddressMode::Absolute, 3, 4),
        0xED => Instruction::new(Operation::SBC, AddressMode::Absolute, 3, 4),
        0xEE => Instruction::new(Operation::INC, AddressMode::Absolute, 3, 6),
        0xF0 => Instruction::new(Operation::BEQ, AddressMode::Relative, 2, 2),
        0xF1 => Instruction::new(Operation::SBC, AddressMode::IndirectY, 2, 5),
        0xF5 => Instruction::new(Operation::SBC, AddressMode::ZeroPageX, 2, 4),
        0xF6 => Instruction::new(Operation::INC, AddressMode::ZeroPageX, 2, 6),
        0xF8 => Instruction::new(Operation::SED, AddressMode::Implied, 1, 2),
        0xF9 => Instruction::new(Operation::SBC, AddressMode::AbsoluteY, 3, 4),
        0xFD => Instruction::new(Operation::SBC, AddressMode::AbsoluteX, 3, 4),
        0xFE => Instruction::new(Operation::INC, AddressMode::AbsoluteX, 3, 7),
        _ => Instruction::invalid(),
    }
}

/// Decoding is total: every opcode yields a descriptor, and every descriptor
/// declares at most three instruction bytes and at most seven base cycles,
/// with the invalid operation exactly where the invalid mode is.
pub proof fn lemma_decode_total(opcode: u8)
    ensures
        spec_decode(opcode).instruction_bytes <= 3,
        spec_decode(opcode).cycles <= 7,
        (spec_decode(opcode).operation == Operation::XXX) <==> (spec_decode(
            opcode,
        ).address_mode == AddressMode::XXX),
{
    reveal(spec_decode);
}

} // verus!
