use mos6502::cpu::Cpu;
use mos6502::cpu::instruction::{AddressMode, Operation};

#[test]
fn decrements_memory() {
    let mut cpu = Cpu::new();
    cpu.write_addr(0x0000, 0xFF);
    cpu.perform_operation(0x0000, &Operation::DEC, &AddressMode::XXX);
    assert_eq!(cpu.read_addr(0x0000), 0xFE);
}

#[test]
fn dec_flag_n() {
    let mut cpu = Cpu::new();
    cpu.write_addr(0x0000, 0xFF);
    cpu.perform_operation(0x0000, &Operation::DEC, &AddressMode::XXX);
    assert_eq!(cpu.get_status(), 0b1000_0000);
}

#[test]
fn dec_flag_z() {
    let mut cpu = Cpu::new();
    cpu.write_addr(0x0000, 0x01);
    cpu.perform_operation(0x0000, &Operation::DEC, &AddressMode::XXX);
    assert_eq!(cpu.get_status(), 0b0000_0010);
}

#[test]
fn dex_decrements_register() {
    let mut cpu = Cpu::new();
    cpu.set_x(0xFF);
    cpu.perform_operation(0x0000, &Operation::DEX, &AddressMode::XXX);
    assert_eq!(cpu.get_x(), 0xFE);
}

#[test]
fn dex_flag_n() {
    let mut cpu = Cpu::new();
    cpu.set_x(0xFF);
    cpu.perform_operation(0x0000, &Operation::DEX, &AddressMode::XXX);
    assert_eq!(cpu.get_status(), 0b1000_0000);
}

#[test]
fn dex_flag_z() {
    let mut cpu = Cpu::new();
    cpu.set_x(0x01);
    cpu.perform_operation(0x0000, &Operation::DEX, &AddressMode::XXX);
    assert_eq!(cpu.get_status(), 0b0000_0010);
}

#[test]
fn dey_decrements_register() {
    let mut cpu = Cpu::new();
    cpu.set_y(0xFF);
    cpu.perform_operation(0x0000, &Operation::DEY, &AddressMode::XXX);
    assert_eq!(cpu.get_y(), 0xFE);
}

#[test]
fn dey_flag_n() {
    let mut cpu = Cpu::new();
    cpu.set_y(0xFF);
    cpu.perform_operation(0x0000, &Operation::DEY, &AddressMode::XXX);
    assert_eq!(cpu.get_status(), 0b1000_0000);
}

#[test]
fn dey_flag_z() {
    let mut cpu = Cpu::new();
    cpu.set_y(0x01);
    cpu.perform_operation(0x0000, &Operation::DEY, &AddressMode::XXX);
    assert_eq!(cpu.get_status(), 0b0000_0010);
}
