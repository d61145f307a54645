use mos6502::cpu::Cpu;
use mos6502::cpu::instruction::{AddressMode, Operation};

#[test]
fn cmp_flag_c_gt() {
    let mut cpu = Cpu::new();
    cpu.set_acc(0x10);
    cpu.write_addr(0x0000, 0x02);
    cpu.perform_operation(0x0000, &Operation::CMP, &AddressMode::XXX);
    assert_eq!(cpu.get_status(), 0b0000_0001);
}

#[test]
fn cmp_flag_c_et() {
    let mut cpu = Cpu::new();
    cpu.set_acc(0x10);
    cpu.write_addr(0x0000, 0x10);
    cpu.perform_operation(0x0000, &Operation::CMP, &AddressMode::XXX);
    assert_eq!(cpu.get_status(), 0b0000_0011);
}

#[test]
fn cmp_flag_z() {
    let mut cpu = Cpu::new();
    cpu.set_acc(0x10);
    cpu.write_addr(0x0000, 0x10);
    cpu.perform_operation(0x0000, &Operation::CMP, &AddressMode::XXX);
    assert_eq!(cpu.get_status(), 0b0000_0011);
}

#[test]
fn cmp_flag_n() {
    let mut cpu = Cpu::new();
    cpu.set_acc(0x83);
    cpu.write_addr(0x0000, 0x02);
    cpu.perform_operation(0x0000, &Operation::CMP, &AddressMode::XXX);
    assert_eq!(cpu.get_status(), 0b1000_0001);
}

#[test]
fn cpx_flag_c_gt() {
    let mut cpu = Cpu::new();
    cpu.set_x(0x10);
    cpu.write_addr(0x0000, 0x02);
    cpu.perform_operation(0x0000, &Operation::CPX, &AddressMode::XXX);
    assert_eq!(cpu.get_status(), 0b0000_0001);
}

#[test]
fn cpx_flag_c_et() {
    let mut cpu = Cpu::new();
    cpu.set_x(0x10);
    cpu.write_addr(0x0000, 0x10);
    cpu.perform_operation(0x0000, &Operation::CPX, &AddressMode::XXX);
    assert_eq!(cpu.get_status(), 0b0000_0011);
}

#[test]
fn cpx_flag_z() {
    let mut cpu = Cpu::new();
    cpu.set_x(0x10);
    cpu.write_addr(0x0000, 0x10);
    cpu.perform_operation(0x0000, &Operation::CPX, &AddressMode::XXX);
    assert_eq!(cpu.get_status(), 0b0000_0011);
}

#[test]
fn cpx_flag_n() {
    let mut cpu = Cpu::new();
    cpu.set_x(0x83);
    cpu.write_addr(0x0000, 0x02);
    cpu.perform_operation(0x0000, &Operation::CPX, &AddressMode::XXX);
    assert_eq!(cpu.get_status(), 0b1000_0001);
}

#[test]
fn cpy_flag_c_gt() {
    let mut cpu = Cpu::new();
    cpu.set_y(0x10);
    cpu.write_addr(0x0000, 0x02);
    cpu.perform_operation(0x0000, &Operation::CPY, &AddressMode::XXX);
    assert_eq!(cpu.get_status(), 0b0000_0001);
}

#[test]
fn cpy_flag_c_et() {
    let mut cpu = Cpu::new();
    cpu.set_y(0x10);
    cpu.write_addr(0x0000, 0x10);
    cpu.perform_operation(0x0000, &Operation::CPY, &AddressMode::XXX);
    assert_eq!(cpu.get_status(), 0b0000_0011);
}

#[test]
fn cpy_flag_z() {
    let mut cpu = Cpu::new();
    cpu.set_y(0x10);
    cpu.write_addr(0x0000, 0x10);
    cpu.perform_operation(0x0000, &Operation::CPY, &AddressMode::XXX);
    assert_eq!(cpu.get_status(), 0b0000_0011);
}

#[test]
fn cpy_flag_n() {
    let mut cpu = Cpu::new();
    cpu.set_y(0x83);
    cpu.write_addr(0x0000, 0x02);
    cpu.perform_operation(0x0000, &Operation::CPY, &AddressMode::XXX);
    assert_eq!(cpu.get_status(), 0b1000_0001);
}
