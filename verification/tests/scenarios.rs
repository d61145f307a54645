use mos6502::cpu::instruction::{AddressMode, Operation};
use mos6502::cpu::Cpu;

#[test]
fn adc_scenario_no_flags() {
    let mut cpu = Cpu::new();
    cpu.set_acc(0x01);
    cpu.write_addr(0x0000, 0x01);
    cpu.set_status(0x00);
    cpu.perform_operation(0x0000, &Operation::ADC, &AddressMode::XXX);
    assert_eq!(cpu.get_acc(), 0x02);
    assert_eq!(cpu.get_status(), 0x00);
}

#[test]
fn adc_scenario_signed_overflow_pos_to_neg() {
    let mut cpu = Cpu::new();
    cpu.set_acc(0x7F);
    cpu.write_addr(0x0000, 0x7F);
    cpu.set_status(0x00);
    cpu.perform_operation(0x0000, &Operation::ADC, &AddressMode::XXX);
    assert_eq!(cpu.get_acc(), 0xFE);
    assert_eq!(cpu.get_status(), 0xC0);
}

#[test]
fn brk_scenario_vectors_and_stack() {
    let mut cpu = Cpu::new();
    cpu.set_pc(0x10F0);
    cpu.write_addr(0xFFFE, 0x04);
    cpu.write_addr(0xFFFF, 0x40);
    cpu.perform_operation(0x0000, &Operation::BRK, &AddressMode::XXX);
    assert_eq!(cpu.get_pc(), 0x4004);
    // The pushed status has both break and interrupt-disable set.
    assert_eq!(cpu.stack_pop(), 0b0001_0100);
    // Below it sits the incremented program counter, low byte on top.
    assert_eq!(cpu.stack_pop(), 0xF1);
    assert_eq!(cpu.stack_pop(), 0x10);
}

#[test]
fn indexed_indirect_x_scenario() {
    let mut cpu = Cpu::new();
    cpu.set_pc(0x0400);
    cpu.set_x(0x00);
    cpu.write_addr(0x0020, 0xAD);
    cpu.write_addr(0x0021, 0xFA);
    cpu.write_addr(0x0400, 0x20);
    let ptr = cpu.get_data_ptr(&AddressMode::IndirectX);
    assert_eq!(ptr, 0xFAAD);
}

#[test]
fn jmp_indirect_page_boundary_scenario() {
    let mut cpu = Cpu::new();
    cpu.set_pc(0x0400);
    cpu.write_addr(0x0400, 0xFF);
    cpu.write_addr(0x0401, 0xCD);
    cpu.write_addr(0xCDFF, 0xAF);
    cpu.write_addr(0xCD00, 0xBA);
    cpu.write_addr(0xCE00, 0xFA);
    let ptr = cpu.get_data_ptr(&AddressMode::AbsoluteIndirect);
    // The high byte comes from 0xCD00, not from 0xCE00.
    assert_eq!(ptr, 0xBAAF);
}

#[test]
fn branch_page_cross_cycle_scenario() {
    let mut cpu = Cpu::new();
    cpu.set_pc(0x00FC);
    cpu.set_status(0b0000_0010);
    // BEQ with offset 0x08: taken, and the destination crosses a page.
    cpu.write_addr(0x00FC, 0xF0);
    cpu.write_addr(0x00FD, 0x08);
    cpu.clock();
    assert_eq!(cpu.get_pc(), 0x0106);
    // Base cost 2, plus 1 for the taken branch, plus 1 for the page cross.
    assert_eq!(cpu.get_cycles(), 4);
}
