use mos6502::cpu::Cpu;
use mos6502::cpu::instruction::{AddressMode, Operation};

#[test]
fn adc_flag_none() {
    let mut cpu = Cpu::new();
    cpu.set_acc(0b0000_0001);
    cpu.write_addr(0x0000, 0b0000_0001);
    cpu.perform_operation(0x0000, &Operation::ADC, &AddressMode::XXX);
    assert_eq!(cpu.get_acc(), 0b0000_0010);
    assert_eq!(cpu.get_status(), 0b0000_0000);
}

#[test]
fn adc_flag_z() {
    let mut cpu = Cpu::new();
    cpu.set_acc(0b0000_0000);
    cpu.write_addr(0x0000, 0b0000_0000);
    cpu.perform_operation(0x0000, &Operation::ADC, &AddressMode::XXX);
    assert_eq!(cpu.get_acc(), 0b0000_0000);
    assert_eq!(cpu.get_status(), 0b0000_0010);
}

#[test]
fn adc_flag_v_pos_neg() {
    let mut cpu = Cpu::new();
    cpu.set_acc(0b0111_1111);
    cpu.write_addr(0x0000, 0b0111_1111);
    cpu.perform_operation(0x0000, &Operation::ADC, &AddressMode::XXX);
    assert_eq!(cpu.get_acc(), 0b1111_1110);
    assert_eq!(cpu.get_status(), 0b1100_0000);
}

#[test]
fn adc_flag_v_neg_pos() {
    let mut cpu = Cpu::new();
    cpu.set_acc(0b1011_1111);
    cpu.write_addr(0x0000, 0b1011_1111);
    cpu.perform_operation(0x0000, &Operation::ADC, &AddressMode::XXX);
    assert_eq!(cpu.get_acc(), 0b0111_1110);
    assert_eq!(cpu.get_status(), 0b0100_0001);
}

#[test]
fn adc_flag_c() {
    let mut cpu = Cpu::new();
    cpu.set_acc(0b1111_1111);
    cpu.write_addr(0x0000, 0b1111_1111);
    cpu.perform_operation(0x0000, &Operation::ADC, &AddressMode::XXX);
    assert_eq!(cpu.get_acc(), 0b1111_1110);
    assert_eq!(cpu.get_status(), 0b1000_0001);
}

#[test]
fn sbc_flag_none() {
    let mut cpu = Cpu::new();
    cpu.set_acc(0b0000_0001);
    cpu.write_addr(0x0000, !0b0000_0001);
    cpu.perform_operation(0x0000, &Operation::SBC, &AddressMode::XXX);
    assert_eq!(cpu.get_acc(), 0b0000_0010);
    assert_eq!(cpu.get_status(), 0b0000_0000);
}

#[test]
fn sbc_flag_z() {
    let mut cpu = Cpu::new();
    cpu.set_acc(0b0000_0000);
    cpu.write_addr(0x0000, !0b0000_0000);
    cpu.perform_operation(0x0000, &Operation::SBC, &AddressMode::XXX);
    assert_eq!(cpu.get_acc(), 0b0000_0000);
    assert_eq!(cpu.get_status(), 0b0000_0010);
}

#[test]
fn sbc_flag_v_pos_neg() {
    let mut cpu = Cpu::new();
    cpu.set_acc(0b0111_1111);
    cpu.write_addr(0x0000, !0b0111_1111);
    cpu.perform_operation(0x0000, &Operation::SBC, &AddressMode::XXX);
    assert_eq!(cpu.get_acc(), 0b1111_1110);
    assert_eq!(cpu.get_status(), 0b1100_0000);
}

#[test]
fn sbc_flag_v_neg_pos() {
    let mut cpu = Cpu::new();
    cpu.set_acc(0b1011_1111);
    cpu.write_addr(0x0000, !0b1011_1111);
    cpu.perform_operation(0x0000, &Operation::SBC, &AddressMode::XXX);
    assert_eq!(cpu.get_acc(), 0b0111_1110);
    assert_eq!(cpu.get_status(), 0b0100_0001);
}

#[test]
fn sbc_flag_c() {
    let mut cpu = Cpu::new();
    cpu.set_acc(0b1111_1111);
    cpu.write_addr(0x0000, !0b1111_1111);
    cpu.perform_operation(0x0000, &Operation::SBC, &AddressMode::XXX);
    assert_eq!(cpu.get_acc(), 0b1111_1110);
    assert_eq!(cpu.get_status(), 0b1000_0001);
}

#[test]
fn and_flag_none() {
    let mut cpu = Cpu::new();
    cpu.set_acc(0b1000_0001);
    cpu.write_addr(0x0000, 0b0000_0011);
    cpu.perform_operation(0x0000, &Operation::AND, &AddressMode::XXX);
    assert_eq!(cpu.get_status(), 0b0000_0000);
}

#[test]
fn and_flag_z() {
    let mut cpu = Cpu::new();
    cpu.set_acc(0b0001_0001);
    cpu.write_addr(0x0000, 0b000_0000);
    cpu.perform_operation(0x0000, &Operation::AND, &AddressMode::XXX);
    assert_eq!(cpu.get_status(), 0b0000_0010);
}

#[test]
fn and_flag_n() {
    let mut cpu = Cpu::new();
    cpu.set_acc(0b1000_0001);
    cpu.write_addr(0x0000, 0b1000_0000);
    cpu.perform_operation(0x0000, &Operation::AND, &AddressMode::XXX);
    assert_eq!(cpu.get_status(), 0b1000_0000);
}

#[test]
fn asl_flag_c() {
    let mut cpu = Cpu::new();
    cpu.write_addr(0x0000, 0b1000_1000);
    cpu.perform_operation(0x0000, &Operation::ASL, &AddressMode::XXX);
    assert_eq!(cpu.get_status(), 0b0000_0001);
}

#[test]
fn asl_flag_z() {
    let mut cpu = Cpu::new();
    cpu.write_addr(0x0000, 0b0000_0000);
    cpu.perform_operation(0x0000, &Operation::ASL, &AddressMode::XXX);
    assert_eq!(cpu.get_status(), 0b0000_0010);
}

#[test]
fn asl_flag_n() {
    let mut cpu = Cpu::new();
    cpu.write_addr(0x0000, 0b0100_0000);
    cpu.perform_operation(0x0000, &Operation::ASL, &AddressMode::XXX);
    assert_eq!(cpu.get_status(), 0b1000_0000);
}

#[test]
fn bit_flag_z() {
    let mut cpu = Cpu::new();
    cpu.set_acc(0);
    cpu.write_addr(0x0000, 0);
    cpu.perform_operation(0x0000, &Operation::BIT, &AddressMode::XXX);
    assert_eq!(cpu.get_status(), 0b0000_0010);
}

#[test]
fn bit_flag_n() {
    let mut cpu = Cpu::new();
    cpu.set_acc(0x80);
    cpu.write_addr(0x0000, 0x80);
    cpu.perform_operation(0x0000, &Operation::BIT, &AddressMode::XXX);
    assert_eq!(cpu.get_status(), 0b1000_0000);
}

#[test]
fn flag_v() {
    let mut cpu = Cpu::new();
    cpu.set_acc(0x40);
    cpu.write_addr(0x0000, 0x40);
    cpu.perform_operation(0x0000, &Operation::BIT, &AddressMode::XXX);
    assert_eq!(cpu.get_status(), 0b0100_0000);
}

#[test]
fn set_pc_to_brk_vector_address() {
    let mut cpu = Cpu::new();
    cpu.write_addr(0xFFFE, 0x04);
    cpu.write_addr(0xFFFF, 0x40);
    cpu.perform_operation(0x0000, &Operation::BRK, &AddressMode::XXX);
    assert_eq!(cpu.get_pc(), 0x4004);
}

#[test]
fn pushes_status_register_to_stack() {
    let mut cpu = Cpu::new();
    cpu.perform_operation(0x0000, &Operation::BRK, &AddressMode::XXX);
    let status = cpu.stack_pop();
    assert_eq!(status, 0b0001_0100);
}

#[test]
fn pushes_pc_to_stack_before_status_register() {
    let mut cpu = Cpu::new();
    cpu.set_pc(0x10F0);
    cpu.perform_operation(0x0000, &Operation::BRK, &AddressMode::XXX);
    // Remove status register
    let _ = cpu.stack_pop();
    // Get pc
    let pc_lo = cpu.stack_pop();
    let pc_hi = cpu.stack_pop();
    assert_eq!(pc_lo, 0xF1);
    assert_eq!(pc_hi, 0x10);
}

#[test]
fn flag_i_but_not_b() {
    let mut cpu = Cpu::new();
    cpu.perform_operation(0x0000, &Operation::BRK, &AddressMode::XXX);
    assert_eq!(cpu.get_status(), 0b0000_0100);
}

#[test]
fn eor_stores_result_in_accumulator() {
    let mut cpu = Cpu::new();
    cpu.set_acc(0b1100_1100);
    cpu.write_addr(0x0000, 0b1010_1010);
    cpu.perform_operation(0x0000, &Operation::EOR, &AddressMode::XXX);
    assert_eq!(cpu.get_acc(), 0b0110_0110);
}

#[test]
fn eor_flag_n() {
    let mut cpu = Cpu::new();
    cpu.set_acc(0b1100_1100);
    cpu.write_addr(0x0000, 0b0010_1010);
    cpu.perform_operation(0x0000, &Operation::EOR, &AddressMode::XXX);
    assert_eq!(cpu.get_status(), 0b1000_0000);
}

#[test]
fn eor_flag_z() {
    let mut cpu = Cpu::new();
    cpu.set_acc(0b0000_0000);
    cpu.write_addr(0x0000, 0b0000_0000);
    cpu.perform_operation(0x0000, &Operation::EOR, &AddressMode::XXX);
    assert_eq!(cpu.get_status(), 0b0000_0010);
}

#[test]
fn jmp_sets_pc_to_pointer_addr() {
    let mut cpu = Cpu::new();
    cpu.set_pc(0x0000 + 0x00F0);
    cpu.perform_operation(0x0000, &Operation::JMP, &AddressMode::XXX);
    assert_eq!(cpu.get_pc(), 0x0000);
}

#[test]
fn jsr_sets_pc_to_pointer_addr() {
    let mut cpu = Cpu::new();
    cpu.set_pc(0x0000 + 0x00F0);
    cpu.perform_operation(0x0000, &Operation::JSR, &AddressMode::XXX);
    assert_eq!(cpu.get_pc(), 0x0000);
}

#[test]
fn pushes_decremented_pc_to_stack() {
    let mut cpu = Cpu::new();
    cpu.set_pc(0x10FE);
    cpu.perform_operation(0x0000, &Operation::JSR, &AddressMode::XXX);

    let pc_lo = cpu.stack_pop();
    let pc_hi = cpu.stack_pop();
    assert_eq!(pc_lo, 0xFD);
    assert_eq!(pc_hi, 0x10);
}

#[test]
fn shifts_value_right() {
    let mut cpu = Cpu::new();
    cpu.write_addr(0x0000, 0b0110_0110);
    cpu.perform_operation(0x0000, &Operation::LSR, &AddressMode::XXX);
    assert_eq!(cpu.read_addr(0x0000), 0b0011_0011);
}

#[test]
fn lsr_rotates_accumulator_when_accumulator_address_mode() {
    let mut cpu = Cpu::new();
    cpu.set_acc(0b0110_0110);
    cpu.perform_operation(0x0000, &Operation::LSR, &AddressMode::Accumulator);
    assert_eq!(cpu.get_acc(), 0b0011_0011);
}

#[test]
fn does_not_shift_in_carry_bit() {
    let mut cpu = Cpu::new();
    cpu.set_status(0b0000_0001);
    cpu.set_acc(0b0110_0110);
    cpu.perform_operation(0x0000, &Operation::LSR, &AddressMode::Accumulator);
    assert_eq!(cpu.get_acc(), 0b0011_0011);
}

#[test]
fn lsr_flag_c() {
    let mut cpu = Cpu::new();
    cpu.write_addr(0x0000, 0b0110_0111);
    cpu.perform_operation(0x0000, &Operation::LSR, &AddressMode::XXX);
    assert_eq!(cpu.get_status(), 0b0000_0001);
}

#[test]
fn lsr_flag_z() {
    let mut cpu = Cpu::new();
    cpu.write_addr(0x0000, 0x00);
    cpu.perform_operation(0x0000, &Operation::LSR, &AddressMode::XXX);
    assert_eq!(cpu.get_status(), 0b0000_0010);
}

#[test]
fn lsr_flag_n() {
    let mut cpu = Cpu::new();
    cpu.write_addr(0x0000, 0x08);
    cpu.perform_operation(0x0000, &Operation::LSR, &AddressMode::XXX);
    assert_eq!(cpu.get_status(), 0b0000_0000);
}

#[test]
fn increments_cycle_on_0xfc_opcode() {
    let mut cpu = Cpu::new();
    cpu.set_opcode(0xFC);
    cpu.perform_operation(0x0000, &Operation::NOP, &AddressMode::XXX);
    assert_eq!(cpu.get_cycles(), 1);
}

#[test]
fn ora_stores_result_in_accumulator() {
    let mut cpu = Cpu::new();
    cpu.set_acc(0b0101_0101);
    cpu.write_addr(0x0000, 0b1111_1111);
    cpu.perform_operation(0x0000, &Operation::ORA, &AddressMode::XXX);
    assert_eq!(cpu.get_acc(), 0xFF);
}

#[test]
fn ora_flag_n() {
    let mut cpu = Cpu::new();
    cpu.set_acc(0b0101_0101);
    cpu.write_addr(0x0000, 0b1111_1111);
    cpu.perform_operation(0x0000, &Operation::ORA, &AddressMode::XXX);
    assert_eq!(cpu.get_status(), 0b1000_0000);
}

#[test]
fn ora_flag_z() {
    let mut cpu = Cpu::new();
    cpu.set_acc(0x00);
    cpu.write_addr(0x0000, 0x00);
    cpu.perform_operation(0x0000, &Operation::ORA, &AddressMode::XXX);
    assert_eq!(cpu.get_status(), 0b0000_0010);
}

#[test]
fn pushes_accumulator_onto_stack() {
    let mut cpu = Cpu::new();
    cpu.set_acc(0xAD);
    cpu.perform_operation(0x0000, &Operation::PHA, &AddressMode::XXX);
    assert_eq!(cpu.stack_pop(), 0xAD);
}

#[test]
fn pushes_status_register_onto_stack() {
    let mut cpu = Cpu::new();
    cpu.set_status(0xAD);
    cpu.perform_operation(0x0000, &Operation::PHP, &AddressMode::XXX);
    assert_eq!(cpu.stack_pop(), 0xAD);
}

#[test]
fn pops_stack_value_into_accumulator() {
    let mut cpu = Cpu::new();
    cpu.set_acc(0x00);
    cpu.stack_push(0xAD);
    cpu.perform_operation(0x0000, &Operation::PLA, &AddressMode::XXX);
    assert_eq!(cpu.get_acc(), 0xAD);
}

#[test]
fn sets_zero_flag_when_stack_value_is_zero() {
    let mut cpu = Cpu::new();
    cpu.set_acc(0x00);
    cpu.set_status(0x00);
    cpu.stack_push(0x00);
    cpu.perform_operation(0x0000, &Operation::PLA, &AddressMode::XXX);
    assert_eq!(cpu.get_status(), 0x02);
}

#[test]
fn sets_neg_flag_when_stack_value_is_neg() {
    let mut cpu = Cpu::new();
    cpu.set_acc(0x00);
    cpu.set_status(0x00);
    cpu.stack_push(0x85);
    cpu.perform_operation(0x0000, &Operation::PLA, &AddressMode::XXX);
    assert_eq!(cpu.get_status(), 0x80);
}

#[test]
fn pops_stack_value_into_status() {
    let mut cpu = Cpu::new();
    cpu.set_status(0x00);
    cpu.stack_push(0xAD);
    cpu.perform_operation(0x0000, &Operation::PLP, &AddressMode::XXX);
    assert_eq!(cpu.get_status(), 0xAD);
}

#[test]
fn pops_stack_into_status_register_with_bui_flags_cleared() {
    let mut cpu = Cpu::new();
    cpu.set_status(0x00);
    cpu.stack_push(0b1111_1111);
    cpu.perform_operation(0x0000, &Operation::RTI, &AddressMode::XXX);
    assert_eq!(cpu.get_status(), 0b1100_1111);
}

#[test]
fn pops_pc_after_status_register() {
    let mut cpu = Cpu::new();
    cpu.set_status(0x00);
    cpu.stack_push(0xAC);
    cpu.stack_push(0xD0);
    cpu.stack_push(0xFF);
    cpu.perform_operation(0x0000, &Operation::RTI, &AddressMode::XXX);
    assert_eq!(cpu.get_pc(), 0xACD0);
}

#[test]
fn pops_stack_into_pc_and_increments() {
    let mut cpu = Cpu::new();
    cpu.stack_push(0xDE);
    cpu.stack_push(0x40);
    cpu.perform_operation(0x0000, &Operation::RTS, &AddressMode::XXX);
    assert_eq!(cpu.get_pc(), 0xDE41);
}

#[test]
fn does_nothing() {
    let mut cpu = Cpu::new();
    assert_eq!((), cpu.perform_operation(0x0000, &Operation::XXX, &AddressMode::XXX));
}

#[test]
fn immediate_addressing_increments_pc() {
    let mut cpu = Cpu::new();
    cpu.set_pc(0x0000);
    cpu.perform_operation(0x0000, &Operation::XXX, &AddressMode::Immediate);
    assert_eq!(cpu.get_pc(), 1);
}
