use mos6510::addressing::Operand;
use mos6510::bus::{Bus, FlatMemory};
use mos6510::error::CpuError;
use mos6510::execute::{branch_condition, pull, pull_word, push, push_word, Unit};
use mos6510::opcodes::Op;
use mos6510::registers::Registers;
use mos6510::status::Status;

fn clear() -> Status {
    Status {
        negative: false,
        overflow: false,
        decimal: false,
        interrupt_disable: false,
        zero: false,
        carry: false,
    }
}

fn registers() -> Registers {
    Registers { a: 0, x: 0, y: 0, sp: 0xFF, pc: 0x1000, status: clear() }
}

fn run(op: Op, operand: Operand, regs: &mut Registers, memory: &mut FlatMemory) -> bool {
    op.run(operand, regs, memory).unwrap()
}

#[test]
fn adc_sets_overflow_and_negative() {
    let mut memory = FlatMemory::new();
    let mut regs = registers();
    regs.a = 0x7F;
    run(Op::ADC, Operand::Immediate(0x01), &mut regs, &mut memory);
    assert_eq!(regs.a, 0x80);
    assert!(regs.status.overflow);
    assert!(!regs.status.carry);
    assert!(regs.status.negative);
    assert!(!regs.status.zero);
}

#[test]
fn sbc_sets_overflow() {
    let mut memory = FlatMemory::new();
    let mut regs = registers();
    regs.a = 0x80;
    regs.status.carry = true;
    run(Op::SBC, Operand::Immediate(0x01), &mut regs, &mut memory);
    assert_eq!(regs.a, 0x7F);
    assert!(regs.status.overflow);
    assert!(regs.status.carry);
    assert!(!regs.status.negative);
    assert!(!regs.status.zero);
}

#[test]
fn cmp_equal_sets_zero_and_carry() {
    let mut memory = FlatMemory::new();
    let mut regs = registers();
    regs.a = 0x10;
    regs.status.negative = true;
    run(Op::CMP, Operand::Immediate(0x10), &mut regs, &mut memory);
    assert!(regs.status.zero);
    assert!(regs.status.carry);
    assert!(!regs.status.negative);
    assert_eq!(regs.a, 0x10);
}

#[test]
fn cpx_and_cpy_compare_their_register() {
    let mut memory = FlatMemory::new();
    let mut regs = registers();
    regs.x = 0x05;
    regs.y = 0x20;
    run(Op::CPX, Operand::Immediate(0x10), &mut regs, &mut memory);
    assert!(!regs.status.carry && !regs.status.zero && regs.status.negative);
    run(Op::CPY, Operand::Immediate(0x10), &mut regs, &mut memory);
    assert!(regs.status.carry && !regs.status.zero && !regs.status.negative);
}

#[test]
fn loads_set_zero_and_negative() {
    let mut memory = FlatMemory::new();
    memory.poke(0x2000, 0x80);
    let mut regs = registers();
    run(Op::LDA, Operand::Address(0x2000), &mut regs, &mut memory);
    assert_eq!(regs.a, 0x80);
    assert!(regs.status.negative && !regs.status.zero);
    run(Op::LDX, Operand::Immediate(0x00), &mut regs, &mut memory);
    assert_eq!(regs.x, 0x00);
    assert!(!regs.status.negative && regs.status.zero);
    run(Op::LDY, Operand::Immediate(0x01), &mut regs, &mut memory);
    assert_eq!(regs.y, 0x01);
    assert!(!regs.status.negative && !regs.status.zero);
}

#[test]
fn stores_touch_no_flag() {
    let mut memory = FlatMemory::new();
    let mut regs = registers();
    regs.a = 0x00;
    regs.x = 0x80;
    regs.y = 0x01;
    let before = regs;
    run(Op::STA, Operand::Address(0x2000), &mut regs, &mut memory);
    run(Op::STX, Operand::Address(0x2001), &mut regs, &mut memory);
    run(Op::STY, Operand::Address(0x2002), &mut regs, &mut memory);
    assert_eq!(regs, before);
    assert_eq!(memory.read_byte(0x2000), 0x00);
    assert_eq!(memory.read_byte(0x2001), 0x80);
    assert_eq!(memory.read_byte(0x2002), 0x01);
}

#[test]
fn transfers() {
    let mut memory = FlatMemory::new();
    let mut regs = registers();
    regs.a = 0x80;
    run(Op::TAX, Operand::Implied, &mut regs, &mut memory);
    assert_eq!(regs.x, 0x80);
    assert!(regs.status.negative);
    run(Op::TAY, Operand::Implied, &mut regs, &mut memory);
    assert_eq!(regs.y, 0x80);
    regs.x = 0x00;
    run(Op::TXA, Operand::Implied, &mut regs, &mut memory);
    assert_eq!(regs.a, 0x00);
    assert!(regs.status.zero);
    regs.y = 0x11;
    run(Op::TYA, Operand::Implied, &mut regs, &mut memory);
    assert_eq!(regs.a, 0x11);
    regs.sp = 0x90;
    run(Op::TSX, Operand::Implied, &mut regs, &mut memory);
    assert_eq!(regs.x, 0x90);
    assert!(regs.status.negative);
    regs.x = 0x00;
    let flags = regs.status;
    run(Op::TXS, Operand::Implied, &mut regs, &mut memory);
    assert_eq!(regs.sp, 0x00);
    assert_eq!(regs.status, flags);
}

#[test]
fn logic() {
    let mut memory = FlatMemory::new();
    let mut regs = registers();
    regs.a = 0xF0;
    run(Op::AND, Operand::Immediate(0x3C), &mut regs, &mut memory);
    assert_eq!(regs.a, 0x30);
    run(Op::ORA, Operand::Immediate(0x81), &mut regs, &mut memory);
    assert_eq!(regs.a, 0xB1);
    assert!(regs.status.negative);
    run(Op::EOR, Operand::Immediate(0xB1), &mut regs, &mut memory);
    assert_eq!(regs.a, 0x00);
    assert!(regs.status.zero);
}

#[test]
fn bit_copies_bits_seven_and_six() {
    let mut memory = FlatMemory::new();
    let mut regs = registers();
    regs.a = 0x01;
    run(Op::BIT, Operand::Immediate(0xC0), &mut regs, &mut memory);
    assert!(regs.status.negative && regs.status.overflow && regs.status.zero);
    assert_eq!(regs.a, 0x01);
    run(Op::BIT, Operand::Immediate(0x01), &mut regs, &mut memory);
    assert!(!regs.status.negative && !regs.status.overflow && !regs.status.zero);
}

#[test]
fn increments_wrap() {
    let mut memory = FlatMemory::new();
    memory.poke(0x2000, 0xFF);
    let mut regs = registers();
    regs.status.carry = true;
    run(Op::INC, Operand::Address(0x2000), &mut regs, &mut memory);
    assert_eq!(memory.read_byte(0x2000), 0x00);
    assert!(regs.status.zero && !regs.status.negative && regs.status.carry);
    run(Op::DEC, Operand::Address(0x2000), &mut regs, &mut memory);
    assert_eq!(memory.read_byte(0x2000), 0xFF);
    assert!(!regs.status.zero && regs.status.negative);
    regs.x = 0xFF;
    run(Op::INX, Operand::Implied, &mut regs, &mut memory);
    assert_eq!(regs.x, 0x00);
    run(Op::DEX, Operand::Implied, &mut regs, &mut memory);
    assert_eq!(regs.x, 0xFF);
    regs.y = 0x00;
    run(Op::DEY, Operand::Implied, &mut regs, &mut memory);
    assert_eq!(regs.y, 0xFF);
    run(Op::INY, Operand::Implied, &mut regs, &mut memory);
    assert_eq!(regs.y, 0x00);
    assert!(regs.status.zero);
}

#[test]
fn shifts_on_accumulator_and_memory() {
    let mut memory = FlatMemory::new();
    memory.poke(0x2000, 0x01);
    let mut regs = registers();
    regs.a = 0x81;
    run(Op::ASL, Operand::Accumulator, &mut regs, &mut memory);
    assert_eq!(regs.a, 0x02);
    assert!(regs.status.carry);
    run(Op::ROL, Operand::Accumulator, &mut regs, &mut memory);
    assert_eq!(regs.a, 0x05);
    assert!(!regs.status.carry);
    run(Op::LSR, Operand::Address(0x2000), &mut regs, &mut memory);
    assert_eq!(memory.read_byte(0x2000), 0x00);
    assert!(regs.status.carry && regs.status.zero);
    run(Op::ROR, Operand::Address(0x2000), &mut regs, &mut memory);
    assert_eq!(memory.read_byte(0x2000), 0x80);
    assert!(!regs.status.carry && regs.status.negative);
    assert_eq!(regs.a, 0x05);
}

#[test]
fn stack_pushes_down_and_pulls_up() {
    let mut memory = FlatMemory::new();
    let mut regs = registers();
    push(&mut regs, &mut memory, 0x11);
    assert_eq!(regs.sp, 0xFE);
    assert_eq!(memory.read_byte(0x01FF), 0x11);
    push_word(&mut regs, &mut memory, 0x1234);
    assert_eq!(regs.sp, 0xFC);
    assert_eq!(memory.read_byte(0x01FE), 0x12);
    assert_eq!(memory.read_byte(0x01FD), 0x34);
    assert_eq!(pull_word(&mut regs, &memory), 0x1234);
    assert_eq!(pull(&mut regs, &memory), 0x11);
    assert_eq!(regs.sp, 0xFF);
}

#[test]
fn stack_wraps_inside_its_page() {
    let mut memory = FlatMemory::new();
    let mut regs = registers();
    regs.sp = 0x00;
    push_word(&mut regs, &mut memory, 0xABCD);
    assert_eq!(regs.sp, 0xFE);
    assert_eq!(memory.read_byte(0x0100), 0xAB);
    assert_eq!(memory.read_byte(0x01FF), 0xCD);
    assert_eq!(pull_word(&mut regs, &memory), 0xABCD);
    assert_eq!(regs.sp, 0x00);
}

#[test]
fn php_pushes_break_and_plp_ignores_it() {
    let mut memory = FlatMemory::new();
    let mut regs = registers();
    regs.status.carry = true;
    regs.status.negative = true;
    run(Op::PHP, Operand::Implied, &mut regs, &mut memory);
    assert_eq!(memory.read_byte(0x01FF), 0xB1);
    regs.status = clear();
    run(Op::PLP, Operand::Implied, &mut regs, &mut memory);
    assert_eq!(regs.status, Status { carry: true, negative: true, ..clear() });
    assert_eq!(regs.sp, 0xFF);
}

#[test]
fn pha_and_pla() {
    let mut memory = FlatMemory::new();
    let mut regs = registers();
    regs.a = 0x80;
    run(Op::PHA, Operand::Implied, &mut regs, &mut memory);
    regs.a = 0x00;
    run(Op::PLA, Operand::Implied, &mut regs, &mut memory);
    assert_eq!(regs.a, 0x80);
    assert!(regs.status.negative && !regs.status.zero);
    assert_eq!(regs.sp, 0xFF);
}

#[test]
fn jsr_pushes_the_address_of_its_last_byte() {
    let mut memory = FlatMemory::new();
    let mut regs = registers();
    regs.pc = 0x1003;
    run(Op::JSR, Operand::Address(0x4000), &mut regs, &mut memory);
    assert_eq!(regs.pc, 0x4000);
    assert_eq!(regs.sp, 0xFD);
    assert_eq!(memory.read_byte(0x01FF), 0x10);
    assert_eq!(memory.read_byte(0x01FE), 0x02);
    run(Op::RTS, Operand::Implied, &mut regs, &mut memory);
    assert_eq!(regs.pc, 0x1003);
    assert_eq!(regs.sp, 0xFF);
}

#[test]
fn jmp_sets_the_program_counter() {
    let mut memory = FlatMemory::new();
    let mut regs = registers();
    let taken = run(Op::JMP, Operand::Address(0x4321), &mut regs, &mut memory);
    assert!(!taken);
    assert_eq!(regs.pc, 0x4321);
}

#[test]
fn branches_follow_their_flag() {
    let cases = [
        (Op::BCC, Status { carry: false, ..clear() }, Status { carry: true, ..clear() }),
        (Op::BCS, Status { carry: true, ..clear() }, Status { carry: false, ..clear() }),
        (Op::BNE, Status { zero: false, ..clear() }, Status { zero: true, ..clear() }),
        (Op::BEQ, Status { zero: true, ..clear() }, Status { zero: false, ..clear() }),
        (Op::BPL, Status { negative: false, ..clear() }, Status { negative: true, ..clear() }),
        (Op::BMI, Status { negative: true, ..clear() }, Status { negative: false, ..clear() }),
        (Op::BVC, Status { overflow: false, ..clear() }, Status { overflow: true, ..clear() }),
        (Op::BVS, Status { overflow: true, ..clear() }, Status { overflow: false, ..clear() }),
    ];
    for (op, taking, passing) in cases {
        let mut memory = FlatMemory::new();
        let mut regs = registers();
        regs.status = taking;
        assert!(branch_condition(op, &regs.status));
        assert!(run(op, Operand::Address(0x2000), &mut regs, &mut memory));
        assert_eq!(regs.pc, 0x2000);
        assert_eq!(regs.status, taking);
        let mut regs = registers();
        regs.status = passing;
        assert!(!branch_condition(op, &regs.status));
        assert!(!run(op, Operand::Address(0x2000), &mut regs, &mut memory));
        assert_eq!(regs.pc, 0x1000);
    }
    assert!(!branch_condition(Op::NOP, &clear()));
}

#[test]
fn flag_operations_change_one_flag() {
    let mut memory = FlatMemory::new();
    let mut regs = registers();
    run(Op::SEC, Operand::Implied, &mut regs, &mut memory);
    assert_eq!(regs.status, Status { carry: true, ..clear() });
    run(Op::SED, Operand::Implied, &mut regs, &mut memory);
    assert_eq!(regs.status, Status { carry: true, decimal: true, ..clear() });
    run(Op::SEI, Operand::Implied, &mut regs, &mut memory);
    assert_eq!(
        regs.status,
        Status { carry: true, decimal: true, interrupt_disable: true, ..clear() }
    );
    run(Op::CLC, Operand::Implied, &mut regs, &mut memory);
    assert_eq!(regs.status, Status { decimal: true, interrupt_disable: true, ..clear() });
    run(Op::CLD, Operand::Implied, &mut regs, &mut memory);
    assert_eq!(regs.status, Status { interrupt_disable: true, ..clear() });
    run(Op::CLI, Operand::Implied, &mut regs, &mut memory);
    assert_eq!(regs.status, clear());
    regs.status.overflow = true;
    run(Op::CLV, Operand::Implied, &mut regs, &mut memory);
    assert_eq!(regs.status, clear());
    assert_eq!(regs, registers());
}

#[test]
fn brk_enters_the_handler_and_rti_leaves_it() {
    let mut memory = FlatMemory::new();
    memory.poke(0xFFFE, 0x00);
    memory.poke(0xFFFF, 0x80);
    let mut regs = registers();
    regs.pc = 0x1001;
    regs.status = Status { carry: true, overflow: true, ..clear() };
    let before = regs;
    run(Op::BRK, Operand::Implied, &mut regs, &mut memory);
    assert_eq!(regs.pc, 0x8000);
    assert_eq!(regs.sp, 0xFC);
    assert!(regs.status.interrupt_disable);
    assert_eq!(memory.read_byte(0x01FF), 0x10);
    assert_eq!(memory.read_byte(0x01FE), 0x02);
    assert_eq!(memory.read_byte(0x01FD), 0x71);
    run(Op::RTI, Operand::Implied, &mut regs, &mut memory);
    assert_eq!(regs.status, before.status);
    assert_eq!(regs.sp, before.sp);
    assert_eq!(regs.pc, 0x1002);
}

#[test]
fn nop_changes_nothing() {
    let mut memory = FlatMemory::new();
    let mut regs = registers();
    run(Op::NOP, Operand::Implied, &mut regs, &mut memory);
    run(Op::NOP, Operand::Immediate(0x12), &mut regs, &mut memory);
    run(Op::NOP, Operand::Address(0x2000), &mut regs, &mut memory);
    assert_eq!(regs, registers());
    assert_eq!(memory.read_byte(0x2000), 0);
}

#[test]
fn hlt_is_reported_and_changes_nothing() {
    let mut memory = FlatMemory::new();
    let mut regs = registers();
    assert_eq!(Op::HLT.run(Operand::Implied, &mut regs, &mut memory), Err(CpuError::Halted));
    assert_eq!(regs, registers());
}

#[test]
fn decimal_mode_is_refused() {
    let mut memory = FlatMemory::new();
    memory.poke(0x2000, 0x10);
    for op in [Op::ADC, Op::SBC, Op::ARR] {
        let mut regs = registers();
        regs.a = 0x09;
        regs.status.decimal = true;
        let before = regs;
        assert_eq!(op.run(Operand::Immediate(0x01), &mut regs, &mut memory), Err(CpuError::DecimalMode));
        assert_eq!(regs, before);
    }
    for op in [Op::RRA, Op::ISC] {
        let mut regs = registers();
        regs.status.decimal = true;
        let before = regs;
        assert_eq!(op.run(Operand::Address(0x2000), &mut regs, &mut memory), Err(CpuError::DecimalMode));
        assert_eq!(regs, before);
        assert_eq!(memory.read_byte(0x2000), 0x10);
    }
    let mut regs = registers();
    regs.status.decimal = true;
    assert_eq!(Op::CMP.run(Operand::Immediate(0x01), &mut regs, &mut memory), Ok(false));
}

#[test]
fn operations_refuse_operands_they_cannot_use() {
    let mut memory = FlatMemory::new();
    let mut regs = registers();
    let bad = Err(CpuError::InvalidAddressingMode);
    assert_eq!(Op::LDA.run(Operand::Implied, &mut regs, &mut memory), bad);
    assert_eq!(Op::STA.run(Operand::Implied, &mut regs, &mut memory), bad);
    assert_eq!(Op::STA.run(Operand::Immediate(1), &mut regs, &mut memory), bad);
    assert_eq!(Op::INC.run(Operand::Immediate(1), &mut regs, &mut memory), bad);
    assert_eq!(Op::JMP.run(Operand::Accumulator, &mut regs, &mut memory), bad);
    assert_eq!(Op::JSR.run(Operand::Implied, &mut regs, &mut memory), bad);
    assert_eq!(Op::BNE.run(Operand::Immediate(1), &mut regs, &mut memory), bad);
    assert_eq!(Op::AHX.run(Operand::Accumulator, &mut regs, &mut memory), bad);
    assert_eq!(Op::ADC.check(Operand::Implied, &regs.status), Err(CpuError::InvalidAddressingMode));
    assert_eq!(Op::ADC.check(Operand::Immediate(1), &regs.status), Ok(()));
    assert_eq!(Op::HLT.check(Operand::Implied, &regs.status), Err(CpuError::Halted));
    assert_eq!(regs, registers());
}

#[test]
fn units() {
    assert_eq!(Op::LDA.unit_of(), Unit::Transfer);
    assert_eq!(Op::SAX.unit_of(), Unit::Transfer);
    assert_eq!(Op::ADC.unit_of(), Unit::Arithmetic);
    assert_eq!(Op::INX.unit_of(), Unit::Arithmetic);
    assert_eq!(Op::INC.unit_of(), Unit::Modify);
    assert_eq!(Op::RRA.unit_of(), Unit::Modify);
    assert_eq!(Op::BRK.unit_of(), Unit::Control);
    assert_eq!(Op::NOP.unit_of(), Unit::Control);
}

#[test]
fn sax_stores_a_and_x_and_touches_no_flag() {
    let mut memory = FlatMemory::new();
    let mut regs = registers();
    regs.a = 0xF0;
    regs.x = 0x3C;
    regs.status = Status { negative: true, zero: true, carry: true, ..clear() };
    let before = regs;
    run(Op::SAX, Operand::Address(0x2000), &mut regs, &mut memory);
    assert_eq!(memory.read_byte(0x2000), 0x30);
    assert_eq!(regs, before);
    regs.a = 0x00;
    let before = regs;
    run(Op::SAX, Operand::Address(0x2001), &mut regs, &mut memory);
    assert_eq!(memory.read_byte(0x2001), 0x00);
    assert_eq!(regs, before);
}

#[test]
fn lax_loads_a_and_x() {
    let mut memory = FlatMemory::new();
    memory.poke(0x2000, 0x80);
    let mut regs = registers();
    run(Op::LAX, Operand::Address(0x2000), &mut regs, &mut memory);
    assert_eq!((regs.a, regs.x), (0x80, 0x80));
    assert!(regs.status.negative && !regs.status.zero);
}

#[test]
fn slo_shifts_then_ors() {
    let mut memory = FlatMemory::new();
    memory.poke(0x2000, 0x81);
    let mut regs = registers();
    regs.a = 0x10;
    run(Op::SLO, Operand::Address(0x2000), &mut regs, &mut memory);
    assert_eq!(memory.read_byte(0x2000), 0x02);
    assert_eq!(regs.a, 0x12);
    assert!(regs.status.carry && !regs.status.zero && !regs.status.negative);
}

#[test]
fn rla_rotates_then_ands() {
    let mut memory = FlatMemory::new();
    memory.poke(0x2000, 0x81);
    let mut regs = registers();
    regs.a = 0x0F;
    regs.status.carry = true;
    run(Op::RLA, Operand::Address(0x2000), &mut regs, &mut memory);
    assert_eq!(memory.read_byte(0x2000), 0x03);
    assert_eq!(regs.a, 0x03);
    assert!(regs.status.carry);
}

#[test]
fn sre_shifts_then_eors() {
    let mut memory = FlatMemory::new();
    memory.poke(0x2000, 0x03);
    let mut regs = registers();
    regs.a = 0x01;
    run(Op::SRE, Operand::Address(0x2000), &mut regs, &mut memory);
    assert_eq!(memory.read_byte(0x2000), 0x01);
    assert_eq!(regs.a, 0x00);
    assert!(regs.status.carry && regs.status.zero);
}

#[test]
fn rra_rotates_then_adds_with_the_rotated_carry() {
    let mut memory = FlatMemory::new();
    memory.poke(0x2000, 0x03);
    let mut regs = registers();
    regs.a = 0x10;
    run(Op::RRA, Operand::Address(0x2000), &mut regs, &mut memory);
    assert_eq!(memory.read_byte(0x2000), 0x01);
    assert_eq!(regs.a, 0x12);
    assert!(!regs.status.carry && !regs.status.overflow);
}

#[test]
fn dcp_decrements_then_compares() {
    let mut memory = FlatMemory::new();
    memory.poke(0x2000, 0x11);
    let mut regs = registers();
    regs.a = 0x10;
    run(Op::DCP, Operand::Address(0x2000), &mut regs, &mut memory);
    assert_eq!(memory.read_byte(0x2000), 0x10);
    assert_eq!(regs.a, 0x10);
    assert!(regs.status.carry && regs.status.zero && !regs.status.negative);
}

#[test]
fn isc_increments_then_subtracts() {
    let mut memory = FlatMemory::new();
    memory.poke(0x2000, 0x0F);
    let mut regs = registers();
    regs.a = 0x20;
    regs.status.carry = true;
    run(Op::ISC, Operand::Address(0x2000), &mut regs, &mut memory);
    assert_eq!(memory.read_byte(0x2000), 0x10);
    assert_eq!(regs.a, 0x10);
    assert!(regs.status.carry && !regs.status.zero);
}

#[test]
fn anc_copies_the_sign_into_carry() {
    let mut memory = FlatMemory::new();
    let mut regs = registers();
    regs.a = 0xF0;
    run(Op::ANC, Operand::Immediate(0x81), &mut regs, &mut memory);
    assert_eq!(regs.a, 0x80);
    assert!(regs.status.carry && regs.status.negative);
    run(Op::ANC, Operand::Immediate(0x01), &mut regs, &mut memory);
    assert_eq!(regs.a, 0x00);
    assert!(!regs.status.carry && regs.status.zero);
}

#[test]
fn alr_ands_then_shifts_right() {
    let mut memory = FlatMemory::new();
    let mut regs = registers();
    regs.a = 0xFF;
    run(Op::ALR, Operand::Immediate(0x03), &mut regs, &mut memory);
    assert_eq!(regs.a, 0x01);
    assert!(regs.status.carry && !regs.status.negative && !regs.status.zero);
}

#[test]
fn arr_ands_then_rotates_right() {
    let mut memory = FlatMemory::new();
    let mut regs = registers();
    regs.a = 0xFF;
    regs.status.carry = true;
    run(Op::ARR, Operand::Immediate(0xC0), &mut regs, &mut memory);
    assert_eq!(regs.a, 0xE0);
    assert!(regs.status.carry && !regs.status.overflow && regs.status.negative);
    regs.a = 0xFF;
    regs.status.carry = false;
    run(Op::ARR, Operand::Immediate(0x80), &mut regs, &mut memory);
    assert_eq!(regs.a, 0x40);
    assert!(regs.status.carry && regs.status.overflow && !regs.status.negative);
    regs.a = 0xFF;
    regs.status.carry = false;
    run(Op::ARR, Operand::Immediate(0x40), &mut regs, &mut memory);
    assert_eq!(regs.a, 0x20);
    assert!(!regs.status.carry && regs.status.overflow);
}

#[test]
fn xaa_loads_x_and_operand() {
    let mut memory = FlatMemory::new();
    let mut regs = registers();
    regs.a = 0x00;
    regs.x = 0xF0;
    run(Op::XAA, Operand::Immediate(0x3C), &mut regs, &mut memory);
    assert_eq!(regs.a, 0x30);
    assert_eq!(regs.x, 0xF0);
}

#[test]
fn axs_subtracts_from_a_and_x() {
    let mut memory = FlatMemory::new();
    let mut regs = registers();
    regs.a = 0xF0;
    regs.x = 0x3C;
    run(Op::AXS, Operand::Immediate(0x10), &mut regs, &mut memory);
    assert_eq!(regs.x, 0x20);
    assert_eq!(regs.a, 0xF0);
    assert!(regs.status.carry && !regs.status.zero && !regs.status.negative);
    regs.x = 0x3C;
    run(Op::AXS, Operand::Immediate(0x31), &mut regs, &mut memory);
    assert_eq!(regs.x, 0xFF);
    assert!(!regs.status.carry && regs.status.negative);
}

#[test]
fn unstable_stores_mix_in_the_high_byte_plus_one() {
    let mut memory = FlatMemory::new();
    let mut regs = registers();
    regs.a = 0xFF;
    regs.x = 0x0F;
    regs.y = 0xF3;
    let before = regs;
    run(Op::AHX, Operand::Address(0x2000), &mut regs, &mut memory);
    assert_eq!(memory.read_byte(0x2000), 0x0F & 0x21);
    run(Op::SHX, Operand::Address(0x2001), &mut regs, &mut memory);
    assert_eq!(memory.read_byte(0x2001), 0x0F & 0x21);
    run(Op::SHY, Operand::Address(0x2002), &mut regs, &mut memory);
    assert_eq!(memory.read_byte(0x2002), 0xF3 & 0x21);
    assert_eq!(regs, before);
    run(Op::SHY, Operand::Address(0xFF02), &mut regs, &mut memory);
    assert_eq!(memory.read_byte(0xFF02), 0x00);
}

#[test]
fn tas_sets_the_stack_pointer() {
    let mut memory = FlatMemory::new();
    let mut regs = registers();
    regs.a = 0xF7;
    regs.x = 0x3F;
    run(Op::TAS, Operand::Address(0x2400), &mut regs, &mut memory);
    assert_eq!(regs.sp, 0x37);
    assert_eq!(memory.read_byte(0x2400), 0x37 & 0x25);
    assert_eq!(regs.status, clear());
}

#[test]
fn las_ands_memory_with_the_stack_pointer() {
    let mut memory = FlatMemory::new();
    memory.poke(0x2000, 0xF0);
    let mut regs = registers();
    regs.sp = 0x9C;
    run(Op::LAS, Operand::Address(0x2000), &mut regs, &mut memory);
    assert_eq!((regs.a, regs.x, regs.sp), (0x90, 0x90, 0x90));
    assert!(regs.status.negative);
}
