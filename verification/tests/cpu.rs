use mos6510::bus::{Bus, BusError, FlatMemory, MemState};
use mos6510::cpu::Cpu;
use mos6510::error::CpuError;
use mos6510::instruction::decode;
use mos6510::registers::Registers;
use mos6510::status::Status;

fn clear() -> Status {
    Status {
        negative: false,
        overflow: false,
        decimal: false,
        interrupt_disable: false,
        zero: false,
        carry: false,
    }
}

fn cpu_at(pc: u16) -> Cpu {
    Cpu { regs: Registers { a: 0, x: 0, y: 0, sp: 0xFF, pc, status: clear() }, halted: false }
}

fn load(memory: &mut FlatMemory, at: u16, program: &[u8]) {
    for (i, &byte) in program.iter().enumerate() {
        memory.poke(at.wrapping_add(i as u16), byte);
    }
}

/// A bus that records every write request it gets.
struct Recorder {
    bytes: Vec<u8>,
    writes: Vec<(u16, u8)>,
}

impl Bus for Recorder {
    fn view(&self) -> MemState {
        unreachable!("ghost code is never run")
    }

    fn read_byte(&self, addr: u16) -> u8 {
        self.bytes[addr as usize]
    }

    fn write_byte(&mut self, addr: u16, value: u8) -> Result<(), BusError> {
        self.writes.push((addr, value));
        self.bytes[addr as usize] = value;
        Ok(())
    }
}

#[test]
fn new_processor() {
    let cpu = Cpu::new();
    assert_eq!(cpu.regs, Registers::new());
    assert!(!cpu.halted);
    assert_eq!(cpu.regs.pc, 0);
    assert_eq!(cpu.regs.status, Status::new());
    assert!(cpu.regs.status.interrupt_disable);
}

#[test]
fn reset_loads_the_reset_vector() {
    let mut memory = FlatMemory::new();
    load(&mut memory, 0xFFFC, &[0x00, 0xC0]);
    let mut cpu = Cpu::new();
    cpu.regs.a = 0x12;
    cpu.regs.status.interrupt_disable = false;
    cpu.regs.status.carry = true;
    cpu.halted = true;
    cpu.reset(&memory);
    assert_eq!(cpu.regs.pc, 0xC000);
    assert_eq!(cpu.regs.sp, 0xFD);
    assert_eq!(cpu.regs.a, 0x12);
    assert!(cpu.regs.status.interrupt_disable);
    assert!(cpu.regs.status.carry);
    assert!(!cpu.halted);
}

#[test]
fn lda_immediate_takes_two_cycles() {
    let mut memory = FlatMemory::new();
    load(&mut memory, 0x1000, &[0xA9, 0x80]);
    let mut cpu = cpu_at(0x1000);
    assert_eq!(cpu.step(&mut memory), Ok(2));
    assert_eq!(cpu.regs.a, 0x80);
    assert_eq!(cpu.regs.pc, 0x1002);
    assert!(cpu.regs.status.negative);
}

#[test]
fn indexed_read_pays_for_a_page_crossing_only_when_it_happens() {
    let mut memory = FlatMemory::new();
    load(&mut memory, 0x1000, &[0xBD, 0xFF, 0x20, 0xBD, 0x00, 0x20]);
    memory.poke(0x2100, 0x11);
    memory.poke(0x2001, 0x22);
    let mut cpu = cpu_at(0x1000);
    cpu.regs.x = 0x01;
    assert_eq!(cpu.step(&mut memory), Ok(5));
    assert_eq!(cpu.regs.a, 0x11);
    assert_eq!(cpu.step(&mut memory), Ok(4));
    assert_eq!(cpu.regs.a, 0x22);
    assert_eq!(cpu.regs.pc, 0x1006);
}

#[test]
fn indexed_store_always_takes_five_cycles() {
    let mut memory = FlatMemory::new();
    load(&mut memory, 0x1000, &[0x9D, 0xFF, 0x20, 0x9D, 0x00, 0x20]);
    let mut cpu = cpu_at(0x1000);
    cpu.regs.a = 0x77;
    cpu.regs.x = 0x01;
    assert_eq!(cpu.step(&mut memory), Ok(5));
    assert_eq!(cpu.step(&mut memory), Ok(5));
    assert_eq!(memory.read_byte(0x2100), 0x77);
    assert_eq!(memory.read_byte(0x2001), 0x77);
}

#[test]
fn indirect_indexed_read_cycles() {
    let mut memory = FlatMemory::new();
    load(&mut memory, 0x1000, &[0xB1, 0x10, 0xB1, 0x10]);
    load(&mut memory, 0x0010, &[0xF0, 0x20]);
    memory.poke(0x2100, 0x11);
    memory.poke(0x20F1, 0x22);
    let mut cpu = cpu_at(0x1000);
    cpu.regs.y = 0x10;
    assert_eq!(cpu.step(&mut memory), Ok(6));
    assert_eq!(cpu.regs.a, 0x11);
    cpu.regs.y = 0x01;
    assert_eq!(cpu.step(&mut memory), Ok(5));
    assert_eq!(cpu.regs.a, 0x22);
}

#[test]
fn branch_across_a_page_takes_two_more_cycles() {
    let mut memory = FlatMemory::new();
    load(&mut memory, 0x20FC, &[0xD0, 0x04]);
    let mut cpu = cpu_at(0x20FC);
    assert_eq!(cpu.step(&mut memory), Ok(4));
    assert_eq!(cpu.regs.pc, 0x2102);
}

#[test]
fn branch_inside_a_page_takes_one_more_cycle() {
    let mut memory = FlatMemory::new();
    load(&mut memory, 0x1FFE, &[0xD0, 0x04]);
    let mut cpu = cpu_at(0x1FFE);
    assert_eq!(cpu.step(&mut memory), Ok(3));
    assert_eq!(cpu.regs.pc, 0x2004);
}

#[test]
fn branch_not_taken_takes_the_base_cycles() {
    let mut memory = FlatMemory::new();
    load(&mut memory, 0x20FC, &[0xD0, 0x04]);
    let mut cpu = cpu_at(0x20FC);
    cpu.regs.status.zero = true;
    assert_eq!(cpu.step(&mut memory), Ok(2));
    assert_eq!(cpu.regs.pc, 0x20FE);
}

#[test]
fn zero_page_indexed_load_wraps() {
    let mut memory = FlatMemory::new();
    load(&mut memory, 0x1000, &[0xB5, 0xFF]);
    memory.poke(0x0000, 0x11);
    memory.poke(0x0100, 0x22);
    let mut cpu = cpu_at(0x1000);
    cpu.regs.x = 0x01;
    assert_eq!(cpu.step(&mut memory), Ok(4));
    assert_eq!(cpu.regs.a, 0x11);
}

#[test]
fn jsr_then_rts_returns_behind_the_call() {
    let mut memory = FlatMemory::new();
    load(&mut memory, 0x1000, &[0x20, 0x00, 0x40]);
    load(&mut memory, 0x4000, &[0x60]);
    let mut cpu = cpu_at(0x1000);
    cpu.regs.sp = 0xF0;
    assert_eq!(cpu.step(&mut memory), Ok(6));
    assert_eq!(cpu.regs.pc, 0x4000);
    assert_eq!(cpu.regs.sp, 0xEE);
    assert_eq!(cpu.step(&mut memory), Ok(6));
    assert_eq!(cpu.regs.pc, 0x1003);
    assert_eq!(cpu.regs.sp, 0xF0);
}

#[test]
fn brk_then_rti_restores_the_flags() {
    let mut memory = FlatMemory::new();
    load(&mut memory, 0x1000, &[0x00, 0xEA, 0xEA]);
    load(&mut memory, 0x8000, &[0x40]);
    load(&mut memory, 0xFFFE, &[0x00, 0x80]);
    let mut cpu = cpu_at(0x1000);
    cpu.regs.status = Status { negative: true, carry: true, decimal: true, ..clear() };
    let before = cpu.regs;
    assert_eq!(cpu.step(&mut memory), Ok(7));
    assert_eq!(cpu.regs.pc, 0x8000);
    assert!(cpu.regs.status.interrupt_disable);
    assert_eq!(memory.read_byte(0x01FD), 0xB9);
    assert_eq!(cpu.step(&mut memory), Ok(6));
    assert_eq!(cpu.regs.status, before.status);
    assert_eq!(cpu.regs.status.to_byte(false), before.status.to_byte(false));
    assert_eq!(cpu.regs.sp, before.sp);
    assert_eq!(cpu.regs.pc, 0x1002);
    assert_eq!((cpu.regs.a, cpu.regs.x, cpu.regs.y), (before.a, before.x, before.y));
}

#[test]
fn sax_through_the_decoder() {
    let mut memory = FlatMemory::new();
    load(&mut memory, 0x1000, &[0x8F, 0x00, 0x20]);
    let mut cpu = cpu_at(0x1000);
    cpu.regs.a = 0xF0;
    cpu.regs.x = 0x3C;
    cpu.regs.status = Status { zero: true, negative: true, ..clear() };
    let flags = cpu.regs.status;
    assert_eq!(cpu.step(&mut memory), Ok(4));
    assert_eq!(memory.read_byte(0x2000), 0x30);
    assert_eq!(cpu.regs.status, flags);
    assert_eq!((cpu.regs.a, cpu.regs.x), (0xF0, 0x3C));
}

#[test]
fn halting_opcode_halts_until_reset() {
    let mut memory = FlatMemory::new();
    load(&mut memory, 0x1000, &[0x02]);
    load(&mut memory, 0xFFFC, &[0x00, 0x20]);
    load(&mut memory, 0x2000, &[0xEA]);
    let mut cpu = cpu_at(0x1000);
    let before = cpu.regs;
    assert_eq!(cpu.step(&mut memory), Err(CpuError::Halted));
    assert!(cpu.halted);
    assert_eq!(cpu.regs, before);
    memory.poke(0x1000, 0xEA);
    assert_eq!(cpu.step(&mut memory), Err(CpuError::Halted));
    assert_eq!(cpu.regs, before);
    cpu.reset(&memory);
    assert!(!cpu.halted);
    assert_eq!(cpu.step(&mut memory), Ok(2));
    assert_eq!(cpu.regs.pc, 0x2001);
}

#[test]
fn decimal_addition_is_flagged() {
    let mut memory = FlatMemory::new();
    load(&mut memory, 0x1000, &[0xF8, 0x69, 0x01, 0xD8]);
    let mut cpu = cpu_at(0x1000);
    assert_eq!(cpu.step(&mut memory), Ok(2));
    let before = cpu.regs;
    assert_eq!(cpu.step(&mut memory), Err(CpuError::DecimalMode));
    assert_eq!(cpu.regs, before);
    assert!(!cpu.halted);
    cpu.regs.status.decimal = false;
    assert_eq!(cpu.step(&mut memory), Ok(2));
    assert_eq!(cpu.regs.a, 0x01);
}

#[test]
fn write_to_read_only_memory_is_dropped() {
    let mut memory = FlatMemory::new();
    load(&mut memory, 0x1000, &[0x8D, 0x00, 0xE0, 0xEE, 0x00, 0xE0]);
    memory.poke(0xE000, 0xAA);
    memory.set_read_only(0xE000, true);
    let mut cpu = cpu_at(0x1000);
    cpu.regs.a = 0x55;
    assert_eq!(cpu.step(&mut memory), Ok(4));
    assert_eq!(memory.read_byte(0xE000), 0xAA);
    assert_eq!(cpu.step(&mut memory), Ok(6));
    assert_eq!(memory.read_byte(0xE000), 0xAA);
    assert!(cpu.regs.status.negative);
    assert_eq!(cpu.regs.pc, 0x1006);
}

#[test]
fn read_modify_write_writes_twice() {
    let mut bus = Recorder { bytes: vec![0; 0x10000], writes: Vec::new() };
    bus.bytes[0x1000] = 0xEE;
    bus.bytes[0x1001] = 0x00;
    bus.bytes[0x1002] = 0x20;
    bus.bytes[0x2000] = 0x41;
    let mut cpu = cpu_at(0x1000);
    assert_eq!(cpu.step(&mut bus), Ok(6));
    assert_eq!(bus.writes, vec![(0x2000, 0x41), (0x2000, 0x42)]);
    assert_eq!(bus.bytes[0x2000], 0x42);
}

#[test]
fn shift_of_the_accumulator_writes_nothing() {
    let mut bus = Recorder { bytes: vec![0; 0x10000], writes: Vec::new() };
    bus.bytes[0x1000] = 0x0A;
    let mut cpu = cpu_at(0x1000);
    cpu.regs.a = 0x81;
    assert_eq!(cpu.step(&mut bus), Ok(2));
    assert_eq!(cpu.regs.a, 0x02);
    assert!(bus.writes.is_empty());
}

#[test]
fn run_fills_the_context() {
    let mut memory = FlatMemory::new();
    load(&mut memory, 0x1001, &[0xFF, 0x20]);
    memory.poke(0x2100, 0x41);
    let mut regs = Registers { a: 0, x: 1, y: 0, sp: 0xFF, pc: 0x1001, status: clear() };
    let mut instruction = decode(0xFE);
    assert_eq!(instruction.run(&mut regs, &mut memory), Ok(7));
    assert_eq!(instruction.operand_addr, 0x2100);
    assert_eq!(instruction.index_addr, 0x20FF);
    assert_eq!(instruction.rmw_buffer, 0x41);
    assert!(instruction.zp_crossed);
    assert_eq!(memory.read_byte(0x2100), 0x42);
    assert_eq!(regs.pc, 0x1003);
}

#[test]
fn indirect_jump_through_the_end_of_a_page() {
    let mut memory = FlatMemory::new();
    load(&mut memory, 0x1000, &[0x6C, 0xFF, 0x30]);
    memory.poke(0x30FF, 0x40);
    memory.poke(0x3000, 0x50);
    memory.poke(0x3100, 0x60);
    let mut cpu = cpu_at(0x1000);
    assert_eq!(cpu.step(&mut memory), Ok(5));
    assert_eq!(cpu.regs.pc, 0x5040);
}

#[test]
fn every_opcode_steps_or_reports() {
    for opcode in 0..=255u8 {
        let mut memory = FlatMemory::new();
        load(&mut memory, 0x1000, &[opcode, 0x10, 0x20]);
        let mut cpu = cpu_at(0x1000);
        let entry = mos6510::opcodes::get_instruction(opcode).unwrap();
        match cpu.step(&mut memory) {
            Ok(cycles) => {
                assert!(cycles >= entry.1 as u16, "opcode {:02X}", opcode);
                assert!(cycles <= entry.1 as u16 + 2, "opcode {:02X}", opcode);
            }
            Err(error) => {
                assert_eq!(error, CpuError::Halted, "opcode {:02X}", opcode);
                assert_eq!(entry.0, mos6510::opcodes::Op::HLT);
            }
        }
    }
}
