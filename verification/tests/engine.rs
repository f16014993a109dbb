use gb_cpu::bus::Bus;
use gb_cpu::cpu::{Cpu, IO8, IO16};
use gb_cpu::cpu::operands::{Direct8, Direct16, Imm8, Imm16, Indirect, Reg16};

/// A CPU whose program counter sits at `pc`.
fn cpu_at(pc: u16) -> Cpu {
    let mut cpu = Cpu::new();
    cpu.regs.pc = pc;
    cpu
}

#[test]
fn imm8_takes_two_calls_and_resets() {
    let mut bus = Bus::new();
    bus.write(0x0100, 0x42);
    bus.write(0x0101, 0x99);
    let mut cpu = cpu_at(0x0100);

    // First call issues the bus read and advances PC; not yet complete.
    assert_eq!(cpu.read8(&bus, Imm8), None);
    assert_eq!(cpu.regs.pc, 0x0101);
    // Second call delivers the byte and resets the cursor to idle.
    assert_eq!(cpu.read8(&bus, Imm8), Some(0x42));
    assert_eq!(cpu.regs.pc, 0x0101);
    // A third, independent read starts counting from its first cycle.
    assert_eq!(cpu.read8(&bus, Imm8), None);
    assert_eq!(cpu.read8(&bus, Imm8), Some(0x99));
    assert_eq!(cpu.regs.pc, 0x0102);
}

#[test]
fn imm8_wraps_pc_at_end_of_address_space() {
    let mut bus = Bus::new();
    bus.write(0xFFFF, 0x5A);
    let mut cpu = cpu_at(0xFFFF);
    assert_eq!(cpu.read8(&bus, Imm8), None);
    assert_eq!(cpu.regs.pc, 0x0000);
    assert_eq!(cpu.read8(&bus, Imm8), Some(0x5A));
}

#[test]
fn imm16_takes_three_calls_and_is_little_endian() {
    let mut bus = Bus::new();
    bus.write(0x0200, 0x34);
    bus.write(0x0201, 0x12);
    let mut cpu = cpu_at(0x0200);

    assert_eq!(cpu.read16(&bus, Imm16), None);
    assert_eq!(cpu.read16(&bus, Imm16), None);
    assert_eq!(cpu.read16(&bus, Imm16), Some(0x1234));
    assert_eq!(cpu.regs.pc, 0x0202);
}

#[test]
fn indirect_read_through_pairs() {
    let mut bus = Bus::new();
    bus.write(0x1234, 0xAA);
    bus.write(0x5678, 0xBB);
    let mut cpu = Cpu::new();
    let mut scratch = Bus::new();
    assert_eq!(cpu.write16(&mut scratch, Reg16::BC, 0x1234), Some(()));
    assert_eq!(cpu.write16(&mut scratch, Reg16::DE, 0x5678), Some(()));

    assert_eq!(cpu.read8(&bus, Indirect::BC), None);
    assert_eq!(cpu.read8(&bus, Indirect::BC), Some(0xAA));
    assert_eq!(cpu.read8(&bus, Indirect::DE), None);
    assert_eq!(cpu.read8(&bus, Indirect::DE), Some(0xBB));
}

#[test]
fn indirect_high_page_through_c() {
    let mut bus = Bus::new();
    bus.write(0xFF44, 0x90);
    let mut cpu = Cpu::new();
    cpu.regs.c = 0x44;
    assert_eq!(cpu.read8(&bus, Indirect::CFF), None);
    assert_eq!(cpu.read8(&bus, Indirect::CFF), Some(0x90));
}

#[test]
fn indirect_auto_increment_and_decrement() {
    let mut bus = Bus::new();
    bus.write(0x8000, 0x7E);
    let mut cpu = Cpu::new();
    let mut scratch = Bus::new();

    assert_eq!(cpu.write16(&mut scratch, Reg16::HL, 0x8000), Some(()));
    assert_eq!(cpu.read8(&bus, Indirect::HLI), None);
    assert_eq!(cpu.read8(&bus, Indirect::HLI), Some(0x7E));
    assert_eq!(cpu.read16(&bus, Reg16::HL), Some(0x8001));

    assert_eq!(cpu.write16(&mut scratch, Reg16::HL, 0x8000), Some(()));
    assert_eq!(cpu.read8(&bus, Indirect::HLD), None);
    assert_eq!(cpu.read8(&bus, Indirect::HLD), Some(0x7E));
    assert_eq!(cpu.read16(&bus, Reg16::HL), Some(0x7FFF));
}

#[test]
fn indirect_decrement_wraps_at_zero() {
    let mut bus = Bus::new();
    bus.write(0x0000, 0x11);
    let mut cpu = Cpu::new();
    // HL starts at zero; the decrement kind wraps to the top address.
    assert_eq!(cpu.read8(&bus, Indirect::HLD), None);
    assert_eq!(cpu.read8(&bus, Indirect::HLD), Some(0x11));
    assert_eq!(cpu.read16(&bus, Reg16::HL), Some(0xFFFF));
}

#[test]
fn indirect_write_stores_then_reports() {
    let mut bus = Bus::new();
    let mut cpu = Cpu::new();
    let mut scratch = Bus::new();
    assert_eq!(cpu.write16(&mut scratch, Reg16::HL, 0x9000), Some(()));

    assert_eq!(cpu.write8(&mut bus, Indirect::HLI, 0x3C), None);
    assert_eq!(bus.read(0x9000), 0x3C);
    assert_eq!(cpu.write8(&mut bus, Indirect::HLI, 0x3C), Some(()));
    assert_eq!(cpu.read16(&bus, Reg16::HL), Some(0x9001));
}

#[test]
fn direct_read_absolute_takes_four_calls() {
    let mut bus = Bus::new();
    // Address bytes at PC, little endian: 0xC123.
    bus.write(0x0300, 0x23);
    bus.write(0x0301, 0xC1);
    bus.write(0xC123, 0x66);
    let mut cpu = cpu_at(0x0300);

    assert_eq!(cpu.read8(&bus, Direct8::D), None);
    assert_eq!(cpu.read8(&bus, Direct8::D), None);
    assert_eq!(cpu.read8(&bus, Direct8::D), None);
    assert_eq!(cpu.read8(&bus, Direct8::D), Some(0x66));
    assert_eq!(cpu.regs.pc, 0x0302);
}

#[test]
fn direct_read_high_page_takes_three_calls() {
    let mut bus = Bus::new();
    bus.write(0x0400, 0x85);
    bus.write(0xFF85, 0x5D);
    let mut cpu = cpu_at(0x0400);

    assert_eq!(cpu.read8(&bus, Direct8::DFF), None);
    assert_eq!(cpu.read8(&bus, Direct8::DFF), None);
    assert_eq!(cpu.read8(&bus, Direct8::DFF), Some(0x5D));
    assert_eq!(cpu.regs.pc, 0x0401);
}

#[test]
fn direct_write_absolute() {
    let mut bus = Bus::new();
    bus.write(0x0500, 0x00);
    bus.write(0x0501, 0xD0);
    let mut cpu = cpu_at(0x0500);

    assert_eq!(cpu.write8(&mut bus, Direct8::D, 0x42), None);
    assert_eq!(cpu.write8(&mut bus, Direct8::D, 0x42), None);
    assert_eq!(cpu.write8(&mut bus, Direct8::D, 0x42), None);
    assert_eq!(bus.read(0xD000), 0x42);
    assert_eq!(cpu.write8(&mut bus, Direct8::D, 0x42), Some(()));
}

#[test]
fn direct_write_high_page() {
    let mut bus = Bus::new();
    bus.write(0x0600, 0x47);
    let mut cpu = cpu_at(0x0600);

    assert_eq!(cpu.write8(&mut bus, Direct8::DFF, 0x91), None);
    assert_eq!(cpu.write8(&mut bus, Direct8::DFF, 0x91), None);
    assert_eq!(bus.read(0xFF47), 0x91);
    assert_eq!(cpu.write8(&mut bus, Direct8::DFF, 0x91), Some(()));
}

#[test]
fn direct_word_store_takes_five_calls() {
    let mut bus = Bus::new();
    bus.write(0x0700, 0x00);
    bus.write(0x0701, 0xC2);
    let mut cpu = cpu_at(0x0700);

    assert_eq!(cpu.write16(&mut bus, Direct16, 0xBEEF), None);
    assert_eq!(cpu.write16(&mut bus, Direct16, 0xBEEF), None);
    assert_eq!(cpu.write16(&mut bus, Direct16, 0xBEEF), None);
    assert_eq!(cpu.write16(&mut bus, Direct16, 0xBEEF), None);
    assert_eq!(cpu.write16(&mut bus, Direct16, 0xBEEF), Some(()));
    // Little endian: low byte first, high byte one address above.
    assert_eq!(bus.read(0xC200), 0xEF);
    assert_eq!(bus.read(0xC201), 0xBE);
    assert_eq!(cpu.regs.pc, 0x0702);
}
