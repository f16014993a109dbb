use gb_cpu::bus::Bus;
use gb_cpu::cpu::{Cpu, IO8, IO16};
use gb_cpu::cpu::operands::{Cond, Reg8, Reg16};

fn all_reg8() -> Vec<Reg8> {
    vec![Reg8::A, Reg8::B, Reg8::C, Reg8::D, Reg8::E, Reg8::H, Reg8::L]
}

#[test]
fn reg8_round_trip_every_register() {
    let mut cpu = Cpu::new();
    let mut bus = Bus::new();
    for r in all_reg8() {
        for v in [0x00u8, 0x01, 0x0F, 0x42, 0x80, 0xFF] {
            assert_eq!(cpu.write8(&mut bus, r, v), Some(()));
            assert_eq!(cpu.read8(&bus, r), Some(v));
        }
    }
}

#[test]
fn reg8_write_leaves_others_alone() {
    let mut cpu = Cpu::new();
    let mut bus = Bus::new();
    assert_eq!(cpu.write8(&mut bus, Reg8::B, 0x11), Some(()));
    assert_eq!(cpu.write8(&mut bus, Reg8::C, 0x22), Some(()));
    assert_eq!(cpu.read8(&bus, Reg8::B), Some(0x11));
    assert_eq!(cpu.read8(&bus, Reg8::C), Some(0x22));
    assert_eq!(cpu.read8(&bus, Reg8::A), Some(0x00));
}

#[test]
fn pair_composition_bc() {
    let mut cpu = Cpu::new();
    let mut bus = Bus::new();
    assert_eq!(cpu.write16(&mut bus, Reg16::BC, 0x1234), Some(()));
    assert_eq!(cpu.read8(&bus, Reg8::B), Some(0x12));
    assert_eq!(cpu.read8(&bus, Reg8::C), Some(0x34));
    assert_eq!(cpu.read16(&bus, Reg16::BC), Some(0x1234));
}

#[test]
fn pair_mapping_is_one_to_one() {
    let mut cpu = Cpu::new();
    let mut bus = Bus::new();
    assert_eq!(cpu.write16(&mut bus, Reg16::BC, 0x1111), Some(()));
    assert_eq!(cpu.write16(&mut bus, Reg16::DE, 0x2222), Some(()));
    assert_eq!(cpu.write16(&mut bus, Reg16::HL, 0x3333), Some(()));
    assert_eq!(cpu.write16(&mut bus, Reg16::SP, 0x4444), Some(()));
    assert_eq!(cpu.read16(&bus, Reg16::BC), Some(0x1111));
    assert_eq!(cpu.read16(&bus, Reg16::DE), Some(0x2222));
    assert_eq!(cpu.read16(&bus, Reg16::HL), Some(0x3333));
    assert_eq!(cpu.read16(&bus, Reg16::SP), Some(0x4444));
}

#[test]
fn af_low_nibble_always_masked() {
    let mut cpu = Cpu::new();
    let mut bus = Bus::new();
    for v in [0x0000u16, 0x00FFu16, 0xFFFFu16, 0x1234u16, 0xAB0Fu16] {
        assert_eq!(cpu.write16(&mut bus, Reg16::AF, v), Some(()));
        assert_eq!(cpu.regs.f & 0x0F, 0);
        assert_eq!(cpu.read16(&bus, Reg16::AF), Some(v & 0xFFF0));
    }
}

#[test]
fn condition_codes_follow_flag_bits() {
    let mut cpu = Cpu::new();
    let mut bus = Bus::new();
    // Zero flag is bit 7, Carry flag is bit 4.
    assert_eq!(cpu.write16(&mut bus, Reg16::AF, 0x0080), Some(()));
    assert!(cpu.check_cond(Cond::Z));
    assert!(!cpu.check_cond(Cond::NZ));
    assert!(cpu.check_cond(Cond::NC));
    assert!(!cpu.check_cond(Cond::C));
    assert_eq!(cpu.write16(&mut bus, Reg16::AF, 0x0010), Some(()));
    assert!(!cpu.check_cond(Cond::Z));
    assert!(cpu.check_cond(Cond::NZ));
    assert!(!cpu.check_cond(Cond::NC));
    assert!(cpu.check_cond(Cond::C));
}

#[test]
fn bus_read_back() {
    let mut bus = Bus::new();
    assert_eq!(bus.read(0x8000), 0);
    bus.write(0x8000, 0xAB);
    assert_eq!(bus.read(0x8000), 0xAB);
    assert_eq!(bus.read(0x7FFF), 0);
    assert_eq!(bus.read(0x8001), 0);
    bus.write(0xFFFF, 0x01);
    assert_eq!(bus.read(0xFFFF), 0x01);
}
