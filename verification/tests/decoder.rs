use gb_cpu::bus::Bus;
use gb_cpu::cpu::{Cpu, CpuError};

#[test]
fn nop_costs_one_cycle_and_only_moves_pc() {
    let mut bus = Bus::new();
    // NOP at 0x0000, then a recognisable next opcode byte.
    bus.write(0x0000, 0x00);
    bus.write(0x0001, 0x77);
    let mut cpu = Cpu::new();
    cpu.fetch(&bus);
    assert_eq!(cpu.ctx.opcode, 0x00);
    assert_eq!(cpu.regs.pc, 0x0001);

    let before = (
        cpu.regs.a, cpu.regs.b, cpu.regs.c, cpu.regs.d, cpu.regs.e, cpu.regs.h, cpu.regs.l,
        cpu.regs.f, cpu.regs.sp,
    );
    assert_eq!(cpu.emulate_cycle(&mut bus), Ok(()));
    // Exactly one cycle: the overlapped fetch of the next opcode.
    assert_eq!(cpu.regs.pc, 0x0002);
    assert_eq!(cpu.ctx.opcode, 0x77);
    let after = (
        cpu.regs.a, cpu.regs.b, cpu.regs.c, cpu.regs.d, cpu.regs.e, cpu.regs.h, cpu.regs.l,
        cpu.regs.f, cpu.regs.sp,
    );
    assert_eq!(before, after);
}

#[test]
fn unknown_opcode_is_reported_not_skipped() {
    let mut bus = Bus::new();
    bus.write(0x0000, 0x77);
    let mut cpu = Cpu::new();
    cpu.fetch(&bus);
    assert_eq!(cpu.regs.pc, 0x0001);

    let r = cpu.emulate_cycle(&mut bus);
    assert_eq!(r, Err(CpuError::UnknownOpcode { opcode: 0x77, cb: false }));
    // Nothing was mutated by the failed decode.
    assert_eq!(cpu.regs.pc, 0x0001);
    assert_eq!(cpu.ctx.opcode, 0x77);
    assert!(!cpu.ctx.cb);
}

#[test]
fn cb_prefix_fetches_extended_opcode_then_reports() {
    let mut bus = Bus::new();
    bus.write(0x0000, 0xCB);
    bus.write(0x0001, 0x12);
    let mut cpu = Cpu::new();
    cpu.fetch(&bus);
    assert_eq!(cpu.ctx.opcode, 0xCB);

    // The prefix costs one more fetch cycle before the extended lookup.
    assert_eq!(cpu.emulate_cycle(&mut bus), Ok(()));
    assert_eq!(cpu.regs.pc, 0x0002);
    // No extended opcode has a registered handler here.
    let r = cpu.emulate_cycle(&mut bus);
    assert_eq!(r, Err(CpuError::UnknownOpcode { opcode: 0x12, cb: true }));
    assert_eq!(cpu.ctx.opcode, 0x12);
    assert!(cpu.ctx.cb);
}

#[test]
fn nop_stream_advances_one_byte_per_cycle() {
    let mut bus = Bus::new();
    let mut cpu = Cpu::new();
    cpu.fetch(&bus);
    for i in 1..=16u16 {
        assert_eq!(cpu.emulate_cycle(&mut bus), Ok(()));
        assert_eq!(cpu.regs.pc, i + 1);
    }
}
