// CB-prefixed instructions: rotates, shifts, swap and bit tests.

use rust_gb_emu::bus::Bus;
use rust_gb_emu::cpu::Cpu;

fn setup() -> (Cpu, Bus) {
    let mut cpu = Cpu::new();
    cpu.regs.pc = 0xC000; // Start in WRAM for testing.
    let bus = Bus::new();
    (cpu, bus)
}

#[test]
fn test_rlc_b() {
    let (mut cpu, mut bus) = setup();
    cpu.regs.b = 0x85; // 1000_0101
    bus.write(0xC000, 0xCB); // CB prefix
    bus.write(0xC001, 0x00); // RLC B

    cpu.step(&mut bus);

    assert_eq!(cpu.regs.b, 0x0B); // 0000_1011
    assert!(cpu.regs.f.c); // bit 7 was set
    assert!(!cpu.regs.f.z);
}

#[test]
fn test_rrc_b() {
    let (mut cpu, mut bus) = setup();
    cpu.regs.b = 0x01; // 0000_0001
    bus.write(0xC000, 0xCB);
    bus.write(0xC001, 0x08); // RRC B

    cpu.step(&mut bus);

    assert_eq!(cpu.regs.b, 0x80); // 1000_0000
    assert!(cpu.regs.f.c);
}

#[test]
fn test_sla_b() {
    let (mut cpu, mut bus) = setup();
    cpu.regs.b = 0x80; // 1000_0000
    bus.write(0xC000, 0xCB);
    bus.write(0xC001, 0x20); // SLA B

    cpu.step(&mut bus);

    assert_eq!(cpu.regs.b, 0x00);
    assert!(cpu.regs.f.c); // bit 7 went to carry
    assert!(cpu.regs.f.z); // result is zero
}

#[test]
fn test_sra_b() {
    let (mut cpu, mut bus) = setup();
    cpu.regs.b = 0x81; // 1000_0001
    bus.write(0xC000, 0xCB);
    bus.write(0xC001, 0x28); // SRA B

    cpu.step(&mut bus);

    assert_eq!(cpu.regs.b, 0xC0); // 1100_0000 (bit 7 preserved)
    assert!(cpu.regs.f.c);
}

#[test]
fn test_swap_b() {
    let (mut cpu, mut bus) = setup();
    cpu.regs.b = 0xF0;
    bus.write(0xC000, 0xCB);
    bus.write(0xC001, 0x30); // SWAP B

    cpu.step(&mut bus);

    assert_eq!(cpu.regs.b, 0x0F);
    assert!(!cpu.regs.f.z);
    assert!(!cpu.regs.f.c);
}

#[test]
fn test_bit() {
    let (mut cpu, mut bus) = setup();
    cpu.regs.b = 0x80; // bit 7 set
    bus.write(0xC000, 0xCB);
    bus.write(0xC001, 0x78); // BIT 7, B

    cpu.step(&mut bus);

    assert!(!cpu.regs.f.z); // bit 7 is set
    assert!(!cpu.regs.f.n);
    assert!(cpu.regs.f.h);

    // Test bit 0 (not set).
    cpu.regs.pc = 0xC000;
    bus.write(0xC001, 0x40); // BIT 0, B
    cpu.step(&mut bus);
    assert!(cpu.regs.f.z); // bit 0 is not set
}

#[test]
fn test_res() {
    let (mut cpu, mut bus) = setup();
    cpu.regs.b = 0xFF;
    bus.write(0xC000, 0xCB);
    bus.write(0xC001, 0x80); // RES 0, B

    cpu.step(&mut bus);

    assert_eq!(cpu.regs.b, 0xFE);
}

#[test]
fn test_set() {
    let (mut cpu, mut bus) = setup();
    cpu.regs.b = 0x00;
    bus.write(0xC000, 0xCB);
    bus.write(0xC001, 0xF8); // SET 7, B

    cpu.step(&mut bus);

    assert_eq!(cpu.regs.b, 0x80);
}

#[test]
fn test_rl_through_carry() {
    let (mut cpu, mut bus) = setup();
    cpu.regs.b = 0x80;
    cpu.regs.f.c = true; // carry set
    bus.write(0xC000, 0xCB);
    bus.write(0xC001, 0x10); // RL B

    cpu.step(&mut bus);

    assert_eq!(cpu.regs.b, 0x01); // carry rotated in
    assert!(cpu.regs.f.c); // bit 7 went to carry
}

#[test]
fn test_srl_b() {
    let (mut cpu, mut bus) = setup();
    cpu.regs.b = 0x81; // 1000_0001
    bus.write(0xC000, 0xCB);
    bus.write(0xC001, 0x38); // SRL B

    cpu.step(&mut bus);

    assert_eq!(cpu.regs.b, 0x40); // 0100_0000 (logical shift)
    assert!(cpu.regs.f.c); // bit 0 went to carry
}

#[test]
fn test_cb_on_hl_operand() {
    let (mut cpu, mut bus) = setup();
    cpu.regs.set_hl(0xC800);
    bus.write(0xC800, 0x01);
    bus.write(0xC000, 0xCB);
    bus.write(0xC001, 0xFE); // SET 7, (HL)

    let cycles = cpu.step(&mut bus);

    assert_eq!(cycles, 16);
    assert_eq!(bus.read(0xC800), 0x81);
}
