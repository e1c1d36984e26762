// Base instruction table: loads, ALU, jumps, stack, and the CPU
// step protocol.

use rust_gb_emu::bus::Bus;
use rust_gb_emu::cpu::Cpu;

fn setup() -> (Cpu, Bus) {
    let mut cpu = Cpu::new();
    cpu.regs.pc = 0xC000; // Start in WRAM for testing.
    let bus = Bus::new();
    (cpu, bus)
}

#[test]
fn test_nop() {
    let (mut cpu, mut bus) = setup();
    bus.write(0xC000, 0x00); // NOP

    let cycles = cpu.step(&mut bus);

    assert_eq!(cycles, 4);
    assert_eq!(cpu.regs.pc, 0xC001);
}

#[test]
fn test_ld_b_n() {
    let (mut cpu, mut bus) = setup();
    bus.write(0xC000, 0x06); // LD B, n
    bus.write(0xC001, 0x42); // n = 0x42

    let cycles = cpu.step(&mut bus);

    assert_eq!(cycles, 8);
    assert_eq!(cpu.regs.b, 0x42);
    assert_eq!(cpu.regs.pc, 0xC002);
}

#[test]
fn test_ld_bc_nn() {
    let (mut cpu, mut bus) = setup();
    bus.write(0xC000, 0x01); // LD BC, nn
    bus.write(0xC001, 0x34); // low byte
    bus.write(0xC002, 0x12); // high byte

    let cycles = cpu.step(&mut bus);

    assert_eq!(cycles, 12);
    assert_eq!(cpu.regs.bc(), 0x1234);
}

#[test]
fn test_xor_a() {
    let (mut cpu, mut bus) = setup();
    cpu.regs.a = 0xFF;
    bus.write(0xC000, 0xAF); // XOR A

    cpu.step(&mut bus);

    assert_eq!(cpu.regs.a, 0x00);
    assert!(cpu.regs.f.z);
}

#[test]
fn test_inc_b() {
    let (mut cpu, mut bus) = setup();
    cpu.regs.b = 0x0F;
    bus.write(0xC000, 0x04); // INC B

    cpu.step(&mut bus);

    assert_eq!(cpu.regs.b, 0x10);
    assert!(!cpu.regs.f.z);
    assert!(!cpu.regs.f.n);
    assert!(cpu.regs.f.h); // half carry from 0x0F to 0x10
}

#[test]
fn test_dec_b() {
    let (mut cpu, mut bus) = setup();
    cpu.regs.b = 0x10;
    bus.write(0xC000, 0x05); // DEC B

    cpu.step(&mut bus);

    assert_eq!(cpu.regs.b, 0x0F);
    assert!(!cpu.regs.f.z);
    assert!(cpu.regs.f.n);
    assert!(cpu.regs.f.h); // half borrow from 0x10 to 0x0F
}

#[test]
fn test_jp_nn() {
    let (mut cpu, mut bus) = setup();
    bus.write(0xC000, 0xC3); // JP nn
    bus.write(0xC001, 0x50);
    bus.write(0xC002, 0x01); // 0x0150

    cpu.step(&mut bus);

    assert_eq!(cpu.regs.pc, 0x0150);
}

#[test]
fn test_jr_n() {
    let (mut cpu, mut bus) = setup();
    bus.write(0xC000, 0x18); // JR n
    bus.write(0xC001, 0x10); // offset +16

    cpu.step(&mut bus);

    assert_eq!(cpu.regs.pc, 0xC012); // 0xC002 + 0x10
}

#[test]
fn test_jr_negative() {
    let (mut cpu, mut bus) = setup();
    bus.write(0xC000, 0x18); // JR n
    bus.write(0xC001, 0xFE); // offset -2

    cpu.step(&mut bus);

    assert_eq!(cpu.regs.pc, 0xC000); // 0xC002 + (-2) = 0xC000
}

#[test]
fn instructions_test_push_pop() {
    let (mut cpu, mut bus) = setup();
    cpu.regs.sp = 0xFFFE;
    cpu.regs.set_bc(0x1234);

    // PUSH BC.
    bus.write(0xC000, 0xC5);
    cpu.step(&mut bus);
    assert_eq!(cpu.regs.sp, 0xFFFC);

    // POP DE.
    bus.write(0xC001, 0xD1);
    cpu.step(&mut bus);
    assert_eq!(cpu.regs.de(), 0x1234);
    assert_eq!(cpu.regs.sp, 0xFFFE);
}

#[test]
fn instructions_test_call_ret() {
    let (mut cpu, mut bus) = setup();
    cpu.regs.sp = 0xFFFE;

    // CALL 0xC100 (within WRAM).
    bus.write(0xC000, 0xCD);
    bus.write(0xC001, 0x00);
    bus.write(0xC002, 0xC1); // 0xC100
    cpu.step(&mut bus);

    assert_eq!(cpu.regs.pc, 0xC100);
    assert_eq!(cpu.regs.sp, 0xFFFC);

    // RET (at 0xC100).
    bus.write(0xC100, 0xC9);
    cpu.step(&mut bus);

    assert_eq!(cpu.regs.pc, 0xC003);
    assert_eq!(cpu.regs.sp, 0xFFFE);
}

#[test]
fn test_add_a() {
    let (mut cpu, mut bus) = setup();
    cpu.regs.a = 0x3C;
    cpu.regs.b = 0x0F;
    bus.write(0xC000, 0x80); // ADD A, B

    cpu.step(&mut bus);

    assert_eq!(cpu.regs.a, 0x4B);
    assert!(!cpu.regs.f.z);
    assert!(!cpu.regs.f.n);
    assert!(cpu.regs.f.h); // half carry
    assert!(!cpu.regs.f.c);
}

#[test]
fn test_sub_a() {
    let (mut cpu, mut bus) = setup();
    cpu.regs.a = 0x10;
    cpu.regs.b = 0x01;
    bus.write(0xC000, 0x90); // SUB B

    cpu.step(&mut bus);

    assert_eq!(cpu.regs.a, 0x0F);
    assert!(!cpu.regs.f.z);
    assert!(cpu.regs.f.n);
    assert!(cpu.regs.f.h); // half borrow
    assert!(!cpu.regs.f.c);
}

#[test]
fn test_cp() {
    let (mut cpu, mut bus) = setup();
    cpu.regs.a = 0x10;
    cpu.regs.b = 0x10;
    bus.write(0xC000, 0xB8); // CP B

    cpu.step(&mut bus);

    assert_eq!(cpu.regs.a, 0x10); // A unchanged
    assert!(cpu.regs.f.z); // A == B
    assert!(cpu.regs.f.n);
}

#[test]
fn test_add_a_overflow_boundary() {
    // ADD A,v with A=0xFF, v=0x01: A=0x00, Z=1, H=1, C=1.
    let (mut cpu, mut bus) = setup();
    cpu.regs.a = 0xFF;
    cpu.regs.b = 0x01;
    bus.write(0xC000, 0x80); // ADD A, B

    cpu.step(&mut bus);

    assert_eq!(cpu.regs.a, 0x00);
    assert!(cpu.regs.f.z);
    assert!(cpu.regs.f.h);
    assert!(cpu.regs.f.c);
}

#[test]
fn test_sub_equal_sets_z_n() {
    // SUB v with A == B always gives Z=1, N=1.
    let (mut cpu, mut bus) = setup();
    cpu.regs.a = 0x57;
    cpu.regs.b = 0x57;
    bus.write(0xC000, 0x90); // SUB B

    cpu.step(&mut bus);

    assert_eq!(cpu.regs.a, 0x00);
    assert!(cpu.regs.f.z);
    assert!(cpu.regs.f.n);
}

#[test]
fn test_inc_dec_restores_value() {
    // INC then DEC restores an 8-bit register.
    let (mut cpu, mut bus) = setup();
    cpu.regs.b = 0xA7;
    bus.write(0xC000, 0x04); // INC B
    bus.write(0xC001, 0x05); // DEC B

    cpu.step(&mut bus);
    assert_eq!(cpu.regs.b, 0xA8);
    cpu.step(&mut bus);
    assert_eq!(cpu.regs.b, 0xA7);
}

#[test]
fn test_inc_half_carry_boundary() {
    // INC r with r=0x0F: H=1, result 0x10.
    let (mut cpu, mut bus) = setup();
    cpu.regs.c = 0x0F;
    bus.write(0xC000, 0x0C); // INC C

    cpu.step(&mut bus);

    assert_eq!(cpu.regs.c, 0x10);
    assert!(cpu.regs.f.h);
}

#[test]
fn test_dec_half_borrow_boundary() {
    // DEC r with r=0x10: H=1, result 0x0F.
    let (mut cpu, mut bus) = setup();
    cpu.regs.c = 0x10;
    bus.write(0xC000, 0x0D); // DEC C

    cpu.step(&mut bus);

    assert_eq!(cpu.regs.c, 0x0F);
    assert!(cpu.regs.f.h);
}

#[test]
fn test_push_pop_af_masks_low_nibble() {
    // PUSH AF ; POP AF transfers the value modulo the low-nibble
    // mask of F.
    let (mut cpu, mut bus) = setup();
    cpu.regs.sp = 0xFFFE;
    cpu.regs.set_af(0x12F0);
    bus.write(0xC000, 0xF5); // PUSH AF
    bus.write(0xC001, 0xF1); // POP AF

    cpu.step(&mut bus);
    cpu.step(&mut bus);

    assert_eq!(cpu.regs.af(), 0x12F0);
}

#[test]
fn test_halt_sets_halted() {
    let (mut cpu, mut bus) = setup();
    bus.write(0xC000, 0x76); // HALT

    let cycles = cpu.step(&mut bus);

    assert_eq!(cycles, 4);
    assert!(cpu.halted);

    // A halted CPU idles at 4 cycles per step without advancing PC.
    let pc = cpu.regs.pc;
    let cycles = cpu.step(&mut bus);
    assert_eq!(cycles, 4);
    assert_eq!(cpu.regs.pc, pc);
}

#[test]
fn test_ei_delay_and_interrupt_dispatch() {
    // EI enables IME only after the next instruction; a pending
    // timer interrupt is then serviced: PC pushed, vector entered.
    let (mut cpu, mut bus) = setup();
    cpu.regs.sp = 0xFFFE;
    bus.write(0xFFFF, 0x04); // IE: timer
    bus.write(0xFF0F, 0x04); // IF: timer
    bus.write(0xC000, 0xFB); // EI
    bus.write(0xC001, 0x00); // NOP

    cpu.step(&mut bus); // EI
    assert!(!cpu.ime);
    cpu.step(&mut bus); // NOP; IME set afterwards
    assert!(cpu.ime);

    let cycles = cpu.step(&mut bus); // dispatch
    assert_eq!(cycles, 20);
    assert_eq!(cpu.regs.pc, 0x0050);
    assert!(!cpu.ime);
    assert_eq!(bus.read(0xFF0F) & 0x04, 0);
    // The return address 0xC002 was pushed.
    assert_eq!(bus.read16(0xFFFC), 0xC002);
}

#[test]
fn test_daa_after_addition() {
    // 0x15 + 0x27 = 0x3C; DAA adjusts to 0x42 (BCD 15 + 27 = 42).
    let (mut cpu, mut bus) = setup();
    cpu.regs.a = 0x15;
    cpu.regs.b = 0x27;
    bus.write(0xC000, 0x80); // ADD A, B
    bus.write(0xC001, 0x27); // DAA

    cpu.step(&mut bus);
    cpu.step(&mut bus);

    assert_eq!(cpu.regs.a, 0x42);
    assert!(!cpu.regs.f.c);
}

#[test]
fn test_undefined_opcode_is_noop() {
    // The hardware-undefined opcodes execute as 4-cycle no-ops.
    let (mut cpu, mut bus) = setup();
    bus.write(0xC000, 0xD3);

    let cycles = cpu.step(&mut bus);

    assert_eq!(cycles, 4);
    assert_eq!(cpu.regs.pc, 0xC001);
}
