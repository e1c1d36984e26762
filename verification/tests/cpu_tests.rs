// CPU construction and interrupt handling.

use rust_gb_emu::bus::Bus;
use rust_gb_emu::cpu::Cpu;

#[test]
fn test_cpu_creation() {
    let cpu = Cpu::new();
    // After the boot ROM, PC is at the cartridge entry point.
    assert_eq!(cpu.regs.pc, 0x0100);
    assert_eq!(cpu.regs.sp, 0xFFFE);
    assert!(!cpu.halted);
    assert!(!cpu.ime);
}

#[test]
fn test_halt_wakes_without_ime() {
    // A pending interrupt wakes a halted CPU even with IME off, and
    // no dispatch happens.
    let mut cpu = Cpu::new();
    let mut bus = Bus::new();
    cpu.halted = true;
    cpu.ime = false;
    bus.write(0xFFFF, 0x04);
    bus.write(0xFF0F, 0x04);

    let cycles = cpu.handle_interrupts(&mut bus);

    assert_eq!(cycles, 0);
    assert!(!cpu.halted);
    // The IF bit stays set: nothing was serviced.
    assert_eq!(bus.read(0xFF0F) & 0x04, 0x04);
}
