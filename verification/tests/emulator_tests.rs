// Emulator shell: construction, serial capture, cycle runs.

use rust_gb_emu::emulator::Emulator;

#[test]
fn test_emulator_creation() {
    // Create a minimal ROM.
    let rom = vec![0u8; 0x8000];
    let emu = Emulator::with_rom(&rom);

    assert_eq!(emu.cpu.regs.pc, 0x0100);
    assert_eq!(emu.cycles, 0);
}

#[test]
fn test_serial_output() {
    // A ROM that outputs "Hi" via serial.
    let mut rom = vec![0u8; 0x8000];

    let program: &[u8] = &[
        0x3E, b'H', // LD A, 'H'
        0xE0, 0x01, // LDH (0x01), A  -> (0xFF01)
        0x3E, 0x81, // LD A, 0x81
        0xE0, 0x02, // LDH (0x02), A  -> (0xFF02)
        0x3E, b'i', // LD A, 'i'
        0xE0, 0x01, // LDH (0x01), A
        0x3E, 0x81, // LD A, 0x81
        0xE0, 0x02, // LDH (0x02), A
        0x76, // HALT
    ];

    for (i, byte) in program.iter().enumerate() {
        rom[0x0100 + i] = *byte;
    }

    let mut emu = Emulator::with_rom(&rom);
    emu.run_until_halt(10000);

    assert_eq!(emu.get_serial_output(), "Hi");
}

#[test]
fn test_run_cycles() {
    let rom = vec![0u8; 0x8000]; // All NOPs.
    let mut emu = Emulator::with_rom(&rom);

    emu.run_cycles(100);

    // Each NOP is 4 cycles, so about 25 NOPs have executed.
    assert!(emu.cycles >= 100);
}

#[test]
fn test_run_until_serial_contains() {
    let mut rom = vec![0u8; 0x8000];
    let program: &[u8] = &[
        0x3E, b'O', // LD A, 'O'
        0xE0, 0x01, // LDH (0x01), A
        0x3E, 0x81, // LD A, 0x81
        0xE0, 0x02, // LDH (0x02), A
        0x3E, b'K', // LD A, 'K'
        0xE0, 0x01, // LDH (0x01), A
        0x3E, 0x81, // LD A, 0x81
        0xE0, 0x02, // LDH (0x02), A
        0x76, // HALT
    ];
    for (i, byte) in program.iter().enumerate() {
        rom[0x0100 + i] = *byte;
    }

    let mut emu = Emulator::with_rom(&rom);
    assert!(emu.run_until_serial_contains("OK", 100_000));
    assert!(!emu.test_passed());
    assert!(!emu.test_failed());
}

#[test]
fn test_passed_and_failed_detection() {
    fn serial_program(text: &[u8]) -> Vec<u8> {
        let mut rom = vec![0u8; 0x8000];
        let mut pos = 0x0100;
        for &c in text {
            let chunk: [u8; 8] = [0x3E, c, 0xE0, 0x01, 0x3E, 0x81, 0xE0, 0x02];
            rom[pos..pos + 8].copy_from_slice(&chunk);
            pos += 8;
        }
        rom[pos] = 0x76; // HALT
        rom
    }

    let mut emu = Emulator::with_rom(&serial_program(b"Passed"));
    emu.run_until_halt(1_000_000);
    assert!(emu.test_passed());
    assert!(!emu.test_failed());

    let mut emu = Emulator::with_rom(&serial_program(b"failed"));
    emu.run_until_halt(1_000_000);
    assert!(emu.test_failed());
    assert!(!emu.test_passed());
}
