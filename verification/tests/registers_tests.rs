// Register file: flag packing, register pairs, post-boot values.

use rust_gb_emu::cpu::Flags;
use rust_gb_emu::cpu::Registers;

#[test]
fn test_flags_to_byte() {
    let mut flags = Flags { z: false, n: false, h: false, c: false };
    assert_eq!(flags.to_byte(), 0x00);

    flags.z = true;
    assert_eq!(flags.to_byte(), 0x80);

    flags.n = true;
    assert_eq!(flags.to_byte(), 0xC0);

    flags.h = true;
    assert_eq!(flags.to_byte(), 0xE0);

    flags.c = true;
    assert_eq!(flags.to_byte(), 0xF0);
}

#[test]
fn test_flags_from_byte() {
    let mut flags = Flags::new();

    flags.from_byte(0x00);
    assert!(!flags.z && !flags.n && !flags.h && !flags.c);

    flags.from_byte(0xF0);
    assert!(flags.z && flags.n && flags.h && flags.c);

    // The lower 4 bits should be ignored.
    flags.from_byte(0xFF);
    assert!(flags.z && flags.n && flags.h && flags.c);
}

#[test]
fn test_register_pairs() {
    let mut regs = Registers::new();

    // BC.
    regs.set_bc(0x1234);
    assert_eq!(regs.b, 0x12);
    assert_eq!(regs.c, 0x34);
    assert_eq!(regs.bc(), 0x1234);

    // DE.
    regs.set_de(0xABCD);
    assert_eq!(regs.d, 0xAB);
    assert_eq!(regs.e, 0xCD);
    assert_eq!(regs.de(), 0xABCD);

    // HL.
    regs.set_hl(0x5678);
    assert_eq!(regs.h, 0x56);
    assert_eq!(regs.l, 0x78);
    assert_eq!(regs.hl(), 0x5678);
}

#[test]
fn test_af_pair() {
    let mut regs = Registers::new();

    // Set AF with specific flags.
    regs.set_af(0x12F0); // A=0x12, F=0xF0 (all flags set).
    assert_eq!(regs.a, 0x12);
    assert!(regs.f.z && regs.f.n && regs.f.h && regs.f.c);

    // The lower 4 bits of F should be masked.
    regs.set_af(0x34FF);
    assert_eq!(regs.a, 0x34);
    assert_eq!(regs.af() & 0x00FF, 0xF0);
}

#[test]
fn test_post_boot_values() {
    let regs = Registers::new();

    // DMG post-boot register values.
    assert_eq!(regs.a, 0x01);
    assert_eq!(regs.b, 0x00);
    assert_eq!(regs.c, 0x13);
    assert_eq!(regs.d, 0x00);
    assert_eq!(regs.e, 0xD8);
    assert_eq!(regs.h, 0x01);
    assert_eq!(regs.l, 0x4D);
    assert_eq!(regs.sp, 0xFFFE);
    assert_eq!(regs.pc, 0x0100);
}

#[test]
fn test_flags_round_trip() {
    // Packing and unpacking restores every flag combination, and the
    // packed byte always has a zero low nibble.
    for bits in 0..16u8 {
        let mut flags = Flags {
            z: bits & 1 != 0,
            n: bits & 2 != 0,
            h: bits & 4 != 0,
            c: bits & 8 != 0,
        };
        let byte = flags.to_byte();
        assert_eq!(byte & 0x0F, 0);
        let saved = flags;
        flags.from_byte(byte);
        assert_eq!(flags, saved);
    }
}

#[test]
fn test_pair_round_trip_all_pairs() {
    let mut regs = Registers::new();

    for &v in &[0x0000u16, 0x00FF, 0xFF00, 0xABCD, 0xFFFF] {
        regs.set_bc(v);
        assert_eq!(regs.bc(), v);
        regs.set_de(v);
        assert_eq!(regs.de(), v);
        regs.set_hl(v);
        assert_eq!(regs.hl(), v);
        regs.set_af(v);
        assert_eq!(regs.af(), v & 0xFFF0);
    }
}
