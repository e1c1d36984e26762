// Memory-bus behaviour: address decode, mirrors, quirks.

use rust_gb_emu::bus::Bus;

#[test]
fn test_wram_read_write() {
    let mut bus = Bus::new();

    // Write to WRAM.
    bus.write(0xC000, 0x42);
    bus.write(0xDFFF, 0x69);

    // Read back.
    assert_eq!(bus.read(0xC000), 0x42);
    assert_eq!(bus.read(0xDFFF), 0x69);
}

#[test]
fn test_echo_ram() {
    let mut bus = Bus::new();

    // Write to WRAM.
    bus.write(0xC000, 0xAB);

    // Read from echo RAM (should mirror WRAM).
    assert_eq!(bus.read(0xE000), 0xAB);

    // Write to echo RAM.
    bus.write(0xE100, 0xCD);

    // Should be reflected in WRAM.
    assert_eq!(bus.read(0xC100), 0xCD);
}

#[test]
fn test_hram() {
    let mut bus = Bus::new();

    bus.write(0xFF80, 0x11);
    bus.write(0xFFFE, 0x22);

    assert_eq!(bus.read(0xFF80), 0x11);
    assert_eq!(bus.read(0xFFFE), 0x22);
}

#[test]
fn test_vram() {
    let mut bus = Bus::new();

    bus.write(0x8000, 0xAA);
    bus.write(0x9FFF, 0xBB);

    assert_eq!(bus.read(0x8000), 0xAA);
    assert_eq!(bus.read(0x9FFF), 0xBB);
}

#[test]
fn test_ie_register() {
    let mut bus = Bus::new();

    bus.write(0xFFFF, 0x1F);
    assert_eq!(bus.read(0xFFFF), 0x1F);
}

#[test]
fn test_unusable_area() {
    let bus = Bus::new();

    // The unusable area should return 0xFF.
    assert_eq!(bus.read(0xFEA0), 0xFF);
    assert_eq!(bus.read(0xFEFF), 0xFF);
}

#[test]
fn test_16bit_read_write() {
    let mut bus = Bus::new();

    // Write a 16-bit value (little-endian).
    bus.write16(0xC000, 0x1234);

    // Low byte at the lower address, high byte at the higher one.
    assert_eq!(bus.read(0xC000), 0x34);
    assert_eq!(bus.read(0xC001), 0x12);

    // Read back as 16-bit.
    assert_eq!(bus.read16(0xC000), 0x1234);
}

#[test]
fn test_rom_read() {
    let mut bus = Bus::new();

    // Load some ROM data.
    let rom_data = vec![0x00, 0x01, 0x02, 0x03];
    bus.load_rom(&rom_data);

    assert_eq!(bus.read(0x0000), 0x00);
    assert_eq!(bus.read(0x0001), 0x01);
    assert_eq!(bus.read(0x0002), 0x02);
    assert_eq!(bus.read(0x0003), 0x03);
}

#[test]
fn bus_test_div_reset() {
    let mut bus = Bus::new();

    // Put DIV at a nonzero value by setting the timer counter.
    bus.timer.internal_counter = 0xAB00;

    // Writing any value should reset DIV to 0.
    bus.write(0xFF04, 0x42);
    assert_eq!(bus.read(0xFF04), 0x00);
}

#[test]
fn test_tac_reads_with_high_bits() {
    let mut bus = Bus::new();

    bus.write(0xFF07, 0x05);
    assert_eq!(bus.read(0xFF07), 0x05 | 0xF8);

    bus.write(0xFF07, 0x00);
    assert_eq!(bus.read(0xFF07), 0xF8);
}

#[test]
fn test_if_masks_and_floats_high() {
    let mut bus = Bus::new();

    bus.write(0xFF0F, 0xFF);
    assert_eq!(bus.read(0xFF0F), 0x1F | 0xE0);

    bus.write(0xFF0F, 0x04);
    assert_eq!(bus.read(0xFF0F), 0x04 | 0xE0);
}

#[test]
fn test_joypad_stub_reads_ff() {
    let mut bus = Bus::new();

    bus.write(0xFF00, 0x00);
    assert_eq!(bus.read(0xFF00), 0xFF);
}

#[test]
fn test_rom_writes_ignored() {
    let mut bus = Bus::new();

    bus.load_rom(&[0x11, 0x22]);
    bus.write(0x0000, 0x99);
    assert_eq!(bus.read(0x0000), 0x11);
}

#[test]
fn test_unusable_area_write_ignored() {
    let mut bus = Bus::new();

    bus.write(0xFEA0, 0x55);
    assert_eq!(bus.read(0xFEA0), 0xFF);
}

#[test]
fn test_echo_write_in_mirror_range() {
    let mut bus = Bus::new();

    // Every WRAM write in 0xC000..=0xDDFF is visible at +0x2000.
    bus.write(0xC123, 0x5A);
    assert_eq!(bus.read(0xE123), 0x5A);
    assert_eq!(bus.read(0xC123), bus.read(0xE123));

    bus.write(0xDDFF, 0xA5);
    assert_eq!(bus.read(0xFDFF), 0xA5);
}

#[test]
fn test_serial_capture() {
    let mut bus = Bus::new();

    // A write of 0x81 to SC captures the SB byte.
    bus.write(0xFF01, b'G');
    bus.write(0xFF02, 0x81);
    bus.write(0xFF01, b'B');
    bus.write(0xFF02, 0x81);

    // A non-0x81 write captures nothing.
    bus.write(0xFF01, b'X');
    bus.write(0xFF02, 0x80);

    assert_eq!(bus.get_serial_output(), "GB");
}
