// Cartridge loading and header parsing.

use rust_gb_emu::cartridge::Cartridge;
use rust_gb_emu::cartridge::CartridgeType;

fn create_minimal_rom() -> Vec<u8> {
    let mut rom = vec![0u8; 0x8000]; // 32 KiB.

    // Entry point at 0x0100.
    rom[0x0100] = 0x00; // NOP
    rom[0x0101] = 0xC3; // JP
    rom[0x0102] = 0x50; // addr low
    rom[0x0103] = 0x01; // addr high (0x0150)

    // Title at 0x0134.
    let title = b"TEST";
    rom[0x0134..0x0134 + title.len()].copy_from_slice(title);

    // Cartridge type: ROM only.
    rom[0x0147] = 0x00;

    // ROM size: 32 KiB.
    rom[0x0148] = 0x00;

    // RAM size: none.
    rom[0x0149] = 0x00;

    // Compute the header checksum.
    let mut checksum: u8 = 0;
    for i in 0x0134..=0x014C {
        checksum = checksum.wrapping_sub(rom[i]).wrapping_sub(1);
    }
    rom[0x014D] = checksum;

    rom
}

#[test]
fn test_load_rom() {
    let rom = create_minimal_rom();
    let cart = Cartridge::from_bytes(rom).unwrap();

    assert_eq!(cart.info.title, "TEST");
    assert_eq!(cart.info.cartridge_type, CartridgeType::RomOnly);
    assert_eq!(cart.info.rom_size, 32 * 1024);
    assert_eq!(cart.info.ram_size, 0);
    assert!(cart.info.checksum_valid);
}

#[test]
fn test_cartridge_type_parsing() {
    assert_eq!(CartridgeType::from(0x00), CartridgeType::RomOnly);
    assert_eq!(CartridgeType::from(0x01), CartridgeType::Mbc1);
    assert_eq!(CartridgeType::from(0x03), CartridgeType::Mbc1RamBattery);
    assert_eq!(CartridgeType::from(0x13), CartridgeType::Mbc3RamBattery);
    assert_eq!(CartridgeType::from(0x1B), CartridgeType::Mbc5RamBattery);
}

#[test]
fn test_rom_too_small() {
    let rom = vec![0u8; 100];
    let result = Cartridge::from_bytes(rom);
    assert!(result.is_err());
}

#[test]
fn test_read_rom() {
    let mut rom = create_minimal_rom();
    rom[0x0150] = 0xAB;
    rom[0x0151] = 0xCD;

    let cart = Cartridge::from_bytes(rom).unwrap();

    assert_eq!(cart.read(0x0150), 0xAB);
    assert_eq!(cart.read(0x0151), 0xCD);
}

#[test]
fn test_rom_too_small_message() {
    let rom = vec![0u8; 0x14F];
    match Cartridge::from_bytes(rom) {
        Err(e) => assert_eq!(e, "ROM too small (must be at least 336 bytes for header)"),
        Ok(_) => panic!("a 335-byte image must be rejected"),
    }
}

#[test]
fn test_checksum_mismatch_nonfatal() {
    let mut rom = create_minimal_rom();
    rom[0x014D] = rom[0x014D].wrapping_add(1);

    let cart = Cartridge::from_bytes(rom).unwrap();
    assert!(!cart.info.checksum_valid);
}

#[test]
fn test_unknown_cartridge_type() {
    assert_eq!(CartridgeType::from(0x42), CartridgeType::Unknown(0x42));
}

#[test]
fn test_read_past_end() {
    let rom = vec![0u8; 0x150];
    let cart = Cartridge::from_bytes(rom).unwrap();
    assert_eq!(cart.read(0x0150), 0xFF);
}
