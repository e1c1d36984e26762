//! Cartridge images and their header.
//!
//! A cartridge image must hold the header through `0x014F`, so at
//! least 336 bytes.  The parsed fields are the title
//! (`0x0134..=0x0143`, ASCII, terminated by a zero byte within the
//! range), the cartridge-type code (`0x0147`), the ROM-size code
//! (`0x0148`), the RAM-size code (`0x0149`) and the header checksum
//! (`0x014D`), verified as `x = 0; for i in 0x0134..=0x014C: x = x -
//! rom[i] - 1` in wrapping 8-bit arithmetic.  A checksum mismatch is
//! reported, not fatal.

use vstd::prelude::*;
use vstd::wrapping::u8_specs;

verus! {

/// Cartridge types: the memory-bank-controller family of the image.
#[derive(Debug, Clone, Copy, PartialEq, Eq, Structural)]
pub enum CartridgeType {
    RomOnly,
    Mbc1,
    Mbc1Ram,
    Mbc1RamBattery,
    Mbc2,
    Mbc2Battery,
    Mbc3,
    Mbc3Ram,
    Mbc3RamBattery,
    Mbc3TimerBattery,
    Mbc3TimerRamBattery,
    Mbc5,
    Mbc5Ram,
    Mbc5RamBattery,
    Unknown(u8),
}

/// The cartridge type that a header code decodes to.
pub open spec fn spec_cartridge_type(value: u8) -> CartridgeType {
    match value {
        0x00 => CartridgeType::RomOnly,
        0x01 => CartridgeType::Mbc1,
        0x02 => CartridgeType::Mbc1Ram,
        0x03 => CartridgeType::Mbc1RamBattery,
        0x05 => CartridgeType::Mbc2,
        0x06 => CartridgeType::Mbc2Battery,
        0x0F => CartridgeType::Mbc3TimerBattery,
        0x10 => CartridgeType::Mbc3TimerRamBattery,
        0x11 => CartridgeType::Mbc3,
        0x12 => CartridgeType::Mbc3Ram,
        0x13 => CartridgeType::Mbc3RamBattery,
        0x19 => CartridgeType::Mbc5,
        0x1A => CartridgeType::Mbc5Ram,
        0x1B => CartridgeType::Mbc5RamBattery,
        _ => CartridgeType::Unknown(value),
    }
}

impl From<u8> for CartridgeType {
    /// Decode the cartridge-type code at header offset `0x0147`.
    fn from(value: u8) -> (r: CartridgeType)
        ensures
            r == spec_cartridge_type(value),
    {
        match value {
            0x00 => CartridgeType::RomOnly,
            0x01 => CartridgeType::Mbc1,
            0x02 => CartridgeType::Mbc1Ram,
            0x03 => CartridgeType::Mbc1RamBattery,
            0x05 => CartridgeType::Mbc2,
            0x06 => CartridgeType::Mbc2Battery,
            0x0F => CartridgeType::Mbc3TimerBattery,
            0x10 => CartridgeType::Mbc3TimerRamBattery,
            0x11 => CartridgeType::Mbc3,
            0x12 => CartridgeType::Mbc3Ram,
            0x13 => CartridgeType::Mbc3RamBattery,
            0x19 => CartridgeType::Mbc5,
            0x1A => CartridgeType::Mbc5Ram,
            0x1B => CartridgeType::Mbc5RamBattery,
            _ => CartridgeType::Unknown(value),
        }
    }
}

impl vstd::std_specs::convert::FromSpecImpl<u8> for CartridgeType {
    open spec fn obeys_from_spec() -> bool {
        true
    }

    open spec fn from_spec(value: u8) -> CartridgeType {
        spec_cartridge_type(value)
    }
}

/// Cartridge information parsed from the header.
#[derive(Debug)]
pub struct CartridgeInfo {
    /// The title bytes read as characters, up to the first zero byte.
    pub title: String,
    /// The decoded cartridge-type code.
    pub cartridge_type: CartridgeType,
    /// The ROM size in bytes that the size code declares.
    pub rom_size: usize,
    /// The RAM size in bytes that the size code declares.
    pub ram_size: usize,
    /// The stored header checksum byte.
    pub header_checksum: u8,
    /// Whether the computed checksum matches the stored byte.
    pub checksum_valid: bool,
}

/// Cartridge data and metadata.
pub struct Cartridge {
    /// The raw image.
    pub rom: Vec<u8>,
    /// The parsed header.
    pub info: CartridgeInfo,
}

/// The title characters from header offset `i` on: the bytes up to
/// the first zero byte or the end of the title field, each read as
/// the character with its code point.
pub open spec fn spec_title_from(rom: Seq<u8>, i: int) -> Seq<char>
    decreases 0x144 - i,
{
    if i < 0x134 || i >= 0x144 || rom[i] == 0 {
        Seq::empty()
    } else {
        seq![rom[i] as char] + spec_title_from(rom, i + 1)
    }
}

/// The ROM size in bytes that a header size code declares:
/// `32 KiB << code` for codes 0 through 8, 32 KiB otherwise.
pub open spec fn spec_rom_size(code: u8) -> int {
    match code {
        0x00 => 32int * 1024,
        0x01 => 64int * 1024,
        0x02 => 128int * 1024,
        0x03 => 256int * 1024,
        0x04 => 512int * 1024,
        0x05 => 1024int * 1024,
        0x06 => 2048int * 1024,
        0x07 => 4096int * 1024,
        0x08 => 8192int * 1024,
        _ => 32int * 1024,
    }
}

/// The RAM size in bytes that a header size code declares.
pub open spec fn spec_ram_size(code: u8) -> int {
    match code {
        0x00 => 0int,
        0x01 => 2int * 1024,
        0x02 => 8int * 1024,
        0x03 => 32int * 1024,
        0x04 => 128int * 1024,
        0x05 => 64int * 1024,
        _ => 0int,
    }
}

/// The header checksum fold from offset `i` with accumulator `acc`:
/// each byte of `0x0134..=0x014C` subtracts itself plus one,
/// wrapping.
pub open spec fn spec_checksum_from(rom: Seq<u8>, i: int, acc: u8) -> u8
    decreases 0x14D - i,
{
    if i < 0x134 || i >= 0x14D {
        acc
    } else {
        spec_checksum_from(rom, i + 1, u8_specs::wrapping_sub(u8_specs::wrapping_sub(acc, rom[i]), 1))
    }
}

/// The computed header checksum of an image.
pub open spec fn spec_checksum(rom: Seq<u8>) -> u8 {
    spec_checksum_from(rom, 0x134, 0)
}

/// What `parse_header` reads out of an image that holds the full
/// header.
pub open spec fn spec_header_ok(rom: Seq<u8>, info: CartridgeInfo) -> bool {
    &&& info.title@ == spec_title_from(rom, 0x134)
    &&& info.cartridge_type == spec_cartridge_type(rom[0x147])
    &&& info.rom_size == spec_rom_size(rom[0x148])
    &&& info.ram_size == spec_ram_size(rom[0x149])
    &&& info.header_checksum == rom[0x14D]
    &&& info.checksum_valid == (spec_checksum(rom) == rom[0x14D])
}

impl Cartridge {
    /// Load a cartridge from raw image bytes.  Images shorter than
    /// the 336-byte header are rejected; nothing else is.
    pub fn from_bytes(rom: Vec<u8>) -> (r: Result<Cartridge, String>)
        ensures
            ({
                match r {
                    Ok(cart) => rom@.len() >= 0x150 && cart.rom@ == rom@ && cart.inv()
                        && spec_header_ok(rom@, cart.info),
                    Err(e) => rom@.len() < 0x150 && e@ == "ROM too small (must be at least 336 bytes for header)"@,
                }
            }),
    {
        if rom.len() < 0x150 {
            return Err("ROM too small (must be at least 336 bytes for header)".to_owned());
        }

        let info = Self::parse_header(&rom);
        Ok(Cartridge { rom, info })
    }

    /// The image holds the full header.
    pub open spec fn inv(&self) -> bool {
        self.rom@.len() >= 0x150
    }

    /// Parse the cartridge header fields.
    fn parse_header(rom: &Vec<u8>) -> (info: CartridgeInfo)
        requires
            rom@.len() >= 0x150,
        ensures
            spec_header_ok(rom@, info),
    {
        // Title: bytes 0x0134..=0x0143, stopping at a zero byte.
        let mut title = String::new();
        let mut i: usize = 0x134;
        while i < 0x144 && rom[i] != 0
            invariant
                0x134 <= i <= 0x144,
                rom@.len() >= 0x150,
                spec_title_from(rom@, 0x134) == title@ + spec_title_from(rom@, i as int),
            decreases 0x144 - i,
        {
            let b: u8 = rom[i];
            crate::bus::push_char(&mut title, b as char);
            i = i + 1;
        }
        proof {
            assert(title@ + spec_title_from(rom@, i as int) =~= title@);
        }

        // Cartridge type (0x0147).
        let cartridge_type = CartridgeType::from(rom[0x147]);

        // ROM size (0x0148): 32 KiB << code.
        let rom_size: usize = match rom[0x148] {
            0x00 => 32 * 1024,
            0x01 => 64 * 1024,
            0x02 => 128 * 1024,
            0x03 => 256 * 1024,
            0x04 => 512 * 1024,
            0x05 => 1024 * 1024,
            0x06 => 2048 * 1024,
            0x07 => 4096 * 1024,
            0x08 => 8192 * 1024,
            _ => 32 * 1024,
        };

        // RAM size (0x0149).
        let ram_size: usize = match rom[0x149] {
            0x00 => 0,
            0x01 => 2 * 1024,
            0x02 => 8 * 1024,
            0x03 => 32 * 1024,
            0x04 => 128 * 1024,
            0x05 => 64 * 1024,
            _ => 0,
        };

        // Header checksum (0x014D), verified over 0x0134..=0x014C.
        let header_checksum: u8 = rom[0x14D];

        let mut checksum: u8 = 0;
        let mut k: usize = 0x134;
        while k < 0x14D
            invariant
                0x134 <= k <= 0x14D,
                rom@.len() >= 0x150,
                spec_checksum(rom@) == spec_checksum_from(rom@, k as int, checksum),
            decreases 0x14D - k,
        {
            let b: u8 = rom[k];
            checksum = checksum.wrapping_sub(b).wrapping_sub(1);
            k = k + 1;
        }
        let checksum_valid = checksum == header_checksum;

        CartridgeInfo { title, cartridge_type, rom_size, ram_size, header_checksum, checksum_valid }
    }

    /// Read a byte from the image; addresses past its end read
    /// `0xFF`.
    pub fn read(&self, addr: u16) -> (r: u8)
        ensures
            r == (if addr < self.rom@.len() {
                self.rom@[addr as int]
            } else {
                0xFF
            }),
    {
        if (addr as usize) < self.rom.len() {
            self.rom[addr as usize]
        } else {
            0xFF
        }
    }
}

} // verus!
