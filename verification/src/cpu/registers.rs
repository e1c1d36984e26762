//! CPU register file.
//!
//! The SM83 has eight 8-bit registers `A, F, B, C, D, E, H, L` and two
//! 16-bit registers `SP` and `PC`.  Adjacent 8-bit registers pair into
//! the 16-bit views `AF, BC, DE, HL`, high byte first.  The flag
//! register `F` keeps the four flags `Z, N, H, C` in bits 7..4; its low
//! nibble always reads as zero and is ignored on writes.
//!
//! The specifications speak arithmetic: a pair is `high * 256 + low`,
//! and a flag bit of a byte `b` is `b / weight % 2`.  The executable
//! code keeps the hardware-style shifts and masks; the two bridge
//! lemmas at the bottom connect the two readings.

use vstd::prelude::*;

verus! {

/// The four CPU flags, stored unpacked.
///
/// `z`: result was zero.  `n`: last operation was a subtraction.
/// `h`: carry out of bit 3 (half carry).  `c`: carry out of bit 7.
#[derive(Debug, Clone, Copy, PartialEq, Eq, Structural)]
pub struct Flags {
    pub z: bool,
    pub n: bool,
    pub h: bool,
    pub c: bool,
}

/// The F-register byte that a flag set packs to: Z, N, H, C in bits
/// 7..4, low nibble zero.
pub open spec fn flags_byte(f: Flags) -> u8 {
    ((if f.z {
        128int
    } else {
        0int
    }) + (if f.n {
        64int
    } else {
        0int
    }) + (if f.h {
        32int
    } else {
        0int
    }) + (if f.c {
        16int
    } else {
        0int
    })) as u8
}

/// The flag set that a byte unpacks to; bits 3..0 are ignored.
pub open spec fn flags_of_byte(b: u8) -> Flags {
    Flags {
        z: b / 128 % 2 == 1,
        n: b / 64 % 2 == 1,
        h: b / 32 % 2 == 1,
        c: b / 16 % 2 == 1,
    }
}

impl Flags {
    /// The post-boot flag values of the DMG: Z=1, N=0, H=1, C=1.
    pub fn new() -> (r: Flags)
        ensures
            r == (Flags { z: true, n: false, h: true, c: true }),
    {
        Flags { z: true, n: false, h: true, c: true }
    }

    /// Pack the flags into the F-register byte.
    pub fn to_byte(&self) -> (r: u8)
        ensures
            r == flags_byte(*self),
    {
        let mut f: u8 = 0;
        if self.z {
            f += 128;
        }
        if self.n {
            f += 64;
        }
        if self.h {
            f += 32;
        }
        if self.c {
            f += 16;
        }
        f
    }

    /// Unpack the flags from an F-register byte; the low nibble is
    /// ignored.
    pub fn from_byte(&mut self, byte: u8)
        ensures
            *final(self) == flags_of_byte(byte),
    {
        proof {
            lemma_u8_bit_tests(byte);
        }
        self.z = (byte & 0x80) != 0;
        self.n = (byte & 0x40) != 0;
        self.h = (byte & 0x20) != 0;
        self.c = (byte & 0x10) != 0;
    }
}

impl Default for Flags {
    /// The post-boot flag values, as `Flags::new` returns them.
    fn default() -> (r: Flags)
        ensures
            r == (Flags { z: true, n: false, h: true, c: true }),
    {
        Flags::new()
    }
}

/// Flag round trip: unpacking the packed byte restores the flags, and
/// the packed byte always has a zero low nibble.
pub proof fn lemma_flags_round_trip(f: Flags)
    ensures
        flags_of_byte(flags_byte(f)) == f,
        flags_byte(f) % 16 == 0,
{
}

/// Byte round trip: packing the unpacked flags masks the low nibble
/// and keeps bits 7..4.
pub proof fn lemma_flags_byte_round_trip(b: u8)
    ensures
        flags_byte(flags_of_byte(b)) == b - b % 16,
{
    assert(128 * (b / 128 % 2) + 64 * (b / 64 % 2) + 32 * (b / 32 % 2) + 16 * (b / 16 % 2) == b
        - b % 16) by (bit_vector);
}

/// CPU registers.
#[derive(Debug, Clone, PartialEq, Eq, Structural)]
pub struct Registers {
    /// Accumulator.
    pub a: u8,
    /// Flags.
    pub f: Flags,
    /// General purpose register B.
    pub b: u8,
    /// General purpose register C.
    pub c: u8,
    /// General purpose register D.
    pub d: u8,
    /// General purpose register E.
    pub e: u8,
    /// General purpose register H.
    pub h: u8,
    /// General purpose register L.
    pub l: u8,
    /// Stack pointer.
    pub sp: u16,
    /// Program counter.
    pub pc: u16,
}

/// The 16-bit value of a high/low register pair.
pub open spec fn pair(hi: u8, lo: u8) -> u16 {
    (hi * 256 + lo) as u16
}

/// The high byte of a 16-bit value.
pub open spec fn high_byte(v: u16) -> u8 {
    (v / 256) as u8
}

/// The low byte of a 16-bit value.
pub open spec fn low_byte(v: u16) -> u8 {
    (v % 256) as u8
}

/// The AF pair of a register file: A over the packed flag byte.
pub open spec fn spec_af(r: Registers) -> u16 {
    pair(r.a, flags_byte(r.f))
}

/// The BC pair of a register file.
pub open spec fn spec_bc(r: Registers) -> u16 {
    pair(r.b, r.c)
}

/// The DE pair of a register file.
pub open spec fn spec_de(r: Registers) -> u16 {
    pair(r.d, r.e)
}

/// The HL pair of a register file.
pub open spec fn spec_hl(r: Registers) -> u16 {
    pair(r.h, r.l)
}

impl Registers {
    /// The DMG post-boot register values, with `PC` at the cartridge
    /// entry point `0x0100`.
    pub fn new() -> (r: Registers)
        ensures
            r == spec_boot_registers(),
    {
        Registers {
            a: 0x01,
            f: Flags::new(),
            b: 0x00,
            c: 0x13,
            d: 0x00,
            e: 0xD8,
            h: 0x01,
            l: 0x4D,
            sp: 0xFFFE,
            pc: 0x0100,
        }
    }

    /// Read the AF pair: A is the high byte, the packed flags the low.
    pub fn af(&self) -> (r: u16)
        ensures
            r == spec_af(*self),
    {
        proof {
            lemma_pair_bytes(self.a, flags_byte(self.f));
        }
        ((self.a as u16) << 8) | (self.f.to_byte() as u16)
    }

    /// Write the AF pair; the low nibble of F is forced to zero.
    pub fn set_af(&mut self, value: u16)
        ensures
            *final(self) == (Registers {
                a: high_byte(value),
                f: flags_of_byte((low_byte(value) - low_byte(value) % 16) as u8),
                ..*old(self)
            }),
    {
        proof {
            lemma_u16_split(value);
        }
        self.a = (value >> 8) as u8;
        self.f.from_byte((value & 0xF0) as u8);
    }

    /// Read the BC pair.
    pub fn bc(&self) -> (r: u16)
        ensures
            r == spec_bc(*self),
    {
        proof {
            lemma_pair_bytes(self.b, self.c);
        }
        ((self.b as u16) << 8) | (self.c as u16)
    }

    /// Write the BC pair.
    pub fn set_bc(&mut self, value: u16)
        ensures
            *final(self) == (Registers { b: high_byte(value), c: low_byte(value), ..*old(self) }),
    {
        proof {
            lemma_u16_split(value);
        }
        self.b = (value >> 8) as u8;
        self.c = (value & 0xFF) as u8;
    }

    /// Read the DE pair.
    pub fn de(&self) -> (r: u16)
        ensures
            r == spec_de(*self),
    {
        proof {
            lemma_pair_bytes(self.d, self.e);
        }
        ((self.d as u16) << 8) | (self.e as u16)
    }

    /// Write the DE pair.
    pub fn set_de(&mut self, value: u16)
        ensures
            *final(self) == (Registers { d: high_byte(value), e: low_byte(value), ..*old(self) }),
    {
        proof {
            lemma_u16_split(value);
        }
        self.d = (value >> 8) as u8;
        self.e = (value & 0xFF) as u8;
    }

    /// Read the HL pair.
    pub fn hl(&self) -> (r: u16)
        ensures
            r == spec_hl(*self),
    {
        proof {
            lemma_pair_bytes(self.h, self.l);
        }
        ((self.h as u16) << 8) | (self.l as u16)
    }

    /// Write the HL pair.
    pub fn set_hl(&mut self, value: u16)
        ensures
            *final(self) == (Registers { h: high_byte(value), l: low_byte(value), ..*old(self) }),
    {
        proof {
            lemma_u16_split(value);
        }
        self.h = (value >> 8) as u8;
        self.l = (value & 0xFF) as u8;
    }

}

impl Default for Registers {
    /// The post-boot register values, as `Registers::new` returns them.
    fn default() -> (r: Registers)
        ensures
            r == spec_boot_registers(),
    {
        Registers::new()
    }
}

/// The DMG post-boot register file.
pub open spec fn spec_boot_registers() -> Registers {
    Registers {
        a: 0x01,
        f: Flags { z: true, n: false, h: true, c: true },
        b: 0x00,
        c: 0x13,
        d: 0x00,
        e: 0xD8,
        h: 0x01,
        l: 0x4D,
        sp: 0xFFFE,
        pc: 0x0100,
    }
}

/// Pair round trip: writing a 16-bit value and reading the pair back
/// restores it.  Stated for BC; DE and HL write and read with the very
/// same byte split, so the one statement covers all three pairs.
pub proof fn lemma_pair_round_trip(v: u16)
    ensures
        pair(high_byte(v), low_byte(v)) == v,
{
}

/// AF round trip: writing a 16-bit value to AF and reading it back
/// masks the low nibble of the flag byte.
pub proof fn lemma_af_round_trip(r: Registers, v: u16)
    ensures
        ({
            let lo = (low_byte(v) - low_byte(v) % 16) as u8;
            spec_af(Registers { a: high_byte(v), f: flags_of_byte(lo), ..r }) == v - v % 16
        }),
{
    let lo = (low_byte(v) - low_byte(v) % 16) as u8;
    lemma_flags_byte_round_trip(lo);
    assert(lo % 16 == 0);
    assert(v / 256 * 256 + (v % 256 - v % 256 % 16) == v - v % 16) by (bit_vector);
}

/// Bridge: testing a single high bit of a byte with a mask agrees with
/// the arithmetic reading `b / weight % 2`.
proof fn lemma_u8_bit_tests(b: u8)
    by (bit_vector)
    ensures
        ((b & 0x80) != 0) == (b / 128 % 2 == 1),
        ((b & 0x40) != 0) == (b / 64 % 2 == 1),
        ((b & 0x20) != 0) == (b / 32 % 2 == 1),
        ((b & 0x10) != 0) == (b / 16 % 2 == 1),
{
}

/// Bridge: combining a high and a low byte with shift-or agrees with
/// `hi * 256 + lo`.
pub proof fn lemma_pair_bytes(hi: u8, lo: u8)
    by (bit_vector)
    ensures
        ((hi as u16) << 8) | (lo as u16) == hi * 256 + lo,
{
}

/// Bridge: the shift and mask splits of a 16-bit value agree with its
/// quotient and remainder by 256, and masking with `0xF0` clears the
/// low nibble of the low byte.
pub proof fn lemma_u16_split(v: u16)
    by (bit_vector)
    ensures
        (v >> 8) as u8 == v / 256,
        (v & 0xFF) as u8 == v % 256,
        (v & 0xF0) as u8 == v % 256 - v % 16,
        v % 256 % 16 == v % 16,
{
}

/// Bridge: the low-nibble mask of a byte is below 16.
pub proof fn lemma_u8_nibble(x: u8)
    by (bit_vector)
    ensures
        x & 0x0F < 16,
{
}

/// Bridge: masking a 16-bit value bounds it by the mask.
pub proof fn lemma_u16_mask_bounds(x: u16)
    by (bit_vector)
    ensures
        x & 0x0F < 16,
        x & 0xFF < 256,
        x & 0x0FFF < 0x1000,
{
}

} // verus!
