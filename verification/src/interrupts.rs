//! Interrupt sources and priority resolution.
//!
//! The DMG has five interrupt sources with fixed vectors and a fixed
//! priority: V-Blank (bit 0, highest) through Joypad (bit 4, lowest).
//! An interrupt is pending when its bit is set both in IE (`0xFFFF`)
//! and in IF (`0xFF0F`); the resolver picks the lowest set bit of
//! `IE & IF` and returns its vector and bit mask.

use vstd::prelude::*;

verus! {

/// Interrupt vector of the V-Blank source (bit 0).
pub const VBLANK_VECTOR: u16 = 0x0040;

/// Interrupt vector of the LCD STAT source (bit 1).
pub const LCD_STAT_VECTOR: u16 = 0x0048;

/// Interrupt vector of the Timer source (bit 2).
pub const TIMER_VECTOR: u16 = 0x0050;

/// Interrupt vector of the Serial source (bit 3).
pub const SERIAL_VECTOR: u16 = 0x0058;

/// Interrupt vector of the Joypad source (bit 4).
pub const JOYPAD_VECTOR: u16 = 0x0060;

/// The five interrupt sources, stored unpacked; each occupies one bit
/// of the IE and IF registers.
#[derive(Debug, Clone, Copy, PartialEq, Eq, Structural)]
pub struct InterruptFlags {
    /// Bit 0.
    pub vblank: bool,
    /// Bit 1.
    pub lcd_stat: bool,
    /// Bit 2.
    pub timer: bool,
    /// Bit 3.
    pub serial: bool,
    /// Bit 4.
    pub joypad: bool,
}

/// The register byte that an interrupt flag set packs to: one bit per
/// source in bits 4..0.
pub open spec fn interrupt_byte(f: InterruptFlags) -> u8 {
    ((if f.vblank {
        1int
    } else {
        0int
    }) + (if f.lcd_stat {
        2int
    } else {
        0int
    }) + (if f.timer {
        4int
    } else {
        0int
    }) + (if f.serial {
        8int
    } else {
        0int
    }) + (if f.joypad {
        16int
    } else {
        0int
    })) as u8
}

/// The interrupt flag set that a register byte unpacks to; bits 7..5
/// are ignored.
pub open spec fn interrupts_of_byte(b: u8) -> InterruptFlags {
    InterruptFlags {
        vblank: b % 2 == 1,
        lcd_stat: b / 2 % 2 == 1,
        timer: b / 4 % 2 == 1,
        serial: b / 8 % 2 == 1,
        joypad: b / 16 % 2 == 1,
    }
}

impl InterruptFlags {
    /// No interrupt pending.
    pub fn new() -> (r: InterruptFlags)
        ensures
            r == (InterruptFlags {
                vblank: false,
                lcd_stat: false,
                timer: false,
                serial: false,
                joypad: false,
            }),
    {
        InterruptFlags { vblank: false, lcd_stat: false, timer: false, serial: false, joypad: false }
    }

    /// Pack the flag set into an IE/IF register byte.
    pub fn to_byte(&self) -> (r: u8)
        ensures
            r == interrupt_byte(*self),
    {
        let mut val: u8 = 0;
        if self.vblank {
            val += 1;
        }
        if self.lcd_stat {
            val += 2;
        }
        if self.timer {
            val += 4;
        }
        if self.serial {
            val += 8;
        }
        if self.joypad {
            val += 16;
        }
        val
    }

    /// Unpack the flag set from an IE/IF register byte.
    pub fn from_byte(&mut self, val: u8)
        ensures
            *final(self) == interrupts_of_byte(val),
    {
        proof {
            lemma_u8_low_bit_tests(val);
        }
        self.vblank = (val & 0x01) != 0;
        self.lcd_stat = (val & 0x02) != 0;
        self.timer = (val & 0x04) != 0;
        self.serial = (val & 0x08) != 0;
        self.joypad = (val & 0x10) != 0;
    }
}

impl Default for InterruptFlags {
    /// No interrupt pending, as `InterruptFlags::new` returns.
    fn default() -> (r: InterruptFlags)
        ensures
            r == (InterruptFlags {
                vblank: false,
                lcd_stat: false,
                timer: false,
                serial: false,
                joypad: false,
            }),
    {
        InterruptFlags::new()
    }
}

/// The vector and bit mask of the highest-priority interrupt that is
/// both enabled in `ie` and pending in `if_reg`, or `None` when no
/// enabled interrupt is pending.  Priority runs from bit 0 (V-Blank,
/// highest) to bit 4 (Joypad, lowest).
pub open spec fn spec_interrupt_vector(ie: u8, if_reg: u8) -> Option<(u16, u8)> {
    let pending = ie & if_reg;
    if pending & 0x01 != 0 {
        Some((VBLANK_VECTOR, 0x01u8))
    } else if pending & 0x02 != 0 {
        Some((LCD_STAT_VECTOR, 0x02u8))
    } else if pending & 0x04 != 0 {
        Some((TIMER_VECTOR, 0x04u8))
    } else if pending & 0x08 != 0 {
        Some((SERIAL_VECTOR, 0x08u8))
    } else if pending & 0x10 != 0 {
        Some((JOYPAD_VECTOR, 0x10u8))
    } else {
        None
    }
}

/// Resolve the highest-priority pending interrupt over `IE & IF`.
pub fn get_interrupt_vector(ie: u8, if_reg: u8) -> (r: Option<(u16, u8)>)
    ensures
        r == spec_interrupt_vector(ie, if_reg),
{
    let pending = ie & if_reg;

    if pending & 0x01 != 0 {
        Some((VBLANK_VECTOR, 0x01))
    } else if pending & 0x02 != 0 {
        Some((LCD_STAT_VECTOR, 0x02))
    } else if pending & 0x04 != 0 {
        Some((TIMER_VECTOR, 0x04))
    } else if pending & 0x08 != 0 {
        Some((SERIAL_VECTOR, 0x08))
    } else if pending & 0x10 != 0 {
        Some((JOYPAD_VECTOR, 0x10))
    } else {
        None
    }
}

/// Bridge: testing a single low bit of a byte with a mask agrees with
/// the arithmetic reading `b / weight % 2`.
proof fn lemma_u8_low_bit_tests(b: u8)
    by (bit_vector)
    ensures
        ((b & 0x01) != 0) == (b % 2 == 1),
        ((b & 0x02) != 0) == (b / 2 % 2 == 1),
        ((b & 0x04) != 0) == (b / 4 % 2 == 1),
        ((b & 0x08) != 0) == (b / 8 % 2 == 1),
        ((b & 0x10) != 0) == (b / 16 % 2 == 1),
{
}

} // verus!
