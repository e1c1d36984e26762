//! CB-prefixed instructions: rotates, shifts, swap and bit tests.
//!
//! The byte after the `0xCB` prefix decodes regularly: bits 2..0
//! select the operand (`B, C, D, E, H, L, (HL), A`), bits 7..6 the
//! group (rotate/shift, BIT, RES, SET) and bits 5..3 the sub-operation
//! or the bit number.  Rotates, shifts and SWAP set `Z` from the
//! result and clear `N` and `H`; BIT sets `Z` from the tested bit,
//! clears `N`, sets `H` and preserves `C`; RES and SET leave the flags
//! alone.

use vstd::prelude::*;

use super::Cpu;
use super::registers::Flags;
use super::registers::Registers;
use super::registers::spec_hl;
use super::with_flags;
use crate::bus::Bus;
use crate::bus::BusView;

verus! {

/// The operand that CB bits 2..0 select: a register, or the byte at
/// `(HL)` for index 6.
pub open spec fn spec_get_reg(c: Cpu, m: BusView, idx: u8) -> u8 {
    match idx {
        0 => c.regs.b,
        1 => c.regs.c,
        2 => c.regs.d,
        3 => c.regs.e,
        4 => c.regs.h,
        5 => c.regs.l,
        6 => m.spec_read(spec_hl(c.regs)),
        _ => c.regs.a,
    }
}

/// Writing the operand back: a register, or the byte at `(HL)` for
/// index 6.
pub open spec fn spec_set_reg(c: Cpu, m: BusView, idx: u8, value: u8) -> (Cpu, BusView) {
    match idx {
        0 => (Cpu { regs: Registers { b: value, ..c.regs }, ..c }, m),
        1 => (Cpu { regs: Registers { c: value, ..c.regs }, ..c }, m),
        2 => (Cpu { regs: Registers { d: value, ..c.regs }, ..c }, m),
        3 => (Cpu { regs: Registers { e: value, ..c.regs }, ..c }, m),
        4 => (Cpu { regs: Registers { h: value, ..c.regs }, ..c }, m),
        5 => (Cpu { regs: Registers { l: value, ..c.regs }, ..c }, m),
        6 => (c, m.spec_write(spec_hl(c.regs), value)),
        _ => (Cpu { regs: Registers { a: value, ..c.regs }, ..c }, m),
    }
}

/// RLC: rotate left circular; bit 7 goes to both C and bit 0.
pub open spec fn spec_rlc(c: Cpu, value: u8) -> (Cpu, u8) {
    let carry = (value >> 7) & 1;
    let result = (value << 1) | carry;
    (with_flags(c, result == 0, false, false, carry != 0), result)
}

/// RRC: rotate right circular; bit 0 goes to both C and bit 7.
pub open spec fn spec_rrc(c: Cpu, value: u8) -> (Cpu, u8) {
    let carry = value & 1;
    let result = (value >> 1) | (carry << 7);
    (with_flags(c, result == 0, false, false, carry != 0), result)
}

/// RL: rotate left through carry.
pub open spec fn spec_rl(c: Cpu, value: u8) -> (Cpu, u8) {
    let old_carry: u8 = if c.regs.f.c {
        1
    } else {
        0
    };
    let new_carry = (value >> 7) & 1;
    let result = (value << 1) | old_carry;
    (with_flags(c, result == 0, false, false, new_carry != 0), result)
}

/// RR: rotate right through carry.
pub open spec fn spec_rr(c: Cpu, value: u8) -> (Cpu, u8) {
    let old_carry: u8 = if c.regs.f.c {
        0x80
    } else {
        0
    };
    let new_carry = value & 1;
    let result = (value >> 1) | old_carry;
    (with_flags(c, result == 0, false, false, new_carry != 0), result)
}

/// SLA: shift left; bit 7 to C, zero into bit 0.
pub open spec fn spec_sla(c: Cpu, value: u8) -> (Cpu, u8) {
    let carry = (value >> 7) & 1;
    let result = value << 1;
    (with_flags(c, result == 0, false, false, carry != 0), result)
}

/// SRA: arithmetic shift right; bit 0 to C, bit 7 preserved.
pub open spec fn spec_sra(c: Cpu, value: u8) -> (Cpu, u8) {
    let carry = value & 1;
    let result = (value >> 1) | (value & 0x80);
    (with_flags(c, result == 0, false, false, carry != 0), result)
}

/// SWAP: exchange the nibbles; C is cleared.
pub open spec fn spec_swap(c: Cpu, value: u8) -> (Cpu, u8) {
    let result = ((value & 0x0F) << 4) | ((value & 0xF0) >> 4);
    (with_flags(c, result == 0, false, false, false), result)
}

/// SRL: logical shift right; bit 0 to C, zero into bit 7.
pub open spec fn spec_srl(c: Cpu, value: u8) -> (Cpu, u8) {
    let carry = value & 1;
    let result = value >> 1;
    (with_flags(c, result == 0, false, false, carry != 0), result)
}

/// BIT: Z is set when the tested bit is clear; N=0, H=1, C preserved.
pub open spec fn spec_bit(c: Cpu, value: u8, b: u8) -> Cpu {
    with_flags(c, value & (1u8 << b) == 0, false, true, c.regs.f.c)
}

/// RES: clear the selected bit; the flags are untouched.
pub open spec fn spec_res(value: u8, b: u8) -> u8 {
    value & !(1u8 << b)
}

/// SET: set the selected bit; the flags are untouched.
pub open spec fn spec_set(value: u8, b: u8) -> u8 {
    value | (1u8 << b)
}

/// One rotate/shift/swap operation, selected by CB bits 5..3.
pub open spec fn spec_cb_shift(c: Cpu, sub: u8, value: u8) -> (Cpu, u8) {
    match sub {
        0 => spec_rlc(c, value),
        1 => spec_rrc(c, value),
        2 => spec_rl(c, value),
        3 => spec_rr(c, value),
        4 => spec_sla(c, value),
        5 => spec_sra(c, value),
        6 => spec_swap(c, value),
        _ => spec_srl(c, value),
    }
}

/// One CB-prefixed instruction: the operation on the selected
/// operand, written back for every group but BIT.  Timing: 8 T-cycles
/// on a register, 12 for BIT on `(HL)`, 16 for the other `(HL)`
/// operations.
pub open spec fn spec_execute_cb(c: Cpu, m: BusView, opcode: u8) -> (Cpu, BusView, u32) {
    let idx = opcode & 0x07;
    let kind = opcode >> 6;
    let sub = (opcode >> 3) & 0x07;
    let value = spec_get_reg(c, m, idx);
    if kind == 0 {
        let (c1, result) = spec_cb_shift(c, sub, value);
        let (c2, m2) = spec_set_reg(c1, m, idx, result);
        (c2, m2, if idx == 6 {
            16
        } else {
            8
        })
    } else if kind == 1 {
        (spec_bit(c, value, sub), m, if idx == 6 {
            12
        } else {
            8
        })
    } else if kind == 2 {
        let (c2, m2) = spec_set_reg(c, m, idx, spec_res(value, sub));
        (c2, m2, if idx == 6 {
            16
        } else {
            8
        })
    } else {
        let (c2, m2) = spec_set_reg(c, m, idx, spec_set(value, sub));
        (c2, m2, if idx == 6 {
            16
        } else {
            8
        })
    }
}

/// The three decode fields of a CB opcode are in range.
proof fn lemma_cb_fields(opcode: u8)
    by (bit_vector)
    ensures
        opcode & 0x07 < 8,
        (opcode >> 3) & 0x07 < 8,
        opcode >> 6 < 4,
{
}

impl Cpu {
    /// Execute a CB-prefixed instruction; returns the T-cycles
    /// consumed.
    pub(crate) fn execute_cb(&mut self, bus: &mut Bus, opcode: u8) -> (r: u32)
        requires
            old(bus).wf(),
        ensures
            final(bus).wf(),
            ({
                let (c, m, cycles) = spec_execute_cb(*old(self), old(bus)@, opcode);
                *final(self) == c && final(bus)@ == m && r == cycles
            }),
    {
        proof {
            lemma_cb_fields(opcode);
        }
        // Operand index (bits 2..0), group (bits 7..6) and
        // sub-operation or bit number (bits 5..3).
        let idx = opcode & 0x07;
        let kind = opcode >> 6;
        let sub = (opcode >> 3) & 0x07;

        let value = self.get_reg_value(bus, idx);

        if kind == 0 {
            // Rotate / shift / swap, written back.
            let result = match sub {
                0 => self.rlc(value),
                1 => self.rrc(value),
                2 => self.rl(value),
                3 => self.rr(value),
                4 => self.sla(value),
                5 => self.sra(value),
                6 => self.swap(value),
                _ => self.srl(value),
            };
            self.set_reg_value(bus, idx, result);
            if idx == 6 {
                16
            } else {
                8
            }
        } else if kind == 1 {
            // BIT: test only, no write-back.
            self.bit(value, sub);
            if idx == 6 {
                12
            } else {
                8
            }
        } else if kind == 2 {
            let result = self.res(value, sub);
            self.set_reg_value(bus, idx, result);
            if idx == 6 {
                16
            } else {
                8
            }
        } else {
            let result = self.set(value, sub);
            self.set_reg_value(bus, idx, result);
            if idx == 6 {
                16
            } else {
                8
            }
        }
    }

    /// Read the operand that a CB index selects (register, or the
    /// byte at `(HL)` for index 6).
    pub(crate) fn get_reg_value(&self, bus: &Bus, idx: u8) -> (r: u8)
        requires
            bus.wf(),
            idx < 8,
        ensures
            r == spec_get_reg(*self, bus@, idx),
    {
        match idx {
            0 => self.regs.b,
            1 => self.regs.c,
            2 => self.regs.d,
            3 => self.regs.e,
            4 => self.regs.h,
            5 => self.regs.l,
            6 => bus.read(self.regs.hl()),
            _ => self.regs.a,
        }
    }

    /// Write the operand that a CB index selects.
    pub(crate) fn set_reg_value(&mut self, bus: &mut Bus, idx: u8, value: u8)
        requires
            old(bus).wf(),
            idx < 8,
        ensures
            final(bus).wf(),
            ({
                let (c, m) = spec_set_reg(*old(self), old(bus)@, idx, value);
                *final(self) == c && final(bus)@ == m
            }),
    {
        match idx {
            0 => self.regs.b = value,
            1 => self.regs.c = value,
            2 => self.regs.d = value,
            3 => self.regs.e = value,
            4 => self.regs.h = value,
            5 => self.regs.l = value,
            6 => {
                let addr = self.regs.hl();
                bus.write(addr, value);
            },
            _ => self.regs.a = value,
        }
    }

    /// RLC: rotate left circular.
    fn rlc(&mut self, value: u8) -> (r: u8)
        ensures
            *final(self) == spec_rlc(*old(self), value).0,
            r == spec_rlc(*old(self), value).1,
    {
        let carry = (value >> 7) & 1;
        let result = (value << 1) | carry;
        self.regs.f.z = result == 0;
        self.regs.f.n = false;
        self.regs.f.h = false;
        self.regs.f.c = carry != 0;
        result
    }

    /// RRC: rotate right circular.
    fn rrc(&mut self, value: u8) -> (r: u8)
        ensures
            *final(self) == spec_rrc(*old(self), value).0,
            r == spec_rrc(*old(self), value).1,
    {
        let carry = value & 1;
        let result = (value >> 1) | (carry << 7);
        self.regs.f.z = result == 0;
        self.regs.f.n = false;
        self.regs.f.h = false;
        self.regs.f.c = carry != 0;
        result
    }

    /// RL: rotate left through carry.
    fn rl(&mut self, value: u8) -> (r: u8)
        ensures
            *final(self) == spec_rl(*old(self), value).0,
            r == spec_rl(*old(self), value).1,
    {
        let old_carry: u8 = if self.regs.f.c {
            1
        } else {
            0
        };
        let new_carry = (value >> 7) & 1;
        let result = (value << 1) | old_carry;
        self.regs.f.z = result == 0;
        self.regs.f.n = false;
        self.regs.f.h = false;
        self.regs.f.c = new_carry != 0;
        result
    }

    /// RR: rotate right through carry.
    fn rr(&mut self, value: u8) -> (r: u8)
        ensures
            *final(self) == spec_rr(*old(self), value).0,
            r == spec_rr(*old(self), value).1,
    {
        let old_carry: u8 = if self.regs.f.c {
            0x80
        } else {
            0
        };
        let new_carry = value & 1;
        let result = (value >> 1) | old_carry;
        self.regs.f.z = result == 0;
        self.regs.f.n = false;
        self.regs.f.h = false;
        self.regs.f.c = new_carry != 0;
        result
    }

    /// SLA: shift left arithmetic.
    fn sla(&mut self, value: u8) -> (r: u8)
        ensures
            *final(self) == spec_sla(*old(self), value).0,
            r == spec_sla(*old(self), value).1,
    {
        let carry = (value >> 7) & 1;
        let result = value << 1;
        self.regs.f.z = result == 0;
        self.regs.f.n = false;
        self.regs.f.h = false;
        self.regs.f.c = carry != 0;
        result
    }

    /// SRA: shift right arithmetic, bit 7 preserved.
    fn sra(&mut self, value: u8) -> (r: u8)
        ensures
            *final(self) == spec_sra(*old(self), value).0,
            r == spec_sra(*old(self), value).1,
    {
        let carry = value & 1;
        let result = (value >> 1) | (value & 0x80);
        self.regs.f.z = result == 0;
        self.regs.f.n = false;
        self.regs.f.h = false;
        self.regs.f.c = carry != 0;
        result
    }

    /// SWAP: exchange the nibbles.
    fn swap(&mut self, value: u8) -> (r: u8)
        ensures
            *final(self) == spec_swap(*old(self), value).0,
            r == spec_swap(*old(self), value).1,
    {
        let result = ((value & 0x0F) << 4) | ((value & 0xF0) >> 4);
        self.regs.f.z = result == 0;
        self.regs.f.n = false;
        self.regs.f.h = false;
        self.regs.f.c = false;
        result
    }

    /// SRL: shift right logical.
    fn srl(&mut self, value: u8) -> (r: u8)
        ensures
            *final(self) == spec_srl(*old(self), value).0,
            r == spec_srl(*old(self), value).1,
    {
        let carry = value & 1;
        let result = value >> 1;
        self.regs.f.z = result == 0;
        self.regs.f.n = false;
        self.regs.f.h = false;
        self.regs.f.c = carry != 0;
        result
    }

    /// BIT: set Z when the tested bit is clear.
    fn bit(&mut self, value: u8, b: u8)
        requires
            b < 8,
        ensures
            *final(self) == spec_bit(*old(self), value, b),
    {
        let result = value & (1u8 << b);
        self.regs.f.z = result == 0;
        self.regs.f.n = false;
        self.regs.f.h = true;
    }

    /// RES: clear the selected bit.
    fn res(&self, value: u8, b: u8) -> (r: u8)
        requires
            b < 8,
        ensures
            r == spec_res(value, b),
    {
        value & !(1u8 << b)
    }

    /// SET: set the selected bit.
    fn set(&self, value: u8, b: u8) -> (r: u8)
        requires
            b < 8,
        ensures
            r == spec_set(value, b),
    {
        value | (1u8 << b)
    }
}

} // verus!
