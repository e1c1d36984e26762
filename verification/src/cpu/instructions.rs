//! The base instruction table: fetch, decode, execute.
//!
//! `spec_step` and `spec_execute` give the exact semantics of one CPU
//! step: interrupt dispatch first, the HALT idle, the EI latch, then
//! the instruction's own effect on CPU and bus.  The executable
//! `step` and `execute` are proved equal to them.
//!
//! The eleven hardware-undefined opcodes (`0xD3, 0xDB, 0xDD, 0xE3,
//! 0xE4, 0xEB, 0xEC, 0xED, 0xF4, 0xFC, 0xFD`) execute as 4-cycle
//! no-ops: an explicit compatibility choice, so that a step is total
//! over every byte.

use vstd::prelude::*;
use vstd::wrapping::u16_specs;
use vstd::wrapping::u8_specs;

use super::Cpu;
use super::cb_instructions::spec_execute_cb;
use super::registers::Flags;
use super::registers::Registers;
use super::registers::flags_of_byte;
use super::registers::high_byte;
use super::registers::lemma_pair_bytes;
use super::registers::lemma_u16_mask_bounds;
use super::registers::lemma_u16_split;
use super::registers::lemma_u8_nibble;
use super::registers::low_byte;
use super::registers::pair;
use super::registers::spec_af;
use super::registers::spec_bc;
use super::registers::spec_de;
use super::registers::spec_hl;
use super::spec_handle_interrupts;
use super::with_flags;
use super::with_pc;
use crate::bus::Bus;
use crate::bus::BusView;

verus! {

/// Fetch one byte at PC and advance PC (wrapping).
pub open spec fn spec_fetch(c: Cpu, m: BusView) -> (Cpu, u8) {
    (with_pc(c, u16_specs::wrapping_add(c.regs.pc, 1)), m.spec_read(c.regs.pc))
}

/// Fetch a 16-bit little-endian value at PC.
pub open spec fn spec_fetch16(c: Cpu, m: BusView) -> (Cpu, u16) {
    let (c1, lo) = spec_fetch(c, m);
    let (c2, hi) = spec_fetch(c1, m);
    (c2, pair(hi, lo))
}

/// INC r: the incremented value and the flags Z, N=0, H; C untouched.
pub open spec fn spec_inc(c: Cpu, value: u8) -> (Cpu, u8) {
    let result = u8_specs::wrapping_add(value, 1);
    (with_flags(c, result == 0, false, (value & 0x0F) + 1 > 0x0F, c.regs.f.c), result)
}

/// DEC r: the decremented value and the flags Z, N=1, H; C untouched.
pub open spec fn spec_dec(c: Cpu, value: u8) -> (Cpu, u8) {
    let result = u8_specs::wrapping_sub(value, 1);
    (with_flags(c, result == 0, true, (value & 0x0F) == 0, c.regs.f.c), result)
}

/// ADD A,v.
pub open spec fn spec_add(c: Cpu, value: u8) -> Cpu {
    let a = c.regs.a;
    let result = u8_specs::wrapping_add(a, value);
    Cpu {
        regs: Registers {
            a: result,
            f: Flags {
                z: result == 0,
                n: false,
                h: (a & 0x0F) + (value & 0x0F) > 0x0F,
                c: a + value > 0xFF,
            },
            ..c.regs
        },
        ..c
    }
}

/// ADC A,v: add with the incoming carry.
pub open spec fn spec_adc(c: Cpu, value: u8) -> Cpu {
    let a = c.regs.a;
    let carry_in: u8 = if c.regs.f.c {
        1
    } else {
        0
    };
    let result = u8_specs::wrapping_add(u8_specs::wrapping_add(a, value), carry_in);
    Cpu {
        regs: Registers {
            a: result,
            f: Flags {
                z: result == 0,
                n: false,
                h: (a & 0x0F) + (value & 0x0F) + carry_in > 0x0F,
                c: a + value + carry_in > 0xFF,
            },
            ..c.regs
        },
        ..c
    }
}

/// SUB v.
pub open spec fn spec_sub(c: Cpu, value: u8) -> Cpu {
    let a = c.regs.a;
    let result = u8_specs::wrapping_sub(a, value);
    Cpu {
        regs: Registers {
            a: result,
            f: Flags {
                z: result == 0,
                n: true,
                h: (a & 0x0F) < (value & 0x0F),
                c: a < value,
            },
            ..c.regs
        },
        ..c
    }
}

/// SBC A,v: subtract with the incoming carry.
pub open spec fn spec_sbc(c: Cpu, value: u8) -> Cpu {
    let a = c.regs.a;
    let carry_in: u8 = if c.regs.f.c {
        1
    } else {
        0
    };
    let result = u8_specs::wrapping_sub(u8_specs::wrapping_sub(a, value), carry_in);
    Cpu {
        regs: Registers {
            a: result,
            f: Flags {
                z: result == 0,
                n: true,
                h: (a & 0x0F) < (value & 0x0F) + carry_in,
                c: a < value + carry_in,
            },
            ..c.regs
        },
        ..c
    }
}

/// AND v: H is always set, C cleared.
pub open spec fn spec_and(c: Cpu, value: u8) -> Cpu {
    let result = c.regs.a & value;
    Cpu {
        regs: Registers {
            a: result,
            f: Flags { z: result == 0, n: false, h: true, c: false },
            ..c.regs
        },
        ..c
    }
}

/// XOR v: H and C cleared.
pub open spec fn spec_xor(c: Cpu, value: u8) -> Cpu {
    let result = c.regs.a ^ value;
    Cpu {
        regs: Registers {
            a: result,
            f: Flags { z: result == 0, n: false, h: false, c: false },
            ..c.regs
        },
        ..c
    }
}

/// OR v: H and C cleared.
pub open spec fn spec_or(c: Cpu, value: u8) -> Cpu {
    let result = c.regs.a | value;
    Cpu {
        regs: Registers {
            a: result,
            f: Flags { z: result == 0, n: false, h: false, c: false },
            ..c.regs
        },
        ..c
    }
}

/// CP v: the flags of SUB, with A untouched.
pub open spec fn spec_cp(c: Cpu, value: u8) -> Cpu {
    let a = c.regs.a;
    let result = u8_specs::wrapping_sub(a, value);
    with_flags(c, result == 0, true, (a & 0x0F) < (value & 0x0F), a < value)
}

/// ADD HL,rr: Z untouched, H from bit 11, C from bit 15.
pub open spec fn spec_add_hl(c: Cpu, value: u16) -> Cpu {
    let hl = spec_hl(c.regs);
    let result = u16_specs::wrapping_add(hl, value);
    Cpu {
        regs: Registers {
            h: high_byte(result),
            l: low_byte(result),
            f: Flags {
                z: c.regs.f.z,
                n: false,
                h: (hl & 0x0FFF) + (value & 0x0FFF) > 0x0FFF,
                c: hl + value > 0xFFFF,
            },
            ..c.regs
        },
        ..c
    }
}

/// Push a 16-bit value: high byte at SP-1, low byte at SP-2, SP
/// left at SP-2.
pub open spec fn spec_push(c: Cpu, m: BusView, value: u16) -> (Cpu, BusView) {
    let sp1 = u16_specs::wrapping_sub(c.regs.sp, 1);
    let sp2 = u16_specs::wrapping_sub(sp1, 1);
    let m1 = m.spec_write(sp1, high_byte(value));
    let m2 = m1.spec_write(sp2, low_byte(value));
    (Cpu { regs: Registers { sp: sp2, ..c.regs }, ..c }, m2)
}

/// Pop a 16-bit value: low byte at SP, high byte at SP+1, SP left at
/// SP+2.
pub open spec fn spec_pop(c: Cpu, m: BusView) -> (Cpu, u16) {
    let lo = m.spec_read(c.regs.sp);
    let sp1 = u16_specs::wrapping_add(c.regs.sp, 1);
    let hi = m.spec_read(sp1);
    let sp2 = u16_specs::wrapping_add(sp1, 1);
    (Cpu { regs: Registers { sp: sp2, ..c.regs }, ..c }, pair(hi, lo))
}

/// RLCA: rotate A left circular; Z is always cleared.
pub open spec fn spec_rlca(c: Cpu) -> Cpu {
    let a = c.regs.a;
    let carry = (a >> 7) & 1;
    let result = (a << 1) | carry;
    Cpu {
        regs: Registers {
            a: result,
            f: Flags { z: false, n: false, h: false, c: carry != 0 },
            ..c.regs
        },
        ..c
    }
}

/// RRCA: rotate A right circular; Z is always cleared.
pub open spec fn spec_rrca(c: Cpu) -> Cpu {
    let a = c.regs.a;
    let carry = a & 1;
    let result = (a >> 1) | (carry << 7);
    Cpu {
        regs: Registers {
            a: result,
            f: Flags { z: false, n: false, h: false, c: carry != 0 },
            ..c.regs
        },
        ..c
    }
}

/// RLA: rotate A left through carry; Z is always cleared.
pub open spec fn spec_rla(c: Cpu) -> Cpu {
    let a = c.regs.a;
    let old_carry: u8 = if c.regs.f.c {
        1
    } else {
        0
    };
    let new_carry = (a >> 7) & 1;
    let result = (a << 1) | old_carry;
    Cpu {
        regs: Registers {
            a: result,
            f: Flags { z: false, n: false, h: false, c: new_carry != 0 },
            ..c.regs
        },
        ..c
    }
}

/// RRA: rotate A right through carry; Z is always cleared.
pub open spec fn spec_rra(c: Cpu) -> Cpu {
    let a = c.regs.a;
    let old_carry: u8 = if c.regs.f.c {
        0x80
    } else {
        0
    };
    let new_carry = a & 1;
    let result = (a >> 1) | old_carry;
    Cpu {
        regs: Registers {
            a: result,
            f: Flags { z: false, n: false, h: false, c: new_carry != 0 },
            ..c.regs
        },
        ..c
    }
}

/// DAA: decimal-adjust A after a BCD addition or subtraction.
pub open spec fn spec_daa(c: Cpu) -> Cpu {
    let a = c.regs.a;
    let f = c.regs.f;
    if f.n {
        let adjust = ((if f.c {
            0x60int
        } else {
            0int
        }) + (if f.h {
            0x06int
        } else {
            0int
        })) as u8;
        let result = u8_specs::wrapping_sub(a, adjust);
        Cpu {
            regs: Registers {
                a: result,
                f: Flags { z: result == 0, n: f.n, h: false, c: f.c },
                ..c.regs
            },
            ..c
        }
    } else {
        let carry = f.c || a > 0x99;
        let adjust = ((if carry {
            0x60int
        } else {
            0int
        }) + (if f.h || (a & 0x0F) > 0x09 {
            0x06int
        } else {
            0int
        })) as u8;
        let result = u8_specs::wrapping_add(a, adjust);
        Cpu {
            regs: Registers {
                a: result,
                f: Flags { z: result == 0, n: f.n, h: false, c: carry },
                ..c.regs
            },
            ..c
        }
    }
}

/// CPL: complement A; N and H set.
pub open spec fn spec_cpl(c: Cpu) -> Cpu {
    Cpu {
        regs: Registers {
            a: !c.regs.a,
            f: Flags { z: c.regs.f.z, n: true, h: true, c: c.regs.f.c },
            ..c.regs
        },
        ..c
    }
}

/// SCF: set carry; N and H cleared.
pub open spec fn spec_scf(c: Cpu) -> Cpu {
    with_flags(c, c.regs.f.z, false, false, true)
}

/// CCF: complement carry; N and H cleared.
pub open spec fn spec_ccf(c: Cpu) -> Cpu {
    with_flags(c, c.regs.f.z, false, false, !c.regs.f.c)
}

/// The signed relative-jump target: PC plus the sign-extended offset.
pub open spec fn spec_jr_target(pc: u16, offset: u8) -> u16 {
    u16_specs::wrapping_add(pc, (offset as i8) as u16)
}

/// The flag result of `ADD SP,e8` and `LD HL,SP+e8`: Z=0, N=0, H and
/// C from the low byte of the addition.
pub open spec fn spec_sp_offset_flags(c: Cpu, n: u16) -> Flags {
    Flags {
        z: false,
        n: false,
        h: (c.regs.sp & 0x0F) + (n & 0x0F) > 0x0F,
        c: (c.regs.sp & 0xFF) + (n & 0xFF) > 0xFF,
    }
}

/// The opcodes `0x00..=0x3F`: immediate and indirect loads, 8- and
/// 16-bit INC/DEC, `ADD HL,rr`, the accumulator rotates, DAA/CPL/
/// SCF/CCF, and the relative jumps.
pub open spec fn spec_execute_misc(c: Cpu, m: BusView, opcode: u8) -> (Cpu, BusView, u32) {
    match opcode {
        // NOP
        0x00 => (c, m, 4),
        // STOP: the next byte is consumed and ignored.
        0x10 => (spec_fetch(c, m).0, m, 4),
        // LD r, n
        0x06 => {
            let (c1, n) = spec_fetch(c, m);
            (Cpu { regs: Registers { b: n, ..c1.regs }, ..c1 }, m, 8)
        },
        0x0E => {
            let (c1, n) = spec_fetch(c, m);
            (Cpu { regs: Registers { c: n, ..c1.regs }, ..c1 }, m, 8)
        },
        0x16 => {
            let (c1, n) = spec_fetch(c, m);
            (Cpu { regs: Registers { d: n, ..c1.regs }, ..c1 }, m, 8)
        },
        0x1E => {
            let (c1, n) = spec_fetch(c, m);
            (Cpu { regs: Registers { e: n, ..c1.regs }, ..c1 }, m, 8)
        },
        0x26 => {
            let (c1, n) = spec_fetch(c, m);
            (Cpu { regs: Registers { h: n, ..c1.regs }, ..c1 }, m, 8)
        },
        0x2E => {
            let (c1, n) = spec_fetch(c, m);
            (Cpu { regs: Registers { l: n, ..c1.regs }, ..c1 }, m, 8)
        },
        0x3E => {
            let (c1, n) = spec_fetch(c, m);
            (Cpu { regs: Registers { a: n, ..c1.regs }, ..c1 }, m, 8)
        },
        // LD rr, nn
        0x01 => {
            let (c1, v) = spec_fetch16(c, m);
            (Cpu { regs: Registers { b: high_byte(v), c: low_byte(v), ..c1.regs }, ..c1 }, m, 12)
        },
        0x11 => {
            let (c1, v) = spec_fetch16(c, m);
            (Cpu { regs: Registers { d: high_byte(v), e: low_byte(v), ..c1.regs }, ..c1 }, m, 12)
        },
        0x21 => {
            let (c1, v) = spec_fetch16(c, m);
            (Cpu { regs: Registers { h: high_byte(v), l: low_byte(v), ..c1.regs }, ..c1 }, m, 12)
        },
        0x31 => {
            let (c1, v) = spec_fetch16(c, m);
            (Cpu { regs: Registers { sp: v, ..c1.regs }, ..c1 }, m, 12)
        },
        // LD (rr), A and LD A, (rr)
        0x02 => (c, m.spec_write(spec_bc(c.regs), c.regs.a), 8),
        0x12 => (c, m.spec_write(spec_de(c.regs), c.regs.a), 8),
        0x0A => (Cpu { regs: Registers { a: m.spec_read(spec_bc(c.regs)), ..c.regs }, ..c }, m, 8),
        0x1A => (Cpu { regs: Registers { a: m.spec_read(spec_de(c.regs)), ..c.regs }, ..c }, m, 8),
        // LD (HL+), A and LD (HL-), A
        0x22 => {
            let hl = spec_hl(c.regs);
            let hl2 = u16_specs::wrapping_add(hl, 1);
            (
                Cpu { regs: Registers { h: high_byte(hl2), l: low_byte(hl2), ..c.regs }, ..c },
                m.spec_write(hl, c.regs.a),
                8,
            )
        },
        0x32 => {
            let hl = spec_hl(c.regs);
            let hl2 = u16_specs::wrapping_sub(hl, 1);
            (
                Cpu { regs: Registers { h: high_byte(hl2), l: low_byte(hl2), ..c.regs }, ..c },
                m.spec_write(hl, c.regs.a),
                8,
            )
        },
        // LD A, (HL+) and LD A, (HL-)
        0x2A => {
            let hl = spec_hl(c.regs);
            let hl2 = u16_specs::wrapping_add(hl, 1);
            (
                Cpu {
                    regs: Registers {
                        a: m.spec_read(hl),
                        h: high_byte(hl2),
                        l: low_byte(hl2),
                        ..c.regs
                    },
                    ..c
                },
                m,
                8,
            )
        },
        0x3A => {
            let hl = spec_hl(c.regs);
            let hl2 = u16_specs::wrapping_sub(hl, 1);
            (
                Cpu {
                    regs: Registers {
                        a: m.spec_read(hl),
                        h: high_byte(hl2),
                        l: low_byte(hl2),
                        ..c.regs
                    },
                    ..c
                },
                m,
                8,
            )
        },
        // LD (HL), n
        0x36 => {
            let (c1, n) = spec_fetch(c, m);
            (c1, m.spec_write(spec_hl(c1.regs), n), 12)
        },
        // LD (nn), SP
        0x08 => {
            let (c1, addr) = spec_fetch16(c, m);
            (c1, m.spec_write16(addr, c1.regs.sp), 20)
        },
        // INC r
        0x04 => {
            let (c1, r) = spec_inc(c, c.regs.b);
            (Cpu { regs: Registers { b: r, ..c1.regs }, ..c1 }, m, 4)
        },
        0x0C => {
            let (c1, r) = spec_inc(c, c.regs.c);
            (Cpu { regs: Registers { c: r, ..c1.regs }, ..c1 }, m, 4)
        },
        0x14 => {
            let (c1, r) = spec_inc(c, c.regs.d);
            (Cpu { regs: Registers { d: r, ..c1.regs }, ..c1 }, m, 4)
        },
        0x1C => {
            let (c1, r) = spec_inc(c, c.regs.e);
            (Cpu { regs: Registers { e: r, ..c1.regs }, ..c1 }, m, 4)
        },
        0x24 => {
            let (c1, r) = spec_inc(c, c.regs.h);
            (Cpu { regs: Registers { h: r, ..c1.regs }, ..c1 }, m, 4)
        },
        0x2C => {
            let (c1, r) = spec_inc(c, c.regs.l);
            (Cpu { regs: Registers { l: r, ..c1.regs }, ..c1 }, m, 4)
        },
        0x34 => {
            let (c1, r) = spec_inc(c, m.spec_read(spec_hl(c.regs)));
            (c1, m.spec_write(spec_hl(c1.regs), r), 12)
        },
        0x3C => {
            let (c1, r) = spec_inc(c, c.regs.a);
            (Cpu { regs: Registers { a: r, ..c1.regs }, ..c1 }, m, 4)
        },
        // DEC r
        0x05 => {
            let (c1, r) = spec_dec(c, c.regs.b);
            (Cpu { regs: Registers { b: r, ..c1.regs }, ..c1 }, m, 4)
        },
        0x0D => {
            let (c1, r) = spec_dec(c, c.regs.c);
            (Cpu { regs: Registers { c: r, ..c1.regs }, ..c1 }, m, 4)
        },
        0x15 => {
            let (c1, r) = spec_dec(c, c.regs.d);
            (Cpu { regs: Registers { d: r, ..c1.regs }, ..c1 }, m, 4)
        },
        0x1D => {
            let (c1, r) = spec_dec(c, c.regs.e);
            (Cpu { regs: Registers { e: r, ..c1.regs }, ..c1 }, m, 4)
        },
        0x25 => {
            let (c1, r) = spec_dec(c, c.regs.h);
            (Cpu { regs: Registers { h: r, ..c1.regs }, ..c1 }, m, 4)
        },
        0x2D => {
            let (c1, r) = spec_dec(c, c.regs.l);
            (Cpu { regs: Registers { l: r, ..c1.regs }, ..c1 }, m, 4)
        },
        0x35 => {
            let (c1, r) = spec_dec(c, m.spec_read(spec_hl(c.regs)));
            (c1, m.spec_write(spec_hl(c1.regs), r), 12)
        },
        0x3D => {
            let (c1, r) = spec_dec(c, c.regs.a);
            (Cpu { regs: Registers { a: r, ..c1.regs }, ..c1 }, m, 4)
        },
        // INC rr and DEC rr: no flags.
        0x03 => {
            let v = u16_specs::wrapping_add(spec_bc(c.regs), 1);
            (Cpu { regs: Registers { b: high_byte(v), c: low_byte(v), ..c.regs }, ..c }, m, 8)
        },
        0x13 => {
            let v = u16_specs::wrapping_add(spec_de(c.regs), 1);
            (Cpu { regs: Registers { d: high_byte(v), e: low_byte(v), ..c.regs }, ..c }, m, 8)
        },
        0x23 => {
            let v = u16_specs::wrapping_add(spec_hl(c.regs), 1);
            (Cpu { regs: Registers { h: high_byte(v), l: low_byte(v), ..c.regs }, ..c }, m, 8)
        },
        0x33 => (
            Cpu { regs: Registers { sp: u16_specs::wrapping_add(c.regs.sp, 1), ..c.regs }, ..c },
            m,
            8,
        ),
        0x0B => {
            let v = u16_specs::wrapping_sub(spec_bc(c.regs), 1);
            (Cpu { regs: Registers { b: high_byte(v), c: low_byte(v), ..c.regs }, ..c }, m, 8)
        },
        0x1B => {
            let v = u16_specs::wrapping_sub(spec_de(c.regs), 1);
            (Cpu { regs: Registers { d: high_byte(v), e: low_byte(v), ..c.regs }, ..c }, m, 8)
        },
        0x2B => {
            let v = u16_specs::wrapping_sub(spec_hl(c.regs), 1);
            (Cpu { regs: Registers { h: high_byte(v), l: low_byte(v), ..c.regs }, ..c }, m, 8)
        },
        0x3B => (
            Cpu { regs: Registers { sp: u16_specs::wrapping_sub(c.regs.sp, 1), ..c.regs }, ..c },
            m,
            8,
        ),
        // ADD HL, rr
        0x09 => (spec_add_hl(c, spec_bc(c.regs)), m, 8),
        0x19 => (spec_add_hl(c, spec_de(c.regs)), m, 8),
        0x29 => (spec_add_hl(c, spec_hl(c.regs)), m, 8),
        0x39 => (spec_add_hl(c, c.regs.sp), m, 8),
        // Accumulator rotates.
        0x07 => (spec_rlca(c), m, 4),
        0x0F => (spec_rrca(c), m, 4),
        0x17 => (spec_rla(c), m, 4),
        0x1F => (spec_rra(c), m, 4),
        // DAA, CPL, SCF.
        0x27 => (spec_daa(c), m, 4),
        0x2F => (spec_cpl(c), m, 4),
        0x37 => (spec_scf(c), m, 4),
        // JR e8 and JR cc, e8.
        0x18 => {
            let (c1, off) = spec_fetch(c, m);
            (with_pc(c1, spec_jr_target(c1.regs.pc, off)), m, 12)
        },
        0x20 => {
            let (c1, off) = spec_fetch(c, m);
            if !c1.regs.f.z {
                (with_pc(c1, spec_jr_target(c1.regs.pc, off)), m, 12)
            } else {
                (c1, m, 8)
            }
        },
        0x28 => {
            let (c1, off) = spec_fetch(c, m);
            if c1.regs.f.z {
                (with_pc(c1, spec_jr_target(c1.regs.pc, off)), m, 12)
            } else {
                (c1, m, 8)
            }
        },
        0x30 => {
            let (c1, off) = spec_fetch(c, m);
            if !c1.regs.f.c {
                (with_pc(c1, spec_jr_target(c1.regs.pc, off)), m, 12)
            } else {
                (c1, m, 8)
            }
        },
        0x38 => {
            let (c1, off) = spec_fetch(c, m);
            if c1.regs.f.c {
                (with_pc(c1, spec_jr_target(c1.regs.pc, off)), m, 12)
            } else {
                (c1, m, 8)
            }
        },
        // CCF (0x3F).
        _ => (spec_ccf(c), m, 4),
    }
}

/// The opcodes `0x40..=0x7F`: `LD r, r'` with destination in bits
/// 5..3 and source in bits 2..0, index 6 standing for `(HL)`; the
/// one exception is `0x76`, HALT.
pub open spec fn spec_execute_ld(c: Cpu, m: BusView, opcode: u8) -> (Cpu, BusView, u32) {
    if opcode == 0x76 {
        (Cpu { halted: true, ..c }, m, 4)
    } else {
        let dst = (opcode >> 3) & 0x07;
        let src = opcode & 0x07;
        let value = super::cb_instructions::spec_get_reg(c, m, src);
        let (c1, m1) = super::cb_instructions::spec_set_reg(c, m, dst, value);
        (c1, m1, if dst == 6 || src == 6 {
            8
        } else {
            4
        })
    }
}

/// The opcodes `0x80..=0xBF`: the eight ALU operations, selected by
/// bits 5..3, on the operand that bits 2..0 select.
pub open spec fn spec_execute_alu(c: Cpu, m: BusView, opcode: u8) -> (Cpu, BusView, u32) {
    let src = opcode & 0x07;
    let kind = (opcode >> 3) & 0x07;
    let value = super::cb_instructions::spec_get_reg(c, m, src);
    let c1 = if kind == 0 {
        spec_add(c, value)
    } else if kind == 1 {
        spec_adc(c, value)
    } else if kind == 2 {
        spec_sub(c, value)
    } else if kind == 3 {
        spec_sbc(c, value)
    } else if kind == 4 {
        spec_and(c, value)
    } else if kind == 5 {
        spec_xor(c, value)
    } else if kind == 6 {
        spec_or(c, value)
    } else {
        spec_cp(c, value)
    };
    (c1, m, if src == 6 {
        8
    } else {
        4
    })
}

/// The opcodes `0xC0..=0xFF`: jumps, calls, returns, restarts, the
/// stack, immediate ALU operations, the high-page loads, interrupt
/// control, the CB prefix, and the stack-pointer arithmetic.  The
/// eleven undefined opcodes execute as 4-cycle no-ops.
pub open spec fn spec_execute_ctrl(c: Cpu, m: BusView, opcode: u8) -> (Cpu, BusView, u32) {
    match opcode {
        // Immediate ALU operations.
        0xC6 => {
            let (c1, n) = spec_fetch(c, m);
            (spec_add(c1, n), m, 8)
        },
        0xCE => {
            let (c1, n) = spec_fetch(c, m);
            (spec_adc(c1, n), m, 8)
        },
        0xD6 => {
            let (c1, n) = spec_fetch(c, m);
            (spec_sub(c1, n), m, 8)
        },
        0xDE => {
            let (c1, n) = spec_fetch(c, m);
            (spec_sbc(c1, n), m, 8)
        },
        0xE6 => {
            let (c1, n) = spec_fetch(c, m);
            (spec_and(c1, n), m, 8)
        },
        0xEE => {
            let (c1, n) = spec_fetch(c, m);
            (spec_xor(c1, n), m, 8)
        },
        0xF6 => {
            let (c1, n) = spec_fetch(c, m);
            (spec_or(c1, n), m, 8)
        },
        0xFE => {
            let (c1, n) = spec_fetch(c, m);
            (spec_cp(c1, n), m, 8)
        },
        // JP nn and JP HL.
        0xC3 => {
            let (c1, addr) = spec_fetch16(c, m);
            (with_pc(c1, addr), m, 16)
        },
        0xE9 => (with_pc(c, spec_hl(c.regs)), m, 4),
        // JP cc, nn.
        0xC2 => {
            let (c1, addr) = spec_fetch16(c, m);
            if !c1.regs.f.z {
                (with_pc(c1, addr), m, 16)
            } else {
                (c1, m, 12)
            }
        },
        0xCA => {
            let (c1, addr) = spec_fetch16(c, m);
            if c1.regs.f.z {
                (with_pc(c1, addr), m, 16)
            } else {
                (c1, m, 12)
            }
        },
        0xD2 => {
            let (c1, addr) = spec_fetch16(c, m);
            if !c1.regs.f.c {
                (with_pc(c1, addr), m, 16)
            } else {
                (c1, m, 12)
            }
        },
        0xDA => {
            let (c1, addr) = spec_fetch16(c, m);
            if c1.regs.f.c {
                (with_pc(c1, addr), m, 16)
            } else {
                (c1, m, 12)
            }
        },
        // CALL nn and CALL cc, nn.
        0xCD => {
            let (c1, addr) = spec_fetch16(c, m);
            let (c2, m2) = spec_push(c1, m, c1.regs.pc);
            (with_pc(c2, addr), m2, 24)
        },
        0xC4 => {
            let (c1, addr) = spec_fetch16(c, m);
            if !c1.regs.f.z {
                let (c2, m2) = spec_push(c1, m, c1.regs.pc);
                (with_pc(c2, addr), m2, 24)
            } else {
                (c1, m, 12)
            }
        },
        0xCC => {
            let (c1, addr) = spec_fetch16(c, m);
            if c1.regs.f.z {
                let (c2, m2) = spec_push(c1, m, c1.regs.pc);
                (with_pc(c2, addr), m2, 24)
            } else {
                (c1, m, 12)
            }
        },
        0xD4 => {
            let (c1, addr) = spec_fetch16(c, m);
            if !c1.regs.f.c {
                let (c2, m2) = spec_push(c1, m, c1.regs.pc);
                (with_pc(c2, addr), m2, 24)
            } else {
                (c1, m, 12)
            }
        },
        0xDC => {
            let (c1, addr) = spec_fetch16(c, m);
            if c1.regs.f.c {
                let (c2, m2) = spec_push(c1, m, c1.regs.pc);
                (with_pc(c2, addr), m2, 24)
            } else {
                (c1, m, 12)
            }
        },
        // RET, RETI and RET cc.
        0xC9 => {
            let (c1, v) = spec_pop(c, m);
            (with_pc(c1, v), m, 16)
        },
        0xD9 => {
            let (c1, v) = spec_pop(c, m);
            (Cpu { ime: true, ..with_pc(c1, v) }, m, 16)
        },
        0xC0 => {
            if !c.regs.f.z {
                let (c1, v) = spec_pop(c, m);
                (with_pc(c1, v), m, 20)
            } else {
                (c, m, 8)
            }
        },
        0xC8 => {
            if c.regs.f.z {
                let (c1, v) = spec_pop(c, m);
                (with_pc(c1, v), m, 20)
            } else {
                (c, m, 8)
            }
        },
        0xD0 => {
            if !c.regs.f.c {
                let (c1, v) = spec_pop(c, m);
                (with_pc(c1, v), m, 20)
            } else {
                (c, m, 8)
            }
        },
        0xD8 => {
            if c.regs.f.c {
                let (c1, v) = spec_pop(c, m);
                (with_pc(c1, v), m, 20)
            } else {
                (c, m, 8)
            }
        },
        // RST n.
        0xC7 => {
            let (c1, m1) = spec_push(c, m, c.regs.pc);
            (with_pc(c1, 0x00), m1, 16)
        },
        0xCF => {
            let (c1, m1) = spec_push(c, m, c.regs.pc);
            (with_pc(c1, 0x08), m1, 16)
        },
        0xD7 => {
            let (c1, m1) = spec_push(c, m, c.regs.pc);
            (with_pc(c1, 0x10), m1, 16)
        },
        0xDF => {
            let (c1, m1) = spec_push(c, m, c.regs.pc);
            (with_pc(c1, 0x18), m1, 16)
        },
        0xE7 => {
            let (c1, m1) = spec_push(c, m, c.regs.pc);
            (with_pc(c1, 0x20), m1, 16)
        },
        0xEF => {
            let (c1, m1) = spec_push(c, m, c.regs.pc);
            (with_pc(c1, 0x28), m1, 16)
        },
        0xF7 => {
            let (c1, m1) = spec_push(c, m, c.regs.pc);
            (with_pc(c1, 0x30), m1, 16)
        },
        0xFF => {
            let (c1, m1) = spec_push(c, m, c.regs.pc);
            (with_pc(c1, 0x38), m1, 16)
        },
        // PUSH rr.
        0xC5 => {
            let (c1, m1) = spec_push(c, m, spec_bc(c.regs));
            (c1, m1, 16)
        },
        0xD5 => {
            let (c1, m1) = spec_push(c, m, spec_de(c.regs));
            (c1, m1, 16)
        },
        0xE5 => {
            let (c1, m1) = spec_push(c, m, spec_hl(c.regs));
            (c1, m1, 16)
        },
        0xF5 => {
            let (c1, m1) = spec_push(c, m, spec_af(c.regs));
            (c1, m1, 16)
        },
        // POP rr; POP AF masks the low nibble of F.
        0xC1 => {
            let (c1, v) = spec_pop(c, m);
            (Cpu { regs: Registers { b: high_byte(v), c: low_byte(v), ..c1.regs }, ..c1 }, m, 12)
        },
        0xD1 => {
            let (c1, v) = spec_pop(c, m);
            (Cpu { regs: Registers { d: high_byte(v), e: low_byte(v), ..c1.regs }, ..c1 }, m, 12)
        },
        0xE1 => {
            let (c1, v) = spec_pop(c, m);
            (Cpu { regs: Registers { h: high_byte(v), l: low_byte(v), ..c1.regs }, ..c1 }, m, 12)
        },
        0xF1 => {
            let (c1, v) = spec_pop(c, m);
            (
                Cpu {
                    regs: Registers {
                        a: high_byte(v),
                        f: flags_of_byte((low_byte(v) - low_byte(v) % 16) as u8),
                        ..c1.regs
                    },
                    ..c1
                },
                m,
                12,
            )
        },
        // DI and EI.
        0xF3 => (Cpu { ime: false, ime_scheduled: false, ..c }, m, 4),
        0xFB => (Cpu { ime_scheduled: true, ..c }, m, 4),
        // LDH (n), A and LDH A, (n).
        0xE0 => {
            let (c1, off) = spec_fetch(c, m);
            (c1, m.spec_write((0xFF00 + off) as u16, c1.regs.a), 12)
        },
        0xF0 => {
            let (c1, off) = spec_fetch(c, m);
            (
                Cpu { regs: Registers { a: m.spec_read((0xFF00 + off) as u16), ..c1.regs }, ..c1 },
                m,
                12,
            )
        },
        // LD (0xFF00+C), A and LD A, (0xFF00+C).
        0xE2 => (c, m.spec_write((0xFF00 + c.regs.c) as u16, c.regs.a), 8),
        0xF2 => (
            Cpu { regs: Registers { a: m.spec_read((0xFF00 + c.regs.c) as u16), ..c.regs }, ..c },
            m,
            8,
        ),
        // LD (nn), A and LD A, (nn).
        0xEA => {
            let (c1, addr) = spec_fetch16(c, m);
            (c1, m.spec_write(addr, c1.regs.a), 16)
        },
        0xFA => {
            let (c1, addr) = spec_fetch16(c, m);
            (Cpu { regs: Registers { a: m.spec_read(addr), ..c1.regs }, ..c1 }, m, 16)
        },
        // LD SP, HL.
        0xF9 => (Cpu { regs: Registers { sp: spec_hl(c.regs), ..c.regs }, ..c }, m, 8),
        // ADD SP, e8 and LD HL, SP+e8.
        0xE8 => {
            let (c1, off) = spec_fetch(c, m);
            let n = (off as i8) as u16;
            let result = u16_specs::wrapping_add(c1.regs.sp, n);
            (
                Cpu { regs: Registers { sp: result, f: spec_sp_offset_flags(c1, n), ..c1.regs }, ..c1 },
                m,
                16,
            )
        },
        0xF8 => {
            let (c1, off) = spec_fetch(c, m);
            let n = (off as i8) as u16;
            let result = u16_specs::wrapping_add(c1.regs.sp, n);
            (
                Cpu {
                    regs: Registers {
                        h: high_byte(result),
                        l: low_byte(result),
                        f: spec_sp_offset_flags(c1, n),
                        ..c1.regs
                    },
                    ..c1
                },
                m,
                12,
            )
        },
        // CB prefix.
        0xCB => {
            let (c1, cb_opcode) = spec_fetch(c, m);
            spec_execute_cb(c1, m, cb_opcode)
        },
        // The hardware-undefined opcodes execute as no-ops.
        _ => (c, m, 4),
    }
}

/// One instruction: the opcode byte has been fetched already, and PC
/// points past it.
pub open spec fn spec_execute(c: Cpu, m: BusView, opcode: u8) -> (Cpu, BusView, u32) {
    if opcode < 0x40 {
        spec_execute_misc(c, m, opcode)
    } else if opcode < 0x80 {
        spec_execute_ld(c, m, opcode)
    } else if opcode < 0xC0 {
        spec_execute_alu(c, m, opcode)
    } else {
        spec_execute_ctrl(c, m, opcode)
    }
}

/// One CPU step.
///
/// Interrupt dispatch runs first; a serviced interrupt costs its 20
/// T-cycles and no instruction runs.  A halted CPU idles for 4
/// T-cycles.  Otherwise the EI latch is sampled, the opcode at PC is
/// fetched and executed, and a sampled latch then enables IME —
/// EI's one-instruction delay.
pub open spec fn spec_step(c: Cpu, m: BusView) -> (Cpu, BusView, u32) {
    let (c1, m1, interrupt_cycles) = spec_handle_interrupts(c, m);
    if interrupt_cycles > 0 {
        (c1, m1, interrupt_cycles)
    } else if c1.halted {
        (c1, m1, 4)
    } else {
        let ei_pending = c1.ime_scheduled;
        let (c2, opcode) = spec_fetch(c1, m1);
        let (c3, m3, cycles) = spec_execute(c2, m1, opcode);
        let c4 = if ei_pending {
            Cpu { ime: true, ime_scheduled: false, ..c3 }
        } else {
            c3
        };
        (c4, m3, cycles)
    }
}

impl Cpu {
    /// Fetch, decode and execute one instruction; returns the
    /// T-cycles consumed.
    pub fn step(&mut self, bus: &mut Bus) -> (r: u32)
        requires
            old(bus).wf(),
        ensures
            final(bus).wf(),
            ({
                let (c, m, cycles) = spec_step(*old(self), old(bus)@);
                *final(self) == c && final(bus)@ == m && r == cycles
            }),
    {
        // Handle pending interrupts first.
        let interrupt_cycles = self.handle_interrupts(bus);
        if interrupt_cycles > 0 {
            return interrupt_cycles;
        }

        if self.halted {
            // HALT mode: the CPU idles, still consuming cycles.
            return 4;
        }

        // Remember whether EI was scheduled before this instruction.
        let ei_pending = self.ime_scheduled;

        let opcode = self.fetch(bus);
        let cycles = self.execute(bus, opcode);

        // Apply the scheduled IME enable after the instruction: EI's
        // one-instruction delay.
        if ei_pending {
            self.ime = true;
            self.ime_scheduled = false;
        }

        cycles
    }

    /// Fetch the byte at PC and advance PC (wrapping).
    fn fetch(&mut self, bus: &Bus) -> (r: u8)
        requires
            bus.wf(),
        ensures
            *final(self) == spec_fetch(*old(self), bus@).0,
            r == spec_fetch(*old(self), bus@).1,
    {
        let byte = bus.read(self.regs.pc);
        self.regs.pc = self.regs.pc.wrapping_add(1);
        byte
    }

    /// Fetch a 16-bit little-endian value at PC.
    fn fetch16(&mut self, bus: &Bus) -> (r: u16)
        requires
            bus.wf(),
        ensures
            *final(self) == spec_fetch16(*old(self), bus@).0,
            r == spec_fetch16(*old(self), bus@).1,
    {
        let lo = self.fetch(bus);
        let hi = self.fetch(bus);
        proof {
            lemma_pair_bytes(hi, lo);
        }
        ((hi as u16) << 8) | (lo as u16)
    }

    /// Execute one instruction whose opcode byte is already fetched;
    /// returns the T-cycles consumed.
    fn execute(&mut self, bus: &mut Bus, opcode: u8) -> (r: u32)
        requires
            old(bus).wf(),
        ensures
            final(bus).wf(),
            ({
                let (c, m, cycles) = spec_execute(*old(self), old(bus)@, opcode);
                *final(self) == c && final(bus)@ == m && r == cycles
            }),
    {
        if opcode < 0x40 {
            self.execute_misc(bus, opcode)
        } else if opcode < 0x80 {
            self.execute_ld(bus, opcode)
        } else if opcode < 0xC0 {
            self.execute_alu(bus, opcode)
        } else {
            self.execute_ctrl(bus, opcode)
        }
    }

    /// The opcodes `0x40..=0x7F`: `LD r, r'` and HALT.
    fn execute_ld(&mut self, bus: &mut Bus, opcode: u8) -> (r: u32)
        requires
            old(bus).wf(),
            0x40 <= opcode < 0x80,
        ensures
            final(bus).wf(),
            ({
                let (c, m, cycles) = spec_execute_ld(*old(self), old(bus)@, opcode);
                *final(self) == c && final(bus)@ == m && r == cycles
            }),
    {
        if opcode == 0x76 {
            // HALT.
            self.halted = true;
            4
        } else {
            proof {
                lemma_ld_fields(opcode);
            }
            let dst = (opcode >> 3) & 0x07;
            let src = opcode & 0x07;
            let value = self.get_reg_value(bus, src);
            self.set_reg_value(bus, dst, value);
            if dst == 6 || src == 6 {
                8
            } else {
                4
            }
        }
    }

    /// The opcodes `0x80..=0xBF`: the eight ALU operations on a
    /// register or `(HL)` operand.
    fn execute_alu(&mut self, bus: &mut Bus, opcode: u8) -> (r: u32)
        requires
            old(bus).wf(),
            0x80 <= opcode < 0xC0,
        ensures
            final(bus).wf(),
            ({
                let (c, m, cycles) = spec_execute_alu(*old(self), old(bus)@, opcode);
                *final(self) == c && final(bus)@ == m && r == cycles
            }),
    {
        proof {
            lemma_ld_fields(opcode);
        }
        let src = opcode & 0x07;
        let kind = (opcode >> 3) & 0x07;
        let value = self.get_reg_value(bus, src);
        if kind == 0 {
            self.add(value);
        } else if kind == 1 {
            self.adc(value);
        } else if kind == 2 {
            self.sub(value);
        } else if kind == 3 {
            self.sbc(value);
        } else if kind == 4 {
            self.and(value);
        } else if kind == 5 {
            self.xor(value);
        } else if kind == 6 {
            self.or(value);
        } else {
            self.cp(value);
        }
        if src == 6 {
            8
        } else {
            4
        }
    }

    /// The opcodes `0x00..=0x3F`.
    #[verifier::rlimit(100)]
    #[verifier::spinoff_prover]
    fn execute_misc(&mut self, bus: &mut Bus, opcode: u8) -> (r: u32)
        requires
            old(bus).wf(),
            opcode < 0x40,
        ensures
            final(bus).wf(),
            ({
                let (c, m, cycles) = spec_execute_misc(*old(self), old(bus)@, opcode);
                *final(self) == c && final(bus)@ == m && r == cycles
            }),
    {
        match opcode {
            // NOP.
            0x00 => 4,
            // STOP: consume the next byte, treat as a two-byte NOP.
            0x10 => {
                let _ = self.fetch(bus);
                4
            },
            // LD r, n.
            0x06 => {
                let n = self.fetch(bus);
                self.regs.b = n;
                8
            },
            0x0E => {
                let n = self.fetch(bus);
                self.regs.c = n;
                8
            },
            0x16 => {
                let n = self.fetch(bus);
                self.regs.d = n;
                8
            },
            0x1E => {
                let n = self.fetch(bus);
                self.regs.e = n;
                8
            },
            0x26 => {
                let n = self.fetch(bus);
                self.regs.h = n;
                8
            },
            0x2E => {
                let n = self.fetch(bus);
                self.regs.l = n;
                8
            },
            0x3E => {
                let n = self.fetch(bus);
                self.regs.a = n;
                8
            },
            // LD rr, nn.
            0x01 => {
                let v = self.fetch16(bus);
                self.regs.set_bc(v);
                12
            },
            0x11 => {
                let v = self.fetch16(bus);
                self.regs.set_de(v);
                12
            },
            0x21 => {
                let v = self.fetch16(bus);
                self.regs.set_hl(v);
                12
            },
            0x31 => {
                let v = self.fetch16(bus);
                self.regs.sp = v;
                12
            },
            // LD (rr), A and LD A, (rr).
            0x02 => {
                let addr = self.regs.bc();
                bus.write(addr, self.regs.a);
                8
            },
            0x12 => {
                let addr = self.regs.de();
                bus.write(addr, self.regs.a);
                8
            },
            0x0A => {
                self.regs.a = bus.read(self.regs.bc());
                8
            },
            0x1A => {
                self.regs.a = bus.read(self.regs.de());
                8
            },
            // LD (HL+), A and LD (HL-), A.
            0x22 => {
                let addr = self.regs.hl();
                bus.write(addr, self.regs.a);
                let next = addr.wrapping_add(1);
                self.regs.set_hl(next);
                8
            },
            0x32 => {
                let addr = self.regs.hl();
                bus.write(addr, self.regs.a);
                let next = addr.wrapping_sub(1);
                self.regs.set_hl(next);
                8
            },
            // LD A, (HL+) and LD A, (HL-).
            0x2A => {
                let addr = self.regs.hl();
                self.regs.a = bus.read(addr);
                let next = addr.wrapping_add(1);
                self.regs.set_hl(next);
                8
            },
            0x3A => {
                let addr = self.regs.hl();
                self.regs.a = bus.read(addr);
                let next = addr.wrapping_sub(1);
                self.regs.set_hl(next);
                8
            },
            // LD (HL), n.
            0x36 => {
                let n = self.fetch(bus);
                let addr = self.regs.hl();
                bus.write(addr, n);
                12
            },
            // LD (nn), SP.
            0x08 => {
                let addr = self.fetch16(bus);
                bus.write16(addr, self.regs.sp);
                20
            },
            // INC r.
            0x04 => {
                let v = self.inc(self.regs.b);
                self.regs.b = v;
                4
            },
            0x0C => {
                let v = self.inc(self.regs.c);
                self.regs.c = v;
                4
            },
            0x14 => {
                let v = self.inc(self.regs.d);
                self.regs.d = v;
                4
            },
            0x1C => {
                let v = self.inc(self.regs.e);
                self.regs.e = v;
                4
            },
            0x24 => {
                let v = self.inc(self.regs.h);
                self.regs.h = v;
                4
            },
            0x2C => {
                let v = self.inc(self.regs.l);
                self.regs.l = v;
                4
            },
            0x34 => {
                let operand = bus.read(self.regs.hl());
                let v = self.inc(operand);
                let addr = self.regs.hl();
                bus.write(addr, v);
                12
            },
            0x3C => {
                let v = self.inc(self.regs.a);
                self.regs.a = v;
                4
            },
            // DEC r.
            0x05 => {
                let v = self.dec(self.regs.b);
                self.regs.b = v;
                4
            },
            0x0D => {
                let v = self.dec(self.regs.c);
                self.regs.c = v;
                4
            },
            0x15 => {
                let v = self.dec(self.regs.d);
                self.regs.d = v;
                4
            },
            0x1D => {
                let v = self.dec(self.regs.e);
                self.regs.e = v;
                4
            },
            0x25 => {
                let v = self.dec(self.regs.h);
                self.regs.h = v;
                4
            },
            0x2D => {
                let v = self.dec(self.regs.l);
                self.regs.l = v;
                4
            },
            0x35 => {
                let operand = bus.read(self.regs.hl());
                let v = self.dec(operand);
                let addr = self.regs.hl();
                bus.write(addr, v);
                12
            },
            0x3D => {
                let v = self.dec(self.regs.a);
                self.regs.a = v;
                4
            },
            // INC rr and DEC rr.
            0x03 => {
                let v = self.regs.bc().wrapping_add(1);
                self.regs.set_bc(v);
                8
            },
            0x13 => {
                let v = self.regs.de().wrapping_add(1);
                self.regs.set_de(v);
                8
            },
            0x23 => {
                let v = self.regs.hl().wrapping_add(1);
                self.regs.set_hl(v);
                8
            },
            0x33 => {
                self.regs.sp = self.regs.sp.wrapping_add(1);
                8
            },
            0x0B => {
                let v = self.regs.bc().wrapping_sub(1);
                self.regs.set_bc(v);
                8
            },
            0x1B => {
                let v = self.regs.de().wrapping_sub(1);
                self.regs.set_de(v);
                8
            },
            0x2B => {
                let v = self.regs.hl().wrapping_sub(1);
                self.regs.set_hl(v);
                8
            },
            0x3B => {
                self.regs.sp = self.regs.sp.wrapping_sub(1);
                8
            },
            // ADD HL, rr.
            0x09 => {
                let v = self.regs.bc();
                self.add_hl(v);
                8
            },
            0x19 => {
                let v = self.regs.de();
                self.add_hl(v);
                8
            },
            0x29 => {
                let v = self.regs.hl();
                self.add_hl(v);
                8
            },
            0x39 => {
                let v = self.regs.sp;
                self.add_hl(v);
                8
            },
            // Accumulator rotates.
            0x07 => {
                self.rlca();
                4
            },
            0x0F => {
                self.rrca();
                4
            },
            0x17 => {
                self.rla();
                4
            },
            0x1F => {
                self.rra();
                4
            },
            // DAA, CPL, SCF.
            0x27 => {
                self.daa();
                4
            },
            0x2F => {
                self.cpl();
                4
            },
            0x37 => {
                self.scf();
                4
            },
            // JR e8 and JR cc, e8.
            0x18 => {
                let offset = self.fetch(bus);
                self.regs.pc = self.regs.pc.wrapping_add((offset as i8) as u16);
                12
            },
            0x20 => {
                let offset = self.fetch(bus);
                if !self.regs.f.z {
                    self.regs.pc = self.regs.pc.wrapping_add((offset as i8) as u16);
                    12
                } else {
                    8
                }
            },
            0x28 => {
                let offset = self.fetch(bus);
                if self.regs.f.z {
                    self.regs.pc = self.regs.pc.wrapping_add((offset as i8) as u16);
                    12
                } else {
                    8
                }
            },
            0x30 => {
                let offset = self.fetch(bus);
                if !self.regs.f.c {
                    self.regs.pc = self.regs.pc.wrapping_add((offset as i8) as u16);
                    12
                } else {
                    8
                }
            },
            0x38 => {
                let offset = self.fetch(bus);
                if self.regs.f.c {
                    self.regs.pc = self.regs.pc.wrapping_add((offset as i8) as u16);
                    12
                } else {
                    8
                }
            },
            // CCF (0x3F).
            _ => {
                self.ccf();
                4
            },
        }
    }

    /// The opcodes `0xC0..=0xFF`.
    #[verifier::rlimit(100)]
    #[verifier::spinoff_prover]
    fn execute_ctrl(&mut self, bus: &mut Bus, opcode: u8) -> (r: u32)
        requires
            old(bus).wf(),
            0xC0 <= opcode,
        ensures
            final(bus).wf(),
            ({
                let (c, m, cycles) = spec_execute_ctrl(*old(self), old(bus)@, opcode);
                *final(self) == c && final(bus)@ == m && r == cycles
            }),
    {
        match opcode {
            // Immediate ALU operations.
            0xC6 => {
                let n = self.fetch(bus);
                self.add(n);
                8
            },
            0xCE => {
                let n = self.fetch(bus);
                self.adc(n);
                8
            },
            0xD6 => {
                let n = self.fetch(bus);
                self.sub(n);
                8
            },
            0xDE => {
                let n = self.fetch(bus);
                self.sbc(n);
                8
            },
            0xE6 => {
                let n = self.fetch(bus);
                self.and(n);
                8
            },
            0xEE => {
                let n = self.fetch(bus);
                self.xor(n);
                8
            },
            0xF6 => {
                let n = self.fetch(bus);
                self.or(n);
                8
            },
            0xFE => {
                let n = self.fetch(bus);
                self.cp(n);
                8
            },
            // JP nn and JP HL.
            0xC3 => {
                let addr = self.fetch16(bus);
                self.regs.pc = addr;
                16
            },
            0xE9 => {
                self.regs.pc = self.regs.hl();
                4
            },
            // JP cc, nn.
            0xC2 => {
                let addr = self.fetch16(bus);
                if !self.regs.f.z {
                    self.regs.pc = addr;
                    16
                } else {
                    12
                }
            },
            0xCA => {
                let addr = self.fetch16(bus);
                if self.regs.f.z {
                    self.regs.pc = addr;
                    16
                } else {
                    12
                }
            },
            0xD2 => {
                let addr = self.fetch16(bus);
                if !self.regs.f.c {
                    self.regs.pc = addr;
                    16
                } else {
                    12
                }
            },
            0xDA => {
                let addr = self.fetch16(bus);
                if self.regs.f.c {
                    self.regs.pc = addr;
                    16
                } else {
                    12
                }
            },
            // CALL nn and CALL cc, nn.
            0xCD => {
                let addr = self.fetch16(bus);
                let ret = self.regs.pc;
                self.push(bus, ret);
                self.regs.pc = addr;
                24
            },
            0xC4 => {
                let addr = self.fetch16(bus);
                if !self.regs.f.z {
                    let ret = self.regs.pc;
                    self.push(bus, ret);
                    self.regs.pc = addr;
                    24
                } else {
                    12
                }
            },
            0xCC => {
                let addr = self.fetch16(bus);
                if self.regs.f.z {
                    let ret = self.regs.pc;
                    self.push(bus, ret);
                    self.regs.pc = addr;
                    24
                } else {
                    12
                }
            },
            0xD4 => {
                let addr = self.fetch16(bus);
                if !self.regs.f.c {
                    let ret = self.regs.pc;
                    self.push(bus, ret);
                    self.regs.pc = addr;
                    24
                } else {
                    12
                }
            },
            0xDC => {
                let addr = self.fetch16(bus);
                if self.regs.f.c {
                    let ret = self.regs.pc;
                    self.push(bus, ret);
                    self.regs.pc = addr;
                    24
                } else {
                    12
                }
            },
            // RET, RETI and RET cc.
            0xC9 => {
                self.regs.pc = self.pop(bus);
                16
            },
            0xD9 => {
                self.regs.pc = self.pop(bus);
                self.ime = true;
                16
            },
            0xC0 => {
                if !self.regs.f.z {
                    self.regs.pc = self.pop(bus);
                    20
                } else {
                    8
                }
            },
            0xC8 => {
                if self.regs.f.z {
                    self.regs.pc = self.pop(bus);
                    20
                } else {
                    8
                }
            },
            0xD0 => {
                if !self.regs.f.c {
                    self.regs.pc = self.pop(bus);
                    20
                } else {
                    8
                }
            },
            0xD8 => {
                if self.regs.f.c {
                    self.regs.pc = self.pop(bus);
                    20
                } else {
                    8
                }
            },
            // RST n.
            0xC7 => {
                let ret = self.regs.pc;
                self.push(bus, ret);
                self.regs.pc = 0x00;
                16
            },
            0xCF => {
                let ret = self.regs.pc;
                self.push(bus, ret);
                self.regs.pc = 0x08;
                16
            },
            0xD7 => {
                let ret = self.regs.pc;
                self.push(bus, ret);
                self.regs.pc = 0x10;
                16
            },
            0xDF => {
                let ret = self.regs.pc;
                self.push(bus, ret);
                self.regs.pc = 0x18;
                16
            },
            0xE7 => {
                let ret = self.regs.pc;
                self.push(bus, ret);
                self.regs.pc = 0x20;
                16
            },
            0xEF => {
                let ret = self.regs.pc;
                self.push(bus, ret);
                self.regs.pc = 0x28;
                16
            },
            0xF7 => {
                let ret = self.regs.pc;
                self.push(bus, ret);
                self.regs.pc = 0x30;
                16
            },
            0xFF => {
                let ret = self.regs.pc;
                self.push(bus, ret);
                self.regs.pc = 0x38;
                16
            },
            // PUSH rr.
            0xC5 => {
                let v = self.regs.bc();
                self.push(bus, v);
                16
            },
            0xD5 => {
                let v = self.regs.de();
                self.push(bus, v);
                16
            },
            0xE5 => {
                let v = self.regs.hl();
                self.push(bus, v);
                16
            },
            0xF5 => {
                let v = self.regs.af();
                self.push(bus, v);
                16
            },
            // POP rr; POP AF masks the low nibble of F.
            0xC1 => {
                let v = self.pop(bus);
                self.regs.set_bc(v);
                12
            },
            0xD1 => {
                let v = self.pop(bus);
                self.regs.set_de(v);
                12
            },
            0xE1 => {
                let v = self.pop(bus);
                self.regs.set_hl(v);
                12
            },
            0xF1 => {
                let v = self.pop(bus);
                self.regs.set_af(v);
                12
            },
            // DI and EI.
            0xF3 => {
                self.ime = false;
                self.ime_scheduled = false;
                4
            },
            0xFB => {
                // EI takes effect after the next instruction.
                self.ime_scheduled = true;
                4
            },
            // LDH (n), A and LDH A, (n).
            0xE0 => {
                let offset = self.fetch(bus);
                bus.write(0xFF00 + (offset as u16), self.regs.a);
                12
            },
            0xF0 => {
                let offset = self.fetch(bus);
                self.regs.a = bus.read(0xFF00 + (offset as u16));
                12
            },
            // LD (0xFF00+C), A and LD A, (0xFF00+C).
            0xE2 => {
                bus.write(0xFF00 + (self.regs.c as u16), self.regs.a);
                8
            },
            0xF2 => {
                self.regs.a = bus.read(0xFF00 + (self.regs.c as u16));
                8
            },
            // LD (nn), A and LD A, (nn).
            0xEA => {
                let addr = self.fetch16(bus);
                bus.write(addr, self.regs.a);
                16
            },
            0xFA => {
                let addr = self.fetch16(bus);
                self.regs.a = bus.read(addr);
                16
            },
            // LD SP, HL.
            0xF9 => {
                self.regs.sp = self.regs.hl();
                8
            },
            // ADD SP, e8.
            0xE8 => {
                let offset = self.fetch(bus);
                let n = (offset as i8) as u16;
                proof {
                    lemma_u16_mask_bounds(self.regs.sp);
                    lemma_u16_mask_bounds(n);
                }
                let result = self.regs.sp.wrapping_add(n);
                self.regs.f.z = false;
                self.regs.f.n = false;
                self.regs.f.h = (self.regs.sp & 0x0F) + (n & 0x0F) > 0x0F;
                self.regs.f.c = (self.regs.sp & 0xFF) + (n & 0xFF) > 0xFF;
                self.regs.sp = result;
                16
            },
            // LD HL, SP+e8.
            0xF8 => {
                let offset = self.fetch(bus);
                let n = (offset as i8) as u16;
                proof {
                    lemma_u16_mask_bounds(self.regs.sp);
                    lemma_u16_mask_bounds(n);
                }
                let result = self.regs.sp.wrapping_add(n);
                self.regs.f.z = false;
                self.regs.f.n = false;
                self.regs.f.h = (self.regs.sp & 0x0F) + (n & 0x0F) > 0x0F;
                self.regs.f.c = (self.regs.sp & 0xFF) + (n & 0xFF) > 0xFF;
                self.regs.set_hl(result);
                12
            },
            // CB prefix.
            0xCB => {
                let cb_opcode = self.fetch(bus);
                self.execute_cb(bus, cb_opcode)
            },
            // The hardware-undefined opcodes (0xD3, 0xDB, 0xDD, 0xE3,
            // 0xE4, 0xEB, 0xEC, 0xED, 0xF4, 0xFC, 0xFD) execute as
            // no-ops by explicit choice.
            _ => 4,
        }
    }

    // ========== ALU helpers ==========

    /// INC r: increment, setting Z, N=0 and H; C untouched.
    fn inc(&mut self, value: u8) -> (r: u8)
        ensures
            *final(self) == spec_inc(*old(self), value).0,
            r == spec_inc(*old(self), value).1,
    {
        proof {
            lemma_u8_nibble(value);
        }
        let result = value.wrapping_add(1);
        self.regs.f.z = result == 0;
        self.regs.f.n = false;
        self.regs.f.h = (value & 0x0F) + 1 > 0x0F;
        result
    }

    /// DEC r: decrement, setting Z, N=1 and H; C untouched.
    fn dec(&mut self, value: u8) -> (r: u8)
        ensures
            *final(self) == spec_dec(*old(self), value).0,
            r == spec_dec(*old(self), value).1,
    {
        let result = value.wrapping_sub(1);
        self.regs.f.z = result == 0;
        self.regs.f.n = true;
        self.regs.f.h = (value & 0x0F) == 0;
        result
    }

    /// ADD A, v.
    fn add(&mut self, value: u8)
        ensures
            *final(self) == spec_add(*old(self), value),
    {
        let a = self.regs.a;
        proof {
            lemma_u8_nibble(a);
            lemma_u8_nibble(value);
        }
        let result = a.wrapping_add(value);
        self.regs.f.z = result == 0;
        self.regs.f.n = false;
        self.regs.f.h = (a & 0x0F) + (value & 0x0F) > 0x0F;
        self.regs.f.c = (a as u16) + (value as u16) > 0xFF;
        self.regs.a = result;
    }

    /// ADC A, v: add with the incoming carry.
    fn adc(&mut self, value: u8)
        ensures
            *final(self) == spec_adc(*old(self), value),
    {
        let a = self.regs.a;
        let carry: u8 = if self.regs.f.c {
            1
        } else {
            0
        };
        proof {
            lemma_u8_nibble(a);
            lemma_u8_nibble(value);
        }
        let result = a.wrapping_add(value).wrapping_add(carry);
        self.regs.f.z = result == 0;
        self.regs.f.n = false;
        self.regs.f.h = (a & 0x0F) + (value & 0x0F) + carry > 0x0F;
        self.regs.f.c = (a as u16) + (value as u16) + (carry as u16) > 0xFF;
        self.regs.a = result;
    }

    /// SUB v.
    fn sub(&mut self, value: u8)
        ensures
            *final(self) == spec_sub(*old(self), value),
    {
        let a = self.regs.a;
        let result = a.wrapping_sub(value);
        self.regs.f.z = result == 0;
        self.regs.f.n = true;
        self.regs.f.h = (a & 0x0F) < (value & 0x0F);
        self.regs.f.c = a < value;
        self.regs.a = result;
    }

    /// SBC A, v: subtract with the incoming carry.
    fn sbc(&mut self, value: u8)
        ensures
            *final(self) == spec_sbc(*old(self), value),
    {
        let a = self.regs.a;
        let carry: u8 = if self.regs.f.c {
            1
        } else {
            0
        };
        proof {
            lemma_u8_nibble(a);
            lemma_u8_nibble(value);
        }
        let result = a.wrapping_sub(value).wrapping_sub(carry);
        self.regs.f.z = result == 0;
        self.regs.f.n = true;
        self.regs.f.h = (a & 0x0F) < (value & 0x0F) + carry;
        self.regs.f.c = (a as u16) < (value as u16) + (carry as u16);
        self.regs.a = result;
    }

    /// AND v.
    fn and(&mut self, value: u8)
        ensures
            *final(self) == spec_and(*old(self), value),
    {
        self.regs.a = self.regs.a & value;
        self.regs.f.z = self.regs.a == 0;
        self.regs.f.n = false;
        self.regs.f.h = true;
        self.regs.f.c = false;
    }

    /// XOR v.
    fn xor(&mut self, value: u8)
        ensures
            *final(self) == spec_xor(*old(self), value),
    {
        self.regs.a = self.regs.a ^ value;
        self.regs.f.z = self.regs.a == 0;
        self.regs.f.n = false;
        self.regs.f.h = false;
        self.regs.f.c = false;
    }

    /// OR v.
    fn or(&mut self, value: u8)
        ensures
            *final(self) == spec_or(*old(self), value),
    {
        self.regs.a = self.regs.a | value;
        self.regs.f.z = self.regs.a == 0;
        self.regs.f.n = false;
        self.regs.f.h = false;
        self.regs.f.c = false;
    }

    /// CP v: compare, discarding the difference.
    fn cp(&mut self, value: u8)
        ensures
            *final(self) == spec_cp(*old(self), value),
    {
        let a = self.regs.a;
        let result = a.wrapping_sub(value);
        self.regs.f.z = result == 0;
        self.regs.f.n = true;
        self.regs.f.h = (a & 0x0F) < (value & 0x0F);
        self.regs.f.c = a < value;
    }

    /// ADD HL, rr.
    fn add_hl(&mut self, value: u16)
        ensures
            *final(self) == spec_add_hl(*old(self), value),
    {
        let hl = self.regs.hl();
        proof {
            lemma_u16_mask_bounds(hl);
            lemma_u16_mask_bounds(value);
        }
        let result = hl.wrapping_add(value);
        self.regs.f.n = false;
        self.regs.f.h = (hl & 0x0FFF) + (value & 0x0FFF) > 0x0FFF;
        self.regs.f.c = (hl as u32) + (value as u32) > 0xFFFF;
        self.regs.set_hl(result);
    }

    // ========== Stack operations ==========

    /// Push a 16-bit value, high byte first, SP decrementing before
    /// each byte.
    fn push(&mut self, bus: &mut Bus, value: u16)
        requires
            old(bus).wf(),
        ensures
            final(bus).wf(),
            ({
                let (c, m) = spec_push(*old(self), old(bus)@, value);
                *final(self) == c && final(bus)@ == m
            }),
    {
        proof {
            lemma_u16_split(value);
        }
        self.regs.sp = self.regs.sp.wrapping_sub(1);
        bus.write(self.regs.sp, (value >> 8) as u8);
        self.regs.sp = self.regs.sp.wrapping_sub(1);
        bus.write(self.regs.sp, (value & 0xFF) as u8);
    }

    /// Pop a 16-bit value, low byte first, SP incrementing after
    /// each byte.
    fn pop(&mut self, bus: &Bus) -> (r: u16)
        requires
            bus.wf(),
        ensures
            *final(self) == spec_pop(*old(self), bus@).0,
            r == spec_pop(*old(self), bus@).1,
    {
        let lo = bus.read(self.regs.sp);
        self.regs.sp = self.regs.sp.wrapping_add(1);
        let hi = bus.read(self.regs.sp);
        self.regs.sp = self.regs.sp.wrapping_add(1);
        proof {
            lemma_pair_bytes(hi, lo);
        }
        ((hi as u16) << 8) | (lo as u16)
    }

    // ========== Accumulator rotates ==========

    /// RLCA: rotate A left circular; Z always cleared.
    fn rlca(&mut self)
        ensures
            *final(self) == spec_rlca(*old(self)),
    {
        let carry = (self.regs.a >> 7) & 1;
        self.regs.a = (self.regs.a << 1) | carry;
        self.regs.f.z = false;
        self.regs.f.n = false;
        self.regs.f.h = false;
        self.regs.f.c = carry != 0;
    }

    /// RRCA: rotate A right circular; Z always cleared.
    fn rrca(&mut self)
        ensures
            *final(self) == spec_rrca(*old(self)),
    {
        let carry = self.regs.a & 1;
        self.regs.a = (self.regs.a >> 1) | (carry << 7);
        self.regs.f.z = false;
        self.regs.f.n = false;
        self.regs.f.h = false;
        self.regs.f.c = carry != 0;
    }

    /// RLA: rotate A left through carry; Z always cleared.
    fn rla(&mut self)
        ensures
            *final(self) == spec_rla(*old(self)),
    {
        let old_carry: u8 = if self.regs.f.c {
            1
        } else {
            0
        };
        let new_carry = (self.regs.a >> 7) & 1;
        self.regs.a = (self.regs.a << 1) | old_carry;
        self.regs.f.z = false;
        self.regs.f.n = false;
        self.regs.f.h = false;
        self.regs.f.c = new_carry != 0;
    }

    /// RRA: rotate A right through carry; Z always cleared.
    fn rra(&mut self)
        ensures
            *final(self) == spec_rra(*old(self)),
    {
        let old_carry: u8 = if self.regs.f.c {
            0x80
        } else {
            0
        };
        let new_carry = self.regs.a & 1;
        self.regs.a = (self.regs.a >> 1) | old_carry;
        self.regs.f.z = false;
        self.regs.f.n = false;
        self.regs.f.h = false;
        self.regs.f.c = new_carry != 0;
    }

    // ========== Misc instructions ==========

    /// DAA: decimal-adjust A.
    fn daa(&mut self)
        ensures
            *final(self) == spec_daa(*old(self)),
    {
        let mut adjust: u8 = 0;

        if self.regs.f.n {
            // After a subtraction.
            if self.regs.f.c {
                adjust += 0x60;
            }
            if self.regs.f.h {
                adjust += 0x06;
            }
            self.regs.a = self.regs.a.wrapping_sub(adjust);
        } else {
            // After an addition.
            if self.regs.f.c || self.regs.a > 0x99 {
                adjust += 0x60;
                self.regs.f.c = true;
            }
            if self.regs.f.h || (self.regs.a & 0x0F) > 0x09 {
                adjust += 0x06;
            }
            self.regs.a = self.regs.a.wrapping_add(adjust);
        }

        self.regs.f.z = self.regs.a == 0;
        self.regs.f.h = false;
    }

    /// CPL: complement A; N and H set.
    fn cpl(&mut self)
        ensures
            *final(self) == spec_cpl(*old(self)),
    {
        self.regs.a = !self.regs.a;
        self.regs.f.n = true;
        self.regs.f.h = true;
    }

    /// SCF: set carry; N and H cleared.
    fn scf(&mut self)
        ensures
            *final(self) == spec_scf(*old(self)),
    {
        self.regs.f.n = false;
        self.regs.f.h = false;
        self.regs.f.c = true;
    }

    /// CCF: complement carry; N and H cleared.
    fn ccf(&mut self)
        ensures
            *final(self) == spec_ccf(*old(self)),
    {
        self.regs.f.n = false;
        self.regs.f.h = false;
        self.regs.f.c = !self.regs.f.c;
    }
}

/// The two decode fields shared by the LD and ALU blocks are in
/// range.
proof fn lemma_ld_fields(opcode: u8)
    by (bit_vector)
    ensures
        opcode & 0x07 < 8,
        (opcode >> 3) & 0x07 < 8,
{
}

/// The first quarter of the table consumes between 4 and 20 T-cycles.
#[verifier::rlimit(100)]
#[verifier::spinoff_prover]
proof fn lemma_execute_misc_cycles(c: Cpu, m: BusView, opcode: u8)
    ensures
        4 <= spec_execute_misc(c, m, opcode).2 <= 20,
{
}

/// A CB-prefixed instruction consumes between 8 and 16 T-cycles.
#[verifier::spinoff_prover]
proof fn lemma_execute_cb_cycles(c: Cpu, m: BusView, opcode: u8)
    ensures
        8 <= spec_execute_cb(c, m, opcode).2 <= 16,
{
}

/// The last quarter of the table consumes between 4 and 24 T-cycles.
#[verifier::rlimit(100)]
#[verifier::spinoff_prover]
proof fn lemma_execute_ctrl_cycles(c: Cpu, m: BusView, opcode: u8)
    ensures
        4 <= spec_execute_ctrl(c, m, opcode).2 <= 24,
{
    if opcode == 0xCB {
        let (c1, cb_opcode) = spec_fetch(c, m);
        lemma_execute_cb_cycles(c1, m, cb_opcode);
    }
}

/// Every instruction consumes between 4 and 24 T-cycles.
#[verifier::rlimit(100)]
pub proof fn lemma_execute_cycles(c: Cpu, m: BusView, opcode: u8)
    ensures
        4 <= spec_execute(c, m, opcode).2 <= 24,
{
    if opcode < 0x40 {
        lemma_execute_misc_cycles(c, m, opcode);
    } else if opcode >= 0xC0 {
        lemma_execute_ctrl_cycles(c, m, opcode);
    }
}

/// Every CPU step consumes between 4 and 24 T-cycles: an idle or an
/// instruction costs 4 to 24, a serviced interrupt 20.
pub proof fn lemma_step_cycles(c: Cpu, m: BusView)
    ensures
        4 <= spec_step(c, m).2 <= 24,
{
    let (c1, m1, interrupt_cycles) = spec_handle_interrupts(c, m);
    if interrupt_cycles == 0 && !c1.halted {
        let (c2, opcode) = spec_fetch(c1, m1);
        lemma_execute_cycles(c2, m1, opcode);
    }
}

/// `XOR A, A` always zeroes A and leaves exactly Z set, whatever the
/// CPU state was.
pub proof fn lemma_xor_self(c: Cpu)
    ensures
        spec_xor(c, c.regs.a) == (Cpu {
            regs: Registers {
                a: 0,
                f: Flags { z: true, n: false, h: false, c: false },
                ..c.regs
            },
            ..c
        }),
{
    let a = c.regs.a;
    assert(a ^ a == 0) by (bit_vector);
}

/// `INC` then `DEC` of an 8-bit value restores it (the flags change).
pub proof fn lemma_inc_dec_restores(c: Cpu, value: u8)
    ensures
        ({
            let (c1, incremented) = spec_inc(c, value);
            spec_dec(c1, incremented).1 == value
        }),
{
}

/// `SUB v` with `A == v` always sets Z and N.
pub proof fn lemma_sub_equal(c: Cpu)
    ensures
        spec_sub(c, c.regs.a).regs.a == 0,
        spec_sub(c, c.regs.a).regs.f.z,
        spec_sub(c, c.regs.a).regs.f.n,
{
}

/// `JR e8` with offset `0xFE` (−2), executed from address `x`, lands
/// back at `x`: a self-loop once the operand is fetched.
pub proof fn lemma_jr_self_loop(c: Cpu, m: BusView, x: u16)
    requires
        c.regs.pc == u16_specs::wrapping_add(x, 1),
        m.spec_read(c.regs.pc) == 0xFE,
    ensures
        spec_execute(c, m, 0x18).0.regs.pc == x,
{
    assert((0xFEu8 as i8) as u16 == 0xFFFE) by (bit_vector);
}

/// `PUSH rr` then `POP rr'` transfers the value exactly and restores
/// SP, whenever the two stack cells are plain RAM.  (On a stack
/// pointed into ROM the bytes are never stored, so those addresses
/// are excluded.)
pub proof fn lemma_push_pop_round_trip(c: Cpu, m: BusView, value: u16)
    requires
        m.wf(),
        crate::bus::plain_ram_addr(u16_specs::wrapping_sub(c.regs.sp, 1)),
        crate::bus::plain_ram_addr(u16_specs::wrapping_sub(u16_specs::wrapping_sub(c.regs.sp, 1), 1)),
    ensures
        ({
            let (c1, m1) = spec_push(c, m, value);
            let (c2, popped) = spec_pop(c1, m1);
            popped == value && c2.regs.sp == c.regs.sp
        }),
{
    let sp1 = u16_specs::wrapping_sub(c.regs.sp, 1);
    let sp2 = u16_specs::wrapping_sub(sp1, 1);
    let m1 = m.spec_write(sp1, high_byte(value));
    crate::bus::lemma_plain_ram_read_back(m, sp1, high_byte(value));
    crate::bus::lemma_plain_ram_read_back(m1, sp2, low_byte(value));
    crate::bus::lemma_plain_ram_frame(m1, sp2, sp1, low_byte(value));
    super::registers::lemma_pair_round_trip(value);
}

} // verus!
