//! The SM83 CPU: register file, instruction execution, interrupt
//! dispatch.
//!
//! The CPU owns the registers and three booleans: `halted`, the
//! interrupt master enable `ime`, and `ime_scheduled`, the latch that
//! realises EI's one-instruction delay.  Each step borrows the bus
//! transiently; the spec functions describe every step's effect on
//! the pair of CPU and bus exactly.

pub mod cb_instructions;
pub mod instructions;
pub mod registers;

pub use registers::Flags;
pub use registers::Registers;

use vstd::prelude::*;
use vstd::wrapping::u16_specs;

use crate::bus::Bus;
use crate::bus::BusView;
use crate::interrupts::spec_interrupt_vector;
use registers::high_byte;
use registers::lemma_u16_split;
use registers::low_byte;
use registers::spec_boot_registers;

verus! {

/// The Game Boy CPU.
#[derive(Debug, Clone)]
pub struct Cpu {
    /// CPU registers.
    pub regs: Registers,
    /// Halted state: the CPU idles until an interrupt is pending.
    pub halted: bool,
    /// Interrupt master enable.
    pub ime: bool,
    /// IME becomes true after the next instruction (EI delay).
    pub ime_scheduled: bool,
}

/// The CPU with its four flags replaced.
pub open spec fn with_flags(c: Cpu, z: bool, n: bool, h: bool, carry: bool) -> Cpu {
    Cpu { regs: Registers { f: Flags { z, n, h, c: carry }, ..c.regs }, ..c }
}

/// The CPU with its program counter replaced.
pub open spec fn with_pc(c: Cpu, pc: u16) -> Cpu {
    Cpu { regs: Registers { pc, ..c.regs }, ..c }
}

/// Interrupt dispatch, as `handle_interrupts` performs it.
///
/// A pending interrupt (any bit of `IE & IF`) wakes a halted CPU even
/// with IME off.  Only with IME on is the highest-priority pending
/// interrupt serviced: IME turns off, the serviced IF bit clears, PC
/// is pushed (high byte first, SP decrementing before each byte), PC
/// jumps to the vector, and 20 T-cycles pass; otherwise 0 cycles.
pub open spec fn spec_handle_interrupts(c: Cpu, m: BusView) -> (Cpu, BusView, u32) {
    let ie = m.spec_read(0xFFFF);
    let if_reg = m.spec_read(0xFF0F);
    let pending = ie & if_reg;
    let woken = if pending != 0 && c.halted {
        Cpu { halted: false, ..c }
    } else {
        c
    };
    if !woken.ime {
        (woken, m, 0)
    } else {
        match spec_interrupt_vector(ie, if_reg) {
            Some((vector, bit)) => {
                let sp1 = u16_specs::wrapping_sub(woken.regs.sp, 1);
                let sp2 = u16_specs::wrapping_sub(sp1, 1);
                let m1 = m.spec_write(0xFF0F, if_reg & !bit);
                let m2 = m1.spec_write(sp1, high_byte(woken.regs.pc));
                let m3 = m2.spec_write(sp2, low_byte(woken.regs.pc));
                let serviced = Cpu {
                    ime: false,
                    regs: Registers { sp: sp2, pc: vector, ..woken.regs },
                    ..woken
                };
                (serviced, m3, 20)
            },
            None => (woken, m, 0),
        }
    }
}

impl Cpu {
    /// The post-boot CPU: boot registers, running, interrupts
    /// disabled.
    pub fn new() -> (r: Cpu)
        ensures
            r == (Cpu {
                regs: spec_boot_registers(),
                halted: false,
                ime: false,
                ime_scheduled: false,
            }),
    {
        Cpu { regs: Registers::new(), halted: false, ime: false, ime_scheduled: false }
    }

    /// Handle pending interrupts; returns the T-cycles consumed (20
    /// when an interrupt was serviced, else 0).
    pub fn handle_interrupts(&mut self, bus: &mut Bus) -> (r: u32)
        requires
            old(bus).wf(),
        ensures
            final(bus).wf(),
            ({
                let (c, m, cycles) = spec_handle_interrupts(*old(self), old(bus)@);
                *final(self) == c && final(bus)@ == m && r == cycles
            }),
    {
        let ie = bus.read(0xFFFF);
        let if_reg = bus.read(0xFF0F);
        let pending = ie & if_reg;

        // Wake from HALT if any interrupt is pending, even if IME is
        // false.
        if pending != 0 && self.halted {
            self.halted = false;
        }

        // Only service the interrupt if IME is true.
        if !self.ime {
            return 0;
        }

        if let Some((vector, bit)) = crate::interrupts::get_interrupt_vector(ie, if_reg) {
            proof {
                lemma_u16_split(self.regs.pc);
            }
            // Disable IME.
            self.ime = false;

            // Clear the serviced interrupt flag.
            bus.write(0xFF0F, if_reg & !bit);

            // Push PC onto the stack, high byte first.
            self.regs.sp = self.regs.sp.wrapping_sub(1);
            bus.write(self.regs.sp, (self.regs.pc >> 8) as u8);
            self.regs.sp = self.regs.sp.wrapping_sub(1);
            bus.write(self.regs.sp, (self.regs.pc & 0xFF) as u8);

            // Jump to the interrupt vector.
            self.regs.pc = vector;

            // Servicing an interrupt takes 20 T-cycles (5 M-cycles).
            return 20;
        }

        0
    }
}

impl Default for Cpu {
    /// The post-boot CPU, as `Cpu::new` returns it.
    fn default() -> (r: Cpu)
        ensures
            r == (Cpu {
                regs: spec_boot_registers(),
                halted: false,
                ime: false,
                ime_scheduled: false,
            }),
    {
        Cpu::new()
    }
}

} // verus!
