//! The emulator shell: one CPU, one bus, a cycle accumulator, and
//! the driver loops.
//!
//! Each step runs one CPU instruction (or interrupt dispatch), then
//! advances the timer by the cycles consumed.  The cycle accumulator
//! saturates at `u64::MAX`, so a run over any cycle budget
//! terminates.  The run loops are specified by recursive functions
//! over the machine view, one unfolding per step.

use vstd::prelude::*;
use vstd::string::StrSliceExecFns;

use crate::bus::Bus;
use crate::bus::BusView;
use crate::bus::bytes_as_chars;
use crate::bus::spec_boot_bus;
use crate::cartridge::Cartridge;
use crate::cpu::Cpu;
use crate::cpu::instructions::lemma_step_cycles;
use crate::cpu::instructions::spec_step;
use crate::cpu::registers::spec_boot_registers;

verus! {

/// Spec-level view of the whole machine.
#[verifier::ext_equal]
pub struct EmulatorView {
    /// The CPU.
    pub cpu: Cpu,
    /// The bus, timer included.
    pub bus: BusView,
    /// Total T-cycles executed, saturating.
    pub cycles: u64,
}

/// The main emulator structure.
pub struct Emulator {
    /// The CPU.
    pub cpu: Cpu,
    /// The bus, timer included.
    pub bus: Bus,
    /// Total T-cycles executed, saturating.
    pub cycles: u64,
}

impl View for Emulator {
    type V = EmulatorView;

    open spec fn view(&self) -> EmulatorView {
        EmulatorView { cpu: self.cpu, bus: self.bus@, cycles: self.cycles }
    }
}

/// The machine view of a freshly created emulator over a ROM image.
pub open spec fn spec_boot_emulator(rom: Seq<u8>) -> EmulatorView {
    EmulatorView {
        cpu: Cpu { regs: spec_boot_registers(), halted: false, ime: false, ime_scheduled: false },
        bus: spec_boot_bus().spec_load_rom(rom),
        cycles: 0,
    }
}

/// One emulator step: one CPU step, the bus ticked by the cycles it
/// consumed, and the accumulator advanced (saturating).
pub open spec fn spec_emu_step(e: EmulatorView) -> (EmulatorView, u32) {
    let (cpu, bus, cycles) = spec_step(e.cpu, e.bus);
    let ticked = bus.spec_bus_tick(cycles as nat);
    (
        EmulatorView { cpu, bus: ticked, cycles: e.cycles.saturating_add(cycles as u64) },
        cycles,
    )
}

/// The termination measure of a run loop: how far the accumulator
/// still is from the budget.
pub open spec fn run_measure(cycles: u64, budget: u64) -> int {
    if cycles < budget {
        budget - cycles
    } else {
        0
    }
}

/// A step strictly shrinks the measure while the budget is not
/// reached: each step costs at least 4 cycles, and saturation jumps
/// past every budget.
proof fn lemma_emu_step_measure(e: EmulatorView, budget: u64)
    requires
        e.cycles < budget,
    ensures
        run_measure(spec_emu_step(e).0.cycles, budget) < run_measure(e.cycles, budget),
{
    lemma_step_cycles(e.cpu, e.bus);
}

/// Run until the CPU halts or the cycle budget is reached.
pub open spec fn spec_run_until_halt(e: EmulatorView, max_cycles: u64) -> EmulatorView
    decreases run_measure(e.cycles, max_cycles),
    via spec_run_until_halt_decreases
{
    if !e.cpu.halted && e.cycles < max_cycles {
        spec_run_until_halt(spec_emu_step(e).0, max_cycles)
    } else {
        e
    }
}

#[via_fn]
proof fn spec_run_until_halt_decreases(e: EmulatorView, max_cycles: u64) {
    if !e.cpu.halted && e.cycles < max_cycles {
        lemma_emu_step_measure(e, max_cycles);
    }
}

/// Run until the accumulator reaches `target` or the CPU halts.
pub open spec fn spec_run_to(e: EmulatorView, target: u64) -> EmulatorView
    decreases run_measure(e.cycles, target),
    via spec_run_to_decreases
{
    if e.cycles < target && !e.cpu.halted {
        spec_run_to(spec_emu_step(e).0, target)
    } else {
        e
    }
}

#[via_fn]
proof fn spec_run_to_decreases(e: EmulatorView, target: u64) {
    if e.cycles < target && !e.cpu.halted {
        lemma_emu_step_measure(e, target);
    }
}

/// Whether `needle` occurs as a contiguous run of `hay`.
pub open spec fn spec_contains(hay: Seq<char>, needle: Seq<char>) -> bool {
    exists|i: int|
        0 <= i <= hay.len() - needle.len() && #[trigger] hay.subrange(i, i + needle.len())
            == needle
}

/// Run, one step at a time, until the serial log contains `needle`
/// (true), or the CPU halts or the budget is reached first (false).
/// The log is inspected after each step.
pub open spec fn spec_run_serial(e: EmulatorView, needle: Seq<char>, max_cycles: u64) -> (
    EmulatorView,
    bool,
)
    decreases run_measure(e.cycles, max_cycles),
    via spec_run_serial_decreases
{
    if e.cycles < max_cycles && !e.cpu.halted {
        let stepped = spec_emu_step(e).0;
        if spec_contains(bytes_as_chars(stepped.bus.serial), needle) {
            (stepped, true)
        } else {
            spec_run_serial(stepped, needle, max_cycles)
        }
    } else {
        (e, false)
    }
}

#[via_fn]
proof fn spec_run_serial_decreases(e: EmulatorView, needle: Seq<char>, max_cycles: u64) {
    if e.cycles < max_cycles && !e.cpu.halted {
        lemma_emu_step_measure(e, max_cycles);
    }
}

impl Emulator {
    /// The bus stores have their hardware sizes.
    pub open spec fn wf(&self) -> bool {
        self.bus.wf()
    }

    /// Create an emulator with a loaded cartridge.
    pub fn new(cartridge: &Cartridge) -> (r: Emulator)
        ensures
            r.wf(),
            r@ == spec_boot_emulator(cartridge.rom@),
    {
        let mut bus = Bus::new();
        bus.load_rom(cartridge.rom.as_slice());

        Emulator { cpu: Cpu::new(), bus, cycles: 0 }
    }

    /// Create an emulator with raw ROM data.
    pub fn with_rom(rom: &[u8]) -> (r: Emulator)
        ensures
            r.wf(),
            r@ == spec_boot_emulator(rom@),
    {
        let mut bus = Bus::new();
        bus.load_rom(rom);

        Emulator { cpu: Cpu::new(), bus, cycles: 0 }
    }

    /// Execute one CPU instruction and advance the hardware; returns
    /// the T-cycles consumed.
    pub fn step(&mut self) -> (r: u32)
        requires
            old(self).wf(),
        ensures
            final(self).wf(),
            ({
                let (e, cycles) = spec_emu_step(old(self)@);
                final(self)@ == e && r == cycles
            }),
    {
        let cycles = self.cpu.step(&mut self.bus);
        // Advance the timer and the other hardware.
        self.bus.tick(cycles);
        self.cycles = self.cycles.saturating_add(cycles as u64);
        cycles
    }

    /// Run until the CPU halts or `max_cycles` is reached; returns
    /// whether the CPU halted.
    pub fn run_until_halt(&mut self, max_cycles: u64) -> (r: bool)
        requires
            old(self).wf(),
        ensures
            final(self).wf(),
            final(self)@ == spec_run_until_halt(old(self)@, max_cycles),
            r == spec_run_until_halt(old(self)@, max_cycles).cpu.halted,
    {
        while !self.cpu.halted && self.cycles < max_cycles
            invariant
                self.wf(),
                spec_run_until_halt(old(self)@, max_cycles) == spec_run_until_halt(
                    self@,
                    max_cycles,
                ),
            decreases run_measure(self.cycles, max_cycles),
        {
            let ghost pre = self@;
            self.step();
            proof {
                lemma_emu_step_measure(pre, max_cycles);
            }
        }
        self.cpu.halted
    }

    /// Run until the accumulator has advanced by `cycles` more
    /// T-cycles (or the CPU halts).
    pub fn run_cycles(&mut self, cycles: u64)
        requires
            old(self).wf(),
        ensures
            final(self).wf(),
            final(self)@ == spec_run_to(old(self)@, old(self).cycles.saturating_add(cycles)),
    {
        let target = self.cycles.saturating_add(cycles);
        while self.cycles < target && !self.cpu.halted
            invariant
                self.wf(),
                spec_run_to(old(self)@, target) == spec_run_to(self@, target),
            decreases run_measure(self.cycles, target),
        {
            let ghost pre = self@;
            self.step();
            proof {
                lemma_emu_step_measure(pre, target);
            }
        }
    }

    /// Run until the serial output contains `needle`, the CPU halts,
    /// or the budget is reached; returns whether `needle` appeared.
    pub fn run_until_serial_contains(&mut self, needle: &str, max_cycles: u64) -> (r: bool)
        requires
            old(self).wf(),
        ensures
            final(self).wf(),
            ({
                let (e, found) = spec_run_serial(old(self)@, needle@, max_cycles);
                final(self)@ == e && r == found
            }),
    {
        while self.cycles < max_cycles && !self.cpu.halted
            invariant
                self.wf(),
                spec_run_serial(old(self)@, needle@, max_cycles) == spec_run_serial(
                    self@,
                    needle@,
                    max_cycles,
                ),
            decreases run_measure(self.cycles, max_cycles),
        {
            let ghost pre = self@;
            self.step();
            proof {
                lemma_emu_step_measure(pre, max_cycles);
            }
            let out = self.bus.get_serial_output();
            if contains_str(out.as_str(), needle) {
                return true;
            }
        }
        false
    }

    /// The serial log as a string, one character per captured byte.
    pub fn get_serial_output(&self) -> (r: String)
        ensures
            r@ == bytes_as_chars(self@.bus.serial),
    {
        self.bus.get_serial_output()
    }

    /// Whether the serial output reports a passed test.
    pub fn test_passed(&self) -> (r: bool)
        ensures
            r == (spec_contains(bytes_as_chars(self@.bus.serial), "Passed"@) || spec_contains(
                bytes_as_chars(self@.bus.serial),
                "passed"@,
            )),
    {
        let output = self.get_serial_output();
        contains_str(output.as_str(), "Passed") || contains_str(output.as_str(), "passed")
    }

    /// Whether the serial output reports a failed test.
    pub fn test_failed(&self) -> (r: bool)
        ensures
            r == (spec_contains(bytes_as_chars(self@.bus.serial), "Failed"@) || spec_contains(
                bytes_as_chars(self@.bus.serial),
                "failed"@,
            )),
    {
        let output = self.get_serial_output();
        contains_str(output.as_str(), "Failed") || contains_str(output.as_str(), "failed")
    }
}

/// Whether `needle` occurs as a contiguous run of `hay`, by direct
/// search.
pub fn contains_str(hay: &str, needle: &str) -> (r: bool)
    ensures
        r == spec_contains(hay@, needle@),
{
    let hay_len = hay.unicode_len();
    let needle_len = needle.unicode_len();
    if needle_len > hay_len {
        return false;
    }

    let mut start: usize = 0;
    while start <= hay_len - needle_len
        invariant
            needle_len == needle@.len(),
            hay_len == hay@.len(),
            needle_len <= hay_len,
            start <= hay_len - needle_len + 1,
            forall|i: int|
                0 <= i < start ==> #[trigger] hay@.subrange(i, i + needle@.len()) != needle@,
        decreases hay_len + 1 - needle_len - start,
    {
        let mut j: usize = 0;
        while j < needle_len && hay.get_char(start + j) == needle.get_char(j)
            invariant
                needle_len == needle@.len(),
                hay_len == hay@.len(),
                needle_len <= hay_len,
                start <= hay_len - needle_len,
                j <= needle_len,
                forall|k: int| 0 <= k < j ==> hay@[start + k] == needle@[k],
            decreases needle_len - j,
        {
            j = j + 1;
        }
        if j == needle_len {
            proof {
                assert(hay@.subrange(start as int, start + needle@.len()) =~= needle@);
            }
            return true;
        }
        proof {
            assert(hay@.subrange(start as int, start + needle@.len()) != needle@) by {
                assert(hay@.subrange(start as int, start + needle@.len())[j as int] != needle@[
                    j as int
                ]);
            }
        }
        start = start + 1;
    }
    proof {
        assert forall|i: int|
            0 <= i <= hay@.len() - needle@.len() implies #[trigger] hay@.subrange(
            i,
            i + needle@.len(),
        ) != needle@ by {}
    }
    false
}

} // verus!
