//! The timer: DIV, TIMA, TMA and TAC.
//!
//! The timer keeps a 16-bit internal counter that advances once per
//! T-cycle; `DIV` is its upper byte.  TIMA increments exactly on a
//! falling edge of `selected counter bit AND timer enabled`, where
//! `TAC[1:0]` selects counter bit 9, 3, 5 or 7 and `TAC[2]` enables
//! the timer.  When TIMA wraps from `0xFF` it reloads from TMA and
//! requests a timer interrupt.  Writing DIV or TAC runs the same
//! falling-edge check across the state change.

use vstd::prelude::*;
use vstd::wrapping::u16_specs;

verus! {

/// Timer state.  Every field combination is meaningful, so the fields
/// are public; the contracts below describe each operation exactly.
#[derive(Debug, Clone, PartialEq, Eq, Structural)]
pub struct Timer {
    /// Internal 16-bit counter; DIV is its upper 8 bits.  It advances
    /// once per T-cycle.
    pub internal_counter: u16,
    /// TIMA, the timer counter (`0xFF05`).
    pub tima: u8,
    /// TMA, the timer modulo (`0xFF06`): the reload value on overflow.
    pub tma: u8,
    /// TAC, the timer control (`0xFF07`): bit 2 enables the timer,
    /// bits 1..0 select the counter bit watched for falling edges.
    pub tac: u8,
    /// One-shot interrupt request, raised on TIMA overflow.
    pub interrupt_requested: bool,
}

/// Whether TAC bit 2 enables the timer.
pub open spec fn spec_timer_enabled(t: Timer) -> bool {
    t.tac & 0x04 != 0
}

/// The counter bit that `TAC[1:0]` selects: 9, 3, 5 or 7.
pub open spec fn spec_timer_bit_pos(tac: u8) -> u16 {
    let sel = tac & 0x03;
    if sel == 0 {
        9
    } else if sel == 1 {
        3
    } else if sel == 2 {
        5
    } else {
        7
    }
}

/// The value of the selected counter bit.
pub open spec fn spec_timer_bit(t: Timer) -> bool {
    t.internal_counter & (1u16 << spec_timer_bit_pos(t.tac)) != 0
}

/// The edge signal whose falling transitions increment TIMA.
pub open spec fn spec_edge(t: Timer) -> bool {
    spec_timer_bit(t) && spec_timer_enabled(t)
}

/// One TIMA increment: on overflow TIMA reloads from TMA and the
/// interrupt request is raised.
pub open spec fn spec_increment_tima(t: Timer) -> Timer {
    if t.tima == 0xFF {
        Timer { tima: t.tma, interrupt_requested: true, ..t }
    } else {
        Timer { tima: (t.tima + 1) as u8, ..t }
    }
}

/// One T-cycle: the counter advances by one (wrapping), and TIMA
/// increments exactly when the edge signal falls.
pub open spec fn spec_tick_once(t: Timer) -> Timer {
    let before = spec_edge(t);
    let stepped = Timer { internal_counter: u16_specs::wrapping_add(t.internal_counter, 1), ..t };
    let after = spec_edge(stepped);
    if before && !after {
        spec_increment_tima(stepped)
    } else {
        stepped
    }
}

/// `n` T-cycles, applied one at a time.
pub open spec fn spec_tick(t: Timer, n: nat) -> Timer
    decreases n,
{
    if n == 0 {
        t
    } else {
        spec_tick_once(spec_tick(t, (n - 1) as nat))
    }
}

/// A DIV write: the counter resets to zero, and TIMA increments when
/// the selected bit was set and the timer is enabled (the bit is
/// necessarily clear afterwards).
pub open spec fn spec_reset_div(t: Timer) -> Timer {
    let before = spec_timer_bit(t);
    let cleared = Timer { internal_counter: 0, ..t };
    let after = spec_timer_bit(cleared);
    if before && !after && spec_timer_enabled(t) {
        spec_increment_tima(cleared)
    } else {
        cleared
    }
}

/// A TAC write: the control byte is replaced, and TIMA increments when
/// the edge signal falls across the change.
pub open spec fn spec_write_tac(t: Timer, value: u8) -> Timer {
    let before = spec_edge(t);
    let changed = Timer { tac: value, ..t };
    let after = spec_edge(changed);
    if before && !after {
        spec_increment_tima(changed)
    } else {
        changed
    }
}

/// The DIV byte: the upper 8 bits of the internal counter.
pub open spec fn spec_div(t: Timer) -> u8 {
    (t.internal_counter / 256) as u8
}

impl Timer {
    /// The post-boot timer: counter at `0xABCC`, registers clear.
    pub fn new() -> (r: Timer)
        ensures
            r == (Timer {
                internal_counter: 0xABCC,
                tima: 0,
                tma: 0,
                tac: 0,
                interrupt_requested: false,
            }),
    {
        Timer { internal_counter: 0xABCC, tima: 0, tma: 0, tac: 0, interrupt_requested: false }
    }

    /// Read DIV, the upper 8 bits of the internal counter.
    pub fn div(&self) -> (r: u8)
        ensures
            r == spec_div(*self),
    {
        proof {
            crate::cpu::registers::lemma_u16_split(self.internal_counter);
        }
        (self.internal_counter >> 8) as u8
    }

    /// Write DIV: any written value resets the internal counter to
    /// zero, with the falling-edge check across the reset.
    pub fn reset_div(&mut self)
        ensures
            *final(self) == spec_reset_div(*old(self)),
    {
        let old_bit = self.get_timer_bit();
        self.internal_counter = 0;
        let new_bit = self.get_timer_bit();

        if old_bit && !new_bit && self.timer_enabled() {
            self.increment_tima();
        }
    }

    /// Whether TAC bit 2 enables the timer.
    fn timer_enabled(&self) -> (r: bool)
        ensures
            r == spec_timer_enabled(*self),
    {
        (self.tac & 0x04) != 0
    }

    /// The value of the counter bit that TAC selects.
    fn get_timer_bit(&self) -> (r: bool)
        ensures
            r == spec_timer_bit(*self),
    {
        let sel = self.tac & 0x03;
        let bit_pos: u16 = if sel == 0 {
            9
        } else if sel == 1 {
            3
        } else if sel == 2 {
            5
        } else {
            7
        };
        (self.internal_counter & (1u16 << bit_pos)) != 0
    }

    /// Increment TIMA; on overflow reload from TMA and raise the
    /// interrupt request.
    fn increment_tima(&mut self)
        ensures
            *final(self) == spec_increment_tima(*old(self)),
    {
        if self.tima == 0xFF {
            self.tima = self.tma;
            self.interrupt_requested = true;
        } else {
            self.tima = self.tima + 1;
        }
    }

    /// Advance the timer by `cycles` T-cycles, one at a time.
    pub fn tick(&mut self, cycles: u32)
        ensures
            *final(self) == spec_tick(*old(self), cycles as nat),
    {
        let mut i: u32 = 0;
        while i < cycles
            invariant
                i <= cycles,
                *self == spec_tick(*old(self), i as nat),
            decreases cycles - i,
        {
            self.tick_one();
            i = i + 1;
        }
    }

    /// One T-cycle: advance the counter and run the falling-edge
    /// check.
    fn tick_one(&mut self)
        ensures
            *final(self) == spec_tick_once(*old(self)),
    {
        let old_bit = self.get_timer_bit() && self.timer_enabled();

        self.internal_counter = self.internal_counter.wrapping_add(1);

        let new_bit = self.get_timer_bit() && self.timer_enabled();

        if old_bit && !new_bit {
            self.increment_tima();
        }
    }

    /// Write TAC, with the falling-edge check across the change.
    pub fn write_tac(&mut self, value: u8)
        ensures
            *final(self) == spec_write_tac(*old(self), value),
    {
        let old_bit = self.get_timer_bit() && self.timer_enabled();
        self.tac = value;
        let new_bit = self.get_timer_bit() && self.timer_enabled();

        if old_bit && !new_bit {
            self.increment_tima();
        }
    }

    /// Take the one-shot interrupt request, clearing it.
    pub fn take_interrupt(&mut self) -> (r: bool)
        ensures
            r == old(self).interrupt_requested,
            *final(self) == (Timer { interrupt_requested: false, ..*old(self) }),
    {
        let requested = self.interrupt_requested;
        self.interrupt_requested = false;
        requested
    }
}

impl Default for Timer {
    /// The post-boot timer, as `Timer::new` returns it.
    fn default() -> (r: Timer)
        ensures
            r == (Timer {
                internal_counter: 0xABCC,
                tima: 0,
                tma: 0,
                tac: 0,
                interrupt_requested: false,
            }),
    {
        Timer::new()
    }
}

/// A DIV write always leaves DIV at zero, whatever was written and
/// whatever the timer state was.
pub proof fn lemma_div_reset_zeroes(t: Timer)
    ensures
        spec_div(spec_reset_div(t)) == 0,
{
}

} // verus!
