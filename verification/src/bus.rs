//! The memory bus: a 16-bit address space routed to backing stores.
//!
//! Every address resolves to exactly one store:
//!
//! | range             | store                                   |
//! |-------------------|-----------------------------------------|
//! | `0x0000..=0x7FFF` | ROM (writes ignored)                    |
//! | `0x8000..=0x9FFF` | VRAM                                    |
//! | `0xA000..=0xBFFF` | external RAM                            |
//! | `0xC000..=0xDFFF` | WRAM                                    |
//! | `0xE000..=0xFDFF` | WRAM mirror (echo RAM, `addr - 0x2000`) |
//! | `0xFE00..=0xFE9F` | OAM                                     |
//! | `0xFEA0..=0xFEFF` | unusable: reads `0xFF`, writes ignored  |
//! | `0xFF00..=0xFF7F` | I/O registers, with quirks              |
//! | `0xFF80..=0xFFFE` | HRAM                                    |
//! | `0xFFFF`          | IE                                      |
//!
//! The spec-level view `BusView` mirrors the stores as sequences; the
//! functions `spec_read` and `spec_write` define the decode once, and
//! every executable operation is proved against them.

use vstd::prelude::*;

use crate::timer::Timer;
use crate::timer::spec_div;
use crate::timer::spec_reset_div;
use crate::timer::spec_tick;
use crate::timer::spec_write_tac;
use crate::cpu::registers::high_byte;
use crate::cpu::registers::lemma_pair_bytes;
use crate::cpu::registers::lemma_u16_split;
use crate::cpu::registers::low_byte;
use crate::cpu::registers::pair;

verus! {

/// Spec-level view of the bus: each store as a sequence of bytes,
/// plus the IE byte, the serial log and the timer.
#[verifier::ext_equal]
pub struct BusView {
    /// Cartridge ROM, 32 KiB.
    pub rom: Seq<u8>,
    /// Video RAM, 8 KiB.
    pub vram: Seq<u8>,
    /// External (cartridge) RAM, 8 KiB.
    pub external_ram: Seq<u8>,
    /// Work RAM, 8 KiB.
    pub wram: Seq<u8>,
    /// High RAM, 127 bytes.
    pub hram: Seq<u8>,
    /// I/O register file, 128 bytes.
    pub io: Seq<u8>,
    /// Object attribute memory, 160 bytes.
    pub oam: Seq<u8>,
    /// Interrupt enable register (`0xFFFF`).
    pub ie: u8,
    /// Serial output log: every byte captured from SB.
    pub serial: Seq<u8>,
    /// The embedded timer.
    pub timer: Timer,
}

impl BusView {
    /// Every store has its hardware size.
    pub open spec fn wf(self) -> bool {
        &&& self.rom.len() == 0x8000
        &&& self.vram.len() == 0x2000
        &&& self.external_ram.len() == 0x2000
        &&& self.wram.len() == 0x2000
        &&& self.hram.len() == 0x7F
        &&& self.io.len() == 0x80
        &&& self.oam.len() == 0xA0
    }

    /// The byte an I/O register read returns.
    ///
    /// Quirks: the joypad stub reads `0xFF`; `0xFF04..=0xFF07` come
    /// from the timer, TAC with its upper five bits high; IF reads
    /// with its upper three bits high.
    pub open spec fn spec_read_io(self, addr: u16) -> u8 {
        if addr == 0xFF00 {
            0xFF
        } else if addr == 0xFF04 {
            spec_div(self.timer)
        } else if addr == 0xFF05 {
            self.timer.tima
        } else if addr == 0xFF06 {
            self.timer.tma
        } else if addr == 0xFF07 {
            self.timer.tac | 0xF8
        } else if addr == 0xFF0F {
            self.io[addr - 0xFF00] | 0xE0
        } else {
            self.io[addr - 0xFF00]
        }
    }

    /// The byte a bus read returns, for every address.
    pub open spec fn spec_read(self, addr: u16) -> u8 {
        if addr < 0x8000 {
            self.rom[addr as int]
        } else if addr < 0xA000 {
            self.vram[addr - 0x8000]
        } else if addr < 0xC000 {
            self.external_ram[addr - 0xA000]
        } else if addr < 0xE000 {
            self.wram[addr - 0xC000]
        } else if addr < 0xFE00 {
            self.wram[addr - 0xE000]
        } else if addr < 0xFEA0 {
            self.oam[addr - 0xFE00]
        } else if addr < 0xFF00 {
            0xFF
        } else if addr < 0xFF80 {
            self.spec_read_io(addr)
        } else if addr < 0xFFFF {
            self.hram[addr - 0xFF80]
        } else {
            self.ie
        }
    }

    /// The bus after an I/O register write.
    ///
    /// Quirks: writing `0x81` to SC (`0xFF02`) appends the SB byte
    /// (`0xFF01`) to the serial log; `0xFF04..=0xFF07` go to the
    /// timer, DIV and TAC with the falling-edge check; IF stores only
    /// its low five bits.
    pub open spec fn spec_write_io(self, addr: u16, value: u8) -> BusView {
        if addr == 0xFF02 {
            BusView {
                io: self.io.update(0x02, value),
                serial: if value == 0x81 {
                    self.serial.push(self.io[0x01])
                } else {
                    self.serial
                },
                ..self
            }
        } else if addr == 0xFF04 {
            BusView { timer: spec_reset_div(self.timer), ..self }
        } else if addr == 0xFF05 {
            BusView { timer: Timer { tima: value, ..self.timer }, ..self }
        } else if addr == 0xFF06 {
            BusView { timer: Timer { tma: value, ..self.timer }, ..self }
        } else if addr == 0xFF07 {
            BusView { timer: spec_write_tac(self.timer, value), ..self }
        } else if addr == 0xFF0F {
            BusView { io: self.io.update(0x0F, value & 0x1F), ..self }
        } else {
            BusView { io: self.io.update(addr - 0xFF00, value), ..self }
        }
    }

    /// The bus after a write, for every address.  ROM and the
    /// unusable area ignore writes; echo RAM writes land in WRAM.
    pub open spec fn spec_write(self, addr: u16, value: u8) -> BusView {
        if addr < 0x8000 {
            self
        } else if addr < 0xA000 {
            BusView { vram: self.vram.update(addr - 0x8000, value), ..self }
        } else if addr < 0xC000 {
            BusView { external_ram: self.external_ram.update(addr - 0xA000, value), ..self }
        } else if addr < 0xE000 {
            BusView { wram: self.wram.update(addr - 0xC000, value), ..self }
        } else if addr < 0xFE00 {
            BusView { wram: self.wram.update(addr - 0xE000, value), ..self }
        } else if addr < 0xFEA0 {
            BusView { oam: self.oam.update(addr - 0xFE00, value), ..self }
        } else if addr < 0xFF00 {
            self
        } else if addr < 0xFF80 {
            self.spec_write_io(addr, value)
        } else if addr < 0xFFFF {
            BusView { hram: self.hram.update(addr - 0xFF80, value), ..self }
        } else {
            BusView { ie: value, ..self }
        }
    }

    /// The 16-bit little-endian value read at `addr`: low byte at
    /// `addr`, high byte at `addr + 1` (wrapping).
    pub open spec fn spec_read16(self, addr: u16) -> u16 {
        pair(self.spec_read(wrap_inc(addr)), self.spec_read(addr))
    }

    /// The bus after a 16-bit little-endian write: low byte to
    /// `addr`, then high byte to `addr + 1` (wrapping).
    pub open spec fn spec_write16(self, addr: u16, value: u16) -> BusView {
        self.spec_write(addr, low_byte(value)).spec_write(wrap_inc(addr), high_byte(value))
    }

    /// The bus after the timer has run `cycles` T-cycles: a raised
    /// timer interrupt request is drained into IF bit 2.
    pub open spec fn spec_bus_tick(self, cycles: nat) -> BusView {
        let ticked = spec_tick(self.timer, cycles);
        if ticked.interrupt_requested {
            BusView {
                timer: Timer { interrupt_requested: false, ..ticked },
                io: self.io.update(0x0F, self.io[0x0F] | 0x04),
                ..self
            }
        } else {
            BusView { timer: ticked, ..self }
        }
    }

    /// The bus after loading a ROM image: bytes copy from the start
    /// of `data`, up to the 32 KiB ROM size; excess bytes are
    /// ignored, and the tail keeps its old contents when `data` is
    /// short.
    pub open spec fn spec_load_rom(self, data: Seq<u8>) -> BusView {
        BusView {
            rom: Seq::new(
                self.rom.len(),
                |i: int|
                    if i < data.len() {
                        data[i]
                    } else {
                        self.rom[i]
                    },
            ),
            ..self
        }
    }
}

/// `addr + 1` wrapping at the end of the address space.
pub open spec fn wrap_inc(addr: u16) -> u16 {
    if addr == 0xFFFF {
        0
    } else {
        (addr + 1) as u16
    }
}

/// An address whose cell stores written bytes unchanged and returns
/// them unchanged: the RAM-backed regions, HRAM and IE.  ROM, the
/// unusable area and the quirky I/O registers are excluded.
pub open spec fn plain_ram_addr(addr: u16) -> bool {
    (0x8000 <= addr < 0xFEA0) || 0xFF80 <= addr
}

/// The memory bus.
pub struct Bus {
    /// Cartridge ROM (32 KiB, ROM-only cartridges).
    rom: Vec<u8>,
    /// Video RAM (8 KiB).
    vram: Vec<u8>,
    /// External cartridge RAM (8 KiB).
    external_ram: Vec<u8>,
    /// Work RAM (8 KiB).
    wram: Vec<u8>,
    /// High RAM (127 bytes).
    hram: Vec<u8>,
    /// I/O registers (128 bytes, `0xFF00..=0xFF7F`).
    io: Vec<u8>,
    /// Object attribute memory (160 bytes).
    oam: Vec<u8>,
    /// Interrupt enable register (`0xFFFF`).
    ie: u8,
    /// Serial output log (for test ROMs).
    pub serial_output: Vec<u8>,
    /// The timer.
    pub timer: Timer,
}

impl View for Bus {
    type V = BusView;

    closed spec fn view(&self) -> BusView {
        BusView {
            rom: self.rom@,
            vram: self.vram@,
            external_ram: self.external_ram@,
            wram: self.wram@,
            hram: self.hram@,
            io: self.io@,
            oam: self.oam@,
            ie: self.ie,
            serial: self.serial_output@,
            timer: self.timer,
        }
    }
}

/// The power-on bus: every store zeroed, the serial log empty, the
/// timer at its post-boot state.
pub open spec fn spec_boot_bus() -> BusView {
    BusView {
        rom: Seq::new(0x8000, |i: int| 0u8),
        vram: Seq::new(0x2000, |i: int| 0u8),
        external_ram: Seq::new(0x2000, |i: int| 0u8),
        wram: Seq::new(0x2000, |i: int| 0u8),
        hram: Seq::new(0x7F, |i: int| 0u8),
        io: Seq::new(0x80, |i: int| 0u8),
        oam: Seq::new(0xA0, |i: int| 0u8),
        ie: 0,
        serial: Seq::empty(),
        timer: Timer { internal_counter: 0xABCC, tima: 0, tma: 0, tac: 0, interrupt_requested: false },
    }
}

impl Bus {
    /// Every store has its hardware size.
    pub open spec fn wf(&self) -> bool {
        self@.wf()
    }

    /// The power-on bus.
    pub fn new() -> (r: Bus)
        ensures
            r.wf(),
            r@ == spec_boot_bus(),
    {
        let r = Bus {
            rom: vec![0u8; 0x8000],
            vram: vec![0u8; 0x2000],
            external_ram: vec![0u8; 0x2000],
            wram: vec![0u8; 0x2000],
            hram: vec![0u8; 0x7F],
            io: vec![0u8; 0x80],
            oam: vec![0u8; 0xA0],
            ie: 0,
            serial_output: Vec::new(),
            timer: Timer::new(),
        };
        proof {
            assert(r@.rom =~= spec_boot_bus().rom);
            assert(r@.vram =~= spec_boot_bus().vram);
            assert(r@.external_ram =~= spec_boot_bus().external_ram);
            assert(r@.wram =~= spec_boot_bus().wram);
            assert(r@.hram =~= spec_boot_bus().hram);
            assert(r@.io =~= spec_boot_bus().io);
            assert(r@.oam =~= spec_boot_bus().oam);
            assert(r@.serial =~= spec_boot_bus().serial);
            assert(r@ =~= spec_boot_bus());
        }
        r
    }

    /// Update the timer by `cycles` T-cycles and drain a raised timer
    /// interrupt request into IF bit 2.
    pub fn tick(&mut self, cycles: u32)
        requires
            old(self).wf(),
        ensures
            final(self).wf(),
            final(self)@ == old(self)@.spec_bus_tick(cycles as nat),
    {
        self.timer.tick(cycles);

        if self.timer.take_interrupt() {
            let cur = self.io[0x0F];
            self.io.set(0x0F, cur | 0x04);
        }
    }

    /// Load a ROM image: copy up to the 32 KiB ROM size, ignoring
    /// excess bytes.
    pub fn load_rom(&mut self, data: &[u8])
        requires
            old(self).wf(),
        ensures
            final(self).wf(),
            final(self)@ == old(self)@.spec_load_rom(data@),
    {
        let n: usize = if data.len() < self.rom.len() {
            data.len()
        } else {
            self.rom.len()
        };
        let ghost orig = self@;
        let mut k: usize = 0;
        while k < n
            invariant
                k <= n,
                n <= data@.len(),
                n == vstd::math::min(data@.len() as int, 0x8000),
                self.rom@.len() == orig.rom.len() == 0x8000,
                forall|i: int| 0 <= i < k ==> self.rom@[i] == data@[i],
                forall|i: int| k <= i < 0x8000 ==> self.rom@[i] == orig.rom[i],
                *self == (Bus { rom: self.rom, ..*old(self) }),
            decreases n - k,
        {
            let b: u8 = data[k];
            self.rom.set(k, b);
            k = k + 1;
        }
        proof {
            assert(self@.rom =~= orig.spec_load_rom(data@).rom);
            assert(self@ =~= orig.spec_load_rom(data@));
        }
    }

    /// Read a byte; every address is defined.
    pub fn read(&self, addr: u16) -> (r: u8)
        requires
            self.wf(),
        ensures
            r == self@.spec_read(addr),
    {
        if addr < 0x8000 {
            self.rom[addr as usize]
        } else if addr < 0xA000 {
            self.vram[(addr - 0x8000) as usize]
        } else if addr < 0xC000 {
            self.external_ram[(addr - 0xA000) as usize]
        } else if addr < 0xE000 {
            self.wram[(addr - 0xC000) as usize]
        } else if addr < 0xFE00 {
            self.wram[(addr - 0xE000) as usize]
        } else if addr < 0xFEA0 {
            self.oam[(addr - 0xFE00) as usize]
        } else if addr < 0xFF00 {
            0xFF
        } else if addr < 0xFF80 {
            self.read_io(addr)
        } else if addr < 0xFFFF {
            self.hram[(addr - 0xFF80) as usize]
        } else {
            self.ie
        }
    }

    /// Write a byte; every address is defined.  ROM and the unusable
    /// area ignore the write.
    pub fn write(&mut self, addr: u16, value: u8)
        requires
            old(self).wf(),
        ensures
            final(self).wf(),
            final(self)@ == old(self)@.spec_write(addr, value),
    {
        if addr < 0x8000 {
            // ROM is read-only; the MBC control stub ignores the write.
        } else if addr < 0xA000 {
            self.vram.set((addr - 0x8000) as usize, value);
        } else if addr < 0xC000 {
            self.external_ram.set((addr - 0xA000) as usize, value);
        } else if addr < 0xE000 {
            self.wram.set((addr - 0xC000) as usize, value);
        } else if addr < 0xFE00 {
            self.wram.set((addr - 0xE000) as usize, value);
        } else if addr < 0xFEA0 {
            self.oam.set((addr - 0xFE00) as usize, value);
        } else if addr < 0xFF00 {
            // Unusable area; the write is ignored.
        } else if addr < 0xFF80 {
            self.write_io(addr, value);
        } else if addr < 0xFFFF {
            self.hram.set((addr - 0xFF80) as usize, value);
        } else {
            self.ie = value;
        }
    }

    /// Read an I/O register, with the register quirks.
    fn read_io(&self, addr: u16) -> (r: u8)
        requires
            self.wf(),
            0xFF00 <= addr < 0xFF80,
        ensures
            r == self@.spec_read_io(addr),
    {
        if addr == 0xFF00 {
            // Joypad stub: no buttons pressed.
            0xFF
        } else if addr == 0xFF04 {
            self.timer.div()
        } else if addr == 0xFF05 {
            self.timer.tima
        } else if addr == 0xFF06 {
            self.timer.tma
        } else if addr == 0xFF07 {
            // The upper five bits of TAC float high.
            self.timer.tac | 0xF8
        } else if addr == 0xFF0F {
            // The upper three bits of IF float high.
            self.io[(addr - 0xFF00) as usize] | 0xE0
        } else {
            self.io[(addr - 0xFF00) as usize]
        }
    }

    /// Write an I/O register, with the register quirks.
    fn write_io(&mut self, addr: u16, value: u8)
        requires
            old(self).wf(),
            0xFF00 <= addr < 0xFF80,
        ensures
            final(self).wf(),
            final(self)@ == old(self)@.spec_write_io(addr, value),
    {
        if addr == 0xFF02 {
            // Serial control: a write of 0x81 captures the SB byte.
            self.io.set(0x02, value);
            if value == 0x81 {
                let sb: u8 = self.io[0x01];
                self.serial_output.push(sb);
            }
        } else if addr == 0xFF04 {
            self.timer.reset_div();
        } else if addr == 0xFF05 {
            self.timer.tima = value;
        } else if addr == 0xFF06 {
            self.timer.tma = value;
        } else if addr == 0xFF07 {
            self.timer.write_tac(value);
        } else if addr == 0xFF0F {
            // Only the low five bits of IF are stored.
            self.io.set(0x0F, value & 0x1F);
        } else {
            self.io.set((addr - 0xFF00) as usize, value);
        }
    }

    /// Read a 16-bit value, little-endian.
    pub fn read16(&self, addr: u16) -> (r: u16)
        requires
            self.wf(),
        ensures
            r == self@.spec_read16(addr),
    {
        let lo: u8 = self.read(addr);
        let hi: u8 = self.read(addr.wrapping_add(1));
        proof {
            lemma_pair_bytes(hi, lo);
        }
        ((hi as u16) << 8) | (lo as u16)
    }

    /// Write a 16-bit value, little-endian: low byte first.
    pub fn write16(&mut self, addr: u16, value: u16)
        requires
            old(self).wf(),
        ensures
            final(self).wf(),
            final(self)@ == old(self)@.spec_write16(addr, value),
    {
        proof {
            lemma_u16_split(value);
        }
        self.write(addr, (value & 0xFF) as u8);
        self.write(addr.wrapping_add(1), (value >> 8) as u8);
    }

    /// The serial log as a string, one character per captured byte.
    pub fn get_serial_output(&self) -> (r: String)
        ensures
            r@ == bytes_as_chars(self@.serial),
    {
        bytes_to_string(&self.serial_output)
    }
}

impl Default for Bus {
    /// The power-on bus, as `Bus::new` returns it.
    fn default() -> (r: Bus)
        ensures
            r.wf(),
            r@ == spec_boot_bus(),
    {
        Bus::new()
    }
}

/// Each byte read as the character with the same code point.
pub open spec fn bytes_as_chars(s: Seq<u8>) -> Seq<char> {
    s.map(|i: int, b: u8| b as char)
}

/// Build the string whose characters are the given bytes, in order.
pub fn bytes_to_string(bytes: &Vec<u8>) -> (r: String)
    ensures
        r@ == bytes_as_chars(bytes@),
{
    let mut r = String::new();
    let mut k: usize = 0;
    while k < bytes.len()
        invariant
            k <= bytes@.len(),
            r@ == bytes_as_chars(bytes@.subrange(0, k as int)),
        decreases bytes@.len() - k,
    {
        let b: u8 = bytes[k];
        push_char(&mut r, b as char);
        k = k + 1;
        proof {
            assert(r@ =~= bytes_as_chars(bytes@.subrange(0, k as int)));
        }
    }
    proof {
        assert(bytes@.subrange(0, bytes@.len() as int) =~= bytes@);
    }
    r
}

/// Relies on `String::push`: appends exactly the one character.
#[verifier::external_body]
pub(crate) fn push_char(s: &mut String, c: char)
    ensures
        final(s)@ == old(s)@.push(c),
{
    s.push(c)
}

/// Echo-RAM mirror: after a write anywhere in `0xC000..=0xDDFF`, the
/// written address and its echo at `+ 0x2000` read the same byte.
pub proof fn lemma_echo_ram_mirror(m: BusView, w: u16, value: u8)
    requires
        m.wf(),
        0xC000 <= w <= 0xDDFF,
    ensures
        m.spec_write(w, value).spec_read(w) == m.spec_write(w, value).spec_read((w + 0x2000) as u16),
{
}

/// The unusable area reads `0xFF` on every bus, so no prior write can
/// change it.
pub proof fn lemma_unusable_reads_ff(m: BusView, addr: u16)
    requires
        0xFEA0 <= addr <= 0xFEFF,
    ensures
        m.spec_read(addr) == 0xFF,
{
}

/// Reading TAC returns the last written value with the upper five
/// bits high.
pub proof fn lemma_tac_read_back(m: BusView, value: u8)
    requires
        m.wf(),
    ensures
        m.spec_write(0xFF07, value).spec_read(0xFF07) == value | 0xF8,
{
}

/// Reading IF returns the stored low five bits with the upper three
/// bits high.
pub proof fn lemma_if_read_back(m: BusView, value: u8)
    requires
        m.wf(),
    ensures
        m.spec_write(0xFF0F, value).spec_read(0xFF0F) == (value & 0x1F) | 0xE0,
{
}

/// Any write to DIV (`0xFF04`) resets it: the next read returns 0.
pub proof fn lemma_div_write_resets(m: BusView, value: u8)
    requires
        m.wf(),
    ensures
        m.spec_write(0xFF04, value).spec_read(0xFF04) == 0,
{
}

/// A plain-RAM cell stores a written byte and returns it unchanged.
pub proof fn lemma_plain_ram_read_back(m: BusView, addr: u16, value: u8)
    requires
        m.wf(),
        plain_ram_addr(addr),
    ensures
        m.spec_write(addr, value).spec_read(addr) == value,
        m.spec_write(addr, value).wf(),
{
}

/// A write to one plain-RAM address does not change the byte read at
/// another, unless the two alias the same WRAM cell through the echo
/// mirror.
pub proof fn lemma_plain_ram_frame(m: BusView, addr: u16, other: u16, value: u8)
    requires
        m.wf(),
        plain_ram_addr(addr),
        addr != other,
        !(0xC000 <= addr < 0xFE00 && 0xC000 <= other < 0xFE00 && (addr + 0x2000 == other || other
            + 0x2000 == addr)),
    ensures
        m.spec_write(addr, value).spec_read(other) == m.spec_read(other),
{
}

/// 16-bit round trip: after `write16(addr, v)` to plain RAM, `addr`
/// reads the low byte of `v` and `addr + 1` the high byte.  This
/// fails outside plain RAM — a 16-bit write to `0x0000` lands in ROM
/// and is ignored — so those addresses are excluded.
pub proof fn lemma_write16_read_back(m: BusView, addr: u16, value: u16)
    requires
        m.wf(),
        addr < 0xFFFF,
        plain_ram_addr(addr),
        plain_ram_addr((addr + 1) as u16),
    ensures
        m.spec_write16(addr, value).spec_read(addr) == low_byte(value),
        m.spec_write16(addr, value).spec_read((addr + 1) as u16) == high_byte(value),
        m.spec_write16(addr, value).spec_read16(addr) == value,
{
    let m1 = m.spec_write(addr, low_byte(value));
    lemma_plain_ram_read_back(m, addr, low_byte(value));
    lemma_plain_ram_read_back(m1, (addr + 1) as u16, high_byte(value));
    lemma_plain_ram_frame(m1, (addr + 1) as u16, addr, high_byte(value));
    crate::cpu::registers::lemma_pair_round_trip(value);
}

} // verus!
