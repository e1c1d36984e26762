//! A verified core of an original Game Boy (DMG) emulator.
//!
//! The crate models the SM83 CPU, the 16-bit memory bus with its
//! memory-map quirks, the falling-edge timer, and the interrupt
//! logic.  Every executable function carries a contract that pins its
//! effect on the machine state down exactly, phrased over spec-level
//! views of the components.

pub mod bus;
pub mod cartridge;
pub mod cpu;
pub mod emulator;
pub mod interrupts;
pub mod timer;
