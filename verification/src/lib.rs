//! A Game Boy emulator core: CPU registers and instructions, the memory bus,
//! the cartridge, the picture processing unit and their verified contracts.
use vstd::prelude::*;

pub mod apu;
pub mod bits;
pub mod bus;
pub mod cartridge;
pub mod cpu;
pub mod machine;
pub mod ppu;
pub mod serial;
pub mod text;

verus! {
} // verus!
