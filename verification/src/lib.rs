use vstd::prelude::*;

pub mod cpu;
pub mod frame;
pub mod rom_loader;

pub use cpu::Cpu;
pub use rom_loader::{validate_rom, RomLoadError};

verus! {

} // verus!
