//! A Nintendo Entertainment System emulator core.
pub mod bus;
pub mod cartridge;
pub mod cpu;
pub mod ppu;
pub mod util;

pub use crate::bus::{Bus, NesBus, PpuBus};
pub use crate::cartridge::{Cartridge, MirrorMode, Orientation};
pub use crate::cpu::status::Status;
pub use crate::cpu::{Cpu, Registers};
pub use crate::ppu::{Canvas, Ppu};
pub use crate::util::{bit, NesError};
