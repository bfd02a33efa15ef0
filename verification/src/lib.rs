//! The core of a Game Boy emulator: CPU, memory interconnect, timer,
//! interrupt controller, joypad, picture and sound units, driven by one
//! shared clock counted in machine cycles.
//!
//! A [`Machine`] is made of a [`cartridge::Cartridge`]. Each call of
//! [`Machine::emulate`] executes one instruction and gives the
//! peripherals the machine cycles that it took; [`Machine::run_frame`]
//! does so until the picture unit has drawn a frame. The host feeds keys
//! in through [`io::Interconnect::key_down`] and takes sound samples out
//! through [`io::Interconnect::take_samples`].

pub use crate::config::Config;
pub use crate::gpu::types::Color;
pub use crate::gpu::types::ScreenBuffer;
pub use crate::machine::Machine;

pub mod bits;
pub mod cartridge;
pub mod config;
pub mod cpu;
pub mod debugger;
pub mod gpu;
pub mod io;
pub mod machine;
pub mod sound;
pub mod types;
