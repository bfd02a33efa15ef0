//! What the command line of the host asks for.

use vstd::prelude::*;
use crate::cartridge::CartridgeError;

verus! {

/// The exit status after a normal run.
pub const EXIT_OK: i32 = 0;
/// The exit status when the ROM could not be loaded.
pub const EXIT_LOAD_ERROR: i32 = 1;
/// The exit status when the cartridge has a model that is not supported.
pub const EXIT_UNSUPPORTED_MODEL: i32 = 2;

/// The exit status for an image that cannot be used as a cartridge: an
/// image that is no ROM counts as not loaded, an image with a model that
/// is not supported has a status of its own.
pub fn cartridge_exit_code(error: CartridgeError) -> (code: i32)
    ensures
        code == (match error {
            CartridgeError::BadImage => EXIT_LOAD_ERROR,
            CartridgeError::UnsupportedModel(_) => EXIT_UNSUPPORTED_MODEL,
        }),
{
    match error {
        CartridgeError::BadImage => EXIT_LOAD_ERROR,
        CartridgeError::UnsupportedModel(_) => EXIT_UNSUPPORTED_MODEL,
    }
}

/// The settings of a run.
pub struct Config {
    /// Whether the emulator runs without a presentation layer.
    pub is_headless: bool,
    /// Whether the emulator runs under the debugger.
    pub is_debug: bool,
    /// The path of the ROM.
    pub rom_name: String,
}

impl Config {
    /// The settings for a command line on which `--headless` occurs
    /// `headless` times, `--debug` occurs `debug` times, and the ROM is
    /// `rom_name`. A flag counts if it occurs at all.
    pub fn from_counts(headless: u64, debug: u64, rom_name: String) -> (c: Config)
        ensures
            c.is_headless == (headless > 0),
            c.is_debug == (debug > 0),
            c.rom_name == rom_name,
    {
        Config { is_headless: headless > 0, is_debug: debug > 0, rom_name }
    }
}

} // verus!
