//! A verified interpreter core for the classic 64x32 monochrome 8-bit
//! virtual machine: memory, register file, stack, timers, keypad state,
//! and the full fetch/decode/execute instruction cycle.

use vstd::prelude::*;

pub mod decode;
pub mod emulator;
pub mod font;
pub mod laws;
mod rng;
pub mod semantics;
pub mod state;

pub use crate::emulator::Emulator;
pub use crate::state::Chip8Error;

verus! {

/// Width of the framebuffer in pixels.
pub const SCREEN_WIDTH: usize = 64;

/// Height of the framebuffer in pixels.
pub const SCREEN_HEIGHT: usize = 32;

/// Bytes of addressable memory.
pub const RAM_SIZE: usize = 4096;

/// Base address at which program images are loaded and execution starts.
pub const START_ADDRESS: u16 = 0x200;

} // verus!
