//! The emulated console: hardware registers and the emulator around them.

pub mod ai;
pub mod audio;
pub mod cache;
pub mod di;
pub mod disc;
pub mod dsp;
pub mod emulator;
pub mod exi;
pub mod gx;
pub mod gx_commands;
pub mod gx_fifo;
pub mod hw;
pub mod jit;
pub mod loader;
pub mod memcard;
pub mod mi;
pub mod pi;
pub mod registers;
pub mod si;
pub mod signals;
pub mod state;
pub mod vi;
pub mod xfb;
