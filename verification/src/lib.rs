//! Verified core of a GameCube emulator.

pub mod bits;
pub mod boot;
pub mod bytes;
pub mod disasm;
pub mod gekko;
pub mod ppcint;
pub mod ppcir;
pub mod ppcwasm;
pub mod uniform;
pub mod web;
