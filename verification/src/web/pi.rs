//! Processor Interface (PI): interrupt bits and fixed register values.

use vstd::prelude::*;

verus! {

/// Address of the first PI register.
pub const PI_BASE: u32 = 0xCC00_3000;

/// Bytes covered by the PI registers.
pub const PI_SIZE: u32 = 0x40;

/// Interrupt bit of the DVD Interface.
pub const PI_INT_DI: u32 = 0x0000_0004;

/// Interrupt bit of the Serial Interface.
pub const PI_INT_SI: u32 = 0x0000_0008;

/// Interrupt bit of the Audio Interface.
pub const PI_INT_AI: u32 = 0x0000_0020;

/// Interrupt bit of the DSP Interface.
pub const PI_INT_DSP: u32 = 0x0000_0040;

/// Interrupt bit of the Video Interface.
pub const PI_INT_VI: u32 = 0x0000_0080;

/// Interrupt bit of the pixel engine's token.
pub const PI_INT_PE_TOKEN: u32 = 0x0000_0200;

/// Interrupt bit of the pixel engine's end of drawing.
pub const PI_INT_PE_FINISH: u32 = 0x0000_0400;

/// Value of PI_MEMSIZE: 24 MiB of main memory.
pub const PI_MEMSIZE_VAL: u32 = 0x0180_0000;

/// Value of PI_BUSCLK: the bus clock in Hz.
pub const PI_BUSCLK_VAL: u32 = 162_000_000;

/// Value of PI_CPUCLK: the processor clock in Hz.
pub const PI_CPUCLK_VAL: u32 = 486_000_000;

/// An interrupt register with the bits in `mask` set if `active`, else cleared.
pub open spec fn masked(word: u32, mask: u32, active: bool) -> u32 {
    if active {
        word | mask
    } else {
        word & !mask
    }
}

/// An interrupt register with the bits in `mask` set if `active`, else cleared.
pub fn with_mask(word: u32, mask: u32, active: bool) -> (result: u32)
    ensures
        result == masked(word, mask, active),
{
    if active {
        word | mask
    } else {
        word & !mask
    }
}

} // verus!
