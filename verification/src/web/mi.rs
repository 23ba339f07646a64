//! Memory Interface (MI) registers.
//!
//! | Offset | Width | Name             | Description                     |
//! |--------|-------|------------------|---------------------------------|
//! | 0x10   | 16    | MemoryProtection | Protection enable bits          |
//! | 0x1C   | 16    | MemoryIntMask    | Interrupt enable mask           |
//! | 0x20   | 16    | MemoryInterrupt  | Interrupt status, write 1 clears|

use vstd::prelude::*;

verus! {

/// Address of the first MI register.
pub const MI_BASE: u32 = 0xCC00_4000;

/// Bytes covered by the MI registers.
pub const MI_SIZE: u32 = 0x40;

/// The Memory Interface registers.
#[derive(Clone, Copy, Debug, PartialEq, Eq, Structural)]
pub struct MiState {
    /// Memory-range protection control.
    pub protection: u16,
    /// Interrupt enable mask.
    pub int_mask: u16,
    /// Interrupt status.
    pub interrupt: u16,
}

impl MiState {
    /// Value of the register at `offset`.
    pub open spec fn reg(self, offset: u32) -> u16 {
        if offset == 0x10 {
            self.protection
        } else if offset == 0x1C {
            self.int_mask
        } else if offset == 0x20 {
            self.interrupt
        } else {
            0
        }
    }

    /// The registers after `val` was written at `offset`.
    pub open spec fn written(self, offset: u32, val: u16) -> MiState {
        if offset == 0x10 {
            MiState { protection: val, ..self }
        } else if offset == 0x1C {
            MiState { int_mask: val, ..self }
        } else if offset == 0x20 {
            MiState { interrupt: self.interrupt & !val, ..self }
        } else {
            self
        }
    }

    /// Reads the halfword register at `offset`.
    pub fn read_u16(&self, offset: u32) -> (val: u16)
        ensures
            val == self.reg(offset),
    {
        match offset {
            0x10 => self.protection,
            0x1C => self.int_mask,
            0x20 => self.interrupt,
            _ => 0,
        }
    }

    /// Writes the halfword register at `offset`.
    pub fn write_u16(&mut self, offset: u32, val: u16)
        ensures
            *final(self) == old(self).written(offset, val),
    {
        match offset {
            0x10 => self.protection = val,
            0x1C => self.int_mask = val,
            0x20 => self.interrupt = self.interrupt & !val,
            _ => {},
        }
    }
}

impl Default for MiState {
    /// All registers zero.
    fn default() -> (mi: Self)
        ensures
            mi == (MiState { protection: 0, int_mask: 0, interrupt: 0 }),
    {
        MiState { protection: 0, int_mask: 0, interrupt: 0 }
    }
}

/// A status bit that is written with 1 reads 0, and the others keep their value.
pub proof fn mi_status_clears(mi: MiState, val: u16)
    ensures
        mi.written(0x20, val).reg(0x20) & val == 0,
        mi.written(0x20, val).reg(0x20) & !val == mi.reg(0x20) & !val,
{
    let i = mi.interrupt;
    assert((i & !val) & val == 0 && (i & !val) & !val == i & !val) by (bit_vector);
}

} // verus!
