//! DVD Interface (DI) registers.
//!
//! | Offset | Name      | Description                                     |
//! |--------|-----------|-------------------------------------------------|
//! | 0x00   | DISTATUS  | Status and interrupt flags (TCINT is bit 1)     |
//! | 0x04   | DICOVER   | Lid state (bit 2 = closed = disc present)       |
//! | 0x08   | DICMDBUF0 | Command word (command byte in bits 31 to 24)    |
//! | 0x0C   | DICMDBUF1 | Disc address of the read command, in words      |
//! | 0x10   | DICMDBUF2 | Second command parameter                        |
//! | 0x14   | DIMAR     | DMA destination in main memory                  |
//! | 0x18   | DILENGTH  | DMA length in bytes                             |
//! | 0x1C   | DICR      | Control (bit 0 = TSTART, begins the transfer)   |
//! | 0x20   | DIIMMBUF  | Immediate data                                  |
//! | 0x24   | DICFG     | Configuration                                   |

use vstd::prelude::*;

verus! {

/// Address of the first DI register.
pub const DI_BASE: u32 = 0xCC00_6000;

/// Bytes covered by the DI registers.
pub const DI_SIZE: u32 = 0x28;

/// The interrupt flags of DISTATUS, which are cleared by writing 1.
pub const DI_STATUS_W1C: u32 = 0x0000_000E;

/// The DVD Interface registers.
#[derive(Clone, Copy, Debug, PartialEq, Eq, Structural)]
pub struct DiState {
    /// DISTATUS.
    pub status: u32,
    /// DICOVER.
    pub cover: u32,
    /// DICMDBUF0.
    pub cmd_buf0: u32,
    /// DICMDBUF1: the byte offset on disc divided by 4.
    pub cmd_buf1: u32,
    /// DICMDBUF2.
    pub cmd_buf2: u32,
    /// DIMAR.
    pub dma_addr: u32,
    /// DILENGTH.
    pub dma_len: u32,
    /// DICR.
    pub control: u32,
    /// DIIMMBUF.
    pub imm_buf: u32,
    /// DICFG.
    pub config: u32,
}

impl DiState {
    /// Value of the register at `offset`.
    pub open spec fn reg(self, offset: u32) -> u32 {
        match offset {
            0x00 => self.status,
            0x04 => self.cover,
            0x08 => self.cmd_buf0,
            0x0C => self.cmd_buf1,
            0x10 => self.cmd_buf2,
            0x14 => self.dma_addr,
            0x18 => self.dma_len,
            0x1C => self.control,
            0x20 => self.imm_buf,
            0x24 => self.config,
            _ => 0,
        }
    }

    /// The registers after `val` was written at `offset`. The interrupt flags of
    /// DISTATUS are cleared by writing 1; everything else is stored.
    pub open spec fn written(self, offset: u32, val: u32) -> DiState {
        match offset {
            0x00 => DiState {
                status: (self.status & DI_STATUS_W1C & !val) | (val & !DI_STATUS_W1C),
                ..self
            },
            0x04 => DiState { cover: val, ..self },
            0x08 => DiState { cmd_buf0: val, ..self },
            0x0C => DiState { cmd_buf1: val, ..self },
            0x10 => DiState { cmd_buf2: val, ..self },
            0x14 => DiState { dma_addr: val, ..self },
            0x18 => DiState { dma_len: val, ..self },
            0x1C => DiState { control: val, ..self },
            0x20 => DiState { imm_buf: val, ..self },
            0x24 => DiState { config: val, ..self },
            _ => self,
        }
    }

    /// Whether writing `val` at `offset` starts a command.
    pub open spec fn starts(offset: u32, val: u32) -> bool {
        offset == 0x1C && val & 1 != 0
    }

    /// The registers after a command was carried out: the start bit is cleared
    /// and transfer completion is flagged.
    pub open spec fn completed(self) -> DiState {
        DiState { control: self.control & !1u32, status: self.status | 2, ..self }
    }

    /// Reads the register at `offset`.
    pub fn read_reg(&self, offset: u32) -> (val: u32)
        ensures
            val == self.reg(offset),
    {
        match offset {
            0x00 => self.status,
            0x04 => self.cover,
            0x08 => self.cmd_buf0,
            0x0C => self.cmd_buf1,
            0x10 => self.cmd_buf2,
            0x14 => self.dma_addr,
            0x18 => self.dma_len,
            0x1C => self.control,
            0x20 => self.imm_buf,
            0x24 => self.config,
            _ => 0,
        }
    }

    /// Writes the register at `offset`; gives whether a command must be carried
    /// out.
    pub fn write_reg(&mut self, offset: u32, val: u32) -> (start: bool)
        ensures
            *final(self) == old(self).written(offset, val),
            start == DiState::starts(offset, val),
    {
        match offset {
            0x00 => {
                self.status = (self.status & DI_STATUS_W1C & !val) | (val & !DI_STATUS_W1C);
            },
            0x04 => self.cover = val,
            0x08 => self.cmd_buf0 = val,
            0x0C => self.cmd_buf1 = val,
            0x10 => self.cmd_buf2 = val,
            0x14 => self.dma_addr = val,
            0x18 => self.dma_len = val,
            0x1C => {
                self.control = val;
                return val & 1 != 0;
            },
            0x20 => self.imm_buf = val,
            0x24 => self.config = val,
            _ => {},
        }
        false
    }
}

impl Default for DiState {
    /// All registers zero.
    fn default() -> (di: Self)
        ensures
            forall|offset: u32| di.reg(offset) == 0,
    {
        DiState {
            status: 0,
            cover: 0,
            cmd_buf0: 0,
            cmd_buf1: 0,
            cmd_buf2: 0,
            dma_addr: 0,
            dma_len: 0,
            control: 0,
            imm_buf: 0,
            config: 0,
        }
    }
}

/// Every register but DISTATUS reads back what was written to it, and no write
/// changes another register.
pub proof fn di_reads_back(di: DiState, offset: u32, other: u32, val: u32)
    ensures
        offset % 4 == 0 && 0 < offset < DI_SIZE ==> di.written(offset, val).reg(offset) == val,
        other != offset ==> di.written(offset, val).reg(other) == di.reg(other),
{
}

/// Of DISTATUS, a flag that is written with 1 reads 0, a flag written with 0 keeps
/// its value, and every other bit reads as written.
pub proof fn di_status_clears(di: DiState, val: u32)
    ensures
        di.written(0, val).reg(0) & (val & DI_STATUS_W1C) == 0,
        di.written(0, val).reg(0) & (DI_STATUS_W1C & !val) == di.reg(0) & (DI_STATUS_W1C & !val),
        di.written(0, val).reg(0) & !DI_STATUS_W1C == val & !DI_STATUS_W1C,
{
    let s = di.status;
    assert(((s & 0xEu32 & !val) | (val & !0xEu32)) & (val & 0xEu32) == 0 && ((s & 0xEu32 & !val) | (
    val & !0xEu32)) & (0xEu32 & !val) == s & (0xEu32 & !val) && ((s & 0xEu32 & !val) | (val
        & !0xEu32)) & !0xEu32 == val & !0xEu32) by (bit_vector);
}

} // verus!
