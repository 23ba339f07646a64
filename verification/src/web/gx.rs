//! Command Processor (CP) and Pixel Engine (PE) registers.
//!
//! | Offset          | Name          | Description                              |
//! |-----------------|---------------|------------------------------------------|
//! | 0x0000          | CP_STATUS     | FIFO status (read-only)                  |
//! | 0x0002          | CP_CONTROL    | FIFO enable bits                         |
//! | 0x0004          | CP_CLEAR      | FIFO clear bits                          |
//! | 0x0020 - 0x003E | CP_FIFO_*     | FIFO words, low half first               |
//! | 0x0030 - 0x0032 | CP_FIFO_COUNT | FIFO token count (read-only)             |
//! | 0x100A          | PE_INT_STATUS | PE interrupt enable and pending bits     |
//! | 0x100E          | PE_TOKEN      | PE token                                 |
//!
//! Writes to read-only registers are accepted and change nothing.
//!
//! Bits of PE_INT_STATUS: 0 token enable, 1 finish enable, 2 token pending and 3
//! finish pending. The pending bits are cleared by writing 1.

use vstd::prelude::*;

use super::gx_fifo::{FifoView, GxFifo};
use super::vi::with_half;

verus! {

/// Address of the first CP register.
pub const GX_BASE: u32 = 0xCC00_0000;

/// Bytes covered by the CP and PE registers.
pub const GX_SIZE: u32 = 0x1010;

/// The CP and PE registers, without the FIFO behind them.
#[derive(Clone, Copy, Debug, PartialEq, Eq, Structural)]
pub struct GxRegs {
    /// CP_STATUS.
    pub cp_status: u16,
    /// CP_CONTROL.
    pub cp_control: u16,
    /// CP_CLEAR.
    pub cp_clear: u16,
    /// FIFO start address.
    pub cp_fifo_start: u32,
    /// FIFO end address.
    pub cp_fifo_end: u32,
    /// FIFO high watermark.
    pub cp_fifo_hwmark: u32,
    /// FIFO low watermark.
    pub cp_fifo_lwmark: u32,
    /// FIFO token count.
    pub cp_fifo_count: u32,
    /// FIFO write pointer.
    pub cp_fifo_wptr: u32,
    /// FIFO read pointer.
    pub cp_fifo_rptr: u32,
    /// FIFO breakpoint address.
    pub cp_fifo_breakpoint: u32,
    /// PE_INT_STATUS.
    pub pe_int_status: u16,
    /// PE_TOKEN.
    pub pe_token: u16,
}

/// PE_INT_STATUS after `val` was written to it: the enable bits are stored, the
/// pending bits that 1 is written to are cleared.
pub open spec fn pe_status_written(status: u16, val: u16) -> u16 {
    ((status & !0x0003u16) | (val & 0x0003)) & !(val & 0x000C)
}

impl GxRegs {
    /// Value of the halfword register at `offset`.
    pub open spec fn reg(self, offset: u32) -> u16 {
        match offset {
            0x0000 => self.cp_status,
            0x0002 => self.cp_control,
            0x0004 => self.cp_clear,
            0x0020 => self.cp_fifo_start as u16,
            0x0022 => (self.cp_fifo_start >> 16) as u16,
            0x0024 => self.cp_fifo_end as u16,
            0x0026 => (self.cp_fifo_end >> 16) as u16,
            0x0028 => self.cp_fifo_hwmark as u16,
            0x002A => (self.cp_fifo_hwmark >> 16) as u16,
            0x002C => self.cp_fifo_lwmark as u16,
            0x002E => (self.cp_fifo_lwmark >> 16) as u16,
            0x0030 => self.cp_fifo_count as u16,
            0x0032 => (self.cp_fifo_count >> 16) as u16,
            0x0034 => self.cp_fifo_wptr as u16,
            0x0036 => (self.cp_fifo_wptr >> 16) as u16,
            0x0038 => self.cp_fifo_rptr as u16,
            0x003A => (self.cp_fifo_rptr >> 16) as u16,
            0x003C => self.cp_fifo_breakpoint as u16,
            0x003E => (self.cp_fifo_breakpoint >> 16) as u16,
            0x100A => self.pe_int_status,
            0x100E => self.pe_token,
            _ => 0,
        }
    }

    /// The registers after `val` was written at `offset`.
    pub open spec fn written(self, offset: u32, val: u16) -> GxRegs {
        match offset {
            // CP_STATUS and the token count are read-only.
            0x0000 | 0x0030 | 0x0032 => self,
            0x0002 => GxRegs { cp_control: val, ..self },
            0x0004 => GxRegs { cp_clear: val, ..self },
            0x0020 => GxRegs { cp_fifo_start: with_half(self.cp_fifo_start, false, val), ..self },
            0x0022 => GxRegs { cp_fifo_start: with_half(self.cp_fifo_start, true, val), ..self },
            0x0024 => GxRegs { cp_fifo_end: with_half(self.cp_fifo_end, false, val), ..self },
            0x0026 => GxRegs { cp_fifo_end: with_half(self.cp_fifo_end, true, val), ..self },
            0x0028 => GxRegs { cp_fifo_hwmark: with_half(self.cp_fifo_hwmark, false, val), ..self },
            0x002A => GxRegs { cp_fifo_hwmark: with_half(self.cp_fifo_hwmark, true, val), ..self },
            0x002C => GxRegs { cp_fifo_lwmark: with_half(self.cp_fifo_lwmark, false, val), ..self },
            0x002E => GxRegs { cp_fifo_lwmark: with_half(self.cp_fifo_lwmark, true, val), ..self },
            0x0034 => GxRegs { cp_fifo_wptr: with_half(self.cp_fifo_wptr, false, val), ..self },
            0x0036 => GxRegs { cp_fifo_wptr: with_half(self.cp_fifo_wptr, true, val), ..self },
            0x0038 => GxRegs { cp_fifo_rptr: with_half(self.cp_fifo_rptr, false, val), ..self },
            0x003A => GxRegs { cp_fifo_rptr: with_half(self.cp_fifo_rptr, true, val), ..self },
            0x003C => GxRegs {
                cp_fifo_breakpoint: with_half(self.cp_fifo_breakpoint, false, val),
                ..self
            },
            0x003E => GxRegs {
                cp_fifo_breakpoint: with_half(self.cp_fifo_breakpoint, true, val),
                ..self
            },
            0x100A => GxRegs {
                pe_int_status: pe_status_written(self.pe_int_status, val),
                ..self
            },
            0x100E => GxRegs { pe_token: val, ..self },
            _ => self,
        }
    }

    /// Whether the token interrupt is both pending and enabled.
    pub open spec fn token_active(self) -> bool {
        self.pe_int_status & 0x0005 == 0x0005
    }

    /// Whether the finish interrupt is both pending and enabled.
    pub open spec fn finish_active(self) -> bool {
        self.pe_int_status & 0x000A == 0x000A
    }

    /// The registers after the end of drawing was signalled.
    pub open spec fn finished(self) -> GxRegs {
        GxRegs { pe_int_status: self.pe_int_status | 8, ..self }
    }

    /// The registers after `token` was signalled.
    pub open spec fn tokened(self, token: u16) -> GxRegs {
        GxRegs { pe_token: token, pe_int_status: self.pe_int_status | 4, ..self }
    }
}

/// The CP and PE registers and the FIFO behind them.
pub struct GxState {
    /// The registers.
    pub regs: GxRegs,
    /// The command FIFO.
    pub fifo: GxFifo,
}

/// The registers and the FIFO, with arrays as sequences.
#[verifier::ext_equal]
pub struct GxView {
    pub regs: GxRegs,
    pub fifo: FifoView,
}

impl View for GxState {
    type V = GxView;

    open spec fn view(&self) -> GxView {
        GxView { regs: self.regs, fifo: self.fifo@ }
    }
}

/// A word with its upper or lower half replaced.
pub fn put_half(word: u32, upper: bool, val: u16) -> (result: u32)
    ensures
        result == with_half(word, upper, val),
{
    if upper {
        (word & 0x0000_FFFF) | ((val as u32) << 16)
    } else {
        (word & 0xFFFF_0000) | (val as u32)
    }
}

impl GxState {
    /// Reads the halfword register at `offset`.
    pub fn read_u16(&self, offset: u32) -> (val: u16)
        ensures
            val == self@.regs.reg(offset),
    {
        match offset {
            0x0000 => self.regs.cp_status,
            0x0002 => self.regs.cp_control,
            0x0004 => self.regs.cp_clear,
            0x0020 => self.regs.cp_fifo_start as u16,
            0x0022 => (self.regs.cp_fifo_start >> 16) as u16,
            0x0024 => self.regs.cp_fifo_end as u16,
            0x0026 => (self.regs.cp_fifo_end >> 16) as u16,
            0x0028 => self.regs.cp_fifo_hwmark as u16,
            0x002A => (self.regs.cp_fifo_hwmark >> 16) as u16,
            0x002C => self.regs.cp_fifo_lwmark as u16,
            0x002E => (self.regs.cp_fifo_lwmark >> 16) as u16,
            0x0030 => self.regs.cp_fifo_count as u16,
            0x0032 => (self.regs.cp_fifo_count >> 16) as u16,
            0x0034 => self.regs.cp_fifo_wptr as u16,
            0x0036 => (self.regs.cp_fifo_wptr >> 16) as u16,
            0x0038 => self.regs.cp_fifo_rptr as u16,
            0x003A => (self.regs.cp_fifo_rptr >> 16) as u16,
            0x003C => self.regs.cp_fifo_breakpoint as u16,
            0x003E => (self.regs.cp_fifo_breakpoint >> 16) as u16,
            0x100A => self.regs.pe_int_status,
            0x100E => self.regs.pe_token,
            _ => 0,
        }
    }

    /// Writes the halfword register at `offset`; gives whether the PE interrupt
    /// status has changed.
    pub fn write_u16(&mut self, offset: u32, val: u16) -> (changed: bool)
        ensures
            final(self)@ == (GxView { regs: old(self)@.regs.written(offset, val), ..old(self)@ }),
            changed == (final(self)@.regs.pe_int_status != old(self)@.regs.pe_int_status),
    {
        match offset {
            0x0000 | 0x0030 | 0x0032 => {},
            0x0002 => self.regs.cp_control = val,
            0x0004 => self.regs.cp_clear = val,
            0x0020 => {
                self.regs.cp_fifo_start = put_half(self.regs.cp_fifo_start, false, val);
            },
            0x0022 => {
                self.regs.cp_fifo_start = put_half(self.regs.cp_fifo_start, true, val);
            },
            0x0024 => {
                self.regs.cp_fifo_end = put_half(self.regs.cp_fifo_end, false, val);
            },
            0x0026 => {
                self.regs.cp_fifo_end = put_half(self.regs.cp_fifo_end, true, val);
            },
            0x0028 => {
                self.regs.cp_fifo_hwmark = put_half(self.regs.cp_fifo_hwmark, false, val);
            },
            0x002A => {
                self.regs.cp_fifo_hwmark = put_half(self.regs.cp_fifo_hwmark, true, val);
            },
            0x002C => {
                self.regs.cp_fifo_lwmark = put_half(self.regs.cp_fifo_lwmark, false, val);
            },
            0x002E => {
                self.regs.cp_fifo_lwmark = put_half(self.regs.cp_fifo_lwmark, true, val);
            },
            0x0034 => {
                self.regs.cp_fifo_wptr = put_half(self.regs.cp_fifo_wptr, false, val);
            },
            0x0036 => {
                self.regs.cp_fifo_wptr = put_half(self.regs.cp_fifo_wptr, true, val);
            },
            0x0038 => {
                self.regs.cp_fifo_rptr = put_half(self.regs.cp_fifo_rptr, false, val);
            },
            0x003A => {
                self.regs.cp_fifo_rptr = put_half(self.regs.cp_fifo_rptr, true, val);
            },
            0x003C => {
                self.regs.cp_fifo_breakpoint = put_half(self.regs.cp_fifo_breakpoint, false, val);
            },
            0x003E => {
                self.regs.cp_fifo_breakpoint = put_half(self.regs.cp_fifo_breakpoint, true, val);
            },
            0x100A => {
                let old_status: u16 = self.regs.pe_int_status;
                self.regs.pe_int_status = ((old_status & !0x0003u16) | (val & 0x0003)) & !(val
                    & 0x000C);
                return self.regs.pe_int_status != old_status;
            },
            0x100E => self.regs.pe_token = val,
            _ => {},
        }
        false
    }

    /// Signals the end of drawing; gives whether its interrupt is enabled.
    pub fn fire_pe_finish(&mut self) -> (enabled: bool)
        ensures
            final(self)@ == (GxView { regs: old(self)@.regs.finished(), ..old(self)@ }),
            enabled == final(self)@.regs.finish_active(),
    {
        self.regs.pe_int_status = self.regs.pe_int_status | 8;
        self.pe_finish_active()
    }

    /// Signals `token`; gives whether its interrupt is enabled.
    pub fn fire_pe_token(&mut self, token: u16) -> (enabled: bool)
        ensures
            final(self)@ == (GxView { regs: old(self)@.regs.tokened(token), ..old(self)@ }),
            enabled == final(self)@.regs.token_active(),
    {
        self.regs.pe_token = token;
        self.regs.pe_int_status = self.regs.pe_int_status | 4;
        self.pe_token_active()
    }

    /// Whether the token interrupt is both pending and enabled.
    pub fn pe_token_active(&self) -> (active: bool)
        ensures
            active == self@.regs.token_active(),
    {
        self.regs.pe_int_status & 0x0005 == 0x0005
    }

    /// Whether the finish interrupt is both pending and enabled.
    pub fn pe_finish_active(&self) -> (active: bool)
        ensures
            active == self@.regs.finish_active(),
    {
        self.regs.pe_int_status & 0x000A == 0x000A
    }
}

/// The registers at reset.
pub open spec fn gx_reset() -> GxRegs {
    GxRegs {
        cp_status: 0,
        cp_control: 0,
        cp_clear: 0,
        cp_fifo_start: 0,
        cp_fifo_end: 0,
        cp_fifo_hwmark: 0,
        cp_fifo_lwmark: 0,
        cp_fifo_count: 0,
        cp_fifo_wptr: 0,
        cp_fifo_rptr: 0,
        cp_fifo_breakpoint: 0,
        pe_int_status: 0,
        pe_token: 0,
    }
}

impl Default for GxState {
    /// All registers zero and the FIFO empty.
    fn default() -> (gx: Self)
        ensures
            gx@.regs == gx_reset(),
            gx@.fifo == FifoView::reset(),
    {
        GxState {
            regs: GxRegs {
                cp_status: 0,
                cp_control: 0,
                cp_clear: 0,
                cp_fifo_start: 0,
                cp_fifo_end: 0,
                cp_fifo_hwmark: 0,
                cp_fifo_lwmark: 0,
                cp_fifo_count: 0,
                cp_fifo_wptr: 0,
                cp_fifo_rptr: 0,
                cp_fifo_breakpoint: 0,
                pe_int_status: 0,
                pe_token: 0,
            },
            fifo: GxFifo::default(),
        }
    }
}

/// A write to a read-only register changes nothing, whatever is written.
pub proof fn status_and_count_are_read_only(regs: GxRegs, offset: u32, val: u16)
    requires
        offset == 0x0000 || offset == 0x0030 || offset == 0x0032,
    ensures
        regs.written(offset, val) == regs,
{
}

/// Writing PE_INT_STATUS stores the enable bits, clears exactly the pending bits
/// that 1 is written to, and never makes an interrupt pending.
pub proof fn pe_status_law(status: u16, val: u16)
    ensures
        pe_status_written(status, val) & 3 == val & 3,
        pe_status_written(status, val) & (val & 0xC) == 0,
        pe_status_written(status, val) & (!val & 0xC) == status & (!val & 0xC),
{
    assert((((status & !3u16) | (val & 3u16)) & !(val & 0xCu16)) & 3 == val & 3 && (((status
        & !3u16) | (val & 3u16)) & !(val & 0xCu16)) & (val & 0xCu16) == 0 && (((status & !3u16) | (
    val & 3u16)) & !(val & 0xCu16)) & (!val & 0xCu16) == status & (!val & 0xCu16)) by (bit_vector);
}

} // verus!
