//! DSP Interface registers.
//!
//! There is no DSP behind them: the mailbox echoes what the processor sends, and
//! every DMA is complete as soon as it is started.
//!
//! | Offset | Width | Name               | Description                         |
//! |--------|-------|--------------------|-------------------------------------|
//! | 0x00   | 16    | CSMAILBOX_H        | Mailbox to the DSP, reads 0         |
//! | 0x02   | 16    | CSMAILBOX_L        | Mailbox to the DSP, reads 0         |
//! | 0x04   | 16    | DSMAILBOX_H        | Mailbox from the DSP                |
//! | 0x06   | 16    | DSMAILBOX_L        | Mailbox from the DSP                |
//! | 0x0A   | 16    | DSPCONTROL         | Control and status                  |
//! | 0x20   | 32    | DspAramDmaRamBase  | ARAM DMA address in main memory     |
//! | 0x24   | 32    | DspAramDmaAramBase | ARAM DMA address in ARAM            |
//! | 0x28   | 32    | DspAramDmaControl  | ARAM DMA direction and length       |
//! | 0x30   | 32    | AudioDmaBase       | Audio DMA address in main memory    |
//! | 0x36   | 16    | AudioDmaControl    | Audio DMA (bit 15 = playing)        |
//! | 0x3A   | 16    | AudioDmaRemaining  | Remaining bytes, reads 0            |
//!
//! Bits of DSPCONTROL: 0 reset (clears itself), 1 interrupt, 2 halt, 3 audio DMA
//! interrupt and 4 its enable, 5 ARAM DMA interrupt and 6 its enable, 7 DSP
//! interrupt and 8 its enable, 9 ARAM DMA in flight (read-only), 11 reset vector.
//! The interrupts are cleared by writing 1.

use vstd::prelude::*;

verus! {

/// Address of the first DSP register.
pub const DSP_BASE: u32 = 0xCC00_5000;

/// Bytes covered by the DSP registers.
pub const DSP_SIZE: u32 = 0x40;

/// Interrupt flags of DSPCONTROL, which are cleared by writing 1.
pub const DSPCTRL_W1C: u16 = 0x00A8;

/// Bits of DSPCONTROL that are stored as written.
pub const DSPCTRL_NORMAL_WRITE: u16 = 0x0D56;

/// DSPCONTROL at reset.
pub const DSPCTRL_DEFAULT: u16 = 0x0800;

/// Bytes per block of audio DMA.
pub const AUDIO_BLOCK: u32 = 32;

/// The DSP Interface registers.
#[derive(Clone, Copy, Debug, PartialEq, Eq, Structural)]
pub struct DspState {
    /// DSMAILBOX_H.
    pub dsp2cpu_hi: u16,
    /// DSMAILBOX_L.
    pub dsp2cpu_lo: u16,
    /// DSPCONTROL.
    pub control: u16,
    /// DspAramDmaRamBase.
    pub aram_dma_ram_base: u32,
    /// DspAramDmaAramBase.
    pub aram_dma_aram_base: u32,
    /// DspAramDmaControl: bit 31 = to main memory, bits 0 to 30 = length.
    pub aram_dma_control: u32,
    /// Whether an ARAM DMA was started and has not been carried out.
    pub aram_dma_pending: bool,
    /// AudioDmaBase.
    pub audio_dma_base: u32,
    /// AudioDmaControl: bits 0 to 14 = length in blocks.
    pub audio_dma_control: u16,
    /// Position of playback in the audio buffer, in bytes.
    pub audio_dma_pos: u32,
}

/// DSPCONTROL after `val` was written to it.
pub open spec fn dsp_control_written(control: u16, val: u16) -> u16 {
    ((control & !(val & DSPCTRL_W1C)) & !DSPCTRL_NORMAL_WRITE) | (val & DSPCTRL_NORMAL_WRITE)
}

/// DSPCONTROL after an ARAM DMA.
pub open spec fn aram_dma_flagged(control: u16) -> u16 {
    (control | 0x20) & !0x200u16
}

impl DspState {
    /// Value of the halfword register at `offset`.
    pub open spec fn reg(self, offset: u32) -> u16 {
        match offset {
            0x04 => self.dsp2cpu_hi,
            0x06 => self.dsp2cpu_lo,
            0x0A => self.control,
            0x36 => self.audio_dma_control,
            _ => 0,
        }
    }

    /// The registers after the halfword `val` was written at `offset`. A halt bit
    /// that goes from set to clear lets the DSP boot, which puts a message in the
    /// mailbox. Starting audio DMA raises its interrupt at once.
    pub open spec fn written16(self, offset: u32, val: u16) -> DspState {
        match offset {
            0x00 => DspState { dsp2cpu_hi: val, ..self },
            0x02 => DspState { dsp2cpu_lo: val, ..self },
            0x04 => DspState { dsp2cpu_hi: val, ..self },
            0x06 => DspState { dsp2cpu_lo: val, ..self },
            0x0A => {
                let control = dsp_control_written(self.control, val);
                DspState {
                    control,
                    dsp2cpu_hi: if self.control & 4 != 0 && control & 4 == 0 {
                        self.dsp2cpu_hi | 0x8000
                    } else {
                        self.dsp2cpu_hi
                    },
                    ..self
                }
            },
            0x28 => DspState { control: aram_dma_flagged(self.control), ..self },
            0x36 => if val & 0x8000 != 0 {
                DspState {
                    audio_dma_control: val,
                    control: self.control | 8,
                    audio_dma_pos: 0,
                    ..self
                }
            } else {
                DspState { audio_dma_control: val, ..self }
            },
            _ => self,
        }
    }

    /// The registers after the word `val` was written at `offset`. Writing the
    /// ARAM DMA control starts a transfer.
    pub open spec fn written32(self, offset: u32, val: u32) -> DspState {
        match offset {
            0x20 => DspState { aram_dma_ram_base: val, ..self },
            0x24 => DspState { aram_dma_aram_base: val, ..self },
            0x28 => DspState {
                aram_dma_control: val,
                aram_dma_pending: true,
                control: aram_dma_flagged(self.control),
                ..self
            },
            0x30 => DspState { audio_dma_base: val, ..self },
            _ => self,
        }
    }

    /// Whether an interrupt is both pending and enabled.
    pub open spec fn interrupting(self) -> bool {
        self.control & 0x18 == 0x18 || self.control & 0x60 == 0x60 || self.control & 0x180 == 0x180
    }

    /// Length of the audio buffer in bytes.
    pub open spec fn audio_len(self) -> int {
        (self.audio_dma_control & 0x7FFF) * AUDIO_BLOCK
    }

    /// Reads the halfword register at `offset`.
    pub fn read_u16(&self, offset: u32) -> (val: u16)
        ensures
            val == self.reg(offset),
    {
        match offset {
            0x04 => self.dsp2cpu_hi,
            0x06 => self.dsp2cpu_lo,
            0x0A => self.control,
            0x36 => self.audio_dma_control,
            _ => 0,
        }
    }

    /// Writes the halfword register at `offset`.
    pub fn write_u16(&mut self, offset: u32, val: u16)
        ensures
            *final(self) == old(self).written16(offset, val),
    {
        match offset {
            0x00 => self.dsp2cpu_hi = val,
            0x02 => self.dsp2cpu_lo = val,
            0x04 => self.dsp2cpu_hi = val,
            0x06 => self.dsp2cpu_lo = val,
            0x0A => {
                let halt_was_set: bool = self.control & 4 != 0;
                self.control = ((self.control & !(val & DSPCTRL_W1C)) & !DSPCTRL_NORMAL_WRITE) | (
                val & DSPCTRL_NORMAL_WRITE);
                if halt_was_set && self.control & 4 == 0 {
                    self.dsp2cpu_hi = self.dsp2cpu_hi | 0x8000;
                }
            },
            0x28 => self.control = (self.control | 0x20) & !0x200u16,
            0x36 => {
                self.audio_dma_control = val;
                if val & 0x8000 != 0 {
                    self.control = self.control | 8;
                    self.audio_dma_pos = 0;
                }
            },
            _ => {},
        }
    }

    /// Writes the word register at `offset`.
    pub fn write_u32(&mut self, offset: u32, val: u32)
        ensures
            *final(self) == old(self).written32(offset, val),
    {
        match offset {
            0x20 => self.aram_dma_ram_base = val,
            0x24 => self.aram_dma_aram_base = val,
            0x28 => {
                self.aram_dma_control = val;
                self.aram_dma_pending = true;
                self.control = (self.control | 0x20) & !0x200u16;
            },
            0x30 => self.audio_dma_base = val,
            _ => {},
        }
    }

    /// Whether an interrupt is both pending and enabled.
    pub fn any_interrupt(&self) -> (active: bool)
        ensures
            active == self.interrupting(),
    {
        self.control & 0x18 == 0x18 || self.control & 0x60 == 0x60 || self.control & 0x180 == 0x180
    }
}

impl Default for DspState {
    /// The registers at reset.
    fn default() -> (dsp: Self)
        ensures
            dsp == (DspState {
                dsp2cpu_hi: 0,
                dsp2cpu_lo: 0,
                control: DSPCTRL_DEFAULT,
                aram_dma_ram_base: 0,
                aram_dma_aram_base: 0,
                aram_dma_control: 0,
                aram_dma_pending: false,
                audio_dma_base: 0,
                audio_dma_control: 0,
                audio_dma_pos: 0,
            }),
    {
        DspState {
            dsp2cpu_hi: 0,
            dsp2cpu_lo: 0,
            control: DSPCTRL_DEFAULT,
            aram_dma_ram_base: 0,
            aram_dma_aram_base: 0,
            aram_dma_control: 0,
            aram_dma_pending: false,
            audio_dma_base: 0,
            audio_dma_control: 0,
            audio_dma_pos: 0,
        }
    }
}

/// The boot handshake: what is sent to the DSP comes back, the outgoing mailbox
/// always reads empty, un-halting signals a message, and both kinds of DMA raise
/// their interrupt when they are started.
pub proof fn dsp_handshake(dsp: DspState, val: u16, word: u32)
    ensures
        dsp.written16(0x00, val).reg(0x04) == val,
        dsp.written16(0x02, val).reg(0x06) == val,
        dsp.reg(0x00) == 0 && dsp.reg(0x02) == 0,
        dsp.control & 4 != 0 && val & 4 == 0 ==> dsp.written16(0x0A, val).reg(0x04) & 0x8000 != 0,
        dsp.written32(0x28, word).control & 0x20 != 0,
        dsp.written32(0x28, word).control & 0x200 == 0,
        val & 0x8000 != 0 ==> dsp.written16(0x36, val).control & 8 != 0,
{
    let c = dsp.control;
    let h = dsp.dsp2cpu_hi;
    assert(((c | 0x20u16) & !0x200u16) & 0x20 != 0 && ((c | 0x20u16) & !0x200u16) & 0x200 == 0 && (c
        | 8u16) & 8 != 0 && (h | 0x8000u16) & 0x8000 != 0 && (val & 4 == 0 ==> (((c & !(val
        & 0xA8u16)) & !0xD56u16) | (val & 0xD56u16)) & 4 == 0)) by (bit_vector);
}

/// Writing DSPCONTROL clears exactly the interrupts that 1 is written to, keeps
/// the others, never keeps the reset bit if it was clear, and never sets the
/// read-only bit.
pub proof fn dsp_control_law(dsp: DspState, val: u16)
    ensures
        ({
            let after = dsp.written16(0x0A, val).control;
            &&& after & (val & DSPCTRL_W1C) == 0
            &&& after & (DSPCTRL_W1C & !val) == dsp.control & (DSPCTRL_W1C & !val)
            &&& after & DSPCTRL_NORMAL_WRITE == val & DSPCTRL_NORMAL_WRITE
            &&& after & 0x201 == dsp.control & 0x201
        }),
{
    let c = dsp.control;
    assert((((c & !(val & 0xA8u16)) & !0xD56u16) | (val & 0xD56u16)) & (val & 0xA8u16) == 0 && (((c
        & !(val & 0xA8u16)) & !0xD56u16) | (val & 0xD56u16)) & (0xA8u16 & !val) == c & (0xA8u16
        & !val) && (((c & !(val & 0xA8u16)) & !0xD56u16) | (val & 0xD56u16)) & 0xD56u16 == val
        & 0xD56u16 && (((c & !(val & 0xA8u16)) & !0xD56u16) | (val & 0xD56u16)) & 0x201 == c
        & 0x201) by (bit_vector);
}

} // verus!
