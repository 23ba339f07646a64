//! Access to the hardware registers.
//!
//! | Address      | Registers                            |
//! |--------------|--------------------------------------|
//! | `0xCC000000` | Command Processor and Pixel Engine   |
//! | `0xCC002000` | Video Interface                      |
//! | `0xCC003000` | Processor Interface                  |
//! | `0xCC004000` | Memory Interface                     |
//! | `0xCC005000` | DSP Interface                        |
//! | `0xCC006000` | DVD Interface                        |
//! | `0xCC006400` | Serial Interface                     |
//! | `0xCC006800` | External Interface                   |
//! | `0xCC006C00` | Audio Interface                      |
//! | `0xCC008000` | Graphics command stream (write-only) |
//!
//! The same registers appear again at `0xCD` in place of `0xCC`.

use vstd::prelude::*;

use super::ai::{AI_BASE, AI_SIZE};
use super::cache::{phys_addr, physical_address};
use super::di::{DiState, DI_BASE, DI_SIZE};
use super::dsp::{DspState, DSP_BASE, DSP_SIZE};
use super::emulator::{
    DmaNotes, EmuView, PiRegs, WasmEmulator, ARAM_LEN, CYCLES_PER_SAMPLE_32K, CYCLES_PER_SAMPLE_48K,
};
use super::exi::{ExiSramDma, ExiView, EXI_BASE, EXI_SIZE};
use super::gx::{GxRegs, GxView, GX_BASE, GX_SIZE};
use super::gx_fifo::{consumed, FifoRegs, FifoView, Mode};
use super::mi::{MI_BASE, MI_SIZE};
use super::pi::{
    masked, with_mask, PI_BASE, PI_BUSCLK_VAL, PI_CPUCLK_VAL, PI_INT_AI, PI_INT_DI, PI_INT_DSP,
    PI_INT_PE_FINISH, PI_INT_PE_TOKEN, PI_INT_SI, PI_INT_VI, PI_MEMSIZE_VAL, PI_SIZE,
};
use super::si::{SiView, SI_BASE, SI_SIZE};
use super::vi::{
    is_display_interrupt, vi_advanced, vi_fired, vi_frame_buffer, vi_half, vi_interrupting, vi_word,
    vi_written16, vi_written32, VI_BASE, VI_SIZE,
};
use crate::bytes::be_byte;
use crate::gekko::lo32;

verus! {

/// Bit that tells the two mirrors of the registers apart.
pub const UNCACHED_MIRROR_BIT: u32 = 0x0100_0000;

/// Address of the graphics command stream.
pub const GX_STREAM_BASE: u32 = 0xCC00_8000;

/// Bytes covered by the graphics command stream.
pub const GX_STREAM_SIZE: u32 = 0x20;

/// Bytes of the reply to the identify command.
pub const IDENTIFY_LEN: usize = 32;

/// The address of a register in the first mirror.
pub open spec fn unmirrored(addr: u32) -> u32 {
    addr & !UNCACHED_MIRROR_BIT
}

/// Whether `addr` is one of `size` bytes from `base` up.
pub open spec fn within(addr: u32, base: u32, size: u32) -> bool {
    base <= addr < base + size
}

/// Two halfwords as a word.
pub open spec fn halves(hi: u16, lo: u16) -> u32 {
    ((hi as u32) << 16) | (lo as u32)
}

/// A half of a word.
pub open spec fn half_of_word(word: u32, upper: bool) -> u16 {
    if upper {
        (word >> 16) as u16
    } else {
        word as u16
    }
}

/// `dst` with `n` bytes from position `at` on replaced by those of `src` from `from`
/// on.
pub open spec fn copied(dst: Seq<u8>, at: int, src: Seq<u8>, from: int, n: int) -> Seq<u8> {
    Seq::new(
        dst.len(),
        |i: int|
            if at <= i < at + n {
                src[from + i - at]
            } else {
                dst[i]
            },
    )
}

/// The reply to the identify command: a date and a version.
pub open spec fn identity() -> Seq<u8> {
    Seq::new(
        IDENTIFY_LEN as nat,
        |i: int|
            if i == 4 {
                0x20u8
            } else if i == 5 {
                0x02
            } else if i == 6 {
                0x04
            } else if i == 7 {
                0x02
            } else if i == 8 {
                0x61
            } else {
                0
            },
    )
}

impl EmuView {
    /// Value of the word register at `addr`; 0 where there is none.
    pub open spec fn hw_word(self, addr: u32) -> u32 {
        let at = unmirrored(addr);
        if within(at, GX_BASE, GX_SIZE) {
            let offset = (at - GX_BASE) as u32;
            halves(self.gx.regs.reg(offset), self.gx.regs.reg((offset + 2) as u32))
        } else if within(at, VI_BASE, VI_SIZE) {
            vi_word(self.vi, (at - VI_BASE) as u32)
        } else if within(at, PI_BASE, PI_SIZE) {
            self.pi.reg((at - PI_BASE) as u32)
        } else if within(at, DI_BASE, DI_SIZE) {
            self.di.reg((at - DI_BASE) as u32)
        } else if within(at, MI_BASE, MI_SIZE) {
            let offset = (at - MI_BASE) as u32;
            halves(self.mi.reg(offset), self.mi.reg((offset + 2) as u32))
        } else if within(at, SI_BASE, SI_SIZE) {
            self.si.reg((at - SI_BASE) as u32)
        } else if within(at, EXI_BASE, EXI_SIZE) {
            self.exi.reg((at - EXI_BASE) as u32)
        } else if within(at, DSP_BASE, DSP_SIZE) {
            let offset = (at - DSP_BASE) as u32;
            halves(self.dsp.reg(offset), self.dsp.reg((offset + 2) as u32))
        } else if within(at, AI_BASE, AI_SIZE) {
            self.ai.reg((at - AI_BASE) as u32)
        } else {
            0
        }
    }

    /// Value of the halfword register at `addr`; 0 where there is none.
    pub open spec fn hw_half(self, addr: u32) -> u16 {
        let at = unmirrored(addr);
        if within(at, GX_BASE, GX_SIZE) {
            self.gx.regs.reg((at - GX_BASE) as u32)
        } else if within(at, VI_BASE, VI_SIZE) {
            vi_half(self.vi, (at - VI_BASE) as u32)
        } else if within(at, DSP_BASE, DSP_SIZE) {
            self.dsp.reg((at - DSP_BASE) as u32)
        } else if within(at, DI_BASE, DI_SIZE) {
            let offset = (at - DI_BASE) as u32;
            half_of_word(self.di.reg(offset & !3u32), offset & 2 == 0)
        } else if within(at, MI_BASE, MI_SIZE) {
            self.mi.reg((at - MI_BASE) as u32)
        } else if within(at, SI_BASE, SI_SIZE) {
            let offset = (at - SI_BASE) as u32;
            half_of_word(self.si.reg(offset & !3u32), offset & 2 == 0)
        } else {
            0
        }
    }

    /// Value of the byte at `addr` of the word register that holds it.
    pub open spec fn hw_byte(self, addr: u32) -> u8 {
        be_byte(self.hw_word(addr & !3u32), (addr & 3) as int)
    }

    /// The emulator with interrupt bits set or cleared.
    pub open spec fn flagged(self, mask: u32, active: bool) -> EmuView {
        EmuView { pi: PiRegs { intsr: masked(self.pi.intsr, mask, active), ..self.pi }, ..self }
    }

    /// The interrupt bit of the Video Interface brought up to date.
    pub open spec fn vi_synced(self) -> EmuView {
        self.flagged(PI_INT_VI, vi_interrupting(self.vi))
    }

    /// The interrupt bit of the DSP Interface brought up to date.
    pub open spec fn dsp_synced(self) -> EmuView {
        self.flagged(PI_INT_DSP, self.dsp.interrupting())
    }

    /// The interrupt bits of the Pixel Engine brought up to date.
    pub open spec fn pe_synced(self) -> EmuView {
        self.flagged(PI_INT_PE_TOKEN, self.gx.regs.token_active()).flagged(
            PI_INT_PE_FINISH,
            self.gx.regs.finish_active(),
        )
    }

    /// The emulator after `val` was written to the graphics command stream: commands
    /// are taken as far as they are complete, and what they signal is passed on.
    pub open spec fn streamed(self, val: u32) -> EmuView {
        let fifo = consumed(self.gx.fifo.pushed(val), Mode::Simple).fifo;
        (EmuView { gx: GxView { fifo, ..self.gx }, ..self }).finish_passed_on().token_passed_on()
    }

    /// The end of drawing passed on from the command stream to the Pixel Engine.
    pub open spec fn finish_passed_on(self) -> EmuView {
        if self.gx.fifo.regs.pe_finish_pending {
            let fifo = FifoView {
                regs: FifoRegs { pe_finish_pending: false, ..self.gx.fifo.regs },
                ..self.gx.fifo
            };
            let regs = self.gx.regs.finished();
            let after = EmuView { gx: GxView { regs, fifo }, ..self };
            if regs.finish_active() {
                after.flagged(PI_INT_PE_FINISH, true).delivered()
            } else {
                after
            }
        } else {
            self
        }
    }

    /// A token passed on from the command stream to the Pixel Engine.
    pub open spec fn token_passed_on(self) -> EmuView {
        if self.gx.fifo.regs.pe_token_pending {
            let fifo = FifoView {
                regs: FifoRegs { pe_token_pending: false, ..self.gx.fifo.regs },
                ..self.gx.fifo
            };
            let regs = self.gx.regs.tokened(fifo.regs.pe_token);
            let after = EmuView { gx: GxView { regs, fifo }, ..self };
            if regs.token_active() {
                after.flagged(PI_INT_PE_TOKEN, true).delivered()
            } else {
                after
            }
        } else {
            self
        }
    }

    /// The emulator with the registers of the Pixel Engine and Command Processor
    /// replaced; if the interrupt status has changed, interrupts are looked at.
    pub open spec fn with_gx(self, regs: GxRegs, changed: bool) -> EmuView {
        let after = EmuView { gx: GxView { regs, ..self.gx }, ..self };
        if changed {
            after.pe_synced().delivered()
        } else {
            after
        }
    }

    /// The emulator after a word was written to the Command Processor or Pixel Engine
    /// at `offset`, upper half first.
    pub open spec fn gx_written32(self, offset: u32, val: u32) -> EmuView {
        let first = self.gx.regs.written(offset, (val >> 16) as u16);
        let regs = first.written((offset + 2) as u32, val as u16);
        self.with_gx(
            regs,
            first.pe_int_status != self.gx.regs.pe_int_status || regs.pe_int_status
                != first.pe_int_status,
        )
    }

    /// The emulator after a halfword was written to the Command Processor or Pixel
    /// Engine at `offset`.
    pub open spec fn gx_written16(self, offset: u32, val: u16) -> EmuView {
        let regs = self.gx.regs.written(offset, val);
        self.with_gx(regs, regs.pe_int_status != self.gx.regs.pe_int_status)
    }

    /// The emulator after a word was written to the Memory Interface at `offset`,
    /// upper half first.
    pub open spec fn mi_written32(self, offset: u32, val: u32) -> EmuView {
        EmuView {
            mi: self.mi.written(offset, (val >> 16) as u16).written(
                (offset + 2) as u32,
                val as u16,
            ),
            ..self
        }
    }

    /// The emulator after a halfword was written to the DSP Interface at `offset`.
    pub open spec fn dsp_written16(self, offset: u32, val: u16) -> EmuView {
        (EmuView { dsp: self.dsp.written16(offset, val), ..self }).dsp_synced().delivered()
    }

    /// The emulator with the Video Interface replaced after a write at `offset`.
    pub open spec fn with_vi(self, vi: Seq<u32>, offset: u32) -> EmuView {
        let after = EmuView { vi, ..self };
        if is_display_interrupt((offset / 4) as int) {
            after.vi_synced()
        } else {
            after
        }
    }

    /// The emulator after `val` was written to the Processor Interface at `offset`.
    pub open spec fn pi_written(self, offset: u32, val: u32) -> EmuView {
        let after = EmuView { pi: self.pi.written(offset, val), ..self };
        if offset == 0x04 {
            after.delivered()
        } else {
            after
        }
    }

    /// The emulator after a word was written to the DSP Interface at `offset`.
    pub open spec fn dsp_written32(self, offset: u32, val: u32) -> EmuView {
        let dsp = self.dsp.written32(offset, val);
        let after = if dsp.aram_dma_pending {
            (EmuView { dsp: DspState { aram_dma_pending: false, ..dsp }, ..self }).aram_copied()
        } else {
            EmuView { dsp, ..self }
        };
        after.dsp_synced().delivered()
    }

    /// The emulator after the transfer between main memory and audio memory that the
    /// DSP Interface describes. The length is cut at the end of audio memory; a
    /// transfer outside either memory does nothing.
    pub open spec fn aram_copied(self) -> EmuView {
        let aram_base = self.dsp.aram_dma_aram_base as int;
        let ram_base = physical_address(self.dsp.aram_dma_ram_base);
        let len = (self.dsp.aram_dma_control & 0x7FFF_FFFF) as int;
        let to_aram = self.dsp.aram_dma_control >> 31 == 0;
        let n = if len < ARAM_LEN - aram_base {
            len
        } else {
            ARAM_LEN - aram_base
        };
        if aram_base >= ARAM_LEN || len == 0 || ram_base + n > self.ram.len() {
            self
        } else if to_aram {
            EmuView { aram: copied(self.aram, aram_base, self.ram, ram_base, n), ..self }
        } else {
            EmuView { ram: copied(self.ram, ram_base, self.aram, aram_base, n), ..self }
        }
    }

    /// The emulator after `val` was written to the DVD Interface at `offset`: a
    /// command is carried out at once, and completion is signalled.
    pub open spec fn di_written(self, offset: u32, val: u32) -> EmuView {
        let after = EmuView { di: self.di.written(offset, val), ..self };
        if DiState::starts(offset, val) {
            after.di_processed().flagged(PI_INT_DI, true).delivered()
        } else {
            after
        }
    }

    /// The emulator after the command in the DVD Interface was carried out: 0x12
    /// identifies the drive, 0xA8 reads, 0xE0 and 0xE2 report that there is no error and
    /// no audio, and every other command does nothing but complete.
    pub open spec fn di_processed(self) -> EmuView {
        let cmd = (self.di.cmd_buf0 >> 24) as u8;
        let dest = physical_address(self.di.dma_addr);
        let done = if cmd == 0x12 {
            if dest + IDENTIFY_LEN <= self.ram.len() {
                EmuView {
                    ram: copied(self.ram, dest, identity(), 0, IDENTIFY_LEN as int),
                    ..self
                }
            } else {
                self
            }
        } else if cmd == 0xA8 {
            self.disc_read()
        } else if cmd == 0xE0 || cmd == 0xE2 {
            EmuView { di: DiState { imm_buf: 0, ..self.di }, ..self }
        } else {
            self
        };
        EmuView { di: done.di.completed(), ..done }
    }

    /// Position on disc that the read command names.
    pub open spec fn disc_position(self) -> int {
        4 * self.di.cmd_buf1
    }

    /// The emulator after the read command: the bytes are in main memory if the disc
    /// has them and they fit, else nothing has changed.
    pub open spec fn disc_read(self) -> EmuView {
        let dest = physical_address(self.di.dma_addr);
        let len = self.di.dma_len as int;
        match self.disc {
            None => self,
            Some(disc) => if self.disc_position() + len <= disc.len() && dest + len
                <= self.ram.len() {
                EmuView {
                    ram: copied(self.ram, dest, disc, self.disc_position(), len),
                    dma: DmaNotes {
                        dirty: true,
                        addr: dest as u32,
                        len: self.di.dma_len,
                        disc_offset: lo32(self.disc_position() as u64),
                    },
                    ..self
                }
            } else {
                self
            },
        }
    }

    /// The emulator after `val` was written to the Serial Interface at `offset`.
    pub open spec fn si_written(self, offset: u32, val: u32) -> EmuView {
        let after = EmuView { si: self.si.written(offset, val, self.pad_buttons), ..self };
        if SiView::starts(offset, val) {
            after.flagged(PI_INT_SI, true).delivered()
        } else {
            after
        }
    }

    /// The emulator after `val` was written to the External Interface at `offset` at
    /// the given time.
    pub open spec fn exi_written(self, offset: u32, val: u32, unix_ms: u64) -> EmuView {
        let (exi, dma) = self.exi.written(offset, val, unix_ms);
        let after = EmuView { exi, ..self };
        match dma {
            None => after,
            Some(copy) => after.sram_copied(copy),
        }
    }

    /// The emulator after bytes were copied from settings memory to main memory: as
    /// many as there are, if they fit.
    pub open spec fn sram_copied(self, copy: ExiSramDma) -> EmuView {
        let from = copy.sram_offset as int;
        let end = if from + copy.length < 64 {
            from + copy.length
        } else {
            64
        };
        let n = if from < end {
            end - from
        } else {
            0
        };
        let dest = physical_address(copy.ram_addr);
        if dest + n <= self.ram.len() {
            EmuView { ram: copied(self.ram, dest, self.exi.sram, from, n), ..self }
        } else {
            self
        }
    }

    /// The emulator after the word `val` was written to the register at `addr` at the
    /// given time.
    #[verifier::opaque]
    pub open spec fn hw_written32(self, addr: u32, val: u32, unix_ms: u64) -> EmuView {
        let at = unmirrored(addr);
        if within(at, GX_STREAM_BASE, GX_STREAM_SIZE) {
            self.streamed(val)
        } else if within(at, GX_BASE, GX_SIZE) {
            self.gx_written32((at - GX_BASE) as u32, val)
        } else if within(at, VI_BASE, VI_SIZE) {
            let offset = (at - VI_BASE) as u32;
            self.with_vi(vi_written32(self.vi, offset, val), offset)
        } else if within(at, PI_BASE, PI_SIZE) {
            self.pi_written((at - PI_BASE) as u32, val)
        } else if within(at, DSP_BASE, DSP_SIZE) {
            self.dsp_written32((at - DSP_BASE) as u32, val)
        } else if within(at, DI_BASE, DI_SIZE) {
            self.di_written((at - DI_BASE) as u32, val)
        } else if within(at, MI_BASE, MI_SIZE) {
            self.mi_written32((at - MI_BASE) as u32, val)
        } else if within(at, SI_BASE, SI_SIZE) {
            self.si_written((at - SI_BASE) as u32, val)
        } else if within(at, EXI_BASE, EXI_SIZE) {
            self.exi_written((at - EXI_BASE) as u32, val, unix_ms)
        } else if within(at, AI_BASE, AI_SIZE) {
            EmuView { ai: self.ai.written((at - AI_BASE) as u32, val), ..self }
        } else {
            self
        }
    }

    /// Whether writing `val` to the register at `addr` reads the time.
    pub open spec fn reads_time(self, addr: u32, val: u32) -> bool {
        let at = unmirrored(addr);
        within(at, EXI_BASE, EXI_SIZE) && self.exi.reads_time((at - EXI_BASE) as u32, val)
    }

    /// The emulator after the halfword `val` was written to the register at `addr`.
    #[verifier::opaque]
    pub open spec fn hw_written16(self, addr: u32, val: u16) -> EmuView {
        let at = unmirrored(addr);
        if within(at, GX_BASE, GX_SIZE) {
            self.gx_written16((at - GX_BASE) as u32, val)
        } else if within(at, VI_BASE, VI_SIZE) {
            let offset = (at - VI_BASE) as u32;
            self.with_vi(vi_written16(self.vi, offset, val), offset)
        } else if within(at, DSP_BASE, DSP_SIZE) {
            self.dsp_written16((at - DSP_BASE) as u32, val)
        } else if within(at, MI_BASE, MI_SIZE) {
            EmuView { mi: self.mi.written((at - MI_BASE) as u32, val), ..self }
        } else {
            self
        }
    }

    /// The word register that holds the byte at `addr`, with that byte replaced.
    pub open spec fn byte_merged(self, addr: u32, val: u8) -> u32 {
        let shift = (24 - 8 * (addr & 3)) as u32;
        (self.hw_word(addr & !3u32) & !(0xFFu32 << shift)) | ((val as u32) << shift)
    }

    /// The emulator after one more frame: the line counter moves on, display
    /// interrupts are raised, the end of drawing is signalled, and a pending
    /// interrupt is taken.
    pub open spec fn retraced(self) -> EmuView {
        let video = (EmuView { vi: vi_fired(vi_advanced(self.vi)), ..self }).vi_synced();
        let drawn = EmuView {
            gx: GxView { regs: video.gx.regs.finished(), ..video.gx },
            ..video
        };
        drawn.pe_synced().delivered()
    }

    /// Processor cycles of an audio sample.
    pub open spec fn cycles_per_sample(self) -> u64 {
        if self.ai.control & 2 != 0 {
            CYCLES_PER_SAMPLE_32K
        } else {
            CYCLES_PER_SAMPLE_48K
        }
    }

    /// Whole samples that `cycles` more cycles complete.
    pub open spec fn samples_due(self, cycles: u32) -> u32 {
        ((self.ai_cpu_cycles + cycles) / self.cycles_per_sample() as int) as u32
    }

    /// The emulator after `cycles` more cycles of audio.
    pub open spec fn audio_advanced(self, cycles: u32) -> EmuView {
        let samples = self.samples_due(cycles);
        let ticked = EmuView {
            ai_cpu_cycles: ((self.ai_cpu_cycles + cycles)
                % self.cycles_per_sample() as int) as u64,
            ai: if samples == 0 {
                self.ai
            } else {
                self.ai.ticked(samples)
            },
            ..self
        };
        if samples != 0 && self.ai.fires(samples) {
            ticked.flagged(PI_INT_AI, true).delivered()
        } else {
            ticked
        }
    }
}

impl PiRegs {
    /// Value of the register at `offset`.
    pub open spec fn reg(self, offset: u32) -> u32 {
        match offset {
            0x00 => self.intsr,
            0x04 => self.intmsk,
            0x0C => self.fifo_base,
            0x10 => self.fifo_end,
            0x14 => self.fifo_wptr,
            0x28 => PI_MEMSIZE_VAL,
            0x2C => PI_BUSCLK_VAL,
            0x30 => PI_CPUCLK_VAL,
            _ => 0,
        }
    }

    /// The registers after `val` was written at `offset`. Interrupt status is cleared
    /// by writing 1.
    pub open spec fn written(self, offset: u32, val: u32) -> PiRegs {
        match offset {
            0x00 => PiRegs { intsr: self.intsr & !val, ..self },
            0x04 => PiRegs { intmsk: val, ..self },
            0x0C => PiRegs { fifo_base: val, ..self },
            0x10 => PiRegs { fifo_end: val, ..self },
            0x14 => PiRegs { fifo_wptr: val, ..self },
            _ => self,
        }
    }
}

/// Replaces `n` bytes of `dst` from position `at` on by those of `src` from `from`
/// on.
pub fn copy_bytes(dst: &mut Vec<u8>, at: usize, src: &[u8], from: usize, n: usize)
    requires
        at + n <= old(dst)@.len(),
        from + n <= src@.len(),
    ensures
        final(dst)@ == copied(old(dst)@, at as int, src@, from as int, n as int),
{
    let mut i: usize = 0;
    let total: usize = dst.len();
    let available: usize = src.len();
    while i < n
        invariant
            i <= n,
            dst@.len() == old(dst)@.len() == total,
            src@.len() == available,
            at + n <= total,
            from + n <= available,
            dst@ == copied(old(dst)@, at as int, src@, from as int, i as int),
        decreases n - i,
    {
        dst.set(at + i, src[from + i]);
        i = i + 1;
        assert(dst@ =~= copied(old(dst)@, at as int, src@, from as int, i as int));
    }
    assert(dst@ =~= copied(old(dst)@, at as int, src@, from as int, n as int));
}

fn identity_bytes() -> (bytes: Vec<u8>)
    ensures
        bytes@ == identity(),
{
    let mut bytes: Vec<u8> = super::memcard::filled(IDENTIFY_LEN, 0);
    bytes.set(4, 0x20);
    bytes.set(5, 0x02);
    bytes.set(6, 0x04);
    bytes.set(7, 0x02);
    bytes.set(8, 0x61);
    assert(bytes@ =~= identity());
    bytes
}

fn join_halves(hi: u16, lo: u16) -> (word: u32)
    ensures
        word == halves(hi, lo),
{
    ((hi as u32) << 16) | (lo as u32)
}

fn take_half(word: u32, upper: bool) -> (half: u16)
    ensures
        half == half_of_word(word, upper),
{
    if upper {
        (word >> 16) as u16
    } else {
        word as u16
    }
}

fn in_range(addr: u32, base: u32, size: u32) -> (inside: bool)
    requires
        base + size <= u32::MAX,
    ensures
        inside == within(addr, base, size),
{
    base <= addr && addr < base + size
}

/// Taking the second mirror or a byte of a word leaves the word.
proof fn lemma_byte_address(addr: u32)
    ensures
        addr & 3 <= 3,
        (addr & !UNCACHED_MIRROR_BIT) & 3 == addr & 3,
        unmirrored(((addr & !UNCACHED_MIRROR_BIT) & !3u32) | (addr & 0xFF00_0000u32)) == unmirrored(
            addr & !3u32,
        ),
{
    assert(addr & 3 <= 3 && (addr & !0x0100_0000u32) & 3 == addr & 3 && (((addr & !0x0100_0000u32)
        & !3u32) | (addr & 0xFF00_0000u32)) & !0x0100_0000u32 == (addr & !3u32)
        & !0x0100_0000u32) by (bit_vector);
}

/// Both mirrors of a register are the same register.
pub proof fn mirrors_agree(emu: EmuView, a: u32, b: u32, val: u32, unix_ms: u64)
    requires
        unmirrored(a) == unmirrored(b),
    ensures
        emu.hw_word(a) == emu.hw_word(b),
        emu.hw_half(a) == emu.hw_half(b),
        emu.reads_time(a, val) == emu.reads_time(b, val),
        emu.hw_written32(a, val, unix_ms) == emu.hw_written32(b, val, unix_ms),
        emu.hw_written16(a, val as u16) == emu.hw_written16(b, val as u16),
{
    reveal(EmuView::hw_written32);
    reveal(EmuView::hw_written16);
}

impl WasmEmulator {
    /// Reads the word register at `addr`.
    pub fn hw_read_u32(&self, addr: u32) -> (val: u32)
        ensures
            val == self@.hw_word(addr),
    {
        let at: u32 = addr & !UNCACHED_MIRROR_BIT;
        if in_range(at, GX_BASE, GX_SIZE) {
            let offset: u32 = at - GX_BASE;
            return join_halves(self.gx.read_u16(offset), self.gx.read_u16(offset + 2));
        }
        if in_range(at, VI_BASE, VI_SIZE) {
            return self.vi.read_u32(at - VI_BASE);
        }
        if in_range(at, PI_BASE, PI_SIZE) {
            return match at - PI_BASE {
                0x00 => self.pi.intsr,
                0x04 => self.pi.intmsk,
                0x0C => self.pi.fifo_base,
                0x10 => self.pi.fifo_end,
                0x14 => self.pi.fifo_wptr,
                0x28 => PI_MEMSIZE_VAL,
                0x2C => PI_BUSCLK_VAL,
                0x30 => PI_CPUCLK_VAL,
                _ => 0,
            };
        }
        if in_range(at, DI_BASE, DI_SIZE) {
            return self.di.read_reg(at - DI_BASE);
        }
        if in_range(at, MI_BASE, MI_SIZE) {
            let offset: u32 = at - MI_BASE;
            return join_halves(self.mi.read_u16(offset), self.mi.read_u16(offset + 2));
        }
        if in_range(at, SI_BASE, SI_SIZE) {
            return self.si.read_u32(at - SI_BASE);
        }
        if in_range(at, EXI_BASE, EXI_SIZE) {
            return self.exi.read_u32(at - EXI_BASE);
        }
        if in_range(at, DSP_BASE, DSP_SIZE) {
            let offset: u32 = at - DSP_BASE;
            return join_halves(self.dsp.read_u16(offset), self.dsp.read_u16(offset + 2));
        }
        if in_range(at, AI_BASE, AI_SIZE) {
            return self.ai.read_u32(at - AI_BASE);
        }
        0
    }

    /// Writes the word register at `addr`. The host's clock is read only if the
    /// guest reads its clock for the first time.
    #[verifier::spinoff_prover]
    #[verifier::rlimit(40)]
    pub fn hw_write_u32(&mut self, addr: u32, val: u32)
        requires
            old(self)@.wf(),
        ensures
            final(self)@.wf(),
            exists|unix_ms: u64|
                final(self)@ == #[trigger] old(self)@.hw_written32(addr, val, unix_ms),
            !old(self)@.reads_time(addr, val) ==> final(self)@ == old(self)@.hw_written32(
                addr,
                val,
                0,
            ),
    {
        let at: u32 = addr & !UNCACHED_MIRROR_BIT;
        if in_range(at, EXI_BASE, EXI_SIZE) {
            self.write_exi(at - EXI_BASE, val);
            proof {
                reveal(EmuView::hw_written32);
                let offset = (at - EXI_BASE) as u32;
                let ms = choose|ms: u64|
                    self@ == #[trigger] old(self)@.exi_written(offset, val, ms);
                assert(self@ == old(self)@.hw_written32(addr, val, ms));
            }
            return ;
        }
        self.hw_write_u32_at(addr, val, 0);
        proof {
            assert(self@ == old(self)@.hw_written32(addr, val, 0));
        }
    }

    /// Writes the word register at `addr` at the given time.
    pub fn hw_write_u32_at(&mut self, addr: u32, val: u32, unix_ms: u64)
        requires
            old(self)@.wf(),
        ensures
            final(self)@.wf(),
            final(self)@ == old(self)@.hw_written32(addr, val, unix_ms),
    {
        reveal(EmuView::hw_written32);
        let at: u32 = addr & !UNCACHED_MIRROR_BIT;
        if in_range(at, GX_STREAM_BASE, GX_STREAM_SIZE) {
            self.write_stream(val);
        } else if in_range(at, GX_BASE, GX_SIZE) {
            self.write_gx_u32(at - GX_BASE, val);
        } else if in_range(at, VI_BASE, VI_SIZE) {
            self.write_vi_u32(at - VI_BASE, val);
        } else if in_range(at, PI_BASE, PI_SIZE) {
            self.write_pi(at - PI_BASE, val);
        } else if in_range(at, DSP_BASE, DSP_SIZE) {
            self.write_dsp_u32(at - DSP_BASE, val);
        } else if in_range(at, DI_BASE, DI_SIZE) {
            self.write_di(at - DI_BASE, val);
        } else if in_range(at, MI_BASE, MI_SIZE) {
            self.write_mi_u32(at - MI_BASE, val);
        } else if in_range(at, SI_BASE, SI_SIZE) {
            self.write_si(at - SI_BASE, val);
        } else if in_range(at, EXI_BASE, EXI_SIZE) {
            self.write_exi_at(at - EXI_BASE, val, unix_ms);
        } else if in_range(at, AI_BASE, AI_SIZE) {
            self.ai.write_u32(at - AI_BASE, val);
        }
    }

    fn write_gx_u32(&mut self, offset: u32, val: u32)
        requires
            old(self)@.wf(),
            offset < GX_SIZE,
        ensures
            final(self)@.wf(),
            final(self)@ == old(self)@.gx_written32(offset, val),
    {
        let changed_hi: bool = self.gx.write_u16(offset, (val >> 16) as u16);
        let changed_lo: bool = self.gx.write_u16(offset + 2, val as u16);
        if changed_hi || changed_lo {
            self.sync_pi_pe_interrupts();
            self.maybe_deliver_external_interrupt();
        }
    }

    fn write_vi_u32(&mut self, offset: u32, val: u32)
        requires
            old(self)@.wf(),
        ensures
            final(self)@.wf(),
            final(self)@ == old(self)@.with_vi(vi_written32(old(self)@.vi, offset, val), offset),
    {
        self.vi.write_u32(offset, val);
        self.sync_pi_vi_after(offset);
    }

    fn write_dsp_u32(&mut self, offset: u32, val: u32)
        requires
            old(self)@.wf(),
        ensures
            final(self)@.wf(),
            final(self)@ == old(self)@.dsp_written32(offset, val),
    {
        self.dsp.write_u32(offset, val);
        if self.dsp.aram_dma_pending {
            self.dsp.aram_dma_pending = false;
            self.execute_aram_dma();
        }
        self.sync_pi_dsp();
        self.maybe_deliver_external_interrupt();
    }

    fn write_di(&mut self, offset: u32, val: u32)
        requires
            old(self)@.wf(),
        ensures
            final(self)@.wf(),
            final(self)@ == old(self)@.di_written(offset, val),
    {
        if self.di.write_reg(offset, val) {
            self.process_di_command();
            self.pi.intsr = self.pi.intsr | PI_INT_DI;
            self.maybe_deliver_external_interrupt();
        }
    }

    fn write_mi_u32(&mut self, offset: u32, val: u32)
        requires
            old(self)@.wf(),
            offset < MI_SIZE,
        ensures
            final(self)@.wf(),
            final(self)@ == old(self)@.mi_written32(offset, val),
    {
        self.mi.write_u16(offset, (val >> 16) as u16);
        self.mi.write_u16(offset + 2, val as u16);
    }

    fn write_si(&mut self, offset: u32, val: u32)
        requires
            old(self)@.wf(),
        ensures
            final(self)@.wf(),
            final(self)@ == old(self)@.si_written(offset, val),
    {
        if self.si.write_u32(offset, val, self.pad_buttons) {
            self.pi.intsr = self.pi.intsr | PI_INT_SI;
            self.maybe_deliver_external_interrupt();
        }
    }

    fn write_exi_at(&mut self, offset: u32, val: u32, unix_ms: u64)
        requires
            old(self)@.wf(),
        ensures
            final(self)@.wf(),
            final(self)@ == old(self)@.exi_written(offset, val, unix_ms),
    {
        if let Some(dma) = self.exi.write_u32_at(offset, val, unix_ms) {
            self.copy_sram(dma);
        }
    }

    fn write_exi(&mut self, offset: u32, val: u32)
        requires
            old(self)@.wf(),
        ensures
            final(self)@.wf(),
            exists|unix_ms: u64|
                final(self)@ == #[trigger] old(self)@.exi_written(offset, val, unix_ms),
            !old(self)@.exi.reads_time(offset, val) ==> final(self)@ == old(self)@.exi_written(
                offset,
                val,
                0,
            ),
    {
        let copy: Option<ExiSramDma> = self.exi.write_u32(offset, val);
        let ghost written = self@.exi;
        if let Some(dma) = copy {
            self.copy_sram(dma);
        }
        proof {
            let ms = choose|ms: u64|
                (written, copy) == #[trigger] old(self)@.exi.written(offset, val, ms);
            assert(self@ == old(self)@.exi_written(offset, val, ms));
        }
    }

    /// Writes a word to the graphics command stream.
    fn write_stream(&mut self, val: u32)
        requires
            old(self)@.wf(),
        ensures
            final(self)@ == old(self)@.streamed(val),
            final(self)@.wf(),
    {
        self.gx.fifo.push_u32(val);
        self.pass_on_finish();
        self.pass_on_token();
    }

    fn pass_on_finish(&mut self)
        requires
            old(self)@.wf(),
        ensures
            final(self)@ == old(self)@.finish_passed_on(),
            final(self)@.wf(),
    {
        if self.gx.fifo.pe_finish_pending {
            self.gx.fifo.pe_finish_pending = false;
            if self.gx.fire_pe_finish() {
                self.pi.intsr = self.pi.intsr | PI_INT_PE_FINISH;
                self.maybe_deliver_external_interrupt();
            }
        }
    }

    fn pass_on_token(&mut self)
        requires
            old(self)@.wf(),
        ensures
            final(self)@ == old(self)@.token_passed_on(),
            final(self)@.wf(),
    {
        if self.gx.fifo.pe_token_pending {
            self.gx.fifo.pe_token_pending = false;
            let token: u16 = self.gx.fifo.pe_token;
            if self.gx.fire_pe_token(token) {
                self.pi.intsr = self.pi.intsr | PI_INT_PE_TOKEN;
                self.maybe_deliver_external_interrupt();
            }
        }
    }

    fn write_pi(&mut self, offset: u32, val: u32)
        requires
            old(self)@.wf(),
        ensures
            final(self)@ == old(self)@.pi_written(offset, val),
            final(self)@.wf(),
    {
        match offset {
            0x00 => self.pi.intsr = self.pi.intsr & !val,
            0x04 => {
                self.pi.intmsk = val;
                self.maybe_deliver_external_interrupt();
            },
            0x0C => self.pi.fifo_base = val,
            0x10 => self.pi.fifo_end = val,
            0x14 => self.pi.fifo_wptr = val,
            _ => {},
        }
    }

    fn sync_pi_vi(&mut self)
        ensures
            final(self)@ == old(self)@.vi_synced(),
    {
        let active: bool = self.vi.any_display_interrupt_active();
        self.pi.intsr = with_mask(self.pi.intsr, PI_INT_VI, active);
    }

    fn sync_pi_vi_after(&mut self, offset: u32)
        ensures
            final(self)@ == old(self)@.with_vi(old(self)@.vi, offset),
    {
        let idx: u32 = offset / 4;
        if 12 <= idx && idx <= 15 {
            self.sync_pi_vi();
        }
    }

    fn sync_pi_dsp(&mut self)
        ensures
            final(self)@ == old(self)@.dsp_synced(),
    {
        let active: bool = self.dsp.any_interrupt();
        self.pi.intsr = with_mask(self.pi.intsr, PI_INT_DSP, active);
    }

    fn sync_pi_pe_interrupts(&mut self)
        ensures
            final(self)@ == old(self)@.pe_synced(),
    {
        let token: bool = self.gx.pe_token_active();
        let finish: bool = self.gx.pe_finish_active();
        self.pi.intsr = with_mask(self.pi.intsr, PI_INT_PE_TOKEN, token);
        self.pi.intsr = with_mask(self.pi.intsr, PI_INT_PE_FINISH, finish);
    }

    /// Carries out the transfer that the DSP Interface describes.
    fn execute_aram_dma(&mut self)
        requires
            old(self)@.wf(),
        ensures
            final(self)@ == old(self)@.aram_copied(),
            final(self)@.wf(),
    {
        let aram_base: usize = self.dsp.aram_dma_aram_base as usize;
        let ram_base: usize = phys_addr(self.dsp.aram_dma_ram_base);
        let len: usize = (self.dsp.aram_dma_control & 0x7FFF_FFFF) as usize;
        if aram_base >= ARAM_LEN || len == 0 {
            return ;
        }
        let room: usize = ARAM_LEN - aram_base;
        let n: usize = if len < room { len } else { room };
        if ram_base + n > self.ram.len() {
            return ;
        }
        if self.dsp.aram_dma_control >> 31 == 0 {
            copy_bytes(&mut self.aram, aram_base, self.ram.as_slice(), ram_base, n);
        } else {
            copy_bytes(&mut self.ram, ram_base, self.aram.as_slice(), aram_base, n);
        }
    }

    /// Copies bytes from settings memory to main memory.
    fn copy_sram(&mut self, copy: ExiSramDma)
        requires
            old(self)@.wf(),
        ensures
            final(self)@ == old(self)@.sram_copied(copy),
            final(self)@.wf(),
    {
        let from: usize = copy.sram_offset;
        let n: usize = if from >= 64 {
            0
        } else if (copy.length as usize) < 64 - from {
            copy.length as usize
        } else {
            64 - from
        };
        let dest: usize = phys_addr(copy.ram_addr);
        if dest + n > self.ram.len() {
            return ;
        }
        let mut i: usize = 0;
        while i < n
            invariant
                i <= n,
                n <= 64,
                n > 0 ==> from + n <= 64,
                dest + n <= self@.ram.len(),
                dest <= 0x01FF_FFFF,
                self@.ram.len() == old(self)@.ram.len(),
                self@.exi.sram.len() == 64,
                self@ == (EmuView {
                    ram: copied(
                        old(self)@.ram,
                        dest as int,
                        old(self)@.exi.sram,
                        from as int,
                        i as int,
                    ),
                    ..old(self)@
                }),
            decreases n - i,
        {
            let byte: u8 = self.exi.sram[from + i];
            self.ram.set(dest + i, byte);
            i = i + 1;
            assert(self@.ram =~= copied(
                old(self)@.ram,
                dest as int,
                old(self)@.exi.sram,
                from as int,
                i as int,
            ));
        }
        assert(self@.ram =~= copied(
            old(self)@.ram,
            dest as int,
            old(self)@.exi.sram,
            from as int,
            n as int,
        ));
    }

    /// Carries out the command in the DVD Interface.
    pub fn process_di_command(&mut self)
        requires
            old(self)@.wf(),
        ensures
            final(self)@ == old(self)@.di_processed(),
            final(self)@.wf(),
    {
        let cmd: u8 = (self.di.cmd_buf0 >> 24) as u8;
        match cmd {
            0x12 => {
                let dest: usize = phys_addr(self.di.dma_addr);
                if dest + IDENTIFY_LEN <= self.ram.len() {
                    let bytes: Vec<u8> = identity_bytes();
                    copy_bytes(&mut self.ram, dest, bytes.as_slice(), 0, IDENTIFY_LEN);
                }
            },
            0xA8 => self.read_disc(),
            0xE0 | 0xE2 => self.di.imm_buf = 0,
            _ => {},
        }
        self.di.control = self.di.control & !1u32;
        self.di.status = self.di.status | 2;
    }

    /// Carries out the read command.
    fn read_disc(&mut self)
        requires
            old(self)@.wf(),
        ensures
            final(self)@ == old(self)@.disc_read(),
            final(self)@.wf(),
    {
        let disc_offset: u64 = 4 * (self.di.cmd_buf1 as u64);
        let len: u64 = self.di.dma_len as u64;
        let dest: usize = phys_addr(self.di.dma_addr);
        if let Some(disc) = &self.disc {
            if disc_offset + len <= disc.len() as u64 && dest as u64
                + len <= self.ram.len() as u64 {
                copy_bytes(
                    &mut self.ram,
                    dest,
                    disc.as_slice(),
                    disc_offset as usize,
                    len as usize,
                );
                self.dma = DmaNotes {
                    dirty: true,
                    addr: dest as u32,
                    len: self.di.dma_len,
                    disc_offset: disc_offset as u32,
                };
            }
        }
    }

    /// Reads the halfword register at `addr`.
    pub fn hw_read_u16(&self, addr: u32) -> (val: u16)
        ensures
            val == self@.hw_half(addr),
    {
        let at: u32 = addr & !UNCACHED_MIRROR_BIT;
        if in_range(at, GX_BASE, GX_SIZE) {
            return self.gx.read_u16(at - GX_BASE);
        }
        if in_range(at, VI_BASE, VI_SIZE) {
            return self.vi.read_u16(at - VI_BASE);
        }
        if in_range(at, DSP_BASE, DSP_SIZE) {
            return self.dsp.read_u16(at - DSP_BASE);
        }
        if in_range(at, DI_BASE, DI_SIZE) {
            let offset: u32 = at - DI_BASE;
            return take_half(self.di.read_reg(offset & !3u32), offset & 2 == 0);
        }
        if in_range(at, MI_BASE, MI_SIZE) {
            return self.mi.read_u16(at - MI_BASE);
        }
        if in_range(at, SI_BASE, SI_SIZE) {
            let offset: u32 = at - SI_BASE;
            return take_half(self.si.read_u32(offset & !3u32), offset & 2 == 0);
        }
        0
    }

    /// Writes the halfword register at `addr`.
    pub fn hw_write_u16(&mut self, addr: u32, val: u16)
        requires
            old(self)@.wf(),
        ensures
            final(self)@.wf(),
            final(self)@ == old(self)@.hw_written16(addr, val),
    {
        let at: u32 = addr & !UNCACHED_MIRROR_BIT;
        reveal(EmuView::hw_written16);
        if in_range(at, GX_BASE, GX_SIZE) {
            self.write_gx_u16(at - GX_BASE, val);
        } else if in_range(at, VI_BASE, VI_SIZE) {
            self.write_vi_u16(at - VI_BASE, val);
        } else if in_range(at, DSP_BASE, DSP_SIZE) {
            self.write_dsp_u16(at - DSP_BASE, val);
        } else if in_range(at, MI_BASE, MI_SIZE) {
            self.mi.write_u16(at - MI_BASE, val);
        }
    }

    fn write_gx_u16(&mut self, offset: u32, val: u16)
        requires
            old(self)@.wf(),
        ensures
            final(self)@.wf(),
            final(self)@ == old(self)@.gx_written16(offset, val),
    {
        if self.gx.write_u16(offset, val) {
            self.sync_pi_pe_interrupts();
            self.maybe_deliver_external_interrupt();
        }
    }

    fn write_vi_u16(&mut self, offset: u32, val: u16)
        requires
            old(self)@.wf(),
        ensures
            final(self)@.wf(),
            final(self)@ == old(self)@.with_vi(vi_written16(old(self)@.vi, offset, val), offset),
    {
        self.vi.write_u16(offset, val);
        self.sync_pi_vi_after(offset);
    }

    fn write_dsp_u16(&mut self, offset: u32, val: u16)
        requires
            old(self)@.wf(),
        ensures
            final(self)@.wf(),
            final(self)@ == old(self)@.dsp_written16(offset, val),
    {
        self.dsp.write_u16(offset, val);
        self.sync_pi_dsp();
        self.maybe_deliver_external_interrupt();
    }

    /// Reads the byte at `addr` of the word register that holds it.
    pub fn hw_read_u8(&self, addr: u32) -> (val: u8)
        ensures
            val == self@.hw_byte(addr),
    {
        proof {
            lemma_byte_address(addr);
        }
        let addr_n: u32 = addr & !UNCACHED_MIRROR_BIT;
        let aligned: u32 = (addr_n & !3u32) | (addr & 0xFF00_0000u32);
        proof {
            mirrors_agree(self@, aligned, addr & !3u32, 0, 0);
        }
        let word: u32 = self.hw_read_u32(aligned);
        let byte_lane: u32 = addr_n & 3;
        (word >> (24 - byte_lane * 8)) as u8
    }

    /// Writes the byte at `addr`: the word register that holds it is read, and
    /// written back with the byte replaced.
    pub fn hw_write_u8(&mut self, addr: u32, val: u8)
        requires
            old(self)@.wf(),
        ensures
            final(self)@.wf(),
            exists|unix_ms: u64|
                final(self)@ == #[trigger] old(self)@.hw_written32(
                    addr & !3u32,
                    old(self)@.byte_merged(addr, val),
                    unix_ms,
                ),
            ({
                let word = old(self)@.byte_merged(addr, val);
                !old(self)@.reads_time(addr & !3u32, word) ==> final(self)@
                    == old(self)@.hw_written32(addr & !3u32, word, 0)
            }),
    {
        proof {
            lemma_byte_address(addr);
        }
        let addr_n: u32 = addr & !UNCACHED_MIRROR_BIT;
        let aligned: u32 = (addr_n & !3u32) | (addr & 0xFF00_0000u32);
        let shift: u32 = 24 - (addr_n & 3) * 8;
        let current: u32 = self.hw_read_u32(aligned);
        let merged: u32 = (current & !(0xFFu32 << shift)) | ((val as u32) << shift);
        proof {
            assert forall|ms: u64|
                self@.hw_written32(aligned, merged, ms) == #[trigger] self@.hw_written32(
                    addr & !3u32,
                    merged,
                    ms,
                ) by {
                mirrors_agree(self@, aligned, addr & !3u32, merged, ms);
            }
        }
        self.hw_write_u32(aligned, merged);
        proof {
            let ms = choose|ms: u64|
                self@ == #[trigger] old(self)@.hw_written32(aligned, merged, ms);
            assert(self@ == old(self)@.hw_written32(addr & !3u32, merged, ms));
        }
    }

    /// One more frame: call it once for every frame that is shown.
    pub fn assert_vi_interrupt(&mut self)
        requires
            old(self)@.wf(),
        ensures
            final(self)@.wf(),
            final(self)@ == old(self)@.retraced(),
    {
        self.vi.advance_vcount();
        self.vi.fire_display_interrupts();
        self.sync_pi_vi();
        self.gx.fire_pe_finish();
        self.sync_pi_pe_interrupts();
        self.maybe_deliver_external_interrupt();
    }

    /// Advances audio by processor cycles; gives whether its interrupt was raised.
    pub fn advance_ai(&mut self, cpu_cycles: u32) -> (fired: bool)
        requires
            old(self)@.wf(),
        ensures
            final(self)@.wf(),
            final(self)@ == old(self)@.audio_advanced(cpu_cycles),
            fired == (old(self)@.samples_due(cpu_cycles) != 0 && old(self)@.ai.fires(
                old(self)@.samples_due(cpu_cycles),
            )),
    {
        let cycles: u64 = self.ai_cpu_cycles + cpu_cycles as u64;
        let per_sample: u64 = if self.ai.control & 2 != 0 {
            CYCLES_PER_SAMPLE_32K
        } else {
            CYCLES_PER_SAMPLE_48K
        };
        let samples: u64 = cycles / per_sample;
        self.ai_cpu_cycles = cycles % per_sample;
        if samples == 0 {
            return false;
        }
        if self.ai.tick_sample_counter(samples as u32) {
            self.pi.intsr = self.pi.intsr | PI_INT_AI;
            self.maybe_deliver_external_interrupt();
            return true;
        }
        false
    }

    /// Physical address of the external frame buffer; 0 if none was set.
    pub fn vi_xfb_addr(&self) -> (addr: u32)
        ensures
            addr == vi_frame_buffer(self@.vi),
    {
        self.vi.xfb_addr()
    }

    /// Gives the bytes sent to the debug port since the last call.
    pub fn take_uart_output(&mut self) -> (output: Vec<u8>)
        ensures
            output@ == old(self)@.exi.uart_output,
            final(self)@ == (EmuView {
                exi: ExiView { uart_output: Seq::empty(), ..old(self)@.exi },
                ..old(self)@
            }),
    {
        self.exi.take_uart_output()
    }

    /// Gives whether a disc transfer has changed main memory since the last call.
    pub fn take_dma_dirty(&mut self) -> (dirty: bool)
        ensures
            dirty == old(self)@.dma.dirty,
            final(self)@ == (EmuView {
                dma: DmaNotes { dirty: false, ..old(self)@.dma },
                ..old(self)@
            }),
    {
        let dirty: bool = self.dma.dirty;
        self.dma.dirty = false;
        dirty
    }

    /// Physical address of the last disc transfer.
    pub fn last_dma_addr(&self) -> (addr: u32)
        ensures
            addr == self@.dma.addr,
    {
        self.dma.addr
    }

    /// Length of the last disc transfer.
    pub fn last_dma_len(&self) -> (len: u32)
        ensures
            len == self@.dma.len,
    {
        self.dma.len
    }

    /// Position on disc of the last disc transfer.
    pub fn last_di_disc_offset(&self) -> (offset: u32)
        ensures
            offset == self@.dma.disc_offset,
    {
        self.dma.disc_offset
    }
}

} // verus!
