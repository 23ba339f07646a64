//! The registers of the devices, by their addresses.
//!
//! Addresses are those of the first mirror.

use vstd::prelude::*;

use super::ai::AiState;
use super::di::DiState;
use super::emulator::{EmuView, PiRegs};
use super::hw::{identity, unmirrored};
use super::pi::{PI_INT_AI, PI_INT_DI, PI_INT_SI};
use super::exi::{transfer_bytes, transfer_direction, transfer_is_dma, ExiChannel};
use super::si::{poll_byte0, poll_byte1, poll_response, Axes};
use super::vi::{vi_frame_buffer, vi_interrupting, vi_line};
use super::xfb::{blue, component, green, red};
use crate::bits::half_arithmetic;
use crate::bytes::{be16_at, byte_order, low_address};

verus! {

/// Every word register is found at its address: the Processor Interface from 0xCC00_3000,
/// the DVD Interface from 0xCC00_6000, the Serial Interface from 0xCC00_6400, the External
/// Interface from 0xCC00_6800 with three channels of five words, the Audio Interface from
/// 0xCC00_6C00, and 32 words of the Video Interface from 0xCC00_2000.
pub proof fn word_registers_have_their_addresses(emu: EmuView, addr: u32)
    requires
        emu.vi.len() == 32,
    ensures
        ({
            let at = unmirrored(addr);
            let word = emu.hw_word(addr);
            &&& at == 0xCC00_3000 ==> word == emu.pi.intsr
            &&& at == 0xCC00_3004 ==> word == emu.pi.intmsk
            &&& at == 0xCC00_300C ==> word == emu.pi.fifo_base
            &&& at == 0xCC00_3010 ==> word == emu.pi.fifo_end
            &&& at == 0xCC00_3014 ==> word == emu.pi.fifo_wptr
            &&& at == 0xCC00_3028 ==> word == 24 * 1024 * 1024
            &&& at == 0xCC00_302C ==> word == 162_000_000
            &&& at == 0xCC00_3030 ==> word == 486_000_000
            &&& at == 0xCC00_6000 ==> word == emu.di.status
            &&& at == 0xCC00_6004 ==> word == emu.di.cover
            &&& at == 0xCC00_6008 ==> word == emu.di.cmd_buf0
            &&& at == 0xCC00_600C ==> word == emu.di.cmd_buf1
            &&& at == 0xCC00_6010 ==> word == emu.di.cmd_buf2
            &&& at == 0xCC00_6014 ==> word == emu.di.dma_addr
            &&& at == 0xCC00_6018 ==> word == emu.di.dma_len
            &&& at == 0xCC00_601C ==> word == emu.di.control
            &&& at == 0xCC00_6020 ==> word == emu.di.imm_buf
            &&& at == 0xCC00_6024 ==> word == emu.di.config
            &&& at == 0xCC00_6C00 ==> word == emu.ai.control
            &&& at == 0xCC00_6C04 ==> word == emu.ai.volume
            &&& at == 0xCC00_6C08 ==> word == emu.ai.sample_count
            &&& at == 0xCC00_6C0C ==> word == emu.ai.interrupt_sample
            &&& at == 0xCC00_6430 ==> word == emu.si.poll
            &&& at == 0xCC00_6434 ==> word == emu.si.comm_ctrl
            &&& at == 0xCC00_6438 ==> word == emu.si.status
            &&& at == 0xCC00_643C ==> word == emu.si.exi_clock_lock
            &&& forall|n: int|
                0 <= n < 4 && at == 0xCC00_6400 + 12 * n ==> word == #[trigger] emu.si.out_buf[n]
            &&& forall|n: int|
                0 <= n < 4 && at == 0xCC00_6404 + 12 * n ==> word
                    == #[trigger] emu.si.in_buf_hi[n]
            &&& forall|n: int|
                0 <= n < 4 && at == 0xCC00_6408 + 12 * n ==> word
                    == #[trigger] emu.si.in_buf_lo[n]
            &&& forall|n: int|
                0 <= n < 3 && at == 0xCC00_6800 + 20 * n ==> word
                    == (#[trigger] emu.exi.channels[n]).param
            &&& forall|n: int|
                0 <= n < 3 && at == 0xCC00_6804 + 20 * n ==> word
                    == (#[trigger] emu.exi.channels[n]).dma_base
            &&& forall|n: int|
                0 <= n < 3 && at == 0xCC00_6808 + 20 * n ==> word
                    == (#[trigger] emu.exi.channels[n]).dma_length
            &&& forall|n: int|
                0 <= n < 3 && at == 0xCC00_680C + 20 * n ==> word
                    == (#[trigger] emu.exi.channels[n]).control
            &&& forall|n: int|
                0 <= n < 3 && at == 0xCC00_6810 + 20 * n ==> word
                    == (#[trigger] emu.exi.channels[n]).data
            &&& forall|n: int|
                0 <= n < 32 && at == 0xCC00_2000 + 4 * n ==> word == #[trigger] emu.vi[n]
        }),
{
}

/// The halfword registers are found at theirs: the Command Processor and the Pixel Engine
/// from 0xCC00_0000, the Memory Interface from 0xCC00_4000 and the DSP Interface from
/// 0xCC00_5000.
pub proof fn half_registers_have_their_addresses(emu: EmuView, addr: u32)
    ensures
        ({
            let at = unmirrored(addr);
            let half = emu.hw_half(addr);
            let gx = emu.gx.regs;
            &&& at == 0xCC00_0000 ==> half == gx.cp_status
            &&& at == 0xCC00_0002 ==> half == gx.cp_control
            &&& at == 0xCC00_0004 ==> half == gx.cp_clear
            &&& at == 0xCC00_0020 ==> half == gx.cp_fifo_start % 0x1_0000
            &&& at == 0xCC00_0022 ==> half == gx.cp_fifo_start / 0x1_0000
            &&& at == 0xCC00_0024 ==> half == gx.cp_fifo_end % 0x1_0000
            &&& at == 0xCC00_0026 ==> half == gx.cp_fifo_end / 0x1_0000
            &&& at == 0xCC00_0028 ==> half == gx.cp_fifo_hwmark % 0x1_0000
            &&& at == 0xCC00_002A ==> half == gx.cp_fifo_hwmark / 0x1_0000
            &&& at == 0xCC00_002C ==> half == gx.cp_fifo_lwmark % 0x1_0000
            &&& at == 0xCC00_002E ==> half == gx.cp_fifo_lwmark / 0x1_0000
            &&& at == 0xCC00_0030 ==> half == gx.cp_fifo_count % 0x1_0000
            &&& at == 0xCC00_0032 ==> half == gx.cp_fifo_count / 0x1_0000
            &&& at == 0xCC00_0034 ==> half == gx.cp_fifo_wptr % 0x1_0000
            &&& at == 0xCC00_0036 ==> half == gx.cp_fifo_wptr / 0x1_0000
            &&& at == 0xCC00_0038 ==> half == gx.cp_fifo_rptr % 0x1_0000
            &&& at == 0xCC00_003A ==> half == gx.cp_fifo_rptr / 0x1_0000
            &&& at == 0xCC00_003C ==> half == gx.cp_fifo_breakpoint % 0x1_0000
            &&& at == 0xCC00_003E ==> half == gx.cp_fifo_breakpoint / 0x1_0000
            &&& at == 0xCC00_100A ==> half == gx.pe_int_status
            &&& at == 0xCC00_100E ==> half == gx.pe_token
            &&& at == 0xCC00_4010 ==> half == emu.mi.protection
            &&& at == 0xCC00_401C ==> half == emu.mi.int_mask
            &&& at == 0xCC00_4020 ==> half == emu.mi.interrupt
            &&& at == 0xCC00_5004 ==> half == emu.dsp.dsp2cpu_hi
            &&& at == 0xCC00_5006 ==> half == emu.dsp.dsp2cpu_lo
            &&& at == 0xCC00_500A ==> half == emu.dsp.control
            &&& at == 0xCC00_5036 ==> half == emu.dsp.audio_dma_control
        }),
{
    let gx = emu.gx.regs;
    lemma_halves(gx.cp_fifo_start);
    lemma_halves(gx.cp_fifo_end);
    lemma_halves(gx.cp_fifo_hwmark);
    lemma_halves(gx.cp_fifo_lwmark);
    lemma_halves(gx.cp_fifo_count);
    lemma_halves(gx.cp_fifo_wptr);
    lemma_halves(gx.cp_fifo_rptr);
    lemma_halves(gx.cp_fifo_breakpoint);
}

proof fn lemma_halves(word: u32)
    ensures
        word as u16 == word % 0x1_0000,
        (word >> 16) as u16 == word / 0x1_0000,
{
    lemma_register_bits(word, 0);
}

proof fn lemma_register_bits(word: u32, v: i32)
    by (bit_vector)
    ensures
        word as u16 == word % 0x1_0000,
        (word >> 16) as u16 == word / 0x1_0000,
        -300_000 <= v <= 300_000 ==> v >> 10u32 == ((v + 0x4000_0000) as u32) / 1024 - 0x10_0000,
        (word | 0x4) / 4 % 2 == 1 && (word & !0x4u32) / 4 % 2 == 0,
        (word | 0x8) / 8 % 2 == 1 && (word & !0x8u32) / 8 % 2 == 0,
        (word | 0x20) / 0x20 % 2 == 1 && (word & !0x20u32) / 0x20 % 2 == 0,
        (word | 0x40) / 0x40 % 2 == 1 && (word & !0x40u32) / 0x40 % 2 == 0,
        (word | 0x80) / 0x80 % 2 == 1 && (word & !0x80u32) / 0x80 % 2 == 0,
        (word | 0x200) / 0x200 % 2 == 1 && (word & !0x200u32) / 0x200 % 2 == 0,
        (word | 0x400) / 0x400 % 2 == 1 && (word & !0x400u32) / 0x400 % 2 == 0,
        (word | 0x400) / 0x200 % 2 == word / 0x200 % 2,
        (word & !0x400u32) / 0x200 % 2 == word / 0x200 % 2,
        (word & 2 != 0) == (word / 2 % 2 == 1),
        (word & 0x00FF_FFFF) << 5 == 32 * (word % 0x100_0000),
        ((word >> 1) & 1 != 0) == (word / 2 % 2 == 1),
        (word >> 2) & 3 == word / 4 % 4,
        (word >> 4) & 0xF == word / 16 % 16,
        (word >> 7) & 7 == word / 128 % 8,
{
}

/// Registers without side effects take what is written at their address, and nothing else
/// changes.
pub proof fn plain_registers_are_written(emu: EmuView, addr: u32, val: u32, unix_ms: u64)
    ensures
        ({
            let at = unmirrored(addr);
            let after = emu.hw_written32(addr, val, unix_ms);
            let di = emu.di;
            &&& at == 0xCC00_6004 ==> after == (EmuView { di: DiState { cover: val, ..di }, ..emu })
            &&& at == 0xCC00_6008 ==> after == (EmuView {
                di: DiState { cmd_buf0: val, ..di },
                ..emu
            })
            &&& at == 0xCC00_600C ==> after == (EmuView {
                di: DiState { cmd_buf1: val, ..di },
                ..emu
            })
            &&& at == 0xCC00_6010 ==> after == (EmuView {
                di: DiState { cmd_buf2: val, ..di },
                ..emu
            })
            &&& at == 0xCC00_6014 ==> after == (EmuView {
                di: DiState { dma_addr: val, ..di },
                ..emu
            })
            &&& at == 0xCC00_6018 ==> after == (EmuView {
                di: DiState { dma_len: val, ..di },
                ..emu
            })
            &&& at == 0xCC00_6020 ==> after == (EmuView {
                di: DiState { imm_buf: val, ..di },
                ..emu
            })
            &&& at == 0xCC00_6024 ==> after == (EmuView {
                di: DiState { config: val, ..di },
                ..emu
            })
            &&& at == 0xCC00_6C04 ==> after == (EmuView {
                ai: AiState { volume: val, ..emu.ai },
                ..emu
            })
            &&& at == 0xCC00_6C08 ==> after == emu
            &&& at == 0xCC00_6C0C ==> after == (EmuView {
                ai: AiState { interrupt_sample: val, ..emu.ai },
                ..emu
            })
            &&& at == 0xCC00_300C ==> after == (EmuView {
                pi: PiRegs { fifo_base: val, ..emu.pi },
                ..emu
            })
            &&& at == 0xCC00_3010 ==> after == (EmuView {
                pi: PiRegs { fifo_end: val, ..emu.pi },
                ..emu
            })
            &&& at == 0xCC00_3014 ==> after == (EmuView {
                pi: PiRegs { fifo_wptr: val, ..emu.pi },
                ..emu
            })
        }),
{
    let at = unmirrored(addr);
    if 0xCC00_6000 <= at < 0xCC00_6028 {
        lemma_di_write(emu, addr, val, unix_ms);
    } else if 0xCC00_6C00 <= at < 0xCC00_6C10 {
        lemma_ai_write(emu, addr, val, unix_ms);
    } else if 0xCC00_3000 <= at < 0xCC00_3040 {
        lemma_pi_write(emu, addr, val, unix_ms);
    }
}

proof fn lemma_di_write(emu: EmuView, addr: u32, val: u32, unix_ms: u64)
    requires
        0xCC00_6000 <= unmirrored(addr) < 0xCC00_6028,
    ensures
        emu.hw_written32(addr, val, unix_ms) == emu.di_written(
            (unmirrored(addr) - 0xCC00_6000) as u32,
            val,
        ),
{
    reveal(EmuView::hw_written32);
}

proof fn lemma_ai_write(emu: EmuView, addr: u32, val: u32, unix_ms: u64)
    requires
        0xCC00_6C00 <= unmirrored(addr) < 0xCC00_6C10,
    ensures
        emu.hw_written32(addr, val, unix_ms) == (EmuView {
            ai: emu.ai.written((unmirrored(addr) - 0xCC00_6C00) as u32, val),
            ..emu
        }),
{
    reveal(EmuView::hw_written32);
}

proof fn lemma_pi_write(emu: EmuView, addr: u32, val: u32, unix_ms: u64)
    requires
        0xCC00_3000 <= unmirrored(addr) < 0xCC00_3040,
    ensures
        emu.hw_written32(addr, val, unix_ms) == emu.pi_written(
            (unmirrored(addr) - 0xCC00_3000) as u32,
            val,
        ),
{
    reveal(EmuView::hw_written32);
}

/// Interrupts have their bits in the Processor Interface: the DVD drive bit 2, the Serial
/// Interface bit 3, the Audio Interface bit 5, the DSP bit 6, the Video Interface bit 7,
/// the token of the Pixel Engine bit 9 and the end of drawing bit 10.
pub proof fn interrupts_have_their_bits(emu: EmuView)
    ensures
        emu.flagged(PI_INT_DI, true).pi.intsr / 0x4 % 2 == 1,
        emu.flagged(PI_INT_SI, true).pi.intsr / 0x8 % 2 == 1,
        emu.flagged(PI_INT_AI, true).pi.intsr / 0x20 % 2 == 1,
        emu.vi_synced().pi.intsr / 0x80 % 2 == if vi_interrupting(emu.vi) {
            1int
        } else {
            0
        },
        emu.dsp_synced().pi.intsr / 0x40 % 2 == if emu.dsp.interrupting() {
            1int
        } else {
            0
        },
        emu.pe_synced().pi.intsr / 0x200 % 2 == if emu.gx.regs.token_active() {
            1int
        } else {
            0
        },
        emu.pe_synced().pi.intsr / 0x400 % 2 == if emu.gx.regs.finish_active() {
            1int
        } else {
            0
        },
{
    let word = emu.pi.intsr;
    lemma_register_bits(word, 0);
    lemma_register_bits(word | 0x200, 0);
    lemma_register_bits(word & !0x200u32, 0);
}

/// Audio samples come at 48 kHz, or at 32 kHz if bit 1 of the control register is set: so
/// many cycles of the processor clock go by, rounded down.
pub proof fn samples_come_at_their_rate(emu: EmuView)
    ensures
        emu.cycles_per_sample() == if emu.ai.control / 2 % 2 == 1 {
            486_000_000int / 32_000
        } else {
            486_000_000int / 48_000
        },
{
    lemma_register_bits(emu.ai.control, 0);
}

/// `value` limited to a byte.
pub open spec fn limited(value: int) -> int {
    if value < 0 {
        0
    } else if value > 255 {
        255
    } else {
        value
    }
}

/// A small number shifted right by ten bits.
pub(crate) proof fn lemma_scaled_down(v: i32)
    requires
        -300_000 <= v <= 300_000,
    ensures
        v >> 10u32 == v / 1024,
{
    lemma_register_bits(0, v);
}

/// The colours of a pixel from its luma and the two differences, which are centred on 128:
/// red from the red difference, blue from the blue one, and green from both.
pub proof fn colours_are_mixed(y: u8, cb: u8, cr: u8)
    ensures
        red(y, cr) == limited(y + (1402 * (cr - 128)) / 1024),
        blue(y, cb) == limited(y + (1772 * (cb - 128)) / 1024),
        green(y, cb, cr) == limited(y - (344 * (cb - 128) + 714 * (cr - 128)) / 1024),
{
    lemma_scaled_down((1402 * (cr - 128)) as i32);
    lemma_scaled_down((1772 * (cb - 128)) as i32);
    lemma_scaled_down((344 * (cb - 128) + 714 * (cr - 128)) as i32);
}

/// Two pixels share four bytes: blue difference, luma of the first, red difference, luma
/// of the second. Each becomes red, green, blue and an opaque alpha.
pub proof fn pixels_come_in_pairs(xfb: Seq<u8>, k: int)
    requires
        0 <= k,
    ensures
        component(xfb, 2 * k, 0) == red(xfb[4 * k + 1], xfb[4 * k + 2]),
        component(xfb, 2 * k, 1) == green(xfb[4 * k + 1], xfb[4 * k], xfb[4 * k + 2]),
        component(xfb, 2 * k, 2) == blue(xfb[4 * k + 1], xfb[4 * k]),
        component(xfb, 2 * k, 3) == 255,
        component(xfb, 2 * k + 1, 0) == red(xfb[4 * k + 3], xfb[4 * k + 2]),
        component(xfb, 2 * k + 1, 1) == green(xfb[4 * k + 3], xfb[4 * k], xfb[4 * k + 2]),
        component(xfb, 2 * k + 1, 2) == blue(xfb[4 * k + 3], xfb[4 * k]),
        component(xfb, 2 * k + 1, 3) == 255,
{
}

/// The frame buffer is at 32 times the low 24 bits of the word at offset 0x1C of the Video
/// Interface, and the current line is the upper half of the word at 0x2C.
pub proof fn frames_are_found(regs: Seq<u32>)
    requires
        regs.len() == 32,
    ensures
        vi_frame_buffer(regs) == 32 * (regs[7] % 0x100_0000),
        vi_line(regs) == regs[11] / 0x1_0000,
{
    lemma_halves(regs[11]);
    lemma_register_bits(regs[7], 0);
}

/// What a control word of the External Interface asks for: bit 1 for a transfer to or from
/// memory, bits 2 and 3 for the direction, and bits 4 to 7 for the number of bytes less
/// one; the parameter word selects devices by its bits 7 to 9.
pub proof fn transfers_are_described(cr: u32, channel: ExiChannel)
    ensures
        transfer_is_dma(cr) == (cr / 2 % 2 == 1),
        transfer_direction(cr) == cr / 4 % 4,
        transfer_bytes(cr) == cr / 16 % 16 + 1,
        channel.device() == channel.param / 128 % 8,
{
    lemma_register_bits(cr, 0);
    lemma_register_bits(channel.param, 0);
}

proof fn lemma_pad_bits(pad: u32)
    by (bit_vector)
    ensures
        poll_byte0(pad) == pad % 2 + 2 * (pad / 2 % 2) + 4 * (pad / 4 % 2) + 8 * (pad / 8 % 2) + 16
            * (pad / 0x20 % 2),
        poll_byte1(pad) == 0x80 + pad / 0x100 % 2 + 2 * (pad / 0x200 % 2) + 4 * (pad / 0x80 % 2) + 8
            * (pad / 0x40 % 2) + 16 * (pad / 0x10 % 2) + 32 * (pad / 0x800 % 2) + 64 * (pad / 0x400
            % 2),
{
}

/// The reply of a controller to a poll: one bit for each button, from the bits for A, B, X,
/// Y, Z, Start, up, down, left, right, L and R in this order; then the sticks and triggers.
pub proof fn buttons_have_their_bits(pad: u32, axes: Axes)
    ensures
        ({
            let reply = poll_response(pad, axes);
            &&& reply.len() == 8
            &&& reply[0] == pad % 2 + 2 * (pad / 2 % 2) + 4 * (pad / 4 % 2) + 8 * (pad / 8 % 2) + 16
                * (pad / 0x20 % 2)
            &&& reply[1] == 0x80 + pad / 0x100 % 2 + 2 * (pad / 0x200 % 2) + 4 * (pad / 0x80 % 2)
                + 8 * (pad / 0x40 % 2) + 16 * (pad / 0x10 % 2) + 32 * (pad / 0x800 % 2) + 64 * (pad
                / 0x400 % 2)
            &&& reply[2] == axes.joy_x
            &&& reply[3] == axes.joy_y
            &&& reply[4] == axes.c_stick_x
            &&& reply[5] == axes.c_stick_y
            &&& reply[6] == axes.l_trig
            &&& reply[7] == axes.r_trig
        }),
{
    lemma_pad_bits(pad);
}

/// The drive identifies itself with 32 bytes, of which the fifth to the ninth are a date
/// and a version, and the others zero.
pub proof fn drives_identify_themselves(i: int)
    requires
        0 <= i < 32,
    ensures
        identity().len() == 32,
        identity().subrange(4, 9) == seq![0x20u8, 0x02, 0x04, 0x02, 0x61],
        i < 4 || i >= 9 ==> identity()[i] == 0,
{
    assert(identity().subrange(4, 9) =~= seq![0x20u8, 0x02, 0x04, 0x02, 0x61]);
}

/// Samples are signed halfwords in main memory, the most significant byte first, left and
/// right in turn, from the position of playback on and round the buffer, whose address
/// counts modulo 32 MiB.
pub proof fn samples_are_taken_in_turn(emu: EmuView, j: int)
    requires
        0 <= j,
        emu.dsp.audio_len() > 0,
        emu.dsp.audio_dma_base as int % 0x0200_0000 + emu.dsp.audio_len() + 4 <= emu.ram.len(),
    ensures
        ({
            let at = emu.dsp.audio_dma_base as int % 0x0200_0000 + (emu.dsp.audio_dma_pos + 4 * j)
                % emu.dsp.audio_len();
            let left = 0x100 * emu.ram[at] + emu.ram[at + 1];
            let right = 0x100 * emu.ram[at + 2] + emu.ram[at + 3];
            &&& emu.audio_value(2 * j) == if left < 0x8000 {
                left
            } else {
                left - 0x1_0000
            }
            &&& emu.audio_value(2 * j + 1) == if right < 0x8000 {
                right
            } else {
                right - 0x1_0000
            }
        }),
{
    let len = emu.dsp.audio_len();
    let pos = (emu.dsp.audio_dma_pos + 4 * j) % len;
    let at = emu.dsp.audio_dma_base as int % 0x0200_0000 + pos;
    low_address(emu.dsp.audio_dma_base);
    vstd::arithmetic::div_mod::lemma_mod_bound(emu.dsp.audio_dma_pos + 4 * j, len);
    byte_order(emu.ram, at);
    byte_order(emu.ram, at + 2);
    half_arithmetic(be16_at(emu.ram, at));
    half_arithmetic(be16_at(emu.ram, at + 2));
    assert((2 * j) / 2 == j && (2 * j + 1) / 2 == j && (2 * j) % 2 == 0 && (2 * j + 1) % 2 == 1);
}

} // verus!
