//! What holds of the emulator across register accesses: transfers arrive, signals
//! reach the interrupt status, and interrupts are taken exactly when allowed.

use vstd::prelude::*;

use super::cache::physical_address;
use super::di::DI_BASE;
use super::dsp::DSP_BASE;
use super::emulator::{EmuView, PiRegs, ARAM_LEN};
use super::gx_fifo::{
    command_complete, command_effect, consumed, payload_length, FifoRegs, FifoView, Mode,
    BP_PIXEL_DONE,
};
use super::hw::unmirrored;
use super::pi::{PI_BASE, PI_INT_DI, PI_INT_PE_FINISH, PI_INT_VI};
use super::vi::{is_display_interrupt, vi_advanced, vi_fired, vi_retrace};
use crate::gekko::{Exception, MSR_EE};

verus! {

/// A bit that was set is set.
proof fn lemma_set_bits_are_set(word: u32, half: u16)
    ensures
        (word | 2) & 2 != 0,
        (word & !1u32) & 1 == 0,
        (word | PI_INT_DI) & PI_INT_DI != 0,
        (word | PI_INT_VI) & PI_INT_VI != 0,
        (half | 8) & 8 != 0,
        (half | 4) & 4 != 0,
        ((half | 8) | 4) & 8 != 0,
{
    assert((word | 2) & 2 != 0 && (word & !1u32) & 1 == 0 && (word | 4u32) & 4u32 != 0 && (word
        | 0x80u32) & 0x80u32 != 0 && (half | 8) & 8 != 0 && (half | 4) & 4 != 0 && ((half | 8) | 4)
        & 8 != 0) by (bit_vector);
}

/// Which registers a write of a word reaches.
proof fn lemma_reached(emu: EmuView, addr: u32, val: u32, unix_ms: u64)
    ensures
        unmirrored(addr) == DI_BASE + 0x1C ==> emu.hw_written32(addr, val, unix_ms)
            == emu.di_written(0x1C, val),
        unmirrored(addr) == DSP_BASE + 0x28 ==> emu.hw_written32(addr, val, unix_ms)
            == emu.dsp_written32(0x28, val),
        unmirrored(addr) == PI_BASE ==> emu.hw_written32(addr, val, unix_ms) == emu.pi_written(
            0x00,
            val,
        ),
        unmirrored(addr) == PI_BASE + 0x04 ==> emu.hw_written32(addr, val, unix_ms)
            == emu.pi_written(0x04, val),
{
    reveal(EmuView::hw_written32);
}

/// A disc read that lies on the disc and in main memory puts the bytes of the disc
/// there and changes no others.
pub proof fn disc_reads_arrive(
    emu: EmuView,
    disc: Seq<u8>,
    addr: u32,
    control: u32,
    unix_ms: u64,
    i: int,
)
    requires
        unmirrored(addr) == DI_BASE + 0x1C,
        control & 1 != 0,
        (emu.di.cmd_buf0 >> 24) as u8 == 0xA8,
        emu.disc == Some(disc),
        emu.disc_position() + emu.di.dma_len <= disc.len(),
        physical_address(emu.di.dma_addr) + emu.di.dma_len <= emu.ram.len(),
        0 <= i < emu.ram.len(),
    ensures
        ({
            let after = emu.hw_written32(addr, control, unix_ms);
            let dest = physical_address(emu.di.dma_addr);
            &&& after.ram.len() == emu.ram.len()
            &&& dest <= i < dest + emu.di.dma_len ==> after.ram[i] == disc[emu.disc_position() + i
                - dest]
            &&& !(dest <= i < dest + emu.di.dma_len) ==> after.ram[i] == emu.ram[i]
            &&& after.dma.dirty
            &&& after.dma.addr == dest
            &&& after.dma.len == emu.di.dma_len
        }),
{
    lemma_reached(emu, addr, control, unix_ms);
}

/// Every disc command is over at once: the start bit is clear, completion is
/// flagged, and the interrupt is raised, whatever the command was.
pub proof fn disc_commands_complete(emu: EmuView, addr: u32, control: u32, unix_ms: u64)
    requires
        unmirrored(addr) == DI_BASE + 0x1C,
        control & 1 != 0,
    ensures
        ({
            let after = emu.hw_written32(addr, control, unix_ms);
            &&& after.di.control & 1 == 0
            &&& after.di.status & 2 != 0
            &&& after.pi.intsr & PI_INT_DI != 0
        }),
{
    lemma_reached(emu, addr, control, unix_ms);
    lemma_set_bits_are_set(emu.pi.intsr, 0);
    lemma_set_bits_are_set(emu.di.status, 0);
    lemma_set_bits_are_set(control, 0);
}

/// Of the disc commands only the two status requests clear DIIMMBUF, and only the
/// identification and the read reach main memory. Every other command completes and does
/// nothing else.
pub proof fn other_disc_commands_do_nothing(emu: EmuView)
    ensures
        ({
            let cmd = (emu.di.cmd_buf0 >> 24) as u8;
            let after = emu.di_processed();
            &&& after.di.imm_buf == if cmd == 0xE0 || cmd == 0xE2 {
                0
            } else {
                emu.di.imm_buf
            }
            &&& cmd != 0x12 && cmd != 0xA8 ==> after.ram == emu.ram && after.dma == emu.dma
            &&& cmd != 0x12 && cmd != 0xA8 && cmd != 0xE0 && cmd != 0xE2 ==> after == (EmuView {
                di: emu.di.completed(),
                ..emu
            })
        }),
{
}

/// Bytes that were sent to audio memory come back unchanged, whatever has become of
/// main memory in between.
pub proof fn audio_memory_keeps(
    before: EmuView,
    later: EmuView,
    addr: u32,
    there: u32,
    back: u32,
    unix_ms: u64,
    i: int,
)
    requires
        unmirrored(addr) == DSP_BASE + 0x28,
        there >> 31 == 0,
        back >> 31 != 0,
        there & 0x7FFF_FFFF == back & 0x7FFF_FFFF,
        there & 0x7FFF_FFFF != 0,
        before.dsp.aram_dma_aram_base + (there & 0x7FFF_FFFF) <= ARAM_LEN,
        physical_address(before.dsp.aram_dma_ram_base) + (there & 0x7FFF_FFFF)
            <= before.ram.len(),
        before.aram.len() == ARAM_LEN,
        later.aram == before.hw_written32(addr, there, unix_ms).aram,
        later.ram.len() == before.ram.len(),
        later.dsp.aram_dma_aram_base == before.dsp.aram_dma_aram_base,
        later.dsp.aram_dma_ram_base == before.dsp.aram_dma_ram_base,
        0 <= i < there & 0x7FFF_FFFF,
    ensures
        ({
            let at = physical_address(before.dsp.aram_dma_ram_base) + i;
            later.hw_written32(addr, back, unix_ms).ram[at] == before.ram[at]
        }),
{
    lemma_reached(before, addr, there, unix_ms);
    lemma_reached(later, addr, back, unix_ms);
}

/// Writing 1 to a bit of the interrupt status clears it and nothing else.
pub proof fn interrupt_status_clears(emu: EmuView, addr: u32, val: u32, unix_ms: u64)
    requires
        unmirrored(addr) == PI_BASE,
    ensures
        emu.hw_written32(addr, val, unix_ms) == (EmuView {
            pi: PiRegs { intsr: emu.pi.intsr & !val, ..emu.pi },
            ..emu
        }),
{
    lemma_reached(emu, addr, val, unix_ms);
}

/// Enabling an interrupt that is already raised takes it at once, if the processor
/// allows interrupts.
pub proof fn raised_interrupts_wait(emu: EmuView, addr: u32, mask: u32, unix_ms: u64)
    requires
        unmirrored(addr) == PI_BASE + 0x04,
    ensures
        ({
            let after = emu.hw_written32(addr, mask, unix_ms);
            &&& after.pi.intmsk == mask
            &&& after.pi.intsr == emu.pi.intsr
            &&& emu.pi.intsr & mask != 0 && emu.cpu.msr & MSR_EE != 0 ==> after.cpu
                == emu.cpu.after_exception(Exception::Interrupt)
            &&& emu.pi.intsr & mask == 0 || emu.cpu.msr & MSR_EE == 0 ==> after.cpu == emu.cpu
        }),
{
    lemma_reached(emu, addr, mask, unix_ms);
}

/// A new frame raises the video interrupt if a display interrupt is enabled, and
/// signals the end of drawing.
pub proof fn frames_are_signalled(emu: EmuView, i: int)
    requires
        emu.vi.len() == 32,
        is_display_interrupt(i),
        (emu.vi[i] >> 28) & 1 != 0,
    ensures
        emu.retraced().pi.intsr & PI_INT_VI != 0,
        emu.retraced().gx.regs.pe_int_status & 8 != 0,
{
    let advanced = vi_advanced(emu.vi);
    assert(advanced[i] == emu.vi[i]);
    vi_retrace(advanced, i, 0);
    let fired = vi_fired(advanced);
    assert(super::vi::interrupt_active(fired[i]));
    assert(super::vi::vi_interrupting(fired));
    let regs = emu.gx.regs;
    lemma_set_bits_are_set(emu.pi.intsr, regs.pe_int_status);
    let raised = emu.pi.intsr | PI_INT_VI;
    lemma_video_survives(raised);
}

/// The bits of the Pixel Engine are not that of the Video Interface.
proof fn lemma_video_survives(word: u32)
    ensures
        word & PI_INT_VI != 0 ==> forall|token: bool, finish: bool|
            #[trigger] super::pi::masked(
                super::pi::masked(word, super::pi::PI_INT_PE_TOKEN, token),
                PI_INT_PE_FINISH,
                finish,
            ) & PI_INT_VI != 0,
{
    assert(((word | 0x200u32) | 0x400u32) & 0x80u32 == word & 0x80u32 && ((word | 0x200u32)
        & !0x400u32) & 0x80u32 == word & 0x80u32 && ((word & !0x200u32) | 0x400u32) & 0x80u32
        == word & 0x80u32 && ((word & !0x200u32) & !0x400u32) & 0x80u32 == word & 0x80u32)
        by (bit_vector);
}

/// What a write to the command stream signals reaches the Pixel Engine before the
/// next write, and only once.
pub proof fn stream_signals_are_passed_on(emu: EmuView, val: u32)
    ensures
        ({
            let taken = consumed(emu.gx.fifo.pushed(val), Mode::Simple).fifo.regs;
            let after = emu.streamed(val);
            &&& !after.gx.fifo.regs.pe_finish_pending
            &&& !after.gx.fifo.regs.pe_token_pending
            &&& taken.pe_finish_pending ==> after.gx.regs.pe_int_status & 8 != 0
            &&& taken.pe_token_pending ==> after.gx.regs.pe_int_status & 4 != 0
                && after.gx.regs.pe_token == taken.pe_token
            &&& !taken.pe_finish_pending && !taken.pe_token_pending ==> after.gx.regs
                == emu.gx.regs && after.pi == emu.pi && after.cpu == emu.cpu
        }),
{
    let status = emu.gx.regs.pe_int_status;
    lemma_set_bits_are_set(0, status);
    lemma_set_bits_are_set(0, status | 8);
}

/// Loading transform registers signals nothing.
proof fn lemma_loads_keep_signals(regs: FifoRegs, bytes: Seq<u8>, at: int, base: u16, n: nat)
    ensures
        ({
            let after = regs.xf_loaded(bytes, at, base, n);
            &&& after.pe_finish_pending == regs.pe_finish_pending
            &&& after.pe_token_pending == regs.pe_token_pending
        }),
    decreases n,
{
    if n > 0 {
        lemma_loads_keep_signals(regs, bytes, at, base, (n - 1) as nat);
    }
}

/// No command takes a signal back.
pub proof fn signals_stay(fifo: FifoView, mode: Mode)
    ensures
        fifo.regs.pe_finish_pending ==> consumed(fifo, mode).fifo.regs.pe_finish_pending,
        fifo.regs.pe_token_pending ==> consumed(fifo, mode).fifo.regs.pe_token_pending,
    decreases fifo.pending.len(),
{
    if command_complete(fifo.regs, fifo.pending) {
        let payload = payload_length(fifo.regs, fifo.pending).unwrap();
        let (regs, actions) = command_effect(fifo.regs, fifo.pending, mode);
        let count = (crate::bytes::be16_at(fifo.pending, 1) & 0xF) + 1;
        lemma_loads_keep_signals(
            fifo.regs,
            fifo.pending,
            5,
            crate::bytes::be16_at(fifo.pending, 3),
            count as nat,
        );
        signals_stay(FifoView { regs, pending: fifo.pending.skip(1 + payload) }, mode);
    }
}

/// The command that ends drawing signals it in every mode, whatever follows it in
/// the stream.
pub proof fn done_command_signals(fifo: FifoView, mode: Mode)
    requires
        command_complete(fifo.regs, fifo.pending),
        fifo.pending[0] >> 3 == 0b0_1100,
        fifo.pending[1] == BP_PIXEL_DONE,
    ensures
        consumed(fifo, mode).fifo.regs.pe_finish_pending,
{
    let payload = payload_length(fifo.regs, fifo.pending).unwrap();
    let (regs, actions) = command_effect(fifo.regs, fifo.pending, mode);
    assert(regs.pe_finish_pending);
    signals_stay(FifoView { regs, pending: fifo.pending.skip(1 + payload) }, mode);
}

} // verus!
