//! The emulator: processor, memory and hardware registers, and what the host may do
//! with them.

use js_sys::WebAssembly::Module;
use vstd::prelude::*;

use super::ai::AiState;
use super::cache::WasmBlockCache;
use super::di::DiState;
use super::dsp::{DspState, DSPCTRL_DEFAULT};
use super::exi::{exi_reset, ExiState, ExiView};
use super::gx::{gx_reset, GxState, GxView};
use super::gx_fifo::FifoView;
use super::memcard::{filled, CardView};
use super::mi::MiState;
use super::si::{si_at_reset, Axes, SiState, SiView};
use super::vi::ViState;
use crate::gekko::{hi32, lo32, Cpu, CpuView, Exception, CPU_SIZE, MSR_EE};
use crate::ppcwasm::WasmJit;

verus! {

/// Bytes of audio memory (ARAM).
pub const ARAM_LEN: usize = 0x100_0000;

/// Bytes of the cache that can be used as memory.
pub const L2C_LEN: usize = 0x4000;

/// Processor cycles of an audio sample at 48 kHz.
pub const CYCLES_PER_SAMPLE_48K: u64 = 10_125;

/// Processor cycles of an audio sample at 32 kHz.
pub const CYCLES_PER_SAMPLE_32K: u64 = 15_187;

/// Counters that only inform the host.
#[derive(Clone, Copy, Debug, PartialEq, Eq, Structural)]
pub struct Stats {
    /// Blocks compiled.
    pub blocks_compiled: u64,
    /// Blocks executed.
    pub blocks_executed: u64,
    /// Guest address of the block compiled last; 0 if none was.
    pub last_compiled_pc: u32,
    /// Instructions of the block compiled last.
    pub last_compiled_ins_count: u32,
    /// Bytes of the block compiled last.
    pub last_compiled_wasm_bytes: u32,
    /// Cycles of the block compiled last.
    pub last_compiled_cycles: u32,
    /// Blocks with an instruction that is not implemented.
    pub unimplemented_block_count: u64,
    /// Exceptions that blocks have raised.
    pub raise_exception_count: u64,
    /// Cycles emulated.
    pub cpu_cycles: u64,
}

/// What is known of disc transfers to main memory.
#[derive(Clone, Copy, Debug, PartialEq, Eq, Structural)]
pub struct DmaNotes {
    /// Whether there was a transfer since the host asked last.
    pub dirty: bool,
    /// Physical address of the last transfer.
    pub addr: u32,
    /// Length of the last transfer.
    pub len: u32,
    /// Position on disc of the last transfer.
    pub disc_offset: u32,
}

/// Processor Interface registers that can be written.
#[derive(Clone, Copy, Debug, PartialEq, Eq, Structural)]
pub struct PiRegs {
    /// Interrupt status.
    pub intsr: u32,
    /// Interrupt mask.
    pub intmsk: u32,
    /// FIFO start.
    pub fifo_base: u32,
    /// FIFO end.
    pub fifo_end: u32,
    /// FIFO write pointer.
    pub fifo_wptr: u32,
}

/// The emulator.
pub struct WasmEmulator {
    /// Processor registers.
    pub cpu: Cpu,
    /// Main memory.
    pub ram: Vec<u8>,
    /// Compiler of guest code.
    pub jit: WasmJit,
    /// Compiled blocks.
    pub cache: WasmBlockCache,
    /// Counters.
    pub stats: Stats,
    /// Buttons held on the controller.
    pub pad_buttons: u32,
    /// The disc in the drive.
    pub disc: Option<Vec<u8>>,
    /// DVD Interface.
    pub di: DiState,
    /// DSP Interface.
    pub dsp: DspState,
    /// Video Interface.
    pub vi: ViState,
    /// Serial Interface.
    pub si: SiState,
    /// External Interface.
    pub exi: ExiState,
    /// Audio Interface.
    pub ai: AiState,
    /// Command Processor and Pixel Engine.
    pub gx: GxState,
    /// Memory Interface.
    pub mi: MiState,
    /// Audio memory.
    pub aram: Vec<u8>,
    /// Processor Interface.
    pub pi: PiRegs,
    /// Whether the decrementer has run out and the exception was not delivered.
    pub decrementer_pending: bool,
    /// Disc transfers.
    pub dma: DmaNotes,
    /// Cycles since the last audio sample.
    pub ai_cpu_cycles: u64,
    /// Cache used as memory.
    pub l2c: Vec<u8>,
}

/// The emulator, with vectors as sequences.
#[verifier::ext_equal]
pub struct EmuView {
    pub cpu: CpuView,
    pub ram: Seq<u8>,
    pub jit: WasmJit,
    pub cache: Map<u32, Module>,
    pub stats: Stats,
    pub pad_buttons: u32,
    pub disc: Option<Seq<u8>>,
    pub di: DiState,
    pub dsp: DspState,
    pub vi: Seq<u32>,
    pub si: SiView,
    pub exi: ExiView,
    pub ai: AiState,
    pub gx: GxView,
    pub mi: MiState,
    pub aram: Seq<u8>,
    pub pi: PiRegs,
    pub decrementer_pending: bool,
    pub dma: DmaNotes,
    pub ai_cpu_cycles: u64,
    pub l2c: Seq<u8>,
}

impl View for WasmEmulator {
    type V = EmuView;

    open spec fn view(&self) -> EmuView {
        EmuView {
            cpu: self.cpu@,
            ram: self.ram@,
            jit: self.jit,
            cache: self.cache@,
            stats: self.stats,
            pad_buttons: self.pad_buttons,
            disc: match self.disc {
                Some(disc) => Some(disc@),
                None => None,
            },
            di: self.di,
            dsp: self.dsp,
            vi: self.vi@,
            si: self.si@,
            exi: self.exi@,
            ai: self.ai,
            gx: self.gx@,
            mi: self.mi,
            aram: self.aram@,
            pi: self.pi,
            decrementer_pending: self.decrementer_pending,
            dma: self.dma,
            ai_cpu_cycles: self.ai_cpu_cycles,
            l2c: self.l2c@,
        }
    }
}

impl EmuView {
    /// Whether every buffer has its length, main memory fits the address space, and
    /// less than a sample of audio is due.
    pub open spec fn wf(self) -> bool {
        &&& self.ram.len() <= u32::MAX
        &&& self.exi.wf()
        &&& self.aram.len() == ARAM_LEN
        &&& self.l2c.len() == L2C_LEN
        &&& self.ai_cpu_cycles < CYCLES_PER_SAMPLE_32K
    }

    /// Whether an external interrupt would be taken now.
    pub open spec fn interruptible(self) -> bool {
        self.pi.intsr & self.pi.intmsk != 0 && self.cpu.msr & MSR_EE != 0
    }

    /// The emulator after `exception` was entered.
    pub open spec fn excepted(self, exception: Exception) -> EmuView {
        EmuView { cpu: self.cpu.after_exception(exception), ..self }
    }

    /// The emulator after an external interrupt was taken, if one would be.
    pub open spec fn delivered(self) -> EmuView {
        if self.interruptible() {
            self.excepted(Exception::Interrupt)
        } else {
            self
        }
    }

    /// The emulator after `delta` ticks of the decrementer: running below zero asks
    /// for an exception once, and it is taken as soon as interrupts are enabled.
    pub open spec fn decremented(self, delta: u32) -> EmuView {
        let dec = ((self.cpu.dec - delta) % 0x1_0000_0000) as u32;
        let pending = self.decrementer_pending || (self.cpu.dec < 0x8000_0000 && dec
            >= 0x8000_0000);
        let ticked = EmuView {
            cpu: CpuView { dec, ..self.cpu },
            decrementer_pending: pending,
            ..self
        };
        if pending && self.cpu.msr & MSR_EE != 0 {
            (EmuView { decrementer_pending: false, ..ticked }).excepted(Exception::Decrementer)
        } else {
            ticked
        }
    }

    /// The memory card in `slot`.
    pub open spec fn card(self, slot: u32) -> Option<CardView> {
        if slot == 0 {
            Some(self.exi.mc_a)
        } else if slot == 1 {
            Some(self.exi.mc_b)
        } else {
            None
        }
    }
}

/// `bytes` with its beginning replaced by as much of `data` as fits.
pub open spec fn overlaid(bytes: Seq<u8>, data: Seq<u8>) -> Seq<u8> {
    Seq::new(
        bytes.len(),
        |i: int|
            if i < data.len() {
                data[i]
            } else {
                bytes[i]
            },
    )
}

/// Replaces the beginning of `bytes` by as much of `data` as fits.
fn overlay(bytes: &mut Vec<u8>, data: &[u8])
    ensures
        final(bytes)@ == overlaid(old(bytes)@, data@),
{
    let mut i: usize = 0;
    while i < bytes.len() && i < data.len()
        invariant
            bytes@.len() == old(bytes)@.len(),
            i <= bytes@.len(),
            i <= data@.len(),
            forall|k: int|
                0 <= k < bytes@.len() ==> #[trigger] bytes@[k] == if k < i {
                    data@[k]
                } else {
                    old(bytes)@[k]
                },
        decreases bytes@.len() - i,
    {
        bytes.set(i, data[i]);
        i = i + 1;
    }
}

impl WasmEmulator {
    /// An emulator with `ram_size` bytes of main memory: processor and registers at
    /// reset, nothing in memory, no disc and nothing compiled.
    pub fn new(ram_size: u32) -> (emu: WasmEmulator)
        ensures
            emu@.wf(),
            emu@.cpu == CpuView::reset(),
            emu@.ram == Seq::new(ram_size as nat, |i: int| 0u8),
            emu@.jit.reg_offsets().match_image(),
            emu@.cache == Map::<u32, Module>::empty(),
            emu@.stats == (Stats {
                blocks_compiled: 0,
                blocks_executed: 0,
                last_compiled_pc: 0,
                last_compiled_ins_count: 0,
                last_compiled_wasm_bytes: 0,
                last_compiled_cycles: 0,
                unimplemented_block_count: 0,
                raise_exception_count: 0,
                cpu_cycles: 0,
            }),
            emu@.pad_buttons == 0,
            emu@.disc is None,
            forall|offset: u32| emu@.di.reg(offset) == 0,
            emu@.dsp == (DspState {
                dsp2cpu_hi: 0,
                dsp2cpu_lo: 0,
                control: DSPCTRL_DEFAULT,
                aram_dma_ram_base: 0,
                aram_dma_aram_base: 0,
                aram_dma_control: 0,
                aram_dma_pending: false,
                audio_dma_base: 0,
                audio_dma_control: 0,
                audio_dma_pos: 0,
            }),
            emu@.vi == Seq::new(32, |i: int| 0u32),
            si_at_reset(emu@.si),
            emu@.exi == exi_reset(),
            emu@.ai == (AiState { control: 0, volume: 0, sample_count: 0, interrupt_sample: 0 }),
            emu@.gx == (GxView { regs: gx_reset(), fifo: FifoView::reset() }),
            emu@.mi == (MiState { protection: 0, int_mask: 0, interrupt: 0 }),
            emu@.aram == Seq::new(ARAM_LEN as nat, |i: int| 0u8),
            emu@.pi == (PiRegs { intsr: 0, intmsk: 0, fifo_base: 0, fifo_end: 0, fifo_wptr: 0 }),
            !emu@.decrementer_pending,
            emu@.dma == (DmaNotes { dirty: false, addr: 0, len: 0, disc_offset: 0 }),
            emu@.ai_cpu_cycles == 0,
            emu@.l2c == Seq::new(L2C_LEN as nat, |i: int| 0u8),
    {
        WasmEmulator {
            cpu: Cpu::default(),
            ram: filled(ram_size as usize, 0),
            jit: WasmJit::new(),
            cache: WasmBlockCache::new(),
            stats: Stats {
                blocks_compiled: 0,
                blocks_executed: 0,
                last_compiled_pc: 0,
                last_compiled_ins_count: 0,
                last_compiled_wasm_bytes: 0,
                last_compiled_cycles: 0,
                unimplemented_block_count: 0,
                raise_exception_count: 0,
                cpu_cycles: 0,
            },
            pad_buttons: 0,
            disc: None,
            di: DiState::default(),
            dsp: DspState::default(),
            vi: ViState::default(),
            si: SiState::default(),
            exi: ExiState::default(),
            ai: AiState::default(),
            gx: GxState::default(),
            mi: MiState::default(),
            aram: filled(ARAM_LEN, 0),
            pi: PiRegs { intsr: 0, intmsk: 0, fifo_base: 0, fifo_end: 0, fifo_wptr: 0 },
            decrementer_pending: false,
            dma: DmaNotes { dirty: false, addr: 0, len: 0, disc_offset: 0 },
            ai_cpu_cycles: 0,
            l2c: filled(L2C_LEN, 0),
        }
    }

    /// Takes an external interrupt if one is pending and enabled.
    pub fn maybe_deliver_external_interrupt(&mut self)
        ensures
            final(self)@ == old(self)@.delivered(),
    {
        if self.pi.intsr & self.pi.intmsk != 0 && self.cpu.msr & MSR_EE != 0 {
            self.cpu.raise_exception(Exception::Interrupt);
        }
    }

    /// Sets the program counter.
    pub fn set_pc(&mut self, pc: u32)
        ensures
            final(self)@ == (EmuView { cpu: CpuView { pc, ..old(self)@.cpu }, ..old(self)@ }),
    {
        self.cpu.pc = pc;
    }

    /// The program counter.
    pub fn get_pc(&self) -> (pc: u32)
        ensures
            pc == self@.cpu.pc,
    {
        self.cpu.pc
    }

    /// General-purpose register `i`.
    pub fn get_gpr(&self, i: u8) -> (value: u32)
        requires
            i < 32,
        ensures
            value == self@.cpu.gpr[i as int],
    {
        self.cpu.gpr[i as usize]
    }

    /// Sets general-purpose register `i`.
    pub fn set_gpr(&mut self, i: u8, value: u32)
        requires
            i < 32,
        ensures
            final(self)@ == (EmuView {
                cpu: CpuView {
                    gpr: old(self)@.cpu.gpr.update(i as int, value),
                    ..old(self)@.cpu
                },
                ..old(self)@
            }),
    {
        self.cpu.gpr[i as usize] = value;
    }

    /// Bits of the first half of floating-point register `i`; 0 if there is none.
    pub fn get_fpr(&self, i: u8) -> (bits: u64)
        ensures
            bits == if i < 32 {
                self@.cpu.ps0[i as int]
            } else {
                0
            },
    {
        if i >= 32 {
            return 0;
        }
        self.cpu.ps0[i as usize]
    }

    /// The link register.
    pub fn get_lr(&self) -> (lr: u32)
        ensures
            lr == self@.cpu.lr,
    {
        self.cpu.lr
    }

    /// The counter.
    pub fn get_ctr(&self) -> (ctr: u32)
        ensures
            ctr == self@.cpu.ctr,
    {
        self.cpu.ctr
    }

    /// The condition register.
    pub fn get_cr(&self) -> (cr: u32)
        ensures
            cr == self@.cpu.cr,
    {
        self.cpu.cr
    }

    /// The machine state.
    pub fn get_msr(&self) -> (msr: u32)
        ensures
            msr == self@.cpu.msr,
    {
        self.cpu.msr
    }

    /// Sets the machine state.
    pub fn set_msr(&mut self, value: u32)
        ensures
            final(self)@ == (EmuView {
                cpu: CpuView { msr: value, ..old(self)@.cpu },
                ..old(self)@
            }),
    {
        self.cpu.msr = value;
    }

    /// The address that the last exception returns to.
    pub fn get_srr0(&self) -> (srr0: u32)
        ensures
            srr0 == self@.cpu.srr[0],
    {
        self.cpu.srr[0]
    }

    /// The machine state that the last exception returns to.
    pub fn get_srr1(&self) -> (srr1: u32)
        ensures
            srr1 == self@.cpu.srr[1],
    {
        self.cpu.srr[1]
    }

    /// The decrementer.
    pub fn get_dec(&self) -> (dec: u32)
        ensures
            dec == self@.cpu.dec,
    {
        self.cpu.dec
    }

    /// Sets the buttons held on the controller.
    pub fn set_pad_buttons(&mut self, buttons: u32)
        ensures
            final(self)@ == (EmuView { pad_buttons: buttons, ..old(self)@ }),
    {
        self.pad_buttons = buttons;
    }

    /// The buttons held on the controller.
    pub fn get_pad_buttons(&self) -> (buttons: u32)
        ensures
            buttons == self@.pad_buttons,
    {
        self.pad_buttons
    }

    /// Sets the position of the sticks and triggers.
    pub fn set_analog_axes(
        &mut self,
        joy_x: u8,
        joy_y: u8,
        c_stick_x: u8,
        c_stick_y: u8,
        l_trig: u8,
        r_trig: u8,
    )
        ensures
            final(self)@ == (EmuView {
                si: SiView {
                    axes: Axes { joy_x, joy_y, c_stick_x, c_stick_y, l_trig, r_trig },
                    ..old(self)@.si
                },
                ..old(self)@
            }),
    {
        self.si.set_analog_axes(joy_x, joy_y, c_stick_x, c_stick_y, l_trig, r_trig);
    }

    /// Advances the time base.
    pub fn advance_timebase(&mut self, delta: u32)
        ensures
            final(self)@ == (EmuView {
                cpu: CpuView {
                    tb: ((old(self)@.cpu.tb + delta) % 0x1_0000_0000_0000_0000) as u64,
                    ..old(self)@.cpu
                },
                ..old(self)@
            }),
    {
        self.cpu.tb = self.cpu.tb.wrapping_add(delta as u64);
    }

    /// Ticks the decrementer down and takes its exception when it is due.
    pub fn advance_decrementer(&mut self, delta: u32)
        ensures
            final(self)@ == old(self)@.decremented(delta),
    {
        let old_dec: u32 = self.cpu.dec;
        let new_dec: u32 = old_dec.wrapping_sub(delta);
        self.cpu.dec = new_dec;
        if old_dec < 0x8000_0000 && new_dec >= 0x8000_0000 {
            self.decrementer_pending = true;
        }
        if self.decrementer_pending && self.cpu.msr & MSR_EE != 0 {
            self.decrementer_pending = false;
            self.cpu.raise_exception(Exception::Decrementer);
        }
    }

    /// Low half of the number of blocks compiled.
    pub fn blocks_compiled(&self) -> (count: u32)
        ensures
            count == lo32(self@.stats.blocks_compiled),
    {
        self.stats.blocks_compiled as u32
    }

    /// Low half of the number of blocks executed.
    pub fn blocks_executed(&self) -> (count: u32)
        ensures
            count == lo32(self@.stats.blocks_executed),
    {
        self.stats.blocks_executed as u32
    }

    /// Notes that a block was executed.
    pub fn record_block_executed(&mut self)
        requires
            old(self)@.stats.blocks_executed < u64::MAX,
        ensures
            final(self)@ == (EmuView {
                stats: Stats {
                    blocks_executed: (old(self)@.stats.blocks_executed + 1) as u64,
                    ..old(self)@.stats
                },
                ..old(self)@
            }),
    {
        self.stats.blocks_executed = self.stats.blocks_executed + 1;
    }

    /// Number of blocks in the cache.
    pub fn cache_size(&self) -> (size: u32)
        ensures
            self@.cache.dom().len() <= u32::MAX ==> size == self@.cache.dom().len(),
    {
        self.cache.len() as u32
    }

    /// Guest address of the block compiled last.
    pub fn last_compiled_pc(&self) -> (pc: u32)
        ensures
            pc == self@.stats.last_compiled_pc,
    {
        self.stats.last_compiled_pc
    }

    /// Instructions of the block compiled last.
    pub fn last_compiled_ins_count(&self) -> (count: u32)
        ensures
            count == self@.stats.last_compiled_ins_count,
    {
        self.stats.last_compiled_ins_count
    }

    /// Bytes of the block compiled last.
    pub fn last_compiled_wasm_bytes(&self) -> (bytes: u32)
        ensures
            bytes == self@.stats.last_compiled_wasm_bytes,
    {
        self.stats.last_compiled_wasm_bytes
    }

    /// Cycles of the block compiled last.
    pub fn last_compiled_cycles(&self) -> (cycles: u32)
        ensures
            cycles == self@.stats.last_compiled_cycles,
    {
        self.stats.last_compiled_cycles
    }

    /// Counts emulated cycles.
    pub fn add_cpu_cycles(&mut self, delta: u32)
        ensures
            final(self)@ == (EmuView {
                stats: Stats {
                    cpu_cycles: ((old(self)@.stats.cpu_cycles + delta)
                        % 0x1_0000_0000_0000_0000) as u64,
                    ..old(self)@.stats
                },
                ..old(self)@
            }),
    {
        self.stats.cpu_cycles = self.stats.cpu_cycles.wrapping_add(delta as u64);
    }

    /// Low half of the cycles emulated.
    pub fn cpu_cycles_lo(&self) -> (lo: u32)
        ensures
            lo == lo32(self@.stats.cpu_cycles),
    {
        self.stats.cpu_cycles as u32
    }

    /// High half of the cycles emulated.
    pub fn cpu_cycles_hi(&self) -> (hi: u32)
        ensures
            hi == hi32(self@.stats.cpu_cycles),
    {
        (self.stats.cpu_cycles >> 32) as u32
    }

    /// Control register of the Audio Interface.
    pub fn get_ai_control(&self) -> (control: u32)
        ensures
            control == self@.ai.control,
    {
        self.ai.control
    }

    /// Low half of the number of blocks with an instruction that is not implemented.
    pub fn unimplemented_block_count(&self) -> (count: u32)
        ensures
            count == lo32(self@.stats.unimplemented_block_count),
    {
        self.stats.unimplemented_block_count as u32
    }

    /// Notes that a block has raised an exception.
    pub fn record_raise_exception(&mut self)
        requires
            old(self)@.stats.raise_exception_count < u64::MAX,
        ensures
            final(self)@ == (EmuView {
                stats: Stats {
                    raise_exception_count: (old(self)@.stats.raise_exception_count + 1) as u64,
                    ..old(self)@.stats
                },
                ..old(self)@
            }),
    {
        self.stats.raise_exception_count = self.stats.raise_exception_count + 1;
    }

    /// Low half of the number of exceptions that blocks have raised.
    pub fn raise_exception_count(&self) -> (count: u32)
        ensures
            count == lo32(self@.stats.raise_exception_count),
    {
        self.stats.raise_exception_count as u32
    }

    /// Enters the exception with vector `kind`; gives whether there is one.
    pub fn deliver_exception(&mut self, kind: i32) -> (known: bool)
        ensures
            known == exists|e: Exception| #[trigger] e.vector() == kind as u32,
            forall|e: Exception|
                #[trigger] e.vector() == kind as u32 ==> final(self)@ == old(self)@.excepted(e),
            !known ==> final(self)@ == old(self)@,
    {
        match Exception::from_vector(kind as u32) {
            Some(e) => {
                proof {
                    assert(e.vector() == kind as u32);
                    assert forall|other: Exception| #[trigger]
                        other.vector() == kind as u32 implies other == e by {
                        crate::gekko::vectors_differ(other, e);
                    }
                }
                self.cpu.raise_exception(e);
                true
            },
            None => false,
        }
    }

    /// Addresses of the blocks in the cache, each once, in no particular order.
    pub fn get_compiled_block_pcs(&self) -> (pcs: Vec<u32>)
        ensures
            pcs@.to_set() == self@.cache.dom(),
            pcs@.no_duplicates(),
    {
        self.cache.pcs()
    }

    /// Bytes of main memory.
    pub fn ram_size(&self) -> (size: u32)
        requires
            self@.wf(),
        ensures
            size == self@.ram.len(),
    {
        self.ram.len() as u32
    }

    /// Bytes of the cache that is used as memory.
    pub fn l2c_size(&self) -> (size: u32)
        requires
            self@.wf(),
        ensures
            size == L2C_LEN,
    {
        self.l2c.len() as u32
    }

    /// The settings memory.
    pub fn get_sram(&self) -> (sram: [u8; 64])
        ensures
            sram@ == self@.exi.sram,
    {
        self.exi.sram
    }

    /// Replaces the beginning of the settings memory by as much of `data` as fits.
    pub fn set_sram(&mut self, data: &[u8])
        ensures
            final(self)@ == (EmuView {
                exi: ExiView { sram: overlaid(old(self)@.exi.sram, data@), ..old(self)@.exi },
                ..old(self)@
            }),
    {
        let mut i: usize = 0;
        while i < 64 && i < data.len()
            invariant
                i <= 64,
                i <= data@.len(),
                old(self)@.exi.sram.len() == 64,
                self@.exi.sram.len() == 64,
                self@ == (EmuView {
                    exi: ExiView { sram: self@.exi.sram, ..old(self)@.exi },
                    ..old(self)@
                }),
                forall|k: int|
                    0 <= k < 64 ==> #[trigger] self@.exi.sram[k] == if k < i {
                        data@[k]
                    } else {
                        old(self)@.exi.sram[k]
                    },
            decreases 64 - i,
        {
            self.exi.sram[i] = data[i];
            i = i + 1;
        }
        assert(self@.exi.sram =~= overlaid(old(self)@.exi.sram, data@));
    }

    /// The bytes of the memory card in `slot`; none if there is no such slot.
    pub fn get_memcard_data(&self, slot: u32) -> (data: Vec<u8>)
        ensures
            data@ == match self@.card(slot) {
                Some(card) => card.data,
                None => Seq::empty(),
            },
    {
        match slot {
            0 => self.exi.mc_a.data.clone(),
            1 => self.exi.mc_b.data.clone(),
            _ => Vec::new(),
        }
    }

    /// Replaces the beginning of the memory card in `slot` by as much of `data` as
    /// fits.
    pub fn set_memcard_data(&mut self, slot: u32, data: &[u8])
        ensures
            final(self)@ == (EmuView {
                exi: ExiView {
                    mc_a: if slot == 0 {
                        CardView {
                            data: overlaid(old(self)@.exi.mc_a.data, data@),
                            ..old(self)@.exi.mc_a
                        }
                    } else {
                        old(self)@.exi.mc_a
                    },
                    mc_b: if slot == 1 {
                        CardView {
                            data: overlaid(old(self)@.exi.mc_b.data, data@),
                            ..old(self)@.exi.mc_b
                        }
                    } else {
                        old(self)@.exi.mc_b
                    },
                    ..old(self)@.exi
                },
                ..old(self)@
            }),
    {
        if slot == 0 {
            overlay(&mut self.exi.mc_a.data, data);
        } else if slot == 1 {
            overlay(&mut self.exi.mc_b.data, data);
        }
    }

    /// Upper word of data translation register `n`; 0 if there is none.
    pub fn get_dbat_u(&self, n: u32) -> (word: u32)
        ensures
            word == if n < 4 {
                hi32(self@.cpu.dbat[n as int])
            } else {
                0
            },
    {
        if n >= 4 {
            return 0;
        }
        (self.cpu.dbat[n as usize] >> 32) as u32
    }

    /// Lower word of data translation register `n`; 0 if there is none.
    pub fn get_dbat_l(&self, n: u32) -> (word: u32)
        ensures
            word == if n < 4 {
                lo32(self@.cpu.dbat[n as int])
            } else {
                0
            },
    {
        if n >= 4 {
            return 0;
        }
        self.cpu.dbat[n as usize] as u32
    }

    /// Upper word of instruction translation register `n`; 0 if there is none.
    pub fn get_ibat_u(&self, n: u32) -> (word: u32)
        ensures
            word == if n < 4 {
                hi32(self@.cpu.ibat[n as int])
            } else {
                0
            },
    {
        if n >= 4 {
            return 0;
        }
        (self.cpu.ibat[n as usize] >> 32) as u32
    }

    /// Lower word of instruction translation register `n`; 0 if there is none.
    pub fn get_ibat_l(&self, n: u32) -> (word: u32)
        ensures
            word == if n < 4 {
                lo32(self@.cpu.ibat[n as int])
            } else {
                0
            },
    {
        if n >= 4 {
            return 0;
        }
        self.cpu.ibat[n as usize] as u32
    }

    /// Bytes of the register image.
    pub fn cpu_struct_size(&self) -> (size: u32)
        ensures
            size == CPU_SIZE,
    {
        CPU_SIZE as u32
    }

    /// The register image, which compiled blocks work on.
    pub fn get_cpu_bytes(&self) -> (bytes: Vec<u8>)
        ensures
            bytes@ == self.cpu.image(),
    {
        self.cpu.to_bytes()
    }

    /// Sets the registers from their image; anything but an image is ignored.
    pub fn set_cpu_bytes(&mut self, data: &[u8])
        ensures
            final(self)@ == (EmuView { cpu: final(self)@.cpu, ..old(self)@ }),
            data@.len() == CPU_SIZE ==> final(self).cpu.image() == data@,
            data@.len() != CPU_SIZE ==> final(self)@ == old(self)@,
    {
        if data.len() != CPU_SIZE {
            return;
        }
        self.cpu = Cpu::from_bytes(data);
        assert(data@.take(CPU_SIZE as int) =~= data@);
    }

    /// A copy of main memory.
    pub fn get_ram_copy(&self) -> (ram: Vec<u8>)
        ensures
            ram@ == self@.ram,
    {
        self.ram.clone()
    }

    /// Replaces the beginning of main memory by as much of `data` as fits.
    pub fn sync_ram(&mut self, data: &[u8])
        ensures
            final(self)@ == (EmuView { ram: overlaid(old(self)@.ram, data@), ..old(self)@ }),
    {
        overlay(&mut self.ram, data);
    }
}

/// The registers that a block is given come back unchanged if the block leaves them.
pub proof fn cpu_bytes_round_trip(before: Cpu, after: Cpu)
    requires
        after.image() == before.image(),
    ensures
        after@ == before@,
{
    crate::gekko::image_determines_registers(after, before);
}

/// The decrementer asks for its exception exactly once for each time it runs below
/// zero: once taken, ticking on below zero asks for no other.
pub proof fn decrementer_fires_on_the_edge(emu: EmuView, delta: u32)
    requires
        !emu.decrementer_pending,
        emu.cpu.dec >= 0x8000_0000,
        emu.cpu.dec - delta >= 0x8000_0000,
    ensures
        !emu.decremented(delta).decrementer_pending,
        emu.decremented(delta).cpu == (CpuView { dec: (emu.cpu.dec - delta) as u32, ..emu.cpu }),
{
}

/// While interrupts are disabled nothing is delivered, and once an external
/// interrupt was taken they are disabled.
pub proof fn interrupt_disables_interrupts(emu: EmuView)
    ensures
        emu.cpu.msr & MSR_EE == 0 ==> emu.delivered() == emu,
        emu.interruptible() ==> emu.delivered().cpu.msr & MSR_EE == 0,
        emu.delivered().delivered() == emu.delivered(),
{
    crate::gekko::exception_saves_msr(emu.cpu, Exception::Interrupt);
}

} // verus!
