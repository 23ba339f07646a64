//! Register state of the Gekko processor.

use vstd::prelude::*;

use crate::bytes::{bytes_from_word, flatten, le32_at, push_le32, read_le32, word_of_flattened};

verus! {

/// Architectural registers of the processor. Floating-point registers are held
/// as bit patterns.
#[derive(Clone, Copy)]
pub struct Cpu {
    /// Program counter.
    pub pc: u32,
    /// Condition register; field 0 is the most significant nibble.
    pub cr: u32,
    /// General-purpose registers.
    pub gpr: [u32; 32],
    /// First halves of the floating-point registers.
    pub ps0: [u64; 32],
    /// Second halves of the floating-point registers.
    pub ps1: [u64; 32],
    /// Link register.
    pub lr: u32,
    /// Count register.
    pub ctr: u32,
    /// Fixed-point exception register.
    pub xer: u32,
    /// Floating-point status and control register.
    pub fpscr: u32,
    /// Machine state register.
    pub msr: u32,
    /// Decrementer.
    pub dec: u32,
    /// Time base.
    pub tb: u64,
    /// Save and restore registers.
    pub srr: [u32; 2],
    /// Operating-system registers.
    pub sprg: [u32; 4],
    /// Graphics quantization registers.
    pub gqr: [u32; 8],
    /// Hardware implementation registers 0 to 2.
    pub hid: [u32; 3],
    /// L2 cache control register.
    pub l2cr: u32,
    /// Instruction block address translation; the upper word is in the upper
    /// half.
    pub ibat: [u64; 4],
    /// Data block address translation; the upper word is in the upper half.
    pub dbat: [u64; 4],
}

/// Word positions of the registers in the register image.
pub const PC_WORD: usize = 0;

pub const CR_WORD: usize = 1;

pub const GPR_WORD: usize = 2;

pub const FPR_WORD: usize = 34;

pub const LR_WORD: usize = 162;

pub const CTR_WORD: usize = 163;

pub const XER_WORD: usize = 164;

pub const FPSCR_WORD: usize = 165;

pub const MSR_WORD: usize = 166;

pub const DEC_WORD: usize = 167;

pub const TB_WORD: usize = 168;

pub const SRR_WORD: usize = 170;

pub const SPRG_WORD: usize = 172;

pub const GQR_WORD: usize = 176;

pub const HID_WORD: usize = 184;

pub const L2CR_WORD: usize = 187;

pub const IBAT_WORD: usize = 188;

pub const DBAT_WORD: usize = 196;

/// Number of words in the register image.
pub const CPU_WORDS: usize = 204;

/// Number of bytes in the register image.
pub const CPU_SIZE: usize = 816;

/// Low word of a 64-bit register.
pub open spec fn lo32(v: u64) -> u32 {
    v as u32
}

/// High word of a 64-bit register.
pub open spec fn hi32(v: u64) -> u32 {
    (v >> 32) as u32
}

/// The 64-bit register with the given words.
pub open spec fn join64(hi: u32, lo: u32) -> u64 {
    ((hi as u64) << 32) | (lo as u64)
}

/// A 64-bit register is made of its two words.
pub proof fn join_of_halves(v: u64)
    ensures
        join64(hi32(v), lo32(v)) == v,
{
    assert((((v >> 32) as u32 as u64) << 32) | (v as u32 as u64) == v) by (bit_vector);
}

/// Two words are the halves of the register that they make.
pub broadcast proof fn halves_of_join(hi: u32, lo: u32)
    ensures
        hi32(#[trigger] join64(hi, lo)) == hi,
        lo32(join64(hi, lo)) == lo,
{
    assert(((((hi as u64) << 32) | (lo as u64)) >> 32) as u32 == hi && (((hi as u64) << 32) | (
    lo as u64)) as u32 == lo) by (bit_vector);
}

/// The 64-bit register stored at position `at`, low word first.
pub open spec fn le64_at(bytes: Seq<u8>, at: int) -> u64 {
    join64(le32_at(bytes, at + 4), le32_at(bytes, at))
}

fn read_le64(bytes: &[u8], at: usize) -> (value: u64)
    requires
        at + 8 <= bytes@.len(),
        at < CPU_SIZE,
    ensures
        value == le64_at(bytes@, at as int),
{
    let lo: u32 = read_le32(bytes, at);
    let hi: u32 = read_le32(bytes, at + 4);
    ((hi as u64) << 32) | (lo as u64)
}

fn read_gpr(bytes: &[u8]) -> (gpr: [u32; 32])
    requires
        bytes@.len() >= CPU_SIZE,
    ensures
        forall|r: int| 0 <= r < 32 ==> #[trigger] gpr@[r] == le32_at(bytes@, 4 * (GPR_WORD + r)),
{
    let mut gpr: [u32; 32] = [0u32; 32];
    let mut i: usize = 0;
    while i < 32
        invariant
            i <= 32,
            bytes@.len() >= CPU_SIZE,
            forall|r: int|
                0 <= r < i ==> #[trigger] gpr@[r] == le32_at(bytes@, 4 * (GPR_WORD + r)),
        decreases 32 - i,
    {
        gpr[i] = read_le32(bytes, 4 * (GPR_WORD + i));
        i = i + 1;
    }
    gpr
}

fn read_fpr(bytes: &[u8], start: usize) -> (fpr: [u64; 32])
    requires
        bytes@.len() >= CPU_SIZE,
        start <= 4 * FPR_WORD + 8,
    ensures
        forall|r: int| 0 <= r < 32 ==> #[trigger] fpr@[r] == le64_at(bytes@, start + 16 * r),
{
    let mut fpr: [u64; 32] = [0u64; 32];
    let mut i: usize = 0;
    while i < 32
        invariant
            i <= 32,
            bytes@.len() >= CPU_SIZE,
            start <= 4 * FPR_WORD + 8,
            forall|r: int| 0 <= r < i ==> #[trigger] fpr@[r] == le64_at(bytes@, start + 16 * r),
        decreases 32 - i,
    {
        fpr[i] = read_le64(bytes, start + 16 * i);
        i = i + 1;
    }
    fpr
}

/// Every register holds what `bytes` has at its place.
spec fn loaded(cpu: Cpu, bytes: Seq<u8>) -> bool {
    &&& cpu.pc == le32_at(bytes, 4 * PC_WORD)
    &&& cpu.cr == le32_at(bytes, 4 * CR_WORD)
    &&& forall|r: int| 0 <= r < 32 ==> #[trigger] cpu.gpr@[r] == le32_at(bytes, 4 * (GPR_WORD + r))
    &&& forall|r: int| 0 <= r < 32 ==> #[trigger] cpu.ps0@[r] == le64_at(bytes, 136 + 16 * r)
    &&& forall|r: int| 0 <= r < 32 ==> #[trigger] cpu.ps1@[r] == le64_at(bytes, 144 + 16 * r)
    &&& cpu.lr == le32_at(bytes, 4 * LR_WORD)
    &&& cpu.ctr == le32_at(bytes, 4 * CTR_WORD)
    &&& cpu.xer == le32_at(bytes, 4 * XER_WORD)
    &&& cpu.fpscr == le32_at(bytes, 4 * FPSCR_WORD)
    &&& cpu.msr == le32_at(bytes, 4 * MSR_WORD)
    &&& cpu.dec == le32_at(bytes, 4 * DEC_WORD)
    &&& cpu.tb == le64_at(bytes, 4 * TB_WORD)
    &&& forall|r: int| 0 <= r < 2 ==> #[trigger] cpu.srr@[r] == le32_at(bytes, 4 * (SRR_WORD + r))
    &&& forall|r: int| 0 <= r < 4 ==> #[trigger] cpu.sprg@[r] == le32_at(bytes, 4 * (SPRG_WORD + r))
    &&& forall|r: int| 0 <= r < 8 ==> #[trigger] cpu.gqr@[r] == le32_at(bytes, 4 * (GQR_WORD + r))
    &&& forall|r: int| 0 <= r < 3 ==> #[trigger] cpu.hid@[r] == le32_at(bytes, 4 * (HID_WORD + r))
    &&& cpu.l2cr == le32_at(bytes, 4 * L2CR_WORD)
    &&& forall|r: int| 0 <= r < 4 ==> #[trigger] cpu.ibat@[r] == le64_at(bytes, 752 + 8 * r)
    &&& forall|r: int| 0 <= r < 4 ==> #[trigger] cpu.dbat@[r] == le64_at(bytes, 784 + 8 * r)
}

proof fn lemma_loaded(cpu: Cpu, bytes: Seq<u8>)
    requires
        loaded(cpu, bytes),
    ensures
        forall|k: int| 0 <= k < CPU_WORDS ==> #[trigger] cpu.word(k) == le32_at(bytes, 4 * k),
{
    broadcast use halves_of_join;

    assert forall|k: int| 0 <= k < CPU_WORDS implies #[trigger] cpu.word(k) == le32_at(
        bytes,
        4 * k,
    ) by {
        if FPR_WORD <= k < LR_WORD {
            let r = (k - FPR_WORD) / 4;
            assert(cpu.ps0@[r] == le64_at(bytes, 136 + 16 * r));
            assert(cpu.ps1@[r] == le64_at(bytes, 144 + 16 * r));
            assert(k == FPR_WORD + 4 * r + (k - FPR_WORD) % 4);
        }
    }
}

/// Registers whose words are those stored in `bytes` have its image.
proof fn lemma_image_of_words(cpu: Cpu, bytes: Seq<u8>)
    requires
        bytes.len() >= CPU_SIZE,
        forall|k: int| 0 <= k < CPU_WORDS ==> #[trigger] cpu.word(k) == le32_at(bytes, 4 * k),
    ensures
        cpu.image() == bytes.take(CPU_SIZE as int),
{
    assert forall|m: int| 0 <= m < CPU_SIZE implies #[trigger] cpu.image()[m] == bytes[m] by {
        let k = m / 4;
        assert(cpu.word(k) == le32_at(bytes, 4 * k));
        bytes_from_word(bytes[4 * k + 3], bytes[4 * k + 2], bytes[4 * k + 1], bytes[4 * k]);
        assert(m == 4 * k + m % 4);
    }
    assert(cpu.image() =~= bytes.take(CPU_SIZE as int));
}

/// Word `k` of a sequence of 64-bit registers stored low word first.
pub open spec fn half_of(regs: Seq<u64>, k: int) -> u32 {
    if k % 2 == 0 {
        lo32(regs[k / 2])
    } else {
        hi32(regs[k / 2])
    }
}

impl Cpu {
    /// Word `k` of the register image.
    pub open spec fn word(self, k: int) -> u32 {
        self@.word(k)
    }

    /// The register image as words.
    pub open spec fn words(self) -> Seq<u32> {
        Seq::new(CPU_WORDS as nat, |k: int| self.word(k))
    }

    /// The register image as bytes: every word in little-endian order.
    pub open spec fn image(self) -> Seq<u8> {
        flatten(self.words())
    }

    /// Word `k` of the register image.
    fn get_word(&self, k: usize) -> (word: u32)
        requires
            k < CPU_WORDS,
        ensures
            word == self.word(k as int),
    {
        if k == PC_WORD {
            self.pc
        } else if k == CR_WORD {
            self.cr
        } else if k < FPR_WORD {
            self.gpr[k - GPR_WORD]
        } else if k < LR_WORD {
            let r: usize = (k - FPR_WORD) / 4;
            let part: usize = (k - FPR_WORD) % 4;
            if part == 0 {
                self.ps0[r] as u32
            } else if part == 1 {
                (self.ps0[r] >> 32) as u32
            } else if part == 2 {
                self.ps1[r] as u32
            } else {
                (self.ps1[r] >> 32) as u32
            }
        } else if k == LR_WORD {
            self.lr
        } else if k == CTR_WORD {
            self.ctr
        } else if k == XER_WORD {
            self.xer
        } else if k == FPSCR_WORD {
            self.fpscr
        } else if k == MSR_WORD {
            self.msr
        } else if k == DEC_WORD {
            self.dec
        } else if k == TB_WORD {
            self.tb as u32
        } else if k == TB_WORD + 1 {
            (self.tb >> 32) as u32
        } else if k < SPRG_WORD {
            self.srr[k - SRR_WORD]
        } else if k < GQR_WORD {
            self.sprg[k - SPRG_WORD]
        } else if k < HID_WORD {
            self.gqr[k - GQR_WORD]
        } else if k < L2CR_WORD {
            self.hid[k - HID_WORD]
        } else if k == L2CR_WORD {
            self.l2cr
        } else if k < DBAT_WORD {
            let v: u64 = self.ibat[(k - IBAT_WORD) / 2];
            if k % 2 == 0 {
                v as u32
            } else {
                (v >> 32) as u32
            }
        } else {
            let v: u64 = self.dbat[(k - DBAT_WORD) / 2];
            if k % 2 == 0 {
                v as u32
            } else {
                (v >> 32) as u32
            }
        }
    }

    /// The register image as bytes.
    pub fn to_bytes(&self) -> (bytes: Vec<u8>)
        ensures
            bytes@ == self.image(),
    {
        let mut bytes: Vec<u8> = Vec::new();
        let mut k: usize = 0;
        while k < CPU_WORDS
            invariant
                k <= CPU_WORDS,
                bytes@ == flatten(self.words().take(k as int)),
            decreases CPU_WORDS - k,
        {
            let word: u32 = self.get_word(k);
            push_le32(&mut bytes, word);
            k = k + 1;
            assert(bytes@ =~= flatten(self.words().take(k as int)));
        }
        assert(self.words().take(CPU_WORDS as int) =~= self.words());
        bytes
    }

    /// The registers whose image is the first bytes of `bytes`.
    pub fn from_bytes(bytes: &[u8]) -> (cpu: Cpu)
        requires
            bytes@.len() >= CPU_SIZE,
        ensures
            cpu.image() == bytes@.take(CPU_SIZE as int),
    {
        let cpu = Cpu {
            pc: read_le32(bytes, 4 * PC_WORD),
            cr: read_le32(bytes, 4 * CR_WORD),
            gpr: read_gpr(bytes),
            ps0: read_fpr(bytes, 4 * FPR_WORD),
            ps1: read_fpr(bytes, 4 * FPR_WORD + 8),
            lr: read_le32(bytes, 4 * LR_WORD),
            ctr: read_le32(bytes, 4 * CTR_WORD),
            xer: read_le32(bytes, 4 * XER_WORD),
            fpscr: read_le32(bytes, 4 * FPSCR_WORD),
            msr: read_le32(bytes, 4 * MSR_WORD),
            dec: read_le32(bytes, 4 * DEC_WORD),
            tb: read_le64(bytes, 4 * TB_WORD),
            srr: [read_le32(bytes, 4 * SRR_WORD), read_le32(bytes, 4 * SRR_WORD + 4)],
            sprg: [
                read_le32(bytes, 4 * SPRG_WORD), read_le32(bytes, 4 * SPRG_WORD + 4),
                read_le32(bytes, 4 * SPRG_WORD + 8), read_le32(bytes, 4 * SPRG_WORD + 12),
            ],
            gqr: [
                read_le32(bytes, 4 * GQR_WORD), read_le32(bytes, 4 * GQR_WORD + 4),
                read_le32(bytes, 4 * GQR_WORD + 8), read_le32(bytes, 4 * GQR_WORD + 12),
                read_le32(bytes, 4 * GQR_WORD + 16), read_le32(bytes, 4 * GQR_WORD + 20),
                read_le32(bytes, 4 * GQR_WORD + 24), read_le32(bytes, 4 * GQR_WORD + 28),
            ],
            hid: [
                read_le32(bytes, 4 * HID_WORD), read_le32(bytes, 4 * HID_WORD + 4),
                read_le32(bytes, 4 * HID_WORD + 8),
            ],
            l2cr: read_le32(bytes, 4 * L2CR_WORD),
            ibat: [
                read_le64(bytes, 4 * IBAT_WORD), read_le64(bytes, 4 * IBAT_WORD + 8),
                read_le64(bytes, 4 * IBAT_WORD + 16), read_le64(bytes, 4 * IBAT_WORD + 24),
            ],
            dbat: [
                read_le64(bytes, 4 * DBAT_WORD), read_le64(bytes, 4 * DBAT_WORD + 8),
                read_le64(bytes, 4 * DBAT_WORD + 16), read_le64(bytes, 4 * DBAT_WORD + 24),
            ],
        };
        proof {
            assert(loaded(cpu, bytes@));
            lemma_loaded(cpu, bytes@);
            lemma_image_of_words(cpu, bytes@);
        }
        cpu
    }
}

/// Two register files with the same image hold the same registers.
#[verifier::spinoff_prover]
#[verifier::rlimit(40)]
pub proof fn image_determines_registers(a: Cpu, b: Cpu)
    requires
        a.image() == b.image(),
    ensures
        a@ == b@,
{
    assert forall|k: int| 0 <= k < CPU_WORDS implies #[trigger] a.word(k) == b.word(k) by {
        word_of_flattened(a.words(), k);
        word_of_flattened(b.words(), k);
    }
    assert forall|r: int| 0 <= r < 32 implies a.gpr@[r] == b.gpr@[r] by {
        assert(a.word(GPR_WORD + r) == b.word(GPR_WORD + r));
    }
    assert forall|r: int| 0 <= r < 32 implies a.ps0@[r] == b.ps0@[r] && a.ps1@[r] == b.ps1@[r] by {
        let k = FPR_WORD + 4 * r;
        assert(a.word(k) == b.word(k));
        assert(a.word(k + 1) == b.word(k + 1));
        assert(a.word(k + 2) == b.word(k + 2));
        assert(a.word(k + 3) == b.word(k + 3));
        join_of_halves(a.ps0@[r]);
        join_of_halves(b.ps0@[r]);
        join_of_halves(a.ps1@[r]);
        join_of_halves(b.ps1@[r]);
    }
    assert(a.word(TB_WORD as int) == b.word(TB_WORD as int));
    assert(a.word(TB_WORD + 1) == b.word(TB_WORD + 1));
    join_of_halves(a.tb);
    join_of_halves(b.tb);
    assert forall|r: int| 0 <= r < 4 implies a.ibat@[r] == b.ibat@[r] && a.dbat@[r]
        == b.dbat@[r] by {
        assert(a.word(IBAT_WORD + 2 * r) == b.word(IBAT_WORD + 2 * r));
        assert(a.word(IBAT_WORD + 2 * r + 1) == b.word(IBAT_WORD + 2 * r + 1));
        assert(a.word(DBAT_WORD + 2 * r) == b.word(DBAT_WORD + 2 * r));
        assert(a.word(DBAT_WORD + 2 * r + 1) == b.word(DBAT_WORD + 2 * r + 1));
        join_of_halves(a.ibat@[r]);
        join_of_halves(b.ibat@[r]);
        join_of_halves(a.dbat@[r]);
        join_of_halves(b.dbat@[r]);
    }
    assert forall|r: int| 0 <= r < 2 implies a.srr@[r] == b.srr@[r] by {
        assert(a.word(SRR_WORD + r) == b.word(SRR_WORD + r));
    }
    assert forall|r: int| 0 <= r < 4 implies a.sprg@[r] == b.sprg@[r] by {
        assert(a.word(SPRG_WORD + r) == b.word(SPRG_WORD + r));
    }
    assert forall|r: int| 0 <= r < 8 implies a.gqr@[r] == b.gqr@[r] by {
        assert(a.word(GQR_WORD + r) == b.word(GQR_WORD + r));
    }
    assert forall|r: int| 0 <= r < 3 implies a.hid@[r] == b.hid@[r] by {
        assert(a.word(HID_WORD + r) == b.word(HID_WORD + r));
    }
    assert(a.word(PC_WORD as int) == b.word(PC_WORD as int));
    assert(a.word(CR_WORD as int) == b.word(CR_WORD as int));
    assert(a.word(LR_WORD as int) == b.word(LR_WORD as int));
    assert(a.word(CTR_WORD as int) == b.word(CTR_WORD as int));
    assert(a.word(XER_WORD as int) == b.word(XER_WORD as int));
    assert(a.word(FPSCR_WORD as int) == b.word(FPSCR_WORD as int));
    assert(a.word(MSR_WORD as int) == b.word(MSR_WORD as int));
    assert(a.word(DEC_WORD as int) == b.word(DEC_WORD as int));
    assert(a.word(L2CR_WORD as int) == b.word(L2CR_WORD as int));
    assert(a@ =~= b@);
}

/// Flag of MSR that puts the exception vectors at the top of memory.
pub const MSR_IP: u32 = 0x40;

/// Flag of MSR that enables external interrupts.
pub const MSR_EE: u32 = 0x8000;

/// Bits of MSR that survive an exception: interrupt little-endian mode, machine
/// check enable and the exception prefix.
pub const MSR_KEPT: u32 = 0x0001_1040;

/// Bits that are copied between MSR and SRR1.
pub const SRR1_TO_MSR_MASK: u32 = 0x87C0_FF73;

/// Causes of exceptions.
#[derive(Clone, Copy, Debug, PartialEq, Eq, Structural)]
pub enum Exception {
    Reset,
    MachineCheck,
    DSI,
    ISI,
    Interrupt,
    Alignment,
    Program,
    FloatUnavailable,
    Decrementer,
    Syscall,
    Trace,
    PerformanceMonitor,
    Breakpoint,
}

impl Exception {
    /// Offset of the exception vector.
    pub open spec fn vector(self) -> u32 {
        match self {
            Exception::Reset => 0x0100,
            Exception::MachineCheck => 0x0200,
            Exception::DSI => 0x0300,
            Exception::ISI => 0x0400,
            Exception::Interrupt => 0x0500,
            Exception::Alignment => 0x0600,
            Exception::Program => 0x0700,
            Exception::FloatUnavailable => 0x0800,
            Exception::Decrementer => 0x0900,
            Exception::Syscall => 0x0C00,
            Exception::Trace => 0x0D00,
            Exception::PerformanceMonitor => 0x0F00,
            Exception::Breakpoint => 0x1300,
        }
    }

    /// The exception with the given vector offset, if there is one.
    pub fn from_vector(vector: u32) -> (exception: Option<Exception>)
        ensures
            match exception {
                Some(e) => e.vector() == vector,
                None => forall|e: Exception| #[trigger] e.vector() != vector,
            },
    {
        match vector {
            0x0100 => Some(Exception::Reset),
            0x0200 => Some(Exception::MachineCheck),
            0x0300 => Some(Exception::DSI),
            0x0400 => Some(Exception::ISI),
            0x0500 => Some(Exception::Interrupt),
            0x0600 => Some(Exception::Alignment),
            0x0700 => Some(Exception::Program),
            0x0800 => Some(Exception::FloatUnavailable),
            0x0900 => Some(Exception::Decrementer),
            0x0C00 => Some(Exception::Syscall),
            0x0D00 => Some(Exception::Trace),
            0x0F00 => Some(Exception::PerformanceMonitor),
            0x1300 => Some(Exception::Breakpoint),
            _ => None,
        }
    }

    /// Offset of the exception vector.
    fn vector_offset(self) -> (vector: u32)
        ensures
            vector == self.vector(),
    {
        match self {
            Exception::Reset => 0x0100,
            Exception::MachineCheck => 0x0200,
            Exception::DSI => 0x0300,
            Exception::ISI => 0x0400,
            Exception::Interrupt => 0x0500,
            Exception::Alignment => 0x0600,
            Exception::Program => 0x0700,
            Exception::FloatUnavailable => 0x0800,
            Exception::Decrementer => 0x0900,
            Exception::Syscall => 0x0C00,
            Exception::Trace => 0x0D00,
            Exception::PerformanceMonitor => 0x0F00,
            Exception::Breakpoint => 0x1300,
        }
    }
}

/// MSR while an exception is being handled: the surviving bits, with the
/// little-endian mode taken from its interrupt counterpart.
pub open spec fn exception_msr(msr: u32) -> u32 {
    (msr & MSR_KEPT) | ((msr >> 16) & 1)
}

impl Cpu {
    /// Enters an exception.
    pub fn raise_exception(&mut self, exception: Exception)
        ensures
            final(self)@ == old(self)@.after_exception(exception),
    {
        let resume: u32 = match exception {
            Exception::Syscall => self.pc.wrapping_add(4),
            _ => self.pc,
        };
        let vector: u32 = exception.vector_offset();
        self.srr = [resume, self.msr & SRR1_TO_MSR_MASK];
        self.pc = if self.msr & MSR_IP != 0 { 0xFFF0_0000u32 | vector } else { vector };
        self.msr = (self.msr & MSR_KEPT) | ((self.msr >> 16) & 1);
    }
}

/// Registers, with arrays as sequences.
#[verifier::ext_equal]
pub struct CpuView {
    pub pc: u32,
    pub cr: u32,
    pub gpr: Seq<u32>,
    pub ps0: Seq<u64>,
    pub ps1: Seq<u64>,
    pub lr: u32,
    pub ctr: u32,
    pub xer: u32,
    pub fpscr: u32,
    pub msr: u32,
    pub dec: u32,
    pub tb: u64,
    pub srr: Seq<u32>,
    pub sprg: Seq<u32>,
    pub gqr: Seq<u32>,
    pub hid: Seq<u32>,
    pub l2cr: u32,
    pub ibat: Seq<u64>,
    pub dbat: Seq<u64>,
}

impl View for Cpu {
    type V = CpuView;

    open spec fn view(&self) -> CpuView {
        CpuView {
            pc: self.pc,
            cr: self.cr,
            gpr: self.gpr@,
            ps0: self.ps0@,
            ps1: self.ps1@,
            lr: self.lr,
            ctr: self.ctr,
            xer: self.xer,
            fpscr: self.fpscr,
            msr: self.msr,
            dec: self.dec,
            tb: self.tb,
            srr: self.srr@,
            sprg: self.sprg@,
            gqr: self.gqr@,
            hid: self.hid@,
            l2cr: self.l2cr,
            ibat: self.ibat@,
            dbat: self.dbat@,
        }
    }
}

impl CpuView {
    /// Word `k` of the register image: where each register lies.
    pub open spec fn word(self, k: int) -> u32 {
        if k == PC_WORD {
            self.pc
        } else if k == CR_WORD {
            self.cr
        } else if GPR_WORD <= k < FPR_WORD {
            self.gpr[k - GPR_WORD]
        } else if FPR_WORD <= k < LR_WORD {
            let r = (k - FPR_WORD) / 4;
            let part = (k - FPR_WORD) % 4;
            if part < 2 {
                half_of(seq![self.ps0[r]], part)
            } else {
                half_of(seq![self.ps1[r]], part - 2)
            }
        } else if k == LR_WORD {
            self.lr
        } else if k == CTR_WORD {
            self.ctr
        } else if k == XER_WORD {
            self.xer
        } else if k == FPSCR_WORD {
            self.fpscr
        } else if k == MSR_WORD {
            self.msr
        } else if k == DEC_WORD {
            self.dec
        } else if TB_WORD <= k < SRR_WORD {
            half_of(seq![self.tb], k - TB_WORD)
        } else if SRR_WORD <= k < SPRG_WORD {
            self.srr[k - SRR_WORD]
        } else if SPRG_WORD <= k < GQR_WORD {
            self.sprg[k - SPRG_WORD]
        } else if GQR_WORD <= k < HID_WORD {
            self.gqr[k - GQR_WORD]
        } else if HID_WORD <= k < L2CR_WORD {
            self.hid[k - HID_WORD]
        } else if k == L2CR_WORD {
            self.l2cr
        } else if IBAT_WORD <= k < DBAT_WORD {
            half_of(self.ibat, k - IBAT_WORD)
        } else {
            half_of(self.dbat, k - DBAT_WORD)
        }
    }

    /// Registers at reset: all zero, except that the exception prefix is set.
    pub open spec fn reset() -> CpuView {
        CpuView {
            pc: 0,
            cr: 0,
            gpr: Seq::new(32, |i: int| 0u32),
            ps0: Seq::new(32, |i: int| 0u64),
            ps1: Seq::new(32, |i: int| 0u64),
            lr: 0,
            ctr: 0,
            xer: 0,
            fpscr: 0,
            msr: MSR_IP,
            dec: 0,
            tb: 0,
            srr: Seq::new(2, |i: int| 0u32),
            sprg: Seq::new(4, |i: int| 0u32),
            gqr: Seq::new(8, |i: int| 0u32),
            hid: Seq::new(3, |i: int| 0u32),
            l2cr: 0,
            ibat: Seq::new(4, |i: int| 0u64),
            dbat: Seq::new(4, |i: int| 0u64),
        }
    }

    /// The registers after entering an exception: SRR0 holds the address to
    /// return to, which for a system call is the next instruction, SRR1 the
    /// saved bits of MSR, and control goes to the vector.
    pub open spec fn after_exception(self, exception: Exception) -> CpuView {
        CpuView {
            srr: seq![
                if exception is Syscall {
                    ((self.pc + 4) % 0x1_0000_0000) as u32
                } else {
                    self.pc
                },
                self.msr & SRR1_TO_MSR_MASK,
            ],
            msr: exception_msr(self.msr),
            pc: if self.msr & MSR_IP != 0 {
                0xFFF0_0000u32 | exception.vector()
            } else {
                exception.vector()
            },
            ..self
        }
    }
}

impl Default for Cpu {
    /// Registers at reset.
    fn default() -> (cpu: Self)
        ensures
            cpu@ == CpuView::reset(),
    {
        let cpu = Cpu {
            pc: 0,
            cr: 0,
            gpr: [0u32; 32],
            ps0: [0u64; 32],
            ps1: [0u64; 32],
            lr: 0,
            ctr: 0,
            xer: 0,
            fpscr: 0,
            msr: MSR_IP,
            dec: 0,
            tb: 0,
            srr: [0, 0],
            sprg: [0, 0, 0, 0],
            gqr: [0u32; 8],
            hid: [0, 0, 0],
            l2cr: 0,
            ibat: [0, 0, 0, 0],
            dbat: [0, 0, 0, 0],
        };
        assert(cpu@ =~= CpuView::reset());
        cpu
    }
}

/// What an exception saves, the return from it restores: MSR gets back every
/// bit that SRR1 carries.
pub proof fn exception_saves_msr(cpu: CpuView, exception: Exception)
    ensures
        cpu.after_exception(exception).srr[1] & SRR1_TO_MSR_MASK == cpu.msr & SRR1_TO_MSR_MASK,
        cpu.after_exception(exception).msr & MSR_EE == 0,
{
    let msr = cpu.msr;
    assert((msr & 0x87C0_FF73u32) & 0x87C0_FF73u32 == msr & 0x87C0_FF73u32 && ((msr
        & 0x0001_1040u32) | ((msr >> 16) & 1)) & 0x8000u32 == 0) by (bit_vector);
}

/// No two exceptions share a vector.
pub proof fn vectors_differ(a: Exception, b: Exception)
    requires
        a.vector() == b.vector(),
    ensures
        a == b,
{
}

} // verus!
