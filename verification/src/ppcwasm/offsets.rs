//! Byte offsets of the registers within the register image.
//!
//! Compiled blocks reach guest registers by loads and stores with these
//! constant offsets.

use vstd::prelude::*;

use crate::bytes::{le32_at, word_of_flattened};
use crate::gekko::{
    le64_at, join_of_halves, Cpu, CR_WORD, CTR_WORD, DEC_WORD, FPR_WORD, FPSCR_WORD, GPR_WORD,
    GQR_WORD, LR_WORD, MSR_WORD, PC_WORD, SPRG_WORD, SRR_WORD, TB_WORD, XER_WORD,
};

verus! {

/// Byte offsets of the registers within the register image.
#[derive(Debug, Clone, Copy)]
pub struct RegOffsets {
    /// Offset of the program counter.
    pub pc: u64,
    /// Offsets of the general-purpose registers.
    pub gpr: [u64; 32],
    /// Offsets of the first halves of the floating-point registers.
    pub fpr_ps0: [u64; 32],
    /// Offsets of the second halves of the floating-point registers.
    pub fpr_ps1: [u64; 32],
    /// Offset of the condition register.
    pub cr: u64,
    /// Offset of the link register.
    pub lr: u64,
    /// Offset of the count register.
    pub ctr: u64,
    /// Offset of the exception register.
    pub xer: u64,
    /// Offset of the low word of the time base.
    pub tb_lo: u64,
    /// Offset of the high word of the time base.
    pub tb_hi: u64,
    /// Offset of the machine state register.
    pub msr: u64,
    /// Offset of SRR0.
    pub srr0: u64,
    /// Offset of SRR1.
    pub srr1: u64,
    /// Offsets of the operating-system registers.
    pub sprg: [u64; 4],
    /// Offset of the decrementer.
    pub dec: u64,
    /// Offsets of the graphics quantization registers.
    pub gqr: [u64; 8],
    /// Offset of the floating-point status and control register.
    pub fpscr: u64,
}

impl RegOffsets {
    /// The offsets are those of the register image.
    pub open spec fn match_image(self) -> bool {
        &&& self.pc == 4 * PC_WORD
        &&& forall|i: int| 0 <= i < 32 ==> #[trigger] self.gpr@[i] == 4 * GPR_WORD + 4 * i
        &&& forall|i: int| 0 <= i < 32 ==> #[trigger] self.fpr_ps0@[i] == 4 * FPR_WORD + 16 * i
        &&& forall|i: int| 0 <= i < 32 ==> #[trigger] self.fpr_ps1@[i] == 4 * FPR_WORD + 16 * i + 8
        &&& self.cr == 4 * CR_WORD
        &&& self.lr == 4 * LR_WORD
        &&& self.ctr == 4 * CTR_WORD
        &&& self.xer == 4 * XER_WORD
        &&& self.tb_lo == 4 * TB_WORD
        &&& self.tb_hi == 4 * TB_WORD + 4
        &&& self.msr == 4 * MSR_WORD
        &&& self.srr0 == 4 * SRR_WORD
        &&& self.srr1 == 4 * SRR_WORD + 4
        &&& forall|i: int| 0 <= i < 4 ==> #[trigger] self.sprg@[i] == 4 * SPRG_WORD + 4 * i
        &&& self.dec == 4 * DEC_WORD
        &&& forall|i: int| 0 <= i < 8 ==> #[trigger] self.gqr@[i] == 4 * GQR_WORD + 4 * i
        &&& self.fpscr == 4 * FPSCR_WORD
    }

    /// The offsets of the registers within the register image.
    pub fn compute() -> (offsets: RegOffsets)
        ensures
            offsets.match_image(),
    {
        let mut gpr: [u64; 32] = [0u64; 32];
        let mut fpr_ps0: [u64; 32] = [0u64; 32];
        let mut fpr_ps1: [u64; 32] = [0u64; 32];
        let gpr_base: u64 = 4 * GPR_WORD as u64;
        let fpr_base: u64 = 4 * FPR_WORD as u64;
        let mut i: usize = 0;
        while i < 32
            invariant
                i <= 32,
                gpr_base == 4 * GPR_WORD,
                fpr_base == 4 * FPR_WORD,
                forall|j: int| 0 <= j < i ==> #[trigger] gpr@[j] == 4 * GPR_WORD + 4 * j,
                forall|j: int| 0 <= j < i ==> #[trigger] fpr_ps0@[j] == 4 * FPR_WORD + 16 * j,
                forall|j: int| 0 <= j < i ==> #[trigger] fpr_ps1@[j] == 4 * FPR_WORD + 16 * j + 8,
            decreases 32 - i,
        {
            gpr[i] = gpr_base + 4 * (i as u64);
            fpr_ps0[i] = fpr_base + 16 * (i as u64);
            fpr_ps1[i] = fpr_base + 16 * (i as u64) + 8;
            i = i + 1;
        }
        let sprg: u64 = 4 * SPRG_WORD as u64;
        let gqr: u64 = 4 * GQR_WORD as u64;
        RegOffsets {
            pc: 4 * PC_WORD as u64,
            gpr,
            fpr_ps0,
            fpr_ps1,
            cr: 4 * CR_WORD as u64,
            lr: 4 * LR_WORD as u64,
            ctr: 4 * CTR_WORD as u64,
            xer: 4 * XER_WORD as u64,
            tb_lo: 4 * TB_WORD as u64,
            tb_hi: 4 * TB_WORD as u64 + 4,
            msr: 4 * MSR_WORD as u64,
            srr0: 4 * SRR_WORD as u64,
            srr1: 4 * SRR_WORD as u64 + 4,
            sprg: [sprg, sprg + 4, sprg + 8, sprg + 12],
            dec: 4 * DEC_WORD as u64,
            gqr: [gqr, gqr + 4, gqr + 8, gqr + 12, gqr + 16, gqr + 20, gqr + 24, gqr + 28],
            fpscr: 4 * FPSCR_WORD as u64,
        }
    }
}

/// A load from the register image at one of the offsets gives the register that
/// the offset is named after.
#[verifier::spinoff_prover]
#[verifier::rlimit(40)]
pub proof fn offsets_locate_registers(offsets: RegOffsets, cpu: Cpu, i: int)
    requires
        offsets.match_image(),
        0 <= i < 32,
    ensures
        le32_at(cpu.image(), offsets.pc as int) == cpu.pc,
        le32_at(cpu.image(), offsets.gpr@[i] as int) == cpu.gpr@[i],
        le64_at(cpu.image(), offsets.fpr_ps0@[i] as int) == cpu.ps0@[i],
        le64_at(cpu.image(), offsets.fpr_ps1@[i] as int) == cpu.ps1@[i],
        le32_at(cpu.image(), offsets.cr as int) == cpu.cr,
        le32_at(cpu.image(), offsets.lr as int) == cpu.lr,
        le32_at(cpu.image(), offsets.ctr as int) == cpu.ctr,
        le32_at(cpu.image(), offsets.xer as int) == cpu.xer,
        le64_at(cpu.image(), offsets.tb_lo as int) == cpu.tb,
        offsets.tb_hi == offsets.tb_lo + 4,
        le32_at(cpu.image(), offsets.msr as int) == cpu.msr,
        le32_at(cpu.image(), offsets.srr0 as int) == cpu.srr@[0],
        le32_at(cpu.image(), offsets.srr1 as int) == cpu.srr@[1],
        i < 4 ==> le32_at(cpu.image(), offsets.sprg@[i] as int) == cpu.sprg@[i],
        le32_at(cpu.image(), offsets.dec as int) == cpu.dec,
        i < 8 ==> le32_at(cpu.image(), offsets.gqr@[i] as int) == cpu.gqr@[i],
        le32_at(cpu.image(), offsets.fpscr as int) == cpu.fpscr,
{
    let words = cpu.words();
    word_of_flattened(words, PC_WORD as int);
    word_of_flattened(words, GPR_WORD + i);
    let k = FPR_WORD + 4 * i;
    word_of_flattened(words, k);
    word_of_flattened(words, k + 1);
    word_of_flattened(words, k + 2);
    word_of_flattened(words, k + 3);
    join_of_halves(cpu.ps0@[i]);
    join_of_halves(cpu.ps1@[i]);
    word_of_flattened(words, CR_WORD as int);
    word_of_flattened(words, LR_WORD as int);
    word_of_flattened(words, CTR_WORD as int);
    word_of_flattened(words, XER_WORD as int);
    word_of_flattened(words, TB_WORD as int);
    word_of_flattened(words, TB_WORD + 1);
    join_of_halves(cpu.tb);
    word_of_flattened(words, MSR_WORD as int);
    word_of_flattened(words, SRR_WORD as int);
    word_of_flattened(words, SRR_WORD + 1);
    if i < 4 {
        word_of_flattened(words, SPRG_WORD + i);
    }
    word_of_flattened(words, DEC_WORD as int);
    if i < 8 {
        word_of_flattened(words, GQR_WORD + i);
    }
    word_of_flattened(words, FPSCR_WORD as int);
}

} // verus!
