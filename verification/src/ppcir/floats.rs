//! Translated code on doubles does what the architecture defines.
//!
//! What the arithmetic of doubles gives is left open: a definition here says which
//! operation is applied to which registers, in which order, and where the result goes.
//! What has no memory reads as zero.

use vstd::prelude::*;

use super::inst::IrInst::{
    F64Abs, F64Add, F64Const, F64Div, F64Eq, F64Gt, F64Lt, F64Mul, F64Nearest, F64Neg,
    F64PromoteSingleBits, F64ReinterpretI64, F64RoundToSingle, F64Select, F64Sqrt, F64Sub, I32Add,
    I32And, I32Const, I32DemoteToSingleBits, I32FromF64LowBits, I32Or, I32Shl, I32TruncSatF64S,
    I32Xor, I64ExtendI32S, LoadCr, LoadFprPs0, LoadFprPs1, LoadGpr, LocalGet, LocalSet, LocalTee,
    ReadF64, ReadU32, StoreCr, StoreFprPs0, StoreFprPs1, StoreGpr, WriteF64, WriteU32,
};
use super::definition::completed;
use super::inst::{local_at, IrInst, IrLocal, IrTy};
use super::meaning::{
    run, run_1, run_2, run_3, run_4, run_5, run_6, run_7, run_8, run_in_pieces, truth, Doubles,
    Machine, Stack, Value,
};
use super::pieces::{lemma_constant, lemma_field_bits, lemma_signed, lemma_truth, ready};
use super::translate::{
    cleared_field_code, ea_d_code, ea_x_code, estimate_code, float_compare_code, float_load_code,
    float_store_code, fma_code, fma_kind, fma_locals, fma_paired_code, fma_scalar_code, load_slot,
    paired_code, recip_code, scalar_code, shifted_or_code, so_position, store_slot, translate,
    F64_ONE, F64_ZERO, FmaKind, MAX_LOCALS,
};
use crate::disasm::{Ins, Opcode};
use crate::gekko::CpuView;
use crate::ppcint::arithmetic::wrapped;
use crate::ppcint::system::{nibble, with_field, SystemView};

verus! {

/// The double 1.0, by its bits.
pub const ONE: u64 = 0x3FF0_0000_0000_0000;

impl SystemView {
    /// The first half of floating-point register `r` replaced.
    pub open spec fn with_ps0(self, r: u8, bits: u64) -> SystemView {
        SystemView { cpu: CpuView { ps0: self.cpu.ps0.update(r as int, bits), ..self.cpu }, ..self }
    }

    /// The second half of floating-point register `r` replaced.
    pub open spec fn with_ps1(self, r: u8, bits: u64) -> SystemView {
        SystemView { cpu: CpuView { ps1: self.cpu.ps1.update(r as int, bits), ..self.cpu }, ..self }
    }

    /// Both halves of floating-point register `r` replaced.
    pub open spec fn with_pair(self, r: u8, ps0: u64, ps1: u64) -> SystemView {
        self.with_ps0(r, ps0).with_ps1(r, ps1)
    }

    /// The word at `addr`; 0 where there is no memory.
    pub open spec fn word_at(self, addr: u32) -> u32 {
        match self.read32(addr) {
            Some(word) => word,
            None => 0,
        }
    }
}

impl Doubles {
    /// A double rounded to single precision.
    pub open spec fn rounded(self, bits: u64) -> u64 {
        (self.promoted)((self.demoted)(bits))
    }

    /// Whether a double is zero or above.
    pub open spec fn not_below_zero(self, bits: u64) -> bool {
        (self.greater)(bits, 0) || (self.equal)(bits, 0)
    }

    /// A word, extended by its sign to 64 bits.
    pub open spec fn integer(word: u32) -> u64 {
        if word < 0x8000_0000 {
            word as u64
        } else {
            (word + 0xFFFF_FFFF_0000_0000) as u64
        }
    }
}

/// What scalar arithmetic is defined to leave.
#[verifier::opaque]
pub open spec fn defined_scalar(ins: Ins, sys: SystemView, ar: Doubles) -> SystemView {
    let d = ins.fpr_d();
    let a = sys.cpu.ps0[ins.fpr_a() as int];
    let b = sys.cpu.ps0[ins.fpr_b() as int];
    let c = sys.cpu.ps0[ins.fpr_c() as int];
    match ins.op {
        Opcode::Fadd => sys.with_ps0(d, (ar.sum)(a, b)),
        Opcode::Fadds => sys.with_ps0(d, ar.rounded((ar.sum)(a, b))),
        Opcode::Fsub => sys.with_ps0(d, (ar.difference)(a, b)),
        Opcode::Fsubs => sys.with_ps0(d, ar.rounded((ar.difference)(a, b))),
        Opcode::Fdiv => sys.with_ps0(d, (ar.quotient)(a, b)),
        Opcode::Fdivs => sys.with_ps0(d, ar.rounded((ar.quotient)(a, b))),
        Opcode::Fmul => sys.with_ps0(d, (ar.product)(a, c)),
        Opcode::Fmuls => sys.with_ps0(d, ar.rounded((ar.product)(a, c))),
        Opcode::Fmr => sys.with_ps0(d, b),
        Opcode::Fneg => sys.with_ps0(d, (ar.negated)(b)),
        Opcode::Fabs => sys.with_ps0(d, (ar.magnitude)(b)),
        Opcode::Frsp => sys.with_ps0(d, ar.rounded(b)),
        Opcode::Fsqrt => sys.with_ps0(d, (ar.root)(b)),
        Opcode::Fsqrts => sys.with_ps0(d, ar.rounded((ar.root)(b))),
        Opcode::Fctiw => sys.with_ps0(
            d,
            Doubles::integer((ar.truncated_clamped)((ar.nearest)(b))),
        ),
        Opcode::Fctiwz => sys.with_ps0(d, Doubles::integer((ar.truncated_clamped)(b))),
        Opcode::Mffs => sys.with_ps0(d, 0),
        Opcode::Fsel => if ar.not_below_zero(a) {
            sys.with_pair(d, c, sys.cpu.ps1[ins.fpr_c() as int])
        } else {
            sys.with_pair(d, b, sys.cpu.ps1[ins.fpr_b() as int])
        },
        _ => sys,
    }
}

/// What arithmetic on pairs is defined to leave. A merge stores the first half before it
/// reads the second, and so does the second sum.
#[verifier::opaque]
pub open spec fn defined_paired(ins: Ins, sys: SystemView, ar: Doubles) -> SystemView {
    let d = ins.fpr_d();
    let a0 = sys.cpu.ps0[ins.fpr_a() as int];
    let b0 = sys.cpu.ps0[ins.fpr_b() as int];
    let c0 = sys.cpu.ps0[ins.fpr_c() as int];
    let a1 = sys.cpu.ps1[ins.fpr_a() as int];
    let b1 = sys.cpu.ps1[ins.fpr_b() as int];
    let c1 = sys.cpu.ps1[ins.fpr_c() as int];
    match ins.op {
        Opcode::PsAdd => sys.with_pair(
            d,
            ar.rounded((ar.sum)(a0, b0)),
            ar.rounded((ar.sum)(a1, b1)),
        ),
        Opcode::PsSub => sys.with_pair(
            d,
            ar.rounded((ar.difference)(a0, b0)),
            ar.rounded((ar.difference)(a1, b1)),
        ),
        Opcode::PsDiv => sys.with_pair(
            d,
            ar.rounded((ar.quotient)(a0, b0)),
            ar.rounded((ar.quotient)(a1, b1)),
        ),
        Opcode::PsMul => sys.with_pair(
            d,
            ar.rounded((ar.product)(a0, c0)),
            ar.rounded((ar.product)(a1, c1)),
        ),
        Opcode::PsMr => sys.with_pair(d, b0, b1),
        Opcode::PsNeg => sys.with_pair(d, (ar.negated)(b0), (ar.negated)(b1)),
        Opcode::PsAbs => sys.with_pair(d, (ar.magnitude)(b0), (ar.magnitude)(b1)),
        Opcode::PsNabs => sys.with_pair(
            d,
            (ar.negated)((ar.magnitude)(b0)),
            (ar.negated)((ar.magnitude)(b1)),
        ),
        Opcode::PsMerge00 => {
            let first = sys.with_ps0(d, a0);
            first.with_ps1(d, first.cpu.ps0[ins.fpr_b() as int])
        },
        Opcode::PsMerge01 => sys.with_pair(d, a0, b1),
        Opcode::PsMerge10 => {
            let first = sys.with_ps0(d, a1);
            first.with_ps1(d, first.cpu.ps0[ins.fpr_b() as int])
        },
        Opcode::PsMerge11 => sys.with_pair(d, a1, b1),
        Opcode::PsSum0 => sys.with_pair(d, ar.rounded((ar.sum)(a0, b1)), c1),
        Opcode::PsSum1 => {
            let first = sys.with_ps0(d, c0);
            first.with_ps1(d, ar.rounded((ar.sum)(first.cpu.ps0[ins.fpr_a() as int], b1)))
        },
        Opcode::PsMuls0 => sys.with_pair(
            d,
            ar.rounded((ar.product)(a0, c0)),
            ar.rounded((ar.product)(a1, c0)),
        ),
        Opcode::PsMuls1 => sys.with_pair(
            d,
            ar.rounded((ar.product)(a0, c1)),
            ar.rounded((ar.product)(a1, c1)),
        ),
        Opcode::PsMadds0 => sys.with_pair(
            d,
            ar.rounded((ar.sum)(b0, (ar.product)(a0, c0))),
            ar.rounded((ar.sum)(b1, (ar.product)(a1, c0))),
        ),
        Opcode::PsMadds1 => sys.with_pair(
            d,
            ar.rounded((ar.sum)(b0, (ar.product)(a0, c1))),
            ar.rounded((ar.sum)(b1, (ar.product)(a1, c1))),
        ),
        Opcode::PsSel => sys.with_pair(
            d,
            if ar.not_below_zero(a0) {
                c0
            } else {
                b0
            },
            if ar.not_below_zero(a1) {
                c1
            } else {
                b1
            },
        ),
        _ => sys,
    }
}

/// What a product with a sum or difference, or a reciprocal, is defined to leave.
#[verifier::opaque]
pub open spec fn defined_fused(ins: Ins, sys: SystemView, ar: Doubles) -> SystemView {
    let d = ins.fpr_d();
    let a0 = sys.cpu.ps0[ins.fpr_a() as int];
    let b0 = sys.cpu.ps0[ins.fpr_b() as int];
    let c0 = sys.cpu.ps0[ins.fpr_c() as int];
    let a1 = sys.cpu.ps1[ins.fpr_a() as int];
    let b1 = sys.cpu.ps1[ins.fpr_b() as int];
    let c1 = sys.cpu.ps1[ins.fpr_c() as int];
    match ins.op {
        Opcode::Fmadd => sys.with_ps0(d, (ar.sum)(b0, (ar.product)(a0, c0))),
        Opcode::Fmadds => sys.with_ps0(d, ar.rounded((ar.sum)(b0, (ar.product)(a0, c0)))),
        Opcode::PsMadd => sys.with_pair(
            d,
            ar.rounded((ar.sum)(b0, (ar.product)(a0, c0))),
            ar.rounded((ar.sum)(b1, (ar.product)(a1, c1))),
        ),
        Opcode::Fmsub => sys.with_ps0(d, (ar.difference)((ar.product)(a0, c0), b0)),
        Opcode::Fmsubs => sys.with_ps0(d, ar.rounded((ar.difference)((ar.product)(a0, c0), b0))),
        Opcode::PsMsub => sys.with_pair(
            d,
            ar.rounded((ar.difference)((ar.product)(a0, c0), b0)),
            ar.rounded((ar.difference)((ar.product)(a1, c1), b1)),
        ),
        Opcode::Fnmadd => sys.with_ps0(d, (ar.negated)((ar.sum)((ar.product)(a0, c0), b0))),
        Opcode::Fnmadds => sys.with_ps0(
            d,
            ar.rounded((ar.negated)((ar.sum)((ar.product)(a0, c0), b0))),
        ),
        Opcode::PsNmadd => sys.with_pair(
            d,
            ar.rounded((ar.negated)((ar.sum)((ar.product)(a0, c0), b0))),
            ar.rounded((ar.negated)((ar.sum)((ar.product)(a1, c1), b1))),
        ),
        Opcode::Fnmsub => sys.with_ps0(d, (ar.negated)((ar.difference)((ar.product)(a0, c0), b0))),
        Opcode::Fnmsubs => sys.with_ps0(
            d,
            ar.rounded((ar.negated)((ar.difference)((ar.product)(a0, c0), b0))),
        ),
        Opcode::PsNmsub => sys.with_pair(
            d,
            ar.rounded((ar.negated)((ar.difference)((ar.product)(a0, c0), b0))),
            ar.rounded((ar.negated)((ar.difference)((ar.product)(a1, c1), b1))),
        ),
        Opcode::Fres => sys.with_ps0(d, (ar.quotient)(ONE, b0)),
        Opcode::Frsqrte => sys.with_ps0(d, (ar.quotient)(ONE, (ar.root)(b0))),
        Opcode::PsRes => sys.with_pair(d, (ar.quotient)(ONE, b0), (ar.quotient)(ONE, b1)),
        Opcode::PsRsqrte => sys.with_pair(
            d,
            (ar.quotient)(ONE, (ar.root)(b0)),
            (ar.quotient)(ONE, (ar.root)(b1)),
        ),
        _ => sys,
    }
}

/// What a comparison of doubles is defined to leave: the flags for less, greater and
/// equal, and the last one if none of them holds.
#[verifier::opaque]
pub open spec fn defined_comparison(ins: Ins, sys: SystemView, ar: Doubles) -> SystemView {
    let (a, b) = match ins.op {
        Opcode::PsCmpu1 | Opcode::PsCmpo1 => (
            sys.cpu.ps1[ins.fpr_a() as int],
            sys.cpu.ps1[ins.fpr_b() as int],
        ),
        _ => (sys.cpu.ps0[ins.fpr_a() as int], sys.cpu.ps0[ins.fpr_b() as int]),
    };
    let lt = (ar.less)(a, b);
    let gt = (ar.greater)(a, b);
    let eq = (ar.equal)(a, b);
    sys.with_cr(
        with_field(
            sys.cpu.cr,
            (28 - 4 * ins.field_crfd()) as u32,
            nibble(lt, gt, eq, !lt && !gt && !eq),
        ),
    )
}

/// Where a load or store of a double or single goes.
pub open spec fn float_address(ins: Ins, sys: SystemView) -> u32 {
    match ins.op {
        Opcode::Lfs | Opcode::PsqL | Opcode::Lfd | Opcode::Stfs | Opcode::PsqSt
        | Opcode::Stfd => sys.displaced(ins),
        Opcode::Lfsx | Opcode::PsqLx | Opcode::Lfdx | Opcode::Stfsx | Opcode::PsqStx
        | Opcode::Stfdx | Opcode::Stfiwx => sys.indexed(ins),
        Opcode::Lfsux | Opcode::Lfdux | Opcode::Stfsux | Opcode::Stfdux => wrapped(
            sys.gpr(ins.gpr_a()) + sys.gpr(ins.gpr_b()),
        ),
        _ => wrapped(sys.gpr(ins.gpr_a()) + ins.field_offset()),
    }
}

/// The base register after a load or store of a double or single.
pub open spec fn float_based(ins: Ins, sys: SystemView) -> SystemView {
    match ins.op {
        Opcode::Lfsu | Opcode::PsqLu | Opcode::Lfsux | Opcode::Lfdu | Opcode::Lfdux | Opcode::Stfsu
        | Opcode::Stfsux | Opcode::PsqStu | Opcode::Stfdu | Opcode::Stfdux => sys.with_gpr(
            ins.gpr_a(),
            float_address(ins, sys),
        ),
        _ => sys,
    }
}

/// What a load of a double or single is defined to leave: a single fills both halves, a
/// double only the first.
#[verifier::opaque]
pub open spec fn defined_float_load(ins: Ins, sys: SystemView, ar: Doubles) -> SystemView {
    let addr = float_address(ins, sys);
    match ins.op {
        Opcode::Lfd | Opcode::Lfdu | Opcode::Lfdx | Opcode::Lfdux => float_based(
            ins,
            sys,
        ).with_ps0(ins.fpr_d(), sys.read64(addr)),
        _ => {
            let value = (ar.promoted)(sys.word_at(addr));
            float_based(ins, sys).with_pair(ins.fpr_d(), value, value)
        },
    }
}

/// What a store of a double or single is defined to leave.
#[verifier::opaque]
pub open spec fn defined_float_store(ins: Ins, sys: SystemView, ar: Doubles) -> SystemView {
    let addr = float_address(ins, sys);
    let value = sys.cpu.ps0[ins.fpr_s() as int];
    match ins.op {
        Opcode::Stfd | Opcode::Stfdu | Opcode::Stfdx | Opcode::Stfdux => float_based(
            ins,
            sys,
        ).written64(addr, value),
        Opcode::Stfiwx => sys.written32(addr, (value % 0x1_0000_0000) as u32),
        _ => float_based(ins, sys).written32(addr, (ar.demoted)(value)),
    }
}

/// What an instruction on doubles is defined to leave; `None` for other instructions.
pub open spec fn float_defined(ins: Ins, sys: SystemView, ar: Doubles) -> Option<SystemView> {
    match ins.op {
        Opcode::Fadd | Opcode::Fadds | Opcode::Fsub | Opcode::Fsubs | Opcode::Fdiv | Opcode::Fdivs
        | Opcode::Fmul | Opcode::Fmuls | Opcode::Fmr | Opcode::Fneg | Opcode::Fabs | Opcode::Frsp
        | Opcode::Fsqrt | Opcode::Fsqrts | Opcode::Fctiw | Opcode::Fctiwz | Opcode::Mffs
        | Opcode::Fsel => Some(defined_scalar(ins, sys, ar)),
        Opcode::PsAdd | Opcode::PsSub | Opcode::PsDiv | Opcode::PsMul | Opcode::PsMr
        | Opcode::PsNeg | Opcode::PsAbs | Opcode::PsNabs | Opcode::PsMerge00 | Opcode::PsMerge01
        | Opcode::PsMerge10 | Opcode::PsMerge11 | Opcode::PsSum0 | Opcode::PsSum1
        | Opcode::PsMuls0 | Opcode::PsMadds0 | Opcode::PsMuls1 | Opcode::PsMadds1
        | Opcode::PsSel => Some(defined_paired(ins, sys, ar)),
        Opcode::Fmadd | Opcode::Fmadds | Opcode::Fmsub | Opcode::Fmsubs | Opcode::Fnmadd
        | Opcode::Fnmadds | Opcode::Fnmsub | Opcode::Fnmsubs | Opcode::PsMadd | Opcode::PsMsub
        | Opcode::PsNmadd | Opcode::PsNmsub | Opcode::Fres | Opcode::Frsqrte | Opcode::PsRes
        | Opcode::PsRsqrte => Some(defined_fused(ins, sys, ar)),
        Opcode::Fcmpu | Opcode::Fcmpo | Opcode::PsCmpu0 | Opcode::PsCmpo0 | Opcode::PsCmpu1
        | Opcode::PsCmpo1 => Some(defined_comparison(ins, sys, ar)),
        Opcode::Lfs | Opcode::PsqL | Opcode::Lfsu | Opcode::PsqLu | Opcode::Lfsx | Opcode::PsqLx
        | Opcode::Lfsux | Opcode::Lfd | Opcode::Lfdu | Opcode::Lfdx | Opcode::Lfdux => Some(
            defined_float_load(ins, sys, ar),
        ),
        Opcode::Stfs | Opcode::PsqSt | Opcode::Stfsu | Opcode::Stfsx | Opcode::PsqStx
        | Opcode::Stfsux | Opcode::PsqStu | Opcode::Stfd | Opcode::Stfdu | Opcode::Stfdx
        | Opcode::Stfdux | Opcode::Stfiwx => Some(defined_float_store(ins, sys, ar)),
        _ => None,
    }
}

proof fn lemma_fadd(ins: Ins, n: nat, m: Machine)
    requires
        ready(m),
        ins.op is Fadd,
        n <= MAX_LOCALS,
    ensures
        completed(
            run(scalar_code(ins, n), m),
            Some(defined_scalar(ins, m.sys, m.doubles)),
        ),
{
    reveal(scalar_code);
    reveal(defined_scalar);
    broadcast use crate::ppcir::meaning::group_steps;
    broadcast use crate::ppcir::meaning::group_float_steps;

    run_4(LoadFprPs0(ins.fpr_a()), LoadFprPs0(ins.fpr_b()), F64Add, StoreFprPs0(ins.fpr_d()), m);
}

proof fn lemma_fadds(ins: Ins, n: nat, m: Machine)
    requires
        ready(m),
        ins.op is Fadds,
        n <= MAX_LOCALS,
    ensures
        completed(
            run(scalar_code(ins, n), m),
            Some(defined_scalar(ins, m.sys, m.doubles)),
        ),
{
    reveal(scalar_code);
    reveal(defined_scalar);
    broadcast use crate::ppcir::meaning::group_steps;
    broadcast use crate::ppcir::meaning::group_float_steps;

    run_5(
        LoadFprPs0(ins.fpr_a()), LoadFprPs0(ins.fpr_b()), F64Add, F64RoundToSingle,
        StoreFprPs0(ins.fpr_d()), m,
    );
}

proof fn lemma_fsub(ins: Ins, n: nat, m: Machine)
    requires
        ready(m),
        ins.op is Fsub,
        n <= MAX_LOCALS,
    ensures
        completed(
            run(scalar_code(ins, n), m),
            Some(defined_scalar(ins, m.sys, m.doubles)),
        ),
{
    reveal(scalar_code);
    reveal(defined_scalar);
    broadcast use crate::ppcir::meaning::group_steps;
    broadcast use crate::ppcir::meaning::group_float_steps;

    run_4(LoadFprPs0(ins.fpr_a()), LoadFprPs0(ins.fpr_b()), F64Sub, StoreFprPs0(ins.fpr_d()), m);
}

proof fn lemma_fsubs(ins: Ins, n: nat, m: Machine)
    requires
        ready(m),
        ins.op is Fsubs,
        n <= MAX_LOCALS,
    ensures
        completed(
            run(scalar_code(ins, n), m),
            Some(defined_scalar(ins, m.sys, m.doubles)),
        ),
{
    reveal(scalar_code);
    reveal(defined_scalar);
    broadcast use crate::ppcir::meaning::group_steps;
    broadcast use crate::ppcir::meaning::group_float_steps;

    run_5(
        LoadFprPs0(ins.fpr_a()), LoadFprPs0(ins.fpr_b()), F64Sub, F64RoundToSingle,
        StoreFprPs0(ins.fpr_d()), m,
    );
}

proof fn lemma_fdiv(ins: Ins, n: nat, m: Machine)
    requires
        ready(m),
        ins.op is Fdiv,
        n <= MAX_LOCALS,
    ensures
        completed(
            run(scalar_code(ins, n), m),
            Some(defined_scalar(ins, m.sys, m.doubles)),
        ),
{
    reveal(scalar_code);
    reveal(defined_scalar);
    broadcast use crate::ppcir::meaning::group_steps;
    broadcast use crate::ppcir::meaning::group_float_steps;

    run_4(LoadFprPs0(ins.fpr_a()), LoadFprPs0(ins.fpr_b()), F64Div, StoreFprPs0(ins.fpr_d()), m);
}

proof fn lemma_fdivs(ins: Ins, n: nat, m: Machine)
    requires
        ready(m),
        ins.op is Fdivs,
        n <= MAX_LOCALS,
    ensures
        completed(
            run(scalar_code(ins, n), m),
            Some(defined_scalar(ins, m.sys, m.doubles)),
        ),
{
    reveal(scalar_code);
    reveal(defined_scalar);
    broadcast use crate::ppcir::meaning::group_steps;
    broadcast use crate::ppcir::meaning::group_float_steps;

    run_5(
        LoadFprPs0(ins.fpr_a()), LoadFprPs0(ins.fpr_b()), F64Div, F64RoundToSingle,
        StoreFprPs0(ins.fpr_d()), m,
    );
}

proof fn lemma_fmul(ins: Ins, n: nat, m: Machine)
    requires
        ready(m),
        ins.op is Fmul,
        n <= MAX_LOCALS,
    ensures
        completed(
            run(scalar_code(ins, n), m),
            Some(defined_scalar(ins, m.sys, m.doubles)),
        ),
{
    reveal(scalar_code);
    reveal(defined_scalar);
    broadcast use crate::ppcir::meaning::group_steps;
    broadcast use crate::ppcir::meaning::group_float_steps;

    run_4(LoadFprPs0(ins.fpr_a()), LoadFprPs0(ins.fpr_c()), F64Mul, StoreFprPs0(ins.fpr_d()), m);
}

proof fn lemma_fmuls(ins: Ins, n: nat, m: Machine)
    requires
        ready(m),
        ins.op is Fmuls,
        n <= MAX_LOCALS,
    ensures
        completed(
            run(scalar_code(ins, n), m),
            Some(defined_scalar(ins, m.sys, m.doubles)),
        ),
{
    reveal(scalar_code);
    reveal(defined_scalar);
    broadcast use crate::ppcir::meaning::group_steps;
    broadcast use crate::ppcir::meaning::group_float_steps;

    run_5(
        LoadFprPs0(ins.fpr_a()), LoadFprPs0(ins.fpr_c()), F64Mul, F64RoundToSingle,
        StoreFprPs0(ins.fpr_d()), m,
    );
}

proof fn lemma_fmr(ins: Ins, n: nat, m: Machine)
    requires
        ready(m),
        ins.op is Fmr,
        n <= MAX_LOCALS,
    ensures
        completed(
            run(scalar_code(ins, n), m),
            Some(defined_scalar(ins, m.sys, m.doubles)),
        ),
{
    reveal(scalar_code);
    reveal(defined_scalar);
    broadcast use crate::ppcir::meaning::group_steps;
    broadcast use crate::ppcir::meaning::group_float_steps;

    run_2(LoadFprPs0(ins.fpr_b()), StoreFprPs0(ins.fpr_d()), m);
}

proof fn lemma_fneg(ins: Ins, n: nat, m: Machine)
    requires
        ready(m),
        ins.op is Fneg,
        n <= MAX_LOCALS,
    ensures
        completed(
            run(scalar_code(ins, n), m),
            Some(defined_scalar(ins, m.sys, m.doubles)),
        ),
{
    reveal(scalar_code);
    reveal(defined_scalar);
    broadcast use crate::ppcir::meaning::group_steps;
    broadcast use crate::ppcir::meaning::group_float_steps;

    run_3(LoadFprPs0(ins.fpr_b()), F64Neg, StoreFprPs0(ins.fpr_d()), m);
}

proof fn lemma_fabs(ins: Ins, n: nat, m: Machine)
    requires
        ready(m),
        ins.op is Fabs,
        n <= MAX_LOCALS,
    ensures
        completed(
            run(scalar_code(ins, n), m),
            Some(defined_scalar(ins, m.sys, m.doubles)),
        ),
{
    reveal(scalar_code);
    reveal(defined_scalar);
    broadcast use crate::ppcir::meaning::group_steps;
    broadcast use crate::ppcir::meaning::group_float_steps;

    run_3(LoadFprPs0(ins.fpr_b()), F64Abs, StoreFprPs0(ins.fpr_d()), m);
}

proof fn lemma_frsp(ins: Ins, n: nat, m: Machine)
    requires
        ready(m),
        ins.op is Frsp,
        n <= MAX_LOCALS,
    ensures
        completed(
            run(scalar_code(ins, n), m),
            Some(defined_scalar(ins, m.sys, m.doubles)),
        ),
{
    reveal(scalar_code);
    reveal(defined_scalar);
    broadcast use crate::ppcir::meaning::group_steps;
    broadcast use crate::ppcir::meaning::group_float_steps;

    run_3(LoadFprPs0(ins.fpr_b()), F64RoundToSingle, StoreFprPs0(ins.fpr_d()), m);
}

proof fn lemma_fsqrt(ins: Ins, n: nat, m: Machine)
    requires
        ready(m),
        ins.op is Fsqrt,
        n <= MAX_LOCALS,
    ensures
        completed(
            run(scalar_code(ins, n), m),
            Some(defined_scalar(ins, m.sys, m.doubles)),
        ),
{
    reveal(scalar_code);
    reveal(defined_scalar);
    broadcast use crate::ppcir::meaning::group_steps;
    broadcast use crate::ppcir::meaning::group_float_steps;

    run_3(LoadFprPs0(ins.fpr_b()), F64Sqrt, StoreFprPs0(ins.fpr_d()), m);
}

proof fn lemma_fsqrts(ins: Ins, n: nat, m: Machine)
    requires
        ready(m),
        ins.op is Fsqrts,
        n <= MAX_LOCALS,
    ensures
        completed(
            run(scalar_code(ins, n), m),
            Some(defined_scalar(ins, m.sys, m.doubles)),
        ),
{
    reveal(scalar_code);
    reveal(defined_scalar);
    broadcast use crate::ppcir::meaning::group_steps;
    broadcast use crate::ppcir::meaning::group_float_steps;

    run_4(LoadFprPs0(ins.fpr_b()), F64Sqrt, F64RoundToSingle, StoreFprPs0(ins.fpr_d()), m);
}

proof fn lemma_fctiw(ins: Ins, n: nat, m: Machine)
    requires
        ready(m),
        ins.op is Fctiw,
        n <= MAX_LOCALS,
    ensures
        completed(
            run(scalar_code(ins, n), m),
            Some(defined_scalar(ins, m.sys, m.doubles)),
        ),
{
    reveal(scalar_code);
    reveal(defined_scalar);
    broadcast use crate::ppcir::meaning::group_steps;
    broadcast use crate::ppcir::meaning::group_float_steps;

    let word = (m.doubles.truncated_clamped)(
        (m.doubles.nearest)(m.sys.cpu.ps0[ins.fpr_b() as int]),
    );
    lemma_constant(word);
    lemma_signed(word as i32);
    run_6(
        LoadFprPs0(ins.fpr_b()), F64Nearest, I32TruncSatF64S, I64ExtendI32S, F64ReinterpretI64,
        StoreFprPs0(ins.fpr_d()), m,
    );
}

proof fn lemma_fctiwz(ins: Ins, n: nat, m: Machine)
    requires
        ready(m),
        ins.op is Fctiwz,
        n <= MAX_LOCALS,
    ensures
        completed(
            run(scalar_code(ins, n), m),
            Some(defined_scalar(ins, m.sys, m.doubles)),
        ),
{
    reveal(scalar_code);
    reveal(defined_scalar);
    broadcast use crate::ppcir::meaning::group_steps;
    broadcast use crate::ppcir::meaning::group_float_steps;

    let word = (m.doubles.truncated_clamped)(m.sys.cpu.ps0[ins.fpr_b() as int]);
    lemma_constant(word);
    lemma_signed(word as i32);
    run_5(
        LoadFprPs0(ins.fpr_b()), I32TruncSatF64S, I64ExtendI32S, F64ReinterpretI64,
        StoreFprPs0(ins.fpr_d()), m,
    );
}

proof fn lemma_mffs(ins: Ins, n: nat, m: Machine)
    requires
        ready(m),
        ins.op is Mffs,
        n <= MAX_LOCALS,
    ensures
        completed(
            run(scalar_code(ins, n), m),
            Some(defined_scalar(ins, m.sys, m.doubles)),
        ),
{
    reveal(scalar_code);
    reveal(defined_scalar);
    broadcast use crate::ppcir::meaning::group_steps;
    broadcast use crate::ppcir::meaning::group_float_steps;

    run_2(F64Const(F64_ZERO), StoreFprPs0(ins.fpr_d()), m);
}

proof fn lemma_fsel(ins: Ins, n: nat, m: Machine)
    requires
        ready(m),
        ins.op is Fsel,
        n <= MAX_LOCALS,
    ensures
        completed(
            run(scalar_code(ins, n), m),
            Some(defined_scalar(ins, m.sys, m.doubles)),
        ),
{
    reveal(scalar_code);
    reveal(defined_scalar);
    broadcast use crate::ppcir::meaning::group_steps;
    broadcast use crate::ppcir::meaning::group_float_steps;

    let l1 = local_at(n + 1, IrTy::F64);
    let l2 = local_at(n + 2, IrTy::I32);
    let a_ps0 = m.sys.cpu.ps0[ins.fpr_a() as int];
    lemma_truth((m.doubles.greater)(a_ps0, 0), (m.doubles.equal)(a_ps0, 0));
    let p0 = seq![LoadFprPs0(ins.fpr_a()), LocalSet(l1), LocalGet(l1), F64Const(F64_ZERO), F64Gt];
    run_5(LoadFprPs0(ins.fpr_a()), LocalSet(l1), LocalGet(l1), F64Const(F64_ZERO), F64Gt, m);
    let m0 = run(p0, m);
    let p1 = seq![LocalGet(l1), F64Const(F64_ZERO), F64Eq, I32Or, LocalSet(l2)];
    run_5(LocalGet(l1), F64Const(F64_ZERO), F64Eq, I32Or, LocalSet(l2), m0);
    run_in_pieces(p0, p1, m);
    let q1 = p0 + p1;
    let m1 = run(q1, m);
    let p2 = seq![
        LoadFprPs0(ins.fpr_c()), LoadFprPs0(ins.fpr_b()), LocalGet(l2), F64Select,
        StoreFprPs0(ins.fpr_d()),
    ];
    run_5(
        LoadFprPs0(ins.fpr_c()), LoadFprPs0(ins.fpr_b()), LocalGet(l2), F64Select,
        StoreFprPs0(ins.fpr_d()), m1,
    );
    run_in_pieces(q1, p2, m);
    let q2 = q1 + p2;
    let m2 = run(q2, m);
    let p3 = seq![
        LoadFprPs1(ins.fpr_c()), LoadFprPs1(ins.fpr_b()), LocalGet(l2), F64Select,
        StoreFprPs1(ins.fpr_d()),
    ];
    run_5(
        LoadFprPs1(ins.fpr_c()), LoadFprPs1(ins.fpr_b()), LocalGet(l2), F64Select,
        StoreFprPs1(ins.fpr_d()), m2,
    );
    run_in_pieces(q2, p3, m);
}

proof fn lemma_ps_add(ins: Ins, n: nat, m: Machine)
    requires
        ready(m),
        ins.op is PsAdd,
        n <= MAX_LOCALS,
    ensures
        completed(
            run(paired_code(ins, n), m),
            Some(defined_paired(ins, m.sys, m.doubles)),
        ),
{
    reveal(paired_code);
    reveal(defined_paired);
    broadcast use crate::ppcir::meaning::group_steps;
    broadcast use crate::ppcir::meaning::group_float_steps;

    let p0 = seq![
        LoadFprPs0(ins.fpr_a()), LoadFprPs0(ins.fpr_b()), F64Add, F64RoundToSingle,
        StoreFprPs0(ins.fpr_d()),
    ];
    run_5(
        LoadFprPs0(ins.fpr_a()), LoadFprPs0(ins.fpr_b()), F64Add, F64RoundToSingle,
        StoreFprPs0(ins.fpr_d()), m,
    );
    let m0 = run(p0, m);
    let p1 = seq![
        LoadFprPs1(ins.fpr_a()), LoadFprPs1(ins.fpr_b()), F64Add, F64RoundToSingle,
        StoreFprPs1(ins.fpr_d()),
    ];
    run_5(
        LoadFprPs1(ins.fpr_a()), LoadFprPs1(ins.fpr_b()), F64Add, F64RoundToSingle,
        StoreFprPs1(ins.fpr_d()), m0,
    );
    run_in_pieces(p0, p1, m);
}

proof fn lemma_ps_sub(ins: Ins, n: nat, m: Machine)
    requires
        ready(m),
        ins.op is PsSub,
        n <= MAX_LOCALS,
    ensures
        completed(
            run(paired_code(ins, n), m),
            Some(defined_paired(ins, m.sys, m.doubles)),
        ),
{
    reveal(paired_code);
    reveal(defined_paired);
    broadcast use crate::ppcir::meaning::group_steps;
    broadcast use crate::ppcir::meaning::group_float_steps;

    let p0 = seq![
        LoadFprPs0(ins.fpr_a()), LoadFprPs0(ins.fpr_b()), F64Sub, F64RoundToSingle,
        StoreFprPs0(ins.fpr_d()),
    ];
    run_5(
        LoadFprPs0(ins.fpr_a()), LoadFprPs0(ins.fpr_b()), F64Sub, F64RoundToSingle,
        StoreFprPs0(ins.fpr_d()), m,
    );
    let m0 = run(p0, m);
    let p1 = seq![
        LoadFprPs1(ins.fpr_a()), LoadFprPs1(ins.fpr_b()), F64Sub, F64RoundToSingle,
        StoreFprPs1(ins.fpr_d()),
    ];
    run_5(
        LoadFprPs1(ins.fpr_a()), LoadFprPs1(ins.fpr_b()), F64Sub, F64RoundToSingle,
        StoreFprPs1(ins.fpr_d()), m0,
    );
    run_in_pieces(p0, p1, m);
}

proof fn lemma_ps_div(ins: Ins, n: nat, m: Machine)
    requires
        ready(m),
        ins.op is PsDiv,
        n <= MAX_LOCALS,
    ensures
        completed(
            run(paired_code(ins, n), m),
            Some(defined_paired(ins, m.sys, m.doubles)),
        ),
{
    reveal(paired_code);
    reveal(defined_paired);
    broadcast use crate::ppcir::meaning::group_steps;
    broadcast use crate::ppcir::meaning::group_float_steps;

    let p0 = seq![
        LoadFprPs0(ins.fpr_a()), LoadFprPs0(ins.fpr_b()), F64Div, F64RoundToSingle,
        StoreFprPs0(ins.fpr_d()),
    ];
    run_5(
        LoadFprPs0(ins.fpr_a()), LoadFprPs0(ins.fpr_b()), F64Div, F64RoundToSingle,
        StoreFprPs0(ins.fpr_d()), m,
    );
    let m0 = run(p0, m);
    let p1 = seq![
        LoadFprPs1(ins.fpr_a()), LoadFprPs1(ins.fpr_b()), F64Div, F64RoundToSingle,
        StoreFprPs1(ins.fpr_d()),
    ];
    run_5(
        LoadFprPs1(ins.fpr_a()), LoadFprPs1(ins.fpr_b()), F64Div, F64RoundToSingle,
        StoreFprPs1(ins.fpr_d()), m0,
    );
    run_in_pieces(p0, p1, m);
}

proof fn lemma_ps_mul(ins: Ins, n: nat, m: Machine)
    requires
        ready(m),
        ins.op is PsMul,
        n <= MAX_LOCALS,
    ensures
        completed(
            run(paired_code(ins, n), m),
            Some(defined_paired(ins, m.sys, m.doubles)),
        ),
{
    reveal(paired_code);
    reveal(defined_paired);
    broadcast use crate::ppcir::meaning::group_steps;
    broadcast use crate::ppcir::meaning::group_float_steps;

    let p0 = seq![
        LoadFprPs0(ins.fpr_a()), LoadFprPs0(ins.fpr_c()), F64Mul, F64RoundToSingle,
        StoreFprPs0(ins.fpr_d()),
    ];
    run_5(
        LoadFprPs0(ins.fpr_a()), LoadFprPs0(ins.fpr_c()), F64Mul, F64RoundToSingle,
        StoreFprPs0(ins.fpr_d()), m,
    );
    let m0 = run(p0, m);
    let p1 = seq![
        LoadFprPs1(ins.fpr_a()), LoadFprPs1(ins.fpr_c()), F64Mul, F64RoundToSingle,
        StoreFprPs1(ins.fpr_d()),
    ];
    run_5(
        LoadFprPs1(ins.fpr_a()), LoadFprPs1(ins.fpr_c()), F64Mul, F64RoundToSingle,
        StoreFprPs1(ins.fpr_d()), m0,
    );
    run_in_pieces(p0, p1, m);
}

proof fn lemma_ps_mr(ins: Ins, n: nat, m: Machine)
    requires
        ready(m),
        ins.op is PsMr,
        n <= MAX_LOCALS,
    ensures
        completed(
            run(paired_code(ins, n), m),
            Some(defined_paired(ins, m.sys, m.doubles)),
        ),
{
    reveal(paired_code);
    reveal(defined_paired);
    broadcast use crate::ppcir::meaning::group_steps;
    broadcast use crate::ppcir::meaning::group_float_steps;

    run_4(
        LoadFprPs0(ins.fpr_b()), StoreFprPs0(ins.fpr_d()), LoadFprPs1(ins.fpr_b()),
        StoreFprPs1(ins.fpr_d()), m,
    );
}

proof fn lemma_ps_neg(ins: Ins, n: nat, m: Machine)
    requires
        ready(m),
        ins.op is PsNeg,
        n <= MAX_LOCALS,
    ensures
        completed(
            run(paired_code(ins, n), m),
            Some(defined_paired(ins, m.sys, m.doubles)),
        ),
{
    reveal(paired_code);
    reveal(defined_paired);
    broadcast use crate::ppcir::meaning::group_steps;
    broadcast use crate::ppcir::meaning::group_float_steps;

    run_6(
        LoadFprPs0(ins.fpr_b()), F64Neg, StoreFprPs0(ins.fpr_d()), LoadFprPs1(ins.fpr_b()), F64Neg,
        StoreFprPs1(ins.fpr_d()), m,
    );
}

proof fn lemma_ps_abs(ins: Ins, n: nat, m: Machine)
    requires
        ready(m),
        ins.op is PsAbs,
        n <= MAX_LOCALS,
    ensures
        completed(
            run(paired_code(ins, n), m),
            Some(defined_paired(ins, m.sys, m.doubles)),
        ),
{
    reveal(paired_code);
    reveal(defined_paired);
    broadcast use crate::ppcir::meaning::group_steps;
    broadcast use crate::ppcir::meaning::group_float_steps;

    run_6(
        LoadFprPs0(ins.fpr_b()), F64Abs, StoreFprPs0(ins.fpr_d()), LoadFprPs1(ins.fpr_b()), F64Abs,
        StoreFprPs1(ins.fpr_d()), m,
    );
}

proof fn lemma_ps_nabs(ins: Ins, n: nat, m: Machine)
    requires
        ready(m),
        ins.op is PsNabs,
        n <= MAX_LOCALS,
    ensures
        completed(
            run(paired_code(ins, n), m),
            Some(defined_paired(ins, m.sys, m.doubles)),
        ),
{
    reveal(paired_code);
    reveal(defined_paired);
    broadcast use crate::ppcir::meaning::group_steps;
    broadcast use crate::ppcir::meaning::group_float_steps;

    run_8(
        LoadFprPs0(ins.fpr_b()), F64Abs, F64Neg, StoreFprPs0(ins.fpr_d()), LoadFprPs1(ins.fpr_b()),
        F64Abs, F64Neg, StoreFprPs1(ins.fpr_d()), m,
    );
}

proof fn lemma_ps_merge00(ins: Ins, n: nat, m: Machine)
    requires
        ready(m),
        ins.op is PsMerge00,
        n <= MAX_LOCALS,
    ensures
        completed(
            run(paired_code(ins, n), m),
            Some(defined_paired(ins, m.sys, m.doubles)),
        ),
{
    reveal(paired_code);
    reveal(defined_paired);
    broadcast use crate::ppcir::meaning::group_steps;
    broadcast use crate::ppcir::meaning::group_float_steps;

    run_4(
        LoadFprPs0(ins.fpr_a()), StoreFprPs0(ins.fpr_d()), LoadFprPs0(ins.fpr_b()),
        StoreFprPs1(ins.fpr_d()), m,
    );
}

proof fn lemma_ps_merge01(ins: Ins, n: nat, m: Machine)
    requires
        ready(m),
        ins.op is PsMerge01,
        n <= MAX_LOCALS,
    ensures
        completed(
            run(paired_code(ins, n), m),
            Some(defined_paired(ins, m.sys, m.doubles)),
        ),
{
    reveal(paired_code);
    reveal(defined_paired);
    broadcast use crate::ppcir::meaning::group_steps;
    broadcast use crate::ppcir::meaning::group_float_steps;

    run_4(
        LoadFprPs0(ins.fpr_a()), StoreFprPs0(ins.fpr_d()), LoadFprPs1(ins.fpr_b()),
        StoreFprPs1(ins.fpr_d()), m,
    );
}

proof fn lemma_ps_merge10(ins: Ins, n: nat, m: Machine)
    requires
        ready(m),
        ins.op is PsMerge10,
        n <= MAX_LOCALS,
    ensures
        completed(
            run(paired_code(ins, n), m),
            Some(defined_paired(ins, m.sys, m.doubles)),
        ),
{
    reveal(paired_code);
    reveal(defined_paired);
    broadcast use crate::ppcir::meaning::group_steps;
    broadcast use crate::ppcir::meaning::group_float_steps;

    run_4(
        LoadFprPs1(ins.fpr_a()), StoreFprPs0(ins.fpr_d()), LoadFprPs0(ins.fpr_b()),
        StoreFprPs1(ins.fpr_d()), m,
    );
}

proof fn lemma_ps_merge11(ins: Ins, n: nat, m: Machine)
    requires
        ready(m),
        ins.op is PsMerge11,
        n <= MAX_LOCALS,
    ensures
        completed(
            run(paired_code(ins, n), m),
            Some(defined_paired(ins, m.sys, m.doubles)),
        ),
{
    reveal(paired_code);
    reveal(defined_paired);
    broadcast use crate::ppcir::meaning::group_steps;
    broadcast use crate::ppcir::meaning::group_float_steps;

    run_4(
        LoadFprPs1(ins.fpr_a()), StoreFprPs0(ins.fpr_d()), LoadFprPs1(ins.fpr_b()),
        StoreFprPs1(ins.fpr_d()), m,
    );
}

proof fn lemma_ps_sum0(ins: Ins, n: nat, m: Machine)
    requires
        ready(m),
        ins.op is PsSum0,
        n <= MAX_LOCALS,
    ensures
        completed(
            run(paired_code(ins, n), m),
            Some(defined_paired(ins, m.sys, m.doubles)),
        ),
{
    reveal(paired_code);
    reveal(defined_paired);
    broadcast use crate::ppcir::meaning::group_steps;
    broadcast use crate::ppcir::meaning::group_float_steps;

    run_7(
        LoadFprPs0(ins.fpr_a()), LoadFprPs1(ins.fpr_b()), F64Add, F64RoundToSingle,
        StoreFprPs0(ins.fpr_d()), LoadFprPs1(ins.fpr_c()), StoreFprPs1(ins.fpr_d()), m,
    );
}

proof fn lemma_ps_sum1(ins: Ins, n: nat, m: Machine)
    requires
        ready(m),
        ins.op is PsSum1,
        n <= MAX_LOCALS,
    ensures
        completed(
            run(paired_code(ins, n), m),
            Some(defined_paired(ins, m.sys, m.doubles)),
        ),
{
    reveal(paired_code);
    reveal(defined_paired);
    broadcast use crate::ppcir::meaning::group_steps;
    broadcast use crate::ppcir::meaning::group_float_steps;

    run_7(
        LoadFprPs0(ins.fpr_c()), StoreFprPs0(ins.fpr_d()), LoadFprPs0(ins.fpr_a()),
        LoadFprPs1(ins.fpr_b()), F64Add, F64RoundToSingle, StoreFprPs1(ins.fpr_d()), m,
    );
}

proof fn lemma_ps_muls0(ins: Ins, n: nat, m: Machine)
    requires
        ready(m),
        ins.op is PsMuls0,
        n <= MAX_LOCALS,
    ensures
        completed(
            run(paired_code(ins, n), m),
            Some(defined_paired(ins, m.sys, m.doubles)),
        ),
{
    reveal(paired_code);
    reveal(defined_paired);
    broadcast use crate::ppcir::meaning::group_steps;
    broadcast use crate::ppcir::meaning::group_float_steps;

    let l1 = local_at(n + 1, IrTy::F64);
    let p0 = seq![LoadFprPs0(ins.fpr_c()), LocalSet(l1)];
    run_2(LoadFprPs0(ins.fpr_c()), LocalSet(l1), m);
    let m0 = run(p0, m);
    let p1 = seq![
        LoadFprPs0(ins.fpr_a()), LocalGet(l1), F64Mul, F64RoundToSingle, StoreFprPs0(ins.fpr_d()),
    ];
    run_5(
        LoadFprPs0(ins.fpr_a()), LocalGet(l1), F64Mul, F64RoundToSingle, StoreFprPs0(ins.fpr_d()),
        m0,
    );
    run_in_pieces(p0, p1, m);
    let q1 = p0 + p1;
    let m1 = run(q1, m);
    let p2 = seq![
        LoadFprPs1(ins.fpr_a()), LocalGet(l1), F64Mul, F64RoundToSingle, StoreFprPs1(ins.fpr_d()),
    ];
    run_5(
        LoadFprPs1(ins.fpr_a()), LocalGet(l1), F64Mul, F64RoundToSingle, StoreFprPs1(ins.fpr_d()),
        m1,
    );
    run_in_pieces(q1, p2, m);
}

proof fn lemma_ps_muls1(ins: Ins, n: nat, m: Machine)
    requires
        ready(m),
        ins.op is PsMuls1,
        n <= MAX_LOCALS,
    ensures
        completed(
            run(paired_code(ins, n), m),
            Some(defined_paired(ins, m.sys, m.doubles)),
        ),
{
    reveal(paired_code);
    reveal(defined_paired);
    broadcast use crate::ppcir::meaning::group_steps;
    broadcast use crate::ppcir::meaning::group_float_steps;

    let l1 = local_at(n + 1, IrTy::F64);
    let p0 = seq![LoadFprPs1(ins.fpr_c()), LocalSet(l1)];
    run_2(LoadFprPs1(ins.fpr_c()), LocalSet(l1), m);
    let m0 = run(p0, m);
    let p1 = seq![
        LoadFprPs0(ins.fpr_a()), LocalGet(l1), F64Mul, F64RoundToSingle, StoreFprPs0(ins.fpr_d()),
    ];
    run_5(
        LoadFprPs0(ins.fpr_a()), LocalGet(l1), F64Mul, F64RoundToSingle, StoreFprPs0(ins.fpr_d()),
        m0,
    );
    run_in_pieces(p0, p1, m);
    let q1 = p0 + p1;
    let m1 = run(q1, m);
    let p2 = seq![
        LoadFprPs1(ins.fpr_a()), LocalGet(l1), F64Mul, F64RoundToSingle, StoreFprPs1(ins.fpr_d()),
    ];
    run_5(
        LoadFprPs1(ins.fpr_a()), LocalGet(l1), F64Mul, F64RoundToSingle, StoreFprPs1(ins.fpr_d()),
        m1,
    );
    run_in_pieces(q1, p2, m);
}

proof fn lemma_ps_madds0(ins: Ins, n: nat, m: Machine)
    requires
        ready(m),
        ins.op is PsMadds0,
        n <= MAX_LOCALS,
    ensures
        completed(
            run(paired_code(ins, n), m),
            Some(defined_paired(ins, m.sys, m.doubles)),
        ),
{
    reveal(paired_code);
    reveal(defined_paired);
    broadcast use crate::ppcir::meaning::group_steps;
    broadcast use crate::ppcir::meaning::group_float_steps;

    let l1 = local_at(n + 1, IrTy::F64);
    let p0 = seq![LoadFprPs0(ins.fpr_c()), LocalSet(l1)];
    run_2(LoadFprPs0(ins.fpr_c()), LocalSet(l1), m);
    let m0 = run(p0, m);
    let p1 = seq![
        LoadFprPs0(ins.fpr_b()), LoadFprPs0(ins.fpr_a()), LocalGet(l1), F64Mul, F64Add,
        F64RoundToSingle, StoreFprPs0(ins.fpr_d()),
    ];
    run_7(
        LoadFprPs0(ins.fpr_b()), LoadFprPs0(ins.fpr_a()), LocalGet(l1), F64Mul, F64Add,
        F64RoundToSingle, StoreFprPs0(ins.fpr_d()), m0,
    );
    run_in_pieces(p0, p1, m);
    let q1 = p0 + p1;
    let m1 = run(q1, m);
    let p2 = seq![
        LoadFprPs1(ins.fpr_b()), LoadFprPs1(ins.fpr_a()), LocalGet(l1), F64Mul, F64Add,
        F64RoundToSingle, StoreFprPs1(ins.fpr_d()),
    ];
    run_7(
        LoadFprPs1(ins.fpr_b()), LoadFprPs1(ins.fpr_a()), LocalGet(l1), F64Mul, F64Add,
        F64RoundToSingle, StoreFprPs1(ins.fpr_d()), m1,
    );
    run_in_pieces(q1, p2, m);
}

proof fn lemma_ps_madds1(ins: Ins, n: nat, m: Machine)
    requires
        ready(m),
        ins.op is PsMadds1,
        n <= MAX_LOCALS,
    ensures
        completed(
            run(paired_code(ins, n), m),
            Some(defined_paired(ins, m.sys, m.doubles)),
        ),
{
    reveal(paired_code);
    reveal(defined_paired);
    broadcast use crate::ppcir::meaning::group_steps;
    broadcast use crate::ppcir::meaning::group_float_steps;

    let l1 = local_at(n + 1, IrTy::F64);
    let p0 = seq![LoadFprPs1(ins.fpr_c()), LocalSet(l1)];
    run_2(LoadFprPs1(ins.fpr_c()), LocalSet(l1), m);
    let m0 = run(p0, m);
    let p1 = seq![
        LoadFprPs0(ins.fpr_b()), LoadFprPs0(ins.fpr_a()), LocalGet(l1), F64Mul, F64Add,
        F64RoundToSingle, StoreFprPs0(ins.fpr_d()),
    ];
    run_7(
        LoadFprPs0(ins.fpr_b()), LoadFprPs0(ins.fpr_a()), LocalGet(l1), F64Mul, F64Add,
        F64RoundToSingle, StoreFprPs0(ins.fpr_d()), m0,
    );
    run_in_pieces(p0, p1, m);
    let q1 = p0 + p1;
    let m1 = run(q1, m);
    let p2 = seq![
        LoadFprPs1(ins.fpr_b()), LoadFprPs1(ins.fpr_a()), LocalGet(l1), F64Mul, F64Add,
        F64RoundToSingle, StoreFprPs1(ins.fpr_d()),
    ];
    run_7(
        LoadFprPs1(ins.fpr_b()), LoadFprPs1(ins.fpr_a()), LocalGet(l1), F64Mul, F64Add,
        F64RoundToSingle, StoreFprPs1(ins.fpr_d()), m1,
    );
    run_in_pieces(q1, p2, m);
}

proof fn lemma_ps_sel(ins: Ins, n: nat, m: Machine)
    requires
        ready(m),
        ins.op is PsSel,
        n <= MAX_LOCALS,
    ensures
        completed(
            run(paired_code(ins, n), m),
            Some(defined_paired(ins, m.sys, m.doubles)),
        ),
{
    reveal(paired_code);
    reveal(defined_paired);
    broadcast use crate::ppcir::meaning::group_steps;
    broadcast use crate::ppcir::meaning::group_float_steps;

    let l1 = local_at(n + 1, IrTy::F64);
    let l2 = local_at(n + 2, IrTy::F64);
    let l3 = local_at(n + 3, IrTy::I32);
    let l4 = local_at(n + 4, IrTy::I32);
    let a_ps0 = m.sys.cpu.ps0[ins.fpr_a() as int];
    lemma_truth((m.doubles.greater)(a_ps0, 0), (m.doubles.equal)(a_ps0, 0));
    let a_ps1 = m.sys.cpu.ps1[ins.fpr_a() as int];
    lemma_truth((m.doubles.greater)(a_ps1, 0), (m.doubles.equal)(a_ps1, 0));
    let p0 = seq![LoadFprPs0(ins.fpr_a()), LocalSet(l1), LoadFprPs1(ins.fpr_a()), LocalSet(l2)];
    run_4(LoadFprPs0(ins.fpr_a()), LocalSet(l1), LoadFprPs1(ins.fpr_a()), LocalSet(l2), m);
    let m0 = run(p0, m);
    let p1 = seq![
        LocalGet(l1), F64Const(F64_ZERO), F64Gt, LocalGet(l1), F64Const(F64_ZERO), F64Eq, I32Or,
        LocalSet(l3),
    ];
    run_8(
        LocalGet(l1), F64Const(F64_ZERO), F64Gt, LocalGet(l1), F64Const(F64_ZERO), F64Eq, I32Or,
        LocalSet(l3), m0,
    );
    run_in_pieces(p0, p1, m);
    let q1 = p0 + p1;
    let m1 = run(q1, m);
    let p2 = seq![
        LocalGet(l2), F64Const(F64_ZERO), F64Gt, LocalGet(l2), F64Const(F64_ZERO), F64Eq, I32Or,
        LocalSet(l4),
    ];
    run_8(
        LocalGet(l2), F64Const(F64_ZERO), F64Gt, LocalGet(l2), F64Const(F64_ZERO), F64Eq, I32Or,
        LocalSet(l4), m1,
    );
    run_in_pieces(q1, p2, m);
    let q2 = q1 + p2;
    let m2 = run(q2, m);
    let p3 = seq![
        LoadFprPs0(ins.fpr_c()), LoadFprPs0(ins.fpr_b()), LocalGet(l3), F64Select,
        StoreFprPs0(ins.fpr_d()),
    ];
    run_5(
        LoadFprPs0(ins.fpr_c()), LoadFprPs0(ins.fpr_b()), LocalGet(l3), F64Select,
        StoreFprPs0(ins.fpr_d()), m2,
    );
    run_in_pieces(q2, p3, m);
    let q3 = q2 + p3;
    let m3 = run(q3, m);
    let p4 = seq![
        LoadFprPs1(ins.fpr_c()), LoadFprPs1(ins.fpr_b()), LocalGet(l4), F64Select,
        StoreFprPs1(ins.fpr_d()),
    ];
    run_5(
        LoadFprPs1(ins.fpr_c()), LoadFprPs1(ins.fpr_b()), LocalGet(l4), F64Select,
        StoreFprPs1(ins.fpr_d()), m3,
    );
    run_in_pieces(q3, p4, m);
}

proof fn lemma_scalar(ins: Ins, n: nat, m: Machine)
    requires
        ready(m),
        n <= MAX_LOCALS,
        ins.op is Fadd
        || ins.op is Fadds
        || ins.op is Fsub
        || ins.op is Fsubs
        || ins.op is Fdiv
        || ins.op is Fdivs
        || ins.op is Fmul
        || ins.op is Fmuls
        || ins.op is Fmr
        || ins.op is Fneg
        || ins.op is Fabs
        || ins.op is Frsp
        || ins.op is Fsqrt
        || ins.op is Fsqrts
        || ins.op is Fctiw
        || ins.op is Fctiwz
        || ins.op is Mffs
        || ins.op is Fsel,
    ensures
        completed(run(scalar_code(ins, n), m), Some(defined_scalar(ins, m.sys, m.doubles))),
{
    match ins.op {
        Opcode::Fadd => lemma_fadd(ins, n, m),
        Opcode::Fadds => lemma_fadds(ins, n, m),
        Opcode::Fsub => lemma_fsub(ins, n, m),
        Opcode::Fsubs => lemma_fsubs(ins, n, m),
        Opcode::Fdiv => lemma_fdiv(ins, n, m),
        Opcode::Fdivs => lemma_fdivs(ins, n, m),
        Opcode::Fmul => lemma_fmul(ins, n, m),
        Opcode::Fmuls => lemma_fmuls(ins, n, m),
        Opcode::Fmr => lemma_fmr(ins, n, m),
        Opcode::Fneg => lemma_fneg(ins, n, m),
        Opcode::Fabs => lemma_fabs(ins, n, m),
        Opcode::Frsp => lemma_frsp(ins, n, m),
        Opcode::Fsqrt => lemma_fsqrt(ins, n, m),
        Opcode::Fsqrts => lemma_fsqrts(ins, n, m),
        Opcode::Fctiw => lemma_fctiw(ins, n, m),
        Opcode::Fctiwz => lemma_fctiwz(ins, n, m),
        Opcode::Mffs => lemma_mffs(ins, n, m),
        Opcode::Fsel => lemma_fsel(ins, n, m),
        _ => {},
    }
}

proof fn lemma_paired(ins: Ins, n: nat, m: Machine)
    requires
        ready(m),
        n <= MAX_LOCALS,
        ins.op is PsAdd
        || ins.op is PsSub
        || ins.op is PsDiv
        || ins.op is PsMul
        || ins.op is PsMr
        || ins.op is PsNeg
        || ins.op is PsAbs
        || ins.op is PsNabs
        || ins.op is PsMerge00
        || ins.op is PsMerge01
        || ins.op is PsMerge10
        || ins.op is PsMerge11
        || ins.op is PsSum0
        || ins.op is PsSum1
        || ins.op is PsMuls0
        || ins.op is PsMuls1
        || ins.op is PsMadds0
        || ins.op is PsMadds1
        || ins.op is PsSel,
    ensures
        completed(run(paired_code(ins, n), m), Some(defined_paired(ins, m.sys, m.doubles))),
{
    match ins.op {
        Opcode::PsAdd => lemma_ps_add(ins, n, m),
        Opcode::PsSub => lemma_ps_sub(ins, n, m),
        Opcode::PsDiv => lemma_ps_div(ins, n, m),
        Opcode::PsMul => lemma_ps_mul(ins, n, m),
        Opcode::PsMr => lemma_ps_mr(ins, n, m),
        Opcode::PsNeg => lemma_ps_neg(ins, n, m),
        Opcode::PsAbs => lemma_ps_abs(ins, n, m),
        Opcode::PsNabs => lemma_ps_nabs(ins, n, m),
        Opcode::PsMerge00 => lemma_ps_merge00(ins, n, m),
        Opcode::PsMerge01 => lemma_ps_merge01(ins, n, m),
        Opcode::PsMerge10 => lemma_ps_merge10(ins, n, m),
        Opcode::PsMerge11 => lemma_ps_merge11(ins, n, m),
        Opcode::PsSum0 => lemma_ps_sum0(ins, n, m),
        Opcode::PsSum1 => lemma_ps_sum1(ins, n, m),
        Opcode::PsMuls0 => lemma_ps_muls0(ins, n, m),
        Opcode::PsMuls1 => lemma_ps_muls1(ins, n, m),
        Opcode::PsMadds0 => lemma_ps_madds0(ins, n, m),
        Opcode::PsMadds1 => lemma_ps_madds1(ins, n, m),
        Opcode::PsSel => lemma_ps_sel(ins, n, m),
        _ => {},
    }
}

/// One half of a floating-point register.
spec fn half(sys: SystemView, r: u8, ps1: bool) -> u64 {
    if ps1 {
        sys.cpu.ps1[r as int]
    } else {
        sys.cpu.ps0[r as int]
    }
}

/// The product with a sum or difference of one half.
spec fn fused(ins: Ins, sys: SystemView, ps1: bool, kind: FmaKind, ar: Doubles) -> u64 {
    let a = half(sys, ins.fpr_a(), ps1);
    let b = half(sys, ins.fpr_b(), ps1);
    let c = half(sys, ins.fpr_c(), ps1);
    let product = (ar.product)(a, c);
    let exact = if !kind.sub && !kind.neg {
        (ar.sum)(b, product)
    } else {
        let sum = if kind.sub {
            (ar.difference)(product, b)
        } else {
            (ar.sum)(product, b)
        };
        if kind.neg {
            (ar.negated)(sum)
        } else {
            sum
        }
    };
    if kind.round {
        ar.rounded(exact)
    } else {
        exact
    }
}

/// Whether `after` is `m` with a double pushed, but for its locals.
spec fn pushed_double(after: Machine, m: Machine, bits: u64) -> bool {
    &&& after.stack == Stack::Cons(Value::F64(bits), Box::new(m.stack))
    &&& after.sys == m.sys
    &&& after.exit is None
    &&& after.doubles == m.doubles
}

proof fn lemma_load_slot(r: u8, ps1: bool, m: Machine)
    requires
        m.exit is None,
    ensures
        crate::ppcir::meaning::step(load_slot(r, ps1), m) == m.pushed(
            Value::F64(half(m.sys, r, ps1)),
        ),
{
    broadcast use crate::ppcir::meaning::group_float_steps;

}

proof fn lemma_fused(ins: Ins, ps1: bool, kind: FmaKind, n: nat, m: Machine)
    requires
        m.exit is None,
        n <= MAX_LOCALS + 8,
    ensures
        pushed_double(
            run(fma_code(ins, ps1, kind, n), m),
            m,
            fused(ins, m.sys, ps1, kind, m.doubles),
        ),
{
    broadcast use crate::ppcir::meaning::group_steps;
    broadcast use crate::ppcir::meaning::group_float_steps;

    let la = local_at(n + 1, IrTy::F64);
    let lc = local_at(n + 2, IrTy::F64);
    let lb = local_at(n + 3, IrTy::F64);
    let a = load_slot(ins.fpr_a(), ps1);
    let b = load_slot(ins.fpr_b(), ps1);
    let c = load_slot(ins.fpr_c(), ps1);
    let round: Seq<IrInst> = if kind.round {
        seq![F64RoundToSingle]
    } else {
        seq![]
    };
    if kind.sub || kind.neg {
        let p0 = seq![a, LocalSet(la), b, LocalSet(lb), c, LocalSet(lc)];
        run_6(a, LocalSet(la), b, LocalSet(lb), c, LocalSet(lc), m);
        let m0 = run(p0, m);
        let last = if kind.sub {
            F64Sub
        } else {
            F64Add
        };
        let p1 = seq![LocalGet(la), LocalGet(lc), F64Mul, LocalGet(lb), last];
        run_5(LocalGet(la), LocalGet(lc), F64Mul, LocalGet(lb), last, m0);
        run_in_pieces(p0, p1, m);
        let q1 = p0 + p1;
        let m1 = run(q1, m);
        let p2: Seq<IrInst> = if kind.neg {
            seq![F64Neg]
        } else {
            seq![]
        };
        run_1(F64Neg, m1);
        assert(run(Seq::<IrInst>::empty(), m1) == m1);
        run_in_pieces(q1, p2, m);
        let q2 = q1 + p2;
        let m2 = run(q2, m);
        run_1(F64RoundToSingle, m2);
        assert(run(Seq::<IrInst>::empty(), m2) == m2);
        run_in_pieces(q2, round, m);
    } else {
        let p0 = seq![b, a, c, F64Mul, F64Add];
        run_5(b, a, c, F64Mul, F64Add, m);
        let m0 = run(p0, m);
        run_1(F64RoundToSingle, m0);
        assert(run(Seq::<IrInst>::empty(), m0) == m0);
        run_in_pieces(p0, round, m);
    }
}

proof fn lemma_fused_scalar(ins: Ins, n: nat, m: Machine)
    requires
        ready(m),
        n <= MAX_LOCALS,
        ins.op is Fmadd || ins.op is Fmadds || ins.op is Fmsub || ins.op is Fmsubs
            || ins.op is Fnmadd || ins.op is Fnmadds || ins.op is Fnmsub || ins.op is Fnmsubs,
    ensures
        completed(run(fma_scalar_code(ins, n), m), Some(defined_fused(ins, m.sys, m.doubles))),
{
    reveal(fma_scalar_code);
    reveal(defined_fused);
    broadcast use crate::ppcir::meaning::group_float_steps;

    let kind = fma_kind(ins.op);
    let p0 = fma_code(ins, false, kind, n);
    lemma_fused(ins, false, kind, n, m);
    let m0 = run(p0, m);
    run_1(StoreFprPs0(ins.fpr_d()), m0);
    run_in_pieces(p0, seq![StoreFprPs0(ins.fpr_d())], m);
}

proof fn lemma_fused_paired(ins: Ins, n: nat, m: Machine)
    requires
        ready(m),
        n <= MAX_LOCALS,
        ins.op is PsMadd || ins.op is PsMsub || ins.op is PsNmadd || ins.op is PsNmsub,
    ensures
        completed(run(fma_paired_code(ins, n), m), Some(defined_fused(ins, m.sys, m.doubles))),
{
    reveal(fma_paired_code);
    reveal(defined_fused);
    broadcast use crate::ppcir::meaning::group_float_steps;

    let kind = fma_kind(ins.op);
    let p0 = fma_code(ins, false, kind, n);
    lemma_fused(ins, false, kind, n, m);
    let m0 = run(p0, m);
    let p1 = seq![StoreFprPs0(ins.fpr_d())];
    run_1(StoreFprPs0(ins.fpr_d()), m0);
    run_in_pieces(p0, p1, m);
    let q1 = p0 + p1;
    let m1 = run(q1, m);
    let n1 = n + fma_locals(kind).len();
    let p2 = fma_code(ins, true, kind, n1);
    lemma_fused(ins, true, kind, n1, m1);
    run_in_pieces(q1, p2, m);
    let q2 = q1 + p2;
    let m2 = run(q2, m);
    run_1(StoreFprPs1(ins.fpr_d()), m2);
    run_in_pieces(q2, seq![StoreFprPs1(ins.fpr_d())], m);
}

proof fn lemma_recip(fd: u8, fb: u8, sqrt: bool, ps1: bool, n: nat, m: Machine)
    requires
        m.exit is None,
    ensures
        ({
            let after = run(recip_code(fd, fb, sqrt, ps1, n), m);
            let b = half(m.sys, fb, ps1);
            let value = (m.doubles.quotient)(
                ONE,
                if sqrt {
                    (m.doubles.root)(b)
                } else {
                    b
                },
            );
            &&& after.stack == m.stack
            &&& after.exit is None
            &&& after.doubles == m.doubles
            &&& after.sys == if ps1 {
                m.sys.with_ps1(fd, value)
            } else {
                m.sys.with_ps0(fd, value)
            }
        }),
{
    broadcast use crate::ppcir::meaning::group_steps;
    broadcast use crate::ppcir::meaning::group_float_steps;

    let loc = local_at(n + 1, IrTy::F64);
    let p0 = seq![load_slot(fb, ps1)];
    run_1(load_slot(fb, ps1), m);
    let m0 = run(p0, m);
    let p1: Seq<IrInst> = if sqrt {
        seq![F64Sqrt]
    } else {
        seq![]
    };
    run_1(F64Sqrt, m0);
    assert(run(Seq::<IrInst>::empty(), m0) == m0);
    run_in_pieces(p0, p1, m);
    let q1 = p0 + p1;
    let m1 = run(q1, m);
    let p2 = seq![LocalSet(loc), F64Const(F64_ONE), LocalGet(loc), F64Div, store_slot(fd, ps1)];
    run_5(LocalSet(loc), F64Const(F64_ONE), LocalGet(loc), F64Div, store_slot(fd, ps1), m1);
    run_in_pieces(q1, p2, m);
}

proof fn lemma_estimate(ins: Ins, n: nat, m: Machine)
    requires
        ready(m),
        n <= MAX_LOCALS,
        ins.op is Fres || ins.op is Frsqrte || ins.op is PsRes || ins.op is PsRsqrte,
    ensures
        completed(run(estimate_code(ins, n), m), Some(defined_fused(ins, m.sys, m.doubles))),
{
    reveal(estimate_code);
    reveal(defined_fused);
    let fd = ins.fpr_d();
    let fb = ins.fpr_b();
    let sqrt = ins.op is Frsqrte || ins.op is PsRsqrte;
    let p0 = recip_code(fd, fb, sqrt, false, n);
    lemma_recip(fd, fb, sqrt, false, n, m);
    if ins.op is PsRes || ins.op is PsRsqrte {
        let m0 = run(p0, m);
        lemma_recip(fd, fb, sqrt, true, n + 1, m0);
        run_in_pieces(p0, recip_code(fd, fb, sqrt, true, n + 1), m);
    }
}

proof fn lemma_shifted_or(loc: IrLocal, position: u32, m: Machine, base: u32, x: u32)
    requires
        m.exit is None,
        m.stack == Stack::Cons(Value::I32(base), Box::new(Stack::Empty)),
        m.locals[loc.index] == Value::I32(x),
    ensures
        run(shifted_or_code(loc, position), m) == (Machine {
            stack: Stack::Cons(Value::I32(base | (x << (position & 31))), Box::new(Stack::Empty)),
            ..m
        }),
{
    broadcast use crate::ppcir::meaning::group_steps;

    lemma_constant(position);
    run_4(LocalGet(loc), I32Const(position as i32), I32Shl, I32Or, m);
}

#[verifier::spinoff_prover]
proof fn lemma_comparison_tests(ins: Ins, ps1: bool, n: nat, m: Machine)
    requires
        ready(m),
        n <= MAX_LOCALS,
    ensures
        ({
            let la = local_at(n + 1, IrTy::F64);
            let lb = local_at(n + 2, IrTy::F64);
            let lt = local_at(n + 3, IrTy::I32);
            let gt = local_at(n + 4, IrTy::I32);
            let eq = local_at(n + 5, IrTy::I32);
            let un = local_at(n + 6, IrTy::I32);
            let code = seq![
                load_slot(ins.fpr_a(), ps1),
                LocalSet(la),
                load_slot(ins.fpr_b(), ps1),
                LocalSet(lb),
            ] + seq![
                LocalGet(la),
                LocalGet(lb),
                F64Lt,
                LocalSet(lt),
                LocalGet(la),
                LocalGet(lb),
                F64Gt,
                LocalSet(gt),
            ] + seq![LocalGet(la), LocalGet(lb), F64Eq, LocalSet(eq)] + seq![
                LocalGet(lt),
                LocalGet(gt),
                I32Or,
                LocalGet(eq),
                I32Or,
                I32Const(1),
                I32Xor,
                LocalSet(un),
            ];
            let a = half(m.sys, ins.fpr_a(), ps1);
            let b = half(m.sys, ins.fpr_b(), ps1);
            let l = (m.doubles.less)(a, b);
            let g = (m.doubles.greater)(a, b);
            let e = (m.doubles.equal)(a, b);
            let after = run(code, m);
            &&& ready(after)
            &&& after.sys == m.sys
            &&& after.doubles == m.doubles
            &&& after.locals[lt.index] == Value::I32(truth(l))
            &&& after.locals[gt.index] == Value::I32(truth(g))
            &&& after.locals[eq.index] == Value::I32(truth(e))
            &&& after.locals[un.index] == Value::I32(truth(!l && !g && !e))
        }),
{
    broadcast use crate::ppcir::meaning::group_steps;
    broadcast use crate::ppcir::meaning::group_float_steps;

    let la = local_at(n + 1, IrTy::F64);
    let lb = local_at(n + 2, IrTy::F64);
    let lt = local_at(n + 3, IrTy::I32);
    let gt = local_at(n + 4, IrTy::I32);
    let eq = local_at(n + 5, IrTy::I32);
    let un = local_at(n + 6, IrTy::I32);
    let a = half(m.sys, ins.fpr_a(), ps1);
    let b = half(m.sys, ins.fpr_b(), ps1);
    let l = (m.doubles.less)(a, b);
    let g = (m.doubles.greater)(a, b);
    let e = (m.doubles.equal)(a, b);
    let fa = load_slot(ins.fpr_a(), ps1);
    let fb = load_slot(ins.fpr_b(), ps1);
    let p0 = seq![fa, LocalSet(la), fb, LocalSet(lb)];
    run_4(fa, LocalSet(la), fb, LocalSet(lb), m);
    let m0 = run(p0, m);
    let p1 = seq![
        LocalGet(la),
        LocalGet(lb),
        F64Lt,
        LocalSet(lt),
        LocalGet(la),
        LocalGet(lb),
        F64Gt,
        LocalSet(gt),
    ];
    run_8(
        LocalGet(la),
        LocalGet(lb),
        F64Lt,
        LocalSet(lt),
        LocalGet(la),
        LocalGet(lb),
        F64Gt,
        LocalSet(gt),
        m0,
    );
    run_in_pieces(p0, p1, m);
    let q1 = p0 + p1;
    let m1 = run(q1, m);
    let p2 = seq![LocalGet(la), LocalGet(lb), F64Eq, LocalSet(eq)];
    run_4(LocalGet(la), LocalGet(lb), F64Eq, LocalSet(eq), m1);
    run_in_pieces(q1, p2, m);
    let q2 = q1 + p2;
    let m2 = run(q2, m);
    lemma_truth(l, g);
    lemma_truth(l || g, e);
    lemma_truth(l || g || e, true);
    lemma_constant(1);
    let p3 = seq![
        LocalGet(lt),
        LocalGet(gt),
        I32Or,
        LocalGet(eq),
        I32Or,
        I32Const(1),
        I32Xor,
        LocalSet(un),
    ];
    run_8(
        LocalGet(lt),
        LocalGet(gt),
        I32Or,
        LocalGet(eq),
        I32Or,
        I32Const(1),
        I32Xor,
        LocalSet(un),
        m2,
    );
    run_in_pieces(q2, p3, m);
}

proof fn lemma_top_bit(set: bool)
    ensures
        ({
            let top: u32 = if set {
                0x8000_0000
            } else {
                0
            };
            &&& top >> (31u32 & 31) == truth(set)
            &&& crate::ppcint::system::bit(top, 31) == set
        }),
{
    crate::bits::word_arithmetic(31);
    crate::bits::word_arithmetic(0x8000_0000);
    crate::bits::word_arithmetic(0);
    crate::bits::word_arithmetic(1);
}

/// The outcomes of three tests and of none of them put in a condition field.
proof fn lemma_flags(
    field: u8,
    c0: Seq<IrInst>,
    m: Machine,
    lt: IrLocal,
    gt: IrLocal,
    eq: IrLocal,
    un: IrLocal,
    l: bool,
    g: bool,
    e: bool,
    u: bool,
)
    requires
        field < 8,
        ready(run(c0, m)),
        run(c0, m).sys == m.sys,
        run(c0, m).locals[lt.index] == Value::I32(truth(l)),
        run(c0, m).locals[gt.index] == Value::I32(truth(g)),
        run(c0, m).locals[eq.index] == Value::I32(truth(e)),
        run(c0, m).locals[un.index] == Value::I32(truth(u)),
    ensures
        ({
            let so = so_position(field);
            completed(
                run(
                    c0 + cleared_field_code(field) + shifted_or_code(lt, (so + 3) as u32)
                        + shifted_or_code(gt, (so + 2) as u32) + shifted_or_code(
                        eq,
                        (so + 1) as u32,
                    ) + shifted_or_code(un, so) + seq![StoreCr],
                    m,
                ),
                Some(m.sys.with_cr(with_field(m.sys.cpu.cr, so, nibble(l, g, e, u)))),
            )
        }),
{
    let so = so_position(field);
    let m0 = run(c0, m);
    let clear = cleared_field_code(field);
    let x0 = m.sys.cpu.cr & !(0xFu32 << so);
    assert(run(clear, m0) == m0.pushed32(x0)) by {
        broadcast use crate::ppcir::meaning::group_steps;

        lemma_constant(!(0xFu32 << so));
        run_3(LoadCr, I32Const(!(0xFu32 << so) as i32), I32And, m0);
    }
    run_in_pieces(c0, clear, m);
    let c1 = c0 + clear;
    let x1 = x0 | (truth(l) << (((so + 3) as u32) & 31));
    let x2 = x1 | (truth(g) << (((so + 2) as u32) & 31));
    let x3 = x2 | (truth(e) << (((so + 1) as u32) & 31));
    let x4 = x3 | (truth(u) << (so & 31));
    lemma_shifted_or(lt, (so + 3) as u32, m0.pushed32(x0), x0, truth(l));
    run_in_pieces(c1, shifted_or_code(lt, (so + 3) as u32), m);
    let c2 = c1 + shifted_or_code(lt, (so + 3) as u32);
    lemma_shifted_or(gt, (so + 2) as u32, m0.pushed32(x1), x1, truth(g));
    run_in_pieces(c2, shifted_or_code(gt, (so + 2) as u32), m);
    let c3 = c2 + shifted_or_code(gt, (so + 2) as u32);
    lemma_shifted_or(eq, (so + 1) as u32, m0.pushed32(x2), x2, truth(e));
    run_in_pieces(c3, shifted_or_code(eq, (so + 1) as u32), m);
    let c4 = c3 + shifted_or_code(eq, (so + 1) as u32);
    lemma_shifted_or(un, so, m0.pushed32(x3), x3, truth(u));
    run_in_pieces(c4, shifted_or_code(un, so), m);
    let c5 = c4 + shifted_or_code(un, so);
    let m5 = m0.pushed32(x4);
    assert(run(c5, m) == m5);
    assert(run(seq![StoreCr], m5) == m5.stored_cpu(CpuView { cr: x4, ..m5.sys.cpu })) by {
        broadcast use crate::ppcir::meaning::group_steps;

        run_1(StoreCr, m5);
    }
    run_in_pieces(c5, seq![StoreCr], m);
    let top: u32 = if u {
        0x8000_0000
    } else {
        0
    };
    lemma_top_bit(u);
    lemma_field_bits(m.sys.cpu.cr, top, so, truth(l), truth(g), truth(e));
}

#[verifier::spinoff_prover]
proof fn lemma_comparison(ins: Ins, ps1: bool, n: nat, m: Machine)
    requires
        ready(m),
        n <= MAX_LOCALS,
    ensures
        ({
            let a = half(m.sys, ins.fpr_a(), ps1);
            let b = half(m.sys, ins.fpr_b(), ps1);
            let l = (m.doubles.less)(a, b);
            let g = (m.doubles.greater)(a, b);
            let e = (m.doubles.equal)(a, b);
            completed(
                run(float_compare_code(ins, ps1, n), m),
                Some(
                    m.sys.with_cr(
                        with_field(
                            m.sys.cpu.cr,
                            (28 - 4 * ins.field_crfd()) as u32,
                            nibble(l, g, e, !l && !g && !e),
                        ),
                    ),
                ),
            )
        }),
{
    reveal(float_compare_code);
    ins.lemma_register_fields();
    let lt = local_at(n + 3, IrTy::I32);
    let gt = local_at(n + 4, IrTy::I32);
    let eq = local_at(n + 5, IrTy::I32);
    let un = local_at(n + 6, IrTy::I32);
    let la = local_at(n + 1, IrTy::F64);
    let lb = local_at(n + 2, IrTy::F64);
    let a = half(m.sys, ins.fpr_a(), ps1);
    let b = half(m.sys, ins.fpr_b(), ps1);
    let l = (m.doubles.less)(a, b);
    let g = (m.doubles.greater)(a, b);
    let e = (m.doubles.equal)(a, b);
    let u = !l && !g && !e;
    let field = ins.field_crfd();
    let so = so_position(field);
    let c0 = seq![
        load_slot(ins.fpr_a(), ps1),
        LocalSet(la),
        load_slot(ins.fpr_b(), ps1),
        LocalSet(lb),
    ] + seq![
        LocalGet(la),
        LocalGet(lb),
        F64Lt,
        LocalSet(lt),
        LocalGet(la),
        LocalGet(lb),
        F64Gt,
        LocalSet(gt),
    ] + seq![LocalGet(la), LocalGet(lb), F64Eq, LocalSet(eq)] + seq![
        LocalGet(lt),
        LocalGet(gt),
        I32Or,
        LocalGet(eq),
        I32Or,
        I32Const(1),
        I32Xor,
        LocalSet(un),
    ];
    lemma_comparison_tests(ins, ps1, n, m);
    lemma_flags(field, c0, m, lt, gt, eq, un, l, g, e, u);
}

proof fn lemma_ea_d(ins: Ins, m: Machine)
    requires
        m.exit is None,
    ensures
        run(ea_d_code(ins.gpr_a(), ins.field_offset() as i32), m) == m.pushed32(
            m.sys.displaced(ins),
        ),
{
    broadcast use crate::ppcir::meaning::group_steps;

    lemma_signed(ins.field_offset() as i32);
    run_1(LoadGpr(ins.gpr_a()), m);
    run_1(I32Const(ins.field_offset() as i32), m);
    run_3(LoadGpr(ins.gpr_a()), I32Const(ins.field_offset() as i32), I32Add, m);
}

pub(crate) proof fn lemma_ea_x(ins: Ins, m: Machine)
    requires
        m.exit is None,
    ensures
        run(ea_x_code(ins.gpr_a(), ins.gpr_b()), m) == m.pushed32(m.sys.indexed(ins)),
{
    broadcast use crate::ppcir::meaning::group_steps;

    run_1(LoadGpr(ins.gpr_b()), m);
    run_3(LoadGpr(ins.gpr_a()), LoadGpr(ins.gpr_b()), I32Add, m);
}

/// Code that leaves the address of an access with update on the stack.
spec fn update_code(ins: Ins, indexed: bool, ea: IrLocal) -> Seq<IrInst> {
    seq![
        LoadGpr(ins.gpr_a()),
        if indexed {
            LoadGpr(ins.gpr_b())
        } else {
            I32Const(ins.field_offset() as i32)
        },
        I32Add,
        LocalTee(ea),
        StoreGpr(ins.gpr_a()),
        LocalGet(ea),
    ]
}

proof fn lemma_update(ins: Ins, indexed: bool, n: nat, m: Machine)
    requires
        ready(m),
    ensures
        ({
            let ea = wrapped(
                m.sys.gpr(ins.gpr_a()) + if indexed {
                    m.sys.gpr(ins.gpr_b()) as int
                } else {
                    ins.field_offset() as int
                },
            );
            let after = run(update_code(ins, indexed, local_at(n + 1, IrTy::I32)), m);
            &&& after.stack == Stack::Cons(Value::I32(ea), Box::new(Stack::Empty))
            &&& after.sys == m.sys.with_gpr(ins.gpr_a(), ea)
            &&& after.exit is None
            &&& after.doubles == m.doubles
        }),
{
    broadcast use crate::ppcir::meaning::group_steps;

    let ea = local_at(n + 1, IrTy::I32);
    lemma_signed(ins.field_offset() as i32);
    let second = if indexed {
        LoadGpr(ins.gpr_b())
    } else {
        I32Const(ins.field_offset() as i32)
    };
    run_6(
        LoadGpr(ins.gpr_a()),
        second,
        I32Add,
        LocalTee(ea),
        StoreGpr(ins.gpr_a()),
        LocalGet(ea),
        m,
    );
}

/// The address that code leaves on an empty stack, and the guest it leaves.
spec fn addressed(after: Machine, m: Machine, ea: u32, sys: SystemView) -> bool {
    &&& after.stack == Stack::Cons(Value::I32(ea), Box::new(Stack::Empty))
    &&& after.sys == sys
    &&& after.exit is None
    &&& after.doubles == m.doubles
}

proof fn lemma_load_tail(
    code: Seq<IrInst>, double: bool, fd: u8, m: Machine, ea: u32, sys: SystemView,
)
    requires
        ready(m),
        fd < sys.cpu.ps0.len(),
        addressed(run(code, m), m, ea, sys),
    ensures
        double ==> completed(
            run(code + seq![ReadF64, StoreFprPs0(fd)], m),
            Some(sys.with_ps0(fd, sys.read64(ea))),
        ),
        !double ==> completed(
            run(
                code + seq![
                    ReadU32,
                    F64PromoteSingleBits,
                    StoreFprPs0(fd),
                    LoadFprPs0(fd),
                    StoreFprPs1(fd),
                ],
                m,
            ),
            Some(
                sys.with_pair(
                    fd,
                    (m.doubles.promoted)(sys.word_at(ea)),
                    (m.doubles.promoted)(sys.word_at(ea)),
                ),
            ),
        ),
{
    broadcast use crate::ppcir::meaning::group_steps;
    broadcast use crate::ppcir::meaning::group_float_steps;

    let m1 = run(code, m);
    if double {
        run_2(ReadF64, StoreFprPs0(fd), m1);
        run_in_pieces(code, seq![ReadF64, StoreFprPs0(fd)], m);
    } else {
        let tail = seq![
            ReadU32,
            F64PromoteSingleBits,
            StoreFprPs0(fd),
            LoadFprPs0(fd),
            StoreFprPs1(fd),
        ];
        run_5(
            ReadU32,
            F64PromoteSingleBits,
            StoreFprPs0(fd),
            LoadFprPs0(fd),
            StoreFprPs1(fd),
            m1,
        );
        run_in_pieces(code, tail, m);
    }
}

proof fn lemma_float_load(ins: Ins, n: nat, m: Machine)
    requires
        ready(m),
        n <= MAX_LOCALS,
        m.sys.cpu.ps0.len() == 32,
        ins.op is Lfs || ins.op is PsqL || ins.op is Lfsu || ins.op is PsqLu || ins.op is Lfsx
            || ins.op is PsqLx || ins.op is Lfsux || ins.op is Lfd || ins.op is Lfdu
            || ins.op is Lfdx || ins.op is Lfdux,
    ensures
        completed(
            run(float_load_code(ins, n), m),
            Some(defined_float_load(ins, m.sys, m.doubles)),
        ),
{
    reveal(float_load_code);
    reveal(defined_float_load);
    ins.lemma_register_fields();
    let ea = local_at(n + 1, IrTy::I32);
    let double = ins.op is Lfd || ins.op is Lfdu || ins.op is Lfdx || ins.op is Lfdux;
    let addr = float_address(ins, m.sys);
    let sys = float_based(ins, m.sys);
    match ins.op {
        Opcode::Lfs | Opcode::PsqL | Opcode::Lfd => {
            lemma_ea_d(ins, m);
            lemma_load_tail(
                ea_d_code(ins.gpr_a(), ins.field_offset() as i32),
                double,
                ins.fpr_d(),
                m,
                addr,
                sys,
            );
        },
        Opcode::Lfsx | Opcode::PsqLx | Opcode::Lfdx => {
            lemma_ea_x(ins, m);
            lemma_load_tail(
                ea_x_code(ins.gpr_a(), ins.gpr_b()),
                double,
                ins.fpr_d(),
                m,
                addr,
                sys,
            );
        },
        _ => {
            let indexed = ins.op is Lfsux || ins.op is Lfdux;
            lemma_update(ins, indexed, n, m);
            lemma_load_tail(update_code(ins, indexed, ea), double, ins.fpr_d(), m, addr, sys);
        },
    }
}

/// Code that stores a double, a single or an integer at the address on the stack.
spec fn store_tail(ins: Ins) -> Seq<IrInst> {
    match ins.op {
        Opcode::Stfd | Opcode::Stfdu | Opcode::Stfdx | Opcode::Stfdux => {
            seq![LoadFprPs0(ins.fpr_s()), WriteF64]
        },
        Opcode::Stfiwx => seq![LoadFprPs0(ins.fpr_s()), I32FromF64LowBits, WriteU32],
        _ => seq![LoadFprPs0(ins.fpr_s()), I32DemoteToSingleBits, WriteU32],
    }
}

/// What is stored there.
spec fn store_tail_leaves(ins: Ins, sys: SystemView, ea: u32, ar: Doubles) -> SystemView {
    let value = sys.cpu.ps0[ins.fpr_s() as int];
    match ins.op {
        Opcode::Stfd | Opcode::Stfdu | Opcode::Stfdx | Opcode::Stfdux => sys.written64(ea, value),
        Opcode::Stfiwx => sys.written32(ea, (value % 0x1_0000_0000) as u32),
        _ => sys.written32(ea, (ar.demoted)(value)),
    }
}

proof fn lemma_store_tail(ins: Ins, code: Seq<IrInst>, m: Machine, ea: u32, sys: SystemView)
    requires
        addressed(run(code, m), m, ea, sys),
    ensures
        ({
            let after = run(code + store_tail(ins), m);
            &&& completed(after, Some(store_tail_leaves(ins, sys, ea, m.doubles)))
            &&& after.locals == run(code, m).locals
            &&& after.doubles == m.doubles
        }),
{
    broadcast use crate::ppcir::meaning::group_steps;
    broadcast use crate::ppcir::meaning::group_float_steps;

    let m1 = run(code, m);
    let first = LoadFprPs0(ins.fpr_s());
    run_2(first, WriteF64, m1);
    run_3(first, I32FromF64LowBits, WriteU32, m1);
    run_3(first, I32DemoteToSingleBits, WriteU32, m1);
    run_in_pieces(code, store_tail(ins), m);
}

proof fn lemma_pair_store_update(ins: Ins, n: nat, m: Machine)
    requires
        ready(m),
        n <= MAX_LOCALS,
        ins.op is PsqStu,
    ensures
        completed(
            run(float_store_code(ins, n), m),
            Some(defined_float_store(ins, m.sys, m.doubles)),
        ),
{
    reveal(float_store_code);
    reveal(defined_float_store);
    broadcast use crate::ppcir::meaning::group_steps;

    let ea = local_at(n + 1, IrTy::I32);
    let addr = float_address(ins, m.sys);
    lemma_signed(ins.field_offset() as i32);
    let offset = I32Const(ins.field_offset() as i32);
    let p0 = seq![LoadGpr(ins.gpr_a()), offset, I32Add, LocalTee(ea)];
    run_4(LoadGpr(ins.gpr_a()), offset, I32Add, LocalTee(ea), m);
    lemma_store_tail(ins, p0, m, addr, m.sys);
    let q1 = p0 + store_tail(ins);
    let m1 = run(q1, m);
    run_2(LocalGet(ea), StoreGpr(ins.gpr_a()), m1);
    run_in_pieces(q1, seq![LocalGet(ea), StoreGpr(ins.gpr_a())], m);
}

proof fn lemma_float_store(ins: Ins, n: nat, m: Machine)
    requires
        ready(m),
        n <= MAX_LOCALS,
        ins.op is Stfs || ins.op is PsqSt || ins.op is Stfsu || ins.op is Stfsx || ins.op is PsqStx
            || ins.op is Stfsux || ins.op is PsqStu || ins.op is Stfd || ins.op is Stfdu
            || ins.op is Stfdx || ins.op is Stfdux || ins.op is Stfiwx,
    ensures
        completed(
            run(float_store_code(ins, n), m),
            Some(defined_float_store(ins, m.sys, m.doubles)),
        ),
{
    reveal(float_store_code);
    reveal(defined_float_store);
    let ea = local_at(n + 1, IrTy::I32);
    let addr = float_address(ins, m.sys);
    let sys = float_based(ins, m.sys);
    match ins.op {
        Opcode::Stfs | Opcode::PsqSt | Opcode::Stfd => {
            lemma_ea_d(ins, m);
            lemma_store_tail(
                ins,
                ea_d_code(ins.gpr_a(), ins.field_offset() as i32),
                m,
                addr,
                sys,
            );
        },
        Opcode::Stfsx | Opcode::PsqStx | Opcode::Stfdx | Opcode::Stfiwx => {
            lemma_ea_x(ins, m);
            lemma_store_tail(ins, ea_x_code(ins.gpr_a(), ins.gpr_b()), m, addr, sys);
        },
        Opcode::PsqStu => lemma_pair_store_update(ins, n, m),
        _ => {
            let indexed = ins.op is Stfsux || ins.op is Stfdux;
            lemma_update(ins, indexed, n, m);
            lemma_store_tail(ins, update_code(ins, indexed, ea), m, addr, sys);
        },
    }
}

proof fn lemma_is_scalar(ins: Ins, pc: u32, n: nat)
    requires
        ins.op is Fadd || ins.op is Fadds || ins.op is Fsub || ins.op is Fsubs || ins.op is Fdiv
            || ins.op is Fdivs || ins.op is Fmul || ins.op is Fmuls || ins.op is Fmr
            || ins.op is Fneg || ins.op is Fabs || ins.op is Frsp || ins.op is Fsqrt
            || ins.op is Fsqrts || ins.op is Fctiw || ins.op is Fctiwz || ins.op is Mffs
            || ins.op is Fsel,
    ensures
        translate(ins, pc, n) == scalar_code(ins, n),
{
}

#[verifier::spinoff_prover]
proof fn lemma_scalar_translated(ins: Ins, pc: u32, n: nat, m: Machine)
    requires
        ready(m),
        n <= MAX_LOCALS,
        m.sys.cpu.ps0.len() == 32,
        ins.op is Fadd || ins.op is Fadds || ins.op is Fsub || ins.op is Fsubs || ins.op is Fdiv
            || ins.op is Fdivs || ins.op is Fmul || ins.op is Fmuls || ins.op is Fmr
            || ins.op is Fneg || ins.op is Fabs || ins.op is Frsp || ins.op is Fsqrt
            || ins.op is Fsqrts || ins.op is Fctiw || ins.op is Fctiwz || ins.op is Mffs
            || ins.op is Fsel,
    ensures
        completed(run(translate(ins, pc, n), m), Some(defined_scalar(ins, m.sys, m.doubles))),
{
    lemma_is_scalar(ins, pc, n);
    lemma_scalar(ins, n, m);
}

proof fn lemma_is_paired(ins: Ins, pc: u32, n: nat)
    requires
        ins.op is PsAdd || ins.op is PsSub || ins.op is PsDiv || ins.op is PsMul || ins.op is PsMr
            || ins.op is PsNeg || ins.op is PsAbs || ins.op is PsNabs || ins.op is PsMerge00
            || ins.op is PsMerge01 || ins.op is PsMerge10 || ins.op is PsMerge11
            || ins.op is PsSum0 || ins.op is PsSum1 || ins.op is PsMuls0 || ins.op is PsMadds0
            || ins.op is PsMuls1 || ins.op is PsMadds1 || ins.op is PsSel,
    ensures
        translate(ins, pc, n) == paired_code(ins, n),
{
}

#[verifier::spinoff_prover]
proof fn lemma_paired_translated(ins: Ins, pc: u32, n: nat, m: Machine)
    requires
        ready(m),
        n <= MAX_LOCALS,
        m.sys.cpu.ps0.len() == 32,
        ins.op is PsAdd || ins.op is PsSub || ins.op is PsDiv || ins.op is PsMul || ins.op is PsMr
            || ins.op is PsNeg || ins.op is PsAbs || ins.op is PsNabs || ins.op is PsMerge00
            || ins.op is PsMerge01 || ins.op is PsMerge10 || ins.op is PsMerge11
            || ins.op is PsSum0 || ins.op is PsSum1 || ins.op is PsMuls0 || ins.op is PsMadds0
            || ins.op is PsMuls1 || ins.op is PsMadds1 || ins.op is PsSel,
    ensures
        completed(run(translate(ins, pc, n), m), Some(defined_paired(ins, m.sys, m.doubles))),
{
    lemma_is_paired(ins, pc, n);
    lemma_paired(ins, n, m);
}

#[verifier::spinoff_prover]
proof fn lemma_fused_translated(ins: Ins, pc: u32, n: nat, m: Machine)
    requires
        ready(m),
        n <= MAX_LOCALS,
        m.sys.cpu.ps0.len() == 32,
        ins.op is Fmadd || ins.op is Fmadds || ins.op is Fmsub || ins.op is Fmsubs
            || ins.op is Fnmadd || ins.op is Fnmadds || ins.op is Fnmsub || ins.op is Fnmsubs,
    ensures
        completed(run(translate(ins, pc, n), m), Some(defined_fused(ins, m.sys, m.doubles))),
{
    lemma_fused_scalar(ins, n, m);
}

#[verifier::spinoff_prover]
proof fn lemma_fused_pair_translated(ins: Ins, pc: u32, n: nat, m: Machine)
    requires
        ready(m),
        n <= MAX_LOCALS,
        m.sys.cpu.ps0.len() == 32,
        ins.op is PsMadd || ins.op is PsMsub || ins.op is PsNmadd || ins.op is PsNmsub,
    ensures
        completed(run(translate(ins, pc, n), m), Some(defined_fused(ins, m.sys, m.doubles))),
{
    lemma_fused_paired(ins, n, m);
}

#[verifier::spinoff_prover]
proof fn lemma_estimate_translated(ins: Ins, pc: u32, n: nat, m: Machine)
    requires
        ready(m),
        n <= MAX_LOCALS,
        m.sys.cpu.ps0.len() == 32,
        ins.op is Fres || ins.op is Frsqrte || ins.op is PsRes || ins.op is PsRsqrte,
    ensures
        completed(run(translate(ins, pc, n), m), Some(defined_fused(ins, m.sys, m.doubles))),
{
    lemma_estimate(ins, n, m);
}

proof fn lemma_is_comparison(ins: Ins, pc: u32, n: nat)
    requires
        ins.op is Fcmpu || ins.op is Fcmpo || ins.op is PsCmpu0 || ins.op is PsCmpo0
            || ins.op is PsCmpu1 || ins.op is PsCmpo1,
    ensures
        translate(ins, pc, n) == float_compare_code(ins, ins.op is PsCmpu1 || ins.op is PsCmpo1, n),
{
}

#[verifier::spinoff_prover]
proof fn lemma_comparison_translated(ins: Ins, pc: u32, n: nat, m: Machine)
    requires
        ready(m),
        n <= MAX_LOCALS,
        m.sys.cpu.ps0.len() == 32,
        ins.op is Fcmpu || ins.op is Fcmpo || ins.op is PsCmpu0 || ins.op is PsCmpo0
            || ins.op is PsCmpu1 || ins.op is PsCmpo1,
    ensures
        completed(run(translate(ins, pc, n), m), Some(defined_comparison(ins, m.sys, m.doubles))),
{
    lemma_is_comparison(ins, pc, n);
    reveal(defined_comparison);
    lemma_comparison(ins, ins.op is PsCmpu1 || ins.op is PsCmpo1, n, m);
}

#[verifier::spinoff_prover]
proof fn lemma_float_load_translated(ins: Ins, pc: u32, n: nat, m: Machine)
    requires
        ready(m),
        n <= MAX_LOCALS,
        m.sys.cpu.ps0.len() == 32,
        ins.op is Lfs || ins.op is PsqL || ins.op is Lfsu || ins.op is PsqLu || ins.op is Lfsx
            || ins.op is PsqLx || ins.op is Lfsux || ins.op is Lfd || ins.op is Lfdu
            || ins.op is Lfdx || ins.op is Lfdux,
    ensures
        completed(run(translate(ins, pc, n), m), Some(defined_float_load(ins, m.sys, m.doubles))),
{
    lemma_float_load(ins, n, m);
}

#[verifier::spinoff_prover]
proof fn lemma_float_store_translated(ins: Ins, pc: u32, n: nat, m: Machine)
    requires
        ready(m),
        n <= MAX_LOCALS,
        m.sys.cpu.ps0.len() == 32,
        ins.op is Stfs || ins.op is PsqSt || ins.op is Stfsu || ins.op is Stfsx || ins.op is PsqStx
            || ins.op is Stfsux || ins.op is PsqStu || ins.op is Stfd || ins.op is Stfdu
            || ins.op is Stfdx || ins.op is Stfdux || ins.op is Stfiwx,
    ensures
        completed(run(translate(ins, pc, n), m), Some(defined_float_store(ins, m.sys, m.doubles))),
{
    lemma_float_store(ins, n, m);
}

/// The code that an instruction on doubles is translated to does what the instruction is
/// defined to do: the operation, its operands, their order, and the registers or memory
/// that the result goes to. Nothing else changes.
#[verifier::spinoff_prover]
pub proof fn float_translation_is_as_defined(ins: Ins, pc: u32, n: nat, m: Machine)
    requires
        ready(m),
        n <= MAX_LOCALS,
        m.sys.cpu.ps0.len() == 32,
        float_defined(ins, m.sys, m.doubles) is Some,
    ensures
        completed(run(translate(ins, pc, n), m), float_defined(ins, m.sys, m.doubles)),
{
    match ins.op {
        Opcode::Fadd | Opcode::Fadds | Opcode::Fsub | Opcode::Fsubs | Opcode::Fdiv | Opcode::Fdivs
            | Opcode::Fmul | Opcode::Fmuls | Opcode::Fmr | Opcode::Fneg | Opcode::Fabs
            | Opcode::Frsp | Opcode::Fsqrt | Opcode::Fsqrts | Opcode::Fctiw | Opcode::Fctiwz
            | Opcode::Mffs | Opcode::Fsel => {
            lemma_scalar_translated(ins, pc, n, m);
        },
        Opcode::Fmadd | Opcode::Fmadds | Opcode::Fmsub | Opcode::Fmsubs | Opcode::Fnmadd
            | Opcode::Fnmadds | Opcode::Fnmsub | Opcode::Fnmsubs => {
            lemma_fused_translated(ins, pc, n, m);
        },
        Opcode::PsMadd | Opcode::PsMsub | Opcode::PsNmadd | Opcode::PsNmsub => {
            lemma_fused_pair_translated(ins, pc, n, m);
        },
        Opcode::Fres | Opcode::Frsqrte | Opcode::PsRes | Opcode::PsRsqrte => {
            lemma_estimate_translated(ins, pc, n, m);
        },
        Opcode::Fcmpu | Opcode::Fcmpo | Opcode::PsCmpu0 | Opcode::PsCmpo0 | Opcode::PsCmpu1
            | Opcode::PsCmpo1 => {
            lemma_comparison_translated(ins, pc, n, m);
        },
        Opcode::Lfs | Opcode::PsqL | Opcode::Lfsu | Opcode::PsqLu | Opcode::Lfsx | Opcode::PsqLx
            | Opcode::Lfsux | Opcode::Lfd | Opcode::Lfdu | Opcode::Lfdx | Opcode::Lfdux => {
            lemma_float_load_translated(ins, pc, n, m);
        },
        Opcode::Stfs | Opcode::PsqSt | Opcode::Stfsu | Opcode::Stfsx | Opcode::PsqStx
            | Opcode::Stfsux | Opcode::PsqStu | Opcode::Stfd | Opcode::Stfdu | Opcode::Stfdx
            | Opcode::Stfdux | Opcode::Stfiwx => {
            lemma_float_store_translated(ins, pc, n, m);
        },
        _ => lemma_paired_translated(ins, pc, n, m),
    }
}

} // verus!
