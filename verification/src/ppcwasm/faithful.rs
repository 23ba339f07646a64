//! Compiled code does what the intermediate representation means.

use vstd::prelude::*;

use super::encode::{AccessOp, ConstOp, F64Op, FlowOp, I32Op, TestOp, WasmInst, WideOp};
use super::imports;
use super::lower::{
    block_code, bswap16_code, bswap_code, load_f64_code, load_i32_code, lowered, lowered_all,
    place32, place64, store_f64_code, store_i32_code,
};
use super::machine::{
    access_done, flow_done, step_access, step_const32, step_const64, step_const_double, step_ended,
    step_f64, step_flow, step_i32, step_skipped, step_test, step_wide, wasm_run, wasm_run_1,
    wasm_run_2, wasm_run_3, wasm_run_4, wasm_run_5, wasm_run_8, wasm_run_in_pieces, wasm_run_to,
    wasm_step, wide_done, Wasm,
};
use super::offsets::RegOffsets;
use crate::disasm::Ins;
use crate::gekko::{
    hi32, join64, join_of_halves, lo32, CpuView, CPU_WORDS, CR_WORD, CTR_WORD, DEC_WORD, FPR_WORD,
    FPSCR_WORD, GPR_WORD, GQR_WORD, LR_WORD, MSR_WORD, PC_WORD, SPRG_WORD, SRR_WORD, TB_WORD,
    XER_WORD,
};
use crate::ppcint::arithmetic::wrapped;
use crate::ppcint::logic::swapped;
use crate::ppcir::agreement::{all_agree, blocks_agree, interpreted};
use crate::ppcir::inst::{IrInst, IrLocal, IrTy};
use crate::ppcir::meaning::{
    half_swapped, run, run_1, run_in_pieces, step, step_branch_if, step_branch_reg_if, step_drop,
    step_f64_abs, step_f64_add, step_f64_const, step_f64_div, step_f64_eq, step_f64_from_i32_s,
    step_f64_gt, step_f64_lt, step_f64_mul, step_f64_nearest, step_f64_neg,
    step_f64_promote_single_bits, step_f64_reinterpret_i64, step_f64_round_to_single,
    step_f64_select, step_f64_sqrt, step_f64_sub, step_i32_add, step_i32_and, step_i32_bswap,
    step_i32_bswap16, step_i32_clz, step_i32_const, step_i32_ctz, step_i32_demote_to_single_bits,
    step_i32_div_s, step_i32_div_u, step_i32_eq, step_i32_eqz, step_i32_extend16_s,
    step_i32_extend8_s, step_i32_from_f64_low_bits, step_i32_gt_s, step_i32_gt_u, step_i32_lt_s,
    step_i32_lt_u, step_i32_mul, step_i32_ne, step_i32_not, step_i32_or, step_i32_rotl,
    step_i32_shl, step_i32_shr_s, step_i32_shr_u, step_i32_sub, step_i32_trunc_f64_s,
    step_i32_trunc_sat_f64_s, step_i32_wrap_i64, step_i32_xor, step_i64_extend_i32_s,
    step_i64_extend_i32_u, step_i64_mul, step_i64_reinterpret_f64, step_i64_shr_s32,
    step_i64_shr_u32, step_load_cr, step_load_ctr, step_load_dec, step_load_fpr_ps0,
    step_load_fpr_ps1, step_load_fpscr, step_load_gpr, step_load_gqr, step_load_lr, step_load_msr,
    step_load_sprg, step_load_srr0, step_load_srr1, step_load_tb_hi, step_load_tb_lo, step_load_xer,
    step_local_get, step_local_set, step_local_tee, step_psq_load, step_psq_load_size,
    step_psq_store, step_read_f64, step_read_u16, step_read_u32, step_read_u8, step_return_dynamic,
    step_return_static, step_store_cr, step_store_ctr, step_store_dec, step_store_fpr_ps0,
    step_store_fpr_ps1, step_store_fpscr, step_store_gpr, step_store_gqr, step_store_lr,
    step_store_msr, step_store_pc, step_store_sprg, step_store_srr0, step_store_srr1,
    step_store_xer, step_write_f64, step_write_u16, step_write_u32, step_write_u8, Machine, Stack,
    Value,
};
use crate::ppcir::pieces::{lemma_constant, ready};
use crate::ppcir::translate::{
    block_length, decoded, ends_block, next_pc, MAX_LOCALS, MINUS_ONE,
};
use crate::ppcir::typing::{
    block_is_prefix, decoded_is_well_typed, empty_stack, operands_fit,
    ty_run, ty_step, well_typed, TyState,
};

verus! {

/// Whether every array of registers has its length.
pub open spec fn shaped(cpu: CpuView) -> bool {
    &&& cpu.gpr.len() == 32
    &&& cpu.ps0.len() == 32
    &&& cpu.ps1.len() == 32
    &&& cpu.srr.len() == 2
    &&& cpu.sprg.len() == 4
    &&& cpu.gqr.len() == 8
}

/// Whether `image` is the register image of `cpu`, up to the program counter.
#[verifier::opaque]
pub open spec fn image_holds(image: Seq<u32>, cpu: CpuView) -> bool {
    &&& image.len() == CPU_WORDS
    &&& forall|k: int| 0 < k < CPU_WORDS ==> #[trigger] image[k] == cpu.word(k)
}

/// Whether compiled code in `w` is where the intermediate representation is in `m`, for
/// a block with `n` locals.
pub open spec fn mirrors(w: Wasm, m: Machine, n: nat) -> bool {
    &&& w.core.stack == m.stack
    &&& w.core.exit is None
    &&& m.exit is None
    &&& w.core.doubles == m.doubles
    &&& w.core.sys.ram == m.sys.ram
    &&& w.open == 0 && w.skip == 0
    &&& shaped(m.sys.cpu)
    &&& image_holds(w.image, m.sys.cpu)
    &&& w.core.locals[0] == Value::I32(w.base)
    &&& forall|k: u32| 0 < k <= n ==> #[trigger] w.core.locals[k] == m.locals[k]
}

/// The compiled code of `inst`, in a block with `n` locals.
pub open spec fn compiled_inst(inst: IrInst, off: RegOffsets, n: nat) -> Seq<WasmInst> {
    lowered(inst, off, (n + 1) as u32, (n + 2) as u32)
}

/// Whether compiled code for `inst` follows it.
#[verifier::opaque]
pub open spec fn follows(inst: IrInst, off: RegOffsets, n: nat, w: Wasm, m: Machine) -> bool {
    mirrors(wasm_run(compiled_inst(inst, off, n), w), step(inst, m), n)
}

/// Loading word `k` of the register image.
#[verifier::spinoff_prover]
proof fn lemma_load_word(k: int, w: Wasm)
    requires
        0 <= k < CPU_WORDS,
        w.core.exit is None,
        w.skip == 0,
        w.core.locals[0] == Value::I32(w.base),
    ensures
        wasm_run(load_i32_code((4 * k) as u64), w) == w.with(w.core.pushed32(w.image[k])),
{
    let load = AccessOp::I32Load(place32((4 * k) as u64));
    wasm_run_2(WasmInst::Access(AccessOp::LocalGet(0)), WasmInst::Access(load), w);
    step_access(AccessOp::LocalGet(0), w);
    step_access(load, access_done(AccessOp::LocalGet(0), w));
    assert((w.base + (4 * k) as u64 - w.base) / 4 == k);
}

/// Storing word `k` of the register image.
#[verifier::spinoff_prover]
proof fn lemma_store_word(k: int, si32: u32, w: Wasm)
    requires
        0 <= k < CPU_WORDS,
        si32 != 0,
        w.core.exit is None,
        w.skip == 0,
        w.core.locals[0] == Value::I32(w.base),
    ensures
        wasm_run(store_i32_code((4 * k) as u64, si32), w) == (Wasm {
            core: Machine {
                stack: w.core.stack.rest(),
                locals: w.core.locals.insert(si32, w.core.stack.top()),
                ..w.core
            },
            image: w.image.update(k, w.core.b()),
            ..w
        }),
{
    let (set, base, get) = (
        AccessOp::LocalSet(si32),
        AccessOp::LocalGet(0),
        AccessOp::LocalGet(si32),
    );
    let store = AccessOp::I32Store(place32((4 * k) as u64));
    wasm_run_4(
        WasmInst::Access(set),
        WasmInst::Access(base),
        WasmInst::Access(get),
        WasmInst::Access(store),
        w,
    );
    let w1 = access_done(set, w);
    let w2 = access_done(base, w1);
    let w3 = access_done(get, w2);
    step_access(set, w);
    step_access(base, w1);
    step_access(get, w2);
    step_access(store, w3);
    assert((w.base + (4 * k) as u64 - w.base) / 4 == k);
}

/// Whether `inst` is one of these: operations on 32-bit integers.
spec fn is_i32(inst: IrInst) -> bool {
    match inst {
        IrInst::I32Add | IrInst::I32Sub | IrInst::I32Mul | IrInst::I32DivS | IrInst::I32DivU
        | IrInst::I32And | IrInst::I32Or | IrInst::I32Xor | IrInst::I32Shl | IrInst::I32ShrU
        | IrInst::I32ShrS | IrInst::I32Rotl | IrInst::I32Clz | IrInst::I32Ctz
        | IrInst::I32Extend8S | IrInst::I32Extend16S => true,
        _ => false,
    }
}

/// Operations on 32-bit integers.
#[verifier::spinoff_prover]
proof fn lemma_i32(inst: IrInst, off: RegOffsets, n: nat, w: Wasm, m: Machine)
    requires
        mirrors(w, m, n),
        is_i32(inst),
    ensures
        follows(inst, off, n, w, m),
{
    match inst {
        IrInst::I32Add => assert(follows(IrInst::I32Add, off, n, w, m)) by {
            reveal(follows);
            reveal(lowered);
            reveal(wasm_step);
            step_i32_add(m);
            wasm_run_1(WasmInst::I32(I32Op::Add), w);
        },
        IrInst::I32Sub => assert(follows(IrInst::I32Sub, off, n, w, m)) by {
            reveal(follows);
            reveal(lowered);
            reveal(wasm_step);
            step_i32_sub(m);
            wasm_run_1(WasmInst::I32(I32Op::Sub), w);
        },
        IrInst::I32Mul => assert(follows(IrInst::I32Mul, off, n, w, m)) by {
            reveal(follows);
            reveal(lowered);
            reveal(wasm_step);
            step_i32_mul(m);
            wasm_run_1(WasmInst::I32(I32Op::Mul), w);
        },
        IrInst::I32DivS => assert(follows(IrInst::I32DivS, off, n, w, m)) by {
            reveal(follows);
            reveal(lowered);
            reveal(wasm_step);
            step_i32_div_s(m);
            wasm_run_1(WasmInst::I32(I32Op::DivS), w);
        },
        IrInst::I32DivU => assert(follows(IrInst::I32DivU, off, n, w, m)) by {
            reveal(follows);
            reveal(lowered);
            reveal(wasm_step);
            step_i32_div_u(m);
            wasm_run_1(WasmInst::I32(I32Op::DivU), w);
        },
        IrInst::I32And => assert(follows(IrInst::I32And, off, n, w, m)) by {
            reveal(follows);
            reveal(lowered);
            reveal(wasm_step);
            step_i32_and(m);
            wasm_run_1(WasmInst::I32(I32Op::And), w);
        },
        IrInst::I32Or => assert(follows(IrInst::I32Or, off, n, w, m)) by {
            reveal(follows);
            reveal(lowered);
            reveal(wasm_step);
            step_i32_or(m);
            wasm_run_1(WasmInst::I32(I32Op::Or), w);
        },
        IrInst::I32Xor => assert(follows(IrInst::I32Xor, off, n, w, m)) by {
            reveal(follows);
            reveal(lowered);
            reveal(wasm_step);
            step_i32_xor(m);
            wasm_run_1(WasmInst::I32(I32Op::Xor), w);
        },
        IrInst::I32Shl => assert(follows(IrInst::I32Shl, off, n, w, m)) by {
            reveal(follows);
            reveal(lowered);
            reveal(wasm_step);
            step_i32_shl(m);
            wasm_run_1(WasmInst::I32(I32Op::Shl), w);
        },
        IrInst::I32ShrU => assert(follows(IrInst::I32ShrU, off, n, w, m)) by {
            reveal(follows);
            reveal(lowered);
            reveal(wasm_step);
            step_i32_shr_u(m);
            wasm_run_1(WasmInst::I32(I32Op::ShrU), w);
        },
        IrInst::I32ShrS => assert(follows(IrInst::I32ShrS, off, n, w, m)) by {
            reveal(follows);
            reveal(lowered);
            reveal(wasm_step);
            step_i32_shr_s(m);
            wasm_run_1(WasmInst::I32(I32Op::ShrS), w);
        },
        IrInst::I32Rotl => assert(follows(IrInst::I32Rotl, off, n, w, m)) by {
            reveal(follows);
            reveal(lowered);
            reveal(wasm_step);
            step_i32_rotl(m);
            wasm_run_1(WasmInst::I32(I32Op::Rotl), w);
        },
        IrInst::I32Clz => assert(follows(IrInst::I32Clz, off, n, w, m)) by {
            reveal(follows);
            reveal(lowered);
            reveal(wasm_step);
            step_i32_clz(m);
            wasm_run_1(WasmInst::I32(I32Op::Clz), w);
        },
        IrInst::I32Ctz => assert(follows(IrInst::I32Ctz, off, n, w, m)) by {
            reveal(follows);
            reveal(lowered);
            reveal(wasm_step);
            step_i32_ctz(m);
            wasm_run_1(WasmInst::I32(I32Op::Ctz), w);
        },
        IrInst::I32Extend8S => assert(follows(IrInst::I32Extend8S, off, n, w, m)) by {
            reveal(follows);
            reveal(lowered);
            reveal(wasm_step);
            step_i32_extend8_s(m);
            wasm_run_1(WasmInst::I32(I32Op::Extend8S), w);
        },
        IrInst::I32Extend16S => assert(follows(IrInst::I32Extend16S, off, n, w, m)) by {
            reveal(follows);
            reveal(lowered);
            reveal(wasm_step);
            step_i32_extend16_s(m);
            wasm_run_1(WasmInst::I32(I32Op::Extend16S), w);
        },
        _ => {},
    }
}

/// Whether `inst` is one of these: comparisons.
spec fn is_test(inst: IrInst) -> bool {
    match inst {
        IrInst::I32Eq | IrInst::I32Ne | IrInst::I32LtS | IrInst::I32LtU | IrInst::I32GtS
        | IrInst::I32GtU | IrInst::I32Eqz | IrInst::F64Lt | IrInst::F64Gt
        | IrInst::F64Eq => true,
        _ => false,
    }
}

/// Comparisons.
#[verifier::spinoff_prover]
proof fn lemma_test(inst: IrInst, off: RegOffsets, n: nat, w: Wasm, m: Machine)
    requires
        mirrors(w, m, n),
        is_test(inst),
    ensures
        follows(inst, off, n, w, m),
{
    match inst {
        IrInst::I32Eq => assert(follows(IrInst::I32Eq, off, n, w, m)) by {
            reveal(follows);
            reveal(lowered);
            step_i32_eq(m);
            wasm_run_1(WasmInst::Test(TestOp::I32Eq), w);
            step_test(TestOp::I32Eq, w);
        },
        IrInst::I32Ne => assert(follows(IrInst::I32Ne, off, n, w, m)) by {
            reveal(follows);
            reveal(lowered);
            step_i32_ne(m);
            wasm_run_1(WasmInst::Test(TestOp::I32Ne), w);
            step_test(TestOp::I32Ne, w);
        },
        IrInst::I32LtS => assert(follows(IrInst::I32LtS, off, n, w, m)) by {
            reveal(follows);
            reveal(lowered);
            step_i32_lt_s(m);
            wasm_run_1(WasmInst::Test(TestOp::I32LtS), w);
            step_test(TestOp::I32LtS, w);
        },
        IrInst::I32LtU => assert(follows(IrInst::I32LtU, off, n, w, m)) by {
            reveal(follows);
            reveal(lowered);
            step_i32_lt_u(m);
            wasm_run_1(WasmInst::Test(TestOp::I32LtU), w);
            step_test(TestOp::I32LtU, w);
        },
        IrInst::I32GtS => assert(follows(IrInst::I32GtS, off, n, w, m)) by {
            reveal(follows);
            reveal(lowered);
            step_i32_gt_s(m);
            wasm_run_1(WasmInst::Test(TestOp::I32GtS), w);
            step_test(TestOp::I32GtS, w);
        },
        IrInst::I32GtU => assert(follows(IrInst::I32GtU, off, n, w, m)) by {
            reveal(follows);
            reveal(lowered);
            step_i32_gt_u(m);
            wasm_run_1(WasmInst::Test(TestOp::I32GtU), w);
            step_test(TestOp::I32GtU, w);
        },
        IrInst::I32Eqz => assert(follows(IrInst::I32Eqz, off, n, w, m)) by {
            reveal(follows);
            reveal(lowered);
            step_i32_eqz(m);
            wasm_run_1(WasmInst::Test(TestOp::I32Eqz), w);
            step_test(TestOp::I32Eqz, w);
        },
        IrInst::F64Lt => assert(follows(IrInst::F64Lt, off, n, w, m)) by {
            reveal(follows);
            reveal(lowered);
            step_f64_lt(m);
            wasm_run_1(WasmInst::Test(TestOp::F64Lt), w);
            step_test(TestOp::F64Lt, w);
        },
        IrInst::F64Gt => assert(follows(IrInst::F64Gt, off, n, w, m)) by {
            reveal(follows);
            reveal(lowered);
            step_f64_gt(m);
            wasm_run_1(WasmInst::Test(TestOp::F64Gt), w);
            step_test(TestOp::F64Gt, w);
        },
        IrInst::F64Eq => assert(follows(IrInst::F64Eq, off, n, w, m)) by {
            reveal(follows);
            reveal(lowered);
            step_f64_eq(m);
            wasm_run_1(WasmInst::Test(TestOp::F64Eq), w);
            step_test(TestOp::F64Eq, w);
        },
        _ => {},
    }
}

/// Whether `inst` is one of these: operations on doubles.
spec fn is_f64(inst: IrInst) -> bool {
    match inst {
        IrInst::F64Add | IrInst::F64Sub | IrInst::F64Mul | IrInst::F64Div | IrInst::F64Neg
        | IrInst::F64Abs | IrInst::F64Sqrt | IrInst::F64Nearest => true,
        _ => false,
    }
}

/// Operations on doubles.
#[verifier::spinoff_prover]
proof fn lemma_f64(inst: IrInst, off: RegOffsets, n: nat, w: Wasm, m: Machine)
    requires
        mirrors(w, m, n),
        is_f64(inst),
    ensures
        follows(inst, off, n, w, m),
{
    match inst {
        IrInst::F64Add => assert(follows(IrInst::F64Add, off, n, w, m)) by {
            reveal(follows);
            reveal(lowered);
            step_f64_add(m);
            wasm_run_1(WasmInst::F64(F64Op::Add), w);
            step_f64(F64Op::Add, w);
        },
        IrInst::F64Sub => assert(follows(IrInst::F64Sub, off, n, w, m)) by {
            reveal(follows);
            reveal(lowered);
            step_f64_sub(m);
            wasm_run_1(WasmInst::F64(F64Op::Sub), w);
            step_f64(F64Op::Sub, w);
        },
        IrInst::F64Mul => assert(follows(IrInst::F64Mul, off, n, w, m)) by {
            reveal(follows);
            reveal(lowered);
            step_f64_mul(m);
            wasm_run_1(WasmInst::F64(F64Op::Mul), w);
            step_f64(F64Op::Mul, w);
        },
        IrInst::F64Div => assert(follows(IrInst::F64Div, off, n, w, m)) by {
            reveal(follows);
            reveal(lowered);
            step_f64_div(m);
            wasm_run_1(WasmInst::F64(F64Op::Div), w);
            step_f64(F64Op::Div, w);
        },
        IrInst::F64Neg => assert(follows(IrInst::F64Neg, off, n, w, m)) by {
            reveal(follows);
            reveal(lowered);
            step_f64_neg(m);
            wasm_run_1(WasmInst::F64(F64Op::Neg), w);
            step_f64(F64Op::Neg, w);
        },
        IrInst::F64Abs => assert(follows(IrInst::F64Abs, off, n, w, m)) by {
            reveal(follows);
            reveal(lowered);
            step_f64_abs(m);
            wasm_run_1(WasmInst::F64(F64Op::Abs), w);
            step_f64(F64Op::Abs, w);
        },
        IrInst::F64Sqrt => assert(follows(IrInst::F64Sqrt, off, n, w, m)) by {
            reveal(follows);
            reveal(lowered);
            step_f64_sqrt(m);
            wasm_run_1(WasmInst::F64(F64Op::Sqrt), w);
            step_f64(F64Op::Sqrt, w);
        },
        IrInst::F64Nearest => assert(follows(IrInst::F64Nearest, off, n, w, m)) by {
            reveal(follows);
            reveal(lowered);
            step_f64_nearest(m);
            wasm_run_1(WasmInst::F64(F64Op::Nearest), w);
            step_f64(F64Op::Nearest, w);
        },
        _ => {},
    }
}

/// Whether `inst` is one of these: conversions and operations on 64-bit integers.
spec fn is_wide(inst: IrInst) -> bool {
    match inst {
        IrInst::F64FromI32S | IrInst::I32TruncF64S | IrInst::I32TruncSatF64S
        | IrInst::F64ReinterpretI64 | IrInst::I64ReinterpretF64 | IrInst::I32WrapI64
        | IrInst::I64ExtendI32S | IrInst::I64ExtendI32U | IrInst::I64Mul => true,
        _ => false,
    }
}

/// Conversions and operations on 64-bit integers.
#[verifier::spinoff_prover]
proof fn lemma_wide(inst: IrInst, off: RegOffsets, n: nat, w: Wasm, m: Machine)
    requires
        mirrors(w, m, n),
        is_wide(inst),
    ensures
        follows(inst, off, n, w, m),
{
    match inst {
        IrInst::F64FromI32S => assert(follows(IrInst::F64FromI32S, off, n, w, m)) by {
            reveal(follows);
            reveal(lowered);
            step_f64_from_i32_s(m);
            wasm_run_1(WasmInst::Wide(WideOp::F64ConvertI32S), w);
            step_wide(WideOp::F64ConvertI32S, w);
        },
        IrInst::I32TruncF64S => assert(follows(IrInst::I32TruncF64S, off, n, w, m)) by {
            reveal(follows);
            reveal(lowered);
            step_i32_trunc_f64_s(m);
            wasm_run_1(WasmInst::Wide(WideOp::I32TruncF64S), w);
            step_wide(WideOp::I32TruncF64S, w);
        },
        IrInst::I32TruncSatF64S => assert(follows(IrInst::I32TruncSatF64S, off, n, w, m)) by {
            reveal(follows);
            reveal(lowered);
            step_i32_trunc_sat_f64_s(m);
            wasm_run_1(WasmInst::Wide(WideOp::I32TruncSatF64S), w);
            step_wide(WideOp::I32TruncSatF64S, w);
        },
        IrInst::F64ReinterpretI64 => assert(follows(IrInst::F64ReinterpretI64, off, n, w, m)) by {
            reveal(follows);
            reveal(lowered);
            step_f64_reinterpret_i64(m);
            wasm_run_1(WasmInst::Wide(WideOp::F64ReinterpretI64), w);
            step_wide(WideOp::F64ReinterpretI64, w);
        },
        IrInst::I64ReinterpretF64 => assert(follows(IrInst::I64ReinterpretF64, off, n, w, m)) by {
            reveal(follows);
            reveal(lowered);
            step_i64_reinterpret_f64(m);
            wasm_run_1(WasmInst::Wide(WideOp::I64ReinterpretF64), w);
            step_wide(WideOp::I64ReinterpretF64, w);
        },
        IrInst::I32WrapI64 => assert(follows(IrInst::I32WrapI64, off, n, w, m)) by {
            reveal(follows);
            reveal(lowered);
            step_i32_wrap_i64(m);
            wasm_run_1(WasmInst::Wide(WideOp::I32WrapI64), w);
            step_wide(WideOp::I32WrapI64, w);
        },
        IrInst::I64ExtendI32S => assert(follows(IrInst::I64ExtendI32S, off, n, w, m)) by {
            reveal(follows);
            reveal(lowered);
            step_i64_extend_i32_s(m);
            wasm_run_1(WasmInst::Wide(WideOp::I64ExtendI32S), w);
            step_wide(WideOp::I64ExtendI32S, w);
        },
        IrInst::I64ExtendI32U => assert(follows(IrInst::I64ExtendI32U, off, n, w, m)) by {
            reveal(follows);
            reveal(lowered);
            step_i64_extend_i32_u(m);
            wasm_run_1(WasmInst::Wide(WideOp::I64ExtendI32U), w);
            step_wide(WideOp::I64ExtendI32U, w);
        },
        IrInst::I64Mul => assert(follows(IrInst::I64Mul, off, n, w, m)) by {
            reveal(follows);
            reveal(lowered);
            step_i64_mul(m);
            wasm_run_1(WasmInst::Wide(WideOp::I64Mul), w);
            step_wide(WideOp::I64Mul, w);
        },
        _ => {},
    }
}

/// Whether `inst` is one of these: accesses to guest memory.
spec fn is_call(inst: IrInst) -> bool {
    match inst {
        IrInst::ReadU8 | IrInst::ReadU16 | IrInst::ReadU32 | IrInst::ReadF64 | IrInst::WriteU8
        | IrInst::WriteU16 | IrInst::WriteU32 | IrInst::WriteF64 | IrInst::PsqLoad
        | IrInst::PsqStore | IrInst::PsqLoadSize => true,
        _ => false,
    }
}

/// Accesses to guest memory.
#[verifier::spinoff_prover]
proof fn lemma_call(inst: IrInst, off: RegOffsets, n: nat, w: Wasm, m: Machine)
    requires
        mirrors(w, m, n),
        is_call(inst),
    ensures
        follows(inst, off, n, w, m),
{
    match inst {
        IrInst::ReadU8 => assert(follows(IrInst::ReadU8, off, n, w, m)) by {
            reveal(follows);
            reveal(lowered);
            step_read_u8(m);
            wasm_run_1(WasmInst::Flow(FlowOp::Call(imports::READ_U8)), w);
            step_flow(FlowOp::Call(imports::READ_U8), w);
        },
        IrInst::ReadU16 => assert(follows(IrInst::ReadU16, off, n, w, m)) by {
            reveal(follows);
            reveal(lowered);
            step_read_u16(m);
            wasm_run_1(WasmInst::Flow(FlowOp::Call(imports::READ_U16)), w);
            step_flow(FlowOp::Call(imports::READ_U16), w);
        },
        IrInst::ReadU32 => assert(follows(IrInst::ReadU32, off, n, w, m)) by {
            reveal(follows);
            reveal(lowered);
            step_read_u32(m);
            wasm_run_1(WasmInst::Flow(FlowOp::Call(imports::READ_U32)), w);
            step_flow(FlowOp::Call(imports::READ_U32), w);
        },
        IrInst::ReadF64 => assert(follows(IrInst::ReadF64, off, n, w, m)) by {
            reveal(follows);
            reveal(lowered);
            step_read_f64(m);
            wasm_run_1(WasmInst::Flow(FlowOp::Call(imports::READ_F64)), w);
            step_flow(FlowOp::Call(imports::READ_F64), w);
        },
        IrInst::WriteU8 => assert(follows(IrInst::WriteU8, off, n, w, m)) by {
            reveal(follows);
            reveal(lowered);
            step_write_u8(m);
            wasm_run_1(WasmInst::Flow(FlowOp::Call(imports::WRITE_U8)), w);
            step_flow(FlowOp::Call(imports::WRITE_U8), w);
        },
        IrInst::WriteU16 => assert(follows(IrInst::WriteU16, off, n, w, m)) by {
            reveal(follows);
            reveal(lowered);
            step_write_u16(m);
            wasm_run_1(WasmInst::Flow(FlowOp::Call(imports::WRITE_U16)), w);
            step_flow(FlowOp::Call(imports::WRITE_U16), w);
        },
        IrInst::WriteU32 => assert(follows(IrInst::WriteU32, off, n, w, m)) by {
            reveal(follows);
            reveal(lowered);
            step_write_u32(m);
            wasm_run_1(WasmInst::Flow(FlowOp::Call(imports::WRITE_U32)), w);
            step_flow(FlowOp::Call(imports::WRITE_U32), w);
        },
        IrInst::WriteF64 => assert(follows(IrInst::WriteF64, off, n, w, m)) by {
            reveal(follows);
            reveal(lowered);
            step_write_f64(m);
            wasm_run_1(WasmInst::Flow(FlowOp::Call(imports::WRITE_F64)), w);
            step_flow(FlowOp::Call(imports::WRITE_F64), w);
        },
        IrInst::PsqLoad => assert(follows(IrInst::PsqLoad, off, n, w, m)) by {
            reveal(follows);
            reveal(lowered);
            step_psq_load(m);
            wasm_run_1(WasmInst::Flow(FlowOp::Call(imports::PSQ_LOAD)), w);
            step_flow(FlowOp::Call(imports::PSQ_LOAD), w);
        },
        IrInst::PsqStore => assert(follows(IrInst::PsqStore, off, n, w, m)) by {
            reveal(follows);
            reveal(lowered);
            step_psq_store(m);
            wasm_run_1(WasmInst::Flow(FlowOp::Call(imports::PSQ_STORE)), w);
            step_flow(FlowOp::Call(imports::PSQ_STORE), w);
        },
        IrInst::PsqLoadSize => assert(follows(IrInst::PsqLoadSize, off, n, w, m)) by {
            reveal(follows);
            reveal(lowered);
            step_psq_load_size(m);
            wasm_run_1(WasmInst::Flow(FlowOp::Call(imports::PSQ_LOAD_SIZE)), w);
            step_flow(FlowOp::Call(imports::PSQ_LOAD_SIZE), w);
        },
        _ => {},
    }
}

/// Whether `inst` loads a 32-bit register.
spec fn is_load(inst: IrInst) -> bool {
    match inst {
        IrInst::LoadCr | IrInst::LoadLr | IrInst::LoadCtr | IrInst::LoadXer | IrInst::LoadMsr
        | IrInst::LoadSrr0 | IrInst::LoadSrr1 | IrInst::LoadTbLo | IrInst::LoadTbHi
        | IrInst::LoadDec | IrInst::LoadFpscr | IrInst::LoadGpr(_) | IrInst::LoadSprg(_)
        | IrInst::LoadGqr(_) => true,
        _ => false,
    }
}

/// Loads of 32-bit registers.
#[verifier::spinoff_prover]
proof fn lemma_load(inst: IrInst, off: RegOffsets, n: nat, w: Wasm, m: Machine, locals: Seq<IrTy>)
    requires
        mirrors(w, m, n),
        off.match_image(),
        operands_fit(inst, locals),
        is_load(inst),
    ensures
        follows(inst, off, n, w, m),
{
    match inst {
        IrInst::LoadCr => assert(follows(IrInst::LoadCr, off, n, w, m)) by {
            reveal(follows);
            reveal(lowered);
            reveal(image_holds);
            step_load_cr(m);
            lemma_load_word(CR_WORD as int, w);
        },
        IrInst::LoadLr => assert(follows(IrInst::LoadLr, off, n, w, m)) by {
            reveal(follows);
            reveal(lowered);
            reveal(image_holds);
            step_load_lr(m);
            lemma_load_word(LR_WORD as int, w);
        },
        IrInst::LoadCtr => assert(follows(IrInst::LoadCtr, off, n, w, m)) by {
            reveal(follows);
            reveal(lowered);
            reveal(image_holds);
            step_load_ctr(m);
            lemma_load_word(CTR_WORD as int, w);
        },
        IrInst::LoadXer => assert(follows(IrInst::LoadXer, off, n, w, m)) by {
            reveal(follows);
            reveal(lowered);
            reveal(image_holds);
            step_load_xer(m);
            lemma_load_word(XER_WORD as int, w);
        },
        IrInst::LoadMsr => assert(follows(IrInst::LoadMsr, off, n, w, m)) by {
            reveal(follows);
            reveal(lowered);
            reveal(image_holds);
            step_load_msr(m);
            lemma_load_word(MSR_WORD as int, w);
        },
        IrInst::LoadSrr0 => assert(follows(IrInst::LoadSrr0, off, n, w, m)) by {
            reveal(follows);
            reveal(lowered);
            reveal(image_holds);
            step_load_srr0(m);
            lemma_load_word(SRR_WORD as int, w);
        },
        IrInst::LoadSrr1 => assert(follows(IrInst::LoadSrr1, off, n, w, m)) by {
            reveal(follows);
            reveal(lowered);
            reveal(image_holds);
            step_load_srr1(m);
            lemma_load_word(SRR_WORD + 1, w);
        },
        IrInst::LoadTbLo => assert(follows(IrInst::LoadTbLo, off, n, w, m)) by {
            reveal(follows);
            reveal(lowered);
            reveal(image_holds);
            step_load_tb_lo(m);
            lemma_load_word(TB_WORD as int, w);
        },
        IrInst::LoadTbHi => assert(follows(IrInst::LoadTbHi, off, n, w, m)) by {
            reveal(follows);
            reveal(lowered);
            reveal(image_holds);
            step_load_tb_hi(m);
            lemma_load_word(TB_WORD + 1, w);
        },
        IrInst::LoadDec => assert(follows(IrInst::LoadDec, off, n, w, m)) by {
            reveal(follows);
            reveal(lowered);
            reveal(image_holds);
            step_load_dec(m);
            lemma_load_word(DEC_WORD as int, w);
        },
        IrInst::LoadFpscr => assert(follows(IrInst::LoadFpscr, off, n, w, m)) by {
            reveal(follows);
            reveal(lowered);
            reveal(image_holds);
            step_load_fpscr(m);
            lemma_load_word(FPSCR_WORD as int, w);
        },
        IrInst::LoadGpr(r) => assert(follows(IrInst::LoadGpr(r), off, n, w, m)) by {
            reveal(follows);
            reveal(lowered);
            reveal(image_holds);
            step_load_gpr(r, m);
            lemma_load_word(GPR_WORD + r, w);
        },
        IrInst::LoadSprg(r) => assert(follows(IrInst::LoadSprg(r), off, n, w, m)) by {
            reveal(follows);
            reveal(lowered);
            reveal(image_holds);
            step_load_sprg(r, m);
            lemma_load_word(SPRG_WORD + r, w);
        },
        IrInst::LoadGqr(r) => assert(follows(IrInst::LoadGqr(r), off, n, w, m)) by {
            reveal(follows);
            reveal(lowered);
            reveal(image_holds);
            step_load_gqr(r, m);
            lemma_load_word(GQR_WORD + r, w);
        },
        _ => {},
    }
}

/// Whether `inst` stores a 32-bit register.
spec fn is_store(inst: IrInst) -> bool {
    match inst {
        IrInst::StoreCr | IrInst::StoreLr | IrInst::StoreCtr | IrInst::StoreXer
        | IrInst::StoreMsr | IrInst::StoreSrr0 | IrInst::StoreSrr1 | IrInst::StoreDec
        | IrInst::StoreFpscr | IrInst::StorePC | IrInst::StoreGpr(_) | IrInst::StoreSprg(_)
        | IrInst::StoreGqr(_) => true,
        _ => false,
    }
}

/// Stores of 32-bit registers.
#[verifier::spinoff_prover]
proof fn lemma_store(inst: IrInst, off: RegOffsets, n: nat, w: Wasm, m: Machine, locals: Seq<IrTy>)
    requires
        mirrors(w, m, n),
        off.match_image(),
        operands_fit(inst, locals),
        is_store(inst),
        n < MAX_LOCALS,
    ensures
        follows(inst, off, n, w, m),
{
    let si32 = (n + 1) as u32;
    match inst {
        IrInst::StoreCr => assert(follows(IrInst::StoreCr, off, n, w, m)) by {
            reveal(follows);
            reveal(lowered);
            reveal(image_holds);
            step_store_cr(m);
            lemma_store_word(CR_WORD as int, si32, w);
        },
        IrInst::StoreLr => assert(follows(IrInst::StoreLr, off, n, w, m)) by {
            reveal(follows);
            reveal(lowered);
            reveal(image_holds);
            step_store_lr(m);
            lemma_store_word(LR_WORD as int, si32, w);
        },
        IrInst::StoreCtr => assert(follows(IrInst::StoreCtr, off, n, w, m)) by {
            reveal(follows);
            reveal(lowered);
            reveal(image_holds);
            step_store_ctr(m);
            lemma_store_word(CTR_WORD as int, si32, w);
        },
        IrInst::StoreXer => assert(follows(IrInst::StoreXer, off, n, w, m)) by {
            reveal(follows);
            reveal(lowered);
            reveal(image_holds);
            step_store_xer(m);
            lemma_store_word(XER_WORD as int, si32, w);
        },
        IrInst::StoreMsr => assert(follows(IrInst::StoreMsr, off, n, w, m)) by {
            reveal(follows);
            reveal(lowered);
            reveal(image_holds);
            step_store_msr(m);
            lemma_store_word(MSR_WORD as int, si32, w);
        },
        IrInst::StoreSrr0 => assert(follows(IrInst::StoreSrr0, off, n, w, m)) by {
            reveal(follows);
            reveal(lowered);
            reveal(image_holds);
            step_store_srr0(m);
            lemma_store_word(SRR_WORD as int, si32, w);
        },
        IrInst::StoreSrr1 => assert(follows(IrInst::StoreSrr1, off, n, w, m)) by {
            reveal(follows);
            reveal(lowered);
            reveal(image_holds);
            step_store_srr1(m);
            lemma_store_word(SRR_WORD + 1, si32, w);
        },
        IrInst::StoreDec => assert(follows(IrInst::StoreDec, off, n, w, m)) by {
            reveal(follows);
            reveal(lowered);
            reveal(image_holds);
            step_store_dec(m);
            lemma_store_word(DEC_WORD as int, si32, w);
        },
        IrInst::StoreFpscr => assert(follows(IrInst::StoreFpscr, off, n, w, m)) by {
            reveal(follows);
            reveal(lowered);
            reveal(image_holds);
            step_store_fpscr(m);
            lemma_store_word(FPSCR_WORD as int, si32, w);
        },
        IrInst::StorePC => assert(follows(IrInst::StorePC, off, n, w, m)) by {
            reveal(follows);
            reveal(lowered);
            reveal(image_holds);
            step_store_pc(m);
            lemma_store_word(PC_WORD as int, si32, w);
        },
        IrInst::StoreGpr(r) => assert(follows(IrInst::StoreGpr(r), off, n, w, m)) by {
            reveal(follows);
            reveal(lowered);
            reveal(image_holds);
            step_store_gpr(r, m);
            lemma_store_word(GPR_WORD + r, si32, w);
        },
        IrInst::StoreSprg(r) => assert(follows(IrInst::StoreSprg(r), off, n, w, m)) by {
            reveal(follows);
            reveal(lowered);
            reveal(image_holds);
            step_store_sprg(r, m);
            lemma_store_word(SPRG_WORD + r, si32, w);
        },
        IrInst::StoreGqr(r) => assert(follows(IrInst::StoreGqr(r), off, n, w, m)) by {
            reveal(follows);
            reveal(lowered);
            reveal(image_holds);
            step_store_gqr(r, m);
            lemma_store_word(GQR_WORD + r, si32, w);
        },
        _ => {},
    }
}

/// Whether `inst` is one of these: constants and what moves the stack.
spec fn is_plain(inst: IrInst) -> bool {
    match inst {
        IrInst::I32Const(_) | IrInst::F64Const(_) | IrInst::Drop | IrInst::F64Select => true,
        _ => false,
    }
}

/// Constants and what moves the stack.
#[verifier::spinoff_prover]
proof fn lemma_plain(inst: IrInst, off: RegOffsets, n: nat, w: Wasm, m: Machine)
    requires
        mirrors(w, m, n),
        is_plain(inst),
    ensures
        follows(inst, off, n, w, m),
{
    match inst {
        IrInst::I32Const(c) => assert(follows(IrInst::I32Const(c), off, n, w, m)) by {
            reveal(follows);
            reveal(lowered);
            step_i32_const(c, m);
            wasm_run_1(WasmInst::Const(ConstOp::I32(c)), w);
            step_const32(c, w);
        },
        IrInst::F64Const(bits) => assert(follows(IrInst::F64Const(bits), off, n, w, m)) by {
            reveal(follows);
            reveal(lowered);
            step_f64_const(bits, m);
            wasm_run_1(WasmInst::Const(ConstOp::F64(bits)), w);
            step_const_double(bits, w);
        },
        IrInst::Drop => assert(follows(IrInst::Drop, off, n, w, m)) by {
            reveal(follows);
            reveal(lowered);
            step_drop(m);
            wasm_run_1(WasmInst::Flow(FlowOp::Drop), w);
            step_flow(FlowOp::Drop, w);
        },
        IrInst::F64Select => assert(follows(IrInst::F64Select, off, n, w, m)) by {
            reveal(follows);
            reveal(lowered);
            step_f64_select(m);
            wasm_run_1(WasmInst::Flow(FlowOp::Select), w);
            step_flow(FlowOp::Select, w);
        },
        _ => {},
    }
}

/// Whether `inst` is one of these: accesses to locals.
spec fn is_local(inst: IrInst) -> bool {
    match inst {
        IrInst::LocalSet(_) | IrInst::LocalGet(_) | IrInst::LocalTee(_) => true,
        _ => false,
    }
}

/// Accesses to locals.
#[verifier::spinoff_prover]
proof fn lemma_local(inst: IrInst, off: RegOffsets, n: nat, w: Wasm, m: Machine, locals: Seq<IrTy>)
    requires
        mirrors(w, m, n),
        n == locals.len(),
        operands_fit(inst, locals),
        is_local(inst),
    ensures
        follows(inst, off, n, w, m),
{
    match inst {
        IrInst::LocalSet(l) => assert(follows(IrInst::LocalSet(l), off, n, w, m)) by {
            reveal(follows);
            reveal(lowered);
            step_local_set(l, m);
            wasm_run_1(WasmInst::Access(AccessOp::LocalSet(l.index)), w);
            step_access(AccessOp::LocalSet(l.index), w);
        },
        IrInst::LocalGet(l) => assert(follows(IrInst::LocalGet(l), off, n, w, m)) by {
            reveal(follows);
            reveal(lowered);
            step_local_get(l, m);
            wasm_run_1(WasmInst::Access(AccessOp::LocalGet(l.index)), w);
            step_access(AccessOp::LocalGet(l.index), w);
        },
        IrInst::LocalTee(l) => assert(follows(IrInst::LocalTee(l), off, n, w, m)) by {
            reveal(follows);
            reveal(lowered);
            step_local_tee(l, m);
            wasm_run_1(WasmInst::Access(AccessOp::LocalTee(l.index)), w);
            step_access(AccessOp::LocalTee(l.index), w);
        },
        _ => {},
    }
}

/// Whether `inst` is one of these: conversions through singles and through the bits of doubles.
spec fn is_single(inst: IrInst) -> bool {
    match inst {
        IrInst::F64RoundToSingle | IrInst::F64PromoteSingleBits | IrInst::I32DemoteToSingleBits
        | IrInst::I32FromF64LowBits => true,
        _ => false,
    }
}

/// Conversions through singles and through the bits of doubles.
#[verifier::spinoff_prover]
proof fn lemma_single(inst: IrInst, off: RegOffsets, n: nat, w: Wasm, m: Machine)
    requires
        mirrors(w, m, n),
        is_single(inst),
    ensures
        follows(inst, off, n, w, m),
{
    match inst {
        IrInst::F64RoundToSingle => assert(follows(IrInst::F64RoundToSingle, off, n, w, m)) by {
            reveal(follows);
            reveal(lowered);
            step_f64_round_to_single(m);
            wasm_run_2(WasmInst::Wide(WideOp::F32DemoteF64), WasmInst::Wide(WideOp::F64PromoteF32),
                w);
            step_wide(WideOp::F32DemoteF64, w);
            step_wide(WideOp::F64PromoteF32, w.with(wide_done(WideOp::F32DemoteF64, w.core)));
        },
        IrInst::F64PromoteSingleBits => assert(follows(IrInst::F64PromoteSingleBits, off, n, w,
            m)) by {
            reveal(follows);
            reveal(lowered);
            step_f64_promote_single_bits(m);
            wasm_run_2(WasmInst::Wide(WideOp::F32ReinterpretI32),
                WasmInst::Wide(WideOp::F64PromoteF32), w);
            step_wide(WideOp::F32ReinterpretI32, w);
            step_wide(WideOp::F64PromoteF32, w.with(wide_done(WideOp::F32ReinterpretI32, w.core)));
        },
        IrInst::I32DemoteToSingleBits => assert(follows(IrInst::I32DemoteToSingleBits, off, n, w,
            m)) by {
            reveal(follows);
            reveal(lowered);
            step_i32_demote_to_single_bits(m);
            wasm_run_2(WasmInst::Wide(WideOp::F32DemoteF64),
                WasmInst::Wide(WideOp::I32ReinterpretF32), w);
            step_wide(WideOp::F32DemoteF64, w);
            step_wide(WideOp::I32ReinterpretF32, w.with(wide_done(WideOp::F32DemoteF64, w.core)));
        },
        IrInst::I32FromF64LowBits => assert(follows(IrInst::I32FromF64LowBits, off, n, w, m)) by {
            reveal(follows);
            reveal(lowered);
            step_i32_from_f64_low_bits(m);
            wasm_run_2(WasmInst::Wide(WideOp::I64ReinterpretF64),
                WasmInst::Wide(WideOp::I32WrapI64), w);
            step_wide(WideOp::I64ReinterpretF64, w);
            step_wide(WideOp::I32WrapI64, w.with(wide_done(WideOp::I64ReinterpretF64, w.core)));
        },
        _ => {},
    }
}

/// Loading a double from words `k` and `k + 1` of the register image.
#[verifier::spinoff_prover]
proof fn lemma_load_double(k: int, w: Wasm)
    requires
        0 <= k < CPU_WORDS - 1,
        w.core.exit is None,
        w.skip == 0,
        w.core.locals[0] == Value::I32(w.base),
    ensures
        wasm_run(load_f64_code((4 * k) as u64), w) == w.with(
            w.core.pushed(Value::F64(join64(w.image[k + 1], w.image[k]))),
        ),
{
    let load = AccessOp::F64Load(place64((4 * k) as u64));
    wasm_run_2(WasmInst::Access(AccessOp::LocalGet(0)), WasmInst::Access(load), w);
    step_access(AccessOp::LocalGet(0), w);
    step_access(load, access_done(AccessOp::LocalGet(0), w));
    assert((w.base + (4 * k) as u64 - w.base) / 4 == k);
}

/// Storing a double to words `k` and `k + 1` of the register image.
#[verifier::spinoff_prover]
proof fn lemma_store_double(k: int, sf64: u32, w: Wasm)
    requires
        0 <= k < CPU_WORDS - 1,
        sf64 != 0,
        w.core.exit is None,
        w.skip == 0,
        w.core.locals[0] == Value::I32(w.base),
    ensures
        wasm_run(store_f64_code((4 * k) as u64, sf64), w) == (Wasm {
            core: Machine {
                stack: w.core.stack.rest(),
                locals: w.core.locals.insert(sf64, w.core.stack.top()),
                ..w.core
            },
            image: w.image.update(k, lo32(w.core.y())).update(k + 1, hi32(w.core.y())),
            ..w
        }),
{
    let (set, base, get) = (
        AccessOp::LocalSet(sf64),
        AccessOp::LocalGet(0),
        AccessOp::LocalGet(sf64),
    );
    let store = AccessOp::F64Store(place64((4 * k) as u64));
    wasm_run_4(
        WasmInst::Access(set),
        WasmInst::Access(base),
        WasmInst::Access(get),
        WasmInst::Access(store),
        w,
    );
    let w1 = access_done(set, w);
    let w2 = access_done(base, w1);
    let w3 = access_done(get, w2);
    step_access(set, w);
    step_access(base, w1);
    step_access(get, w2);
    step_access(store, w3);
    assert((w.base + (4 * k) as u64 - w.base) / 4 == k);
}

/// The words of a floating-point register.
#[verifier::spinoff_prover]
proof fn lemma_double_words(cpu: CpuView, r: int)
    requires
        0 <= r < 32,
    ensures
        cpu.word(FPR_WORD + 4 * r) == lo32(cpu.ps0[r]),
        cpu.word(FPR_WORD + 4 * r + 1) == hi32(cpu.ps0[r]),
        cpu.word(FPR_WORD + 4 * r + 2) == lo32(cpu.ps1[r]),
        cpu.word(FPR_WORD + 4 * r + 3) == hi32(cpu.ps1[r]),
{
}

/// Loads of halves of floating-point registers.
#[verifier::spinoff_prover]
proof fn lemma_double_load(
    inst: IrInst,
    off: RegOffsets,
    n: nat,
    w: Wasm,
    m: Machine,
    locals: Seq<IrTy>,
)
    requires
        mirrors(w, m, n),
        off.match_image(),
        operands_fit(inst, locals),
        inst is LoadFprPs0 || inst is LoadFprPs1,
    ensures
        follows(inst, off, n, w, m),
{
    reveal(image_holds);
    reveal(follows);
    reveal(lowered);
    let cpu = m.sys.cpu;
    match inst {
        IrInst::LoadFprPs0(r) => {
            step_load_fpr_ps0(r, m);
            lemma_load_double(FPR_WORD + 4 * r, w);
            lemma_double_words(cpu, r as int);
            join_of_halves(cpu.ps0[r as int]);
        },
        IrInst::LoadFprPs1(r) => {
            step_load_fpr_ps1(r, m);
            lemma_load_double(FPR_WORD + 4 * r + 2, w);
            lemma_double_words(cpu, r as int);
            join_of_halves(cpu.ps1[r as int]);
        },
        _ => {},
    }
}

/// Stores of halves of floating-point registers.
#[verifier::spinoff_prover]
proof fn lemma_double_store(
    inst: IrInst,
    off: RegOffsets,
    n: nat,
    w: Wasm,
    m: Machine,
    locals: Seq<IrTy>,
)
    requires
        mirrors(w, m, n),
        off.match_image(),
        operands_fit(inst, locals),
        inst is StoreFprPs0 || inst is StoreFprPs1,
        n < MAX_LOCALS,
    ensures
        follows(inst, off, n, w, m),
{
    reveal(image_holds);
    reveal(follows);
    reveal(lowered);
    let sf64 = (n + 2) as u32;
    let cpu = m.sys.cpu;
    let image = wasm_run(compiled_inst(inst, off, n), w).image;
    let after = step(inst, m).sys.cpu;
    match inst {
        IrInst::StoreFprPs0(r) => {
            step_store_fpr_ps0(r, m);
            lemma_store_double(FPR_WORD + 4 * r, sf64, w);
            lemma_double_words(after, r as int);
        },
        IrInst::StoreFprPs1(r) => {
            step_store_fpr_ps1(r, m);
            lemma_store_double(FPR_WORD + 4 * r + 2, sf64, w);
            lemma_double_words(after, r as int);
        },
        _ => {},
    }
    assert forall|k: int| 0 < k < CPU_WORDS implies #[trigger] image[k] == after.word(k) by {
        assert(w.image[k] == cpu.word(k));
    }
}

/// Facts on the bits of a word and of a 64-bit word.
#[verifier::spinoff_prover]
proof fn lemma_word_bits(b: u32, l: i64)
    ensures
        (-1i32) as u32 == 0xFFFF_FFFF,
        b ^ 0xFFFF_FFFF == !b,
        8u32 & 31 == 8,
        24u32 & 31 == 24,
        (((((b & 0xFF) << 24u32) | ((b & 0xFF00) << 8u32)) | ((b >> 8u32) & 0xFF00)) | (b >> 24u32))
            == ((b as u8 as u32) << 24u32) | (((b >> 8u32) as u8 as u32) << 16u32)
            | (((b >> 16u32) as u8 as u32) << 8u32) | ((b >> 24u32) as u8 as u32),
        (l >> 32u32) as u32 == (l >> 32u32) % 0x1_0000_0000,
{
    assert((-1i32) as u32 == 0xFFFF_FFFF && b ^ 0xFFFF_FFFF == !b && 8u32 & 31 == 8 && 24u32 & 31
        == 24
        && (((((b & 0xFF) << 24u32) | ((b & 0xFF00) << 8u32)) | ((b >> 8u32) & 0xFF00))
        | (b >> 24u32))
            == ((b as u8 as u32) << 24u32) | (((b >> 8u32) as u8 as u32) << 16u32)
            | (((b >> 16u32) as u8 as u32) << 8u32) | ((b >> 24u32) as u8 as u32)
        && (l >> 32u32) as u32 == (l >> 32u32) % 0x1_0000_0000) by (bit_vector);
}

/// The machine while bytes are moved: the word is in the scratch local.
spec fn busy(w: Wasm, si32: u32, stack: Stack) -> Wasm {
    w.with(
        Machine {
            stack,
            locals: w.core.locals.insert(si32, w.core.stack.top()),
            ..w.core
        },
    )
}

/// The word fetched.
proof fn busy_get(w: Wasm, si32: u32, stack: Stack)
    requires
        w.core.exit is None,
        w.skip == 0,
    ensures
        wasm_step(WasmInst::Access(AccessOp::LocalGet(si32)), busy(w, si32, stack)) == busy(
            w,
            si32,
            Stack::Cons(w.core.stack.top(), Box::new(stack)),
        ),
{
    step_access(AccessOp::LocalGet(si32), busy(w, si32, stack));
}

/// A constant pushed.
proof fn busy_const(w: Wasm, si32: u32, stack: Stack, c: i32)
    requires
        w.core.exit is None,
        w.skip == 0,
    ensures
        wasm_step(WasmInst::Const(ConstOp::I32(c)), busy(w, si32, stack)) == busy(
            w,
            si32,
            Stack::Cons(Value::I32(c as u32), Box::new(stack)),
        ),
{
    step_const32(c, busy(w, si32, stack));
}

/// An operation on words.
proof fn busy_op(w: Wasm, si32: u32, stack: Stack, op: I32Op)
    requires
        w.core.exit is None,
        w.skip == 0,
        op is And || op is Or || op is Shl || op is ShrU,
    ensures
        ({
            let a = stack.rest().top().word();
            let b = stack.top().word();
            wasm_step(WasmInst::I32(op), busy(w, si32, stack)) == busy(
                w,
                si32,
                Stack::Cons(
                    Value::I32(
                        match op {
                            I32Op::And => a & b,
                            I32Op::Or => a | b,
                            I32Op::Shl => a << (b & 31),
                            _ => a >> (b & 31),
                        },
                    ),
                    Box::new(stack.rest().rest()),
                ),
            )
        }),
{
    step_i32(op, busy(w, si32, stack));
}

/// Reversing the bytes of a word.
#[verifier::spinoff_prover]
proof fn lemma_bswap(off: RegOffsets, n: nat, w: Wasm, m: Machine)
    requires
        mirrors(w, m, n),
        n < MAX_LOCALS,
    ensures
        follows(IrInst::I32Bswap, off, n, w, m),
{
    reveal(follows);
    reveal(lowered);
    let si32 = (n + 1) as u32;
    let code = bswap_code(si32);
    let top = w.core.stack.top();
    let b = m.b();
    let s0 = w.core.stack.rest();
    lemma_word_bits(b, 0);
    step_access(AccessOp::LocalSet(si32), w);
    assert(wasm_run_to(code, 0, w) == w);
    assert(wasm_run_to(code, 1, w) == busy(w, si32, s0));
    let s1 = Stack::Cons(top, Box::new(s0));
    busy_get(w, si32, s0);
    assert(wasm_run_to(code, 2, w) == busy(w, si32, s1));
    let s2 = Stack::Cons(Value::I32(0xff), Box::new(s1));
    busy_const(w, si32, s1, 0xff);
    assert(wasm_run_to(code, 3, w) == busy(w, si32, s2));
    let s3 = Stack::Cons(Value::I32(b & 0xff), Box::new(s0));
    busy_op(w, si32, s2, I32Op::And);
    assert(wasm_run_to(code, 4, w) == busy(w, si32, s3));
    let s4 = Stack::Cons(Value::I32(24), Box::new(s3));
    busy_const(w, si32, s3, 24);
    assert(wasm_run_to(code, 5, w) == busy(w, si32, s4));
    let s5 = Stack::Cons(Value::I32((b & 0xff) << 24u32), Box::new(s0));
    busy_op(w, si32, s4, I32Op::Shl);
    assert(wasm_run_to(code, 6, w) == busy(w, si32, s5));
    let s6 = Stack::Cons(top, Box::new(s5));
    busy_get(w, si32, s5);
    assert(wasm_run_to(code, 7, w) == busy(w, si32, s6));
    let s7 = Stack::Cons(Value::I32(0xff00), Box::new(s6));
    busy_const(w, si32, s6, 0xff00);
    assert(wasm_run_to(code, 8, w) == busy(w, si32, s7));
    let s8 = Stack::Cons(Value::I32(b & 0xff00), Box::new(s5));
    busy_op(w, si32, s7, I32Op::And);
    assert(wasm_run_to(code, 9, w) == busy(w, si32, s8));
    let s9 = Stack::Cons(Value::I32(8), Box::new(s8));
    busy_const(w, si32, s8, 8);
    assert(wasm_run_to(code, 10, w) == busy(w, si32, s9));
    let s10 = Stack::Cons(Value::I32((b & 0xff00) << 8u32), Box::new(s5));
    busy_op(w, si32, s9, I32Op::Shl);
    assert(wasm_run_to(code, 11, w) == busy(w, si32, s10));
    let s11 = Stack::Cons(Value::I32(((b & 0xff) << 24u32) | ((b & 0xff00) << 8u32)), Box::new(s0));
    busy_op(w, si32, s10, I32Op::Or);
    assert(wasm_run_to(code, 12, w) == busy(w, si32, s11));
    let s12 = Stack::Cons(top, Box::new(s11));
    busy_get(w, si32, s11);
    assert(wasm_run_to(code, 13, w) == busy(w, si32, s12));
    let s13 = Stack::Cons(Value::I32(8), Box::new(s12));
    busy_const(w, si32, s12, 8);
    assert(wasm_run_to(code, 14, w) == busy(w, si32, s13));
    let s14 = Stack::Cons(Value::I32(b >> 8u32), Box::new(s11));
    busy_op(w, si32, s13, I32Op::ShrU);
    assert(wasm_run_to(code, 15, w) == busy(w, si32, s14));
    let s15 = Stack::Cons(Value::I32(0xff00), Box::new(s14));
    busy_const(w, si32, s14, 0xff00);
    assert(wasm_run_to(code, 16, w) == busy(w, si32, s15));
    let s16 = Stack::Cons(Value::I32((b >> 8u32) & 0xff00), Box::new(s11));
    busy_op(w, si32, s15, I32Op::And);
    assert(wasm_run_to(code, 17, w) == busy(w, si32, s16));
    let s17 = Stack::Cons(Value::I32((((b & 0xff) << 24u32) | ((b & 0xff00) << 8u32))
    | ((b >> 8u32) & 0xff00)), Box::new(s0));
    busy_op(w, si32, s16, I32Op::Or);
    assert(wasm_run_to(code, 18, w) == busy(w, si32, s17));
    let s18 = Stack::Cons(top, Box::new(s17));
    busy_get(w, si32, s17);
    assert(wasm_run_to(code, 19, w) == busy(w, si32, s18));
    let s19 = Stack::Cons(Value::I32(24), Box::new(s18));
    busy_const(w, si32, s18, 24);
    assert(wasm_run_to(code, 20, w) == busy(w, si32, s19));
    let s20 = Stack::Cons(Value::I32(b >> 24u32), Box::new(s17));
    busy_op(w, si32, s19, I32Op::ShrU);
    assert(wasm_run_to(code, 21, w) == busy(w, si32, s20));
    let s21 = Stack::Cons(Value::I32(((((b & 0xff) << 24u32) | ((b & 0xff00) << 8u32))
    | ((b >> 8u32) & 0xff00)) | (b >> 24u32)), Box::new(s0));
    busy_op(w, si32, s20, I32Op::Or);
    assert(wasm_run_to(code, 22, w) == busy(w, si32, s21));
    step_i32_bswap(m);
    assert(((((b & 0xff) << 24u32) | ((b & 0xff00) << 8u32)) | ((b >> 8u32) & 0xff00))
    | (b >> 24u32) == swapped(b));
}

/// Reversing the low two bytes of a word.
#[verifier::spinoff_prover]
proof fn lemma_bswap16(off: RegOffsets, n: nat, w: Wasm, m: Machine)
    requires
        mirrors(w, m, n),
        n < MAX_LOCALS,
    ensures
        follows(IrInst::I32Bswap16, off, n, w, m),
{
    reveal(follows);
    reveal(lowered);
    let si32 = (n + 1) as u32;
    let code = bswap16_code(si32);
    let top = w.core.stack.top();
    let b = m.b();
    let s0 = w.core.stack.rest();
    lemma_word_bits(b, 0);
    step_access(AccessOp::LocalSet(si32), w);
    assert(wasm_run_to(code, 0, w) == w);
    assert(wasm_run_to(code, 1, w) == busy(w, si32, s0));
    let s1 = Stack::Cons(top, Box::new(s0));
    busy_get(w, si32, s0);
    assert(wasm_run_to(code, 2, w) == busy(w, si32, s1));
    let s2 = Stack::Cons(Value::I32(0xff), Box::new(s1));
    busy_const(w, si32, s1, 0xff);
    assert(wasm_run_to(code, 3, w) == busy(w, si32, s2));
    let s3 = Stack::Cons(Value::I32(b & 0xff), Box::new(s0));
    busy_op(w, si32, s2, I32Op::And);
    assert(wasm_run_to(code, 4, w) == busy(w, si32, s3));
    let s4 = Stack::Cons(Value::I32(8), Box::new(s3));
    busy_const(w, si32, s3, 8);
    assert(wasm_run_to(code, 5, w) == busy(w, si32, s4));
    let s5 = Stack::Cons(Value::I32((b & 0xff) << 8u32), Box::new(s0));
    busy_op(w, si32, s4, I32Op::Shl);
    assert(wasm_run_to(code, 6, w) == busy(w, si32, s5));
    let s6 = Stack::Cons(top, Box::new(s5));
    busy_get(w, si32, s5);
    assert(wasm_run_to(code, 7, w) == busy(w, si32, s6));
    let s7 = Stack::Cons(Value::I32(8), Box::new(s6));
    busy_const(w, si32, s6, 8);
    assert(wasm_run_to(code, 8, w) == busy(w, si32, s7));
    let s8 = Stack::Cons(Value::I32(b >> 8u32), Box::new(s5));
    busy_op(w, si32, s7, I32Op::ShrU);
    assert(wasm_run_to(code, 9, w) == busy(w, si32, s8));
    let s9 = Stack::Cons(Value::I32(0xff), Box::new(s8));
    busy_const(w, si32, s8, 0xff);
    assert(wasm_run_to(code, 10, w) == busy(w, si32, s9));
    let s10 = Stack::Cons(Value::I32((b >> 8u32) & 0xff), Box::new(s5));
    busy_op(w, si32, s9, I32Op::And);
    assert(wasm_run_to(code, 11, w) == busy(w, si32, s10));
    let s11 = Stack::Cons(Value::I32(((b & 0xff) << 8u32) | ((b >> 8u32) & 0xff)), Box::new(s0));
    busy_op(w, si32, s10, I32Op::Or);
    assert(wasm_run_to(code, 12, w) == busy(w, si32, s11));
    step_i32_bswap16(m);
    assert(((b & 0xff) << 8u32) | ((b >> 8u32) & 0xff) == half_swapped(b));
}

/// An exclusive or.
proof fn step_xor(w: Wasm)
    requires
        w.core.exit is None,
        w.skip == 0,
    ensures
        wasm_step(WasmInst::I32(I32Op::Xor), w) == w.with(w.core.binary(w.core.a() ^ w.core.b())),
{
    reveal(wasm_step);
}

/// A shift of a signed 64-bit word to the right.
proof fn step_shift_signed(w: Wasm)
    requires
        w.core.exit is None,
        w.skip == 0,
        w.core.stack.top() == Value::I64(32),
    ensures
        ({
            let below = w.core.stack.rest();
            wasm_step(WasmInst::Wide(WideOp::I64ShrS), w) == w.with(
                (Machine { stack: below.rest(), ..w.core }).pushed(
                    Value::I64(((below.top().long() as i64) >> 32u32) as int),
                ),
            )
        }),
{
    reveal(wasm_step);
}

/// A shift of an unsigned 64-bit word to the right.
proof fn step_shift_unsigned(w: Wasm)
    requires
        w.core.exit is None,
        w.skip == 0,
        w.core.stack.top() == Value::I64(32),
    ensures
        ({
            let below = w.core.stack.rest();
            let word = (below.top().long() % 0x1_0000_0000_0000_0000) as u64;
            wasm_step(WasmInst::Wide(WideOp::I64ShrU), w) == w.with(
                (Machine { stack: below.rest(), ..w.core }).pushed(
                    Value::I64((word >> 32u32) as int),
                ),
            )
        }),
{
    reveal(wasm_step);
}

/// The low word of a 64-bit word.
proof fn step_wrap(w: Wasm)
    requires
        w.core.exit is None,
        w.skip == 0,
    ensures
        wasm_step(WasmInst::Wide(WideOp::I32WrapI64), w) == w.with(
            w.core.unary(wrapped(w.core.stack.top().long())),
        ),
{
    reveal(wasm_step);
}

/// Operations on words and 64-bit words that take two or three instructions.
#[verifier::spinoff_prover]
proof fn lemma_composed(inst: IrInst, off: RegOffsets, n: nat, w: Wasm, m: Machine)
    requires
        mirrors(w, m, n),
        inst is I32Not || inst is I64ShrS32 || inst is I64ShrU32,
    ensures
        follows(inst, off, n, w, m),
{
    let long = m.stack.top().long();
    let w1 = w.with(w.core.pushed(Value::I64(32)));
    match inst {
        IrInst::I32Not => assert(follows(IrInst::I32Not, off, n, w, m)) by {
            reveal(follows);
            reveal(lowered);
            step_i32_not(m);
            lemma_word_bits(m.b(), 0);
            wasm_run_2(WasmInst::Const(ConstOp::I32(MINUS_ONE)), WasmInst::I32(I32Op::Xor), w);
            step_const32(MINUS_ONE, w);
            step_xor(w.with(w.core.pushed32(MINUS_ONE as u32)));
        },
        IrInst::I64ShrS32 => assert(follows(IrInst::I64ShrS32, off, n, w, m)) by {
            reveal(follows);
            reveal(lowered);
            step_i64_shr_s32(m);
            lemma_word_bits(0, long as i64);
            wasm_run_3(
                WasmInst::Const(ConstOp::I64(32)),
                WasmInst::Wide(WideOp::I64ShrS),
                WasmInst::Wide(WideOp::I32WrapI64),
                w,
            );
            step_const64(32, w);
            step_shift_signed(w1);
            step_wrap(wasm_step(WasmInst::Wide(WideOp::I64ShrS), w1));
        },
        IrInst::I64ShrU32 => assert(follows(IrInst::I64ShrU32, off, n, w, m)) by {
            reveal(follows);
            reveal(lowered);
            step_i64_shr_u32(m);
            let v = (long % 0x1_0000_0000_0000_0000) as u64;
            assert(v >> 32 == v / 0x1_0000_0000) by {
                vstd::bits::lemma_u64_shr_is_div(v, 32);
                vstd::arithmetic::power2::lemma2_to64();
            }
            wasm_run_3(
                WasmInst::Const(ConstOp::I64(32)),
                WasmInst::Wide(WideOp::I64ShrU),
                WasmInst::Wide(WideOp::I32WrapI64),
                w,
            );
            step_const64(32, w);
            step_shift_unsigned(w1);
            step_wrap(wasm_step(WasmInst::Wide(WideOp::I64ShrU), w1));
        },
        _ => {},
    }
}

/// Whether `inst` leaves the block.
pub open spec fn leaves(inst: IrInst) -> bool {
    match inst {
        IrInst::ReturnStatic(_)
        | IrInst::ReturnDynamic
        | IrInst::BranchIf { .. }
        | IrInst::BranchRegIf { .. } => true,
        _ => false,
    }
}

/// Whether compiled code in `w` has left the block as the intermediate representation
/// in `m` has: with the same registers and memory, and towards the same program counter.
/// The result of the function is the program counter, or 0 where it has been stored to
/// the register image.
pub open spec fn left_alike(w: Wasm, m: Machine) -> bool {
    &&& m.exit is Some
    &&& image_holds(w.image, m.sys.cpu)
    &&& w.core.sys.ram == m.sys.ram
    &&& {
        ||| w.core.exit == m.exit
        ||| w.core.exit == Some(0u32) && m.exit == Some(w.image[PC_WORD as int])
    }
}

/// Code of a leaving instruction, with the end of the function behind it.
spec fn leaving_code(inst: IrInst, off: RegOffsets, n: nat) -> Seq<WasmInst> {
    compiled_inst(inst, off, n) + seq![WasmInst::Flow(FlowOp::End)]
}

/// Leaving for a known place.
#[verifier::spinoff_prover]
proof fn lemma_return_static(pc: u32, off: RegOffsets, n: nat, w: Wasm, m: Machine)
    requires
        mirrors(w, m, n),
    ensures
        left_alike(
            wasm_run(leaving_code(IrInst::ReturnStatic(pc), off, n), w),
            step(IrInst::ReturnStatic(pc), m),
        ),
{
    reveal(lowered);
    let end = WasmInst::Flow(FlowOp::End);
    let i1 = WasmInst::Const(ConstOp::I32(pc as i32));
    let i2 = WasmInst::Flow(FlowOp::Return);
    step_return_static(pc, m);
    lemma_constant(pc);
    wasm_run_in_pieces(compiled_inst(IrInst::ReturnStatic(pc), off, n), seq![end], w);
    wasm_run_2(i1, i2, w);
    let w1 = w.with(w.core.pushed32(pc));
    let w2 = flow_done(FlowOp::Return, w1);
    step_const32(pc as i32, w);
    step_flow(FlowOp::Return, w1);
    wasm_run_1(end, w2);
    step_ended(end, w2);
}

/// Leaving for the place on top of the stack.
#[verifier::spinoff_prover]
proof fn lemma_return_dynamic(off: RegOffsets, n: nat, w: Wasm, m: Machine)
    requires
        mirrors(w, m, n),
        off.match_image(),
        n < MAX_LOCALS,
    ensures
        left_alike(
            wasm_run(leaving_code(IrInst::ReturnDynamic, off, n), w),
            step(IrInst::ReturnDynamic, m),
        ),
{
    reveal(lowered);
    reveal(image_holds);
    let end = WasmInst::Flow(FlowOp::End);
    let si32 = (n + 1) as u32;
    let store = store_i32_code(off.pc, si32);
    let i1 = WasmInst::Access(AccessOp::LocalGet(si32));
    let i2 = WasmInst::Flow(FlowOp::Return);
    step_return_dynamic(m);
    wasm_run_in_pieces(compiled_inst(IrInst::ReturnDynamic, off, n), seq![end], w);
    wasm_run_in_pieces(store, seq![i1, i2], w);
    lemma_store_word(PC_WORD as int, si32, w);
    let w0 = wasm_run(store, w);
    wasm_run_2(i1, i2, w0);
    let w1 = access_done(AccessOp::LocalGet(si32), w0);
    let w2 = flow_done(FlowOp::Return, w1);
    step_access(AccessOp::LocalGet(si32), w0);
    step_flow(FlowOp::Return, w1);
    wasm_run_1(end, w2);
    step_ended(end, w2);
}

/// Leaving for one of two known places.
#[verifier::spinoff_prover]
proof fn lemma_branch_if(
    taken: u32,
    fallthrough: u32,
    off: RegOffsets,
    n: nat,
    w: Wasm,
    m: Machine,
)
    requires
        mirrors(w, m, n),
    ensures
        left_alike(
            wasm_run(leaving_code(IrInst::BranchIf { taken, fallthrough }, off, n), w),
            step(IrInst::BranchIf { taken, fallthrough }, m),
        ),
{
    reveal(lowered);
    let end = WasmInst::Flow(FlowOp::End);
    let i1 = WasmInst::Flow(FlowOp::If);
    let i2 = WasmInst::Const(ConstOp::I32(taken as i32));
    let i3 = WasmInst::Flow(FlowOp::Return);
    let i5 = WasmInst::Const(ConstOp::I32(fallthrough as i32));
    let code = compiled_inst(IrInst::BranchIf { taken, fallthrough }, off, n);
    step_branch_if(taken, fallthrough, m);
    lemma_constant(taken);
    lemma_constant(fallthrough);
    wasm_run_in_pieces(code, seq![end], w);
    wasm_run_5(i1, i2, i3, end, i5, w);
    let w1 = flow_done(FlowOp::If, w);
    step_flow(FlowOp::If, w);
    if m.b() != 0 {
        let w2 = w1.with(w1.core.pushed32(taken));
        let w3 = flow_done(FlowOp::Return, w2);
        step_const32(taken as i32, w1);
        step_flow(FlowOp::Return, w2);
        step_ended(end, w3);
        step_ended(i5, w3);
        wasm_run_1(end, w3);
    } else {
        let w4 = Wasm { skip: 0, ..w1 };
        let w5 = w4.with(w4.core.pushed32(fallthrough));
        step_skipped(i2, w1);
        step_skipped(i3, w1);
        step_skipped(end, w1);
        step_const32(fallthrough as i32, w4);
        wasm_run_1(end, w5);
        step_flow(FlowOp::End, w5);
    }
}

/// Leaving for the place in a local or for a known one.
#[verifier::spinoff_prover]
proof fn lemma_branch_reg_if(
    reg_local: IrLocal,
    fallthrough: u32,
    off: RegOffsets,
    n: nat,
    w: Wasm,
    m: Machine,
)
    requires
        mirrors(w, m, n),
        off.match_image(),
        0 < reg_local.index <= n,
    ensures
        left_alike(
            wasm_run(leaving_code(IrInst::BranchRegIf { reg_local, fallthrough }, off, n), w),
            step(IrInst::BranchRegIf { reg_local, fallthrough }, m),
        ),
{
    reveal(lowered);
    reveal(image_holds);
    let end = WasmInst::Flow(FlowOp::End);
    let get = AccessOp::LocalGet(reg_local.index);
    let store = AccessOp::I32Store(place32(off.pc));
    let i1 = WasmInst::Flow(FlowOp::If);
    let i2 = WasmInst::Access(AccessOp::LocalGet(0));
    let i3 = WasmInst::Access(get);
    let i4 = WasmInst::Access(store);
    let i5 = WasmInst::Const(ConstOp::I32(0));
    let i6 = WasmInst::Flow(FlowOp::Return);
    let i8 = WasmInst::Const(ConstOp::I32(fallthrough as i32));
    let code = compiled_inst(IrInst::BranchRegIf { reg_local, fallthrough }, off, n);
    step_branch_reg_if(reg_local, fallthrough, m);
    lemma_constant(fallthrough);
    wasm_run_in_pieces(code, seq![end], w);
    wasm_run_8(i1, i2, i3, i4, i5, i6, end, i8, w);
    let w1 = flow_done(FlowOp::If, w);
    step_flow(FlowOp::If, w);
    if m.b() != 0 {
        let w2 = access_done(AccessOp::LocalGet(0), w1);
        let w3 = access_done(get, w2);
        let w4 = access_done(store, w3);
        let w5 = w4.with(w4.core.pushed32(0));
        let w6 = flow_done(FlowOp::Return, w5);
        step_access(AccessOp::LocalGet(0), w1);
        step_access(get, w2);
        step_access(store, w3);
        step_const32(0, w4);
        step_flow(FlowOp::Return, w5);
        step_ended(end, w6);
        step_ended(i8, w6);
        wasm_run_1(end, w6);
        assert(w3.slot(w3.core.a(), off.pc) == PC_WORD);
    } else {
        let w7 = Wasm { skip: 0, ..w1 };
        let w8 = w7.with(w7.core.pushed32(fallthrough));
        step_skipped(i2, w1);
        step_skipped(i3, w1);
        step_skipped(i4, w1);
        step_skipped(i5, w1);
        step_skipped(i6, w1);
        step_skipped(end, w1);
        step_const32(fallthrough as i32, w7);
        wasm_run_1(end, w8);
        step_flow(FlowOp::End, w8);
    }
}

/// Compiled code for an instruction that leaves the block leaves it alike.
#[verifier::spinoff_prover]
proof fn lemma_leave(
    inst: IrInst,
    off: RegOffsets,
    w: Wasm,
    m: Machine,
    locals: Seq<IrTy>,
)
    requires
        mirrors(w, m, locals.len()),
        off.match_image(),
        operands_fit(inst, locals),
        leaves(inst),
        locals.len() < MAX_LOCALS,
    ensures
        left_alike(wasm_run(leaving_code(inst, off, locals.len()), w), step(inst, m)),
{
    let n = locals.len();
    match inst {
        IrInst::ReturnStatic(pc) => lemma_return_static(pc, off, n, w, m),
        IrInst::ReturnDynamic => lemma_return_dynamic(off, n, w, m),
        IrInst::BranchIf { taken, fallthrough } => lemma_branch_if(
            taken,
            fallthrough,
            off,
            n,
            w,
            m,
        ),
        IrInst::BranchRegIf { reg_local, fallthrough } => lemma_branch_reg_if(
            reg_local,
            fallthrough,
            off,
            n,
            w,
            m,
        ),
        _ => {},
    }
}

/// Compiled code for an instruction that stays in the block follows it.
#[verifier::spinoff_prover]
proof fn lemma_inst(inst: IrInst, off: RegOffsets, w: Wasm, m: Machine, locals: Seq<IrTy>)
    requires
        mirrors(w, m, locals.len()),
        off.match_image(),
        operands_fit(inst, locals),
        !leaves(inst),
        !(inst is RaiseException),
        locals.len() < MAX_LOCALS,
    ensures
        follows(inst, off, locals.len(), w, m),
{
    let n = locals.len();
    if is_i32(inst) {
        lemma_i32(inst, off, n, w, m);
    } else if is_test(inst) {
        lemma_test(inst, off, n, w, m);
    } else if is_f64(inst) {
        lemma_f64(inst, off, n, w, m);
    } else if is_wide(inst) {
        lemma_wide(inst, off, n, w, m);
    } else if is_call(inst) {
        lemma_call(inst, off, n, w, m);
    } else if is_load(inst) {
        lemma_load(inst, off, n, w, m, locals);
    } else if is_store(inst) {
        lemma_store(inst, off, n, w, m, locals);
    } else if is_plain(inst) {
        lemma_plain(inst, off, n, w, m);
    } else if is_local(inst) {
        lemma_local(inst, off, n, w, m, locals);
    } else if is_single(inst) {
        lemma_single(inst, off, n, w, m);
    } else if inst is LoadFprPs0 || inst is LoadFprPs1 {
        lemma_double_load(inst, off, n, w, m, locals);
    } else if inst is StoreFprPs0 || inst is StoreFprPs1 {
        lemma_double_store(inst, off, n, w, m, locals);
    } else if inst is I32Bswap {
        lemma_bswap(off, n, w, m);
    } else if inst is I32Bswap16 {
        lemma_bswap16(off, n, w, m);
    } else {
        lemma_composed(inst, off, n, w, m);
    }
}

/// Code that types at its end was open before its last instruction, which has left the
/// block only if nothing can follow.
#[verifier::spinoff_prover]
proof fn lemma_last_state(state: TyState, inst: IrInst, locals: Seq<IrTy>)
    ensures
        ty_step(state, inst, locals) is Open ==> state is Open && !leaves(inst)
            && !(inst is RaiseException),
        ty_step(state, inst, locals) is Closed ==> state is Open && (leaves(inst)
            || inst is RaiseException),
        !(ty_step(state, inst, locals) is Bad) ==> operands_fit(inst, locals),
{
}

/// Compiled straight-line code follows the intermediate representation.
#[verifier::spinoff_prover]
proof fn lemma_straight(
    insts: Seq<IrInst>,
    locals: Seq<IrTy>,
    off: RegOffsets,
    w: Wasm,
    m: Machine,
)
    requires
        ty_run(insts, locals, empty_stack()) is Open,
        off.match_image(),
        mirrors(w, m, locals.len()),
        locals.len() < MAX_LOCALS,
    ensures
        ({
            let n = locals.len();
            let code = lowered_all(insts, off, (n + 1) as u32, (n + 2) as u32);
            mirrors(wasm_run(code, w), run(insts, m), n)
        }),
    decreases insts.len(),
{
    reveal(ty_run);
    let n = locals.len();
    if insts.len() > 0 {
        let init = insts.drop_last();
        let last = insts.last();
        let code = lowered_all(init, off, (n + 1) as u32, (n + 2) as u32);
        lemma_last_state(ty_run(init, locals, empty_stack()), last, locals);
        lemma_straight(init, locals, off, w, m);
        let w1 = wasm_run(code, w);
        let m1 = run(init, m);
        assert(insts =~= init + seq![last]);
        run_in_pieces(init, seq![last], m);
        run_1(last, m1);
        wasm_run_in_pieces(code, compiled_inst(last, off, n), w);
        lemma_inst(last, off, w1, m1, locals);
        reveal(follows);
    }
}

/// A compiled block does what its intermediate representation means: from matching
/// registers, memory and locals it leaves towards the same program counter, with
/// matching registers and memory. A block that ends by raising an exception goes through
/// the host and is left out.
#[verifier::spinoff_prover]
pub proof fn compiled_code_is_faithful(
    insts: Seq<IrInst>,
    locals: Seq<IrTy>,
    off: RegOffsets,
    w: Wasm,
    m: Machine,
)
    requires
        well_typed(insts, locals),
        off.match_image(),
        mirrors(w, m, locals.len()),
        locals.len() < MAX_LOCALS,
        run(insts, m).exit is Some,
    ensures
        left_alike(wasm_run(block_code(insts, locals.len(), off), w), run(insts, m)),
{
    reveal(ty_run);
    let n = locals.len();
    let end = WasmInst::Flow(FlowOp::End);
    let init = insts.drop_last();
    let last = insts.last();
    let code = lowered_all(init, off, (n + 1) as u32, (n + 2) as u32);
    lemma_last_state(ty_run(init, locals, empty_stack()), last, locals);
    lemma_straight(init, locals, off, w, m);
    let w1 = wasm_run(code, w);
    let m1 = run(init, m);
    assert(insts =~= init + seq![last]);
    run_in_pieces(init, seq![last], m);
    run_1(last, m1);
    assert(leaves(last)) by {
        reveal(step);
    }
    assert(block_code(insts, n, off) =~= code + leaving_code(last, off, n));
    wasm_run_in_pieces(code, leaving_code(last, off, n), w);
    lemma_leave(last, off, w1, m1, locals);
}

/// A compiled block does what the interpreter does with its instructions: registers,
/// memory and the place where the guest goes on agree. Instructions on which translated
/// code and the interpreter differ are left out.
#[verifier::spinoff_prover]
pub proof fn compiled_blocks_agree(
    instructions: Seq<(u32, Ins)>,
    off: RegOffsets,
    w: Wasm,
    m: Machine,
)
    requires
        0 < instructions.len(),
        decoded(instructions).locals.len() < MAX_LOCALS,
        all_agree(instructions.take(block_length(instructions) as int), m.sys),
        off.match_image(),
        ready(m),
        mirrors(w, m, decoded(instructions).locals.len()),
    ensures
        ({
            let block = decoded(instructions);
            let taken = instructions.take(block_length(instructions) as int);
            let guest = interpreted(taken, m.sys);
            let (pc, ins) = taken.last();
            let goes_on = if ends_block(ins.op) && !(ins.op is Mtmsr) {
                guest.cpu.pc
            } else {
                next_pc(pc)
            };
            let after = wasm_run(block_code(block.insts, block.locals.len(), off), w);
            &&& image_holds(after.image, guest.cpu)
            &&& after.core.sys.ram == guest.ram
            &&& {
                ||| after.core.exit == Some(goes_on)
                ||| after.core.exit == Some(0u32) && after.image[PC_WORD as int] == goes_on
            }
        }),
{
    reveal(image_holds);
    let block = decoded(instructions);
    let taken = instructions.take(block_length(instructions) as int);
    blocks_agree(instructions, m);
    decoded_is_well_typed(instructions);
    block_is_prefix(instructions);
    compiled_code_is_faithful(block.insts, block.locals, off, w, m);
    let cpu = run(block.insts, m).sys.cpu;
    let guest = interpreted(taken, m.sys).cpu;
    assert forall|k: int| 0 < k < CPU_WORDS implies guest.word(k) == #[trigger] cpu.word(k) by {}
}

} // verus!
