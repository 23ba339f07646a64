//! Translated code does what the interpreter does.

use vstd::prelude::*;

use super::inst::IrInst::{
    I32Add, I32And, I32Clz, I32Const, I32DivS, I32DivU, I32Eq, I32Eqz, I32Extend16S, I32LtU, I32Mul,
    I32Not, I32Or, I32Rotl, I32Shl, I32ShrU, I32Sub, I32Xor, I64ExtendI32S, I64ExtendI32U, I64Mul,
    I64ShrS32, I64ShrU32, LoadCr, LoadCtr, LoadGpr, LoadLr, LoadMsr, LoadSrr0, LoadSrr1, LoadXer,
    LocalGet, LocalSet, LocalTee, ReadU16, ReadU32, ReadU8, ReturnDynamic, ReturnStatic, StoreCtr,
    StoreGpr, StoreLr, StoreMsr, WriteU16, WriteU32, WriteU8,
};
use super::inst::{local_at, IrInst, IrTy};
use super::meaning::{
    run, run_1, run_2, run_3, run_4, run_5, run_6, run_7, run_8, run_in_pieces, step_return_static,
    truth, Machine, Stack, Value,
};
use super::pieces::{
    lemma_bits, lemma_carry, lemma_carry_bits, lemma_compare_signed, lemma_compare_unsigned,
    lemma_constant, lemma_half, lemma_result, lemma_signed, lemma_truth, ready,
};
use super::translate::{
    add_const_code, arithmetic_code, bcctr_options, block_length, branch_code, branch_cond_code,
    branch_target, bulk_code, carry_add_code, carry_code, carry_sub_code, compare_code,
    compare_signed_code, compare_unsigned_code, decoded, ea_d_code, ea_x_code, ends_block,
    ignores_condition, ignores_counter, leave_code, link_code, load_code, load_multiple_code,
    logic_code, next_pc, rotate_code, rotate_family_code, rotate_mask, shift_code, spr_load,
    spr_store, store_code, store_multiple_code, system_code, translate, translate_all, unless_code,
    MAX_LOCALS, MINUS_ONE,
};
use super::typing::block_is_prefix;
use crate::bytes::be32_at;
use crate::disasm::{Ins, Opcode};
use crate::gekko::{CpuView, SRR1_TO_MSR_MASK};
use crate::ppcint::arithmetic::{
    immediate, signed_high, signed_quotient, unsigned_high, unsigned_quotient, wrapped,
};
use crate::ppcint::branch::{condition_holds, counted, counter_holds};
use crate::ppcint::compare::extended16;
use crate::ppcint::interpreter::effect;
use crate::ppcint::logic::rotated;
use crate::ppcint::memory::{word_address, words_mapped};
use crate::ppcint::system::{bit, mapped, physical, Fault, SystemView, XER_CA};

verus! {

/// Whether the machine `m` has become `after` by what the interpreter does with
/// `ins` at address `pc`. Only a branch looks at the program counter; code leaves it
/// alone, and says where to go on when it returns.
pub open spec fn carried_out(after: Machine, m: Machine, ins: Ins, pc: u32) -> bool {
    match effect(ins, m.sys.with_pc(pc)) {
        Err(_) => false,
        Ok(want) => {
            &&& after.sys == want.with_pc(m.sys.cpu.pc)
            &&& if ends_block(ins.op) {
                after.exit == Some(
                    if ins.op is Mtmsr {
                        next_pc(pc)
                    } else {
                        want.cpu.pc
                    },
                )
            } else {
                ready(after)
            }
        },
    }
}

/// Whether both kinds of execution keep special-purpose register `spr`: XER, LR, CTR,
/// SRR0 or SRR1.
pub open spec fn kept_special(spr: u16) -> bool {
    spr == 1 || spr == 8 || spr == 9 || spr == 26 || spr == 27
}

proof fn lemma_add(ins: Ins, pc: u32, n: nat, m: Machine)
    requires
        ready(m),
        ins.op is Add,
        n <= MAX_LOCALS,
        !ins.field_oe(),
    ensures
        carried_out(run(translate(ins, pc, n), m), m, ins, pc),
{
    reveal(arithmetic_code);
    broadcast use crate::ppcir::meaning::group_steps;

    let a = m.sys.gpr(ins.gpr_a());
    let b = m.sys.gpr(ins.gpr_b());
    let p1 = seq![LoadGpr(ins.gpr_a()), LoadGpr(ins.gpr_b()), I32Add];
    run_3(LoadGpr(ins.gpr_a()), LoadGpr(ins.gpr_b()), I32Add, m);
    lemma_result(p1, ins.gpr_d(), ins.field_rc(), n, m, wrapped(a + b));
}

proof fn lemma_addi(ins: Ins, pc: u32, n: nat, m: Machine)
    requires
        ready(m),
        ins.op is Addi,
        n <= MAX_LOCALS,
    ensures
        carried_out(run(translate(ins, pc, n), m), m, ins, pc),
{
    reveal(arithmetic_code);
    broadcast use crate::ppcir::meaning::group_steps;

    let p1 = ea_d_code(ins.gpr_a(), ins.field_simm() as i32);
    let first = LoadGpr(ins.gpr_a());
    let second = I32Const(ins.field_simm() as i32);
    run_1(first, m);
    run_1(second, m);
    run_3(first, second, I32Add, m);
    let m1 = run(p1, m);
    let p2 = seq![StoreGpr(ins.gpr_d())];
    run_1(StoreGpr(ins.gpr_d()), m1);
    run_in_pieces(p1, p2, m);
    let q2 = p1 + p2;
}

proof fn lemma_addis(ins: Ins, pc: u32, n: nat, m: Machine)
    requires
        ready(m),
        ins.op is Addis,
        n <= MAX_LOCALS,
    ensures
        carried_out(run(translate(ins, pc, n), m), m, ins, pc),
{
    reveal(arithmetic_code);
    broadcast use crate::ppcir::meaning::group_steps;

    lemma_bits(ins.code, 0, 0, 0, 0);
    let p1 = add_const_code(ins.gpr_a(), (ins.field_uimm() as i32) << 16);
    let first = LoadGpr(ins.gpr_a());
    let second = I32Const((ins.field_uimm() as i32) << 16);
    run_1(first, m);
    run_1(second, m);
    run_3(first, second, I32Add, m);
    let m1 = run(p1, m);
    let p2 = seq![StoreGpr(ins.gpr_d())];
    run_1(StoreGpr(ins.gpr_d()), m1);
    run_in_pieces(p1, p2, m);
    let q2 = p1 + p2;
}

#[verifier::spinoff_prover]
proof fn lemma_subf(ins: Ins, pc: u32, n: nat, m: Machine)
    requires
        ready(m),
        ins.op is Subf,
        n <= MAX_LOCALS,
        !ins.field_rc(),
    ensures
        carried_out(run(translate(ins, pc, n), m), m, ins, pc),
{
    reveal(arithmetic_code);
    broadcast use crate::ppcir::meaning::group_steps;

    let a = m.sys.gpr(ins.gpr_a());
    let b = m.sys.gpr(ins.gpr_b());
    let p1 = seq![LoadGpr(ins.gpr_b()), LoadGpr(ins.gpr_a()), I32Sub];
    run_3(LoadGpr(ins.gpr_b()), LoadGpr(ins.gpr_a()), I32Sub, m);
    lemma_result(p1, ins.gpr_d(), ins.field_rc(), n, m, wrapped(b - a));
}

#[verifier::spinoff_prover]
proof fn lemma_neg(ins: Ins, pc: u32, n: nat, m: Machine)
    requires
        ready(m),
        ins.op is Neg,
        n <= MAX_LOCALS,
        !ins.field_oe(),
    ensures
        carried_out(run(translate(ins, pc, n), m), m, ins, pc),
{
    reveal(arithmetic_code);
    broadcast use crate::ppcir::meaning::group_steps;

    let a = m.sys.gpr(ins.gpr_a());
    lemma_constant(0);
    let p1 = seq![I32Const(0), LoadGpr(ins.gpr_a()), I32Sub];
    run_3(I32Const(0), LoadGpr(ins.gpr_a()), I32Sub, m);
    lemma_result(p1, ins.gpr_d(), ins.field_rc(), n, m, wrapped(-(a as int)));
}

proof fn lemma_mulli(ins: Ins, pc: u32, n: nat, m: Machine)
    requires
        ready(m),
        ins.op is Mulli,
        n <= MAX_LOCALS,
    ensures
        carried_out(run(translate(ins, pc, n), m), m, ins, pc),
{
    reveal(arithmetic_code);
    broadcast use crate::ppcir::meaning::group_steps;

    let p1 = seq![
        LoadGpr(ins.gpr_a()), I32Const(ins.field_simm() as i32), I32Mul, StoreGpr(ins.gpr_d()),
    ];
    run_4(
        LoadGpr(ins.gpr_a()), I32Const(ins.field_simm() as i32), I32Mul, StoreGpr(ins.gpr_d()), m,
    );
}

proof fn lemma_mullw(ins: Ins, pc: u32, n: nat, m: Machine)
    requires
        ready(m),
        ins.op is Mullw,
        n <= MAX_LOCALS,
        !ins.field_oe(),
    ensures
        carried_out(run(translate(ins, pc, n), m), m, ins, pc),
{
    reveal(arithmetic_code);
    broadcast use crate::ppcir::meaning::group_steps;

    let a = m.sys.gpr(ins.gpr_a());
    let b = m.sys.gpr(ins.gpr_b());
    let p1 = seq![LoadGpr(ins.gpr_a()), LoadGpr(ins.gpr_b()), I32Mul];
    run_3(LoadGpr(ins.gpr_a()), LoadGpr(ins.gpr_b()), I32Mul, m);
    lemma_result(p1, ins.gpr_d(), ins.field_rc(), n, m, ((a as i32) * (b as i32)) as i64 as u32);
}

proof fn lemma_mulhw(ins: Ins, pc: u32, n: nat, m: Machine)
    requires
        ready(m),
        ins.op is Mulhw,
        n <= MAX_LOCALS,
    ensures
        carried_out(run(translate(ins, pc, n), m), m, ins, pc),
{
    reveal(arithmetic_code);
    broadcast use crate::ppcir::meaning::group_steps;

    let a = m.sys.gpr(ins.gpr_a());
    let b = m.sys.gpr(ins.gpr_b());
    let p1 = seq![
        LoadGpr(ins.gpr_a()), I64ExtendI32S, LoadGpr(ins.gpr_b()), I64ExtendI32S, I64Mul,
        I64ShrS32,
    ];
    run_6(
        LoadGpr(ins.gpr_a()), I64ExtendI32S, LoadGpr(ins.gpr_b()), I64ExtendI32S, I64Mul,
        I64ShrS32, m,
    );
    lemma_result(p1, ins.gpr_d(), ins.field_rc(), n, m, signed_high(a, b));
}

proof fn lemma_mulhwu(ins: Ins, pc: u32, n: nat, m: Machine)
    requires
        ready(m),
        ins.op is Mulhwu,
        n <= MAX_LOCALS,
    ensures
        carried_out(run(translate(ins, pc, n), m), m, ins, pc),
{
    reveal(arithmetic_code);
    broadcast use crate::ppcir::meaning::group_steps;

    let a = m.sys.gpr(ins.gpr_a());
    let b = m.sys.gpr(ins.gpr_b());
    let p1 = seq![
        LoadGpr(ins.gpr_a()), I64ExtendI32U, LoadGpr(ins.gpr_b()), I64ExtendI32U, I64Mul,
        I64ShrU32,
    ];
    run_6(
        LoadGpr(ins.gpr_a()), I64ExtendI32U, LoadGpr(ins.gpr_b()), I64ExtendI32U, I64Mul,
        I64ShrU32, m,
    );
    assert(0 <= a * b < 0x1_0000_0000_0000_0000) by (nonlinear_arith);
    lemma_result(p1, ins.gpr_d(), ins.field_rc(), n, m, unsigned_high(a, b));
}

proof fn lemma_and(ins: Ins, pc: u32, n: nat, m: Machine)
    requires
        ready(m),
        ins.op is And,
        n <= MAX_LOCALS,
    ensures
        carried_out(run(translate(ins, pc, n), m), m, ins, pc),
{
    reveal(logic_code);
    broadcast use crate::ppcir::meaning::group_steps;

    let b = m.sys.gpr(ins.gpr_b());
    let s = m.sys.gpr(ins.gpr_s());
    let p1 = seq![LoadGpr(ins.gpr_s()), LoadGpr(ins.gpr_b()), I32And];
    run_3(LoadGpr(ins.gpr_s()), LoadGpr(ins.gpr_b()), I32And, m);
    lemma_result(p1, ins.gpr_a(), ins.field_rc(), n, m, s & b);
}

proof fn lemma_andc(ins: Ins, pc: u32, n: nat, m: Machine)
    requires
        ready(m),
        ins.op is Andc,
        n <= MAX_LOCALS,
    ensures
        carried_out(run(translate(ins, pc, n), m), m, ins, pc),
{
    reveal(logic_code);
    broadcast use crate::ppcir::meaning::group_steps;

    let b = m.sys.gpr(ins.gpr_b());
    let s = m.sys.gpr(ins.gpr_s());
    let p1 = seq![LoadGpr(ins.gpr_s()), LoadGpr(ins.gpr_b()), I32Not, I32And];
    run_4(LoadGpr(ins.gpr_s()), LoadGpr(ins.gpr_b()), I32Not, I32And, m);
    lemma_result(p1, ins.gpr_a(), ins.field_rc(), n, m, s & !b);
}

proof fn lemma_or(ins: Ins, pc: u32, n: nat, m: Machine)
    requires
        ready(m),
        ins.op is Or,
        n <= MAX_LOCALS,
        !ins.field_rc(),
    ensures
        carried_out(run(translate(ins, pc, n), m), m, ins, pc),
{
    reveal(logic_code);
    broadcast use crate::ppcir::meaning::group_steps;

    let b = m.sys.gpr(ins.gpr_b());
    let s = m.sys.gpr(ins.gpr_s());
    let p1 = seq![LoadGpr(ins.gpr_s()), LoadGpr(ins.gpr_b()), I32Or];
    run_3(LoadGpr(ins.gpr_s()), LoadGpr(ins.gpr_b()), I32Or, m);
    lemma_result(p1, ins.gpr_a(), ins.field_rc(), n, m, s | b);
}

proof fn lemma_xor(ins: Ins, pc: u32, n: nat, m: Machine)
    requires
        ready(m),
        ins.op is Xor,
        n <= MAX_LOCALS,
    ensures
        carried_out(run(translate(ins, pc, n), m), m, ins, pc),
{
    reveal(logic_code);
    broadcast use crate::ppcir::meaning::group_steps;

    let b = m.sys.gpr(ins.gpr_b());
    let s = m.sys.gpr(ins.gpr_s());
    let p1 = seq![LoadGpr(ins.gpr_s()), LoadGpr(ins.gpr_b()), I32Xor];
    run_3(LoadGpr(ins.gpr_s()), LoadGpr(ins.gpr_b()), I32Xor, m);
    lemma_result(p1, ins.gpr_a(), ins.field_rc(), n, m, s ^ b);
}

proof fn lemma_nor(ins: Ins, pc: u32, n: nat, m: Machine)
    requires
        ready(m),
        ins.op is Nor,
        n <= MAX_LOCALS,
    ensures
        carried_out(run(translate(ins, pc, n), m), m, ins, pc),
{
    reveal(logic_code);
    broadcast use crate::ppcir::meaning::group_steps;

    let b = m.sys.gpr(ins.gpr_b());
    let s = m.sys.gpr(ins.gpr_s());
    let p1 = seq![LoadGpr(ins.gpr_s()), LoadGpr(ins.gpr_b()), I32Or, I32Not];
    run_4(LoadGpr(ins.gpr_s()), LoadGpr(ins.gpr_b()), I32Or, I32Not, m);
    lemma_result(p1, ins.gpr_a(), ins.field_rc(), n, m, !(s | b));
}

proof fn lemma_andi(ins: Ins, pc: u32, n: nat, m: Machine)
    requires
        ready(m),
        ins.op is Andi_,
        n <= MAX_LOCALS,
        ins.field_rc(),
    ensures
        carried_out(run(translate(ins, pc, n), m), m, ins, pc),
{
    reveal(logic_code);
    broadcast use crate::ppcir::meaning::group_steps;

    let s = m.sys.gpr(ins.gpr_s());
    let p1 = seq![LoadGpr(ins.gpr_s()), I32Const(ins.field_uimm() as i32), I32And];
    run_3(LoadGpr(ins.gpr_s()), I32Const(ins.field_uimm() as i32), I32And, m);
    lemma_result(p1, ins.gpr_a(), true, n, m, s & (ins.field_uimm() as u32));
}

proof fn lemma_ori(ins: Ins, pc: u32, n: nat, m: Machine)
    requires
        ready(m),
        ins.op is Ori,
        n <= MAX_LOCALS,
    ensures
        carried_out(run(translate(ins, pc, n), m), m, ins, pc),
{
    reveal(logic_code);
    broadcast use crate::ppcir::meaning::group_steps;

    let p1 = seq![
        LoadGpr(ins.gpr_s()), I32Const(ins.field_uimm() as i32), I32Or, StoreGpr(ins.gpr_a()),
    ];
    run_4(LoadGpr(ins.gpr_s()), I32Const(ins.field_uimm() as i32), I32Or, StoreGpr(ins.gpr_a()), m);
}

proof fn lemma_xoris(ins: Ins, pc: u32, n: nat, m: Machine)
    requires
        ready(m),
        ins.op is Xoris,
        n <= MAX_LOCALS,
    ensures
        carried_out(run(translate(ins, pc, n), m), m, ins, pc),
{
    reveal(logic_code);
    broadcast use crate::ppcir::meaning::group_steps;

    lemma_bits(ins.code, 0, 0, 0, 0);
    let p1 = seq![
        LoadGpr(ins.gpr_s()), I32Const((ins.field_uimm() as i32) << 16), I32Xor,
        StoreGpr(ins.gpr_a()),
    ];
    run_4(
        LoadGpr(ins.gpr_s()), I32Const((ins.field_uimm() as i32) << 16), I32Xor,
        StoreGpr(ins.gpr_a()), m,
    );
}

proof fn lemma_cntlzw(ins: Ins, pc: u32, n: nat, m: Machine)
    requires
        ready(m),
        ins.op is Cntlzw,
        n <= MAX_LOCALS,
        !ins.field_rc(),
    ensures
        carried_out(run(translate(ins, pc, n), m), m, ins, pc),
{
    reveal(logic_code);
    broadcast use crate::ppcir::meaning::group_steps;

    let p1 = seq![LoadGpr(ins.gpr_s()), I32Clz, StoreGpr(ins.gpr_a())];
    run_3(LoadGpr(ins.gpr_s()), I32Clz, StoreGpr(ins.gpr_a()), m);
}

proof fn lemma_extsh(ins: Ins, pc: u32, n: nat, m: Machine)
    requires
        ready(m),
        ins.op is Extsh,
        n <= MAX_LOCALS,
    ensures
        carried_out(run(translate(ins, pc, n), m), m, ins, pc),
{
    reveal(logic_code);
    broadcast use crate::ppcir::meaning::group_steps;

    let s = m.sys.gpr(ins.gpr_s());
    let p1 = seq![LoadGpr(ins.gpr_s()), I32Extend16S];
    run_2(LoadGpr(ins.gpr_s()), I32Extend16S, m);
    lemma_result(p1, ins.gpr_a(), ins.field_rc(), n, m, extended16(s));
}

proof fn lemma_mfmsr(ins: Ins, pc: u32, n: nat, m: Machine)
    requires
        ready(m),
        ins.op is Mfmsr,
        n <= MAX_LOCALS,
    ensures
        carried_out(run(translate(ins, pc, n), m), m, ins, pc),
{
    reveal(system_code);
    broadcast use crate::ppcir::meaning::group_steps;

    let p1 = seq![LoadMsr, StoreGpr(ins.gpr_d())];
    run_2(LoadMsr, StoreGpr(ins.gpr_d()), m);
}

#[verifier::spinoff_prover]
proof fn lemma_addic(ins: Ins, pc: u32, n: nat, m: Machine)
    requires
        ready(m),
        ins.op is Addic,
        n <= MAX_LOCALS,
    ensures
        carried_out(run(translate(ins, pc, n), m), m, ins, pc),
{
    reveal(carry_add_code);
    broadcast use crate::ppcir::meaning::group_steps;

    let a = m.sys.gpr(ins.gpr_a());
    let ra_val = local_at(n + 1, IrTy::I32);
    let result = local_at(n + 2, IrTy::I32);
    let carry = local_at(n + 3, IrTy::I32);
    let imm = immediate(ins);
    let p1 = seq![
        LoadGpr(ins.gpr_a()), LocalTee(ra_val), I32Const(ins.field_simm() as i32), I32Add,
        LocalTee(result), LocalGet(ra_val), I32LtU, LocalSet(carry),
    ];
    run_8(
        LoadGpr(ins.gpr_a()), LocalTee(ra_val), I32Const(ins.field_simm() as i32), I32Add,
        LocalTee(result), LocalGet(ra_val), I32LtU, LocalSet(carry), m,
    );
    let m1 = run(p1, m);
    let p2 = carry_code(carry);
    lemma_carry(carry, m1, a + imm >= 0x1_0000_0000);
    run_in_pieces(p1, p2, m);
    let q2 = p1 + p2;
    let m2 = run(q2, m);
    let p3 = seq![LocalGet(result)];
    run_1(LocalGet(result), m2);
    run_in_pieces(q2, p3, m);
    let q3 = q2 + p3;
    let m3 = run(q3, m);
    let p4 = seq![StoreGpr(ins.gpr_d())];
    run_1(StoreGpr(ins.gpr_d()), m3);
    run_in_pieces(q3, p4, m);
    let q4 = q3 + p4;
}

#[verifier::spinoff_prover]
proof fn lemma_addic_record(ins: Ins, pc: u32, n: nat, m: Machine)
    requires
        ready(m),
        ins.op is Addic_,
        n <= MAX_LOCALS,
    ensures
        carried_out(run(translate(ins, pc, n), m), m, ins, pc),
{
    reveal(carry_add_code);
    broadcast use crate::ppcir::meaning::group_steps;

    let a = m.sys.gpr(ins.gpr_a());
    let ra_val = local_at(n + 1, IrTy::I32);
    let result = local_at(n + 2, IrTy::I32);
    let carry = local_at(n + 3, IrTy::I32);
    let imm = immediate(ins);
    let p1 = seq![
        LoadGpr(ins.gpr_a()), LocalTee(ra_val), I32Const(ins.field_simm() as i32), I32Add,
        LocalTee(result), LocalGet(ra_val), I32LtU, LocalSet(carry),
    ];
    run_8(
        LoadGpr(ins.gpr_a()), LocalTee(ra_val), I32Const(ins.field_simm() as i32), I32Add,
        LocalTee(result), LocalGet(ra_val), I32LtU, LocalSet(carry), m,
    );
    let m1 = run(p1, m);
    let p2 = carry_code(carry);
    lemma_carry(carry, m1, a + imm >= 0x1_0000_0000);
    run_in_pieces(p1, p2, m);
    let q2 = p1 + p2;
    let m2 = run(q2, m);
    let p3 = seq![LocalGet(result)];
    run_1(LocalGet(result), m2);
    run_in_pieces(q2, p3, m);
    let q3 = q2 + p3;
    lemma_result(q3, ins.gpr_d(), true, n + 3, m, wrapped(a + imm));
}

#[verifier::spinoff_prover]
proof fn lemma_addc(ins: Ins, pc: u32, n: nat, m: Machine)
    requires
        ready(m),
        ins.op is Addc,
        n <= MAX_LOCALS,
        !ins.field_oe(),
        !bit(m.sys.cpu.xer, XER_CA),
    ensures
        carried_out(run(translate(ins, pc, n), m), m, ins, pc),
{
    reveal(carry_add_code);
    broadcast use crate::ppcir::meaning::group_steps;

    let a = m.sys.gpr(ins.gpr_a());
    let b = m.sys.gpr(ins.gpr_b());
    let ra_val = local_at(n + 1, IrTy::I32);
    let result = local_at(n + 2, IrTy::I32);
    let carry = local_at(n + 3, IrTy::I32);
    let p1 = seq![
        LoadGpr(ins.gpr_a()), LocalTee(ra_val), LoadGpr(ins.gpr_b()), I32Add, LocalTee(result),
        LocalGet(ra_val), I32LtU, LocalSet(carry),
    ];
    run_8(
        LoadGpr(ins.gpr_a()), LocalTee(ra_val), LoadGpr(ins.gpr_b()), I32Add, LocalTee(result),
        LocalGet(ra_val), I32LtU, LocalSet(carry), m,
    );
    let m1 = run(p1, m);
    let p2 = carry_code(carry);
    lemma_carry(carry, m1, a + b >= 0x1_0000_0000);
    run_in_pieces(p1, p2, m);
    let q2 = p1 + p2;
    let m2 = run(q2, m);
    let p3 = seq![LocalGet(result)];
    run_1(LocalGet(result), m2);
    run_in_pieces(q2, p3, m);
    let q3 = q2 + p3;
    lemma_result(q3, ins.gpr_d(), ins.field_rc(), n + 3, m, wrapped(a + b));
}

#[verifier::spinoff_prover]
proof fn lemma_adde(ins: Ins, pc: u32, n: nat, m: Machine)
    requires
        ready(m),
        ins.op is Adde,
        n <= MAX_LOCALS,
        !ins.field_oe(),
    ensures
        carried_out(run(translate(ins, pc, n), m), m, ins, pc),
{
    reveal(carry_add_code);
    broadcast use crate::ppcir::meaning::group_steps;

    let a = m.sys.gpr(ins.gpr_a());
    let b = m.sys.gpr(ins.gpr_b());
    let ra_val = local_at(n + 1, IrTy::I32);
    let sum1 = local_at(n + 2, IrTy::I32);
    let c1 = local_at(n + 3, IrTy::I32);
    let ca_in = local_at(n + 4, IrTy::I32);
    let result = local_at(n + 5, IrTy::I32);
    let c2 = local_at(n + 6, IrTy::I32);
    let carry = local_at(n + 7, IrTy::I32);
    let ca = m.sys.carry_in();
    let first = wrapped(a + b);
    lemma_carry_bits(m.sys.cpu.xer);
    lemma_truth(first < a, wrapped(first + ca) < first);
    let p1 = seq![
        LoadGpr(ins.gpr_a()), LocalTee(ra_val), LoadGpr(ins.gpr_b()), I32Add, LocalTee(sum1),
        LocalGet(ra_val), I32LtU, LocalSet(c1),
    ];
    run_8(
        LoadGpr(ins.gpr_a()), LocalTee(ra_val), LoadGpr(ins.gpr_b()), I32Add, LocalTee(sum1),
        LocalGet(ra_val), I32LtU, LocalSet(c1), m,
    );
    let m1 = run(p1, m);
    let p2 = seq![LoadXer, I32Const(29), I32ShrU, I32Const(1), I32And, LocalSet(ca_in)];
    run_6(LoadXer, I32Const(29), I32ShrU, I32Const(1), I32And, LocalSet(ca_in), m1);
    run_in_pieces(p1, p2, m);
    let q2 = p1 + p2;
    let m2 = run(q2, m);
    let p3 = seq![
        LocalGet(sum1), LocalGet(ca_in), I32Add, LocalTee(result), LocalGet(sum1), I32LtU,
    ];
    run_6(LocalGet(sum1), LocalGet(ca_in), I32Add, LocalTee(result), LocalGet(sum1), I32LtU, m2);
    run_in_pieces(q2, p3, m);
    let q3 = q2 + p3;
    let m3 = run(q3, m);
    let p4 = seq![LocalSet(c2), LocalGet(c1), LocalGet(c2), I32Or, LocalSet(carry)];
    run_5(LocalSet(c2), LocalGet(c1), LocalGet(c2), I32Or, LocalSet(carry), m3);
    run_in_pieces(q3, p4, m);
    let q4 = q3 + p4;
    let m4 = run(q4, m);
    let p5 = carry_code(carry);
    lemma_carry(carry, m4, a + b + ca >= 0x1_0000_0000);
    run_in_pieces(q4, p5, m);
    let q5 = q4 + p5;
    let m5 = run(q5, m);
    let p6 = seq![LocalGet(result)];
    run_1(LocalGet(result), m5);
    run_in_pieces(q5, p6, m);
    let q6 = q5 + p6;
    lemma_result(q6, ins.gpr_d(), ins.field_rc(), n + 7, m, wrapped(a + b + ca));
}

#[verifier::spinoff_prover]
proof fn lemma_addze(ins: Ins, pc: u32, n: nat, m: Machine)
    requires
        ready(m),
        ins.op is Addze,
        n <= MAX_LOCALS,
        !ins.field_rc(),
    ensures
        carried_out(run(translate(ins, pc, n), m), m, ins, pc),
{
    reveal(carry_add_code);
    broadcast use crate::ppcir::meaning::group_steps;

    let a = m.sys.gpr(ins.gpr_a());
    let ra_val = local_at(n + 1, IrTy::I32);
    let ca_in = local_at(n + 2, IrTy::I32);
    let result = local_at(n + 3, IrTy::I32);
    let carry = local_at(n + 4, IrTy::I32);
    let ca = m.sys.carry_in();
    lemma_carry_bits(m.sys.cpu.xer);
    let p1 = seq![LoadGpr(ins.gpr_a()), LocalSet(ra_val)];
    run_2(LoadGpr(ins.gpr_a()), LocalSet(ra_val), m);
    let m1 = run(p1, m);
    let p2 = seq![LoadXer, I32Const(29), I32ShrU, I32Const(1), I32And, LocalSet(ca_in)];
    run_6(LoadXer, I32Const(29), I32ShrU, I32Const(1), I32And, LocalSet(ca_in), m1);
    run_in_pieces(p1, p2, m);
    let q2 = p1 + p2;
    let m2 = run(q2, m);
    let p3 = seq![
        LocalGet(ra_val), LocalGet(ca_in), I32Add, LocalTee(result), LocalGet(ra_val), I32LtU,
        LocalSet(carry),
    ];
    run_7(
        LocalGet(ra_val), LocalGet(ca_in), I32Add, LocalTee(result), LocalGet(ra_val), I32LtU,
        LocalSet(carry), m2,
    );
    run_in_pieces(q2, p3, m);
    let q3 = q2 + p3;
    let m3 = run(q3, m);
    let p4 = carry_code(carry);
    lemma_carry(carry, m3, a + ca >= 0x1_0000_0000);
    run_in_pieces(q3, p4, m);
    let q4 = q3 + p4;
    let m4 = run(q4, m);
    let p5 = seq![LocalGet(result)];
    run_1(LocalGet(result), m4);
    run_in_pieces(q4, p5, m);
    let q5 = q4 + p5;
    lemma_result(q5, ins.gpr_d(), ins.field_rc(), n + 4, m, wrapped(a + ca));
}

#[verifier::spinoff_prover]
proof fn lemma_subfc(ins: Ins, pc: u32, n: nat, m: Machine)
    requires
        ready(m),
        ins.op is Subfc,
        n <= MAX_LOCALS,
        !ins.field_rc(),
    ensures
        carried_out(run(translate(ins, pc, n), m), m, ins, pc),
{
    reveal(carry_sub_code);
    broadcast use crate::ppcir::meaning::group_steps;

    let a = m.sys.gpr(ins.gpr_a());
    let b = m.sys.gpr(ins.gpr_b());
    let ra_val = local_at(n + 1, IrTy::I32);
    let rb_val = local_at(n + 2, IrTy::I32);
    let carry = local_at(n + 3, IrTy::I32);
    lemma_truth(b < a, false);
    let p1 = seq![LoadGpr(ins.gpr_a()), LocalSet(ra_val), LoadGpr(ins.gpr_b()), LocalSet(rb_val)];
    run_4(LoadGpr(ins.gpr_a()), LocalSet(ra_val), LoadGpr(ins.gpr_b()), LocalSet(rb_val), m);
    let m1 = run(p1, m);
    let p2 = seq![LocalGet(rb_val), LocalGet(ra_val), I32LtU, I32Const(1), I32Xor, LocalSet(carry)];
    run_6(LocalGet(rb_val), LocalGet(ra_val), I32LtU, I32Const(1), I32Xor, LocalSet(carry), m1);
    run_in_pieces(p1, p2, m);
    let q2 = p1 + p2;
    let m2 = run(q2, m);
    let p3 = carry_code(carry);
    lemma_carry(carry, m2, b >= a);
    run_in_pieces(q2, p3, m);
    let q3 = q2 + p3;
    let m3 = run(q3, m);
    let p4 = seq![LocalGet(rb_val), LocalGet(ra_val), I32Sub];
    run_3(LocalGet(rb_val), LocalGet(ra_val), I32Sub, m3);
    run_in_pieces(q3, p4, m);
    let q4 = q3 + p4;
    lemma_result(q4, ins.gpr_d(), ins.field_rc(), n + 3, m, wrapped(b - a));
}

#[verifier::spinoff_prover]
proof fn lemma_subfe(ins: Ins, pc: u32, n: nat, m: Machine)
    requires
        ready(m),
        ins.op is Subfe,
        n <= MAX_LOCALS,
        !ins.field_rc(),
    ensures
        carried_out(run(translate(ins, pc, n), m), m, ins, pc),
{
    reveal(carry_sub_code);
    broadcast use crate::ppcir::meaning::group_steps;

    let a = m.sys.gpr(ins.gpr_a());
    let b = m.sys.gpr(ins.gpr_b());
    let ra_val = local_at(n + 1, IrTy::I32);
    let rb_val = local_at(n + 2, IrTy::I32);
    let not_ra = local_at(n + 3, IrTy::I32);
    let sum1 = local_at(n + 4, IrTy::I32);
    let c1 = local_at(n + 5, IrTy::I32);
    let ca_in = local_at(n + 6, IrTy::I32);
    let result = local_at(n + 7, IrTy::I32);
    let c2 = local_at(n + 8, IrTy::I32);
    let carry = local_at(n + 9, IrTy::I32);
    let ca = m.sys.carry_in();
    let first = wrapped(b + !a);
    lemma_carry_bits(m.sys.cpu.xer);
    lemma_bits(0, 0, a, 0, 0);
    lemma_truth(first < b, wrapped(first + ca) < first);
    let p1 = seq![LoadGpr(ins.gpr_a()), LocalSet(ra_val), LoadGpr(ins.gpr_b()), LocalSet(rb_val)];
    run_4(LoadGpr(ins.gpr_a()), LocalSet(ra_val), LoadGpr(ins.gpr_b()), LocalSet(rb_val), m);
    let m1 = run(p1, m);
    let p2 = seq![LocalGet(ra_val), I32Not, LocalSet(not_ra)];
    run_3(LocalGet(ra_val), I32Not, LocalSet(not_ra), m1);
    run_in_pieces(p1, p2, m);
    let q2 = p1 + p2;
    let m2 = run(q2, m);
    let p3 = seq![
        LocalGet(rb_val), LocalGet(not_ra), I32Add, LocalTee(sum1), LocalGet(rb_val), I32LtU,
        LocalSet(c1),
    ];
    run_7(
        LocalGet(rb_val), LocalGet(not_ra), I32Add, LocalTee(sum1), LocalGet(rb_val), I32LtU,
        LocalSet(c1), m2,
    );
    run_in_pieces(q2, p3, m);
    let q3 = q2 + p3;
    let m3 = run(q3, m);
    let p4 = seq![LoadXer, I32Const(29), I32ShrU, I32Const(1), I32And, LocalSet(ca_in)];
    run_6(LoadXer, I32Const(29), I32ShrU, I32Const(1), I32And, LocalSet(ca_in), m3);
    run_in_pieces(q3, p4, m);
    let q4 = q3 + p4;
    let m4 = run(q4, m);
    let p5 = seq![
        LocalGet(sum1), LocalGet(ca_in), I32Add, LocalTee(result), LocalGet(sum1), I32LtU,
    ];
    run_6(LocalGet(sum1), LocalGet(ca_in), I32Add, LocalTee(result), LocalGet(sum1), I32LtU, m4);
    run_in_pieces(q4, p5, m);
    let q5 = q4 + p5;
    let m5 = run(q5, m);
    let p6 = seq![LocalSet(c2), LocalGet(c1), LocalGet(c2), I32Or, LocalSet(carry)];
    run_5(LocalSet(c2), LocalGet(c1), LocalGet(c2), I32Or, LocalSet(carry), m5);
    run_in_pieces(q5, p6, m);
    let q6 = q5 + p6;
    let m6 = run(q6, m);
    let p7 = carry_code(carry);
    lemma_carry(carry, m6, b - a - (1 - ca) >= 0);
    run_in_pieces(q6, p7, m);
    let q7 = q6 + p7;
    let m7 = run(q7, m);
    let p8 = seq![LocalGet(result)];
    run_1(LocalGet(result), m7);
    run_in_pieces(q7, p8, m);
    let q8 = q7 + p8;
    lemma_result(q8, ins.gpr_d(), ins.field_rc(), n + 9, m, wrapped(b - a - (1 - ca)));
}

proof fn lemma_rlwinm(ins: Ins, pc: u32, n: nat, m: Machine)
    requires
        ready(m),
        ins.op is Rlwinm,
        n <= MAX_LOCALS,
    ensures
        carried_out(run(translate(ins, pc, n), m), m, ins, pc),
{
    reveal(rotate_family_code);
    broadcast use crate::ppcir::meaning::group_steps;

    let s = m.sys.gpr(ins.gpr_s());
    let mask = rotate_mask(ins.field_mb() as u32, ins.field_me() as u32);
    let turned = rotated(s, ins.field_sh());
    ins.lemma_register_fields();
    lemma_bits(0, 0, ins.field_sh() as u32, 0, 0);
    lemma_constant(mask);
    let p1 = seq![LoadGpr(ins.gpr_s())];
    run_1(LoadGpr(ins.gpr_s()), m);
    let m1 = run(p1, m);
    let p2 = rotate_code(ins.field_sh());
    run_2(I32Const(ins.field_sh() as i32), I32Rotl, m1);
    run_in_pieces(p1, p2, m);
    let q2 = p1 + p2;
    let m2 = run(q2, m);
    assert(m2 == m.pushed32(turned));
    let p3 = seq![I32Const(mask as i32), I32And];
    run_2(I32Const(mask as i32), I32And, m2);
    run_in_pieces(q2, p3, m);
    let q3 = q2 + p3;
    lemma_result(q3, ins.gpr_a(), ins.field_rc(), n, m, turned & mask);
}

#[verifier::spinoff_prover]
proof fn lemma_rlwimi(ins: Ins, pc: u32, n: nat, m: Machine)
    requires
        ready(m),
        ins.op is Rlwimi,
        n <= MAX_LOCALS,
    ensures
        carried_out(run(translate(ins, pc, n), m), m, ins, pc),
{
    reveal(rotate_family_code);
    broadcast use crate::ppcir::meaning::group_steps;

    let a = m.sys.gpr(ins.gpr_a());
    let s = m.sys.gpr(ins.gpr_s());
    let rot = local_at(n + 1, IrTy::I32);
    let mask = rotate_mask(ins.field_mb() as u32, ins.field_me() as u32);
    let turned = rotated(s, ins.field_sh());
    ins.lemma_register_fields();
    lemma_bits(0, 0, ins.field_sh() as u32, 0, 0);
    lemma_constant(mask);
    lemma_constant(!mask);
    let p1 = seq![LoadGpr(ins.gpr_s())];
    run_1(LoadGpr(ins.gpr_s()), m);
    let m1 = run(p1, m);
    let p2 = rotate_code(ins.field_sh());
    run_2(I32Const(ins.field_sh() as i32), I32Rotl, m1);
    run_in_pieces(p1, p2, m);
    let q2 = p1 + p2;
    let m2 = run(q2, m);
    assert(m2 == m.pushed32(turned));
    let p3 = seq![
        I32Const(mask as i32), I32And, LocalSet(rot), LoadGpr(ins.gpr_a()), I32Const(!mask as i32),
        I32And, LocalGet(rot), I32Or,
    ];
    run_8(
        I32Const(mask as i32), I32And, LocalSet(rot), LoadGpr(ins.gpr_a()), I32Const(!mask as i32),
        I32And, LocalGet(rot), I32Or, m2,
    );
    run_in_pieces(q2, p3, m);
    let q3 = q2 + p3;
    lemma_result(q3, ins.gpr_a(), ins.field_rc(), n + 1, m, (a & !mask) | (turned & mask));
}

#[verifier::spinoff_prover]
proof fn lemma_slw(ins: Ins, pc: u32, n: nat, m: Machine)
    requires
        ready(m),
        ins.op is Slw,
        n <= MAX_LOCALS,
        !ins.field_rc(),
        m.sys.gpr(ins.gpr_b()) & 0x20 == 0,
    ensures
        carried_out(run(translate(ins, pc, n), m), m, ins, pc),
{
    reveal(shift_code);
    broadcast use crate::ppcir::meaning::group_steps;

    let b = m.sys.gpr(ins.gpr_b());
    let s = m.sys.gpr(ins.gpr_s());
    let rs_val = local_at(n + 1, IrTy::I32);
    let exceeds = local_at(n + 2, IrTy::I32);
    lemma_bits(0, 0, b, 0, 0);
    lemma_bits(0, 0, s << (b & 31), 0, 0);
    let p1 = seq![
        LoadGpr(ins.gpr_s()), LocalSet(rs_val), LoadGpr(ins.gpr_b()), I32Const(5), I32ShrU,
        I32Const(1), I32And, LocalSet(exceeds),
    ];
    run_8(
        LoadGpr(ins.gpr_s()), LocalSet(rs_val), LoadGpr(ins.gpr_b()), I32Const(5), I32ShrU,
        I32Const(1), I32And, LocalSet(exceeds), m,
    );
    let m1 = run(p1, m);
    let p2 = seq![
        LocalGet(rs_val), LoadGpr(ins.gpr_b()), I32Shl, I32Const(0), LocalGet(exceeds), I32Sub,
        I32Not, I32And,
    ];
    run_8(
        LocalGet(rs_val), LoadGpr(ins.gpr_b()), I32Shl, I32Const(0), LocalGet(exceeds), I32Sub,
        I32Not, I32And, m1,
    );
    run_in_pieces(p1, p2, m);
    let q2 = p1 + p2;
    lemma_result(q2, ins.gpr_a(), ins.field_rc(), n + 2, m, s << (b & 0x1F));
}

proof fn lemma_compare(ins: Ins, pc: u32, n: nat, m: Machine)
    requires
        ready(m),
        ins.op is Cmp,
        n <= MAX_LOCALS,
    ensures
        carried_out(run(translate(ins, pc, n), m), m, ins, pc),
{
    reveal(compare_code);
    broadcast use crate::ppcir::meaning::group_steps;

    let a = m.sys.gpr(ins.gpr_a());
    let b = m.sys.gpr(ins.gpr_b());
    let lhs = local_at(n + 1, IrTy::I32);
    let rhs = local_at(n + 2, IrTy::I32);
    ins.lemma_register_fields();
    let p1 = seq![LoadGpr(ins.gpr_a()), LocalSet(lhs)];
    run_2(LoadGpr(ins.gpr_a()), LocalSet(lhs), m);
    let m1 = run(p1, m);
    let p2 = seq![LoadGpr(ins.gpr_b()), LocalSet(rhs)];
    run_2(LoadGpr(ins.gpr_b()), LocalSet(rhs), m1);
    run_in_pieces(p1, p2, m);
    let q2 = p1 + p2;
    let m2 = run(q2, m);
    let p3 = compare_signed_code(ins.field_crfd(), lhs, rhs);
    lemma_compare_signed(ins.field_crfd(), lhs, rhs, m2, a, b);
    run_in_pieces(q2, p3, m);
    let q3 = q2 + p3;
}

proof fn lemma_compare_immediate(ins: Ins, pc: u32, n: nat, m: Machine)
    requires
        ready(m),
        ins.op is Cmpi,
        n <= MAX_LOCALS,
    ensures
        carried_out(run(translate(ins, pc, n), m), m, ins, pc),
{
    reveal(compare_code);
    broadcast use crate::ppcir::meaning::group_steps;

    let a = m.sys.gpr(ins.gpr_a());
    let lhs = local_at(n + 1, IrTy::I32);
    let rhs = local_at(n + 2, IrTy::I32);
    ins.lemma_register_fields();
    lemma_half(ins.field_simm());
    let p1 = seq![LoadGpr(ins.gpr_a()), LocalSet(lhs)];
    run_2(LoadGpr(ins.gpr_a()), LocalSet(lhs), m);
    let m1 = run(p1, m);
    let p2 = seq![I32Const(ins.field_simm() as i32), LocalSet(rhs)];
    run_2(I32Const(ins.field_simm() as i32), LocalSet(rhs), m1);
    run_in_pieces(p1, p2, m);
    let q2 = p1 + p2;
    let m2 = run(q2, m);
    let p3 = compare_signed_code(ins.field_crfd(), lhs, rhs);
    lemma_compare_signed(ins.field_crfd(), lhs, rhs, m2, a, immediate(ins));
    run_in_pieces(q2, p3, m);
    let q3 = q2 + p3;
}

proof fn lemma_compare_logical(ins: Ins, pc: u32, n: nat, m: Machine)
    requires
        ready(m),
        ins.op is Cmpl,
        n <= MAX_LOCALS,
    ensures
        carried_out(run(translate(ins, pc, n), m), m, ins, pc),
{
    reveal(compare_code);
    broadcast use crate::ppcir::meaning::group_steps;

    let a = m.sys.gpr(ins.gpr_a());
    let b = m.sys.gpr(ins.gpr_b());
    let lhs = local_at(n + 1, IrTy::I32);
    let rhs = local_at(n + 2, IrTy::I32);
    ins.lemma_register_fields();
    let p1 = seq![LoadGpr(ins.gpr_a()), LocalSet(lhs)];
    run_2(LoadGpr(ins.gpr_a()), LocalSet(lhs), m);
    let m1 = run(p1, m);
    let p2 = seq![LoadGpr(ins.gpr_b()), LocalSet(rhs)];
    run_2(LoadGpr(ins.gpr_b()), LocalSet(rhs), m1);
    run_in_pieces(p1, p2, m);
    let q2 = p1 + p2;
    let m2 = run(q2, m);
    let p3 = compare_unsigned_code(ins.field_crfd(), lhs, rhs);
    lemma_compare_unsigned(ins.field_crfd(), lhs, rhs, m2, a, b);
    run_in_pieces(q2, p3, m);
    let q3 = q2 + p3;
}

proof fn lemma_compare_logical_immediate(ins: Ins, pc: u32, n: nat, m: Machine)
    requires
        ready(m),
        ins.op is Cmpli,
        n <= MAX_LOCALS,
    ensures
        carried_out(run(translate(ins, pc, n), m), m, ins, pc),
{
    reveal(compare_code);
    broadcast use crate::ppcir::meaning::group_steps;

    let a = m.sys.gpr(ins.gpr_a());
    let lhs = local_at(n + 1, IrTy::I32);
    let rhs = local_at(n + 2, IrTy::I32);
    ins.lemma_register_fields();
    let p1 = seq![LoadGpr(ins.gpr_a()), LocalSet(lhs)];
    run_2(LoadGpr(ins.gpr_a()), LocalSet(lhs), m);
    let m1 = run(p1, m);
    let p2 = seq![I32Const(ins.field_uimm() as i32), LocalSet(rhs)];
    run_2(I32Const(ins.field_uimm() as i32), LocalSet(rhs), m1);
    run_in_pieces(p1, p2, m);
    let q2 = p1 + p2;
    let m2 = run(q2, m);
    let p3 = compare_unsigned_code(ins.field_crfd(), lhs, rhs);
    lemma_compare_unsigned(ins.field_crfd(), lhs, rhs, m2, a, ins.field_uimm() as u32);
    run_in_pieces(q2, p3, m);
    let q3 = q2 + p3;
}

#[verifier::spinoff_prover]
proof fn lemma_divw(ins: Ins, pc: u32, n: nat, m: Machine)
    requires
        ready(m),
        ins.op is Divw,
        n <= MAX_LOCALS,
        !ins.field_oe(),
        signed_quotient(m.sys.gpr(ins.gpr_a()), m.sys.gpr(ins.gpr_b())) is Some,
    ensures
        carried_out(run(translate(ins, pc, n), m), m, ins, pc),
{
    reveal(arithmetic_code);
    broadcast use crate::ppcir::meaning::group_steps;

    let a = m.sys.gpr(ins.gpr_a());
    let b = m.sys.gpr(ins.gpr_b());
    let ra_val = local_at(n + 1, IrTy::I32);
    let rb_val = local_at(n + 2, IrTy::I32);
    let bad = local_at(n + 3, IrTy::I32);
    let denom = local_at(n + 4, IrTy::I32);
    lemma_signed(MINUS_ONE);
    lemma_signed(i32::MIN);
    lemma_truth(a == 0x8000_0000, b == 0xFFFF_FFFF);
    lemma_truth(b == 0, a == 0x8000_0000 && b == 0xFFFF_FFFF);
    lemma_bits(0, 0, b ^ 1, 0, 0);
    lemma_bits(0, 0, b, 0, 0);
    let p1 = seq![LoadGpr(ins.gpr_a()), LocalSet(ra_val), LoadGpr(ins.gpr_b()), LocalSet(rb_val)];
    run_4(LoadGpr(ins.gpr_a()), LocalSet(ra_val), LoadGpr(ins.gpr_b()), LocalSet(rb_val), m);
    let m1 = run(p1, m);
    let p2 = seq![
        LocalGet(rb_val), I32Eqz, LocalGet(ra_val), I32Const(i32::MIN), I32Eq, LocalGet(rb_val),
    ];
    run_6(
        LocalGet(rb_val), I32Eqz, LocalGet(ra_val), I32Const(i32::MIN), I32Eq, LocalGet(rb_val),
        m1,
    );
    run_in_pieces(p1, p2, m);
    let q2 = p1 + p2;
    let m2 = run(q2, m);
    let p3 = seq![I32Const(MINUS_ONE), I32Eq, I32And, I32Or, LocalSet(bad)];
    run_5(I32Const(MINUS_ONE), I32Eq, I32And, I32Or, LocalSet(bad), m2);
    run_in_pieces(q2, p3, m);
    let q3 = q2 + p3;
    let m3 = run(q3, m);
    let p4 = seq![I32Const(0), LocalGet(bad), I32Sub, LocalGet(rb_val), I32Const(1)];
    run_5(I32Const(0), LocalGet(bad), I32Sub, LocalGet(rb_val), I32Const(1), m3);
    run_in_pieces(q3, p4, m);
    let q4 = q3 + p4;
    let m4 = run(q4, m);
    let p5 = seq![I32Xor, I32And, LocalGet(rb_val), I32Xor, LocalSet(denom)];
    run_5(I32Xor, I32And, LocalGet(rb_val), I32Xor, LocalSet(denom), m4);
    run_in_pieces(q4, p5, m);
    let q5 = q4 + p5;
    let m5 = run(q5, m);
    let p6 = seq![LocalGet(ra_val), LocalGet(denom), I32DivS];
    run_3(LocalGet(ra_val), LocalGet(denom), I32DivS, m5);
    run_in_pieces(q5, p6, m);
    let q6 = q5 + p6;
    lemma_result(q6, ins.gpr_d(), ins.field_rc(), n + 4, m, signed_quotient(a, b).unwrap());
}

#[verifier::spinoff_prover]
proof fn lemma_divwu(ins: Ins, pc: u32, n: nat, m: Machine)
    requires
        ready(m),
        ins.op is Divwu,
        n <= MAX_LOCALS,
        !ins.field_oe(),
        unsigned_quotient(m.sys.gpr(ins.gpr_a()), m.sys.gpr(ins.gpr_b())) is Some,
    ensures
        carried_out(run(translate(ins, pc, n), m), m, ins, pc),
{
    reveal(arithmetic_code);
    broadcast use crate::ppcir::meaning::group_steps;

    let a = m.sys.gpr(ins.gpr_a());
    let b = m.sys.gpr(ins.gpr_b());
    let ra_val = local_at(n + 1, IrTy::I32);
    let rb_val = local_at(n + 2, IrTy::I32);
    let bad = local_at(n + 3, IrTy::I32);
    let denom = local_at(n + 4, IrTy::I32);
    lemma_bits(0, 0, b ^ 1, 0, 0);
    lemma_bits(0, 0, b, 0, 0);
    let p1 = seq![LoadGpr(ins.gpr_a()), LocalSet(ra_val), LoadGpr(ins.gpr_b()), LocalSet(rb_val)];
    run_4(LoadGpr(ins.gpr_a()), LocalSet(ra_val), LoadGpr(ins.gpr_b()), LocalSet(rb_val), m);
    let m1 = run(p1, m);
    let p2 = seq![LocalGet(rb_val), I32Eqz, LocalSet(bad)];
    run_3(LocalGet(rb_val), I32Eqz, LocalSet(bad), m1);
    run_in_pieces(p1, p2, m);
    let q2 = p1 + p2;
    let m2 = run(q2, m);
    let p3 = seq![I32Const(0), LocalGet(bad), I32Sub, LocalGet(rb_val), I32Const(1)];
    run_5(I32Const(0), LocalGet(bad), I32Sub, LocalGet(rb_val), I32Const(1), m2);
    run_in_pieces(q2, p3, m);
    let q3 = q2 + p3;
    let m3 = run(q3, m);
    let p4 = seq![I32Xor, I32And, LocalGet(rb_val), I32Xor, LocalSet(denom)];
    run_5(I32Xor, I32And, LocalGet(rb_val), I32Xor, LocalSet(denom), m3);
    run_in_pieces(q3, p4, m);
    let q4 = q3 + p4;
    let m4 = run(q4, m);
    let p5 = seq![LocalGet(ra_val), LocalGet(denom), I32DivU];
    run_3(LocalGet(ra_val), LocalGet(denom), I32DivU, m4);
    run_in_pieces(q4, p5, m);
    let q5 = q4 + p5;
    lemma_result(q5, ins.gpr_d(), ins.field_rc(), n + 4, m, unsigned_quotient(a, b).unwrap());
}

proof fn lemma_lbz(ins: Ins, pc: u32, n: nat, m: Machine)
    requires
        ready(m),
        ins.op is Lbz,
        n <= MAX_LOCALS,
        mapped(m.sys.ram, m.sys.displaced(ins), 1),
    ensures
        carried_out(run(translate(ins, pc, n), m), m, ins, pc),
{
    reveal(load_code);
    broadcast use crate::ppcir::meaning::group_steps;

    lemma_signed(ins.field_offset() as i32);
    let p1 = ea_d_code(ins.gpr_a(), ins.field_offset() as i32);
    let first = LoadGpr(ins.gpr_a());
    let second = I32Const(ins.field_offset() as i32);
    run_1(first, m);
    run_1(second, m);
    run_3(first, second, I32Add, m);
    let m1 = run(p1, m);
    assert(m1 == m.pushed32(m.sys.displaced(ins)));
    let p2 = seq![ReadU8, StoreGpr(ins.gpr_d())];
    run_2(ReadU8, StoreGpr(ins.gpr_d()), m1);
    run_in_pieces(p1, p2, m);
    let q2 = p1 + p2;
}

proof fn lemma_lhz(ins: Ins, pc: u32, n: nat, m: Machine)
    requires
        ready(m),
        ins.op is Lhz,
        n <= MAX_LOCALS,
        mapped(m.sys.ram, m.sys.displaced(ins), 2),
    ensures
        carried_out(run(translate(ins, pc, n), m), m, ins, pc),
{
    reveal(load_code);
    broadcast use crate::ppcir::meaning::group_steps;

    lemma_signed(ins.field_offset() as i32);
    let p1 = ea_d_code(ins.gpr_a(), ins.field_offset() as i32);
    let first = LoadGpr(ins.gpr_a());
    let second = I32Const(ins.field_offset() as i32);
    run_1(first, m);
    run_1(second, m);
    run_3(first, second, I32Add, m);
    let m1 = run(p1, m);
    assert(m1 == m.pushed32(m.sys.displaced(ins)));
    let p2 = seq![ReadU16, StoreGpr(ins.gpr_d())];
    run_2(ReadU16, StoreGpr(ins.gpr_d()), m1);
    run_in_pieces(p1, p2, m);
    let q2 = p1 + p2;
}

proof fn lemma_lwz(ins: Ins, pc: u32, n: nat, m: Machine)
    requires
        ready(m),
        ins.op is Lwz,
        n <= MAX_LOCALS,
        mapped(m.sys.ram, m.sys.displaced(ins), 4),
    ensures
        carried_out(run(translate(ins, pc, n), m), m, ins, pc),
{
    reveal(load_code);
    broadcast use crate::ppcir::meaning::group_steps;

    lemma_signed(ins.field_offset() as i32);
    let p1 = ea_d_code(ins.gpr_a(), ins.field_offset() as i32);
    let first = LoadGpr(ins.gpr_a());
    let second = I32Const(ins.field_offset() as i32);
    run_1(first, m);
    run_1(second, m);
    run_3(first, second, I32Add, m);
    let m1 = run(p1, m);
    assert(m1 == m.pushed32(m.sys.displaced(ins)));
    let p2 = seq![ReadU32, StoreGpr(ins.gpr_d())];
    run_2(ReadU32, StoreGpr(ins.gpr_d()), m1);
    run_in_pieces(p1, p2, m);
    let q2 = p1 + p2;
}

proof fn lemma_lhzx(ins: Ins, pc: u32, n: nat, m: Machine)
    requires
        ready(m),
        ins.op is Lhzx,
        n <= MAX_LOCALS,
        mapped(m.sys.ram, m.sys.indexed(ins), 2),
    ensures
        carried_out(run(translate(ins, pc, n), m), m, ins, pc),
{
    reveal(load_code);
    broadcast use crate::ppcir::meaning::group_steps;

    let p1 = ea_x_code(ins.gpr_a(), ins.gpr_b());
    let first = LoadGpr(ins.gpr_a());
    let second = LoadGpr(ins.gpr_b());
    run_1(second, m);
    run_3(first, second, I32Add, m);
    let m1 = run(p1, m);
    assert(m1 == m.pushed32(m.sys.indexed(ins)));
    let p2 = seq![ReadU16, StoreGpr(ins.gpr_d())];
    run_2(ReadU16, StoreGpr(ins.gpr_d()), m1);
    run_in_pieces(p1, p2, m);
    let q2 = p1 + p2;
}

proof fn lemma_lwzx(ins: Ins, pc: u32, n: nat, m: Machine)
    requires
        ready(m),
        ins.op is Lwzx,
        n <= MAX_LOCALS,
        mapped(m.sys.ram, m.sys.indexed(ins), 4),
    ensures
        carried_out(run(translate(ins, pc, n), m), m, ins, pc),
{
    reveal(load_code);
    broadcast use crate::ppcir::meaning::group_steps;

    let p1 = ea_x_code(ins.gpr_a(), ins.gpr_b());
    let first = LoadGpr(ins.gpr_a());
    let second = LoadGpr(ins.gpr_b());
    run_1(second, m);
    run_3(first, second, I32Add, m);
    let m1 = run(p1, m);
    assert(m1 == m.pushed32(m.sys.indexed(ins)));
    let p2 = seq![ReadU32, StoreGpr(ins.gpr_d())];
    run_2(ReadU32, StoreGpr(ins.gpr_d()), m1);
    run_in_pieces(p1, p2, m);
    let q2 = p1 + p2;
}

proof fn lemma_lbzu(ins: Ins, pc: u32, n: nat, m: Machine)
    requires
        ready(m),
        ins.op is Lbzu,
        n <= MAX_LOCALS,
        ins.gpr_a() != 0,
        ins.gpr_a() != ins.gpr_d(),
        m.sys.cpu.gpr.len() == 32,
        mapped(m.sys.ram, m.sys.displaced(ins), 1),
    ensures
        carried_out(run(translate(ins, pc, n), m), m, ins, pc),
{
    reveal(load_code);
    broadcast use crate::ppcir::meaning::group_steps;

    let ea = local_at(n + 1, IrTy::I32);
    lemma_signed(ins.field_offset() as i32);
    ins.lemma_register_fields();
    let ea_value = m.sys.displaced(ins);
    let p1 = seq![
        LoadGpr(ins.gpr_a()), I32Const(ins.field_offset() as i32), I32Add, LocalTee(ea),
        StoreGpr(ins.gpr_a()), LocalGet(ea), ReadU8, StoreGpr(ins.gpr_d()),
    ];
    run_8(
        LoadGpr(ins.gpr_a()), I32Const(ins.field_offset() as i32), I32Add, LocalTee(ea),
        StoreGpr(ins.gpr_a()), LocalGet(ea), ReadU8, StoreGpr(ins.gpr_d()), m,
    );
    let (x, y) = (ins.gpr_a() as int, ins.gpr_d() as int);
    let value = m.sys.read8(ea_value).unwrap() as u32;
    let gpr = m.sys.cpu.gpr;
    assert(gpr.update(x, ea_value).update(y, value) =~= gpr.update(y, value).update(x, ea_value));
}

proof fn lemma_lhzu(ins: Ins, pc: u32, n: nat, m: Machine)
    requires
        ready(m),
        ins.op is Lhzu,
        n <= MAX_LOCALS,
        ins.gpr_a() != 0,
        ins.gpr_a() != ins.gpr_d(),
        m.sys.cpu.gpr.len() == 32,
        mapped(m.sys.ram, m.sys.displaced(ins), 2),
    ensures
        carried_out(run(translate(ins, pc, n), m), m, ins, pc),
{
    reveal(load_code);
    broadcast use crate::ppcir::meaning::group_steps;

    let ea = local_at(n + 1, IrTy::I32);
    lemma_signed(ins.field_offset() as i32);
    ins.lemma_register_fields();
    let ea_value = m.sys.displaced(ins);
    let p1 = seq![
        LoadGpr(ins.gpr_a()), I32Const(ins.field_offset() as i32), I32Add, LocalTee(ea),
        StoreGpr(ins.gpr_a()), LocalGet(ea), ReadU16, StoreGpr(ins.gpr_d()),
    ];
    run_8(
        LoadGpr(ins.gpr_a()), I32Const(ins.field_offset() as i32), I32Add, LocalTee(ea),
        StoreGpr(ins.gpr_a()), LocalGet(ea), ReadU16, StoreGpr(ins.gpr_d()), m,
    );
    let (x, y) = (ins.gpr_a() as int, ins.gpr_d() as int);
    let value = m.sys.read16(ea_value).unwrap() as u32;
    let gpr = m.sys.cpu.gpr;
    assert(gpr.update(x, ea_value).update(y, value) =~= gpr.update(y, value).update(x, ea_value));
}

proof fn lemma_lwzu(ins: Ins, pc: u32, n: nat, m: Machine)
    requires
        ready(m),
        ins.op is Lwzu,
        n <= MAX_LOCALS,
        ins.gpr_a() != 0,
        mapped(m.sys.ram, m.sys.displaced(ins), 4),
    ensures
        carried_out(run(translate(ins, pc, n), m), m, ins, pc),
{
    reveal(load_code);
    broadcast use crate::ppcir::meaning::group_steps;

    let ea = local_at(n + 1, IrTy::I32);
    lemma_signed(ins.field_offset() as i32);
    let p1 = seq![
        LoadGpr(ins.gpr_a()), I32Const(ins.field_offset() as i32), I32Add, LocalTee(ea),
        StoreGpr(ins.gpr_a()), LocalGet(ea), ReadU32, StoreGpr(ins.gpr_d()),
    ];
    run_8(
        LoadGpr(ins.gpr_a()), I32Const(ins.field_offset() as i32), I32Add, LocalTee(ea),
        StoreGpr(ins.gpr_a()), LocalGet(ea), ReadU32, StoreGpr(ins.gpr_d()), m,
    );
}

proof fn lemma_stb(ins: Ins, pc: u32, n: nat, m: Machine)
    requires
        ready(m),
        ins.op is Stb,
        n <= MAX_LOCALS,
    ensures
        carried_out(run(translate(ins, pc, n), m), m, ins, pc),
{
    reveal(store_code);
    broadcast use crate::ppcir::meaning::group_steps;

    lemma_signed(ins.field_offset() as i32);
    let p1 = ea_d_code(ins.gpr_a(), ins.field_offset() as i32);
    let first = LoadGpr(ins.gpr_a());
    let second = I32Const(ins.field_offset() as i32);
    run_1(first, m);
    run_1(second, m);
    run_3(first, second, I32Add, m);
    let m1 = run(p1, m);
    assert(m1 == m.pushed32(m.sys.displaced(ins)));
    let p2 = seq![LoadGpr(ins.gpr_s()), WriteU8];
    run_2(LoadGpr(ins.gpr_s()), WriteU8, m1);
    run_in_pieces(p1, p2, m);
    let q2 = p1 + p2;
}

proof fn lemma_stbx(ins: Ins, pc: u32, n: nat, m: Machine)
    requires
        ready(m),
        ins.op is Stbx,
        n <= MAX_LOCALS,
    ensures
        carried_out(run(translate(ins, pc, n), m), m, ins, pc),
{
    reveal(store_code);
    broadcast use crate::ppcir::meaning::group_steps;

    let p1 = ea_x_code(ins.gpr_a(), ins.gpr_b());
    let first = LoadGpr(ins.gpr_a());
    let second = LoadGpr(ins.gpr_b());
    run_1(second, m);
    run_3(first, second, I32Add, m);
    let m1 = run(p1, m);
    assert(m1 == m.pushed32(m.sys.indexed(ins)));
    let p2 = seq![LoadGpr(ins.gpr_s()), WriteU8];
    run_2(LoadGpr(ins.gpr_s()), WriteU8, m1);
    run_in_pieces(p1, p2, m);
    let q2 = p1 + p2;
}

proof fn lemma_sth(ins: Ins, pc: u32, n: nat, m: Machine)
    requires
        ready(m),
        ins.op is Sth,
        n <= MAX_LOCALS,
        m.sys.displaced(ins) < u32::MAX,
    ensures
        carried_out(run(translate(ins, pc, n), m), m, ins, pc),
{
    reveal(store_code);
    broadcast use crate::ppcir::meaning::group_steps;

    lemma_signed(ins.field_offset() as i32);
    let p1 = ea_d_code(ins.gpr_a(), ins.field_offset() as i32);
    let first = LoadGpr(ins.gpr_a());
    let second = I32Const(ins.field_offset() as i32);
    run_1(first, m);
    run_1(second, m);
    run_3(first, second, I32Add, m);
    let m1 = run(p1, m);
    assert(m1 == m.pushed32(m.sys.displaced(ins)));
    let p2 = seq![LoadGpr(ins.gpr_s()), WriteU16];
    run_2(LoadGpr(ins.gpr_s()), WriteU16, m1);
    run_in_pieces(p1, p2, m);
    let q2 = p1 + p2;
}

proof fn lemma_stw(ins: Ins, pc: u32, n: nat, m: Machine)
    requires
        ready(m),
        ins.op is Stw,
        n <= MAX_LOCALS,
    ensures
        carried_out(run(translate(ins, pc, n), m), m, ins, pc),
{
    reveal(store_code);
    broadcast use crate::ppcir::meaning::group_steps;

    lemma_signed(ins.field_offset() as i32);
    let p1 = ea_d_code(ins.gpr_a(), ins.field_offset() as i32);
    let first = LoadGpr(ins.gpr_a());
    let second = I32Const(ins.field_offset() as i32);
    run_1(first, m);
    run_1(second, m);
    run_3(first, second, I32Add, m);
    let m1 = run(p1, m);
    assert(m1 == m.pushed32(m.sys.displaced(ins)));
    let p2 = seq![LoadGpr(ins.gpr_s()), WriteU32];
    run_2(LoadGpr(ins.gpr_s()), WriteU32, m1);
    run_in_pieces(p1, p2, m);
    let q2 = p1 + p2;
}

proof fn lemma_stwx(ins: Ins, pc: u32, n: nat, m: Machine)
    requires
        ready(m),
        ins.op is Stwx,
        n <= MAX_LOCALS,
        mapped(m.sys.ram, m.sys.indexed(ins), 4),
    ensures
        carried_out(run(translate(ins, pc, n), m), m, ins, pc),
{
    reveal(store_code);
    broadcast use crate::ppcir::meaning::group_steps;

    let p1 = ea_x_code(ins.gpr_a(), ins.gpr_b());
    let first = LoadGpr(ins.gpr_a());
    let second = LoadGpr(ins.gpr_b());
    run_1(second, m);
    run_3(first, second, I32Add, m);
    let m1 = run(p1, m);
    assert(m1 == m.pushed32(m.sys.indexed(ins)));
    let p2 = seq![LoadGpr(ins.gpr_s()), WriteU32];
    run_2(LoadGpr(ins.gpr_s()), WriteU32, m1);
    run_in_pieces(p1, p2, m);
    let q2 = p1 + p2;
}

proof fn lemma_stbu(ins: Ins, pc: u32, n: nat, m: Machine)
    requires
        ready(m),
        ins.op is Stbu,
        n <= MAX_LOCALS,
        ins.gpr_a() != 0,
    ensures
        carried_out(run(translate(ins, pc, n), m), m, ins, pc),
{
    reveal(store_code);
    broadcast use crate::ppcir::meaning::group_steps;

    let ea = local_at(n + 1, IrTy::I32);
    lemma_signed(ins.field_offset() as i32);
    let p1 = seq![
        LoadGpr(ins.gpr_a()), I32Const(ins.field_offset() as i32), I32Add, LocalSet(ea),
        LocalGet(ea),
    ];
    run_5(
        LoadGpr(ins.gpr_a()), I32Const(ins.field_offset() as i32), I32Add, LocalSet(ea),
        LocalGet(ea), m,
    );
    let m1 = run(p1, m);
    let p2 = seq![LoadGpr(ins.gpr_s()), WriteU8, LocalGet(ea), StoreGpr(ins.gpr_a())];
    run_4(LoadGpr(ins.gpr_s()), WriteU8, LocalGet(ea), StoreGpr(ins.gpr_a()), m1);
    run_in_pieces(p1, p2, m);
    let q2 = p1 + p2;
}

proof fn lemma_stwu(ins: Ins, pc: u32, n: nat, m: Machine)
    requires
        ready(m),
        ins.op is Stwu,
        n <= MAX_LOCALS,
        ins.gpr_a() != 0,
        mapped(m.sys.ram, m.sys.displaced(ins), 4),
    ensures
        carried_out(run(translate(ins, pc, n), m), m, ins, pc),
{
    reveal(store_code);
    broadcast use crate::ppcir::meaning::group_steps;

    let ea = local_at(n + 1, IrTy::I32);
    lemma_signed(ins.field_offset() as i32);
    let p1 = seq![
        LoadGpr(ins.gpr_a()), I32Const(ins.field_offset() as i32), I32Add, LocalSet(ea),
        LocalGet(ea),
    ];
    run_5(
        LoadGpr(ins.gpr_a()), I32Const(ins.field_offset() as i32), I32Add, LocalSet(ea),
        LocalGet(ea), m,
    );
    let m1 = run(p1, m);
    let p2 = seq![LoadGpr(ins.gpr_s()), WriteU32, LocalGet(ea), StoreGpr(ins.gpr_a())];
    run_4(LoadGpr(ins.gpr_s()), WriteU32, LocalGet(ea), StoreGpr(ins.gpr_a()), m1);
    run_in_pieces(p1, p2, m);
    let q2 = p1 + p2;
}

proof fn lemma_mfspr(ins: Ins, pc: u32, n: nat, m: Machine)
    requires
        ready(m),
        ins.op is Mfspr,
        n <= MAX_LOCALS,
        kept_special(ins.field_spr()),
    ensures
        carried_out(run(translate(ins, pc, n), m), m, ins, pc),
{
    reveal(system_code);
    broadcast use crate::ppcir::meaning::group_steps;

    let p1 = seq![spr_load(ins.field_spr()), StoreGpr(ins.gpr_d())];
    run_2(spr_load(ins.field_spr()), StoreGpr(ins.gpr_d()), m);
}

proof fn lemma_mtspr(ins: Ins, pc: u32, n: nat, m: Machine)
    requires
        ready(m),
        ins.op is Mtspr,
        n <= MAX_LOCALS,
        kept_special(ins.field_spr()),
    ensures
        carried_out(run(translate(ins, pc, n), m), m, ins, pc),
{
    reveal(system_code);
    broadcast use crate::ppcir::meaning::group_steps;

    let p1 = seq![LoadGpr(ins.gpr_s()), spr_store(ins.field_spr())];
    run_2(LoadGpr(ins.gpr_s()), spr_store(ins.field_spr()), m);
}

proof fn lemma_mtmsr(ins: Ins, pc: u32, n: nat, m: Machine)
    requires
        ready(m),
        ins.op is Mtmsr,
        n <= MAX_LOCALS,
    ensures
        carried_out(run(translate(ins, pc, n), m), m, ins, pc),
{
    reveal(leave_code);
    broadcast use crate::ppcir::meaning::group_steps;

    let p1 = seq![LoadGpr(ins.gpr_s()), StoreMsr, ReturnStatic(next_pc(pc))];
    run_3(LoadGpr(ins.gpr_s()), StoreMsr, ReturnStatic(next_pc(pc)), m);
}

#[verifier::spinoff_prover]
proof fn lemma_rfi(ins: Ins, pc: u32, n: nat, m: Machine)
    requires
        ready(m),
        ins.op is Rfi,
        n <= MAX_LOCALS,
    ensures
        carried_out(run(translate(ins, pc, n), m), m, ins, pc),
{
    reveal(leave_code);
    broadcast use crate::ppcir::meaning::group_steps;

    let (from, to) = (m.sys.cpu.srr[1], m.sys.cpu.msr);
    lemma_constant(SRR1_TO_MSR_MASK);
    lemma_constant(!SRR1_TO_MSR_MASK);
    lemma_constant(!(1u32 << 18u32));
    lemma_constant(!3u32);
    lemma_bits(0, 0, from & SRR1_TO_MSR_MASK, to & !SRR1_TO_MSR_MASK, 0);
    lemma_bits(0, 0, 3, 0, 0);
    let p1 = seq![
        LoadSrr1, I32Const(SRR1_TO_MSR_MASK as i32), I32And, LoadMsr,
        I32Const(!SRR1_TO_MSR_MASK as i32), I32And, I32Or,
    ];
    run_7(
        LoadSrr1, I32Const(SRR1_TO_MSR_MASK as i32), I32And, LoadMsr,
        I32Const(!SRR1_TO_MSR_MASK as i32), I32And, I32Or, m,
    );
    let m1 = run(p1, m);
    let p2 = seq![
        I32Const(!(1u32 << 18u32) as i32), I32And, StoreMsr, LoadSrr0, I32Const(!3u32 as i32),
        I32And, ReturnDynamic,
    ];
    run_7(
        I32Const(!(1u32 << 18u32) as i32), I32And, StoreMsr, LoadSrr0, I32Const(!3u32 as i32),
        I32And, ReturnDynamic, m1,
    );
    run_in_pieces(p1, p2, m);
    let q2 = p1 + p2;
}

proof fn lemma_b(ins: Ins, pc: u32, n: nat, m: Machine)
    requires
        ready(m),
        ins.op is B,
        n <= MAX_LOCALS,
    ensures
        carried_out(run(translate(ins, pc, n), m), m, ins, pc),
{
    reveal(branch_code);
    broadcast use crate::ppcir::meaning::group_steps;

    lemma_signed(ins.field_li());
    let p1 = link_code(pc, ins.field_lk());
    run_2(I32Const(next_pc(pc) as i32), StoreLr, m);
    lemma_constant(next_pc(pc));
    lemma_bits(0, ins.field_bo(), pc, 0, 0);
    let m1 = run(p1, m);
    let p2 = seq![ReturnStatic(branch_target(pc, ins.field_li(), ins.field_aa()))];
    run_1(ReturnStatic(branch_target(pc, ins.field_li(), ins.field_aa())), m1);
    run_in_pieces(p1, p2, m);
    let q2 = p1 + p2;
}

/// Whether the machine `after` has come from `m` by looking at a branch condition:
/// the counter is counted, and whether the branch is taken is on the stack.
spec fn decided(after: Machine, m: Machine, bo: u8, bi: u8, n: nat) -> bool {
    let ctr = counted(m.sys.cpu.ctr, bo);
    &&& after.sys == (SystemView { cpu: CpuView { ctr, ..m.sys.cpu }, ..m.sys })
    &&& after.stack == Stack::Cons(
        Value::I32(truth(counter_holds(ctr, bo) && condition_holds(m.sys.cpu.cr, bo, bi))),
        Box::new(m.stack),
    )
    &&& after.exit is None
    &&& after.locals == if ignores_counter(bo) {
        m.locals
    } else {
        m.locals.insert(local_at(n + 1, IrTy::I32).index, Value::I32(ctr))
    }
}

/// The part of a branch condition that looks at the counter.
proof fn lemma_counter_part(bo: u8, n: nat, m: Machine)
    requires
        m.exit is None,
        !ignores_counter(bo),
        m.stack.top() == Value::I32(1),
    ensures
        ({
            let loc = local_at(n + 1, IrTy::I32);
            let code = seq![
                LoadCtr, I32Const(1), I32Sub, LocalTee(loc), StoreCtr, LocalGet(loc), I32Eqz,
            ] + unless_code((bo >> 1u8) & 1 != 0) + seq![I32And];
            let ctr = counted(m.sys.cpu.ctr, bo);
            let after = run(code, m);
            &&& after.sys == (SystemView { cpu: CpuView { ctr, ..m.sys.cpu }, ..m.sys })
            &&& after.stack == Stack::Cons(
                Value::I32(truth(counter_holds(ctr, bo))),
                Box::new(m.stack.rest()),
            )
            &&& after.exit is None
            &&& after.locals == m.locals.insert(loc.index, Value::I32(ctr))
        }),
{
    broadcast use crate::ppcir::meaning::group_steps;

    let loc = local_at(n + 1, IrTy::I32);
    let p1 = seq![LoadCtr, I32Const(1), I32Sub, LocalTee(loc), StoreCtr, LocalGet(loc), I32Eqz];
    run_7(LoadCtr, I32Const(1), I32Sub, LocalTee(loc), StoreCtr, LocalGet(loc), I32Eqz, m);
    let m1 = run(p1, m);
    let p2 = unless_code((bo >> 1u8) & 1 != 0);
    run_2(I32Const(1), I32Xor, m1);
    run_in_pieces(p1, p2, m);
    run_1(I32And, run(p1 + p2, m));
    run_in_pieces(p1 + p2, seq![I32And], m);
    let ctr = wrapped(m.sys.cpu.ctr - 1);
    lemma_bits(0, bo, 0, 0, 0);
    lemma_truth(ctr == 0, false);
    lemma_truth(ctr != 0, false);
}

/// The part of a branch condition that looks at the condition register.
proof fn lemma_condition_part(bo: u8, bi: u8, m: Machine, before: bool)
    requires
        m.exit is None,
        bi < 32,
        !ignores_condition(bo),
        m.stack.top() == Value::I32(truth(before)),
    ensures
        run(
            seq![LoadCr, I32Const((31 - bi) as i32), I32ShrU, I32Const(1), I32And]
                + unless_code((bo >> 3u8) & 1 != 0) + seq![I32And],
            m,
        ) == (Machine {
            stack: Stack::Cons(
                Value::I32(truth(before && condition_holds(m.sys.cpu.cr, bo, bi))),
                Box::new(m.stack.rest()),
            ),
            ..m
        }),
{
    broadcast use crate::ppcir::meaning::group_steps;

    let position = I32Const((31 - bi) as i32);
    let p1 = seq![LoadCr, position, I32ShrU, I32Const(1), I32And];
    run_5(LoadCr, position, I32ShrU, I32Const(1), I32And, m);
    let m1 = run(p1, m);
    let p2 = unless_code((bo >> 3u8) & 1 != 0);
    run_2(I32Const(1), I32Xor, m1);
    run_in_pieces(p1, p2, m);
    run_1(I32And, run(p1 + p2, m));
    run_in_pieces(p1 + p2, seq![I32And], m);
    let set = bit(m.sys.cpu.cr, (31 - bi) as u32);
    lemma_bits(0, bo, m.sys.cpu.cr, (31 - bi) as u32, 0);
    lemma_truth(set, false);
    lemma_truth(before, set);
    lemma_truth(before, !set);
}

proof fn lemma_branch_cond(bo: u8, bi: u8, n: nat, m: Machine)
    requires
        m.exit is None,
        bi < 32,
    ensures
        decided(run(branch_cond_code(bo, bi, n), m), m, bo, bi, n),
{
    broadcast use crate::ppcir::meaning::group_steps;

    let loc = local_at(n + 1, IrTy::I32);
    let p1 = seq![I32Const(1)];
    run_1(I32Const(1), m);
    let m1 = run(p1, m);
    lemma_bits(0, bo, 0, 0, 0);
    let p2 = if ignores_counter(bo) {
        seq![]
    } else {
        seq![LoadCtr, I32Const(1), I32Sub, LocalTee(loc), StoreCtr, LocalGet(loc), I32Eqz]
            + unless_code((bo >> 1u8) & 1 != 0) + seq![I32And]
    };
    if !ignores_counter(bo) {
        lemma_counter_part(bo, n, m1);
    }
    run_in_pieces(p1, p2, m);
    let m2 = run(p1 + p2, m);
    let p3 = if ignores_condition(bo) {
        seq![]
    } else {
        seq![LoadCr, I32Const((31 - bi) as i32), I32ShrU, I32Const(1), I32And]
            + unless_code((bo >> 3u8) & 1 != 0) + seq![I32And]
    };
    run_in_pieces(p1 + p2, p3, m);
    let counter = counter_holds(counted(m.sys.cpu.ctr, bo), bo);
    if !ignores_condition(bo) {
        lemma_condition_part(bo, bi, m2, counter);
    }
}

#[verifier::spinoff_prover]
proof fn lemma_bc(ins: Ins, pc: u32, n: nat, m: Machine)
    requires
        ready(m),
        ins.op is Bc,
        n <= MAX_LOCALS,
    ensures
        carried_out(run(translate(ins, pc, n), m), m, ins, pc),
{
    reveal(branch_code);
    broadcast use crate::ppcir::meaning::group_steps;

    ins.lemma_register_fields();
    let (bo, bi) = (ins.field_bo(), ins.field_bi());
    let p1 = link_code(pc, ins.field_lk());
    run_2(I32Const(next_pc(pc) as i32), StoreLr, m);
    lemma_constant(next_pc(pc));
    lemma_bits(0, bo, pc, 0, 0);
    let m1 = run(p1, m);
    let p2 = branch_cond_code(bo, bi, n);
    lemma_branch_cond(bo, bi, n, m1);
    run_in_pieces(p1, p2, m);
    let taken = branch_target(pc, ins.field_bd() as i32, ins.field_aa());
    lemma_signed(ins.field_bd() as i32);
    let last = IrInst::BranchIf { taken, fallthrough: next_pc(pc) };
    run_1(last, run(p1 + p2, m));
    run_in_pieces(p1 + p2, seq![last], m);
}

/// A branch to a register that holds `target`.
proof fn lemma_to_register(
    ins: Ins,
    source: IrInst,
    target: u32,
    bo: u8,
    pc: u32,
    n: nat,
    m: Machine,
)
    requires
        ready(m),
        n <= MAX_LOCALS,
        source is LoadLr && target == m.sys.cpu.lr || source is LoadCtr && target
            == m.sys.cpu.ctr,
    ensures
        ({
            let loc = local_at(n + 1, IrTy::I32);
            let always = ignores_condition(ins.field_bo()) && ignores_counter(ins.field_bo());
            let code = seq![source, LocalSet(loc)] + link_code(pc, ins.field_lk()) + (if always {
                seq![LocalGet(loc), ReturnDynamic]
            } else {
                branch_cond_code(bo, ins.field_bi(), n + 1) + seq![
                    IrInst::BranchRegIf { reg_local: loc, fallthrough: next_pc(pc) },
                ]
            });
            let next = wrapped(pc + 4);
            let ctr = counted(m.sys.cpu.ctr, bo);
            let taken = counter_holds(ctr, bo) && condition_holds(
                m.sys.cpu.cr,
                bo,
                ins.field_bi(),
            );
            let lr = if ins.field_lk() {
                next
            } else {
                m.sys.cpu.lr
            };
            let after = run(code, m);
            &&& always ==> after.exit == Some(target) && after.sys == (SystemView {
                cpu: CpuView { lr, ..m.sys.cpu },
                ..m.sys
            })
            &&& !always ==> after.exit == Some(
                if taken {
                    target
                } else {
                    next
                },
            ) && after.sys == (SystemView { cpu: CpuView { lr, ctr, ..m.sys.cpu }, ..m.sys })
        }),
{
    broadcast use crate::ppcir::meaning::group_steps;

    ins.lemma_register_fields();
    let bi = ins.field_bi();
    let loc = local_at(n + 1, IrTy::I32);
    let always = ignores_condition(ins.field_bo()) && ignores_counter(ins.field_bo());
    let p1 = seq![source, LocalSet(loc)];
    run_2(source, LocalSet(loc), m);
    let m1 = run(p1, m);
    let p2 = link_code(pc, ins.field_lk());
    run_2(I32Const(next_pc(pc) as i32), StoreLr, m1);
    lemma_constant(next_pc(pc));
    lemma_bits(0, bo, pc, 0, 0);
    run_in_pieces(p1, p2, m);
    let m2 = run(p1 + p2, m);
    if always {
        let p3 = seq![LocalGet(loc), ReturnDynamic];
        run_2(LocalGet(loc), ReturnDynamic, m2);
        run_in_pieces(p1 + p2, p3, m);
    } else {
        let cond = branch_cond_code(bo, bi, n + 1);
        let last = IrInst::BranchRegIf { reg_local: loc, fallthrough: next_pc(pc) };
        lemma_branch_cond(bo, bi, n + 1, m2);
        run_in_pieces(cond, seq![last], m2);
        run_1(last, run(cond, m2));
        run_in_pieces(p1 + p2, cond + seq![last], m);
    }
}

#[verifier::spinoff_prover]
proof fn lemma_bclr(ins: Ins, pc: u32, n: nat, m: Machine)
    requires
        ready(m),
        ins.op is Bclr,
        n <= MAX_LOCALS,
        m.sys.cpu.lr & 3 == 0,
    ensures
        carried_out(run(translate(ins, pc, n), m), m, ins, pc),
{
    reveal(branch_code);
    lemma_to_register(ins, LoadLr, m.sys.cpu.lr, ins.field_bo(), pc, n, m);
    lemma_bits(0, ins.field_bo(), m.sys.cpu.lr, 0, 0);
}

#[verifier::spinoff_prover]
proof fn lemma_bcctr(ins: Ins, pc: u32, n: nat, m: Machine)
    requires
        ready(m),
        ins.op is Bcctr,
        n <= MAX_LOCALS,
        m.sys.cpu.ctr & 3 == 0,
        ignores_counter(ins.field_bo()),
    ensures
        carried_out(run(translate(ins, pc, n), m), m, ins, pc),
{
    reveal(branch_code);
    lemma_bits(0, ins.field_bo(), m.sys.cpu.ctr, 0, 0);
    lemma_to_register(ins, LoadCtr, m.sys.cpu.ctr, bcctr_options(ins), pc, n, m);
}

/// The address of the word `k` behind a displaced address.
proof fn lemma_word_address(base: u32, d: i16, k: int)
    requires
        0 <= k < 32,
    ensures
        wrapped(base + (((d as i32) + 4 * k) as i32) as u32) == word_address(
            wrapped(base + d),
            k,
        ),
        wrapped((((d as i32) + 4 * k) as i32) as u32 as int) == (((d as i32)
            + 4 * k) as i32) as u32,
{
    lemma_signed(((d as i32) + 4 * k) as i32);
}

/// Code that leaves the address of the word `k` behind a displaced address.
proof fn lemma_word_code(ins: Ins, k: int, m: Machine)
    requires
        m.exit is None,
        0 <= k < 32,
    ensures
        run(ea_d_code(ins.gpr_a(), ((ins.field_offset() as i32) + 4 * k) as i32), m)
            == m.pushed32(word_address(m.sys.displaced(ins), k)),
{
    broadcast use crate::ppcir::meaning::group_steps;

    let d = ((ins.field_offset() as i32) + 4 * k) as i32;
    let first = LoadGpr(ins.gpr_a());
    let second = I32Const(d);
    run_1(first, m);
    run_1(second, m);
    run_3(first, second, I32Add, m);
    lemma_word_address(m.sys.gpr_or_zero(ins.gpr_a()), ins.field_offset(), k);
}

/// The guest with registers `first` to `end - 1` stored to consecutive words.
spec fn words_stored(sys: SystemView, first: int, addr: u32, end: int) -> SystemView
    decreases end - first,
{
    if end <= first {
        sys
    } else {
        words_stored(sys, first, addr, end - 1).written32(
            word_address(addr, end - 1 - first),
            sys.cpu.gpr[end - 1],
        )
    }
}

proof fn lemma_stores_keep_registers(sys: SystemView, first: int, addr: u32, end: int)
    ensures
        words_stored(sys, first, addr, end).cpu == sys.cpu,
    decreases end - first,
{
    if end > first {
        lemma_stores_keep_registers(sys, first, addr, end - 1);
    }
}

/// The first store can be done first.
proof fn lemma_first_store(sys: SystemView, first: int, addr: u32, end: int)
    requires
        first < end,
    ensures
        words_stored(sys, first, addr, end) == words_stored(
            sys.written32(addr, sys.cpu.gpr[first]),
            first + 1,
            wrapped(addr + 4),
            end,
        ),
    decreases end - first,
{
    let (at, value) = (word_address(addr, end - 1 - first), sys.cpu.gpr[end - 1]);
    let before = words_stored(sys, first, addr, end - 1);
    let next = sys.written32(addr, sys.cpu.gpr[first]);
    let then = wrapped(addr + 4);
    let after = words_stored(next, first + 1, then, end - 1);
    assert(words_stored(sys, first, addr, end) == before.written32(at, value));
    if end > first + 1 {
        lemma_first_store(sys, first, addr, end - 1);
        lemma_next_word(addr, end - 2 - first);
        assert(next.cpu == sys.cpu);
        assert(words_stored(next, first + 1, then, end) == after.written32(at, value));
    } else {
        assert(before == sys);
        assert(at == addr);
        assert(words_stored(next, first + 1, then, end) == next);
    }
}

/// The words behind the next word.
proof fn lemma_next_word(addr: u32, k: int)
    ensures
        word_address(addr, k + 1) == word_address(wrapped(addr + 4), k),
{
}

proof fn lemma_all_stores(sys: SystemView, first: int, addr: u32)
    requires
        0 <= first <= 32,
    ensures
        words_stored(sys, first, addr, 32) == sys.stored_multiple(first, addr),
    decreases 32 - first,
{
    if first < 32 {
        lemma_first_store(sys, first, addr, 32);
        lemma_all_stores(
            sys.written32(addr, sys.cpu.gpr[first]),
            first + 1,
            wrapped(addr + 4),
        );
    }
}

proof fn lemma_store_words(ins: Ins, end: int, m: Machine)
    requires
        ready(m),
        ins.gpr_s() <= end <= 32,
    ensures
        ({
            let code = store_multiple_code(
                ins.gpr_s(),
                ins.gpr_a(),
                ins.field_offset() as i32,
                end,
            );
            &&& ready(run(code, m))
            &&& run(code, m).sys == words_stored(
                m.sys,
                ins.gpr_s() as int,
                m.sys.displaced(ins),
                end,
            )
        }),
    decreases end,
{
    broadcast use crate::ppcir::meaning::group_steps;

    let first = ins.gpr_s();
    let d = ins.field_offset() as i32;
    if end > first {
        lemma_store_words(ins, end - 1, m);
        let k = end - 1 - first;
        let p1 = store_multiple_code(first, ins.gpr_a(), d, end - 1);
        let p2 = ea_d_code(ins.gpr_a(), (d + 4 * k) as i32);
        let m1 = run(p1, m);
        lemma_stores_keep_registers(m.sys, first as int, m.sys.displaced(ins), end - 1);
        run_in_pieces(p1, p2, m);
        lemma_word_code(ins, k, m1);
        let load = LoadGpr((end - 1) as u8);
        run_2(load, WriteU32, run(p1 + p2, m));
        run_in_pieces(p1 + p2, seq![load, WriteU32], m);
    }
}

#[verifier::spinoff_prover]
proof fn lemma_stmw(ins: Ins, pc: u32, n: nat, m: Machine)
    requires
        ready(m),
        ins.op is Stmw,
    ensures
        carried_out(run(translate(ins, pc, n), m), m, ins, pc),
{
    reveal(bulk_code);
    ins.lemma_register_fields();
    let sys = m.sys.with_pc(pc);
    let (first, ea) = (ins.gpr_s() as int, sys.displaced(ins));
    lemma_store_words(ins, 32, m);
    lemma_all_stores(sys, first, ea);
    lemma_stores_at(m.sys, pc, first, ea, 32);
    lemma_stores_keep_registers(m.sys, first, ea, 32);
    assert(m.sys.displaced(ins) == ea);
    assert(effect(ins, sys) == Ok::<SystemView, Fault>(sys.stored_multiple(first, ea)));
}

/// Stores do not look at the program counter.
#[verifier::spinoff_prover]
proof fn lemma_stores_at(sys: SystemView, pc: u32, first: int, addr: u32, end: int)
    ensures
        words_stored(sys.with_pc(pc), first, addr, end) == words_stored(
            sys,
            first,
            addr,
            end,
        ).with_pc(pc),
    decreases end - first,
{
    if end > first {
        lemma_stores_at(sys, pc, first, addr, end - 1);
    }
}

/// The registers with `first` to `end - 1` loaded from consecutive words.
spec fn words_loaded(sys: SystemView, first: int, addr: u32, end: int) -> Seq<u32> {
    Seq::new(
        sys.cpu.gpr.len(),
        |r: int|
            if first <= r < end {
                be32_at(sys.ram, physical(word_address(addr, r - first)))
            } else {
                sys.cpu.gpr[r]
            },
    )
}

proof fn lemma_load_words(ins: Ins, end: int, m: Machine)
    requires
        ready(m),
        ins.gpr_d() <= end <= 32,
        m.sys.cpu.gpr.len() == 32,
        ins.gpr_a() == 0 || ins.gpr_a() < ins.gpr_d(),
        words_mapped(m.sys.ram, m.sys.displaced(ins), 32 - ins.gpr_d()),
    ensures
        ({
            let code = load_multiple_code(
                ins.gpr_d(),
                ins.gpr_a(),
                ins.field_offset() as i32,
                end,
            );
            let gpr = words_loaded(m.sys, ins.gpr_d() as int, m.sys.displaced(ins), end);
            &&& ready(run(code, m))
            &&& run(code, m).sys == (SystemView { cpu: CpuView { gpr, ..m.sys.cpu }, ..m.sys })
        }),
    decreases end,
{
    broadcast use crate::ppcir::meaning::group_steps;

    let first = ins.gpr_d();
    let d = ins.field_offset() as i32;
    let ea = m.sys.displaced(ins);
    let gpr = words_loaded(m.sys, first as int, ea, end);
    if end > first {
        lemma_load_words(ins, end - 1, m);
        let k = end - 1 - first;
        let p1 = load_multiple_code(first, ins.gpr_a(), d, end - 1);
        let p2 = ea_d_code(ins.gpr_a(), (d + 4 * k) as i32);
        let m1 = run(p1, m);
        assert(m1.sys.displaced(ins) == ea);
        run_in_pieces(p1, p2, m);
        lemma_word_code(ins, k, m1);
        let store = StoreGpr((end - 1) as u8);
        run_2(ReadU32, store, run(p1 + p2, m));
        run_in_pieces(p1 + p2, seq![ReadU32, store], m);
        assert(mapped(m.sys.ram, word_address(ea, k), 4));
        assert(gpr =~= m1.sys.cpu.gpr.update(end - 1, gpr[end - 1]));
    } else {
        assert(gpr =~= m.sys.cpu.gpr);
    }
}

#[verifier::spinoff_prover]
proof fn lemma_lmw(ins: Ins, pc: u32, n: nat, m: Machine)
    requires
        ready(m),
        ins.op is Lmw,
        m.sys.cpu.gpr.len() == 32,
        ins.gpr_a() == 0 || ins.gpr_a() < ins.gpr_d(),
        words_mapped(m.sys.ram, m.sys.displaced(ins), 32 - ins.gpr_d()),
    ensures
        carried_out(run(translate(ins, pc, n), m), m, ins, pc),
{
    reveal(bulk_code);
    ins.lemma_register_fields();
    let sys = m.sys.with_pc(pc);
    let (first, ea) = (ins.gpr_d(), m.sys.displaced(ins));
    lemma_load_words(ins, 32, m);
    assert(sys.displaced(ins) == ea);
    assert(words_loaded(m.sys, first as int, ea, 32) =~= sys.loaded_multiple(first, ea).cpu.gpr);
}

/// Whether translated code for `ins` does what the interpreter does with it on the
/// guest `sys`. Left out are requests for the overflow flags, requests to record a
/// result where the interpreter does not, quotients that do not exist, memory that is
/// not there, update forms that name one register twice, branch targets that are not
/// aligned, and what only one of the two executes.
pub open spec fn agrees(ins: Ins, sys: SystemView) -> bool {
    let a = sys.gpr(ins.gpr_a());
    let b = sys.gpr(ins.gpr_b());
    match ins.op {
        Opcode::Addi | Opcode::Addis | Opcode::Mulli | Opcode::Mulhw | Opcode::Mulhwu
        | Opcode::Addic | Opcode::Addic_ | Opcode::And | Opcode::Andc | Opcode::Xor | Opcode::Nor
        | Opcode::Ori | Opcode::Xoris | Opcode::Extsh | Opcode::Rlwinm | Opcode::Rlwimi
        | Opcode::Cmp | Opcode::Cmpi | Opcode::Cmpl | Opcode::Cmpli | Opcode::Stb | Opcode::Stbx
        | Opcode::Stw | Opcode::Stmw | Opcode::Mfmsr | Opcode::Mtmsr | Opcode::Rfi | Opcode::B
        | Opcode::Bc | Opcode::Sync | Opcode::Isync | Opcode::Icbi | Opcode::Dcbi
        | Opcode::Dcbf => true,
        Opcode::Add | Opcode::Neg | Opcode::Mullw | Opcode::Adde => !ins.field_oe(),
        Opcode::Addc => !ins.field_oe() && !bit(sys.cpu.xer, XER_CA),
        Opcode::Subf | Opcode::Subfc | Opcode::Subfe | Opcode::Addze | Opcode::Or
        | Opcode::Cntlzw => !ins.field_rc(),
        Opcode::Andi_ => ins.field_rc(),
        Opcode::Slw => !ins.field_rc() && b & 0x20 == 0,
        Opcode::Divw => !ins.field_oe() && signed_quotient(a, b) is Some,
        Opcode::Divwu => !ins.field_oe() && unsigned_quotient(a, b) is Some,
        Opcode::Lbz => mapped(sys.ram, sys.displaced(ins), 1),
        Opcode::Lhz => mapped(sys.ram, sys.displaced(ins), 2),
        Opcode::Lwz => mapped(sys.ram, sys.displaced(ins), 4),
        Opcode::Lhzx => mapped(sys.ram, sys.indexed(ins), 2),
        Opcode::Lwzx | Opcode::Stwx => mapped(sys.ram, sys.indexed(ins), 4),
        Opcode::Lbzu => update_form(ins, sys) && mapped(sys.ram, sys.displaced(ins), 1),
        Opcode::Lhzu => update_form(ins, sys) && mapped(sys.ram, sys.displaced(ins), 2),
        Opcode::Lwzu | Opcode::Stwu => ins.gpr_a() != 0 && mapped(
            sys.ram,
            sys.displaced(ins),
            4,
        ),
        Opcode::Lmw => sys.cpu.gpr.len() == 32 && (ins.gpr_a() == 0 || ins.gpr_a() < ins.gpr_d())
            && words_mapped(sys.ram, sys.displaced(ins), 32 - ins.gpr_d()),
        Opcode::Stbu => ins.gpr_a() != 0,
        Opcode::Sth => sys.displaced(ins) < u32::MAX,
        Opcode::Mfspr | Opcode::Mtspr => kept_special(ins.field_spr()),
        Opcode::Bclr => sys.cpu.lr & 3 == 0,
        Opcode::Bcctr => sys.cpu.ctr & 3 == 0 && ignores_counter(ins.field_bo()),
        _ => false,
    }
}

/// Whether a load with update names two registers, of which the first is not 0.
pub open spec fn update_form(ins: Ins, sys: SystemView) -> bool {
    ins.gpr_a() != 0 && ins.gpr_a() != ins.gpr_d() && sys.cpu.gpr.len() == 32
}

/// Cache and synchronisation hints do nothing.
proof fn lemma_hint(ins: Ins, pc: u32, n: nat, m: Machine)
    requires
        ready(m),
        ins.op is Sync || ins.op is Isync || ins.op is Icbi || ins.op is Dcbi || ins.op is Dcbf,
    ensures
        carried_out(run(translate(ins, pc, n), m), m, ins, pc),
{
}

/// The code that an instruction is translated to does what the interpreter does with
/// the instruction.
pub proof fn translation_agrees(ins: Ins, pc: u32, n: nat, m: Machine)
    requires
        ready(m),
        n <= MAX_LOCALS,
        agrees(ins, m.sys),
    ensures
        carried_out(run(translate(ins, pc, n), m), m, ins, pc),
{
    match ins.op {
        Opcode::Add => lemma_add(ins, pc, n, m),
        Opcode::Addi => lemma_addi(ins, pc, n, m),
        Opcode::Addis => lemma_addis(ins, pc, n, m),
        Opcode::Subf => lemma_subf(ins, pc, n, m),
        Opcode::Neg => lemma_neg(ins, pc, n, m),
        Opcode::Mulli => lemma_mulli(ins, pc, n, m),
        Opcode::Mullw => lemma_mullw(ins, pc, n, m),
        Opcode::Mulhw => lemma_mulhw(ins, pc, n, m),
        Opcode::Mulhwu => lemma_mulhwu(ins, pc, n, m),
        Opcode::And => lemma_and(ins, pc, n, m),
        Opcode::Andc => lemma_andc(ins, pc, n, m),
        Opcode::Or => lemma_or(ins, pc, n, m),
        Opcode::Xor => lemma_xor(ins, pc, n, m),
        Opcode::Nor => lemma_nor(ins, pc, n, m),
        Opcode::Andi_ => lemma_andi(ins, pc, n, m),
        Opcode::Ori => lemma_ori(ins, pc, n, m),
        Opcode::Xoris => lemma_xoris(ins, pc, n, m),
        Opcode::Cntlzw => lemma_cntlzw(ins, pc, n, m),
        Opcode::Extsh => lemma_extsh(ins, pc, n, m),
        Opcode::Mfmsr => lemma_mfmsr(ins, pc, n, m),
        Opcode::Addic => lemma_addic(ins, pc, n, m),
        Opcode::Addic_ => lemma_addic_record(ins, pc, n, m),
        Opcode::Addc => lemma_addc(ins, pc, n, m),
        Opcode::Adde => lemma_adde(ins, pc, n, m),
        Opcode::Addze => lemma_addze(ins, pc, n, m),
        Opcode::Subfc => lemma_subfc(ins, pc, n, m),
        Opcode::Subfe => lemma_subfe(ins, pc, n, m),
        Opcode::Rlwinm => lemma_rlwinm(ins, pc, n, m),
        Opcode::Rlwimi => lemma_rlwimi(ins, pc, n, m),
        Opcode::Slw => lemma_slw(ins, pc, n, m),
        Opcode::Cmp => lemma_compare(ins, pc, n, m),
        Opcode::Cmpi => lemma_compare_immediate(ins, pc, n, m),
        Opcode::Cmpl => lemma_compare_logical(ins, pc, n, m),
        Opcode::Cmpli => lemma_compare_logical_immediate(ins, pc, n, m),
        Opcode::Divw => lemma_divw(ins, pc, n, m),
        Opcode::Divwu => lemma_divwu(ins, pc, n, m),
        Opcode::Lbz => lemma_lbz(ins, pc, n, m),
        Opcode::Lhz => lemma_lhz(ins, pc, n, m),
        Opcode::Lwz => lemma_lwz(ins, pc, n, m),
        Opcode::Lhzx => lemma_lhzx(ins, pc, n, m),
        Opcode::Lwzx => lemma_lwzx(ins, pc, n, m),
        Opcode::Lbzu => lemma_lbzu(ins, pc, n, m),
        Opcode::Lhzu => lemma_lhzu(ins, pc, n, m),
        Opcode::Lwzu => lemma_lwzu(ins, pc, n, m),
        Opcode::Stb => lemma_stb(ins, pc, n, m),
        Opcode::Stbx => lemma_stbx(ins, pc, n, m),
        Opcode::Sth => lemma_sth(ins, pc, n, m),
        Opcode::Stw => lemma_stw(ins, pc, n, m),
        Opcode::Stwx => lemma_stwx(ins, pc, n, m),
        Opcode::Stbu => lemma_stbu(ins, pc, n, m),
        Opcode::Stwu => lemma_stwu(ins, pc, n, m),
        Opcode::Mfspr => lemma_mfspr(ins, pc, n, m),
        Opcode::Mtspr => lemma_mtspr(ins, pc, n, m),
        Opcode::Mtmsr => lemma_mtmsr(ins, pc, n, m),
        Opcode::Rfi => lemma_rfi(ins, pc, n, m),
        Opcode::B => lemma_b(ins, pc, n, m),
        Opcode::Bc => lemma_bc(ins, pc, n, m),
        Opcode::Bclr => lemma_bclr(ins, pc, n, m),
        Opcode::Bcctr => lemma_bcctr(ins, pc, n, m),
        Opcode::Lmw => lemma_lmw(ins, pc, n, m),
        Opcode::Stmw => lemma_stmw(ins, pc, n, m),
        _ => lemma_hint(ins, pc, n, m),
    }
}

/// The guest after the interpreter has executed `instructions`, each at its address.
pub open spec fn interpreted(instructions: Seq<(u32, Ins)>, sys: SystemView) -> SystemView
    decreases instructions.len(),
{
    if instructions.len() == 0 {
        sys
    } else {
        let before = interpreted(instructions.drop_last(), sys);
        let (pc, ins) = instructions.last();
        effect(ins, before.with_pc(pc)).unwrap()
    }
}

/// Whether both kinds of execution agree on each of `instructions` when it is reached
/// from the guest `sys`.
pub open spec fn all_agree(instructions: Seq<(u32, Ins)>, sys: SystemView) -> bool
    decreases instructions.len(),
{
    instructions.len() == 0 || {
        let before = interpreted(instructions.drop_last(), sys);
        all_agree(instructions.drop_last(), sys) && agrees(
            instructions.last().1,
            before.with_pc(sys.cpu.pc),
        )
    }
}

/// Code for a run of instructions of which none ends a block does what the interpreter
/// does with all of them, in order.
pub proof fn straight_code_agrees(instructions: Seq<(u32, Ins)>, m: Machine)
    requires
        ready(m),
        translate_all(instructions).locals.len() <= MAX_LOCALS,
        all_agree(instructions, m.sys),
        forall|i: int| 0 <= i < instructions.len()
            ==> !ends_block((#[trigger] instructions[i]).1.op),
    ensures
        ready(run(translate_all(instructions).insts, m)),
        run(translate_all(instructions).insts, m).sys == interpreted(
            instructions,
            m.sys,
        ).with_pc(m.sys.cpu.pc),
    decreases instructions.len(),
{
    if instructions.len() > 0 {
        let rest = instructions.drop_last();
        assert(forall|i: int| 0 <= i < rest.len() ==> rest[i] == instructions[i]);
        straight_code_agrees(rest, m);
        lemma_last_agrees(instructions, m);
    }
}

/// The last of `instructions`, after code for the others has done what it should.
proof fn lemma_last_agrees(instructions: Seq<(u32, Ins)>, m: Machine)
    requires
        0 < instructions.len(),
        translate_all(instructions).locals.len() <= MAX_LOCALS,
        all_agree(instructions, m.sys),
        ready(run(translate_all(instructions.drop_last()).insts, m)),
        run(translate_all(instructions.drop_last()).insts, m).sys == interpreted(
            instructions.drop_last(),
            m.sys,
        ).with_pc(m.sys.cpu.pc),
    ensures
        ({
            let after = run(translate_all(instructions).insts, m);
            let guest = interpreted(instructions, m.sys);
            let (pc, ins) = instructions.last();
            &&& after.sys == guest.with_pc(m.sys.cpu.pc)
            &&& ends_block(ins.op) ==> after.exit == Some(
                if ins.op is Mtmsr {
                    next_pc(pc)
                } else {
                    guest.cpu.pc
                },
            )
            &&& !ends_block(ins.op) ==> ready(after)
        }),
{
    reveal(leave_code);
    let rest = instructions.drop_last();
    let (pc, ins) = instructions.last();
    let block = translate_all(rest);
    let n = block.locals.len();
    let m1 = run(block.insts, m);
    run_in_pieces(block.insts, translate(ins, pc, n), m);
    translation_agrees(ins, pc, n, m1);
    let before = interpreted(rest, m.sys);
    assert(m1.sys.with_pc(pc) == before.with_pc(pc));
}

/// A decoded block does what the interpreter does with its instructions, and goes on
/// where the interpreter would: where the last instruction branches to, or else behind
/// it.
pub proof fn blocks_agree(instructions: Seq<(u32, Ins)>, m: Machine)
    requires
        ready(m),
        0 < instructions.len(),
        decoded(instructions).locals.len() <= MAX_LOCALS,
        all_agree(instructions.take(block_length(instructions) as int), m.sys),
    ensures
        ({
            let taken = instructions.take(block_length(instructions) as int);
            let after = run(decoded(instructions).insts, m);
            let guest = interpreted(taken, m.sys);
            let (pc, ins) = taken.last();
            &&& after.sys == guest.with_pc(m.sys.cpu.pc)
            &&& after.exit == Some(
                if ends_block(ins.op) && !(ins.op is Mtmsr) {
                    guest.cpu.pc
                } else {
                    next_pc(pc)
                },
            )
        }),
{
    reveal(leave_code);
    let taken = instructions.take(block_length(instructions) as int);
    block_is_prefix(instructions);
    let rest = taken.drop_last();
    assert(forall|i: int| 0 <= i < rest.len() ==> rest[i] == instructions[i]);
    straight_code_agrees(rest, m);
    lemma_last_agrees(taken, m);
    if !ends_block(taken.last().1.op) {
        let block = translate_all(taken);
        let last = ReturnStatic(next_pc(taken.last().0));
        assert(block.insts.push(last) =~= block.insts + seq![last]);
        run_in_pieces(block.insts, seq![last], m);
        run_1(last, run(block.insts, m));
        step_return_static(next_pc(taken.last().0), run(block.insts, m));
    }
}

} // verus!
