//! Operand-stack typing of the intermediate representation.
//!
//! A block is well typed when every instruction finds the operands it needs on
//! the stack, every local and register that it names exists, and control leaves
//! the block at its end and nowhere else. Everything the decoder produces is.

use vstd::prelude::*;

use super::inst::{local_at, IrInst, IrLocal, IrTy};
use super::translate::{
    arithmetic_code, arithmetic_locals, block_length, branch_code, branch_locals, bulk_code,
    bulk_locals, carry_add_code, carry_add_locals, carry_code, carry_sub_code, carry_sub_locals,
    clear_registers_code, compare_code, compare_signed_code, compare_unsigned_code, condition_code,
    cycle_cost, decoded, ends_block, estimate_code, estimate_locals, float_compare_code,
    float_compare_locals, float_load_code, float_load_locals, float_store_code, float_store_locals,
    fma_kind, fma_locals, fma_paired_code, fma_scalar_code, int_result_code, leave_code,
    lemma_locals_bound, load_code, load_locals, load_multiple_code, load_string_code, locals_of,
    logic_code, logic_locals, next_pc, paired_code, paired_locals, rotate_family_code,
    rotate_family_locals, scalar_code, scalar_locals, set_field_code, shift_code, shift_locals,
    store_code, store_locals, store_multiple_code, store_string_code, string_length, system_code,
    system_locals, translate, translate_all, zero_words_code, MAX_LOCALS,
};
use crate::disasm::Ins;

verus! {

/// Type of a value on the operand stack.
pub enum StackTy {
    I32,
    I64,
    F64,
}

/// Types on the operand stack, the top first.
pub enum TyStack {
    Empty,
    Push(StackTy, Box<TyStack>),
}

/// Typing state between two instructions.
pub enum TyState {
    /// Control is here, with these operands on the stack.
    Open(TyStack),
    /// Control has left the block.
    Closed,
    /// Some instruction did not fit.
    Bad,
}

/// The stack with nothing on it.
pub open spec fn empty_stack() -> TyState {
    TyState::Open(TyStack::Empty)
}

impl TyState {
    /// One operand of type `ty` more.
    pub open spec fn push(self, ty: StackTy) -> TyState {
        match self {
            TyState::Open(stack) => TyState::Open(TyStack::Push(ty, Box::new(stack))),
            _ => TyState::Bad,
        }
    }

    /// One operand of type `ty` less.
    pub open spec fn pop(self, ty: StackTy) -> TyState {
        match self {
            TyState::Open(TyStack::Push(top, rest)) => {
                if top == ty {
                    TyState::Open(*rest)
                } else {
                    TyState::Bad
                }
            },
            _ => TyState::Bad,
        }
    }

    /// Control leaves the block; nothing may be left on the stack.
    pub open spec fn leave(self) -> TyState {
        match self {
            TyState::Open(TyStack::Empty) => TyState::Closed,
            _ => TyState::Bad,
        }
    }

    /// The state itself if `fits` holds.
    pub open spec fn check(self, fits: bool) -> TyState {
        if fits {
            self
        } else {
            TyState::Bad
        }
    }
}

/// The stack type of a local.
pub open spec fn stack_ty(ty: IrTy) -> StackTy {
    match ty {
        IrTy::I32 => StackTy::I32,
        IrTy::F64 => StackTy::F64,
    }
}

/// Whether `local` is one of `locals`, by its index and its type.
pub open spec fn local_fits(local: IrLocal, locals: Seq<IrTy>) -> bool {
    0 < local.index <= locals.len() && locals[local.index - 1] == local.ty
}

/// Whether the registers and locals that an instruction names exist.
pub open spec fn operands_fit(inst: IrInst, locals: Seq<IrTy>) -> bool {
    match inst {
        IrInst::LocalSet(l) | IrInst::LocalGet(l) | IrInst::LocalTee(l) => local_fits(l, locals),
        IrInst::BranchRegIf { reg_local, .. } => {
            local_fits(reg_local, locals) && reg_local.ty == IrTy::I32
        },
        IrInst::LoadGpr(r) | IrInst::LoadFprPs0(r) | IrInst::LoadFprPs1(r) | IrInst::StoreGpr(r)
        | IrInst::StoreFprPs0(r) | IrInst::StoreFprPs1(r) => r < 32,
        IrInst::LoadSprg(n) | IrInst::StoreSprg(n) => n < 4,
        IrInst::LoadGqr(n) | IrInst::StoreGqr(n) => n < 8,
        _ => true,
    }
}

/// The state after one instruction whose operands exist.
pub open spec fn stack_step(state: TyState, inst: IrInst) -> TyState {
    let i = StackTy::I32;
    let l = StackTy::I64;
    let f = StackTy::F64;
    match inst {
        IrInst::I32Const(_) | IrInst::LoadGpr(_) | IrInst::LoadCr | IrInst::LoadLr
        | IrInst::LoadCtr | IrInst::LoadXer | IrInst::LoadMsr | IrInst::LoadSrr0
        | IrInst::LoadSrr1 | IrInst::LoadSprg(_) | IrInst::LoadTbLo | IrInst::LoadTbHi
        | IrInst::LoadDec | IrInst::LoadGqr(_) | IrInst::LoadFpscr => state.push(i),
        IrInst::F64Const(_) | IrInst::LoadFprPs0(_) | IrInst::LoadFprPs1(_) => state.push(f),
        IrInst::Drop => state.pop(i),
        IrInst::LocalSet(x) => state.pop(stack_ty(x.ty)),
        IrInst::LocalGet(x) => state.push(stack_ty(x.ty)),
        IrInst::LocalTee(x) => state.pop(stack_ty(x.ty)).push(stack_ty(x.ty)),
        IrInst::StoreGpr(_) | IrInst::StoreCr | IrInst::StoreLr | IrInst::StoreCtr
        | IrInst::StoreXer | IrInst::StoreMsr | IrInst::StoreSrr0 | IrInst::StoreSrr1
        | IrInst::StoreSprg(_) | IrInst::StoreDec | IrInst::StorePC | IrInst::StoreGqr(_)
        | IrInst::StoreFpscr => state.pop(i),
        IrInst::StoreFprPs0(_) | IrInst::StoreFprPs1(_) => state.pop(f),
        IrInst::I32Add | IrInst::I32Sub | IrInst::I32Mul | IrInst::I32DivS | IrInst::I32DivU
        | IrInst::I32And | IrInst::I32Or | IrInst::I32Xor | IrInst::I32Shl | IrInst::I32ShrU
        | IrInst::I32ShrS | IrInst::I32Rotl | IrInst::I32Eq | IrInst::I32Ne | IrInst::I32LtS
        | IrInst::I32LtU | IrInst::I32GtS | IrInst::I32GtU => state.pop(i).pop(i).push(i),
        IrInst::I32Not | IrInst::I32Clz | IrInst::I32Ctz | IrInst::I32Eqz | IrInst::I32Extend8S
        | IrInst::I32Extend16S | IrInst::I32Bswap | IrInst::I32Bswap16 => state.pop(i).push(i),
        IrInst::F64Add | IrInst::F64Sub | IrInst::F64Mul | IrInst::F64Div => {
            state.pop(f).pop(f).push(f)
        },
        IrInst::F64Neg | IrInst::F64Abs | IrInst::F64Sqrt | IrInst::F64RoundToSingle
        | IrInst::F64Nearest => state.pop(f).push(f),
        IrInst::F64Lt | IrInst::F64Gt | IrInst::F64Eq => state.pop(f).pop(f).push(i),
        IrInst::F64FromI32S | IrInst::F64PromoteSingleBits => state.pop(i).push(f),
        IrInst::I32TruncF64S | IrInst::I32TruncSatF64S | IrInst::I32DemoteToSingleBits
        | IrInst::I32FromF64LowBits => state.pop(f).push(i),
        IrInst::F64ReinterpretI64 => state.pop(l).push(f),
        IrInst::F64Select => state.pop(i).pop(f).pop(f).push(f),
        IrInst::I64ExtendI32S | IrInst::I64ExtendI32U => state.pop(i).push(l),
        IrInst::I64Mul => state.pop(l).pop(l).push(l),
        IrInst::I64ShrS32 | IrInst::I64ShrU32 | IrInst::I32WrapI64 => state.pop(l).push(i),
        IrInst::I64ReinterpretF64 => state.pop(f).push(l),
        IrInst::ReadU8 | IrInst::ReadU16 | IrInst::ReadU32 => state.pop(i).push(i),
        IrInst::ReadF64 => state.pop(i).push(f),
        IrInst::WriteU8 | IrInst::WriteU16 | IrInst::WriteU32 => state.pop(i).pop(i),
        IrInst::WriteF64 => state.pop(f).pop(i),
        IrInst::PsqLoad => state.pop(i).pop(i).push(f),
        IrInst::PsqStore => state.pop(f).pop(i).pop(i).push(i),
        IrInst::PsqLoadSize => state.pop(i).push(i),
        IrInst::ReturnStatic(_) | IrInst::RaiseException(_) => state.leave(),
        IrInst::ReturnDynamic | IrInst::BranchIf { .. } | IrInst::BranchRegIf { .. } => {
            state.pop(i).leave()
        },
    }
}

/// The state after one instruction.
pub open spec fn ty_step(state: TyState, inst: IrInst, locals: Seq<IrTy>) -> TyState {
    stack_step(state, inst).check(operands_fit(inst, locals))
}

/// The state after all of `code`.
#[verifier::opaque]
pub open spec fn ty_run(code: Seq<IrInst>, locals: Seq<IrTy>, state: TyState) -> TyState
    decreases code.len(),
{
    if code.len() == 0 {
        state
    } else {
        ty_step(ty_run(code.drop_last(), locals, state), code.last(), locals)
    }
}

pub broadcast proof fn ty_run_push(
    code: Seq<IrInst>,
    inst: IrInst,
    locals: Seq<IrTy>,
    state: TyState,
)
    ensures
        #[trigger] ty_run(code.push(inst), locals, state) == ty_step(
            ty_run(code, locals, state),
            inst,
            locals,
        ),
{
    reveal(ty_run);
    assert(code.push(inst).drop_last() =~= code);
}

pub broadcast proof fn ty_run_empty(locals: Seq<IrTy>, state: TyState)
    ensures
        #[trigger] ty_run(Seq::<IrInst>::empty(), locals, state) == state,
{
    reveal(ty_run);
}

pub broadcast proof fn ty_run_append(
    a: Seq<IrInst>,
    b: Seq<IrInst>,
    locals: Seq<IrTy>,
    state: TyState,
)
    ensures
        #[trigger] ty_run(a + b, locals, state) == ty_run(b, locals, ty_run(a, locals, state)),
    decreases b.len(),
{
    reveal(ty_run);
    if b.len() == 0 {
        assert(a + b =~= a);
    } else {
        ty_run_append(a, b.drop_last(), locals, state);
        assert((a + b).drop_last() =~= a + b.drop_last());
        assert((a + b).last() == b.last());
    }
}

broadcast proof fn ty_run_2(code: [IrInst; 2], locals: Seq<IrTy>, state: TyState)
    ensures
        #[trigger] ty_run(code@, locals, state) == ty_step(ty_step(state, code@[0], locals),
            code@[1], locals),
{
    reveal_with_fuel(ty_run, 3);
}

broadcast proof fn ty_run_3(code: [IrInst; 3], locals: Seq<IrTy>, state: TyState)
    ensures
        #[trigger] ty_run(code@, locals, state) == ty_step(ty_step(ty_step(state, code@[0],
            locals), code@[1], locals), code@[2], locals),
{
    reveal_with_fuel(ty_run, 4);
}

broadcast proof fn ty_run_4(code: [IrInst; 4], locals: Seq<IrTy>, state: TyState)
    ensures
        #[trigger] ty_run(code@, locals, state) == ty_step(ty_step(ty_step(ty_step(state, code@[0],
            locals), code@[1], locals), code@[2], locals), code@[3], locals),
{
    reveal_with_fuel(ty_run, 5);
}

broadcast proof fn ty_run_5(code: [IrInst; 5], locals: Seq<IrTy>, state: TyState)
    ensures
        #[trigger] ty_run(code@, locals, state) == ty_step(ty_step(ty_step(ty_step(ty_step(state,
            code@[0], locals), code@[1], locals), code@[2], locals), code@[3], locals), code@[4],
            locals),
{
    reveal_with_fuel(ty_run, 6);
}

broadcast proof fn ty_run_6(code: [IrInst; 6], locals: Seq<IrTy>, state: TyState)
    ensures
        #[trigger] ty_run(code@, locals, state)
            == ty_step(ty_step(ty_step(ty_step(ty_step(ty_step(state, code@[0], locals), code@[1],
            locals), code@[2], locals), code@[3], locals), code@[4], locals), code@[5], locals),
{
    reveal_with_fuel(ty_run, 7);
}

broadcast proof fn ty_run_7(code: [IrInst; 7], locals: Seq<IrTy>, state: TyState)
    ensures
        #[trigger] ty_run(code@, locals, state)
            == ty_step(ty_step(ty_step(ty_step(ty_step(ty_step(ty_step(state, code@[0], locals),
            code@[1], locals), code@[2], locals), code@[3], locals), code@[4], locals), code@[5],
            locals), code@[6], locals),
{
    reveal_with_fuel(ty_run, 8);
}

broadcast proof fn ty_run_8(code: [IrInst; 8], locals: Seq<IrTy>, state: TyState)
    ensures
        #[trigger] ty_run(code@, locals, state)
            == ty_step(ty_step(ty_step(ty_step(ty_step(ty_step(ty_step(ty_step(state, code@[0],
            locals), code@[1], locals), code@[2], locals), code@[3], locals), code@[4], locals),
            code@[5], locals), code@[6], locals), code@[7], locals),
{
    reveal_with_fuel(ty_run, 9);
}

pub broadcast group group_ty_run {
    ty_run_push,
    ty_run_empty,
    ty_run_append,
    ty_run_2,
    ty_run_3,
    ty_run_4,
    ty_run_5,
    ty_run_6,
    ty_run_7,
    ty_run_8,
}

/// Setting a condition field from three tests leaves the stack as it was.
proof fn lemma_set_field(
    field: u8,
    lt: Seq<IrInst>,
    gt: Seq<IrInst>,
    eq: Seq<IrInst>,
    locals: Seq<IrTy>,
    state: TyState,
)
    requires
        state is Open,
        forall|s: TyState| s is Open ==> #[trigger] ty_run(lt, locals, s) == s.push(StackTy::I32),
        forall|s: TyState| s is Open ==> #[trigger] ty_run(gt, locals, s) == s.push(StackTy::I32),
        forall|s: TyState| s is Open ==> #[trigger] ty_run(eq, locals, s) == s.push(StackTy::I32),
    ensures
        ty_run(set_field_code(field, lt, gt, eq), locals, state) == state,
{
    broadcast use group_ty_run;

    reveal(set_field_code);
}

/// Storing a result consumes one operand.
broadcast proof fn ty_run_int_result(
    rd: u8,
    rc: bool,
    n: nat,
    locals: Seq<IrTy>,
    state: TyState,
)
    requires
        rd < 32,
        n < u32::MAX,
        state is Open,
        state.pop(StackTy::I32) is Open,
        rc ==> locals.len() > n && locals[n as int] == IrTy::I32,
    ensures
        #[trigger] ty_run(int_result_code(rd, rc, n), locals, state) == state.pop(StackTy::I32),
{
    broadcast use group_ty_run;

    reveal(int_result_code);
    if rc {
        let loc = local_at(n + 1, IrTy::I32);
        let lt = seq![IrInst::LocalGet(loc), IrInst::I32Const(0), IrInst::I32LtS];
        let gt = seq![IrInst::LocalGet(loc), IrInst::I32Const(0), IrInst::I32GtS];
        let eq = seq![IrInst::LocalGet(loc), IrInst::I32Eqz];
        lemma_set_field(0, lt, gt, eq, locals, state.pop(StackTy::I32));
    }
}

/// Recording a carry leaves the stack as it was.
broadcast proof fn ty_run_carry(carry: IrLocal, locals: Seq<IrTy>, state: TyState)
    requires
        state is Open,
        local_fits(carry, locals),
        carry.ty == IrTy::I32,
    ensures
        #[trigger] ty_run(carry_code(carry), locals, state) == state,
{
    broadcast use group_ty_run;

    reveal(carry_code);
}

/// Comparing two locals as signed values leaves the stack as it was.
broadcast proof fn ty_run_compare_signed(
    field: u8,
    lhs: IrLocal,
    rhs: IrLocal,
    locals: Seq<IrTy>,
    state: TyState,
)
    requires
        state is Open,
        local_fits(lhs, locals) && lhs.ty == IrTy::I32,
        local_fits(rhs, locals) && rhs.ty == IrTy::I32,
    ensures
        #[trigger] ty_run(compare_signed_code(field, lhs, rhs), locals, state) == state,
{
    broadcast use group_ty_run;

    reveal(compare_signed_code);
    lemma_set_field(
        field,
        seq![IrInst::LocalGet(lhs), IrInst::LocalGet(rhs), IrInst::I32LtS],
        seq![IrInst::LocalGet(lhs), IrInst::LocalGet(rhs), IrInst::I32GtS],
        seq![IrInst::LocalGet(lhs), IrInst::LocalGet(rhs), IrInst::I32Eq],
        locals,
        state,
    );
}

/// Comparing two locals as unsigned values leaves the stack as it was.
broadcast proof fn ty_run_compare_unsigned(
    field: u8,
    lhs: IrLocal,
    rhs: IrLocal,
    locals: Seq<IrTy>,
    state: TyState,
)
    requires
        state is Open,
        local_fits(lhs, locals) && lhs.ty == IrTy::I32,
        local_fits(rhs, locals) && rhs.ty == IrTy::I32,
    ensures
        #[trigger] ty_run(compare_unsigned_code(field, lhs, rhs), locals, state) == state,
{
    broadcast use group_ty_run;

    reveal(compare_unsigned_code);
    lemma_set_field(
        field,
        seq![IrInst::LocalGet(lhs), IrInst::LocalGet(rhs), IrInst::I32LtU],
        seq![IrInst::LocalGet(lhs), IrInst::LocalGet(rhs), IrInst::I32GtU],
        seq![IrInst::LocalGet(lhs), IrInst::LocalGet(rhs), IrInst::I32Eq],
        locals,
        state,
    );
}

broadcast group group_ty_helpers {
    ty_run_int_result,
    ty_run_carry,
    ty_run_compare_signed,
    ty_run_compare_unsigned,
}

proof fn lemma_load_multiple(rd: u8, ra: u8, d: i32, end: int, locals: Seq<IrTy>)
    requires
        end <= 32,
        ra < 32,
    ensures
        ty_run(load_multiple_code(rd, ra, d, end), locals, empty_stack()) == empty_stack(),
    decreases end - rd,
{
    broadcast use group_ty_run;

    if end > rd {
        lemma_load_multiple(rd, ra, d, end - 1, locals);
    }
}

proof fn lemma_store_multiple(rs: u8, ra: u8, d: i32, end: int, locals: Seq<IrTy>)
    requires
        end <= 32,
        ra < 32,
    ensures
        ty_run(store_multiple_code(rs, ra, d, end), locals, empty_stack()) == empty_stack(),
    decreases end - rs,
{
    broadcast use group_ty_run;

    if end > rs {
        lemma_store_multiple(rs, ra, d, end - 1, locals);
    }
}

proof fn lemma_zero_words(ea: IrLocal, count: int, locals: Seq<IrTy>)
    requires
        local_fits(ea, locals) && ea.ty == IrTy::I32,
    ensures
        ty_run(zero_words_code(ea, count), locals, empty_stack()) == empty_stack(),
    decreases count,
{
    broadcast use group_ty_run;

    if count > 0 {
        lemma_zero_words(ea, count - 1, locals);
    }
}

proof fn lemma_clear_registers(rd: u8, count: int, locals: Seq<IrTy>)
    ensures
        ty_run(clear_registers_code(rd, count), locals, empty_stack()) == empty_stack(),
    decreases count,
{
    broadcast use group_ty_run;

    if count > 0 {
        lemma_clear_registers(rd, count - 1, locals);
    }
}

proof fn lemma_load_string(rd: u8, ea: IrLocal, count: int, locals: Seq<IrTy>)
    requires
        local_fits(ea, locals) && ea.ty == IrTy::I32,
    ensures
        ty_run(load_string_code(rd, ea, count), locals, empty_stack()) == empty_stack(),
    decreases count,
{
    broadcast use group_ty_run;

    if count > 0 {
        lemma_load_string(rd, ea, count - 1, locals);
    }
}

proof fn lemma_store_string(rs: u8, ea: IrLocal, count: int, locals: Seq<IrTy>)
    requires
        local_fits(ea, locals) && ea.ty == IrTy::I32,
    ensures
        ty_run(store_string_code(rs, ea, count), locals, empty_stack()) == empty_stack(),
    decreases count,
{
    broadcast use group_ty_run;

    if count > 0 {
        lemma_store_string(rs, ea, count - 1, locals);
    }
}

#[verifier::spinoff_prover]
#[verifier::rlimit(100)]
proof fn lemma_arithmetic(ins: Ins, before: Seq<IrTy>)
    requires
        before.len() < MAX_LOCALS,
    ensures
        ty_run(
            arithmetic_code(ins, before.len()),
            before + arithmetic_locals(ins),
            empty_stack(),
        ) == empty_stack(),
{
    reveal(arithmetic_code);
    broadcast use {group_ty_run, group_ty_helpers};

    ins.lemma_register_fields();
}

#[verifier::spinoff_prover]
#[verifier::rlimit(100)]
proof fn lemma_carry_add(ins: Ins, before: Seq<IrTy>)
    requires
        before.len() < MAX_LOCALS,
    ensures
        ty_run(
            carry_add_code(ins, before.len()),
            before + carry_add_locals(ins),
            empty_stack(),
        ) == empty_stack(),
{
    reveal(carry_add_code);
    broadcast use {group_ty_run, group_ty_helpers};

    ins.lemma_register_fields();
}

#[verifier::spinoff_prover]
#[verifier::rlimit(100)]
proof fn lemma_carry_sub(ins: Ins, before: Seq<IrTy>)
    requires
        before.len() < MAX_LOCALS,
    ensures
        ty_run(
            carry_sub_code(ins, before.len()),
            before + carry_sub_locals(ins),
            empty_stack(),
        ) == empty_stack(),
{
    reveal(carry_sub_code);
    broadcast use {group_ty_run, group_ty_helpers};

    ins.lemma_register_fields();
}

#[verifier::spinoff_prover]
#[verifier::rlimit(100)]
proof fn lemma_logic(ins: Ins, before: Seq<IrTy>)
    requires
        before.len() < MAX_LOCALS,
    ensures
        ty_run(
            logic_code(ins, before.len()),
            before + logic_locals(ins),
            empty_stack(),
        ) == empty_stack(),
{
    reveal(logic_code);
    broadcast use {group_ty_run, group_ty_helpers};

    ins.lemma_register_fields();
}

#[verifier::spinoff_prover]
#[verifier::rlimit(100)]
proof fn lemma_shift(ins: Ins, before: Seq<IrTy>)
    requires
        before.len() < MAX_LOCALS,
    ensures
        ty_run(
            shift_code(ins, before.len()),
            before + shift_locals(ins),
            empty_stack(),
        ) == empty_stack(),
{
    reveal(shift_code);
    broadcast use {group_ty_run, group_ty_helpers};

    ins.lemma_register_fields();
}

#[verifier::spinoff_prover]
#[verifier::rlimit(100)]
proof fn lemma_load(ins: Ins, before: Seq<IrTy>)
    requires
        before.len() < MAX_LOCALS,
    ensures
        ty_run(
            load_code(ins, before.len()),
            before + load_locals(ins),
            empty_stack(),
        ) == empty_stack(),
{
    reveal(load_code);
    broadcast use {group_ty_run, group_ty_helpers};

    ins.lemma_register_fields();
}

#[verifier::spinoff_prover]
#[verifier::rlimit(100)]
proof fn lemma_store(ins: Ins, before: Seq<IrTy>)
    requires
        before.len() < MAX_LOCALS,
    ensures
        ty_run(
            store_code(ins, before.len()),
            before + store_locals(ins),
            empty_stack(),
        ) == empty_stack(),
{
    reveal(store_code);
    broadcast use {group_ty_run, group_ty_helpers};

    ins.lemma_register_fields();
}

#[verifier::spinoff_prover]
#[verifier::rlimit(100)]
proof fn lemma_float_load(ins: Ins, before: Seq<IrTy>)
    requires
        before.len() < MAX_LOCALS,
    ensures
        ty_run(
            float_load_code(ins, before.len()),
            before + float_load_locals(ins),
            empty_stack(),
        ) == empty_stack(),
{
    reveal(float_load_code);
    broadcast use {group_ty_run, group_ty_helpers};

    ins.lemma_register_fields();
}

#[verifier::spinoff_prover]
#[verifier::rlimit(100)]
proof fn lemma_float_store(ins: Ins, before: Seq<IrTy>)
    requires
        before.len() < MAX_LOCALS,
    ensures
        ty_run(
            float_store_code(ins, before.len()),
            before + float_store_locals(ins),
            empty_stack(),
        ) == empty_stack(),
{
    reveal(float_store_code);
    broadcast use {group_ty_run, group_ty_helpers};

    ins.lemma_register_fields();
}

#[verifier::spinoff_prover]
#[verifier::rlimit(100)]
proof fn lemma_scalar(ins: Ins, before: Seq<IrTy>)
    requires
        before.len() < MAX_LOCALS,
    ensures
        ty_run(
            scalar_code(ins, before.len()),
            before + scalar_locals(ins),
            empty_stack(),
        ) == empty_stack(),
{
    reveal(scalar_code);
    broadcast use {group_ty_run, group_ty_helpers};

    ins.lemma_register_fields();
}

#[verifier::spinoff_prover]
#[verifier::rlimit(100)]
proof fn lemma_paired(ins: Ins, before: Seq<IrTy>)
    requires
        before.len() < MAX_LOCALS,
    ensures
        ty_run(
            paired_code(ins, before.len()),
            before + paired_locals(ins),
            empty_stack(),
        ) == empty_stack(),
{
    reveal(paired_code);
    broadcast use {group_ty_run, group_ty_helpers};

    ins.lemma_register_fields();
}

#[verifier::spinoff_prover]
#[verifier::rlimit(100)]
proof fn lemma_rotate_family(ins: Ins, before: Seq<IrTy>)
    requires
        before.len() < MAX_LOCALS,
    ensures
        ty_run(
            rotate_family_code(ins, before.len()),
            before + rotate_family_locals(ins),
            empty_stack(),
        ) == empty_stack(),
{
    reveal(rotate_family_code);
    broadcast use {group_ty_run, group_ty_helpers};

    ins.lemma_register_fields();
}

#[verifier::spinoff_prover]
#[verifier::rlimit(100)]
proof fn lemma_bulk(ins: Ins, before: Seq<IrTy>)
    requires
        before.len() < MAX_LOCALS,
    ensures
        ty_run(
            bulk_code(ins, before.len()),
            before + bulk_locals(ins),
            empty_stack(),
        ) == empty_stack(),
{
    reveal(bulk_code);
    broadcast use {group_ty_run, group_ty_helpers};

    ins.lemma_register_fields();
    let locals = before + bulk_locals(ins);
    let ea = local_at(before.len() + 1, IrTy::I32);
    let d = ins.field_offset() as i32;
    lemma_load_multiple(ins.gpr_d(), ins.gpr_a(), d, 32, locals);
    lemma_store_multiple(ins.gpr_s(), ins.gpr_a(), d, 32, locals);
    if bulk_locals(ins).len() > 0 {
        lemma_zero_words(ea, 8, locals);
        lemma_zero_words(ea, 32, locals);
        lemma_clear_registers(ins.gpr_d(), (string_length(ins) + 3) / 4, locals);
        lemma_load_string(ins.gpr_d(), ea, string_length(ins), locals);
        lemma_store_string(ins.gpr_s(), ea, string_length(ins), locals);
    }
}

#[verifier::spinoff_prover]
#[verifier::rlimit(100)]
proof fn lemma_estimate(ins: Ins, before: Seq<IrTy>)
    requires
        before.len() < MAX_LOCALS,
    ensures
        ty_run(
            estimate_code(ins, before.len()),
            before + estimate_locals(ins),
            empty_stack(),
        ) == empty_stack(),
{
    reveal(estimate_code);
    broadcast use {group_ty_run, group_ty_helpers};

    ins.lemma_register_fields();
}

#[verifier::spinoff_prover]
#[verifier::rlimit(100)]
proof fn lemma_system(ins: Ins, before: Seq<IrTy>)
    requires
        before.len() < MAX_LOCALS,
    ensures
        ty_run(
            system_code(ins, before.len()),
            before + system_locals(ins),
            empty_stack(),
        ) == empty_stack(),
{
    reveal(system_code);
    broadcast use {group_ty_run, group_ty_helpers};

    ins.lemma_register_fields();
}

#[verifier::spinoff_prover]
#[verifier::rlimit(100)]
proof fn lemma_compare(ins: Ins, before: Seq<IrTy>)
    requires
        before.len() < MAX_LOCALS,
    ensures
        ty_run(
            compare_code(ins, before.len()),
            before + seq![IrTy::I32, IrTy::I32],
            empty_stack(),
        ) == empty_stack(),
{
    reveal(compare_code);
    broadcast use {group_ty_run, group_ty_helpers};

    ins.lemma_register_fields();
}

#[verifier::spinoff_prover]
#[verifier::rlimit(100)]
proof fn lemma_fma_scalar(ins: Ins, before: Seq<IrTy>)
    requires
        before.len() < MAX_LOCALS,
    ensures
        ty_run(
            fma_scalar_code(ins, before.len()),
            before + fma_locals(fma_kind(ins.op)),
            empty_stack(),
        ) == empty_stack(),
{
    reveal(fma_scalar_code);
    broadcast use {group_ty_run, group_ty_helpers};

    ins.lemma_register_fields();
}

#[verifier::spinoff_prover]
#[verifier::rlimit(100)]
proof fn lemma_fma_paired(ins: Ins, before: Seq<IrTy>)
    requires
        before.len() < MAX_LOCALS,
    ensures
        ty_run(
            fma_paired_code(ins, before.len()),
            before + (fma_locals(fma_kind(ins.op)) + fma_locals(fma_kind(ins.op))),
            empty_stack(),
        ) == empty_stack(),
{
    reveal(fma_paired_code);
    broadcast use {group_ty_run, group_ty_helpers};

    ins.lemma_register_fields();
}

#[verifier::spinoff_prover]
#[verifier::rlimit(100)]
proof fn lemma_float_compare(ins: Ins, ps1: bool, before: Seq<IrTy>)
    requires
        before.len() < MAX_LOCALS,
    ensures
        ty_run(
            float_compare_code(ins, ps1, before.len()),
            before + float_compare_locals(),
            empty_stack(),
        ) == empty_stack(),
{
    reveal(float_compare_code);
    broadcast use {group_ty_run, group_ty_helpers};

    ins.lemma_register_fields();
}

#[verifier::spinoff_prover]
#[verifier::rlimit(100)]
proof fn lemma_condition(ins: Ins, before: Seq<IrTy>)
    requires
        before.len() < MAX_LOCALS,
    ensures
        ty_run(
            condition_code(ins, before.len()),
            before + seq![IrTy::I32, IrTy::I32, IrTy::I32],
            empty_stack(),
        ) == empty_stack(),
{
    reveal(condition_code);
    broadcast use {group_ty_run, group_ty_helpers};

    ins.lemma_register_fields();
}

#[verifier::spinoff_prover]
#[verifier::rlimit(100)]
proof fn lemma_branch(ins: Ins, pc: u32, before: Seq<IrTy>)
    requires
        before.len() < MAX_LOCALS,
        ins.op is B || ins.op is Bc || ins.op is Bclr || ins.op is Bcctr,
    ensures
        ty_run(
            branch_code(ins, pc, before.len()),
            before + branch_locals(ins),
            empty_stack(),
        ) == TyState::Closed,
{
    reveal(branch_code);
    broadcast use {group_ty_run, group_ty_helpers};

    ins.lemma_register_fields();
}

#[verifier::spinoff_prover]
#[verifier::rlimit(100)]
proof fn lemma_leave(ins: Ins, pc: u32, before: Seq<IrTy>)
    requires
        before.len() < MAX_LOCALS,
    ensures
        ty_run(
            leave_code(ins, pc),
            before + seq![],
            empty_stack(),
        ) == TyState::Closed,
{
    reveal(leave_code);
    broadcast use {group_ty_run, group_ty_helpers};

    ins.lemma_register_fields();
}

/// Every guest instruction is translated into well-typed code: it finds an empty
/// operand stack, leaves an empty one, and leaves the block exactly when the
/// instruction ends it.
#[verifier::spinoff_prover]
#[verifier::rlimit(60)]
pub proof fn translation_is_well_typed(ins: Ins, pc: u32, before: Seq<IrTy>)
    requires
        before.len() < MAX_LOCALS,
    ensures
        ty_run(translate(ins, pc, before.len()), before + locals_of(ins), empty_stack()) == (
        if ends_block(ins.op) {
            TyState::Closed
        } else {
            empty_stack()
        }),
{
    broadcast use group_ty_run;

    if ins.op is B || ins.op is Bc || ins.op is Bclr || ins.op is Bcctr {
        lemma_branch(ins, pc, before);
    }
    lemma_leave(ins, pc, before);
    lemma_arithmetic(ins, before);
    lemma_carry_add(ins, before);
    lemma_carry_sub(ins, before);
    lemma_logic(ins, before);
    lemma_shift(ins, before);
    lemma_load(ins, before);
    lemma_store(ins, before);
    lemma_float_load(ins, before);
    lemma_float_store(ins, before);
    lemma_scalar(ins, before);
    lemma_paired(ins, before);
    lemma_rotate_family(ins, before);
    lemma_bulk(ins, before);
    lemma_estimate(ins, before);
    lemma_system(ins, before);
    lemma_compare(ins, before);
    lemma_fma_scalar(ins, before);
    lemma_fma_paired(ins, before);
    lemma_condition(ins, before);
    lemma_float_compare(ins, false, before);
    lemma_float_compare(ins, true, before);
}

/// Whether a block of code with these locals is well typed: it starts with an
/// empty operand stack and control has left it at its end.
pub open spec fn well_typed(insts: Seq<IrInst>, locals: Seq<IrTy>) -> bool {
    ty_run(insts, locals, empty_stack()) == TyState::Closed
}

/// Code keeps its typing when further locals are added behind those it uses.
proof fn lemma_more_locals(
    code: Seq<IrInst>,
    locals: Seq<IrTy>,
    more: Seq<IrTy>,
    state: TyState,
)
    requires
        !(ty_run(code, locals, state) is Bad),
    ensures
        ty_run(code, locals + more, state) == ty_run(code, locals, state),
    decreases code.len(),
{
    reveal(ty_run);
    if code.len() > 0 {
        lemma_more_locals(code.drop_last(), locals, more, state);
    }
}

/// Every register and every local that well-typed code names exists.
pub proof fn well_typed_operands_fit(code: Seq<IrInst>, locals: Seq<IrTy>, state: TyState)
    requires
        !(ty_run(code, locals, state) is Bad),
    ensures
        forall|i: int| 0 <= i < code.len() ==> operands_fit(#[trigger] code[i], locals),
    decreases code.len(),
{
    reveal(ty_run);
    if code.len() > 0 {
        well_typed_operands_fit(code.drop_last(), locals, state);
        assert forall|i: int| 0 <= i < code.len() implies operands_fit(
            #[trigger] code[i],
            locals,
        ) by {
            if i < code.len() - 1 {
                assert(code[i] == code.drop_last()[i]);
            }
        }
    }
}

/// Translating further instructions keeps the number of locals in bounds.
pub proof fn locals_of_all_bounded(instructions: Seq<(u32, Ins)>)
    ensures
        translate_all(instructions).locals.len() <= 16 * instructions.len(),
    decreases instructions.len(),
{
    if instructions.len() > 0 {
        locals_of_all_bounded(instructions.drop_last());
        lemma_locals_bound(instructions.last().1);
    }
}

proof fn lemma_straight_line(instructions: Seq<(u32, Ins)>)
    requires
        translate_all(instructions).locals.len() < MAX_LOCALS,
        forall|i: int| 0 <= i < instructions.len() - 1 ==> !ends_block(
            (#[trigger] instructions[i]).1.op,
        ),
    ensures
        ty_run(
            translate_all(instructions).insts,
            translate_all(instructions).locals,
            empty_stack(),
        ) == if instructions.len() > 0 && ends_block(instructions.last().1.op) {
            TyState::Closed
        } else {
            empty_stack()
        },
    decreases instructions.len(),
{
    broadcast use group_ty_run;

    if instructions.len() > 0 {
        let init = instructions.drop_last();
        let last = instructions.last();
        let block = translate_all(init);
        assert forall|i: int| 0 <= i < init.len() implies !ends_block(
            (#[trigger] init[i]).1.op,
        ) by {
            assert(init[i] == instructions[i]);
        }
        lemma_straight_line(init);
        if init.len() > 0 {
            assert(init.last() == init[init.len() - 1]);
        }
        lemma_more_locals(block.insts, block.locals, locals_of(last.1), empty_stack());
        translation_is_well_typed(last.1, last.0, block.locals);
    }
}

/// Every block that the decoder accepts is translated into well-typed code.
pub proof fn decoded_is_well_typed(instructions: Seq<(u32, Ins)>)
    requires
        0 < instructions.len(),
        decoded(instructions).locals.len() < MAX_LOCALS,
    ensures
        well_typed(decoded(instructions).insts, decoded(instructions).locals),
{
    broadcast use group_ty_run;

    let k = block_length(instructions);
    block_is_prefix(instructions);
    let taken = instructions.take(k as int);
    assert forall|i: int| 0 <= i < taken.len() - 1 implies !ends_block(
        (#[trigger] taken[i]).1.op,
    ) by {
        assert(taken[i] == instructions[i]);
    }
    lemma_straight_line(taken);
}

/// A block is a non-empty prefix of the instructions that it is decoded from.
/// Only its last instruction can end it, and it does unless nothing follows.
pub proof fn block_is_prefix(instructions: Seq<(u32, Ins)>)
    requires
        instructions.len() > 0,
    ensures
        0 < block_length(instructions) <= instructions.len(),
        forall|i: int| 0 <= i < block_length(instructions) - 1 ==> !ends_block(
            (#[trigger] instructions[i]).1.op,
        ),
        ends_block(instructions[block_length(instructions) - 1].1.op) || block_length(
            instructions,
        ) == instructions.len(),
    decreases instructions.len(),
{
    if !ends_block(instructions[0].1.op) && instructions.len() > 1 {
        let rest = instructions.drop_first();
        block_is_prefix(rest);
        let k = block_length(rest);
        assert(rest[k - 1] == instructions[k as int]);
        assert forall|i: int| 0 <= i < k implies !ends_block(
            (#[trigger] instructions[i]).1.op,
        ) by {
            if i > 0 {
                assert(instructions[i] == rest[i - 1]);
            }
        }
    } else {
        reveal_with_fuel(block_length, 2);
    }
}

/// Whether control leaves the block at `inst`.
pub open spec fn is_exit(inst: IrInst) -> bool {
    match inst {
        IrInst::ReturnStatic(_)
        | IrInst::ReturnDynamic
        | IrInst::BranchIf { .. }
        | IrInst::BranchRegIf { .. }
        | IrInst::RaiseException(_) => true,
        _ => false,
    }
}

/// Control leaves typed code at its last instruction, if at all.
proof fn lemma_exit_is_last(code: Seq<IrInst>, locals: Seq<IrTy>, state: TyState)
    requires
        state is Open,
        !(ty_run(code, locals, state) is Bad),
    ensures
        forall|i: int| 0 <= i < code.len() - 1 ==> !is_exit(#[trigger] code[i]),
        ty_run(code, locals, state) is Closed <==> code.len() > 0 && is_exit(code.last()),
    decreases code.len(),
{
    reveal(ty_run);
    if code.len() > 0 {
        let init = code.drop_last();
        lemma_exit_is_last(init, locals, state);
        assert forall|i: int| 0 <= i < code.len() - 1 implies !is_exit(#[trigger] code[i]) by {
            assert(code[i] == init[i]);
            if i == init.len() - 1 {
                assert(init.last() == init[i]);
            }
        }
    }
}

/// Sum of the cycle costs of `instructions`.
pub open spec fn cycles_of(instructions: Seq<(u32, Ins)>) -> int
    decreases instructions.len(),
{
    if instructions.len() == 0 {
        0
    } else {
        cycles_of(instructions.drop_last()) + cycle_cost(instructions.last().1.op)
    }
}

proof fn lemma_counts(instructions: Seq<(u32, Ins)>)
    ensures
        translate_all(instructions).instruction_count == instructions.len(),
        translate_all(instructions).cycles == cycles_of(instructions),
    decreases instructions.len(),
{
    if instructions.len() > 0 {
        lemma_counts(instructions.drop_last());
    }
}

/// A decoded block is made of the instructions up to and including the first that ends
/// it, or of all of them. It counts them and their cycles, and control leaves it at the
/// last instruction of its code and nowhere else: behind the last guest instruction
/// where none of them ends the block.
pub proof fn decoded_has_one_exit(instructions: Seq<(u32, Ins)>)
    requires
        0 < instructions.len(),
        decoded(instructions).locals.len() < MAX_LOCALS,
    ensures
        ({
            let k = block_length(instructions) as int;
            let block = decoded(instructions);
            let code = block.insts;
            &&& 0 < k <= instructions.len()
            &&& forall|i: int| 0 <= i < k - 1 ==> !ends_block((#[trigger] instructions[i]).1.op)
            &&& ends_block(instructions[k - 1].1.op) || k == instructions.len()
            &&& block.instruction_count == k
            &&& block.cycles == cycles_of(instructions.take(k))
            &&& code.len() > 0
            &&& is_exit(code.last())
            &&& forall|i: int| 0 <= i < code.len() - 1 ==> !is_exit(#[trigger] code[i])
            &&& !ends_block(instructions[k - 1].1.op) ==> code.last() == IrInst::ReturnStatic(
                next_pc(instructions[k - 1].0),
            )
        }),
{
    block_is_prefix(instructions);
    decoded_is_well_typed(instructions);
    let block = decoded(instructions);
    lemma_exit_is_last(block.insts, block.locals, empty_stack());
    lemma_counts(instructions.take(block_length(instructions) as int));
}

/// No `bcctr`, whatever its options, writes the counter: the counter holds the
/// branch target.
pub proof fn bcctr_never_counts(ins: Ins, pc: u32, n: nat)
    requires
        ins.op is Bcctr,
    ensures
        !translate(ins, pc, n).contains(IrInst::StoreCtr),
{
    reveal(branch_code);
    let bo = ins.field_bo();
    assert((((bo | 4) >> 2u8) & 1) != 0) by (bit_vector);
    let code = translate(ins, pc, n);
    assert forall|i: int| 0 <= i < code.len() implies code[i] != IrInst::StoreCtr by {}
}

} // verus!
