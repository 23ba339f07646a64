//! IR to WebAssembly lowering.
//!
//! A block becomes one function from the byte offset of the register image to
//! the next program counter. Its locals are:
//!
//! ```text
//! local 0      i32      offset of the register image (the parameter)
//! local 1..N   i32/f64  locals of the IR block
//! local N+1    i32      scratch for stores of 32-bit registers
//! local N+2    f64      scratch for stores of floating-point registers
//! ```

use vstd::prelude::*;

use super::block::WasmBlock;
use super::encode::{
    block_module, encode_block, AccessOp, ConstOp, F64Op, FlowOp, I32Op, Place, TestOp, ValTy,
    WasmInst, WideOp, MAX_RUNS,
};
use super::imports;
use super::offsets::RegOffsets;
use crate::ppcir::inst::{label_views, IrBlock, IrInst, IrTy};
use crate::ppcir::translate::MINUS_ONE;
use crate::ppcir::typing::operands_fit;

verus! {

/// Longest block that is lowered: one instruction becomes at most two dozen.
pub const MAX_IR_INSTS: usize = 0x0040_0000;

/// Place of a 32-bit register.
#[verifier::allow_in_spec]
pub fn place32(offset: u64) -> Place
    returns
        (Place { offset, align: 2, memory_index: 0 }),
{
    Place { offset, align: 2, memory_index: 0 }
}

/// Place of a floating-point register.
#[verifier::allow_in_spec]
pub fn place64(offset: u64) -> Place
    returns
        (Place { offset, align: 3, memory_index: 0 }),
{
    Place { offset, align: 3, memory_index: 0 }
}

/// The WebAssembly type of an IR type.
pub open spec fn val_ty(ty: IrTy) -> ValTy {
    match ty {
        IrTy::I32 => ValTy::I32,
        IrTy::F64 => ValTy::F64,
    }
}

/// Code that loads a 32-bit register.
pub open spec fn load_i32_code(offset: u64) -> Seq<WasmInst> {
    seq![
        WasmInst::Access(AccessOp::LocalGet(0)),
        WasmInst::Access(AccessOp::I32Load(place32(offset))),
    ]
}

/// Code that loads half of a floating-point register.
pub open spec fn load_f64_code(offset: u64) -> Seq<WasmInst> {
    seq![
        WasmInst::Access(AccessOp::LocalGet(0)),
        WasmInst::Access(AccessOp::F64Load(place64(offset))),
    ]
}

/// Code that stores the top of the stack to a 32-bit register. A store takes its
/// address below its value, so the value goes through the scratch local.
pub open spec fn store_i32_code(offset: u64, si32: u32) -> Seq<WasmInst> {
    seq![
        WasmInst::Access(AccessOp::LocalSet(si32)),
        WasmInst::Access(AccessOp::LocalGet(0)),
        WasmInst::Access(AccessOp::LocalGet(si32)),
        WasmInst::Access(AccessOp::I32Store(place32(offset))),
    ]
}

/// Code that stores the top of the stack to half of a floating-point register.
pub open spec fn store_f64_code(offset: u64, sf64: u32) -> Seq<WasmInst> {
    seq![
        WasmInst::Access(AccessOp::LocalSet(sf64)),
        WasmInst::Access(AccessOp::LocalGet(0)),
        WasmInst::Access(AccessOp::LocalGet(sf64)),
        WasmInst::Access(AccessOp::F64Store(place64(offset))),
    ]
}

/// Code that reverses the four bytes of the top of the stack.
pub open spec fn bswap_code(si32: u32) -> Seq<WasmInst> {
    seq![
        WasmInst::Access(AccessOp::LocalSet(si32)), WasmInst::Access(AccessOp::LocalGet(si32)),
        WasmInst::Const(ConstOp::I32(0xFF)), WasmInst::I32(I32Op::And),
        WasmInst::Const(ConstOp::I32(24)), WasmInst::I32(I32Op::Shl),
        WasmInst::Access(AccessOp::LocalGet(si32)), WasmInst::Const(ConstOp::I32(0xFF00)),
        WasmInst::I32(I32Op::And), WasmInst::Const(ConstOp::I32(8)), WasmInst::I32(I32Op::Shl),
        WasmInst::I32(I32Op::Or), WasmInst::Access(AccessOp::LocalGet(si32)),
        WasmInst::Const(ConstOp::I32(8)), WasmInst::I32(I32Op::ShrU),
        WasmInst::Const(ConstOp::I32(0xFF00)), WasmInst::I32(I32Op::And), WasmInst::I32(I32Op::Or),
        WasmInst::Access(AccessOp::LocalGet(si32)), WasmInst::Const(ConstOp::I32(24)),
        WasmInst::I32(I32Op::ShrU), WasmInst::I32(I32Op::Or),
    ]
}

/// Code that reverses the low two bytes of the top of the stack.
pub open spec fn bswap16_code(si32: u32) -> Seq<WasmInst> {
    seq![
        WasmInst::Access(AccessOp::LocalSet(si32)), WasmInst::Access(AccessOp::LocalGet(si32)),
        WasmInst::Const(ConstOp::I32(0xFF)), WasmInst::I32(I32Op::And),
        WasmInst::Const(ConstOp::I32(8)), WasmInst::I32(I32Op::Shl),
        WasmInst::Access(AccessOp::LocalGet(si32)), WasmInst::Const(ConstOp::I32(8)),
        WasmInst::I32(I32Op::ShrU), WasmInst::Const(ConstOp::I32(0xFF)), WasmInst::I32(I32Op::And),
        WasmInst::I32(I32Op::Or),
    ]
}

/// The WebAssembly code of one IR instruction, with the scratch locals `si32`
/// and `sf64`.
#[verifier::opaque]
pub open spec fn lowered(inst: IrInst, off: RegOffsets, si32: u32, sf64: u32) -> Seq<WasmInst> {
    match inst {
        IrInst::I32Const(v) => seq![WasmInst::Const(ConstOp::I32(v))],
        IrInst::F64Const(bits) => seq![WasmInst::Const(ConstOp::F64(bits))],
        IrInst::LocalSet(l) => seq![WasmInst::Access(AccessOp::LocalSet(l.index))],
        IrInst::LocalGet(l) => seq![WasmInst::Access(AccessOp::LocalGet(l.index))],
        IrInst::LocalTee(l) => seq![WasmInst::Access(AccessOp::LocalTee(l.index))],
        IrInst::LoadGpr(r) => load_i32_code(off.gpr@[r as int]),
        IrInst::LoadFprPs0(r) => load_f64_code(off.fpr_ps0@[r as int]),
        IrInst::LoadFprPs1(r) => load_f64_code(off.fpr_ps1@[r as int]),
        IrInst::LoadCr => load_i32_code(off.cr),
        IrInst::LoadLr => load_i32_code(off.lr),
        IrInst::LoadCtr => load_i32_code(off.ctr),
        IrInst::LoadXer => load_i32_code(off.xer),
        IrInst::LoadMsr => load_i32_code(off.msr),
        IrInst::LoadSrr0 => load_i32_code(off.srr0),
        IrInst::LoadSrr1 => load_i32_code(off.srr1),
        IrInst::LoadSprg(k) => load_i32_code(off.sprg@[k as int]),
        IrInst::LoadTbLo => load_i32_code(off.tb_lo),
        IrInst::LoadTbHi => load_i32_code(off.tb_hi),
        IrInst::LoadDec => load_i32_code(off.dec),
        IrInst::LoadGqr(k) => load_i32_code(off.gqr@[k as int]),
        IrInst::LoadFpscr => load_i32_code(off.fpscr),
        IrInst::StoreGpr(r) => store_i32_code(off.gpr@[r as int], si32),
        IrInst::StoreFprPs0(r) => store_f64_code(off.fpr_ps0@[r as int], sf64),
        IrInst::StoreFprPs1(r) => store_f64_code(off.fpr_ps1@[r as int], sf64),
        IrInst::StoreCr => store_i32_code(off.cr, si32),
        IrInst::StoreLr => store_i32_code(off.lr, si32),
        IrInst::StoreCtr => store_i32_code(off.ctr, si32),
        IrInst::StoreXer => store_i32_code(off.xer, si32),
        IrInst::StoreMsr => store_i32_code(off.msr, si32),
        IrInst::StoreSrr0 => store_i32_code(off.srr0, si32),
        IrInst::StoreSrr1 => store_i32_code(off.srr1, si32),
        IrInst::StoreSprg(k) => store_i32_code(off.sprg@[k as int], si32),
        IrInst::StoreDec => store_i32_code(off.dec, si32),
        IrInst::StoreGqr(k) => store_i32_code(off.gqr@[k as int], si32),
        IrInst::StoreFpscr => store_i32_code(off.fpscr, si32),
        IrInst::StorePC => store_i32_code(off.pc, si32),
        IrInst::Drop => seq![WasmInst::Flow(FlowOp::Drop)],
        IrInst::I32Add => seq![WasmInst::I32(I32Op::Add)],
        IrInst::I32Sub => seq![WasmInst::I32(I32Op::Sub)],
        IrInst::I32Mul => seq![WasmInst::I32(I32Op::Mul)],
        IrInst::I32DivS => seq![WasmInst::I32(I32Op::DivS)],
        IrInst::I32DivU => seq![WasmInst::I32(I32Op::DivU)],
        IrInst::I32And => seq![WasmInst::I32(I32Op::And)],
        IrInst::I32Or => seq![WasmInst::I32(I32Op::Or)],
        IrInst::I32Xor => seq![WasmInst::I32(I32Op::Xor)],
        IrInst::I32Shl => seq![WasmInst::I32(I32Op::Shl)],
        IrInst::I32ShrU => seq![WasmInst::I32(I32Op::ShrU)],
        IrInst::I32ShrS => seq![WasmInst::I32(I32Op::ShrS)],
        IrInst::I32Rotl => seq![WasmInst::I32(I32Op::Rotl)],
        IrInst::I32Clz => seq![WasmInst::I32(I32Op::Clz)],
        IrInst::I32Ctz => seq![WasmInst::I32(I32Op::Ctz)],
        IrInst::I32Extend8S => seq![WasmInst::I32(I32Op::Extend8S)],
        IrInst::I32Extend16S => seq![WasmInst::I32(I32Op::Extend16S)],
        IrInst::I32Eq => seq![WasmInst::Test(TestOp::I32Eq)],
        IrInst::I32Ne => seq![WasmInst::Test(TestOp::I32Ne)],
        IrInst::I32LtS => seq![WasmInst::Test(TestOp::I32LtS)],
        IrInst::I32LtU => seq![WasmInst::Test(TestOp::I32LtU)],
        IrInst::I32GtS => seq![WasmInst::Test(TestOp::I32GtS)],
        IrInst::I32GtU => seq![WasmInst::Test(TestOp::I32GtU)],
        IrInst::I32Eqz => seq![WasmInst::Test(TestOp::I32Eqz)],
        IrInst::F64Lt => seq![WasmInst::Test(TestOp::F64Lt)],
        IrInst::F64Gt => seq![WasmInst::Test(TestOp::F64Gt)],
        IrInst::F64Eq => seq![WasmInst::Test(TestOp::F64Eq)],
        IrInst::F64Add => seq![WasmInst::F64(F64Op::Add)],
        IrInst::F64Sub => seq![WasmInst::F64(F64Op::Sub)],
        IrInst::F64Mul => seq![WasmInst::F64(F64Op::Mul)],
        IrInst::F64Div => seq![WasmInst::F64(F64Op::Div)],
        IrInst::F64Neg => seq![WasmInst::F64(F64Op::Neg)],
        IrInst::F64Abs => seq![WasmInst::F64(F64Op::Abs)],
        IrInst::F64Sqrt => seq![WasmInst::F64(F64Op::Sqrt)],
        IrInst::F64Nearest => seq![WasmInst::F64(F64Op::Nearest)],
        IrInst::F64FromI32S => seq![WasmInst::Wide(WideOp::F64ConvertI32S)],
        IrInst::I32TruncF64S => seq![WasmInst::Wide(WideOp::I32TruncF64S)],
        IrInst::I32TruncSatF64S => seq![WasmInst::Wide(WideOp::I32TruncSatF64S)],
        IrInst::F64ReinterpretI64 => seq![WasmInst::Wide(WideOp::F64ReinterpretI64)],
        IrInst::I64ReinterpretF64 => seq![WasmInst::Wide(WideOp::I64ReinterpretF64)],
        IrInst::I32WrapI64 => seq![WasmInst::Wide(WideOp::I32WrapI64)],
        IrInst::I64ExtendI32S => seq![WasmInst::Wide(WideOp::I64ExtendI32S)],
        IrInst::I64ExtendI32U => seq![WasmInst::Wide(WideOp::I64ExtendI32U)],
        IrInst::I64Mul => seq![WasmInst::Wide(WideOp::I64Mul)],
        IrInst::F64Select => seq![WasmInst::Flow(FlowOp::Select)],
        IrInst::ReadU8 => seq![WasmInst::Flow(FlowOp::Call(imports::READ_U8))],
        IrInst::ReadU16 => seq![WasmInst::Flow(FlowOp::Call(imports::READ_U16))],
        IrInst::ReadU32 => seq![WasmInst::Flow(FlowOp::Call(imports::READ_U32))],
        IrInst::ReadF64 => seq![WasmInst::Flow(FlowOp::Call(imports::READ_F64))],
        IrInst::WriteU8 => seq![WasmInst::Flow(FlowOp::Call(imports::WRITE_U8))],
        IrInst::WriteU16 => seq![WasmInst::Flow(FlowOp::Call(imports::WRITE_U16))],
        IrInst::WriteU32 => seq![WasmInst::Flow(FlowOp::Call(imports::WRITE_U32))],
        IrInst::WriteF64 => seq![WasmInst::Flow(FlowOp::Call(imports::WRITE_F64))],
        IrInst::PsqLoad => seq![WasmInst::Flow(FlowOp::Call(imports::PSQ_LOAD))],
        IrInst::PsqStore => seq![WasmInst::Flow(FlowOp::Call(imports::PSQ_STORE))],
        IrInst::PsqLoadSize => seq![WasmInst::Flow(FlowOp::Call(imports::PSQ_LOAD_SIZE))],
        IrInst::I32Not => seq![WasmInst::Const(ConstOp::I32(MINUS_ONE)), WasmInst::I32(I32Op::Xor)],
        IrInst::F64RoundToSingle => {
            seq![
                WasmInst::Wide(WideOp::F32DemoteF64), WasmInst::Wide(WideOp::F64PromoteF32),
            ]
        },
        IrInst::F64PromoteSingleBits => {
            seq![
                WasmInst::Wide(WideOp::F32ReinterpretI32), WasmInst::Wide(WideOp::F64PromoteF32),
            ]
        },
        IrInst::I32DemoteToSingleBits => {
            seq![
                WasmInst::Wide(WideOp::F32DemoteF64), WasmInst::Wide(WideOp::I32ReinterpretF32),
            ]
        },
        IrInst::I32FromF64LowBits => {
            seq![
                WasmInst::Wide(WideOp::I64ReinterpretF64), WasmInst::Wide(WideOp::I32WrapI64),
            ]
        },
        IrInst::I64ShrS32 => {
            seq![
                WasmInst::Const(ConstOp::I64(32)), WasmInst::Wide(WideOp::I64ShrS),
                WasmInst::Wide(WideOp::I32WrapI64),
            ]
        },
        IrInst::I64ShrU32 => {
            seq![
                WasmInst::Const(ConstOp::I64(32)), WasmInst::Wide(WideOp::I64ShrU),
                WasmInst::Wide(WideOp::I32WrapI64),
            ]
        },
        IrInst::I32Bswap => bswap_code(si32),
        IrInst::I32Bswap16 => bswap16_code(si32),
        IrInst::ReturnStatic(pc) => {
            seq![
                WasmInst::Const(ConstOp::I32(pc as i32)), WasmInst::Flow(FlowOp::Return),
            ]
        },
        IrInst::ReturnDynamic => {
            store_i32_code(off.pc, si32) + seq![WasmInst::Access(AccessOp::LocalGet(si32)),
                WasmInst::Flow(FlowOp::Return)]
        },
        IrInst::BranchIf { taken, fallthrough } => {
            seq![
                WasmInst::Flow(FlowOp::If), WasmInst::Const(ConstOp::I32(taken as i32)),
                WasmInst::Flow(FlowOp::Return), WasmInst::Flow(FlowOp::End),
                WasmInst::Const(ConstOp::I32(fallthrough as i32)),
            ]
        },
        IrInst::BranchRegIf { reg_local, fallthrough } => {
            seq![
                WasmInst::Flow(FlowOp::If), WasmInst::Access(AccessOp::LocalGet(0)),
                WasmInst::Access(AccessOp::LocalGet(reg_local.index)),
                WasmInst::Access(AccessOp::I32Store(place32(off.pc))),
                WasmInst::Const(ConstOp::I32(0)), WasmInst::Flow(FlowOp::Return),
                WasmInst::Flow(FlowOp::End), WasmInst::Const(ConstOp::I32(fallthrough as i32)),
            ]
        },
        IrInst::RaiseException(kind) => {
            seq![
                WasmInst::Const(ConstOp::I32(kind)),
                WasmInst::Flow(FlowOp::Call(imports::RAISE_EXCEPTION)),
                WasmInst::Const(ConstOp::I32(0)), WasmInst::Flow(FlowOp::Return),
            ]
        },
    }
}

/// The WebAssembly code of `insts`, one after the other.
pub open spec fn lowered_all(
    insts: Seq<IrInst>,
    off: RegOffsets,
    si32: u32,
    sf64: u32,
) -> Seq<WasmInst>
    decreases insts.len(),
{
    if insts.len() == 0 {
        seq![]
    } else {
        lowered_all(insts.drop_last(), off, si32, sf64) + lowered(insts.last(), off, si32, sf64)
    }
}

/// Locals grouped into runs of one type.
pub open spec fn local_runs(types: Seq<IrTy>) -> Seq<(u32, ValTy)>
    decreases types.len(),
{
    if types.len() == 0 {
        seq![]
    } else {
        let runs = local_runs(types.drop_last());
        let ty = val_ty(types.last());
        if runs.len() > 0 && runs.last().1 == ty {
            runs.update(runs.len() - 1, ((runs.last().0 + 1) as u32, ty))
        } else {
            runs.push((1, ty))
        }
    }
}

/// The types that runs of locals stand for.
pub open spec fn expand_runs(runs: Seq<(u32, ValTy)>) -> Seq<ValTy>
    decreases runs.len(),
{
    if runs.len() == 0 {
        seq![]
    } else {
        expand_runs(runs.drop_last()) + Seq::new(runs.last().0 as nat, |i: int| runs.last().1)
    }
}

/// Grouping locals into runs keeps their number, their order and their types.
pub proof fn runs_expand_to_types(types: Seq<IrTy>)
    requires
        types.len() <= u32::MAX,
    ensures
        expand_runs(local_runs(types)) == types.map_values(|ty: IrTy| val_ty(ty)),
        local_runs(types).len() <= types.len(),
        forall|i: int|
            0 <= i < local_runs(types).len() ==> (#[trigger] local_runs(types)[i]).0 <= types.len(),
    decreases types.len(),
{
    let wasm = types.map_values(|ty: IrTy| val_ty(ty));
    if types.len() == 0 {
        assert(wasm =~= seq![]);
    } else {
        let init = types.drop_last();
        let runs = local_runs(init);
        let ty = val_ty(types.last());
        let before = init.map_values(|ty: IrTy| val_ty(ty));
        runs_expand_to_types(init);
        assert(wasm =~= before.push(ty));
        let after = local_runs(types);
        if runs.len() > 0 && runs.last().1 == ty {
            let count = runs.last().0;
            assert(count <= init.len());
            assert(after.drop_last() =~= runs.drop_last());
            let run = Seq::new(count as nat, |i: int| ty);
            let longer = Seq::new((count + 1) as nat, |i: int| ty);
            assert(Seq::new(runs.last().0 as nat, |i: int| runs.last().1) =~= run);
            assert(Seq::new(after.last().0 as nat, |i: int| after.last().1) =~= longer);
            assert(longer =~= run.push(ty));
            assert(expand_runs(after) =~= expand_runs(runs).push(ty));
        } else {
            assert(after.drop_last() =~= runs);
            assert(Seq::new(after.last().0 as nat, |i: int| after.last().1) =~= seq![ty]);
            assert(expand_runs(after) =~= expand_runs(runs).push(ty));
        }
    }
}

/// The runs of locals of a lowered block: those of the block and the scratch
/// locals.
pub open spec fn block_runs(types: Seq<IrTy>) -> Seq<(u32, ValTy)> {
    local_runs(types) + seq![(1u32, ValTy::I32), (1u32, ValTy::F64)]
}

/// The function body of a lowered block.
pub open spec fn block_code(insts: Seq<IrInst>, locals: nat, off: RegOffsets) -> Seq<WasmInst> {
    lowered_all(insts, off, (locals + 1) as u32, (locals + 2) as u32).push(
        WasmInst::Flow(FlowOp::End),
    )
}

fn load_i32(offset: u64, body: &mut Vec<WasmInst>)
    ensures
        final(body)@ == old(body)@ + load_i32_code(offset),
{
    body.push(WasmInst::Access(AccessOp::LocalGet(0)));
    body.push(WasmInst::Access(AccessOp::I32Load(place32(offset))));
    assert(body@ =~= old(body)@ + load_i32_code(offset));
}

fn load_f64(offset: u64, body: &mut Vec<WasmInst>)
    ensures
        final(body)@ == old(body)@ + load_f64_code(offset),
{
    body.push(WasmInst::Access(AccessOp::LocalGet(0)));
    body.push(WasmInst::Access(AccessOp::F64Load(place64(offset))));
    assert(body@ =~= old(body)@ + load_f64_code(offset));
}

fn store_i32(offset: u64, si32: u32, body: &mut Vec<WasmInst>)
    ensures
        final(body)@ == old(body)@ + store_i32_code(offset, si32),
{
    body.push(WasmInst::Access(AccessOp::LocalSet(si32)));
    body.push(WasmInst::Access(AccessOp::LocalGet(0)));
    body.push(WasmInst::Access(AccessOp::LocalGet(si32)));
    body.push(WasmInst::Access(AccessOp::I32Store(place32(offset))));
    assert(body@ =~= old(body)@ + store_i32_code(offset, si32));
}

fn store_f64(offset: u64, sf64: u32, body: &mut Vec<WasmInst>)
    ensures
        final(body)@ == old(body)@ + store_f64_code(offset, sf64),
{
    body.push(WasmInst::Access(AccessOp::LocalSet(sf64)));
    body.push(WasmInst::Access(AccessOp::LocalGet(0)));
    body.push(WasmInst::Access(AccessOp::LocalGet(sf64)));
    body.push(WasmInst::Access(AccessOp::F64Store(place64(offset))));
    assert(body@ =~= old(body)@ + store_f64_code(offset, sf64));
}

fn bswap(si32: u32, body: &mut Vec<WasmInst>)
    ensures
        final(body)@ == old(body)@ + bswap_code(si32),
{
    body.push(WasmInst::Access(AccessOp::LocalSet(si32)));
    body.push(WasmInst::Access(AccessOp::LocalGet(si32)));
    body.push(WasmInst::Const(ConstOp::I32(0xFF)));
    body.push(WasmInst::I32(I32Op::And));
    body.push(WasmInst::Const(ConstOp::I32(24)));
    body.push(WasmInst::I32(I32Op::Shl));
    body.push(WasmInst::Access(AccessOp::LocalGet(si32)));
    body.push(WasmInst::Const(ConstOp::I32(0xFF00)));
    body.push(WasmInst::I32(I32Op::And));
    body.push(WasmInst::Const(ConstOp::I32(8)));
    body.push(WasmInst::I32(I32Op::Shl));
    body.push(WasmInst::I32(I32Op::Or));
    body.push(WasmInst::Access(AccessOp::LocalGet(si32)));
    body.push(WasmInst::Const(ConstOp::I32(8)));
    body.push(WasmInst::I32(I32Op::ShrU));
    body.push(WasmInst::Const(ConstOp::I32(0xFF00)));
    body.push(WasmInst::I32(I32Op::And));
    body.push(WasmInst::I32(I32Op::Or));
    body.push(WasmInst::Access(AccessOp::LocalGet(si32)));
    body.push(WasmInst::Const(ConstOp::I32(24)));
    body.push(WasmInst::I32(I32Op::ShrU));
    body.push(WasmInst::I32(I32Op::Or));
    assert(body@ =~= old(body)@ + bswap_code(si32));
}

fn bswap16(si32: u32, body: &mut Vec<WasmInst>)
    ensures
        final(body)@ == old(body)@ + bswap16_code(si32),
{
    body.push(WasmInst::Access(AccessOp::LocalSet(si32)));
    body.push(WasmInst::Access(AccessOp::LocalGet(si32)));
    body.push(WasmInst::Const(ConstOp::I32(0xFF)));
    body.push(WasmInst::I32(I32Op::And));
    body.push(WasmInst::Const(ConstOp::I32(8)));
    body.push(WasmInst::I32(I32Op::Shl));
    body.push(WasmInst::Access(AccessOp::LocalGet(si32)));
    body.push(WasmInst::Const(ConstOp::I32(8)));
    body.push(WasmInst::I32(I32Op::ShrU));
    body.push(WasmInst::Const(ConstOp::I32(0xFF)));
    body.push(WasmInst::I32(I32Op::And));
    body.push(WasmInst::I32(I32Op::Or));
    assert(body@ =~= old(body)@ + bswap16_code(si32));
}

/// Lowers one instruction.
#[verifier::spinoff_prover]
#[verifier::rlimit(60)]
fn emit_inst(inst: IrInst, off: &RegOffsets, si32: u32, sf64: u32, body: &mut Vec<WasmInst>)
    requires
        exists|locals: Seq<IrTy>| operands_fit(inst, locals),
    ensures
        final(body)@ =~= old(body)@ + lowered(inst, *off, si32, sf64),
{
    proof {
        reveal(lowered);
    }
    match inst {
        IrInst::I32Const(v) => body.push(WasmInst::Const(ConstOp::I32(v))),
        IrInst::F64Const(bits) => body.push(WasmInst::Const(ConstOp::F64(bits))),
        IrInst::LocalSet(l) => body.push(WasmInst::Access(AccessOp::LocalSet(l.index))),
        IrInst::LocalGet(l) => body.push(WasmInst::Access(AccessOp::LocalGet(l.index))),
        IrInst::LocalTee(l) => body.push(WasmInst::Access(AccessOp::LocalTee(l.index))),
        IrInst::LoadGpr(r) => load_i32(off.gpr[r as usize], body),
        IrInst::LoadFprPs0(r) => load_f64(off.fpr_ps0[r as usize], body),
        IrInst::LoadFprPs1(r) => load_f64(off.fpr_ps1[r as usize], body),
        IrInst::LoadCr => load_i32(off.cr, body),
        IrInst::LoadLr => load_i32(off.lr, body),
        IrInst::LoadCtr => load_i32(off.ctr, body),
        IrInst::LoadXer => load_i32(off.xer, body),
        IrInst::LoadMsr => load_i32(off.msr, body),
        IrInst::LoadSrr0 => load_i32(off.srr0, body),
        IrInst::LoadSrr1 => load_i32(off.srr1, body),
        IrInst::LoadSprg(k) => load_i32(off.sprg[k as usize], body),
        IrInst::LoadTbLo => load_i32(off.tb_lo, body),
        IrInst::LoadTbHi => load_i32(off.tb_hi, body),
        IrInst::LoadDec => load_i32(off.dec, body),
        IrInst::LoadGqr(k) => load_i32(off.gqr[k as usize], body),
        IrInst::LoadFpscr => load_i32(off.fpscr, body),
        IrInst::StoreGpr(r) => store_i32(off.gpr[r as usize], si32, body),
        IrInst::StoreFprPs0(r) => store_f64(off.fpr_ps0[r as usize], sf64, body),
        IrInst::StoreFprPs1(r) => store_f64(off.fpr_ps1[r as usize], sf64, body),
        IrInst::StoreCr => store_i32(off.cr, si32, body),
        IrInst::StoreLr => store_i32(off.lr, si32, body),
        IrInst::StoreCtr => store_i32(off.ctr, si32, body),
        IrInst::StoreXer => store_i32(off.xer, si32, body),
        IrInst::StoreMsr => store_i32(off.msr, si32, body),
        IrInst::StoreSrr0 => store_i32(off.srr0, si32, body),
        IrInst::StoreSrr1 => store_i32(off.srr1, si32, body),
        IrInst::StoreSprg(k) => store_i32(off.sprg[k as usize], si32, body),
        IrInst::StoreDec => store_i32(off.dec, si32, body),
        IrInst::StoreGqr(k) => store_i32(off.gqr[k as usize], si32, body),
        IrInst::StoreFpscr => store_i32(off.fpscr, si32, body),
        IrInst::StorePC => store_i32(off.pc, si32, body),
        IrInst::Drop => body.push(WasmInst::Flow(FlowOp::Drop)),
        IrInst::I32Add => body.push(WasmInst::I32(I32Op::Add)),
        IrInst::I32Sub => body.push(WasmInst::I32(I32Op::Sub)),
        IrInst::I32Mul => body.push(WasmInst::I32(I32Op::Mul)),
        IrInst::I32DivS => body.push(WasmInst::I32(I32Op::DivS)),
        IrInst::I32DivU => body.push(WasmInst::I32(I32Op::DivU)),
        IrInst::I32And => body.push(WasmInst::I32(I32Op::And)),
        IrInst::I32Or => body.push(WasmInst::I32(I32Op::Or)),
        IrInst::I32Xor => body.push(WasmInst::I32(I32Op::Xor)),
        IrInst::I32Shl => body.push(WasmInst::I32(I32Op::Shl)),
        IrInst::I32ShrU => body.push(WasmInst::I32(I32Op::ShrU)),
        IrInst::I32ShrS => body.push(WasmInst::I32(I32Op::ShrS)),
        IrInst::I32Rotl => body.push(WasmInst::I32(I32Op::Rotl)),
        IrInst::I32Clz => body.push(WasmInst::I32(I32Op::Clz)),
        IrInst::I32Ctz => body.push(WasmInst::I32(I32Op::Ctz)),
        IrInst::I32Extend8S => body.push(WasmInst::I32(I32Op::Extend8S)),
        IrInst::I32Extend16S => body.push(WasmInst::I32(I32Op::Extend16S)),
        IrInst::I32Eq => body.push(WasmInst::Test(TestOp::I32Eq)),
        IrInst::I32Ne => body.push(WasmInst::Test(TestOp::I32Ne)),
        IrInst::I32LtS => body.push(WasmInst::Test(TestOp::I32LtS)),
        IrInst::I32LtU => body.push(WasmInst::Test(TestOp::I32LtU)),
        IrInst::I32GtS => body.push(WasmInst::Test(TestOp::I32GtS)),
        IrInst::I32GtU => body.push(WasmInst::Test(TestOp::I32GtU)),
        IrInst::I32Eqz => body.push(WasmInst::Test(TestOp::I32Eqz)),
        IrInst::F64Lt => body.push(WasmInst::Test(TestOp::F64Lt)),
        IrInst::F64Gt => body.push(WasmInst::Test(TestOp::F64Gt)),
        IrInst::F64Eq => body.push(WasmInst::Test(TestOp::F64Eq)),
        IrInst::F64Add => body.push(WasmInst::F64(F64Op::Add)),
        IrInst::F64Sub => body.push(WasmInst::F64(F64Op::Sub)),
        IrInst::F64Mul => body.push(WasmInst::F64(F64Op::Mul)),
        IrInst::F64Div => body.push(WasmInst::F64(F64Op::Div)),
        IrInst::F64Neg => body.push(WasmInst::F64(F64Op::Neg)),
        IrInst::F64Abs => body.push(WasmInst::F64(F64Op::Abs)),
        IrInst::F64Sqrt => body.push(WasmInst::F64(F64Op::Sqrt)),
        IrInst::F64Nearest => body.push(WasmInst::F64(F64Op::Nearest)),
        IrInst::F64FromI32S => body.push(WasmInst::Wide(WideOp::F64ConvertI32S)),
        IrInst::I32TruncF64S => body.push(WasmInst::Wide(WideOp::I32TruncF64S)),
        IrInst::I32TruncSatF64S => body.push(WasmInst::Wide(WideOp::I32TruncSatF64S)),
        IrInst::F64ReinterpretI64 => body.push(WasmInst::Wide(WideOp::F64ReinterpretI64)),
        IrInst::I64ReinterpretF64 => body.push(WasmInst::Wide(WideOp::I64ReinterpretF64)),
        IrInst::I32WrapI64 => body.push(WasmInst::Wide(WideOp::I32WrapI64)),
        IrInst::I64ExtendI32S => body.push(WasmInst::Wide(WideOp::I64ExtendI32S)),
        IrInst::I64ExtendI32U => body.push(WasmInst::Wide(WideOp::I64ExtendI32U)),
        IrInst::I64Mul => body.push(WasmInst::Wide(WideOp::I64Mul)),
        IrInst::F64Select => body.push(WasmInst::Flow(FlowOp::Select)),
        IrInst::ReadU8 => body.push(WasmInst::Flow(FlowOp::Call(imports::READ_U8))),
        IrInst::ReadU16 => body.push(WasmInst::Flow(FlowOp::Call(imports::READ_U16))),
        IrInst::ReadU32 => body.push(WasmInst::Flow(FlowOp::Call(imports::READ_U32))),
        IrInst::ReadF64 => body.push(WasmInst::Flow(FlowOp::Call(imports::READ_F64))),
        IrInst::WriteU8 => body.push(WasmInst::Flow(FlowOp::Call(imports::WRITE_U8))),
        IrInst::WriteU16 => body.push(WasmInst::Flow(FlowOp::Call(imports::WRITE_U16))),
        IrInst::WriteU32 => body.push(WasmInst::Flow(FlowOp::Call(imports::WRITE_U32))),
        IrInst::WriteF64 => body.push(WasmInst::Flow(FlowOp::Call(imports::WRITE_F64))),
        IrInst::PsqLoad => body.push(WasmInst::Flow(FlowOp::Call(imports::PSQ_LOAD))),
        IrInst::PsqStore => body.push(WasmInst::Flow(FlowOp::Call(imports::PSQ_STORE))),
        IrInst::PsqLoadSize => body.push(WasmInst::Flow(FlowOp::Call(imports::PSQ_LOAD_SIZE))),
        IrInst::I32Not => {
            body.push(WasmInst::Const(ConstOp::I32(MINUS_ONE)));
            body.push(WasmInst::I32(I32Op::Xor));
        },
        IrInst::F64RoundToSingle => {
            body.push(WasmInst::Wide(WideOp::F32DemoteF64));
            body.push(WasmInst::Wide(WideOp::F64PromoteF32));
        },
        IrInst::F64PromoteSingleBits => {
            body.push(WasmInst::Wide(WideOp::F32ReinterpretI32));
            body.push(WasmInst::Wide(WideOp::F64PromoteF32));
        },
        IrInst::I32DemoteToSingleBits => {
            body.push(WasmInst::Wide(WideOp::F32DemoteF64));
            body.push(WasmInst::Wide(WideOp::I32ReinterpretF32));
        },
        IrInst::I32FromF64LowBits => {
            body.push(WasmInst::Wide(WideOp::I64ReinterpretF64));
            body.push(WasmInst::Wide(WideOp::I32WrapI64));
        },
        IrInst::I64ShrS32 => {
            body.push(WasmInst::Const(ConstOp::I64(32)));
            body.push(WasmInst::Wide(WideOp::I64ShrS));
            body.push(WasmInst::Wide(WideOp::I32WrapI64));
        },
        IrInst::I64ShrU32 => {
            body.push(WasmInst::Const(ConstOp::I64(32)));
            body.push(WasmInst::Wide(WideOp::I64ShrU));
            body.push(WasmInst::Wide(WideOp::I32WrapI64));
        },
        IrInst::I32Bswap => bswap(si32, body),
        IrInst::I32Bswap16 => bswap16(si32, body),
        IrInst::ReturnStatic(pc) => {
            body.push(WasmInst::Const(ConstOp::I32(pc as i32)));
            body.push(WasmInst::Flow(FlowOp::Return));
        },
        IrInst::ReturnDynamic => {
            // The host reads the program counter field when the value is 0.
            store_i32(off.pc, si32, body);
            body.push(WasmInst::Access(AccessOp::LocalGet(si32)));
            body.push(WasmInst::Flow(FlowOp::Return));
        },
        IrInst::BranchIf { taken, fallthrough } => {
            body.push(WasmInst::Flow(FlowOp::If));
            body.push(WasmInst::Const(ConstOp::I32(taken as i32)));
            body.push(WasmInst::Flow(FlowOp::Return));
            body.push(WasmInst::Flow(FlowOp::End));
            body.push(WasmInst::Const(ConstOp::I32(fallthrough as i32)));
        },
        IrInst::BranchRegIf { reg_local, fallthrough } => {
            body.push(WasmInst::Flow(FlowOp::If));
            body.push(WasmInst::Access(AccessOp::LocalGet(0)));
            body.push(WasmInst::Access(AccessOp::LocalGet(reg_local.index)));
            body.push(WasmInst::Access(AccessOp::I32Store(place32(off.pc))));
            body.push(WasmInst::Const(ConstOp::I32(0)));
            body.push(WasmInst::Flow(FlowOp::Return));
            body.push(WasmInst::Flow(FlowOp::End));
            body.push(WasmInst::Const(ConstOp::I32(fallthrough as i32)));
        },
        IrInst::RaiseException(kind) => {
            body.push(WasmInst::Const(ConstOp::I32(kind)));
            body.push(WasmInst::Flow(FlowOp::Call(imports::RAISE_EXCEPTION)));
            body.push(WasmInst::Const(ConstOp::I32(0)));
            body.push(WasmInst::Flow(FlowOp::Return));
        },
    }
}

/// Groups locals into runs of one type.
fn group_locals(types: &Vec<IrTy>) -> (runs: Vec<(u32, ValTy)>)
    requires
        types@.len() < u32::MAX,
    ensures
        runs@ == local_runs(types@),
{
    let mut runs: Vec<(u32, ValTy)> = Vec::new();
    let mut i: usize = 0;
    assert(types@.take(0) =~= seq![]);
    while i < types.len()
        invariant
            i <= types@.len() < u32::MAX,
            runs@ == local_runs(types@.take(i as int)),
        decreases types@.len() - i,
    {
        let ty = match types[i] {
            IrTy::I32 => ValTy::I32,
            IrTy::F64 => ValTy::F64,
        };
        proof {
            let ahead = types@.take(i + 1);
            assert(ahead.drop_last() =~= types@.take(i as int));
            runs_expand_to_types(types@.take(i as int));
        }
        let last: usize = runs.len();
        if last > 0 && runs[last - 1].1 == ty {
            let count: u32 = runs[last - 1].0;
            runs.set(last - 1, (count + 1, ty));
        } else {
            runs.push((1, ty));
        }
        i = i + 1;
    }
    assert(types@.take(i as int) =~= types@);
    runs
}

/// One instruction becomes at most two dozen.
pub proof fn lowered_length(inst: IrInst, off: RegOffsets, si32: u32, sf64: u32)
    ensures
        lowered(inst, off, si32, sf64).len() <= 24,
{
    reveal(lowered);
}

/// The code of one instruction can be encoded.
pub proof fn lowered_is_encodable(inst: IrInst, off: RegOffsets, si32: u32, sf64: u32)
    ensures
        forall|i: int|
            0 <= i < lowered(inst, off, si32, sf64).len() ==> (#[trigger] lowered(
                inst,
                off,
                si32,
                sf64,
            )[i]).encodable(),
{
    reveal(lowered);
}

fn copy_labels(labels: &Vec<String>) -> (copy: Vec<String>)
    ensures
        label_views(copy@) == label_views(labels@),
{
    let mut copy: Vec<String> = Vec::new();
    let mut i: usize = 0;
    while i < labels.len()
        invariant
            i <= labels@.len(),
            copy@.len() == i,
            forall|k: int| 0 <= k < i ==> (#[trigger] copy@[k])@ == labels@[k]@,
        decreases labels@.len() - i,
    {
        copy.push(labels[i].clone());
        i = i + 1;
    }
    assert(label_views(copy@) =~= label_views(labels@));
    copy
}

/// Compiles an IR block into a standalone binary module.
pub fn lower(block: &IrBlock, offsets: &RegOffsets) -> (wasm: WasmBlock)
    requires
        block.insts@.len() <= MAX_IR_INSTS,
        block.local_types@.len() <= MAX_RUNS - 2,
        forall|i: int|
            0 <= i < block.insts@.len() ==> operands_fit(
                #[trigger] block.insts@[i],
                block.local_types@,
            ),
    ensures
        wasm.bytes@ == block_module(
            block_runs(block.local_types@),
            block_code(block.insts@, block.local_types@.len(), *offsets),
        ),
        wasm.bytes@.len() >= 8,
        wasm.bytes@.take(8) == seq![0u8, 0x61, 0x73, 0x6D, 1, 0, 0, 0],
        wasm.instruction_count == block.instruction_count,
        wasm.cycles == block.cycles,
        label_views(wasm.unimplemented_ops@) == label_views(block.unimplemented_ops@),
{
    let n_ir: u32 = block.local_types.len() as u32;
    let si32: u32 = n_ir + 1;
    let sf64: u32 = n_ir + 2;
    let mut body: Vec<WasmInst> = Vec::new();
    let mut i: usize = 0;
    assert(block.insts@.take(0) =~= seq![]);
    while i < block.insts.len()
        invariant
            i <= block.insts@.len() <= MAX_IR_INSTS,
            forall|k: int|
                0 <= k < block.insts@.len() ==> operands_fit(
                    #[trigger] block.insts@[k],
                    block.local_types@,
                ),
            body@ == lowered_all(block.insts@.take(i as int), *offsets, si32, sf64),
            body@.len() <= 24 * i,
            forall|k: int| 0 <= k < body@.len() ==> (#[trigger] body@[k]).encodable(),
        decreases block.insts@.len() - i,
    {
        proof {
            let ahead = block.insts@.take(i + 1);
            assert(ahead.drop_last() =~= block.insts@.take(i as int));
            lowered_length(block.insts@[i as int], *offsets, si32, sf64);
            lowered_is_encodable(block.insts@[i as int], *offsets, si32, sf64);
            assert(operands_fit(block.insts@[i as int], block.local_types@));
        }
        emit_inst(block.insts[i], offsets, si32, sf64, &mut body);
        i = i + 1;
    }
    assert(block.insts@.take(i as int) =~= block.insts@);
    body.push(WasmInst::Flow(FlowOp::End));
    proof {
        runs_expand_to_types(block.local_types@);
    }
    let mut runs = group_locals(&block.local_types);
    runs.push((1, ValTy::I32));
    runs.push((1, ValTy::F64));
    assert(runs@ =~= block_runs(block.local_types@));
    let bytes = encode_block(runs, &body);
    WasmBlock {
        bytes,
        instruction_count: block.instruction_count,
        cycles: block.cycles,
        unimplemented_ops: copy_labels(&block.unimplemented_ops),
    }
}

} // verus!
