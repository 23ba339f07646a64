//! What each guest instruction becomes in the intermediate representation.
//!
//! The table is laid out by instruction family. Every family gives the code and
//! the types of the locals that the code uses; a local is named by its position
//! behind the `n` locals that the block already has.

use vstd::prelude::*;

use super::inst::{label_views, local_at, IrBlock, IrInst, IrLocal, IrTy};
use super::inst::IrInst::{
    I32Const, F64Const, LocalSet, LocalGet, LocalTee, LoadGpr, LoadFprPs0, LoadFprPs1, LoadCr,
    LoadLr, LoadCtr, LoadXer, LoadMsr, LoadSrr0, LoadSrr1, LoadSprg, LoadTbLo, LoadTbHi, LoadDec,
    StoreGpr, StoreFprPs0, StoreFprPs1, StoreCr, StoreLr, StoreCtr, StoreXer, StoreMsr, StoreSrr0,
    StoreSrr1, StoreSprg, StoreDec, StorePC, I32Add, I32Sub, I32Mul, I32DivS, I32DivU, I32And,
    I32Or, I32Xor, I32Not, I32Shl, I32ShrU, I32ShrS, I32Rotl, I32Clz, I32Ctz, I32Eq, I32LtS,
    I32LtU, I32GtS, I32GtU, I32Eqz, I32Extend8S, I32Extend16S, F64Add, F64Sub, F64Mul, F64Div,
    F64Neg, F64Abs, F64Sqrt, F64Lt, F64Gt, F64Eq, I32TruncSatF64S, F64RoundToSingle,
    F64PromoteSingleBits, I32DemoteToSingleBits, I32FromF64LowBits, F64ReinterpretI64, F64Nearest,
    F64Select, I32Bswap, I32Bswap16, I64ExtendI32S, I64ExtendI32U, I64Mul, I64ShrS32, I64ShrU32,
    ReadU8, ReadU16, ReadU32, ReadF64, WriteU8, WriteU16, WriteU32, WriteF64, ReturnStatic,
    ReturnDynamic, BranchIf, BranchRegIf, RaiseException,
};
use crate::disasm::{opcode_name, Ins, Opcode};
use crate::gekko::SRR1_TO_MSR_MASK;

verus! {

/// Bit pattern of the double 0.0.
pub const F64_ZERO: u64 = 0;

/// Bit pattern of the double 1.0.
pub const F64_ONE: u64 = 0x3FF0_0000_0000_0000;

/// The word with all bits set.
pub const MINUS_ONE: i32 = -1;

/// A block may hold this many locals before an instruction is added to it.
pub const MAX_LOCALS: u32 = 0xFFFF_FF00;

/// The rotate mask from bit `mb` to bit `me`, counting from the most
/// significant bit and wrapping around when `mb` exceeds `me`.
pub open spec fn rotate_mask(mb: u32, me: u32) -> u32 {
    if mb <= me {
        (u32::MAX >> mb) & (u32::MAX << ((31 - me) as u32))
    } else {
        (u32::MAX >> mb) | (u32::MAX << ((31 - me) as u32))
    }
}

/// Whether bit `i` of `word` is set, counting from the most significant bit.
pub open spec fn msb_bit(word: u32, i: u32) -> bool {
    (word >> ((31 - i) as u32)) & 1 == 1
}

/// Bit `i` of a rotate mask is set exactly when `i` lies in the range from `mb`
/// to `me`, or outside the gap between them when the range wraps around.
pub proof fn rotate_mask_selects(mb: u32, me: u32, i: u32)
    requires
        mb <= 32,
        me <= 31,
        i <= 31,
    ensures
        msb_bit(rotate_mask(mb, me), i) <==> if mb <= me {
            mb <= i && i <= me
        } else {
            mb <= i || i <= me
        },
{
    assert(mb <= 32 && me <= 31 && i <= 31 ==> ((if mb <= me {
        (0xFFFF_FFFFu32 >> mb) & (0xFFFF_FFFFu32 << ((31 - me) as u32))
    } else {
        (0xFFFF_FFFFu32 >> mb) | (0xFFFF_FFFFu32 << ((31 - me) as u32))
    }) >> ((31 - i) as u32)) & 1 == if if mb <= me {
        mb <= i && i <= me
    } else {
        mb <= i || i <= me
    } {
        1u32
    } else {
        0u32
    }) by (bit_vector);
}

/// A wrapped mask is the complement of the gap that it leaves out.
pub proof fn rotate_mask_complement(mb: u32, me: u32)
    requires
        mb <= 32,
        me + 1 < mb,
    ensures
        rotate_mask(mb, me) == !rotate_mask((me + 1) as u32, (mb - 1) as u32),
{
    assert(mb <= 32 && me + 1 < mb ==> (0xFFFF_FFFFu32 >> mb) | (0xFFFF_FFFFu32 << (
    (31 - me) as u32)) == !((0xFFFF_FFFFu32 >> ((me + 1) as u32)) & (0xFFFF_FFFFu32 << (
    (31 - (mb - 1)) as u32)))) by (bit_vector);
}

/// The eight upper-case hexadecimal digits of `value`.
pub open spec fn hex8(value: u32) -> Seq<char> {
    Seq::new(8, |i: int| hex_digit((value >> ((28 - 4 * i) as u32)) % 16))
}

/// The upper-case hexadecimal digit for a value below 16.
pub open spec fn hex_digit(d: u32) -> char {
    if d < 10 {
        (48 + d) as char
    } else {
        (55 + d) as char
    }
}

// Address and result helpers.

/// Code that leaves `ra + d` on the stack, where register 0 stands for zero.
pub open spec fn ea_d_code(ra: u8, d: i32) -> Seq<IrInst> {
    if ra == 0 {
        seq![I32Const(d)]
    } else if d != 0 {
        seq![LoadGpr(ra), I32Const(d), I32Add]
    } else {
        seq![LoadGpr(ra)]
    }
}

/// Code that leaves `ra + rb` on the stack, where register 0 in the first
/// place stands for zero.
pub open spec fn ea_x_code(ra: u8, rb: u8) -> Seq<IrInst> {
    if ra == 0 {
        seq![LoadGpr(rb)]
    } else {
        seq![LoadGpr(ra), LoadGpr(rb), I32Add]
    }
}

/// Code that leaves `ra + imm` on the stack, where register 0 stands for zero.
pub open spec fn add_const_code(ra: u8, imm: i32) -> Seq<IrInst> {
    if ra == 0 {
        seq![I32Const(imm)]
    } else {
        seq![LoadGpr(ra), I32Const(imm), I32Add]
    }
}

/// Bit position of the SO flag of condition field `field`; EQ, GT and LT are
/// the next three positions up.
pub open spec fn so_position(field: u8) -> u32 {
    (28 - 4 * field) as u32
}

/// Code that ORs the 0 or 1 on top of the stack into the word below it.
pub open spec fn at_bit_code(position: u32) -> Seq<IrInst> {
    seq![I32Const(position as i32), I32Shl, I32Or]
}

/// Code that loads CR with condition field `field` cleared.
pub open spec fn cleared_field_code(field: u8) -> Seq<IrInst> {
    seq![LoadCr, I32Const(!(0xFu32 << so_position(field)) as i32), I32And]
}

/// Code that replaces condition field `field` by the outcomes of three tests
/// and the summary overflow of XER.
#[verifier::opaque]
pub open spec fn set_field_code(
    field: u8,
    lt: Seq<IrInst>,
    gt: Seq<IrInst>,
    eq: Seq<IrInst>,
) -> Seq<IrInst> {
    let so = so_position(field);
    cleared_field_code(field)
        + lt + at_bit_code((so + 3) as u32)
        + gt + at_bit_code((so + 2) as u32)
        + eq + at_bit_code((so + 1) as u32)
        + seq![LoadXer, I32Const(31), I32ShrU] + at_bit_code(so)
        + seq![StoreCr]
}

/// Code that records the sign of the local `loc` in condition field `field`.
pub open spec fn record_code(field: u8, loc: IrLocal) -> Seq<IrInst> {
    set_field_code(
        field,
        seq![LocalGet(loc), I32Const(0), I32LtS],
        seq![LocalGet(loc), I32Const(0), I32GtS],
        seq![LocalGet(loc), I32Eqz],
    )
}

/// Code that compares two locals as signed values.
#[verifier::opaque]
pub open spec fn compare_signed_code(field: u8, lhs: IrLocal, rhs: IrLocal) -> Seq<IrInst> {
    set_field_code(
        field,
        seq![LocalGet(lhs), LocalGet(rhs), I32LtS],
        seq![LocalGet(lhs), LocalGet(rhs), I32GtS],
        seq![LocalGet(lhs), LocalGet(rhs), I32Eq],
    )
}

/// Code that compares two locals as unsigned values.
#[verifier::opaque]
pub open spec fn compare_unsigned_code(field: u8, lhs: IrLocal, rhs: IrLocal) -> Seq<IrInst> {
    set_field_code(
        field,
        seq![LocalGet(lhs), LocalGet(rhs), I32LtU],
        seq![LocalGet(lhs), LocalGet(rhs), I32GtU],
        seq![LocalGet(lhs), LocalGet(rhs), I32Eq],
    )
}

/// Code that sets the carry flag of XER (bit 29) to the 0 or 1 in `carry`.
#[verifier::opaque]
pub open spec fn carry_code(carry: IrLocal) -> Seq<IrInst> {
    seq![
        LoadXer, I32Const(!(1u32 << 29u32) as i32), I32And,
        LocalGet(carry), I32Const(29), I32Shl, I32Or, StoreXer,
    ]
}

/// Code that stores the top of the stack in register `rd` and, if `rc` is set,
/// records its sign in condition field 0.
#[verifier::opaque]
pub open spec fn int_result_code(rd: u8, rc: bool, n: nat) -> Seq<IrInst> {
    let loc = local_at(n + 1, IrTy::I32);
    if rc {
        seq![LocalTee(loc), StoreGpr(rd)] + record_code(0, loc)
    } else {
        seq![StoreGpr(rd)]
    }
}

/// Locals for recording a result.
pub open spec fn record_locals(rc: bool) -> Seq<IrTy> {
    if rc {
        seq![IrTy::I32]
    } else {
        seq![]
    }
}

// Instruction families.

/// Code for integer arithmetic that leaves the carry alone; `n` locals are already in use.
#[verifier::opaque]
pub open spec fn arithmetic_code(ins: Ins, n: nat) -> Seq<IrInst> {
    match ins.op {
        Opcode::Addi => {
            ea_d_code(ins.gpr_a(), ins.field_simm() as i32)
                + seq![StoreGpr(ins.gpr_d())]
        },
        Opcode::Addis => {
            add_const_code(ins.gpr_a(), (ins.field_uimm() as i32) << 16)
                + seq![StoreGpr(ins.gpr_d())]
        },
        Opcode::Add => {
            seq![LoadGpr(ins.gpr_a()), LoadGpr(ins.gpr_b()), I32Add]
                + int_result_code(ins.gpr_d(), ins.field_rc(), n)
        },
        Opcode::Subf => {
            seq![LoadGpr(ins.gpr_b()), LoadGpr(ins.gpr_a()), I32Sub]
                + int_result_code(ins.gpr_d(), ins.field_rc(), n)
        },
        Opcode::Neg => {
            seq![I32Const(0), LoadGpr(ins.gpr_a()), I32Sub]
                + int_result_code(ins.gpr_d(), ins.field_rc(), n)
        },
        Opcode::Mulli => {
            seq![
                LoadGpr(ins.gpr_a()), I32Const(ins.field_simm() as i32), I32Mul,
                StoreGpr(ins.gpr_d()),
            ]
        },
        Opcode::Mullw => {
            seq![LoadGpr(ins.gpr_a()), LoadGpr(ins.gpr_b()), I32Mul]
                + int_result_code(ins.gpr_d(), ins.field_rc(), n)
        },
        Opcode::Mulhw => {
            seq![
                LoadGpr(ins.gpr_a()), I64ExtendI32S, LoadGpr(ins.gpr_b()), I64ExtendI32S, I64Mul,
                I64ShrS32,
            ]
                + int_result_code(ins.gpr_d(), ins.field_rc(), n)
        },
        Opcode::Mulhwu => {
            seq![
                LoadGpr(ins.gpr_a()), I64ExtendI32U, LoadGpr(ins.gpr_b()), I64ExtendI32U, I64Mul,
                I64ShrU32,
            ]
                + int_result_code(ins.gpr_d(), ins.field_rc(), n)
        },
        Opcode::Divw => {
            let ra_val = local_at(n + 1, IrTy::I32);
            let rb_val = local_at(n + 2, IrTy::I32);
            let bad = local_at(n + 3, IrTy::I32);
            let denom = local_at(n + 4, IrTy::I32);
            seq![LoadGpr(ins.gpr_a()), LocalSet(ra_val), LoadGpr(ins.gpr_b()), LocalSet(rb_val)]
                + seq![
                    LocalGet(rb_val), I32Eqz, LocalGet(ra_val), I32Const(i32::MIN), I32Eq,
                    LocalGet(rb_val),
                ]
                + seq![I32Const(MINUS_ONE), I32Eq, I32And, I32Or, LocalSet(bad)]
                + seq![I32Const(0), LocalGet(bad), I32Sub, LocalGet(rb_val), I32Const(1)]
                + seq![I32Xor, I32And, LocalGet(rb_val), I32Xor, LocalSet(denom)]
                + seq![LocalGet(ra_val), LocalGet(denom), I32DivS]
                + int_result_code(ins.gpr_d(), ins.field_rc(), n + 4)
        },
        Opcode::Divwu => {
            let ra_val = local_at(n + 1, IrTy::I32);
            let rb_val = local_at(n + 2, IrTy::I32);
            let bad = local_at(n + 3, IrTy::I32);
            let denom = local_at(n + 4, IrTy::I32);
            seq![LoadGpr(ins.gpr_a()), LocalSet(ra_val), LoadGpr(ins.gpr_b()), LocalSet(rb_val)]
                + seq![LocalGet(rb_val), I32Eqz, LocalSet(bad)]
                + seq![I32Const(0), LocalGet(bad), I32Sub, LocalGet(rb_val), I32Const(1)]
                + seq![I32Xor, I32And, LocalGet(rb_val), I32Xor, LocalSet(denom)]
                + seq![LocalGet(ra_val), LocalGet(denom), I32DivU]
                + int_result_code(ins.gpr_d(), ins.field_rc(), n + 4)
        },
        _ => seq![],
    }
}

/// Locals for integer arithmetic that leaves the carry alone.
pub open spec fn arithmetic_locals(ins: Ins) -> Seq<IrTy> {
    match ins.op {
        Opcode::Add | Opcode::Subf | Opcode::Neg | Opcode::Mullw | Opcode::Mulhw |
        Opcode::Mulhwu => record_locals(ins.field_rc()),
        Opcode::Divw | Opcode::Divwu => seq![IrTy::I32, IrTy::I32, IrTy::I32, IrTy::I32]
            + record_locals(ins.field_rc()),
        _ => seq![],
    }
}

/// Code for additions that record a carry; `n` locals are already in use.
#[verifier::opaque]
pub open spec fn carry_add_code(ins: Ins, n: nat) -> Seq<IrInst> {
    match ins.op {
        Opcode::Addic => {
            let ra_val = local_at(n + 1, IrTy::I32);
            let result = local_at(n + 2, IrTy::I32);
            let carry = local_at(n + 3, IrTy::I32);
            seq![
                LoadGpr(ins.gpr_a()), LocalTee(ra_val), I32Const(ins.field_simm() as i32), I32Add,
                LocalTee(result), LocalGet(ra_val), I32LtU, LocalSet(carry),
            ]
                + carry_code(carry)
                + seq![LocalGet(result)]
                + seq![StoreGpr(ins.gpr_d())]
        },
        Opcode::Addic_ => {
            let ra_val = local_at(n + 1, IrTy::I32);
            let result = local_at(n + 2, IrTy::I32);
            let carry = local_at(n + 3, IrTy::I32);
            seq![
                LoadGpr(ins.gpr_a()), LocalTee(ra_val), I32Const(ins.field_simm() as i32), I32Add,
                LocalTee(result), LocalGet(ra_val), I32LtU, LocalSet(carry),
            ]
                + carry_code(carry)
                + seq![LocalGet(result)]
                + int_result_code(ins.gpr_d(), true, n + 3)
        },
        Opcode::Addc => {
            let ra_val = local_at(n + 1, IrTy::I32);
            let result = local_at(n + 2, IrTy::I32);
            let carry = local_at(n + 3, IrTy::I32);
            seq![
                LoadGpr(ins.gpr_a()), LocalTee(ra_val), LoadGpr(ins.gpr_b()), I32Add,
                LocalTee(result), LocalGet(ra_val), I32LtU, LocalSet(carry),
            ]
                + carry_code(carry)
                + seq![LocalGet(result)]
                + int_result_code(ins.gpr_d(), ins.field_rc(), n + 3)
        },
        Opcode::Adde => {
            let ra_val = local_at(n + 1, IrTy::I32);
            let sum1 = local_at(n + 2, IrTy::I32);
            let c1 = local_at(n + 3, IrTy::I32);
            let ca_in = local_at(n + 4, IrTy::I32);
            let result = local_at(n + 5, IrTy::I32);
            let c2 = local_at(n + 6, IrTy::I32);
            let carry = local_at(n + 7, IrTy::I32);
            seq![
                LoadGpr(ins.gpr_a()), LocalTee(ra_val), LoadGpr(ins.gpr_b()), I32Add,
                LocalTee(sum1), LocalGet(ra_val), I32LtU, LocalSet(c1),
            ]
                + seq![LoadXer, I32Const(29), I32ShrU, I32Const(1), I32And, LocalSet(ca_in)]
                + seq![
                    LocalGet(sum1), LocalGet(ca_in), I32Add, LocalTee(result), LocalGet(sum1),
                    I32LtU,
                ]
                + seq![LocalSet(c2), LocalGet(c1), LocalGet(c2), I32Or, LocalSet(carry)]
                + carry_code(carry)
                + seq![LocalGet(result)]
                + int_result_code(ins.gpr_d(), ins.field_rc(), n + 7)
        },
        Opcode::Addze => {
            let ra_val = local_at(n + 1, IrTy::I32);
            let ca_in = local_at(n + 2, IrTy::I32);
            let result = local_at(n + 3, IrTy::I32);
            let carry = local_at(n + 4, IrTy::I32);
            seq![LoadGpr(ins.gpr_a()), LocalSet(ra_val)]
                + seq![LoadXer, I32Const(29), I32ShrU, I32Const(1), I32And, LocalSet(ca_in)]
                + seq![
                    LocalGet(ra_val), LocalGet(ca_in), I32Add, LocalTee(result), LocalGet(ra_val),
                    I32LtU, LocalSet(carry),
                ]
                + carry_code(carry)
                + seq![LocalGet(result)]
                + int_result_code(ins.gpr_d(), ins.field_rc(), n + 4)
        },
        Opcode::Addme => {
            let ra_val = local_at(n + 1, IrTy::I32);
            let sum1 = local_at(n + 2, IrTy::I32);
            let c1 = local_at(n + 3, IrTy::I32);
            let ca_in = local_at(n + 4, IrTy::I32);
            let result = local_at(n + 5, IrTy::I32);
            let c2 = local_at(n + 6, IrTy::I32);
            let carry = local_at(n + 7, IrTy::I32);
            seq![
                LoadGpr(ins.gpr_a()), LocalTee(ra_val), I32Const(MINUS_ONE), I32Add,
                LocalTee(sum1), LocalGet(ra_val), I32LtU, LocalSet(c1),
            ]
                + seq![LoadXer, I32Const(29), I32ShrU, I32Const(1), I32And, LocalSet(ca_in)]
                + seq![
                    LocalGet(sum1), LocalGet(ca_in), I32Add, LocalTee(result), LocalGet(sum1),
                    I32LtU,
                ]
                + seq![LocalSet(c2), LocalGet(c1), LocalGet(c2), I32Or, LocalSet(carry)]
                + carry_code(carry)
                + seq![LocalGet(result)]
                + int_result_code(ins.gpr_d(), ins.field_rc(), n + 7)
        },
        _ => seq![],
    }
}

/// Locals for additions that record a carry.
pub open spec fn carry_add_locals(ins: Ins) -> Seq<IrTy> {
    match ins.op {
        Opcode::Addic => seq![IrTy::I32, IrTy::I32, IrTy::I32],
        Opcode::Addic_ => seq![IrTy::I32, IrTy::I32, IrTy::I32, IrTy::I32],
        Opcode::Addc => seq![IrTy::I32, IrTy::I32, IrTy::I32] + record_locals(ins.field_rc()),
        Opcode::Adde | Opcode::Addme => seq![IrTy::I32, IrTy::I32, IrTy::I32, IrTy::I32, IrTy::I32,
            IrTy::I32, IrTy::I32] + record_locals(ins.field_rc()),
        Opcode::Addze => seq![IrTy::I32, IrTy::I32, IrTy::I32, IrTy::I32]
            + record_locals(ins.field_rc()),
        _ => seq![],
    }
}

/// Code for subtractions that record a carry; `n` locals are already in use.
#[verifier::opaque]
pub open spec fn carry_sub_code(ins: Ins, n: nat) -> Seq<IrInst> {
    match ins.op {
        Opcode::Subfic => {
            let ra_val = local_at(n + 1, IrTy::I32);
            let result = local_at(n + 2, IrTy::I32);
            let carry = local_at(n + 3, IrTy::I32);
            seq![
                LoadGpr(ins.gpr_a()), LocalSet(ra_val), I32Const(ins.field_simm() as i32),
                LocalGet(ra_val), I32Sub, LocalSet(result),
            ]
                + seq![
                    LocalGet(ra_val), I32Const(ins.field_simm() as i32), I32GtU, I32Const(1),
                    I32Xor, LocalSet(carry),
                ]
                + carry_code(carry)
                + seq![LocalGet(result), StoreGpr(ins.gpr_d())]
        },
        Opcode::Subfc => {
            let ra_val = local_at(n + 1, IrTy::I32);
            let rb_val = local_at(n + 2, IrTy::I32);
            let carry = local_at(n + 3, IrTy::I32);
            seq![LoadGpr(ins.gpr_a()), LocalSet(ra_val), LoadGpr(ins.gpr_b()), LocalSet(rb_val)]
                + seq![
                    LocalGet(rb_val), LocalGet(ra_val), I32LtU, I32Const(1), I32Xor,
                    LocalSet(carry),
                ]
                + carry_code(carry)
                + seq![LocalGet(rb_val), LocalGet(ra_val), I32Sub]
                + int_result_code(ins.gpr_d(), ins.field_rc(), n + 3)
        },
        Opcode::Subfe => {
            let ra_val = local_at(n + 1, IrTy::I32);
            let rb_val = local_at(n + 2, IrTy::I32);
            let not_ra = local_at(n + 3, IrTy::I32);
            let sum1 = local_at(n + 4, IrTy::I32);
            let c1 = local_at(n + 5, IrTy::I32);
            let ca_in = local_at(n + 6, IrTy::I32);
            let result = local_at(n + 7, IrTy::I32);
            let c2 = local_at(n + 8, IrTy::I32);
            let carry = local_at(n + 9, IrTy::I32);
            seq![LoadGpr(ins.gpr_a()), LocalSet(ra_val), LoadGpr(ins.gpr_b()), LocalSet(rb_val)]
                + seq![LocalGet(ra_val), I32Not, LocalSet(not_ra)]
                + seq![
                    LocalGet(rb_val), LocalGet(not_ra), I32Add, LocalTee(sum1), LocalGet(rb_val),
                    I32LtU, LocalSet(c1),
                ]
                + seq![LoadXer, I32Const(29), I32ShrU, I32Const(1), I32And, LocalSet(ca_in)]
                + seq![
                    LocalGet(sum1), LocalGet(ca_in), I32Add, LocalTee(result), LocalGet(sum1),
                    I32LtU,
                ]
                + seq![LocalSet(c2), LocalGet(c1), LocalGet(c2), I32Or, LocalSet(carry)]
                + carry_code(carry)
                + seq![LocalGet(result)]
                + int_result_code(ins.gpr_d(), ins.field_rc(), n + 9)
        },
        Opcode::Subfze => {
            let not_ra = local_at(n + 1, IrTy::I32);
            let ca_in = local_at(n + 2, IrTy::I32);
            let result = local_at(n + 3, IrTy::I32);
            let carry = local_at(n + 4, IrTy::I32);
            seq![LoadGpr(ins.gpr_a()), I32Not, LocalSet(not_ra)]
                + seq![LoadXer, I32Const(29), I32ShrU, I32Const(1), I32And, LocalSet(ca_in)]
                + seq![
                    LocalGet(not_ra), LocalGet(ca_in), I32Add, LocalTee(result), LocalGet(not_ra),
                    I32LtU, LocalSet(carry),
                ]
                + carry_code(carry)
                + seq![LocalGet(result)]
                + int_result_code(ins.gpr_d(), ins.field_rc(), n + 4)
        },
        Opcode::Subfme => {
            let not_ra = local_at(n + 1, IrTy::I32);
            let sum1 = local_at(n + 2, IrTy::I32);
            let c1 = local_at(n + 3, IrTy::I32);
            let ca_in = local_at(n + 4, IrTy::I32);
            let result = local_at(n + 5, IrTy::I32);
            let c2 = local_at(n + 6, IrTy::I32);
            let carry = local_at(n + 7, IrTy::I32);
            seq![LoadGpr(ins.gpr_a()), I32Not, LocalSet(not_ra)]
                + seq![
                    LocalGet(not_ra), I32Const(MINUS_ONE), I32Add, LocalTee(sum1),
                    LocalGet(not_ra), I32LtU, LocalSet(c1),
                ]
                + seq![LoadXer, I32Const(29), I32ShrU, I32Const(1), I32And, LocalSet(ca_in)]
                + seq![
                    LocalGet(sum1), LocalGet(ca_in), I32Add, LocalTee(result), LocalGet(sum1),
                    I32LtU,
                ]
                + seq![LocalSet(c2), LocalGet(c1), LocalGet(c2), I32Or, LocalSet(carry)]
                + carry_code(carry)
                + seq![LocalGet(result)]
                + int_result_code(ins.gpr_d(), ins.field_rc(), n + 7)
        },
        _ => seq![],
    }
}

/// Locals for subtractions that record a carry.
pub open spec fn carry_sub_locals(ins: Ins) -> Seq<IrTy> {
    match ins.op {
        Opcode::Subfic => seq![IrTy::I32, IrTy::I32, IrTy::I32],
        Opcode::Subfc => seq![IrTy::I32, IrTy::I32, IrTy::I32] + record_locals(ins.field_rc()),
        Opcode::Subfe => seq![IrTy::I32, IrTy::I32, IrTy::I32, IrTy::I32, IrTy::I32, IrTy::I32,
            IrTy::I32, IrTy::I32, IrTy::I32] + record_locals(ins.field_rc()),
        Opcode::Subfze => seq![IrTy::I32, IrTy::I32, IrTy::I32, IrTy::I32]
            + record_locals(ins.field_rc()),
        Opcode::Subfme => seq![IrTy::I32, IrTy::I32, IrTy::I32, IrTy::I32, IrTy::I32, IrTy::I32,
            IrTy::I32] + record_locals(ins.field_rc()),
        _ => seq![],
    }
}

/// Code for bitwise logic, counting and sign extension; `n` locals are already in use.
#[verifier::opaque]
pub open spec fn logic_code(ins: Ins, n: nat) -> Seq<IrInst> {
    match ins.op {
        Opcode::And => {
            seq![LoadGpr(ins.gpr_s()), LoadGpr(ins.gpr_b()), I32And]
                + int_result_code(ins.gpr_a(), ins.field_rc(), n)
        },
        Opcode::Andc => {
            seq![LoadGpr(ins.gpr_s()), LoadGpr(ins.gpr_b()), I32Not, I32And]
                + int_result_code(ins.gpr_a(), ins.field_rc(), n)
        },
        Opcode::Or => {
            seq![LoadGpr(ins.gpr_s()), LoadGpr(ins.gpr_b()), I32Or]
                + int_result_code(ins.gpr_a(), ins.field_rc(), n)
        },
        Opcode::Orc => {
            seq![LoadGpr(ins.gpr_s()), LoadGpr(ins.gpr_b()), I32Not, I32Or]
                + int_result_code(ins.gpr_a(), ins.field_rc(), n)
        },
        Opcode::Xor => {
            seq![LoadGpr(ins.gpr_s()), LoadGpr(ins.gpr_b()), I32Xor]
                + int_result_code(ins.gpr_a(), ins.field_rc(), n)
        },
        Opcode::Nor => {
            seq![LoadGpr(ins.gpr_s()), LoadGpr(ins.gpr_b()), I32Or, I32Not]
                + int_result_code(ins.gpr_a(), ins.field_rc(), n)
        },
        Opcode::Nand => {
            seq![LoadGpr(ins.gpr_s()), LoadGpr(ins.gpr_b()), I32And, I32Not]
                + int_result_code(ins.gpr_a(), ins.field_rc(), n)
        },
        Opcode::Eqv => {
            seq![LoadGpr(ins.gpr_s()), LoadGpr(ins.gpr_b()), I32Xor, I32Not]
                + int_result_code(ins.gpr_a(), ins.field_rc(), n)
        },
        Opcode::Andi_ => {
            seq![LoadGpr(ins.gpr_s()), I32Const(ins.field_uimm() as i32), I32And]
                + int_result_code(ins.gpr_a(), true, n)
        },
        Opcode::Andis_ => {
            seq![LoadGpr(ins.gpr_s()), I32Const((ins.field_uimm() as i32) << 16), I32And]
                + int_result_code(ins.gpr_a(), true, n)
        },
        Opcode::Ori => {
            seq![
                LoadGpr(ins.gpr_s()), I32Const(ins.field_uimm() as i32), I32Or,
                StoreGpr(ins.gpr_a()),
            ]
        },
        Opcode::Oris => {
            seq![
                LoadGpr(ins.gpr_s()), I32Const((ins.field_uimm() as i32) << 16), I32Or,
                StoreGpr(ins.gpr_a()),
            ]
        },
        Opcode::Xori => {
            seq![
                LoadGpr(ins.gpr_s()), I32Const(ins.field_uimm() as i32), I32Xor,
                StoreGpr(ins.gpr_a()),
            ]
        },
        Opcode::Xoris => {
            seq![
                LoadGpr(ins.gpr_s()), I32Const((ins.field_uimm() as i32) << 16), I32Xor,
                StoreGpr(ins.gpr_a()),
            ]
        },
        Opcode::Cntlzw => {
            seq![LoadGpr(ins.gpr_s()), I32Clz, StoreGpr(ins.gpr_a())]
        },
        Opcode::Extsb => {
            seq![LoadGpr(ins.gpr_s()), I32Extend8S]
                + int_result_code(ins.gpr_a(), ins.field_rc(), n)
        },
        Opcode::Extsh => {
            seq![LoadGpr(ins.gpr_s()), I32Extend16S]
                + int_result_code(ins.gpr_a(), ins.field_rc(), n)
        },
        _ => seq![],
    }
}

/// Locals for bitwise logic, counting and sign extension.
pub open spec fn logic_locals(ins: Ins) -> Seq<IrTy> {
    match ins.op {
        Opcode::And | Opcode::Andc | Opcode::Or | Opcode::Orc | Opcode::Xor | Opcode::Nor |
        Opcode::Nand | Opcode::Eqv | Opcode::Extsb | Opcode::Extsh => record_locals(ins.field_rc()),
        Opcode::Andi_ | Opcode::Andis_ => seq![IrTy::I32],
        _ => seq![],
    }
}

/// Code for shifts by a register; `n` locals are already in use.
#[verifier::opaque]
pub open spec fn shift_code(ins: Ins, n: nat) -> Seq<IrInst> {
    match ins.op {
        Opcode::Slw => {
            let rs_val = local_at(n + 1, IrTy::I32);
            let shift_exceeds_31 = local_at(n + 2, IrTy::I32);
            seq![
                LoadGpr(ins.gpr_s()), LocalSet(rs_val), LoadGpr(ins.gpr_b()), I32Const(5), I32ShrU,
                I32Const(1), I32And, LocalSet(shift_exceeds_31),
            ]
                + seq![
                    LocalGet(rs_val), LoadGpr(ins.gpr_b()), I32Shl, I32Const(0),
                    LocalGet(shift_exceeds_31), I32Sub, I32Not, I32And,
                ]
                + int_result_code(ins.gpr_a(), ins.field_rc(), n + 2)
        },
        Opcode::Srw => {
            let rs_val = local_at(n + 1, IrTy::I32);
            let shift_exceeds_31 = local_at(n + 2, IrTy::I32);
            seq![
                LoadGpr(ins.gpr_s()), LocalSet(rs_val), LoadGpr(ins.gpr_b()), I32Const(5), I32ShrU,
                I32Const(1), I32And, LocalSet(shift_exceeds_31),
            ]
                + seq![
                    LocalGet(rs_val), LoadGpr(ins.gpr_b()), I32ShrU, I32Const(0),
                    LocalGet(shift_exceeds_31), I32Sub, I32Not, I32And,
                ]
                + int_result_code(ins.gpr_a(), ins.field_rc(), n + 2)
        },
        Opcode::Sraw => {
            let rs_val = local_at(n + 1, IrTy::I32);
            let sh = local_at(n + 2, IrTy::I32);
            let sh_clamped = local_at(n + 3, IrTy::I32);
            let result = local_at(n + 4, IrTy::I32);
            let is_neg = local_at(n + 5, IrTy::I32);
            let tz = local_at(n + 6, IrTy::I32);
            let carry = local_at(n + 7, IrTy::I32);
            let overflow = local_at(n + 8, IrTy::I32);
            seq![
                LoadGpr(ins.gpr_s()), LocalSet(rs_val), LoadGpr(ins.gpr_b()), I32Const(0x3F),
                I32And, LocalSet(sh),
            ]
                + seq![LocalGet(sh), I32Const(5), I32ShrU, I32Const(1), I32And, LocalSet(overflow)]
                + seq![I32Const(0), LocalGet(overflow), I32Sub, LocalGet(sh), I32Const(31)]
                + seq![I32Xor, I32And, LocalGet(sh), I32Xor, LocalSet(sh_clamped)]
                + seq![LocalGet(rs_val), LocalGet(sh_clamped), I32ShrS, LocalSet(result)]
                + seq![
                    LocalGet(rs_val), I32Const(31), I32ShrU, I32Const(1), I32And, LocalSet(is_neg),
                ]
                + seq![LocalGet(rs_val), I32Ctz, LocalSet(tz)]
                + seq![
                    LocalGet(sh), LocalGet(tz), I32GtU, LocalGet(is_neg), I32And, LocalSet(carry),
                ]
                + carry_code(carry)
                + seq![LocalGet(result)]
                + int_result_code(ins.gpr_a(), ins.field_rc(), n + 8)
        },
        _ => seq![],
    }
}

/// Locals for shifts by a register.
pub open spec fn shift_locals(ins: Ins) -> Seq<IrTy> {
    match ins.op {
        Opcode::Slw | Opcode::Srw => seq![IrTy::I32, IrTy::I32] + record_locals(ins.field_rc()),
        Opcode::Sraw => seq![IrTy::I32, IrTy::I32, IrTy::I32, IrTy::I32, IrTy::I32, IrTy::I32,
            IrTy::I32, IrTy::I32] + record_locals(ins.field_rc()),
        _ => seq![],
    }
}

/// Code for integer loads; `n` locals are already in use.
#[verifier::opaque]
pub open spec fn load_code(ins: Ins, n: nat) -> Seq<IrInst> {
    match ins.op {
        Opcode::Lwz => {
            ea_d_code(ins.gpr_a(), ins.field_offset() as i32)
                + seq![ReadU32, StoreGpr(ins.gpr_d())]
        },
        Opcode::Lwzu => {
            let ea = local_at(n + 1, IrTy::I32);
            seq![
                LoadGpr(ins.gpr_a()), I32Const(ins.field_offset() as i32), I32Add, LocalTee(ea),
                StoreGpr(ins.gpr_a()), LocalGet(ea), ReadU32, StoreGpr(ins.gpr_d()),
            ]
        },
        Opcode::Lwzx => {
            ea_x_code(ins.gpr_a(), ins.gpr_b())
                + seq![ReadU32, StoreGpr(ins.gpr_d())]
        },
        Opcode::Lwzux => {
            let ea = local_at(n + 1, IrTy::I32);
            seq![
                LoadGpr(ins.gpr_a()), LoadGpr(ins.gpr_b()), I32Add, LocalTee(ea),
                StoreGpr(ins.gpr_a()), LocalGet(ea), ReadU32, StoreGpr(ins.gpr_d()),
            ]
        },
        Opcode::Lhz => {
            ea_d_code(ins.gpr_a(), ins.field_offset() as i32)
                + seq![ReadU16, StoreGpr(ins.gpr_d())]
        },
        Opcode::Lhzu => {
            let ea = local_at(n + 1, IrTy::I32);
            seq![
                LoadGpr(ins.gpr_a()), I32Const(ins.field_offset() as i32), I32Add, LocalTee(ea),
                StoreGpr(ins.gpr_a()), LocalGet(ea), ReadU16, StoreGpr(ins.gpr_d()),
            ]
        },
        Opcode::Lhzx => {
            ea_x_code(ins.gpr_a(), ins.gpr_b())
                + seq![ReadU16, StoreGpr(ins.gpr_d())]
        },
        Opcode::Lhzux => {
            let ea = local_at(n + 1, IrTy::I32);
            seq![
                LoadGpr(ins.gpr_a()), LoadGpr(ins.gpr_b()), I32Add, LocalTee(ea),
                StoreGpr(ins.gpr_a()), LocalGet(ea), ReadU16, StoreGpr(ins.gpr_d()),
            ]
        },
        Opcode::Lbz => {
            ea_d_code(ins.gpr_a(), ins.field_offset() as i32)
                + seq![ReadU8, StoreGpr(ins.gpr_d())]
        },
        Opcode::Lbzu => {
            let ea = local_at(n + 1, IrTy::I32);
            seq![
                LoadGpr(ins.gpr_a()), I32Const(ins.field_offset() as i32), I32Add, LocalTee(ea),
                StoreGpr(ins.gpr_a()), LocalGet(ea), ReadU8, StoreGpr(ins.gpr_d()),
            ]
        },
        Opcode::Lbzx => {
            ea_x_code(ins.gpr_a(), ins.gpr_b())
                + seq![ReadU8, StoreGpr(ins.gpr_d())]
        },
        Opcode::Lbzux => {
            let ea = local_at(n + 1, IrTy::I32);
            seq![
                LoadGpr(ins.gpr_a()), LoadGpr(ins.gpr_b()), I32Add, LocalTee(ea),
                StoreGpr(ins.gpr_a()), LocalGet(ea), ReadU8, StoreGpr(ins.gpr_d()),
            ]
        },
        Opcode::Lha => {
            ea_d_code(ins.gpr_a(), ins.field_offset() as i32)
                + seq![ReadU16, I32Extend16S, StoreGpr(ins.gpr_d())]
        },
        Opcode::Lhau => {
            let ea = local_at(n + 1, IrTy::I32);
            seq![
                LoadGpr(ins.gpr_a()), I32Const(ins.field_offset() as i32), I32Add, LocalTee(ea),
                StoreGpr(ins.gpr_a()),
            ]
                + seq![LocalGet(ea), ReadU16, I32Extend16S, StoreGpr(ins.gpr_d())]
        },
        Opcode::Lhax => {
            ea_x_code(ins.gpr_a(), ins.gpr_b())
                + seq![ReadU16, I32Extend16S, StoreGpr(ins.gpr_d())]
        },
        Opcode::Lhaux => {
            let ea = local_at(n + 1, IrTy::I32);
            seq![
                LoadGpr(ins.gpr_a()), LoadGpr(ins.gpr_b()), I32Add, LocalTee(ea),
                StoreGpr(ins.gpr_a()),
            ]
                + seq![LocalGet(ea), ReadU16, I32Extend16S, StoreGpr(ins.gpr_d())]
        },
        Opcode::Lwbrx => {
            ea_x_code(ins.gpr_a(), ins.gpr_b())
                + seq![ReadU32, I32Bswap, StoreGpr(ins.gpr_d())]
        },
        Opcode::Lhbrx => {
            ea_x_code(ins.gpr_a(), ins.gpr_b())
                + seq![ReadU16, I32Bswap16, StoreGpr(ins.gpr_d())]
        },
        Opcode::Lwarx => {
            ea_x_code(ins.gpr_a(), ins.gpr_b())
                + seq![ReadU32, StoreGpr(ins.gpr_d())]
        },
        _ => seq![],
    }
}

/// Locals for integer loads.
pub open spec fn load_locals(ins: Ins) -> Seq<IrTy> {
    match ins.op {
        Opcode::Lwzu | Opcode::Lwzux | Opcode::Lhzu | Opcode::Lhzux | Opcode::Lbzu |
        Opcode::Lbzux | Opcode::Lhau | Opcode::Lhaux => seq![IrTy::I32],
        _ => seq![],
    }
}

/// Code for integer stores; `n` locals are already in use.
#[verifier::opaque]
pub open spec fn store_code(ins: Ins, n: nat) -> Seq<IrInst> {
    match ins.op {
        Opcode::Stw => {
            ea_d_code(ins.gpr_a(), ins.field_offset() as i32)
                + seq![LoadGpr(ins.gpr_s()), WriteU32]
        },
        Opcode::Stwu => {
            let ea = local_at(n + 1, IrTy::I32);
            seq![
                LoadGpr(ins.gpr_a()), I32Const(ins.field_offset() as i32), I32Add, LocalSet(ea),
                LocalGet(ea),
            ]
                + seq![LoadGpr(ins.gpr_s()), WriteU32, LocalGet(ea), StoreGpr(ins.gpr_a())]
        },
        Opcode::Stwx => {
            ea_x_code(ins.gpr_a(), ins.gpr_b())
                + seq![LoadGpr(ins.gpr_s()), WriteU32]
        },
        Opcode::Stwux => {
            let ea = local_at(n + 1, IrTy::I32);
            seq![LoadGpr(ins.gpr_a()), LoadGpr(ins.gpr_b()), I32Add, LocalSet(ea), LocalGet(ea)]
                + seq![LoadGpr(ins.gpr_s()), WriteU32, LocalGet(ea), StoreGpr(ins.gpr_a())]
        },
        Opcode::Sth => {
            ea_d_code(ins.gpr_a(), ins.field_offset() as i32)
                + seq![LoadGpr(ins.gpr_s()), WriteU16]
        },
        Opcode::Sthu => {
            let ea = local_at(n + 1, IrTy::I32);
            seq![
                LoadGpr(ins.gpr_a()), I32Const(ins.field_offset() as i32), I32Add, LocalSet(ea),
                LocalGet(ea),
            ]
                + seq![LoadGpr(ins.gpr_s()), WriteU16, LocalGet(ea), StoreGpr(ins.gpr_a())]
        },
        Opcode::Sthx => {
            ea_x_code(ins.gpr_a(), ins.gpr_b())
                + seq![LoadGpr(ins.gpr_s()), WriteU16]
        },
        Opcode::Sthux => {
            let ea = local_at(n + 1, IrTy::I32);
            seq![LoadGpr(ins.gpr_a()), LoadGpr(ins.gpr_b()), I32Add, LocalSet(ea), LocalGet(ea)]
                + seq![LoadGpr(ins.gpr_s()), WriteU16, LocalGet(ea), StoreGpr(ins.gpr_a())]
        },
        Opcode::Stb => {
            ea_d_code(ins.gpr_a(), ins.field_offset() as i32)
                + seq![LoadGpr(ins.gpr_s()), WriteU8]
        },
        Opcode::Stbu => {
            let ea = local_at(n + 1, IrTy::I32);
            seq![
                LoadGpr(ins.gpr_a()), I32Const(ins.field_offset() as i32), I32Add, LocalSet(ea),
                LocalGet(ea),
            ]
                + seq![LoadGpr(ins.gpr_s()), WriteU8, LocalGet(ea), StoreGpr(ins.gpr_a())]
        },
        Opcode::Stbx => {
            ea_x_code(ins.gpr_a(), ins.gpr_b())
                + seq![LoadGpr(ins.gpr_s()), WriteU8]
        },
        Opcode::Stbux => {
            let ea = local_at(n + 1, IrTy::I32);
            seq![LoadGpr(ins.gpr_a()), LoadGpr(ins.gpr_b()), I32Add, LocalSet(ea), LocalGet(ea)]
                + seq![LoadGpr(ins.gpr_s()), WriteU8, LocalGet(ea), StoreGpr(ins.gpr_a())]
        },
        Opcode::Stwbrx => {
            ea_x_code(ins.gpr_a(), ins.gpr_b())
                + seq![LoadGpr(ins.gpr_s()), I32Bswap, WriteU32]
        },
        Opcode::Sthbrx => {
            ea_x_code(ins.gpr_a(), ins.gpr_b())
                + seq![LoadGpr(ins.gpr_s()), I32Bswap16, WriteU16]
        },
        Opcode::Stwcx_ => {
            let so = local_at(n + 1, IrTy::I32);
            ea_x_code(ins.gpr_a(), ins.gpr_b())
                + seq![LoadGpr(ins.gpr_s()), WriteU32]
                + seq![LoadXer, I32Const(31), I32ShrU, I32Const(1), I32And, LocalSet(so)]
                + seq![
                    LoadCr, I32Const(!(0xFu32 << 28u32) as i32), I32And, I32Const(1i32 << 29u32),
                    I32Or,
                ]
                + seq![LocalGet(so), I32Const(28), I32Shl, I32Or, StoreCr]
        },
        _ => seq![],
    }
}

/// Locals for integer stores.
pub open spec fn store_locals(ins: Ins) -> Seq<IrTy> {
    match ins.op {
        Opcode::Stwu | Opcode::Stwux | Opcode::Sthu | Opcode::Sthux | Opcode::Stbu |
        Opcode::Stbux | Opcode::Stwcx_ => seq![IrTy::I32],
        _ => seq![],
    }
}

/// Code for floating-point loads; `n` locals are already in use.
#[verifier::opaque]
pub open spec fn float_load_code(ins: Ins, n: nat) -> Seq<IrInst> {
    match ins.op {
        Opcode::Lfs | Opcode::PsqL => {
            ea_d_code(ins.gpr_a(), ins.field_offset() as i32)
                + seq![
                    ReadU32, F64PromoteSingleBits, StoreFprPs0(ins.fpr_d()),
                    LoadFprPs0(ins.fpr_d()), StoreFprPs1(ins.fpr_d()),
                ]
        },
        Opcode::Lfsu | Opcode::PsqLu => {
            let ea = local_at(n + 1, IrTy::I32);
            seq![
                LoadGpr(ins.gpr_a()), I32Const(ins.field_offset() as i32), I32Add, LocalTee(ea),
                StoreGpr(ins.gpr_a()), LocalGet(ea),
            ]
                + seq![
                    ReadU32, F64PromoteSingleBits, StoreFprPs0(ins.fpr_d()),
                    LoadFprPs0(ins.fpr_d()), StoreFprPs1(ins.fpr_d()),
                ]
        },
        Opcode::Lfsx | Opcode::PsqLx => {
            ea_x_code(ins.gpr_a(), ins.gpr_b())
                + seq![
                    ReadU32, F64PromoteSingleBits, StoreFprPs0(ins.fpr_d()),
                    LoadFprPs0(ins.fpr_d()), StoreFprPs1(ins.fpr_d()),
                ]
        },
        Opcode::Lfsux => {
            let ea = local_at(n + 1, IrTy::I32);
            seq![
                LoadGpr(ins.gpr_a()), LoadGpr(ins.gpr_b()), I32Add, LocalTee(ea),
                StoreGpr(ins.gpr_a()), LocalGet(ea),
            ]
                + seq![
                    ReadU32, F64PromoteSingleBits, StoreFprPs0(ins.fpr_d()),
                    LoadFprPs0(ins.fpr_d()), StoreFprPs1(ins.fpr_d()),
                ]
        },
        Opcode::Lfd => {
            ea_d_code(ins.gpr_a(), ins.field_offset() as i32)
                + seq![ReadF64, StoreFprPs0(ins.fpr_d())]
        },
        Opcode::Lfdu => {
            let ea = local_at(n + 1, IrTy::I32);
            seq![
                LoadGpr(ins.gpr_a()), I32Const(ins.field_offset() as i32), I32Add, LocalTee(ea),
                StoreGpr(ins.gpr_a()), LocalGet(ea),
            ]
                + seq![ReadF64, StoreFprPs0(ins.fpr_d())]
        },
        Opcode::Lfdx => {
            ea_x_code(ins.gpr_a(), ins.gpr_b())
                + seq![ReadF64, StoreFprPs0(ins.fpr_d())]
        },
        Opcode::Lfdux => {
            let ea = local_at(n + 1, IrTy::I32);
            seq![
                LoadGpr(ins.gpr_a()), LoadGpr(ins.gpr_b()), I32Add, LocalTee(ea),
                StoreGpr(ins.gpr_a()), LocalGet(ea),
            ]
                + seq![ReadF64, StoreFprPs0(ins.fpr_d())]
        },
        _ => seq![],
    }
}

/// Locals for floating-point loads.
pub open spec fn float_load_locals(ins: Ins) -> Seq<IrTy> {
    match ins.op {
        Opcode::Lfsu | Opcode::PsqLu | Opcode::Lfsux | Opcode::Lfdu
            | Opcode::Lfdux => seq![IrTy::I32],
        _ => seq![],
    }
}

/// Code for floating-point stores; `n` locals are already in use.
#[verifier::opaque]
pub open spec fn float_store_code(ins: Ins, n: nat) -> Seq<IrInst> {
    match ins.op {
        Opcode::Stfs | Opcode::PsqSt => {
            ea_d_code(ins.gpr_a(), ins.field_offset() as i32)
                + seq![LoadFprPs0(ins.fpr_s()), I32DemoteToSingleBits, WriteU32]
        },
        Opcode::Stfsu => {
            let ea = local_at(n + 1, IrTy::I32);
            seq![
                LoadGpr(ins.gpr_a()), I32Const(ins.field_offset() as i32), I32Add, LocalTee(ea),
                StoreGpr(ins.gpr_a()), LocalGet(ea),
            ]
                + seq![LoadFprPs0(ins.fpr_s()), I32DemoteToSingleBits, WriteU32]
        },
        Opcode::Stfsx | Opcode::PsqStx => {
            ea_x_code(ins.gpr_a(), ins.gpr_b())
                + seq![LoadFprPs0(ins.fpr_s()), I32DemoteToSingleBits, WriteU32]
        },
        Opcode::Stfsux => {
            let ea = local_at(n + 1, IrTy::I32);
            seq![
                LoadGpr(ins.gpr_a()), LoadGpr(ins.gpr_b()), I32Add, LocalTee(ea),
                StoreGpr(ins.gpr_a()), LocalGet(ea),
            ]
                + seq![LoadFprPs0(ins.fpr_s()), I32DemoteToSingleBits, WriteU32]
        },
        Opcode::PsqStu => {
            let ea = local_at(n + 1, IrTy::I32);
            seq![LoadGpr(ins.gpr_a()), I32Const(ins.field_offset() as i32), I32Add, LocalTee(ea)]
                + seq![LoadFprPs0(ins.fpr_s()), I32DemoteToSingleBits, WriteU32]
                + seq![LocalGet(ea), StoreGpr(ins.gpr_a())]
        },
        Opcode::Stfd => {
            ea_d_code(ins.gpr_a(), ins.field_offset() as i32)
                + seq![LoadFprPs0(ins.fpr_s()), WriteF64]
        },
        Opcode::Stfdu => {
            let ea = local_at(n + 1, IrTy::I32);
            seq![
                LoadGpr(ins.gpr_a()), I32Const(ins.field_offset() as i32), I32Add, LocalTee(ea),
                StoreGpr(ins.gpr_a()), LocalGet(ea),
            ]
                + seq![LoadFprPs0(ins.fpr_s()), WriteF64]
        },
        Opcode::Stfdx => {
            ea_x_code(ins.gpr_a(), ins.gpr_b())
                + seq![LoadFprPs0(ins.fpr_s()), WriteF64]
        },
        Opcode::Stfdux => {
            let ea = local_at(n + 1, IrTy::I32);
            seq![
                LoadGpr(ins.gpr_a()), LoadGpr(ins.gpr_b()), I32Add, LocalTee(ea),
                StoreGpr(ins.gpr_a()), LocalGet(ea),
            ]
                + seq![LoadFprPs0(ins.fpr_s()), WriteF64]
        },
        Opcode::Stfiwx => {
            ea_x_code(ins.gpr_a(), ins.gpr_b())
                + seq![LoadFprPs0(ins.fpr_s()), I32FromF64LowBits, WriteU32]
        },
        _ => seq![],
    }
}

/// Locals for floating-point stores.
pub open spec fn float_store_locals(ins: Ins) -> Seq<IrTy> {
    match ins.op {
        Opcode::Stfsu | Opcode::Stfsux | Opcode::PsqStu | Opcode::Stfdu
            | Opcode::Stfdux => seq![IrTy::I32],
        _ => seq![],
    }
}

/// Code for scalar floating-point arithmetic; `n` locals are already in use.
#[verifier::opaque]
pub open spec fn scalar_code(ins: Ins, n: nat) -> Seq<IrInst> {
    match ins.op {
        Opcode::Fadd => {
            seq![LoadFprPs0(ins.fpr_a()), LoadFprPs0(ins.fpr_b()), F64Add, StoreFprPs0(ins.fpr_d())]
        },
        Opcode::Fadds => {
            seq![
                LoadFprPs0(ins.fpr_a()), LoadFprPs0(ins.fpr_b()), F64Add, F64RoundToSingle,
                StoreFprPs0(ins.fpr_d()),
            ]
        },
        Opcode::Fsub => {
            seq![LoadFprPs0(ins.fpr_a()), LoadFprPs0(ins.fpr_b()), F64Sub, StoreFprPs0(ins.fpr_d())]
        },
        Opcode::Fsubs => {
            seq![
                LoadFprPs0(ins.fpr_a()), LoadFprPs0(ins.fpr_b()), F64Sub, F64RoundToSingle,
                StoreFprPs0(ins.fpr_d()),
            ]
        },
        Opcode::Fdiv => {
            seq![LoadFprPs0(ins.fpr_a()), LoadFprPs0(ins.fpr_b()), F64Div, StoreFprPs0(ins.fpr_d())]
        },
        Opcode::Fdivs => {
            seq![
                LoadFprPs0(ins.fpr_a()), LoadFprPs0(ins.fpr_b()), F64Div, F64RoundToSingle,
                StoreFprPs0(ins.fpr_d()),
            ]
        },
        Opcode::Fmul => {
            seq![LoadFprPs0(ins.fpr_a()), LoadFprPs0(ins.fpr_c()), F64Mul, StoreFprPs0(ins.fpr_d())]
        },
        Opcode::Fmuls => {
            seq![
                LoadFprPs0(ins.fpr_a()), LoadFprPs0(ins.fpr_c()), F64Mul, F64RoundToSingle,
                StoreFprPs0(ins.fpr_d()),
            ]
        },
        Opcode::Fmr => {
            seq![LoadFprPs0(ins.fpr_b()), StoreFprPs0(ins.fpr_d())]
        },
        Opcode::Fneg => {
            seq![LoadFprPs0(ins.fpr_b()), F64Neg, StoreFprPs0(ins.fpr_d())]
        },
        Opcode::Fabs => {
            seq![LoadFprPs0(ins.fpr_b()), F64Abs, StoreFprPs0(ins.fpr_d())]
        },
        Opcode::Frsp => {
            seq![LoadFprPs0(ins.fpr_b()), F64RoundToSingle, StoreFprPs0(ins.fpr_d())]
        },
        Opcode::Fsqrt => {
            seq![LoadFprPs0(ins.fpr_b()), F64Sqrt, StoreFprPs0(ins.fpr_d())]
        },
        Opcode::Fsqrts => {
            seq![LoadFprPs0(ins.fpr_b()), F64Sqrt, F64RoundToSingle, StoreFprPs0(ins.fpr_d())]
        },
        Opcode::Fctiw => {
            seq![
                LoadFprPs0(ins.fpr_b()), F64Nearest, I32TruncSatF64S, I64ExtendI32S,
                F64ReinterpretI64, StoreFprPs0(ins.fpr_d()),
            ]
        },
        Opcode::Fctiwz => {
            seq![
                LoadFprPs0(ins.fpr_b()), I32TruncSatF64S, I64ExtendI32S, F64ReinterpretI64,
                StoreFprPs0(ins.fpr_d()),
            ]
        },
        Opcode::Mffs => {
            seq![F64Const(F64_ZERO), StoreFprPs0(ins.fpr_d())]
        },
        Opcode::Fsel => {
            let la = local_at(n + 1, IrTy::F64);
            let cond = local_at(n + 2, IrTy::I32);
            seq![LoadFprPs0(ins.fpr_a()), LocalSet(la), LocalGet(la), F64Const(F64_ZERO), F64Gt]
                + seq![LocalGet(la), F64Const(F64_ZERO), F64Eq, I32Or, LocalSet(cond)]
                + seq![
                    LoadFprPs0(ins.fpr_c()), LoadFprPs0(ins.fpr_b()), LocalGet(cond), F64Select,
                    StoreFprPs0(ins.fpr_d()),
                ]
                + seq![
                    LoadFprPs1(ins.fpr_c()), LoadFprPs1(ins.fpr_b()), LocalGet(cond), F64Select,
                    StoreFprPs1(ins.fpr_d()),
                ]
        },
        _ => seq![],
    }
}

/// Locals for scalar floating-point arithmetic.
pub open spec fn scalar_locals(ins: Ins) -> Seq<IrTy> {
    match ins.op {
        Opcode::Fsel => seq![IrTy::F64, IrTy::I32],
        _ => seq![],
    }
}

/// Code for paired-single arithmetic; `n` locals are already in use.
#[verifier::opaque]
pub open spec fn paired_code(ins: Ins, n: nat) -> Seq<IrInst> {
    match ins.op {
        Opcode::PsAdd => {
            seq![
                LoadFprPs0(ins.fpr_a()), LoadFprPs0(ins.fpr_b()), F64Add, F64RoundToSingle,
                StoreFprPs0(ins.fpr_d()),
            ]
                + seq![
                    LoadFprPs1(ins.fpr_a()), LoadFprPs1(ins.fpr_b()), F64Add, F64RoundToSingle,
                    StoreFprPs1(ins.fpr_d()),
                ]
        },
        Opcode::PsSub => {
            seq![
                LoadFprPs0(ins.fpr_a()), LoadFprPs0(ins.fpr_b()), F64Sub, F64RoundToSingle,
                StoreFprPs0(ins.fpr_d()),
            ]
                + seq![
                    LoadFprPs1(ins.fpr_a()), LoadFprPs1(ins.fpr_b()), F64Sub, F64RoundToSingle,
                    StoreFprPs1(ins.fpr_d()),
                ]
        },
        Opcode::PsDiv => {
            seq![
                LoadFprPs0(ins.fpr_a()), LoadFprPs0(ins.fpr_b()), F64Div, F64RoundToSingle,
                StoreFprPs0(ins.fpr_d()),
            ]
                + seq![
                    LoadFprPs1(ins.fpr_a()), LoadFprPs1(ins.fpr_b()), F64Div, F64RoundToSingle,
                    StoreFprPs1(ins.fpr_d()),
                ]
        },
        Opcode::PsMul => {
            seq![
                LoadFprPs0(ins.fpr_a()), LoadFprPs0(ins.fpr_c()), F64Mul, F64RoundToSingle,
                StoreFprPs0(ins.fpr_d()),
            ]
                + seq![
                    LoadFprPs1(ins.fpr_a()), LoadFprPs1(ins.fpr_c()), F64Mul, F64RoundToSingle,
                    StoreFprPs1(ins.fpr_d()),
                ]
        },
        Opcode::PsMr => {
            seq![
                LoadFprPs0(ins.fpr_b()), StoreFprPs0(ins.fpr_d()), LoadFprPs1(ins.fpr_b()),
                StoreFprPs1(ins.fpr_d()),
            ]
        },
        Opcode::PsNeg => {
            seq![
                LoadFprPs0(ins.fpr_b()), F64Neg, StoreFprPs0(ins.fpr_d()), LoadFprPs1(ins.fpr_b()),
                F64Neg, StoreFprPs1(ins.fpr_d()),
            ]
        },
        Opcode::PsAbs => {
            seq![
                LoadFprPs0(ins.fpr_b()), F64Abs, StoreFprPs0(ins.fpr_d()), LoadFprPs1(ins.fpr_b()),
                F64Abs, StoreFprPs1(ins.fpr_d()),
            ]
        },
        Opcode::PsNabs => {
            seq![
                LoadFprPs0(ins.fpr_b()), F64Abs, F64Neg, StoreFprPs0(ins.fpr_d()),
                LoadFprPs1(ins.fpr_b()), F64Abs, F64Neg, StoreFprPs1(ins.fpr_d()),
            ]
        },
        Opcode::PsMerge00 => {
            seq![
                LoadFprPs0(ins.fpr_a()), StoreFprPs0(ins.fpr_d()), LoadFprPs0(ins.fpr_b()),
                StoreFprPs1(ins.fpr_d()),
            ]
        },
        Opcode::PsMerge01 => {
            seq![
                LoadFprPs0(ins.fpr_a()), StoreFprPs0(ins.fpr_d()), LoadFprPs1(ins.fpr_b()),
                StoreFprPs1(ins.fpr_d()),
            ]
        },
        Opcode::PsMerge10 => {
            seq![
                LoadFprPs1(ins.fpr_a()), StoreFprPs0(ins.fpr_d()), LoadFprPs0(ins.fpr_b()),
                StoreFprPs1(ins.fpr_d()),
            ]
        },
        Opcode::PsMerge11 => {
            seq![
                LoadFprPs1(ins.fpr_a()), StoreFprPs0(ins.fpr_d()), LoadFprPs1(ins.fpr_b()),
                StoreFprPs1(ins.fpr_d()),
            ]
        },
        Opcode::PsSum0 => {
            seq![
                LoadFprPs0(ins.fpr_a()), LoadFprPs1(ins.fpr_b()), F64Add, F64RoundToSingle,
                StoreFprPs0(ins.fpr_d()), LoadFprPs1(ins.fpr_c()), StoreFprPs1(ins.fpr_d()),
            ]
        },
        Opcode::PsSum1 => {
            seq![
                LoadFprPs0(ins.fpr_c()), StoreFprPs0(ins.fpr_d()), LoadFprPs0(ins.fpr_a()),
                LoadFprPs1(ins.fpr_b()), F64Add, F64RoundToSingle, StoreFprPs1(ins.fpr_d()),
            ]
        },
        Opcode::PsMuls0 => {
            let c = local_at(n + 1, IrTy::F64);
            seq![LoadFprPs0(ins.fpr_c()), LocalSet(c)]
                + seq![
                    LoadFprPs0(ins.fpr_a()), LocalGet(c), F64Mul, F64RoundToSingle,
                    StoreFprPs0(ins.fpr_d()),
                ]
                + seq![
                    LoadFprPs1(ins.fpr_a()), LocalGet(c), F64Mul, F64RoundToSingle,
                    StoreFprPs1(ins.fpr_d()),
                ]
        },
        Opcode::PsMadds0 => {
            let c = local_at(n + 1, IrTy::F64);
            seq![LoadFprPs0(ins.fpr_c()), LocalSet(c)]
                + seq![
                    LoadFprPs0(ins.fpr_b()), LoadFprPs0(ins.fpr_a()), LocalGet(c), F64Mul, F64Add,
                    F64RoundToSingle, StoreFprPs0(ins.fpr_d()),
                ]
                + seq![
                    LoadFprPs1(ins.fpr_b()), LoadFprPs1(ins.fpr_a()), LocalGet(c), F64Mul, F64Add,
                    F64RoundToSingle, StoreFprPs1(ins.fpr_d()),
                ]
        },
        Opcode::PsMuls1 => {
            let c = local_at(n + 1, IrTy::F64);
            seq![LoadFprPs1(ins.fpr_c()), LocalSet(c)]
                + seq![
                    LoadFprPs0(ins.fpr_a()), LocalGet(c), F64Mul, F64RoundToSingle,
                    StoreFprPs0(ins.fpr_d()),
                ]
                + seq![
                    LoadFprPs1(ins.fpr_a()), LocalGet(c), F64Mul, F64RoundToSingle,
                    StoreFprPs1(ins.fpr_d()),
                ]
        },
        Opcode::PsMadds1 => {
            let c = local_at(n + 1, IrTy::F64);
            seq![LoadFprPs1(ins.fpr_c()), LocalSet(c)]
                + seq![
                    LoadFprPs0(ins.fpr_b()), LoadFprPs0(ins.fpr_a()), LocalGet(c), F64Mul, F64Add,
                    F64RoundToSingle, StoreFprPs0(ins.fpr_d()),
                ]
                + seq![
                    LoadFprPs1(ins.fpr_b()), LoadFprPs1(ins.fpr_a()), LocalGet(c), F64Mul, F64Add,
                    F64RoundToSingle, StoreFprPs1(ins.fpr_d()),
                ]
        },
        Opcode::PsSel => {
            let la0 = local_at(n + 1, IrTy::F64);
            let la1 = local_at(n + 2, IrTy::F64);
            let c0 = local_at(n + 3, IrTy::I32);
            let c1 = local_at(n + 4, IrTy::I32);
            seq![LoadFprPs0(ins.fpr_a()), LocalSet(la0), LoadFprPs1(ins.fpr_a()), LocalSet(la1)]
                + seq![
                    LocalGet(la0), F64Const(F64_ZERO), F64Gt, LocalGet(la0), F64Const(F64_ZERO),
                    F64Eq, I32Or, LocalSet(c0),
                ]
                + seq![
                    LocalGet(la1), F64Const(F64_ZERO), F64Gt, LocalGet(la1), F64Const(F64_ZERO),
                    F64Eq, I32Or, LocalSet(c1),
                ]
                + seq![
                    LoadFprPs0(ins.fpr_c()), LoadFprPs0(ins.fpr_b()), LocalGet(c0), F64Select,
                    StoreFprPs0(ins.fpr_d()),
                ]
                + seq![
                    LoadFprPs1(ins.fpr_c()), LoadFprPs1(ins.fpr_b()), LocalGet(c1), F64Select,
                    StoreFprPs1(ins.fpr_d()),
                ]
        },
        _ => seq![],
    }
}

/// Locals for paired-single arithmetic.
pub open spec fn paired_locals(ins: Ins) -> Seq<IrTy> {
    match ins.op {
        Opcode::PsMuls0 | Opcode::PsMadds0 | Opcode::PsMuls1 | Opcode::PsMadds1 => seq![IrTy::F64],
        Opcode::PsSel => seq![IrTy::F64, IrTy::F64, IrTy::I32, IrTy::I32],
        _ => seq![],
    }
}

/// Code that rotates the top of the stack left by a constant.
pub open spec fn rotate_code(sh: u8) -> Seq<IrInst> {
    if sh != 0 {
        seq![I32Const(sh as i32), I32Rotl]
    } else {
        seq![]
    }
}

/// Code for rotates and shifts by a constant; `n` locals are already in use.
#[verifier::opaque]
pub open spec fn rotate_family_code(ins: Ins, n: nat) -> Seq<IrInst> {
    let mask = rotate_mask(ins.field_mb() as u32, ins.field_me() as u32);
    match ins.op {
        Opcode::Rlwinm => {
            seq![LoadGpr(ins.gpr_s())] + rotate_code(ins.field_sh())
                + seq![I32Const(mask as i32), I32And]
                + int_result_code(ins.gpr_a(), ins.field_rc(), n)
        },
        Opcode::Rlwimi => {
            let rot = local_at(n + 1, IrTy::I32);
            seq![LoadGpr(ins.gpr_s())] + rotate_code(ins.field_sh())
                + seq![
                    I32Const(mask as i32), I32And, LocalSet(rot),
                    LoadGpr(ins.gpr_a()), I32Const(!mask as i32), I32And, LocalGet(rot), I32Or,
                ]
                + int_result_code(ins.gpr_a(), ins.field_rc(), n + 1)
        },
        Opcode::Rlwnm => {
            seq![LoadGpr(ins.gpr_s()), LoadGpr(ins.gpr_b()), I32Rotl, I32Const(mask as i32), I32And]
                + int_result_code(ins.gpr_a(), ins.field_rc(), n)
        },
        Opcode::Srawi => {
            let sh = ins.field_sh();
            let rs_val = local_at(n + 1, IrTy::I32);
            let result = local_at(n + 2, IrTy::I32);
            let carry = local_at(n + 3, IrTy::I32);
            let is_neg = local_at(n + 4, IrTy::I32);
            let has_lo = local_at(n + 5, IrTy::I32);
            let shifted = seq![
                LoadGpr(ins.gpr_s()), LocalTee(rs_val), I32Const(sh as i32), I32ShrS,
                LocalSet(result),
            ];
            if sh == 0 {
                shifted + seq![I32Const(0), LocalSet(carry)] + carry_code(carry)
                    + seq![LocalGet(result)]
                    + int_result_code(ins.gpr_a(), ins.field_rc(), n + 3)
            } else {
                shifted + seq![
                        LocalGet(rs_val), I32Const(31), I32ShrU, I32Const(1), I32And,
                        LocalSet(is_neg),
                    ] + seq![
                        LocalGet(rs_val), I32Const(((1u32 << sh) - 1) as i32), I32And, I32Eqz,
                        I32Const(1), I32Xor, LocalSet(has_lo),
                    ] + seq![
                        LocalGet(is_neg), LocalGet(has_lo), I32And, LocalSet(carry),
                    ]
                    + carry_code(carry) + seq![LocalGet(result)]
                    + int_result_code(ins.gpr_a(), ins.field_rc(), n + 5)
            }
        },
        _ => seq![],
    }
}

/// Locals for rotates and shifts by a constant.
pub open spec fn rotate_family_locals(ins: Ins) -> Seq<IrTy> {
    match ins.op {
        Opcode::Rlwinm | Opcode::Rlwnm => record_locals(ins.field_rc()),
        Opcode::Rlwimi => seq![IrTy::I32] + record_locals(ins.field_rc()),
        Opcode::Srawi => {
            if ins.field_sh() == 0 {
                seq![IrTy::I32, IrTy::I32, IrTy::I32] + record_locals(ins.field_rc())
            } else {
                seq![IrTy::I32, IrTy::I32, IrTy::I32, IrTy::I32, IrTy::I32]
                    + record_locals(ins.field_rc())
            }
        },
        _ => seq![],
    }
}

/// Code for integer comparisons; `n` locals are already in use.
#[verifier::opaque]
pub open spec fn compare_code(ins: Ins, n: nat) -> Seq<IrInst> {
    let lhs = local_at(n + 1, IrTy::I32);
    let rhs = local_at(n + 2, IrTy::I32);
    let field = ins.field_crfd();
    let left = seq![LoadGpr(ins.gpr_a()), LocalSet(lhs)];
    match ins.op {
        Opcode::Cmp => {
            left + seq![LoadGpr(ins.gpr_b()), LocalSet(rhs)] + compare_signed_code(field, lhs, rhs)
        },
        Opcode::Cmpi => {
            left + seq![I32Const(ins.field_simm() as i32), LocalSet(rhs)]
                + compare_signed_code(field, lhs, rhs)
        },
        Opcode::Cmpl => {
            left + seq![LoadGpr(ins.gpr_b()), LocalSet(rhs)]
                + compare_unsigned_code(field, lhs, rhs)
        },
        Opcode::Cmpli => {
            left + seq![I32Const(ins.field_uimm() as i32), LocalSet(rhs)]
                + compare_unsigned_code(field, lhs, rhs)
        },
        _ => seq![],
    }
}

/// Code that loads registers `rd` to `end - 1` from consecutive words.
pub open spec fn load_multiple_code(rd: u8, ra: u8, d: i32, end: int) -> Seq<IrInst>
    decreases end - rd,
{
    if end <= rd {
        seq![]
    } else {
        load_multiple_code(rd, ra, d, end - 1)
            + ea_d_code(ra, (d + 4 * (end - 1 - rd)) as i32)
            + seq![ReadU32, StoreGpr((end - 1) as u8)]
    }
}

/// Code that stores registers `rs` to `end - 1` to consecutive words.
pub open spec fn store_multiple_code(rs: u8, ra: u8, d: i32, end: int) -> Seq<IrInst>
    decreases end - rs,
{
    if end <= rs {
        seq![]
    } else {
        store_multiple_code(rs, ra, d, end - 1)
            + ea_d_code(ra, (d + 4 * (end - 1 - rs)) as i32)
            + seq![LoadGpr((end - 1) as u8), WriteU32]
    }
}

/// Code that leaves the local `ea` plus a constant on the stack.
pub open spec fn ea_plus_code(ea: IrLocal, offset: int) -> Seq<IrInst> {
    if offset > 0 {
        seq![LocalGet(ea), I32Const(offset as i32), I32Add]
    } else {
        seq![LocalGet(ea)]
    }
}

/// Code that clears `count` words starting at the address in `ea`.
pub open spec fn zero_words_code(ea: IrLocal, count: int) -> Seq<IrInst>
    decreases count,
{
    if count <= 0 {
        seq![]
    } else {
        zero_words_code(ea, count - 1) + ea_plus_code(ea, 4 * (count - 1))
            + seq![I32Const(0), WriteU32]
    }
}

/// Number of bytes that a string load or store moves.
pub open spec fn string_length(ins: Ins) -> int {
    if ins.field_nb() == 0 {
        32
    } else {
        ins.field_nb() as int
    }
}

/// Register that holds byte `i` of a string starting in register `first`.
pub open spec fn string_register(first: u8, i: int) -> u8 {
    ((first + i / 4) % 32) as u8
}

/// Left shift of byte `i` of a string within its register.
pub open spec fn string_shift(i: int) -> i32 {
    (8 * (3 - i % 4)) as i32
}

/// Code that shifts the top of the stack with `shift` unless the amount is 0.
pub open spec fn shifted_code(amount: i32, shift: IrInst) -> Seq<IrInst> {
    if amount > 0 {
        seq![I32Const(amount), shift]
    } else {
        seq![]
    }
}

/// Code that clears `count` registers starting with `rd`.
pub open spec fn clear_registers_code(rd: u8, count: int) -> Seq<IrInst>
    decreases count,
{
    if count <= 0 {
        seq![]
    } else {
        clear_registers_code(rd, count - 1)
            + seq![I32Const(0), StoreGpr(((rd + count - 1) % 32) as u8)]
    }
}

/// Code that ORs the first `count` bytes at `ea` into their registers.
pub open spec fn load_string_code(rd: u8, ea: IrLocal, count: int) -> Seq<IrInst>
    decreases count,
{
    if count <= 0 {
        seq![]
    } else {
        let i = count - 1;
        let reg = string_register(rd, i);
        load_string_code(rd, ea, i) + ea_plus_code(ea, i) + seq![ReadU8]
            + shifted_code(string_shift(i), I32Shl)
            + seq![LoadGpr(reg), I32Or, StoreGpr(reg)]
    }
}

/// Code that stores the first `count` bytes of a string at `ea`.
pub open spec fn store_string_code(rs: u8, ea: IrLocal, count: int) -> Seq<IrInst>
    decreases count,
{
    if count <= 0 {
        seq![]
    } else {
        let i = count - 1;
        store_string_code(rs, ea, i) + ea_plus_code(ea, i)
            + seq![LoadGpr(string_register(rs, i))]
            + shifted_code(string_shift(i), I32ShrU)
            + seq![I32Const(0xFF), I32And, WriteU8]
    }
}

/// Code that leaves register `ra`, or zero for register 0, in the local `ea`.
pub open spec fn base_code(ra: u8, ea: IrLocal) -> Seq<IrInst> {
    if ra == 0 {
        seq![I32Const(0), LocalSet(ea)]
    } else {
        seq![LoadGpr(ra), LocalSet(ea)]
    }
}

/// Code for instructions that move several words or bytes; `n` locals are
/// already in use.
#[verifier::opaque]
pub open spec fn bulk_code(ins: Ins, n: nat) -> Seq<IrInst> {
    let ea = local_at(n + 1, IrTy::I32);
    let d = ins.field_offset() as i32;
    match ins.op {
        Opcode::Lmw => load_multiple_code(ins.gpr_d(), ins.gpr_a(), d, 32),
        Opcode::Stmw => store_multiple_code(ins.gpr_s(), ins.gpr_a(), d, 32),
        Opcode::Dcbz => {
            ea_x_code(ins.gpr_a(), ins.gpr_b()) + seq![I32Const(!31u32 as i32), I32And,
                LocalSet(ea)]
                + zero_words_code(ea, 8)
        },
        Opcode::DcbzL => {
            ea_x_code(ins.gpr_a(), ins.gpr_b()) + seq![I32Const(!127u32 as i32), I32And,
                LocalSet(ea)]
                + zero_words_code(ea, 32)
        },
        Opcode::Lswi => {
            base_code(ins.gpr_a(), ea)
                + clear_registers_code(ins.gpr_d(), (string_length(ins) + 3) / 4)
                + load_string_code(ins.gpr_d(), ea, string_length(ins))
        },
        Opcode::Stswi => {
            base_code(ins.gpr_a(), ea) + store_string_code(ins.gpr_s(), ea, string_length(ins))
        },
        _ => seq![],
    }
}

/// Locals for instructions moving several words or bytes.
pub open spec fn bulk_locals(ins: Ins) -> Seq<IrTy> {
    match ins.op {
        Opcode::Dcbz | Opcode::DcbzL | Opcode::Lswi | Opcode::Stswi => seq![IrTy::I32],
        _ => seq![],
    }
}

/// The load of one half of a floating-point register.
pub open spec fn load_slot(r: u8, ps1: bool) -> IrInst {
    if ps1 {
        LoadFprPs1(r)
    } else {
        LoadFprPs0(r)
    }
}

/// The store of one half of a floating-point register.
pub open spec fn store_slot(r: u8, ps1: bool) -> IrInst {
    if ps1 {
        StoreFprPs1(r)
    } else {
        StoreFprPs0(r)
    }
}

/// How a multiply-add combines its operands.
#[derive(Clone, Copy)]
pub struct FmaKind {
    /// Subtract the addend instead of adding it.
    pub sub: bool,
    /// Negate the result.
    pub neg: bool,
    /// Round the result to single precision.
    pub round: bool,
}

/// Code that leaves `a * c + b`, or a variant of it, on the stack.
pub open spec fn fma_code(ins: Ins, ps1: bool, kind: FmaKind, n: nat) -> Seq<IrInst> {
    let la = local_at(n + 1, IrTy::F64);
    let lc = local_at(n + 2, IrTy::F64);
    let lb = local_at(n + 3, IrTy::F64);
    let a = load_slot(ins.fpr_a(), ps1);
    let b = load_slot(ins.fpr_b(), ps1);
    let c = load_slot(ins.fpr_c(), ps1);
    (if kind.sub || kind.neg {
        seq![
            a, LocalSet(la), b, LocalSet(lb), c, LocalSet(lc),
        ] + seq![
            LocalGet(la), LocalGet(lc), F64Mul, LocalGet(lb),
            if kind.sub { F64Sub } else { F64Add },
        ] + (if kind.neg { seq![F64Neg] } else { seq![] })
    } else {
        seq![b, a, c, F64Mul, F64Add]
    }) + (if kind.round { seq![F64RoundToSingle] } else { seq![] })
}

/// Locals that one multiply-add takes.
pub open spec fn fma_locals(kind: FmaKind) -> Seq<IrTy> {
    if kind.sub || kind.neg {
        seq![IrTy::F64, IrTy::F64, IrTy::F64]
    } else {
        seq![]
    }
}

/// Which multiply-add an opcode is.
pub open spec fn fma_kind(op: Opcode) -> FmaKind {
    match op {
        Opcode::Fmadd => FmaKind { sub: false, neg: false, round: false },
        Opcode::Fmadds | Opcode::PsMadd => FmaKind { sub: false, neg: false, round: true },
        Opcode::Fmsub => FmaKind { sub: true, neg: false, round: false },
        Opcode::Fmsubs | Opcode::PsMsub => FmaKind { sub: true, neg: false, round: true },
        Opcode::Fnmadd => FmaKind { sub: false, neg: true, round: false },
        Opcode::Fnmadds | Opcode::PsNmadd => FmaKind { sub: false, neg: true, round: true },
        Opcode::Fnmsub => FmaKind { sub: true, neg: true, round: false },
        _ => FmaKind { sub: true, neg: true, round: true },
    }
}

/// Code for a scalar multiply-add.
#[verifier::opaque]
pub open spec fn fma_scalar_code(ins: Ins, n: nat) -> Seq<IrInst> {
    fma_code(ins, false, fma_kind(ins.op), n) + seq![StoreFprPs0(ins.fpr_d())]
}

/// Code for a paired multiply-add.
#[verifier::opaque]
pub open spec fn fma_paired_code(ins: Ins, n: nat) -> Seq<IrInst> {
    let kind = fma_kind(ins.op);
    fma_code(ins, false, kind, n) + seq![StoreFprPs0(ins.fpr_d())]
        + fma_code(ins, true, kind, n + fma_locals(kind).len())
        + seq![StoreFprPs1(ins.fpr_d())]
}

/// Code for the reciprocal of one half of a register, or of its square root.
pub open spec fn recip_code(fd: u8, fb: u8, sqrt: bool, ps1: bool, n: nat) -> Seq<IrInst> {
    let loc = local_at(n + 1, IrTy::F64);
    seq![load_slot(fb, ps1)] + (if sqrt { seq![F64Sqrt] } else { seq![] })
        + seq![
            LocalSet(loc), F64Const(F64_ONE), LocalGet(loc), F64Div, store_slot(fd, ps1),
        ]
}

/// Code for reciprocal estimates; `n` locals are already in use.
#[verifier::opaque]
pub open spec fn estimate_code(ins: Ins, n: nat) -> Seq<IrInst> {
    let fd = ins.fpr_d();
    let fb = ins.fpr_b();
    match ins.op {
        Opcode::Fres => recip_code(fd, fb, false, false, n),
        Opcode::Frsqrte => recip_code(fd, fb, true, false, n),
        Opcode::PsRes => {
            recip_code(fd, fb, false, false, n) + recip_code(fd, fb, false, true, n + 1)
        },
        Opcode::PsRsqrte => {
            recip_code(fd, fb, true, false, n) + recip_code(fd, fb, true, true, n + 1)
        },
        _ => seq![],
    }
}

/// Locals for reciprocal estimates.
pub open spec fn estimate_locals(ins: Ins) -> Seq<IrTy> {
    match ins.op {
        Opcode::Fres | Opcode::Frsqrte => seq![IrTy::F64],
        Opcode::PsRes | Opcode::PsRsqrte => seq![IrTy::F64, IrTy::F64],
        _ => seq![],
    }
}

/// Code that ORs the 0 or 1 in `loc` into the word on top of the stack.
pub open spec fn shifted_or_code(loc: IrLocal, position: u32) -> Seq<IrInst> {
    seq![LocalGet(loc), I32Const(position as i32), I32Shl, I32Or]
}

/// Code that compares one half of two floating-point registers. The unordered
/// flag is set when none of the three tests holds.
#[verifier::opaque]
pub open spec fn float_compare_code(ins: Ins, ps1: bool, n: nat) -> Seq<IrInst> {
    let la = local_at(n + 1, IrTy::F64);
    let lb = local_at(n + 2, IrTy::F64);
    let lt = local_at(n + 3, IrTy::I32);
    let gt = local_at(n + 4, IrTy::I32);
    let eq = local_at(n + 5, IrTy::I32);
    let un = local_at(n + 6, IrTy::I32);
    let so = so_position(ins.field_crfd());
    seq![
        load_slot(ins.fpr_a(), ps1), LocalSet(la), load_slot(ins.fpr_b(), ps1), LocalSet(lb),
    ] + seq![
        LocalGet(la), LocalGet(lb), F64Lt, LocalSet(lt),
        LocalGet(la), LocalGet(lb), F64Gt, LocalSet(gt),
    ] + seq![
        LocalGet(la), LocalGet(lb), F64Eq, LocalSet(eq),
    ] + seq![
        LocalGet(lt), LocalGet(gt), I32Or, LocalGet(eq), I32Or, I32Const(1), I32Xor,
        LocalSet(un),
    ] + cleared_field_code(ins.field_crfd())
        + shifted_or_code(lt, (so + 3) as u32) + shifted_or_code(gt, (so + 2) as u32)
        + shifted_or_code(eq, (so + 1) as u32) + shifted_or_code(un, so)
        + seq![StoreCr]
}

/// Locals that a floating-point comparison takes.
pub open spec fn float_compare_locals() -> Seq<IrTy> {
    seq![IrTy::F64, IrTy::F64, IrTy::I32, IrTy::I32, IrTy::I32, IrTy::I32]
}

/// Code that puts condition bit `bit` into the local `loc`.
pub open spec fn get_bit_code(bit: u8, loc: IrLocal) -> Seq<IrInst> {
    seq![LoadCr, I32Const((31 - bit) as i32), I32ShrU, I32Const(1), I32And, LocalSet(loc)]
}

/// Code that sets condition bit `bit` to the 0 or 1 in `val`.
pub open spec fn set_bit_code(bit: u8, val: IrLocal) -> Seq<IrInst> {
    seq![
        LoadCr, I32Const(!(1u32 << ((31 - bit) as u32)) as i32), I32And,
        LocalGet(val), I32Const((31 - bit) as i32), I32Shl, I32Or, StoreCr,
    ]
}

/// Code that combines two condition bits held as 0 or 1.
pub open spec fn bit_operation_code(op: Opcode, la: IrLocal, lb: IrLocal) -> Seq<IrInst> {
    match op {
        Opcode::Crxor => seq![LocalGet(la), LocalGet(lb), I32Xor],
        Opcode::Creqv => seq![LocalGet(la), LocalGet(lb), I32Xor, I32Const(1), I32Xor],
        Opcode::Cror => seq![LocalGet(la), LocalGet(lb), I32Or],
        Opcode::Crorc => seq![LocalGet(lb), I32Const(1), I32Xor, LocalGet(la), I32Or],
        Opcode::Crnor => seq![LocalGet(la), LocalGet(lb), I32Or, I32Const(1), I32Xor],
        Opcode::Crand => seq![LocalGet(la), LocalGet(lb), I32And],
        Opcode::Crandc => seq![LocalGet(lb), I32Const(1), I32Xor, LocalGet(la), I32And],
        _ => seq![LocalGet(la), LocalGet(lb), I32And, I32Const(1), I32Xor],
    }
}

/// Code for operations on single condition bits.
#[verifier::opaque]
pub open spec fn condition_code(ins: Ins, n: nat) -> Seq<IrInst> {
    let la = local_at(n + 1, IrTy::I32);
    let lb = local_at(n + 2, IrTy::I32);
    let lv = local_at(n + 3, IrTy::I32);
    get_bit_code(ins.field_crba(), la) + get_bit_code(ins.field_crbb(), lb)
        + bit_operation_code(ins.op, la, lb) + seq![LocalSet(lv)]
        + set_bit_code(ins.field_crbd(), lv)
}

/// Word mask of the condition fields that `crm` selects, field 0 by its most
/// significant bit; `count` fields are looked at.
pub open spec fn field_mask(crm: u8, count: int) -> u32
    decreases count,
{
    if count <= 0 {
        0
    } else {
        let i = count - 1;
        if (crm as u32 >> ((7 - i) as u32)) & 1 != 0 {
            field_mask(crm, i) | (0xFu32 << ((28 - 4 * i) as u32))
        } else {
            field_mask(crm, i)
        }
    }
}

/// The load of a special-purpose register; one that is not tracked reads as 0.
pub open spec fn spr_load(spr: u16) -> IrInst {
    match spr {
        1u16 => LoadXer,
        8u16 => LoadLr,
        9u16 => LoadCtr,
        22u16 => LoadDec,
        26u16 => LoadSrr0,
        27u16 => LoadSrr1,
        272u16 => LoadSprg(0),
        273u16 => LoadSprg(1),
        274u16 => LoadSprg(2),
        275u16 => LoadSprg(3),
        _ => I32Const(0),
    }
}

/// The store to a special-purpose register; one that is not tracked drops the
/// value.
pub open spec fn spr_store(spr: u16) -> IrInst {
    match spr {
        1u16 => StoreXer,
        8u16 => StoreLr,
        9u16 => StoreCtr,
        22u16 => StoreDec,
        26u16 => StoreSrr0,
        27u16 => StoreSrr1,
        272u16 => StoreSprg(0),
        273u16 => StoreSprg(1),
        274u16 => StoreSprg(2),
        275u16 => StoreSprg(3),
        _ => IrInst::Drop,
    }
}

/// Code for moves between special registers; `n` locals are already in use.
#[verifier::opaque]
pub open spec fn system_code(ins: Ins, n: nat) -> Seq<IrInst> {
    let loc = local_at(n + 1, IrTy::I32);
    match ins.op {
        Opcode::Mfspr => seq![spr_load(ins.field_spr()), StoreGpr(ins.gpr_d())],
        Opcode::Mtspr => seq![LoadGpr(ins.gpr_s()), spr_store(ins.field_spr())],
        Opcode::Mftb => {
            seq![
                if ins.field_tbr() == 268 { LoadTbLo } else { LoadTbHi },
                StoreGpr(ins.gpr_d()),
            ]
        },
        Opcode::Mfcr => seq![LoadCr, StoreGpr(ins.gpr_d())],
        Opcode::Mtcrf => {
            let mask = field_mask(ins.field_crm(), 8);
            seq![
                LoadCr, I32Const(!mask as i32), I32And,
                LoadGpr(ins.gpr_s()), I32Const(mask as i32), I32And, I32Or, StoreCr,
            ]
        },
        Opcode::Mcrf => {
            let dst = so_position(ins.field_crfd());
            seq![
                LoadCr, I32Const(so_position(ins.field_crfs()) as i32), I32ShrU,
                I32Const(0xF), I32And, I32Const(dst as i32), I32Shl, LocalSet(loc),
            ] + seq![
                LoadCr, I32Const(!(0xFu32 << dst) as i32), I32And, LocalGet(loc), I32Or,
                StoreCr,
            ]
        },
        Opcode::Mcrxr => {
            let field = ins.field_crfd();
            seq![
                LoadXer, LocalTee(loc), I32Const(!(7u32 << 29u32) as i32), I32And, StoreXer,
            ] + cleared_field_code(field)
                + seq![LocalGet(loc), I32Const((7u32 << 29u32) as i32), I32And]
                + shifted_code((4 * field) as i32, I32ShrU) + seq![I32Or, StoreCr]
        },
        Opcode::Mfmsr => seq![LoadMsr, StoreGpr(ins.gpr_d())],
        Opcode::Mfsr => seq![I32Const(0), StoreGpr(ins.gpr_d())],
        _ => seq![],
    }
}

/// Locals for moves between special registers.
pub open spec fn system_locals(ins: Ins) -> Seq<IrTy> {
    match ins.op {
        Opcode::Mcrf | Opcode::Mcrxr => seq![IrTy::I32],
        _ => seq![],
    }
}

// Control flow.

/// Address of the instruction after the one at `pc`.
pub open spec fn next_pc(pc: u32) -> u32 {
    (pc + 4) as u32
}

/// `pc` moved by a signed displacement, or the displacement itself if the
/// branch is absolute.
pub open spec fn branch_target(pc: u32, displacement: i32, absolute: bool) -> u32 {
    if absolute {
        displacement as u32
    } else {
        ((pc + displacement) % 0x1_0000_0000) as u32
    }
}

/// Whether a branch with these options leaves the condition register alone.
pub open spec fn ignores_condition(bo: u8) -> bool {
    (bo >> 4u8) & 1 != 0
}

/// Whether a branch with these options leaves the counter alone.
pub open spec fn ignores_counter(bo: u8) -> bool {
    (bo >> 2u8) & 1 != 0
}

/// Code that inverts a 0 or 1 on the stack unless `keep` is set.
pub open spec fn unless_code(keep: bool) -> Seq<IrInst> {
    if keep {
        seq![]
    } else {
        seq![I32Const(1), I32Xor]
    }
}

/// Code that leaves on the stack whether a branch is taken, after counting CTR
/// down unless the options say not to.
pub open spec fn branch_cond_code(bo: u8, bi: u8, n: nat) -> Seq<IrInst> {
    let loc = local_at(n + 1, IrTy::I32);
    seq![I32Const(1)] + (if ignores_counter(bo) {
        seq![]
    } else {
        seq![
            LoadCtr, I32Const(1), I32Sub, LocalTee(loc), StoreCtr, LocalGet(loc), I32Eqz,
        ] + unless_code((bo >> 1u8) & 1 != 0) + seq![I32And]
    }) + (if ignores_condition(bo) {
        seq![]
    } else {
        seq![LoadCr, I32Const((31 - bi) as i32), I32ShrU, I32Const(1), I32And]
            + unless_code((bo >> 3u8) & 1 != 0) + seq![I32And]
    })
}

/// Locals that a branch condition takes.
pub open spec fn branch_cond_locals(bo: u8) -> Seq<IrTy> {
    if ignores_counter(bo) {
        seq![]
    } else {
        seq![IrTy::I32]
    }
}

/// Code that stores the return address if `lk` is set.
pub open spec fn link_code(pc: u32, lk: bool) -> Seq<IrInst> {
    if lk {
        seq![I32Const(next_pc(pc) as i32), StoreLr]
    } else {
        seq![]
    }
}

/// The options under which `bcctr` is translated: the counter is the branch
/// target, so it is never counted down.
pub open spec fn bcctr_options(ins: Ins) -> u8 {
    ins.field_bo() | 4
}

/// Code for branches; `n` locals are already in use.
#[verifier::opaque]
pub open spec fn branch_code(ins: Ins, pc: u32, n: nat) -> Seq<IrInst> {
    let loc = local_at(n + 1, IrTy::I32);
    let bo = ins.field_bo();
    let bi = ins.field_bi();
    let link = link_code(pc, ins.field_lk());
    match ins.op {
        Opcode::B => {
            link + seq![ReturnStatic(branch_target(pc, ins.field_li(), ins.field_aa()))]
        },
        Opcode::Bc => {
            link + branch_cond_code(bo, bi, n) + seq![
                BranchIf {
                    taken: branch_target(pc, ins.field_bd() as i32, ins.field_aa()),
                    fallthrough: next_pc(pc),
                },
            ]
        },
        Opcode::Bclr => {
            seq![LoadLr, LocalSet(loc)] + link + (if ignores_condition(bo) && ignores_counter(
                bo,
            ) {
                seq![LocalGet(loc), ReturnDynamic]
            } else {
                branch_cond_code(bo, bi, n + 1)
                    + seq![BranchRegIf { reg_local: loc, fallthrough: next_pc(pc) }]
            })
        },
        Opcode::Bcctr => {
            seq![LoadCtr, LocalSet(loc)] + link + (if ignores_condition(bo) && ignores_counter(
                bo,
            ) {
                seq![LocalGet(loc), ReturnDynamic]
            } else {
                branch_cond_code(bcctr_options(ins), bi, n + 1)
                    + seq![BranchRegIf { reg_local: loc, fallthrough: next_pc(pc) }]
            })
        },
        _ => seq![],
    }
}

/// Locals for branches.
pub open spec fn branch_locals(ins: Ins) -> Seq<IrTy> {
    let bo = ins.field_bo();
    let always = ignores_condition(bo) && ignores_counter(bo);
    match ins.op {
        Opcode::Bc => branch_cond_locals(bo),
        Opcode::Bclr => {
            seq![IrTy::I32] + (if always { seq![] } else { branch_cond_locals(bo) })
        },
        Opcode::Bcctr => {
            seq![IrTy::I32] + (if always {
                seq![]
            } else {
                branch_cond_locals(bcctr_options(ins))
            })
        },
        _ => seq![],
    }
}

/// Exception vector of a system call.
pub const SYSCALL_VECTOR: i32 = 0x0C00;

/// Code for instructions that end a block without being branches.
#[verifier::opaque]
pub open spec fn leave_code(ins: Ins, pc: u32) -> Seq<IrInst> {
    match ins.op {
        Opcode::Mtmsr => {
            seq![LoadGpr(ins.gpr_s()), StoreMsr, ReturnStatic(next_pc(pc))]
        },
        Opcode::Rfi => {
            seq![
                LoadSrr1, I32Const(SRR1_TO_MSR_MASK as i32), I32And,
                LoadMsr, I32Const(!SRR1_TO_MSR_MASK as i32), I32And, I32Or,
            ] + seq![
                I32Const(!(1u32 << 18u32) as i32), I32And, StoreMsr,
                LoadSrr0, I32Const(!3u32 as i32), I32And, ReturnDynamic,
            ]
        },
        Opcode::Sc => seq![I32Const(pc as i32), StorePC, RaiseException(SYSCALL_VECTOR)],
        _ => seq![ReturnStatic(next_pc(pc))],
    }
}

// The whole translation.

/// The code that one guest instruction becomes; `n` locals are already in use.
pub open spec fn translate(ins: Ins, pc: u32, n: nat) -> Seq<IrInst> {
    match ins.op {
        Opcode::Addi | Opcode::Addis | Opcode::Add | Opcode::Subf | Opcode::Neg | Opcode::Mulli
        | Opcode::Mullw | Opcode::Mulhw | Opcode::Mulhwu | Opcode::Divw | Opcode::Divwu => {
            arithmetic_code(ins, n)
        },
        Opcode::Addic | Opcode::Addic_ | Opcode::Addc | Opcode::Adde | Opcode::Addze
            | Opcode::Addme => {
            carry_add_code(ins, n)
        },
        Opcode::Subfic | Opcode::Subfc | Opcode::Subfe | Opcode::Subfze | Opcode::Subfme => {
            carry_sub_code(ins, n)
        },
        Opcode::And | Opcode::Andc | Opcode::Or | Opcode::Orc | Opcode::Xor | Opcode::Nor
        | Opcode::Nand | Opcode::Eqv | Opcode::Andi_ | Opcode::Andis_ | Opcode::Ori | Opcode::Oris
        | Opcode::Xori | Opcode::Xoris | Opcode::Cntlzw | Opcode::Extsb | Opcode::Extsh => {
            logic_code(ins, n)
        },
        Opcode::Slw | Opcode::Srw | Opcode::Sraw => shift_code(ins, n),
        Opcode::Lwz | Opcode::Lwzu | Opcode::Lwzx | Opcode::Lwzux | Opcode::Lhz | Opcode::Lhzu
        | Opcode::Lhzx | Opcode::Lhzux | Opcode::Lbz | Opcode::Lbzu | Opcode::Lbzx | Opcode::Lbzux
        | Opcode::Lha | Opcode::Lhau | Opcode::Lhax | Opcode::Lhaux | Opcode::Lwbrx | Opcode::Lhbrx
        | Opcode::Lwarx => load_code(ins, n),
        Opcode::Stw | Opcode::Stwu | Opcode::Stwx | Opcode::Stwux | Opcode::Sth | Opcode::Sthu
        | Opcode::Sthx | Opcode::Sthux | Opcode::Stb | Opcode::Stbu | Opcode::Stbx | Opcode::Stbux
        | Opcode::Stwbrx | Opcode::Sthbrx | Opcode::Stwcx_ => store_code(ins, n),
        Opcode::Lfs | Opcode::PsqL | Opcode::Lfsu | Opcode::PsqLu | Opcode::Lfsx | Opcode::PsqLx
        | Opcode::Lfsux | Opcode::Lfd | Opcode::Lfdu | Opcode::Lfdx | Opcode::Lfdux => {
            float_load_code(ins, n)
        },
        Opcode::Stfs | Opcode::PsqSt | Opcode::Stfsu | Opcode::Stfsx | Opcode::PsqStx
        | Opcode::Stfsux | Opcode::PsqStu | Opcode::Stfd | Opcode::Stfdu | Opcode::Stfdx
        | Opcode::Stfdux | Opcode::Stfiwx => float_store_code(ins, n),
        Opcode::Fadd | Opcode::Fadds | Opcode::Fsub | Opcode::Fsubs | Opcode::Fdiv | Opcode::Fdivs
        | Opcode::Fmul | Opcode::Fmuls | Opcode::Fmr | Opcode::Fneg | Opcode::Fabs | Opcode::Frsp
        | Opcode::Fsqrt | Opcode::Fsqrts | Opcode::Fctiw | Opcode::Fctiwz | Opcode::Mffs
        | Opcode::Fsel => scalar_code(ins, n),
        Opcode::PsAdd | Opcode::PsSub | Opcode::PsDiv | Opcode::PsMul | Opcode::PsMr | Opcode::PsNeg
        | Opcode::PsAbs | Opcode::PsNabs | Opcode::PsMerge00 | Opcode::PsMerge01 | Opcode::PsMerge10
        | Opcode::PsMerge11 | Opcode::PsSum0 | Opcode::PsSum1 | Opcode::PsMuls0 | Opcode::PsMadds0
        | Opcode::PsMuls1 | Opcode::PsMadds1 | Opcode::PsSel => paired_code(ins, n),
        Opcode::Rlwinm | Opcode::Rlwimi | Opcode::Rlwnm | Opcode::Srawi => {
            rotate_family_code(ins, n)
        },
        Opcode::Cmp | Opcode::Cmpi | Opcode::Cmpl | Opcode::Cmpli => compare_code(ins, n),
        Opcode::Lmw | Opcode::Stmw | Opcode::Dcbz | Opcode::DcbzL | Opcode::Lswi
        | Opcode::Stswi => bulk_code(ins, n),
        Opcode::Fmadd | Opcode::Fmadds | Opcode::Fmsub | Opcode::Fmsubs | Opcode::Fnmadd
        | Opcode::Fnmadds | Opcode::Fnmsub | Opcode::Fnmsubs => fma_scalar_code(ins, n),
        Opcode::PsMadd | Opcode::PsMsub | Opcode::PsNmadd | Opcode::PsNmsub => {
            fma_paired_code(ins, n)
        },
        Opcode::Fres | Opcode::Frsqrte | Opcode::PsRes | Opcode::PsRsqrte => {
            estimate_code(ins, n)
        },
        Opcode::Fcmpu | Opcode::Fcmpo | Opcode::PsCmpu0 | Opcode::PsCmpo0 => {
            float_compare_code(ins, false, n)
        },
        Opcode::PsCmpu1 | Opcode::PsCmpo1 => float_compare_code(ins, true, n),
        Opcode::Crxor | Opcode::Creqv | Opcode::Cror | Opcode::Crorc | Opcode::Crnor
        | Opcode::Crand | Opcode::Crandc | Opcode::Crnand => condition_code(ins, n),
        Opcode::Mfspr | Opcode::Mtspr | Opcode::Mftb | Opcode::Mfcr | Opcode::Mtcrf
        | Opcode::Mcrf | Opcode::Mcrxr | Opcode::Mfmsr | Opcode::Mfsr => system_code(ins, n),
        Opcode::B | Opcode::Bc | Opcode::Bclr | Opcode::Bcctr => branch_code(ins, pc, n),
        Opcode::Mtmsr | Opcode::Rfi | Opcode::Sc | Opcode::Illegal | Opcode::Other(_) => {
            leave_code(ins, pc)
        },
        // Cache and synchronisation hints, the FPSCR and segment registers.
        _ => seq![],
    }
}

/// The locals that one guest instruction takes.
pub open spec fn locals_of(ins: Ins) -> Seq<IrTy> {
    match ins.op {
        Opcode::Addi | Opcode::Addis | Opcode::Add | Opcode::Subf | Opcode::Neg | Opcode::Mulli
        | Opcode::Mullw | Opcode::Mulhw | Opcode::Mulhwu | Opcode::Divw | Opcode::Divwu => {
            arithmetic_locals(ins)
        },
        Opcode::Addic | Opcode::Addic_ | Opcode::Addc | Opcode::Adde | Opcode::Addze
            | Opcode::Addme => {
            carry_add_locals(ins)
        },
        Opcode::Subfic | Opcode::Subfc | Opcode::Subfe | Opcode::Subfze | Opcode::Subfme => {
            carry_sub_locals(ins)
        },
        Opcode::And | Opcode::Andc | Opcode::Or | Opcode::Orc | Opcode::Xor | Opcode::Nor
        | Opcode::Nand | Opcode::Eqv | Opcode::Andi_ | Opcode::Andis_ | Opcode::Ori | Opcode::Oris
        | Opcode::Xori | Opcode::Xoris | Opcode::Cntlzw | Opcode::Extsb | Opcode::Extsh => {
            logic_locals(ins)
        },
        Opcode::Slw | Opcode::Srw | Opcode::Sraw => shift_locals(ins),
        Opcode::Lwz | Opcode::Lwzu | Opcode::Lwzx | Opcode::Lwzux | Opcode::Lhz | Opcode::Lhzu
        | Opcode::Lhzx | Opcode::Lhzux | Opcode::Lbz | Opcode::Lbzu | Opcode::Lbzx | Opcode::Lbzux
        | Opcode::Lha | Opcode::Lhau | Opcode::Lhax | Opcode::Lhaux | Opcode::Lwbrx | Opcode::Lhbrx
        | Opcode::Lwarx => load_locals(ins),
        Opcode::Stw | Opcode::Stwu | Opcode::Stwx | Opcode::Stwux | Opcode::Sth | Opcode::Sthu
        | Opcode::Sthx | Opcode::Sthux | Opcode::Stb | Opcode::Stbu | Opcode::Stbx | Opcode::Stbux
        | Opcode::Stwbrx | Opcode::Sthbrx | Opcode::Stwcx_ => store_locals(ins),
        Opcode::Lfs | Opcode::PsqL | Opcode::Lfsu | Opcode::PsqLu | Opcode::Lfsx | Opcode::PsqLx
        | Opcode::Lfsux | Opcode::Lfd | Opcode::Lfdu | Opcode::Lfdx | Opcode::Lfdux => {
            float_load_locals(ins)
        },
        Opcode::Stfs | Opcode::PsqSt | Opcode::Stfsu | Opcode::Stfsx | Opcode::PsqStx
        | Opcode::Stfsux | Opcode::PsqStu | Opcode::Stfd | Opcode::Stfdu | Opcode::Stfdx
        | Opcode::Stfdux | Opcode::Stfiwx => float_store_locals(ins),
        Opcode::Fadd | Opcode::Fadds | Opcode::Fsub | Opcode::Fsubs | Opcode::Fdiv | Opcode::Fdivs
        | Opcode::Fmul | Opcode::Fmuls | Opcode::Fmr | Opcode::Fneg | Opcode::Fabs | Opcode::Frsp
        | Opcode::Fsqrt | Opcode::Fsqrts | Opcode::Fctiw | Opcode::Fctiwz | Opcode::Mffs
        | Opcode::Fsel => scalar_locals(ins),
        Opcode::PsAdd | Opcode::PsSub | Opcode::PsDiv | Opcode::PsMul | Opcode::PsMr | Opcode::PsNeg
        | Opcode::PsAbs | Opcode::PsNabs | Opcode::PsMerge00 | Opcode::PsMerge01 | Opcode::PsMerge10
        | Opcode::PsMerge11 | Opcode::PsSum0 | Opcode::PsSum1 | Opcode::PsMuls0 | Opcode::PsMadds0
        | Opcode::PsMuls1 | Opcode::PsMadds1 | Opcode::PsSel => paired_locals(ins),
        Opcode::Rlwinm | Opcode::Rlwimi | Opcode::Rlwnm | Opcode::Srawi => {
            rotate_family_locals(ins)
        },
        Opcode::Cmp | Opcode::Cmpi | Opcode::Cmpl | Opcode::Cmpli => seq![IrTy::I32, IrTy::I32],
        Opcode::Lmw | Opcode::Stmw | Opcode::Dcbz | Opcode::DcbzL | Opcode::Lswi
        | Opcode::Stswi => bulk_locals(ins),
        Opcode::Fmadd | Opcode::Fmadds | Opcode::Fmsub | Opcode::Fmsubs | Opcode::Fnmadd
        | Opcode::Fnmadds | Opcode::Fnmsub | Opcode::Fnmsubs => fma_locals(fma_kind(ins.op)),
        Opcode::PsMadd | Opcode::PsMsub | Opcode::PsNmadd | Opcode::PsNmsub => {
            fma_locals(fma_kind(ins.op)) + fma_locals(fma_kind(ins.op))
        },
        Opcode::Fres | Opcode::Frsqrte | Opcode::PsRes | Opcode::PsRsqrte => {
            estimate_locals(ins)
        },
        Opcode::Fcmpu | Opcode::Fcmpo | Opcode::PsCmpu0 | Opcode::PsCmpo0 | Opcode::PsCmpu1
        | Opcode::PsCmpo1 => float_compare_locals(),
        Opcode::Crxor | Opcode::Creqv | Opcode::Cror | Opcode::Crorc | Opcode::Crnor
        | Opcode::Crand | Opcode::Crandc | Opcode::Crnand => {
            seq![IrTy::I32, IrTy::I32, IrTy::I32]
        },
        Opcode::Mcrf | Opcode::Mcrxr => system_locals(ins),
        Opcode::B | Opcode::Bc | Opcode::Bclr | Opcode::Bcctr => branch_locals(ins),
        _ => seq![],
    }
}

/// Whether a block ends with this operation.
pub open spec fn ends_block(op: Opcode) -> bool {
    match op {
        Opcode::B | Opcode::Bc | Opcode::Bclr | Opcode::Bcctr | Opcode::Mtmsr | Opcode::Rfi
        | Opcode::Sc | Opcode::Illegal | Opcode::Other(_) => true,
        _ => false,
    }
}

/// The report of an operation without a translation.
pub open spec fn labels_of(ins: Ins, pc: u32) -> Seq<Seq<char>> {
    match ins.op {
        Opcode::Illegal => seq!["Illegal"@ + " @ 0x"@ + hex8(pc)],
        Opcode::Other(number) => seq![opcode_name(number) + " @ 0x"@ + hex8(pc)],
        _ => seq![],
    }
}

/// Cycle cost of an operation.
pub open spec fn cycle_cost(op: Opcode) -> u32 {
    match op {
        Opcode::And | Opcode::Andc | Opcode::Andi_ | Opcode::Andis_ | Opcode::Or | Opcode::Orc
        | Opcode::Ori | Opcode::Oris | Opcode::Xor | Opcode::Xori | Opcode::Xoris | Opcode::Eqv
        | Opcode::Nand | Opcode::Nor => 1,
        Opcode::Mfspr | Opcode::Mtspr | Opcode::Mfmsr | Opcode::Mtmsr | Opcode::Mfcr
        | Opcode::Mtcrf | Opcode::Crand | Opcode::Crandc | Opcode::Creqv | Opcode::Crnand
        | Opcode::Crnor | Opcode::Cror | Opcode::Crorc | Opcode::Crxor | Opcode::Mftb => 1,
        Opcode::Mulhw | Opcode::Mulhwu | Opcode::Mullw | Opcode::Mulli => 3,
        Opcode::Divw | Opcode::Divwu => 19,
        Opcode::Lmw | Opcode::Stmw | Opcode::Lswi | Opcode::Stswi => 10,
        _ => 2,
    }
}

/// What a block holds, as plain sequences.
pub struct BlockView {
    pub insts: Seq<IrInst>,
    pub locals: Seq<IrTy>,
    pub labels: Seq<Seq<char>>,
    pub instruction_count: int,
    pub cycles: int,
}

impl IrBlock {
    /// What the block holds, as plain sequences.
    pub open spec fn view(&self) -> BlockView {
        BlockView {
            insts: self.insts@,
            locals: self.local_types@,
            labels: label_views(self.unimplemented_ops@),
            instruction_count: self.instruction_count as int,
            cycles: self.cycles as int,
        }
    }
}

impl BlockView {
    /// The block before any instruction.
    pub open spec fn empty() -> BlockView {
        BlockView {
            insts: seq![],
            locals: seq![],
            labels: seq![],
            instruction_count: 0,
            cycles: 0,
        }
    }

    /// The block with one more guest instruction.
    pub open spec fn with(self, pc: u32, ins: Ins) -> BlockView {
        BlockView {
            insts: self.insts + translate(ins, pc, self.locals.len()),
            locals: self.locals + locals_of(ins),
            labels: self.labels + labels_of(ins, pc),
            instruction_count: self.instruction_count + 1,
            cycles: self.cycles + cycle_cost(ins.op),
        }
    }
}

/// The block that all of `instructions` become, in order.
pub open spec fn translate_all(instructions: Seq<(u32, Ins)>) -> BlockView
    decreases instructions.len(),
{
    if instructions.len() == 0 {
        BlockView::empty()
    } else {
        let last = instructions.last();
        translate_all(instructions.drop_last()).with(last.0, last.1)
    }
}

/// How many of `instructions` belong to the block: all up to and including the
/// first that ends it.
pub open spec fn block_length(instructions: Seq<(u32, Ins)>) -> nat
    decreases instructions.len(),
{
    if instructions.len() == 0 {
        0
    } else if ends_block(instructions[0].1.op) {
        1
    } else {
        1 + block_length(instructions.drop_first())
    }
}

/// The block that decoding `instructions` gives. A block that runs out of
/// instructions continues behind the last one.
pub open spec fn decoded(instructions: Seq<(u32, Ins)>) -> BlockView
    recommends
        instructions.len() > 0,
{
    let taken = instructions.take(block_length(instructions) as int);
    let block = translate_all(taken);
    if ends_block(taken.last().1.op) {
        block
    } else {
        BlockView {
            insts: block.insts.push(ReturnStatic(next_pc(taken.last().0))),
            ..block
        }
    }
}

/// Whether the block that `instructions` begin with can be numbered: its locals and its
/// cycles fit a word, and each of its instructions has an address behind it.
pub open spec fn can_decode(instructions: Seq<(u32, Ins)>) -> bool {
    &&& decoded(instructions).locals.len() < MAX_LOCALS
    &&& decoded(instructions).cycles <= u32::MAX
    &&& forall|i: int|
        0 <= i < block_length(instructions) ==> (#[trigger] instructions[i]).0 <= u32::MAX - 4
}

/// A block has at least the locals, cycles and instructions of its beginning; every
/// instruction takes a cycle.
pub proof fn lemma_beginning(instructions: Seq<(u32, Ins)>, k: nat)
    requires
        k <= instructions.len(),
    ensures
        ({
            let part = translate_all(instructions.take(k as int));
            let whole = translate_all(instructions);
            &&& part.locals.len() <= whole.locals.len()
            &&& part.instruction_count == k
            &&& k <= part.cycles
            &&& part.cycles + (instructions.len() - k) <= whole.cycles
        }),
    decreases instructions.len(),
{
    if k < instructions.len() {
        let init = instructions.drop_last();
        lemma_beginning(init, k);
        assert(init.take(k as int) =~= instructions.take(k as int));
    } else {
        assert(instructions.take(k as int) =~= instructions);
        if k > 0 {
            let init = instructions.drop_last();
            lemma_beginning(init, (k - 1) as nat);
            assert(init.take(k - 1) =~= init);
        }
    }
}

/// No instruction takes more than sixteen locals.
pub proof fn lemma_locals_bound(ins: Ins)
    ensures
        locals_of(ins).len() <= 16,
{
}

/// The first `k` instructions are the block if only the last of them may end
/// it, and it does or nothing follows.
pub proof fn lemma_block_length(instructions: Seq<(u32, Ins)>, k: nat)
    requires
        0 < k <= instructions.len(),
        forall|i: int| 0 <= i < k - 1 ==> !ends_block((#[trigger] instructions[i]).1.op),
        ends_block(instructions[k - 1].1.op) || k == instructions.len(),
    ensures
        block_length(instructions) == k,
    decreases k,
{
    if k > 1 {
        let rest = instructions.drop_first();
        assert(forall|i: int| 0 <= i < rest.len() ==> rest[i] == instructions[i + 1]);
        assert(!ends_block(instructions[0].1.op));
        lemma_block_length(rest, (k - 1) as nat);
    } else if !ends_block(instructions[0].1.op) {
        reveal_with_fuel(block_length, 2);
    }
}

} // verus!
