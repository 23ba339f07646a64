//! PowerPC to IR decoder.

use vstd::prelude::*;

use super::inst::{label_views, local_at, IrBlock, IrInst, IrLocal, IrTy};
use super::inst::IrInst::{
    I32Const, F64Const, LocalSet, LocalGet, LocalTee, LoadGpr, LoadFprPs0, LoadFprPs1, LoadCr,
    LoadLr, LoadCtr, LoadXer, LoadMsr, LoadSrr0, LoadSrr1, LoadSprg, LoadTbLo, LoadTbHi, LoadDec,
    StoreGpr, StoreFprPs0, StoreFprPs1, StoreCr, StoreLr, StoreCtr, StoreXer, StoreMsr, StoreSrr0,
    StoreSrr1, StoreSprg, StoreDec, StorePC, I32Add, I32Sub, I32Mul, I32DivS, I32DivU, I32And,
    I32Or, I32Xor, I32Not, I32Shl, I32ShrU, I32ShrS, I32Rotl, I32Clz, I32Ctz, I32Eq, I32LtS,
    I32LtU, I32GtS, I32GtU, I32Eqz, I32Extend8S, I32Extend16S, F64Add, F64Sub, F64Mul, F64Div,
    F64Neg, F64Abs, F64Sqrt, F64Lt, F64Gt, F64Eq, I32TruncSatF64S, F64RoundToSingle,
    F64PromoteSingleBits, I32DemoteToSingleBits, I32FromF64LowBits, F64ReinterpretI64, F64Nearest,
    F64Select, I32Bswap, I32Bswap16, I64ExtendI32S, I64ExtendI32U, I64Mul, I64ShrS32, I64ShrU32,
    ReadU8, ReadU16, ReadU32, ReadF64, WriteU8, WriteU16, WriteU32, WriteF64, ReturnStatic,
    ReturnDynamic, BranchIf, BranchRegIf, RaiseException,
};
use super::translate::{
    add_const_code, arithmetic_code, arithmetic_locals, at_bit_code, base_code, bit_operation_code,
    block_length, branch_code, branch_cond_code, branch_cond_locals, branch_locals, branch_target,
    bulk_code, bulk_locals, can_decode, carry_add_code, carry_add_locals, carry_code,
    carry_sub_code, carry_sub_locals, clear_registers_code, cleared_field_code, compare_code,
    compare_signed_code, compare_unsigned_code, condition_code, cycle_cost, decoded, ea_d_code,
    ea_plus_code, ea_x_code, ends_block, estimate_code, estimate_locals, field_mask,
    float_compare_code, float_compare_locals, float_load_code, float_load_locals, float_store_code,
    float_store_locals, fma_code, fma_kind, fma_locals, fma_paired_code, fma_scalar_code,
    get_bit_code, hex8, int_result_code, leave_code, lemma_beginning, lemma_block_length, link_code,
    load_code, load_locals, load_multiple_code, load_slot, load_string_code, logic_code,
    logic_locals, next_pc, paired_code, paired_locals, recip_code, record_code, record_locals,
    rotate_code, rotate_family_code, rotate_family_locals, rotate_mask, rotate_mask_complement,
    scalar_code, scalar_locals, set_bit_code, set_field_code, shift_code, shift_locals,
    shifted_code, shifted_or_code, spr_load, spr_store, store_code, store_locals,
    store_multiple_code, store_string_code, system_code, system_locals, translate_all, unless_code,
    zero_words_code, F64_ONE, F64_ZERO, FmaKind, MAX_LOCALS, MINUS_ONE, SYSCALL_VECTOR,
};
use super::typing::block_is_prefix;
use crate::disasm::{name_of_opcode, Ins, Opcode};
use crate::gekko::SRR1_TO_MSR_MASK;

verus! {

/// The rotate mask from bit `mb` to bit `me`, counting from the most
/// significant bit and wrapping around when `mb` exceeds `me`.
pub fn ppc_mask(mb: u32, me: u32) -> (mask: u32)
    requires
        mb <= 32,
        me <= 31,
    ensures
        mask == rotate_mask(mb, me),
    decreases (if mb > me { 1nat } else { 0nat }),
{
    if mb <= me {
        let bits: u32 = me - mb + 1;
        proof {
            assert(mb <= me && me <= 31 && bits == me - mb + 1 ==> (if bits == 32 {
                0xFFFF_FFFFu32
            } else {
                ((1u32 << bits) - 1) as u32
            }) << ((31 - me) as u32) == (0xFFFF_FFFFu32 >> mb) & (0xFFFF_FFFFu32 << (
            (31 - me) as u32))) by (bit_vector);
            assert(0 < bits && bits < 32 ==> (1u32 << bits) >= 1) by (bit_vector);
        }
        let raw: u32 = if bits == 32 { u32::MAX } else { (1u32 << bits) - 1 };
        raw << (31 - me)
    } else if mb == me + 1 {
        proof {
            assert(mb <= 32 && mb == me + 1 ==> (0xFFFF_FFFFu32 >> mb) | (0xFFFF_FFFFu32 << (
            (31 - me) as u32)) == 0xFFFF_FFFFu32) by (bit_vector);
        }
        u32::MAX
    } else {
        proof {
            rotate_mask_complement(mb, me);
        }
        !ppc_mask(me + 1, mb - 1)
    }
}

/// The eight upper-case hexadecimal digits of `value`.
fn upper_hex(value: u32) -> (digits: String)
    ensures
        digits@ == hex8(value),
{
    let mut digits: String = String::new();
    let mut i: u32 = 0;
    while i < 8
        invariant
            i <= 8,
            digits@ =~= hex8(value).take(i as int),
        decreases 8 - i,
    {
        let d: u8 = ((value >> (28 - 4 * i)) % 16) as u8;
        let digit: char = if d < 10 {
            (48 + d) as char
        } else {
            (55 + d) as char
        };
        digits.push(digit);
        i = i + 1;
    }
    assert(hex8(value).take(8) =~= hex8(value));
    digits
}

/// Translates guest instructions into IR blocks.
pub struct Decoder;

impl Decoder {
    /// A decoder. It keeps no state between blocks.
    pub fn new() -> (decoder: Self)
        ensures
            decoder == Decoder,
    {
        Decoder
    }

    fn push_ea_d(&self, b: &mut IrBlock, ra: u8, d: i32)
        ensures
            final(b).extends(*old(b), ea_d_code(ra, d), seq![]),
    {
        if ra == 0 {
            b.push(I32Const(d));
        } else {
            b.push(LoadGpr(ra));
            if d != 0 {
                b.append(vec![I32Const(d), I32Add]);
            }
        }
    }

    fn push_ea_x(&self, b: &mut IrBlock, ra: u8, rb: u8)
        ensures
            final(b).extends(*old(b), ea_x_code(ra, rb), seq![]),
    {
        if ra == 0 {
            b.push(LoadGpr(rb));
        } else {
            b.append(vec![LoadGpr(ra), LoadGpr(rb), I32Add]);
        }
    }

    fn push_add_const(&self, b: &mut IrBlock, ra: u8, imm: i32)
        ensures
            final(b).extends(*old(b), add_const_code(ra, imm), seq![]),
    {
        if ra == 0 {
            b.push(I32Const(imm));
        } else {
            b.append(vec![LoadGpr(ra), I32Const(imm), I32Add]);
        }
    }

    fn push_at_bit(&self, b: &mut IrBlock, position: u32)
        ensures
            final(b).extends(*old(b), at_bit_code(position), seq![]),
    {
        b.append(vec![I32Const(position as i32), I32Shl, I32Or]);
    }

    fn push_cleared_field(&self, b: &mut IrBlock, field: u8)
        requires
            field < 8,
        ensures
            final(b).extends(*old(b), cleared_field_code(field), seq![]),
    {
        let so: u32 = 28 - 4 * (field as u32);
        b.append(vec![LoadCr, I32Const(!(0xFu32 << so) as i32), I32And]);
    }

    fn set_field(
        &self,
        b: &mut IrBlock,
        field: u8,
        lt: Vec<IrInst>,
        gt: Vec<IrInst>,
        eq: Vec<IrInst>,
    )
        requires
            field < 8,
        ensures
            final(b).extends(*old(b), set_field_code(field, lt@, gt@, eq@), seq![]),
    {
        proof {
            reveal(set_field_code);
        }
        let so: u32 = 28 - 4 * (field as u32);
        self.push_cleared_field(b, field);
        b.append(lt);
        self.push_at_bit(b, so + 3);
        b.append(gt);
        self.push_at_bit(b, so + 2);
        b.append(eq);
        self.push_at_bit(b, so + 1);
        b.append(vec![LoadXer, I32Const(31), I32ShrU]);
        self.push_at_bit(b, so);
        b.push(StoreCr);
    }

    fn update_cr_signed(&self, b: &mut IrBlock, field: u8, loc: IrLocal)
        requires
            field < 8,
        ensures
            final(b).extends(*old(b), record_code(field, loc), seq![]),
    {
        self.set_field(
            b,
            field,
            vec![LocalGet(loc), I32Const(0), I32LtS],
            vec![LocalGet(loc), I32Const(0), I32GtS],
            vec![LocalGet(loc), I32Eqz],
        );
    }

    /// Compares two locals directly, which no overflow can distort.
    fn update_cr_compare(&self, b: &mut IrBlock, field: u8, lhs: IrLocal, rhs: IrLocal)
        requires
            field < 8,
        ensures
            final(b).extends(*old(b), compare_signed_code(field, lhs, rhs), seq![]),
    {
        proof {
            reveal(compare_signed_code);
        }
        self.set_field(
            b,
            field,
            vec![LocalGet(lhs), LocalGet(rhs), I32LtS],
            vec![LocalGet(lhs), LocalGet(rhs), I32GtS],
            vec![LocalGet(lhs), LocalGet(rhs), I32Eq],
        );
    }

    fn update_cr_unsigned(&self, b: &mut IrBlock, field: u8, lhs: IrLocal, rhs: IrLocal)
        requires
            field < 8,
        ensures
            final(b).extends(*old(b), compare_unsigned_code(field, lhs, rhs), seq![]),
    {
        proof {
            reveal(compare_unsigned_code);
        }
        self.set_field(
            b,
            field,
            vec![LocalGet(lhs), LocalGet(rhs), I32LtU],
            vec![LocalGet(lhs), LocalGet(rhs), I32GtU],
            vec![LocalGet(lhs), LocalGet(rhs), I32Eq],
        );
    }

    fn update_xer_ca(&self, b: &mut IrBlock, carry: IrLocal)
        ensures
            final(b).extends(*old(b), carry_code(carry), seq![]),
    {
        proof {
            reveal(carry_code);
        }
        b.append(vec![
            LoadXer, I32Const(!(1u32 << 29u32) as i32), I32And,
            LocalGet(carry), I32Const(29), I32Shl, I32Or, StoreXer,
        ]);
    }

    /// Stores the result on the stack and records its sign if `rc` is set.
    fn int_result(&self, b: &mut IrBlock, rd: u8, rc: bool)
        requires
            old(b).local_types@.len() < u32::MAX,
        ensures
            final(b).extends(
                *old(b),
                int_result_code(rd, rc, old(b).local_types@.len()),
                record_locals(rc),
            ),
    {
        proof {
            reveal(int_result_code);
        }
        if rc {
            let loc = b.alloc_local(IrTy::I32);
            b.append(vec![LocalTee(loc), StoreGpr(rd)]);
            self.update_cr_signed(b, 0, loc);
        } else {
            b.push(StoreGpr(rd));
        }
    }

    /// Emits integer arithmetic that leaves the carry alone.
    #[verifier::spinoff_prover]
    #[verifier::rlimit(60)]
    fn emit_arithmetic(&self, b: &mut IrBlock, ins: Ins)
        requires
            old(b).local_types@.len() < MAX_LOCALS,
        ensures
            final(b).extends(
                *old(b),
                arithmetic_code(ins, old(b).local_types@.len()),
                arithmetic_locals(ins),
            ),
    {
        proof {
            reveal(arithmetic_code);
        }
        match ins.op {
            Opcode::Addi => {
                self.push_ea_d(b, ins.gpr_a(), ins.field_simm() as i32);
                b.push(StoreGpr(ins.gpr_d()));
            },
            Opcode::Addis => {
                self.push_add_const(b, ins.gpr_a(), (ins.field_uimm() as i32) << 16);
                b.push(StoreGpr(ins.gpr_d()));
            },
            Opcode::Add => {
                b.append(vec![LoadGpr(ins.gpr_a()), LoadGpr(ins.gpr_b()), I32Add]);
                self.int_result(b, ins.gpr_d(), ins.field_rc());
            },
            Opcode::Subf => {
                b.append(vec![LoadGpr(ins.gpr_b()), LoadGpr(ins.gpr_a()), I32Sub]);
                self.int_result(b, ins.gpr_d(), ins.field_rc());
            },
            Opcode::Neg => {
                b.append(vec![I32Const(0), LoadGpr(ins.gpr_a()), I32Sub]);
                self.int_result(b, ins.gpr_d(), ins.field_rc());
            },
            Opcode::Mulli => {
                b.append(vec![
                    LoadGpr(ins.gpr_a()), I32Const(ins.field_simm() as i32), I32Mul,
                    StoreGpr(ins.gpr_d()),
                ]);
            },
            Opcode::Mullw => {
                b.append(vec![LoadGpr(ins.gpr_a()), LoadGpr(ins.gpr_b()), I32Mul]);
                self.int_result(b, ins.gpr_d(), ins.field_rc());
            },
            Opcode::Mulhw => {
                // High word of the signed product.
                b.append(vec![
                    LoadGpr(ins.gpr_a()), I64ExtendI32S, LoadGpr(ins.gpr_b()), I64ExtendI32S,
                    I64Mul, I64ShrS32,
                ]);
                self.int_result(b, ins.gpr_d(), ins.field_rc());
            },
            Opcode::Mulhwu => {
                // High word of the unsigned product.
                b.append(vec![
                    LoadGpr(ins.gpr_a()), I64ExtendI32U, LoadGpr(ins.gpr_b()), I64ExtendI32U,
                    I64Mul, I64ShrU32,
                ]);
                self.int_result(b, ins.gpr_d(), ins.field_rc());
            },
            Opcode::Divw => {
                // Division by zero and the overflowing quotient both trap on the target:
                // `bad` flags them, and the divisor is then replaced by 1 without a branch.
                let ra_val = b.alloc_local(IrTy::I32);
                let rb_val = b.alloc_local(IrTy::I32);
                let bad = b.alloc_local(IrTy::I32);
                let denom = b.alloc_local(IrTy::I32);
                b.append(vec![
                    LoadGpr(ins.gpr_a()), LocalSet(ra_val), LoadGpr(ins.gpr_b()), LocalSet(rb_val),
                ]);
                b.append(vec![
                    LocalGet(rb_val), I32Eqz, LocalGet(ra_val), I32Const(i32::MIN), I32Eq,
                    LocalGet(rb_val), I32Const(MINUS_ONE), I32Eq, I32And, I32Or, LocalSet(bad),
                ]);
                b.append(vec![
                    I32Const(0), LocalGet(bad), I32Sub, LocalGet(rb_val), I32Const(1), I32Xor,
                    I32And, LocalGet(rb_val), I32Xor, LocalSet(denom),
                ]);
                b.append(vec![LocalGet(ra_val), LocalGet(denom), I32DivS]);
                self.int_result(b, ins.gpr_d(), ins.field_rc());
            },
            Opcode::Divwu => {
                let ra_val = b.alloc_local(IrTy::I32);
                let rb_val = b.alloc_local(IrTy::I32);
                let bad = b.alloc_local(IrTy::I32);
                let denom = b.alloc_local(IrTy::I32);
                b.append(vec![
                    LoadGpr(ins.gpr_a()), LocalSet(ra_val), LoadGpr(ins.gpr_b()), LocalSet(rb_val),
                ]);
                b.append(vec![LocalGet(rb_val), I32Eqz, LocalSet(bad)]);
                b.append(vec![
                    I32Const(0), LocalGet(bad), I32Sub, LocalGet(rb_val), I32Const(1), I32Xor,
                    I32And, LocalGet(rb_val), I32Xor, LocalSet(denom),
                ]);
                b.append(vec![LocalGet(ra_val), LocalGet(denom), I32DivU]);
                self.int_result(b, ins.gpr_d(), ins.field_rc());
            },
            _ => {},
        }
    }

    /// Emits additions that record a carry.
    #[verifier::spinoff_prover]
    #[verifier::rlimit(60)]
    fn emit_carry_add(&self, b: &mut IrBlock, ins: Ins)
        requires
            old(b).local_types@.len() < MAX_LOCALS,
        ensures
            final(b).extends(
                *old(b),
                carry_add_code(ins, old(b).local_types@.len()),
                carry_add_locals(ins),
            ),
    {
        proof {
            reveal(carry_add_code);
        }
        match ins.op {
            Opcode::Addic => {
                // Unsigned overflow shows as a sum below the operand.
                let ra_val = b.alloc_local(IrTy::I32);
                let result = b.alloc_local(IrTy::I32);
                let carry = b.alloc_local(IrTy::I32);
                b.append(vec![
                    LoadGpr(ins.gpr_a()), LocalTee(ra_val), I32Const(ins.field_simm() as i32),
                    I32Add, LocalTee(result), LocalGet(ra_val), I32LtU, LocalSet(carry),
                ]);
                self.update_xer_ca(b, carry);
                b.push(LocalGet(result));
                b.push(StoreGpr(ins.gpr_d()));
            },
            Opcode::Addic_ => {
                let ra_val = b.alloc_local(IrTy::I32);
                let result = b.alloc_local(IrTy::I32);
                let carry = b.alloc_local(IrTy::I32);
                b.append(vec![
                    LoadGpr(ins.gpr_a()), LocalTee(ra_val), I32Const(ins.field_simm() as i32),
                    I32Add, LocalTee(result), LocalGet(ra_val), I32LtU, LocalSet(carry),
                ]);
                self.update_xer_ca(b, carry);
                b.push(LocalGet(result));
                self.int_result(b, ins.gpr_d(), true);
            },
            Opcode::Addc => {
                let ra_val = b.alloc_local(IrTy::I32);
                let result = b.alloc_local(IrTy::I32);
                let carry = b.alloc_local(IrTy::I32);
                b.append(vec![
                    LoadGpr(ins.gpr_a()), LocalTee(ra_val), LoadGpr(ins.gpr_b()), I32Add,
                    LocalTee(result), LocalGet(ra_val), I32LtU, LocalSet(carry),
                ]);
                self.update_xer_ca(b, carry);
                b.push(LocalGet(result));
                self.int_result(b, ins.gpr_d(), ins.field_rc());
            },
            Opcode::Adde => {
                // Two additions, each with its own carry out.
                let ra_val = b.alloc_local(IrTy::I32);
                let sum1 = b.alloc_local(IrTy::I32);
                let c1 = b.alloc_local(IrTy::I32);
                let ca_in = b.alloc_local(IrTy::I32);
                let result = b.alloc_local(IrTy::I32);
                let c2 = b.alloc_local(IrTy::I32);
                let carry = b.alloc_local(IrTy::I32);
                b.append(vec![
                    LoadGpr(ins.gpr_a()), LocalTee(ra_val), LoadGpr(ins.gpr_b()), I32Add,
                    LocalTee(sum1), LocalGet(ra_val), I32LtU, LocalSet(c1),
                ]);
                b.append(vec![
                    LoadXer, I32Const(29), I32ShrU, I32Const(1), I32And, LocalSet(ca_in),
                ]);
                b.append(vec![
                    LocalGet(sum1), LocalGet(ca_in), I32Add, LocalTee(result), LocalGet(sum1),
                    I32LtU, LocalSet(c2), LocalGet(c1), LocalGet(c2), I32Or, LocalSet(carry),
                ]);
                self.update_xer_ca(b, carry);
                b.push(LocalGet(result));
                self.int_result(b, ins.gpr_d(), ins.field_rc());
            },
            Opcode::Addze => {
                let ra_val = b.alloc_local(IrTy::I32);
                let ca_in = b.alloc_local(IrTy::I32);
                let result = b.alloc_local(IrTy::I32);
                let carry = b.alloc_local(IrTy::I32);
                b.append(vec![LoadGpr(ins.gpr_a()), LocalSet(ra_val)]);
                b.append(vec![
                    LoadXer, I32Const(29), I32ShrU, I32Const(1), I32And, LocalSet(ca_in),
                ]);
                b.append(vec![
                    LocalGet(ra_val), LocalGet(ca_in), I32Add, LocalTee(result), LocalGet(ra_val),
                    I32LtU, LocalSet(carry),
                ]);
                self.update_xer_ca(b, carry);
                b.push(LocalGet(result));
                self.int_result(b, ins.gpr_d(), ins.field_rc());
            },
            Opcode::Addme => {
                let ra_val = b.alloc_local(IrTy::I32);
                let sum1 = b.alloc_local(IrTy::I32);
                let c1 = b.alloc_local(IrTy::I32);
                let ca_in = b.alloc_local(IrTy::I32);
                let result = b.alloc_local(IrTy::I32);
                let c2 = b.alloc_local(IrTy::I32);
                let carry = b.alloc_local(IrTy::I32);
                b.append(vec![
                    LoadGpr(ins.gpr_a()), LocalTee(ra_val), I32Const(MINUS_ONE), I32Add,
                    LocalTee(sum1), LocalGet(ra_val), I32LtU, LocalSet(c1),
                ]);
                b.append(vec![
                    LoadXer, I32Const(29), I32ShrU, I32Const(1), I32And, LocalSet(ca_in),
                ]);
                b.append(vec![
                    LocalGet(sum1), LocalGet(ca_in), I32Add, LocalTee(result), LocalGet(sum1),
                    I32LtU, LocalSet(c2), LocalGet(c1), LocalGet(c2), I32Or, LocalSet(carry),
                ]);
                self.update_xer_ca(b, carry);
                b.push(LocalGet(result));
                self.int_result(b, ins.gpr_d(), ins.field_rc());
            },
            _ => {},
        }
    }

    /// Emits subtractions that record a carry.
    #[verifier::spinoff_prover]
    #[verifier::rlimit(60)]
    fn emit_carry_sub(&self, b: &mut IrBlock, ins: Ins)
        requires
            old(b).local_types@.len() < MAX_LOCALS,
        ensures
            final(b).extends(
                *old(b),
                carry_sub_code(ins, old(b).local_types@.len()),
                carry_sub_locals(ins),
            ),
    {
        proof {
            reveal(carry_sub_code);
        }
        match ins.op {
            Opcode::Subfic => {
                // The carry is the absence of a borrow.
                let ra_val = b.alloc_local(IrTy::I32);
                let result = b.alloc_local(IrTy::I32);
                let carry = b.alloc_local(IrTy::I32);
                b.append(vec![
                    LoadGpr(ins.gpr_a()), LocalSet(ra_val), I32Const(ins.field_simm() as i32),
                    LocalGet(ra_val), I32Sub, LocalSet(result),
                ]);
                b.append(vec![
                    LocalGet(ra_val), I32Const(ins.field_simm() as i32), I32GtU, I32Const(1),
                    I32Xor, LocalSet(carry),
                ]);
                self.update_xer_ca(b, carry);
                b.append(vec![LocalGet(result), StoreGpr(ins.gpr_d())]);
            },
            Opcode::Subfc => {
                let ra_val = b.alloc_local(IrTy::I32);
                let rb_val = b.alloc_local(IrTy::I32);
                let carry = b.alloc_local(IrTy::I32);
                b.append(vec![
                    LoadGpr(ins.gpr_a()), LocalSet(ra_val), LoadGpr(ins.gpr_b()), LocalSet(rb_val),
                ]);
                b.append(vec![
                    LocalGet(rb_val), LocalGet(ra_val), I32LtU, I32Const(1), I32Xor,
                    LocalSet(carry),
                ]);
                self.update_xer_ca(b, carry);
                b.append(vec![LocalGet(rb_val), LocalGet(ra_val), I32Sub]);
                self.int_result(b, ins.gpr_d(), ins.field_rc());
            },
            Opcode::Subfe => {
                // rb + !ra + carry
                let ra_val = b.alloc_local(IrTy::I32);
                let rb_val = b.alloc_local(IrTy::I32);
                let not_ra = b.alloc_local(IrTy::I32);
                let sum1 = b.alloc_local(IrTy::I32);
                let c1 = b.alloc_local(IrTy::I32);
                let ca_in = b.alloc_local(IrTy::I32);
                let result = b.alloc_local(IrTy::I32);
                let c2 = b.alloc_local(IrTy::I32);
                let carry = b.alloc_local(IrTy::I32);
                b.append(vec![
                    LoadGpr(ins.gpr_a()), LocalSet(ra_val), LoadGpr(ins.gpr_b()), LocalSet(rb_val),
                ]);
                b.append(vec![LocalGet(ra_val), I32Not, LocalSet(not_ra)]);
                b.append(vec![
                    LocalGet(rb_val), LocalGet(not_ra), I32Add, LocalTee(sum1), LocalGet(rb_val),
                    I32LtU, LocalSet(c1),
                ]);
                b.append(vec![
                    LoadXer, I32Const(29), I32ShrU, I32Const(1), I32And, LocalSet(ca_in),
                ]);
                b.append(vec![
                    LocalGet(sum1), LocalGet(ca_in), I32Add, LocalTee(result), LocalGet(sum1),
                    I32LtU, LocalSet(c2), LocalGet(c1), LocalGet(c2), I32Or, LocalSet(carry),
                ]);
                self.update_xer_ca(b, carry);
                b.push(LocalGet(result));
                self.int_result(b, ins.gpr_d(), ins.field_rc());
            },
            Opcode::Subfze => {
                let not_ra = b.alloc_local(IrTy::I32);
                let ca_in = b.alloc_local(IrTy::I32);
                let result = b.alloc_local(IrTy::I32);
                let carry = b.alloc_local(IrTy::I32);
                b.append(vec![LoadGpr(ins.gpr_a()), I32Not, LocalSet(not_ra)]);
                b.append(vec![
                    LoadXer, I32Const(29), I32ShrU, I32Const(1), I32And, LocalSet(ca_in),
                ]);
                b.append(vec![
                    LocalGet(not_ra), LocalGet(ca_in), I32Add, LocalTee(result), LocalGet(not_ra),
                    I32LtU, LocalSet(carry),
                ]);
                self.update_xer_ca(b, carry);
                b.push(LocalGet(result));
                self.int_result(b, ins.gpr_d(), ins.field_rc());
            },
            Opcode::Subfme => {
                let not_ra = b.alloc_local(IrTy::I32);
                let sum1 = b.alloc_local(IrTy::I32);
                let c1 = b.alloc_local(IrTy::I32);
                let ca_in = b.alloc_local(IrTy::I32);
                let result = b.alloc_local(IrTy::I32);
                let c2 = b.alloc_local(IrTy::I32);
                let carry = b.alloc_local(IrTy::I32);
                b.append(vec![LoadGpr(ins.gpr_a()), I32Not, LocalSet(not_ra)]);
                b.append(vec![
                    LocalGet(not_ra), I32Const(MINUS_ONE), I32Add, LocalTee(sum1),
                    LocalGet(not_ra), I32LtU, LocalSet(c1),
                ]);
                b.append(vec![
                    LoadXer, I32Const(29), I32ShrU, I32Const(1), I32And, LocalSet(ca_in),
                ]);
                b.append(vec![
                    LocalGet(sum1), LocalGet(ca_in), I32Add, LocalTee(result), LocalGet(sum1),
                    I32LtU, LocalSet(c2), LocalGet(c1), LocalGet(c2), I32Or, LocalSet(carry),
                ]);
                self.update_xer_ca(b, carry);
                b.push(LocalGet(result));
                self.int_result(b, ins.gpr_d(), ins.field_rc());
            },
            _ => {},
        }
    }

    /// Emits bitwise logic, counting and sign extension.
    #[verifier::spinoff_prover]
    #[verifier::rlimit(60)]
    fn emit_logic(&self, b: &mut IrBlock, ins: Ins)
        requires
            old(b).local_types@.len() < MAX_LOCALS,
        ensures
            final(b).extends(
                *old(b),
                logic_code(ins, old(b).local_types@.len()),
                logic_locals(ins),
            ),
    {
        proof {
            reveal(logic_code);
        }
        match ins.op {
            Opcode::And => {
                b.append(vec![LoadGpr(ins.gpr_s()), LoadGpr(ins.gpr_b()), I32And]);
                self.int_result(b, ins.gpr_a(), ins.field_rc());
            },
            Opcode::Andc => {
                b.append(vec![LoadGpr(ins.gpr_s()), LoadGpr(ins.gpr_b()), I32Not, I32And]);
                self.int_result(b, ins.gpr_a(), ins.field_rc());
            },
            Opcode::Or => {
                b.append(vec![LoadGpr(ins.gpr_s()), LoadGpr(ins.gpr_b()), I32Or]);
                self.int_result(b, ins.gpr_a(), ins.field_rc());
            },
            Opcode::Orc => {
                b.append(vec![LoadGpr(ins.gpr_s()), LoadGpr(ins.gpr_b()), I32Not, I32Or]);
                self.int_result(b, ins.gpr_a(), ins.field_rc());
            },
            Opcode::Xor => {
                b.append(vec![LoadGpr(ins.gpr_s()), LoadGpr(ins.gpr_b()), I32Xor]);
                self.int_result(b, ins.gpr_a(), ins.field_rc());
            },
            Opcode::Nor => {
                b.append(vec![LoadGpr(ins.gpr_s()), LoadGpr(ins.gpr_b()), I32Or, I32Not]);
                self.int_result(b, ins.gpr_a(), ins.field_rc());
            },
            Opcode::Nand => {
                b.append(vec![LoadGpr(ins.gpr_s()), LoadGpr(ins.gpr_b()), I32And, I32Not]);
                self.int_result(b, ins.gpr_a(), ins.field_rc());
            },
            Opcode::Eqv => {
                b.append(vec![LoadGpr(ins.gpr_s()), LoadGpr(ins.gpr_b()), I32Xor, I32Not]);
                self.int_result(b, ins.gpr_a(), ins.field_rc());
            },
            Opcode::Andi_ => {
                b.append(vec![LoadGpr(ins.gpr_s()), I32Const(ins.field_uimm() as i32), I32And]);
                self.int_result(b, ins.gpr_a(), true);
            },
            Opcode::Andis_ => {
                b.append(vec![
                    LoadGpr(ins.gpr_s()), I32Const((ins.field_uimm() as i32) << 16), I32And,
                ]);
                self.int_result(b, ins.gpr_a(), true);
            },
            Opcode::Ori => {
                b.append(vec![
                    LoadGpr(ins.gpr_s()), I32Const(ins.field_uimm() as i32), I32Or,
                    StoreGpr(ins.gpr_a()),
                ]);
            },
            Opcode::Oris => {
                b.append(vec![
                    LoadGpr(ins.gpr_s()), I32Const((ins.field_uimm() as i32) << 16), I32Or,
                    StoreGpr(ins.gpr_a()),
                ]);
            },
            Opcode::Xori => {
                b.append(vec![
                    LoadGpr(ins.gpr_s()), I32Const(ins.field_uimm() as i32), I32Xor,
                    StoreGpr(ins.gpr_a()),
                ]);
            },
            Opcode::Xoris => {
                b.append(vec![
                    LoadGpr(ins.gpr_s()), I32Const((ins.field_uimm() as i32) << 16), I32Xor,
                    StoreGpr(ins.gpr_a()),
                ]);
            },
            Opcode::Cntlzw => {
                b.append(vec![LoadGpr(ins.gpr_s()), I32Clz, StoreGpr(ins.gpr_a())]);
            },
            Opcode::Extsb => {
                b.append(vec![LoadGpr(ins.gpr_s()), I32Extend8S]);
                self.int_result(b, ins.gpr_a(), ins.field_rc());
            },
            Opcode::Extsh => {
                b.append(vec![LoadGpr(ins.gpr_s()), I32Extend16S]);
                self.int_result(b, ins.gpr_a(), ins.field_rc());
            },
            _ => {},
        }
    }

    /// Emits shifts by a register.
    #[verifier::spinoff_prover]
    #[verifier::rlimit(60)]
    fn emit_shift(&self, b: &mut IrBlock, ins: Ins)
        requires
            old(b).local_types@.len() < MAX_LOCALS,
        ensures
            final(b).extends(
                *old(b),
                shift_code(ins, old(b).local_types@.len()),
                shift_locals(ins),
            ),
    {
        proof {
            reveal(shift_code);
        }
        match ins.op {
            Opcode::Slw => {
                // The amount has six bits and the target uses five: a set sixth bit
                // clears the result.
                let rs_val = b.alloc_local(IrTy::I32);
                let shift_exceeds_31 = b.alloc_local(IrTy::I32);
                b.append(vec![
                    LoadGpr(ins.gpr_s()), LocalSet(rs_val), LoadGpr(ins.gpr_b()), I32Const(5),
                    I32ShrU, I32Const(1), I32And, LocalSet(shift_exceeds_31),
                ]);
                b.append(vec![
                    LocalGet(rs_val), LoadGpr(ins.gpr_b()), I32Shl, I32Const(0),
                    LocalGet(shift_exceeds_31), I32Sub, I32Not, I32And,
                ]);
                self.int_result(b, ins.gpr_a(), ins.field_rc());
            },
            Opcode::Srw => {
                let rs_val = b.alloc_local(IrTy::I32);
                let shift_exceeds_31 = b.alloc_local(IrTy::I32);
                b.append(vec![
                    LoadGpr(ins.gpr_s()), LocalSet(rs_val), LoadGpr(ins.gpr_b()), I32Const(5),
                    I32ShrU, I32Const(1), I32And, LocalSet(shift_exceeds_31),
                ]);
                b.append(vec![
                    LocalGet(rs_val), LoadGpr(ins.gpr_b()), I32ShrU, I32Const(0),
                    LocalGet(shift_exceeds_31), I32Sub, I32Not, I32And,
                ]);
                self.int_result(b, ins.gpr_a(), ins.field_rc());
            },
            Opcode::Sraw => {
                // Amounts from 32 up act as 31. A one bit is shifted out of a negative
                // value exactly when the amount exceeds the trailing zeros.
                let rs_val = b.alloc_local(IrTy::I32);
                let sh = b.alloc_local(IrTy::I32);
                let sh_clamped = b.alloc_local(IrTy::I32);
                let result = b.alloc_local(IrTy::I32);
                let is_neg = b.alloc_local(IrTy::I32);
                let tz = b.alloc_local(IrTy::I32);
                let carry = b.alloc_local(IrTy::I32);
                let overflow = b.alloc_local(IrTy::I32);
                b.append(vec![
                    LoadGpr(ins.gpr_s()), LocalSet(rs_val), LoadGpr(ins.gpr_b()), I32Const(0x3F),
                    I32And, LocalSet(sh),
                ]);
                b.append(vec![
                    LocalGet(sh), I32Const(5), I32ShrU, I32Const(1), I32And, LocalSet(overflow),
                ]);
                b.append(vec![
                    I32Const(0), LocalGet(overflow), I32Sub, LocalGet(sh), I32Const(31), I32Xor,
                    I32And, LocalGet(sh), I32Xor, LocalSet(sh_clamped),
                ]);
                b.append(vec![LocalGet(rs_val), LocalGet(sh_clamped), I32ShrS, LocalSet(result)]);
                b.append(vec![
                    LocalGet(rs_val), I32Const(31), I32ShrU, I32Const(1), I32And, LocalSet(is_neg),
                ]);
                b.append(vec![LocalGet(rs_val), I32Ctz, LocalSet(tz)]);
                b.append(vec![
                    LocalGet(sh), LocalGet(tz), I32GtU, LocalGet(is_neg), I32And, LocalSet(carry),
                ]);
                self.update_xer_ca(b, carry);
                b.push(LocalGet(result));
                self.int_result(b, ins.gpr_a(), ins.field_rc());
            },
            _ => {},
        }
    }

    /// Emits integer loads.
    #[verifier::spinoff_prover]
    #[verifier::rlimit(60)]
    fn emit_load(&self, b: &mut IrBlock, ins: Ins)
        requires
            old(b).local_types@.len() < MAX_LOCALS,
        ensures
            final(b).extends(
                *old(b),
                load_code(ins, old(b).local_types@.len()),
                load_locals(ins),
            ),
    {
        proof {
            reveal(load_code);
        }
        match ins.op {
            Opcode::Lwz => {
                self.push_ea_d(b, ins.gpr_a(), ins.field_offset() as i32);
                b.append(vec![ReadU32, StoreGpr(ins.gpr_d())]);
            },
            Opcode::Lwzu => {
                let ea = b.alloc_local(IrTy::I32);
                b.append(vec![
                    LoadGpr(ins.gpr_a()), I32Const(ins.field_offset() as i32), I32Add,
                    LocalTee(ea), StoreGpr(ins.gpr_a()), LocalGet(ea), ReadU32,
                    StoreGpr(ins.gpr_d()),
                ]);
            },
            Opcode::Lwzx => {
                self.push_ea_x(b, ins.gpr_a(), ins.gpr_b());
                b.append(vec![ReadU32, StoreGpr(ins.gpr_d())]);
            },
            Opcode::Lwzux => {
                let ea = b.alloc_local(IrTy::I32);
                b.append(vec![
                    LoadGpr(ins.gpr_a()), LoadGpr(ins.gpr_b()), I32Add, LocalTee(ea),
                    StoreGpr(ins.gpr_a()), LocalGet(ea), ReadU32, StoreGpr(ins.gpr_d()),
                ]);
            },
            Opcode::Lhz => {
                self.push_ea_d(b, ins.gpr_a(), ins.field_offset() as i32);
                b.append(vec![ReadU16, StoreGpr(ins.gpr_d())]);
            },
            Opcode::Lhzu => {
                let ea = b.alloc_local(IrTy::I32);
                b.append(vec![
                    LoadGpr(ins.gpr_a()), I32Const(ins.field_offset() as i32), I32Add,
                    LocalTee(ea), StoreGpr(ins.gpr_a()), LocalGet(ea), ReadU16,
                    StoreGpr(ins.gpr_d()),
                ]);
            },
            Opcode::Lhzx => {
                self.push_ea_x(b, ins.gpr_a(), ins.gpr_b());
                b.append(vec![ReadU16, StoreGpr(ins.gpr_d())]);
            },
            Opcode::Lhzux => {
                let ea = b.alloc_local(IrTy::I32);
                b.append(vec![
                    LoadGpr(ins.gpr_a()), LoadGpr(ins.gpr_b()), I32Add, LocalTee(ea),
                    StoreGpr(ins.gpr_a()), LocalGet(ea), ReadU16, StoreGpr(ins.gpr_d()),
                ]);
            },
            Opcode::Lbz => {
                self.push_ea_d(b, ins.gpr_a(), ins.field_offset() as i32);
                b.append(vec![ReadU8, StoreGpr(ins.gpr_d())]);
            },
            Opcode::Lbzu => {
                let ea = b.alloc_local(IrTy::I32);
                b.append(vec![
                    LoadGpr(ins.gpr_a()), I32Const(ins.field_offset() as i32), I32Add,
                    LocalTee(ea), StoreGpr(ins.gpr_a()), LocalGet(ea), ReadU8,
                    StoreGpr(ins.gpr_d()),
                ]);
            },
            Opcode::Lbzx => {
                self.push_ea_x(b, ins.gpr_a(), ins.gpr_b());
                b.append(vec![ReadU8, StoreGpr(ins.gpr_d())]);
            },
            Opcode::Lbzux => {
                let ea = b.alloc_local(IrTy::I32);
                b.append(vec![
                    LoadGpr(ins.gpr_a()), LoadGpr(ins.gpr_b()), I32Add, LocalTee(ea),
                    StoreGpr(ins.gpr_a()), LocalGet(ea), ReadU8, StoreGpr(ins.gpr_d()),
                ]);
            },
            Opcode::Lha => {
                self.push_ea_d(b, ins.gpr_a(), ins.field_offset() as i32);
                b.append(vec![ReadU16, I32Extend16S, StoreGpr(ins.gpr_d())]);
            },
            Opcode::Lhau => {
                let ea = b.alloc_local(IrTy::I32);
                b.append(vec![
                    LoadGpr(ins.gpr_a()), I32Const(ins.field_offset() as i32), I32Add,
                    LocalTee(ea), StoreGpr(ins.gpr_a()), LocalGet(ea), ReadU16, I32Extend16S,
                    StoreGpr(ins.gpr_d()),
                ]);
            },
            Opcode::Lhax => {
                self.push_ea_x(b, ins.gpr_a(), ins.gpr_b());
                b.append(vec![ReadU16, I32Extend16S, StoreGpr(ins.gpr_d())]);
            },
            Opcode::Lhaux => {
                let ea = b.alloc_local(IrTy::I32);
                b.append(vec![
                    LoadGpr(ins.gpr_a()), LoadGpr(ins.gpr_b()), I32Add, LocalTee(ea),
                    StoreGpr(ins.gpr_a()), LocalGet(ea), ReadU16, I32Extend16S,
                    StoreGpr(ins.gpr_d()),
                ]);
            },
            Opcode::Lwbrx => {
                self.push_ea_x(b, ins.gpr_a(), ins.gpr_b());
                b.append(vec![ReadU32, I32Bswap, StoreGpr(ins.gpr_d())]);
            },
            Opcode::Lhbrx => {
                self.push_ea_x(b, ins.gpr_a(), ins.gpr_b());
                b.append(vec![ReadU16, I32Bswap16, StoreGpr(ins.gpr_d())]);
            },
            Opcode::Lwarx => {
                // The reservation is not tracked.
                self.push_ea_x(b, ins.gpr_a(), ins.gpr_b());
                b.append(vec![ReadU32, StoreGpr(ins.gpr_d())]);
            },
            _ => {},
        }
    }

    /// Emits integer stores.
    #[verifier::spinoff_prover]
    #[verifier::rlimit(60)]
    fn emit_store(&self, b: &mut IrBlock, ins: Ins)
        requires
            old(b).local_types@.len() < MAX_LOCALS,
        ensures
            final(b).extends(
                *old(b),
                store_code(ins, old(b).local_types@.len()),
                store_locals(ins),
            ),
    {
        proof {
            reveal(store_code);
        }
        match ins.op {
            Opcode::Stw => {
                self.push_ea_d(b, ins.gpr_a(), ins.field_offset() as i32);
                b.append(vec![LoadGpr(ins.gpr_s()), WriteU32]);
            },
            Opcode::Stwu => {
                let ea = b.alloc_local(IrTy::I32);
                b.append(vec![
                    LoadGpr(ins.gpr_a()), I32Const(ins.field_offset() as i32), I32Add,
                    LocalSet(ea), LocalGet(ea), LoadGpr(ins.gpr_s()), WriteU32, LocalGet(ea),
                    StoreGpr(ins.gpr_a()),
                ]);
            },
            Opcode::Stwx => {
                self.push_ea_x(b, ins.gpr_a(), ins.gpr_b());
                b.append(vec![LoadGpr(ins.gpr_s()), WriteU32]);
            },
            Opcode::Stwux => {
                let ea = b.alloc_local(IrTy::I32);
                b.append(vec![
                    LoadGpr(ins.gpr_a()), LoadGpr(ins.gpr_b()), I32Add, LocalSet(ea), LocalGet(ea),
                    LoadGpr(ins.gpr_s()), WriteU32, LocalGet(ea), StoreGpr(ins.gpr_a()),
                ]);
            },
            Opcode::Sth => {
                self.push_ea_d(b, ins.gpr_a(), ins.field_offset() as i32);
                b.append(vec![LoadGpr(ins.gpr_s()), WriteU16]);
            },
            Opcode::Sthu => {
                let ea = b.alloc_local(IrTy::I32);
                b.append(vec![
                    LoadGpr(ins.gpr_a()), I32Const(ins.field_offset() as i32), I32Add,
                    LocalSet(ea), LocalGet(ea), LoadGpr(ins.gpr_s()), WriteU16, LocalGet(ea),
                    StoreGpr(ins.gpr_a()),
                ]);
            },
            Opcode::Sthx => {
                self.push_ea_x(b, ins.gpr_a(), ins.gpr_b());
                b.append(vec![LoadGpr(ins.gpr_s()), WriteU16]);
            },
            Opcode::Sthux => {
                let ea = b.alloc_local(IrTy::I32);
                b.append(vec![
                    LoadGpr(ins.gpr_a()), LoadGpr(ins.gpr_b()), I32Add, LocalSet(ea), LocalGet(ea),
                    LoadGpr(ins.gpr_s()), WriteU16, LocalGet(ea), StoreGpr(ins.gpr_a()),
                ]);
            },
            Opcode::Stb => {
                self.push_ea_d(b, ins.gpr_a(), ins.field_offset() as i32);
                b.append(vec![LoadGpr(ins.gpr_s()), WriteU8]);
            },
            Opcode::Stbu => {
                let ea = b.alloc_local(IrTy::I32);
                b.append(vec![
                    LoadGpr(ins.gpr_a()), I32Const(ins.field_offset() as i32), I32Add,
                    LocalSet(ea), LocalGet(ea), LoadGpr(ins.gpr_s()), WriteU8, LocalGet(ea),
                    StoreGpr(ins.gpr_a()),
                ]);
            },
            Opcode::Stbx => {
                self.push_ea_x(b, ins.gpr_a(), ins.gpr_b());
                b.append(vec![LoadGpr(ins.gpr_s()), WriteU8]);
            },
            Opcode::Stbux => {
                let ea = b.alloc_local(IrTy::I32);
                b.append(vec![
                    LoadGpr(ins.gpr_a()), LoadGpr(ins.gpr_b()), I32Add, LocalSet(ea), LocalGet(ea),
                    LoadGpr(ins.gpr_s()), WriteU8, LocalGet(ea), StoreGpr(ins.gpr_a()),
                ]);
            },
            Opcode::Stwbrx => {
                self.push_ea_x(b, ins.gpr_a(), ins.gpr_b());
                b.append(vec![LoadGpr(ins.gpr_s()), I32Bswap, WriteU32]);
            },
            Opcode::Sthbrx => {
                self.push_ea_x(b, ins.gpr_a(), ins.gpr_b());
                b.append(vec![LoadGpr(ins.gpr_s()), I32Bswap16, WriteU16]);
            },
            Opcode::Stwcx_ => {
                // The reservation always holds: EQ is set, SO comes from XER.
                let so = b.alloc_local(IrTy::I32);
                self.push_ea_x(b, ins.gpr_a(), ins.gpr_b());
                b.append(vec![LoadGpr(ins.gpr_s()), WriteU32]);
                b.append(vec![LoadXer, I32Const(31), I32ShrU, I32Const(1), I32And, LocalSet(so)]);
                b.append(vec![
                    LoadCr, I32Const(!(0xFu32 << 28u32) as i32), I32And, I32Const(1i32 << 29u32),
                    I32Or, LocalGet(so), I32Const(28), I32Shl, I32Or, StoreCr,
                ]);
            },
            _ => {},
        }
    }

    /// Emits floating-point loads.
    #[verifier::spinoff_prover]
    #[verifier::rlimit(60)]
    fn emit_float_load(&self, b: &mut IrBlock, ins: Ins)
        requires
            old(b).local_types@.len() < MAX_LOCALS,
        ensures
            final(b).extends(
                *old(b),
                float_load_code(ins, old(b).local_types@.len()),
                float_load_locals(ins),
            ),
    {
        proof {
            reveal(float_load_code);
        }
        match ins.op {
            Opcode::Lfs | Opcode::PsqL => {
                // Quantized loads are treated as single-precision loads.
                self.push_ea_d(b, ins.gpr_a(), ins.field_offset() as i32);
                b.append(vec![
                    ReadU32, F64PromoteSingleBits, StoreFprPs0(ins.fpr_d()),
                    LoadFprPs0(ins.fpr_d()), StoreFprPs1(ins.fpr_d()),
                ]);
            },
            Opcode::Lfsu | Opcode::PsqLu => {
                let ea = b.alloc_local(IrTy::I32);
                b.append(vec![
                    LoadGpr(ins.gpr_a()), I32Const(ins.field_offset() as i32), I32Add,
                    LocalTee(ea), StoreGpr(ins.gpr_a()), LocalGet(ea),
                ]);
                b.append(vec![
                    ReadU32, F64PromoteSingleBits, StoreFprPs0(ins.fpr_d()),
                    LoadFprPs0(ins.fpr_d()), StoreFprPs1(ins.fpr_d()),
                ]);
            },
            Opcode::Lfsx | Opcode::PsqLx => {
                self.push_ea_x(b, ins.gpr_a(), ins.gpr_b());
                b.append(vec![
                    ReadU32, F64PromoteSingleBits, StoreFprPs0(ins.fpr_d()),
                    LoadFprPs0(ins.fpr_d()), StoreFprPs1(ins.fpr_d()),
                ]);
            },
            Opcode::Lfsux => {
                let ea = b.alloc_local(IrTy::I32);
                b.append(vec![
                    LoadGpr(ins.gpr_a()), LoadGpr(ins.gpr_b()), I32Add, LocalTee(ea),
                    StoreGpr(ins.gpr_a()), LocalGet(ea),
                ]);
                b.append(vec![
                    ReadU32, F64PromoteSingleBits, StoreFprPs0(ins.fpr_d()),
                    LoadFprPs0(ins.fpr_d()), StoreFprPs1(ins.fpr_d()),
                ]);
            },
            Opcode::Lfd => {
                self.push_ea_d(b, ins.gpr_a(), ins.field_offset() as i32);
                b.append(vec![ReadF64, StoreFprPs0(ins.fpr_d())]);
            },
            Opcode::Lfdu => {
                let ea = b.alloc_local(IrTy::I32);
                b.append(vec![
                    LoadGpr(ins.gpr_a()), I32Const(ins.field_offset() as i32), I32Add,
                    LocalTee(ea), StoreGpr(ins.gpr_a()), LocalGet(ea),
                ]);
                b.append(vec![ReadF64, StoreFprPs0(ins.fpr_d())]);
            },
            Opcode::Lfdx => {
                self.push_ea_x(b, ins.gpr_a(), ins.gpr_b());
                b.append(vec![ReadF64, StoreFprPs0(ins.fpr_d())]);
            },
            Opcode::Lfdux => {
                let ea = b.alloc_local(IrTy::I32);
                b.append(vec![
                    LoadGpr(ins.gpr_a()), LoadGpr(ins.gpr_b()), I32Add, LocalTee(ea),
                    StoreGpr(ins.gpr_a()), LocalGet(ea),
                ]);
                b.append(vec![ReadF64, StoreFprPs0(ins.fpr_d())]);
            },
            _ => {},
        }
    }

    /// Emits floating-point stores.
    #[verifier::spinoff_prover]
    #[verifier::rlimit(60)]
    fn emit_float_store(&self, b: &mut IrBlock, ins: Ins)
        requires
            old(b).local_types@.len() < MAX_LOCALS,
        ensures
            final(b).extends(
                *old(b),
                float_store_code(ins, old(b).local_types@.len()),
                float_store_locals(ins),
            ),
    {
        proof {
            reveal(float_store_code);
        }
        match ins.op {
            Opcode::Stfs | Opcode::PsqSt => {
                // Quantized stores are treated as single-precision stores.
                self.push_ea_d(b, ins.gpr_a(), ins.field_offset() as i32);
                b.append(vec![LoadFprPs0(ins.fpr_s()), I32DemoteToSingleBits, WriteU32]);
            },
            Opcode::Stfsu => {
                let ea = b.alloc_local(IrTy::I32);
                b.append(vec![
                    LoadGpr(ins.gpr_a()), I32Const(ins.field_offset() as i32), I32Add,
                    LocalTee(ea), StoreGpr(ins.gpr_a()), LocalGet(ea),
                ]);
                b.append(vec![LoadFprPs0(ins.fpr_s()), I32DemoteToSingleBits, WriteU32]);
            },
            Opcode::Stfsx | Opcode::PsqStx => {
                self.push_ea_x(b, ins.gpr_a(), ins.gpr_b());
                b.append(vec![LoadFprPs0(ins.fpr_s()), I32DemoteToSingleBits, WriteU32]);
            },
            Opcode::Stfsux => {
                let ea = b.alloc_local(IrTy::I32);
                b.append(vec![
                    LoadGpr(ins.gpr_a()), LoadGpr(ins.gpr_b()), I32Add, LocalTee(ea),
                    StoreGpr(ins.gpr_a()), LocalGet(ea),
                ]);
                b.append(vec![LoadFprPs0(ins.fpr_s()), I32DemoteToSingleBits, WriteU32]);
            },
            Opcode::PsqStu => {
                let ea = b.alloc_local(IrTy::I32);
                b.append(vec![
                    LoadGpr(ins.gpr_a()), I32Const(ins.field_offset() as i32), I32Add,
                    LocalTee(ea),
                ]);
                b.append(vec![LoadFprPs0(ins.fpr_s()), I32DemoteToSingleBits, WriteU32]);
                b.append(vec![LocalGet(ea), StoreGpr(ins.gpr_a())]);
            },
            Opcode::Stfd => {
                self.push_ea_d(b, ins.gpr_a(), ins.field_offset() as i32);
                b.append(vec![LoadFprPs0(ins.fpr_s()), WriteF64]);
            },
            Opcode::Stfdu => {
                let ea = b.alloc_local(IrTy::I32);
                b.append(vec![
                    LoadGpr(ins.gpr_a()), I32Const(ins.field_offset() as i32), I32Add,
                    LocalTee(ea), StoreGpr(ins.gpr_a()), LocalGet(ea),
                ]);
                b.append(vec![LoadFprPs0(ins.fpr_s()), WriteF64]);
            },
            Opcode::Stfdx => {
                self.push_ea_x(b, ins.gpr_a(), ins.gpr_b());
                b.append(vec![LoadFprPs0(ins.fpr_s()), WriteF64]);
            },
            Opcode::Stfdux => {
                let ea = b.alloc_local(IrTy::I32);
                b.append(vec![
                    LoadGpr(ins.gpr_a()), LoadGpr(ins.gpr_b()), I32Add, LocalTee(ea),
                    StoreGpr(ins.gpr_a()), LocalGet(ea),
                ]);
                b.append(vec![LoadFprPs0(ins.fpr_s()), WriteF64]);
            },
            Opcode::Stfiwx => {
                self.push_ea_x(b, ins.gpr_a(), ins.gpr_b());
                b.append(vec![LoadFprPs0(ins.fpr_s()), I32FromF64LowBits, WriteU32]);
            },
            _ => {},
        }
    }

    /// Emits scalar floating-point arithmetic.
    #[verifier::spinoff_prover]
    #[verifier::rlimit(60)]
    fn emit_scalar(&self, b: &mut IrBlock, ins: Ins)
        requires
            old(b).local_types@.len() < MAX_LOCALS,
        ensures
            final(b).extends(
                *old(b),
                scalar_code(ins, old(b).local_types@.len()),
                scalar_locals(ins),
            ),
    {
        proof {
            reveal(scalar_code);
        }
        match ins.op {
            Opcode::Fadd => {
                b.append(vec![
                    LoadFprPs0(ins.fpr_a()), LoadFprPs0(ins.fpr_b()), F64Add,
                    StoreFprPs0(ins.fpr_d()),
                ]);
            },
            Opcode::Fadds => {
                b.append(vec![
                    LoadFprPs0(ins.fpr_a()), LoadFprPs0(ins.fpr_b()), F64Add, F64RoundToSingle,
                    StoreFprPs0(ins.fpr_d()),
                ]);
            },
            Opcode::Fsub => {
                b.append(vec![
                    LoadFprPs0(ins.fpr_a()), LoadFprPs0(ins.fpr_b()), F64Sub,
                    StoreFprPs0(ins.fpr_d()),
                ]);
            },
            Opcode::Fsubs => {
                b.append(vec![
                    LoadFprPs0(ins.fpr_a()), LoadFprPs0(ins.fpr_b()), F64Sub, F64RoundToSingle,
                    StoreFprPs0(ins.fpr_d()),
                ]);
            },
            Opcode::Fdiv => {
                b.append(vec![
                    LoadFprPs0(ins.fpr_a()), LoadFprPs0(ins.fpr_b()), F64Div,
                    StoreFprPs0(ins.fpr_d()),
                ]);
            },
            Opcode::Fdivs => {
                b.append(vec![
                    LoadFprPs0(ins.fpr_a()), LoadFprPs0(ins.fpr_b()), F64Div, F64RoundToSingle,
                    StoreFprPs0(ins.fpr_d()),
                ]);
            },
            Opcode::Fmul => {
                b.append(vec![
                    LoadFprPs0(ins.fpr_a()), LoadFprPs0(ins.fpr_c()), F64Mul,
                    StoreFprPs0(ins.fpr_d()),
                ]);
            },
            Opcode::Fmuls => {
                b.append(vec![
                    LoadFprPs0(ins.fpr_a()), LoadFprPs0(ins.fpr_c()), F64Mul, F64RoundToSingle,
                    StoreFprPs0(ins.fpr_d()),
                ]);
            },
            Opcode::Fmr => {
                b.append(vec![LoadFprPs0(ins.fpr_b()), StoreFprPs0(ins.fpr_d())]);
            },
            Opcode::Fneg => {
                b.append(vec![LoadFprPs0(ins.fpr_b()), F64Neg, StoreFprPs0(ins.fpr_d())]);
            },
            Opcode::Fabs => {
                b.append(vec![LoadFprPs0(ins.fpr_b()), F64Abs, StoreFprPs0(ins.fpr_d())]);
            },
            Opcode::Frsp => {
                b.append(vec![LoadFprPs0(ins.fpr_b()), F64RoundToSingle, StoreFprPs0(ins.fpr_d())]);
            },
            Opcode::Fsqrt => {
                b.append(vec![LoadFprPs0(ins.fpr_b()), F64Sqrt, StoreFprPs0(ins.fpr_d())]);
            },
            Opcode::Fsqrts => {
                b.append(vec![
                    LoadFprPs0(ins.fpr_b()), F64Sqrt, F64RoundToSingle, StoreFprPs0(ins.fpr_d()),
                ]);
            },
            Opcode::Fctiw => {
                // The integer is kept as a bit pattern, so that stfiwx can store it.
                b.append(vec![
                    LoadFprPs0(ins.fpr_b()), F64Nearest, I32TruncSatF64S, I64ExtendI32S,
                    F64ReinterpretI64, StoreFprPs0(ins.fpr_d()),
                ]);
            },
            Opcode::Fctiwz => {
                b.append(vec![
                    LoadFprPs0(ins.fpr_b()), I32TruncSatF64S, I64ExtendI32S, F64ReinterpretI64,
                    StoreFprPs0(ins.fpr_d()),
                ]);
            },
            Opcode::Mffs => {
                b.append(vec![F64Const(F64_ZERO), StoreFprPs0(ins.fpr_d())]);
            },
            Opcode::Fsel => {
                // Greater or equal is asked in two parts, so that NaN gives no.
                let la = b.alloc_local(IrTy::F64);
                let cond = b.alloc_local(IrTy::I32);
                b.append(vec![
                    LoadFprPs0(ins.fpr_a()), LocalSet(la), LocalGet(la), F64Const(F64_ZERO), F64Gt,
                    LocalGet(la), F64Const(F64_ZERO), F64Eq, I32Or, LocalSet(cond),
                ]);
                b.append(vec![
                    LoadFprPs0(ins.fpr_c()), LoadFprPs0(ins.fpr_b()), LocalGet(cond), F64Select,
                    StoreFprPs0(ins.fpr_d()),
                ]);
                b.append(vec![
                    LoadFprPs1(ins.fpr_c()), LoadFprPs1(ins.fpr_b()), LocalGet(cond), F64Select,
                    StoreFprPs1(ins.fpr_d()),
                ]);
            },
            _ => {},
        }
    }

    /// Emits paired-single arithmetic.
    #[verifier::spinoff_prover]
    #[verifier::rlimit(60)]
    fn emit_paired(&self, b: &mut IrBlock, ins: Ins)
        requires
            old(b).local_types@.len() < MAX_LOCALS,
        ensures
            final(b).extends(
                *old(b),
                paired_code(ins, old(b).local_types@.len()),
                paired_locals(ins),
            ),
    {
        proof {
            reveal(paired_code);
        }
        match ins.op {
            Opcode::PsAdd => {
                b.append(vec![
                    LoadFprPs0(ins.fpr_a()), LoadFprPs0(ins.fpr_b()), F64Add, F64RoundToSingle,
                    StoreFprPs0(ins.fpr_d()), LoadFprPs1(ins.fpr_a()), LoadFprPs1(ins.fpr_b()),
                    F64Add, F64RoundToSingle, StoreFprPs1(ins.fpr_d()),
                ]);
            },
            Opcode::PsSub => {
                b.append(vec![
                    LoadFprPs0(ins.fpr_a()), LoadFprPs0(ins.fpr_b()), F64Sub, F64RoundToSingle,
                    StoreFprPs0(ins.fpr_d()), LoadFprPs1(ins.fpr_a()), LoadFprPs1(ins.fpr_b()),
                    F64Sub, F64RoundToSingle, StoreFprPs1(ins.fpr_d()),
                ]);
            },
            Opcode::PsDiv => {
                b.append(vec![
                    LoadFprPs0(ins.fpr_a()), LoadFprPs0(ins.fpr_b()), F64Div, F64RoundToSingle,
                    StoreFprPs0(ins.fpr_d()), LoadFprPs1(ins.fpr_a()), LoadFprPs1(ins.fpr_b()),
                    F64Div, F64RoundToSingle, StoreFprPs1(ins.fpr_d()),
                ]);
            },
            Opcode::PsMul => {
                b.append(vec![
                    LoadFprPs0(ins.fpr_a()), LoadFprPs0(ins.fpr_c()), F64Mul, F64RoundToSingle,
                    StoreFprPs0(ins.fpr_d()), LoadFprPs1(ins.fpr_a()), LoadFprPs1(ins.fpr_c()),
                    F64Mul, F64RoundToSingle, StoreFprPs1(ins.fpr_d()),
                ]);
            },
            Opcode::PsMr => {
                b.append(vec![
                    LoadFprPs0(ins.fpr_b()), StoreFprPs0(ins.fpr_d()), LoadFprPs1(ins.fpr_b()),
                    StoreFprPs1(ins.fpr_d()),
                ]);
            },
            Opcode::PsNeg => {
                b.append(vec![
                    LoadFprPs0(ins.fpr_b()), F64Neg, StoreFprPs0(ins.fpr_d()),
                    LoadFprPs1(ins.fpr_b()), F64Neg, StoreFprPs1(ins.fpr_d()),
                ]);
            },
            Opcode::PsAbs => {
                b.append(vec![
                    LoadFprPs0(ins.fpr_b()), F64Abs, StoreFprPs0(ins.fpr_d()),
                    LoadFprPs1(ins.fpr_b()), F64Abs, StoreFprPs1(ins.fpr_d()),
                ]);
            },
            Opcode::PsNabs => {
                b.append(vec![
                    LoadFprPs0(ins.fpr_b()), F64Abs, F64Neg, StoreFprPs0(ins.fpr_d()),
                    LoadFprPs1(ins.fpr_b()), F64Abs, F64Neg, StoreFprPs1(ins.fpr_d()),
                ]);
            },
            Opcode::PsMerge00 => {
                b.append(vec![
                    LoadFprPs0(ins.fpr_a()), StoreFprPs0(ins.fpr_d()), LoadFprPs0(ins.fpr_b()),
                    StoreFprPs1(ins.fpr_d()),
                ]);
            },
            Opcode::PsMerge01 => {
                b.append(vec![
                    LoadFprPs0(ins.fpr_a()), StoreFprPs0(ins.fpr_d()), LoadFprPs1(ins.fpr_b()),
                    StoreFprPs1(ins.fpr_d()),
                ]);
            },
            Opcode::PsMerge10 => {
                b.append(vec![
                    LoadFprPs1(ins.fpr_a()), StoreFprPs0(ins.fpr_d()), LoadFprPs0(ins.fpr_b()),
                    StoreFprPs1(ins.fpr_d()),
                ]);
            },
            Opcode::PsMerge11 => {
                b.append(vec![
                    LoadFprPs1(ins.fpr_a()), StoreFprPs0(ins.fpr_d()), LoadFprPs1(ins.fpr_b()),
                    StoreFprPs1(ins.fpr_d()),
                ]);
            },
            Opcode::PsSum0 => {
                b.append(vec![
                    LoadFprPs0(ins.fpr_a()), LoadFprPs1(ins.fpr_b()), F64Add, F64RoundToSingle,
                    StoreFprPs0(ins.fpr_d()), LoadFprPs1(ins.fpr_c()), StoreFprPs1(ins.fpr_d()),
                ]);
            },
            Opcode::PsSum1 => {
                b.append(vec![
                    LoadFprPs0(ins.fpr_c()), StoreFprPs0(ins.fpr_d()), LoadFprPs0(ins.fpr_a()),
                    LoadFprPs1(ins.fpr_b()), F64Add, F64RoundToSingle, StoreFprPs1(ins.fpr_d()),
                ]);
            },
            Opcode::PsMuls0 => {
                let c = b.alloc_local(IrTy::F64);
                b.append(vec![LoadFprPs0(ins.fpr_c()), LocalSet(c)]);
                b.append(vec![
                    LoadFprPs0(ins.fpr_a()), LocalGet(c), F64Mul, F64RoundToSingle,
                    StoreFprPs0(ins.fpr_d()),
                ]);
                b.append(vec![
                    LoadFprPs1(ins.fpr_a()), LocalGet(c), F64Mul, F64RoundToSingle,
                    StoreFprPs1(ins.fpr_d()),
                ]);
            },
            Opcode::PsMadds0 => {
                let c = b.alloc_local(IrTy::F64);
                b.append(vec![LoadFprPs0(ins.fpr_c()), LocalSet(c)]);
                b.append(vec![
                    LoadFprPs0(ins.fpr_b()), LoadFprPs0(ins.fpr_a()), LocalGet(c), F64Mul, F64Add,
                    F64RoundToSingle, StoreFprPs0(ins.fpr_d()),
                ]);
                b.append(vec![
                    LoadFprPs1(ins.fpr_b()), LoadFprPs1(ins.fpr_a()), LocalGet(c), F64Mul, F64Add,
                    F64RoundToSingle, StoreFprPs1(ins.fpr_d()),
                ]);
            },
            Opcode::PsMuls1 => {
                let c = b.alloc_local(IrTy::F64);
                b.append(vec![LoadFprPs1(ins.fpr_c()), LocalSet(c)]);
                b.append(vec![
                    LoadFprPs0(ins.fpr_a()), LocalGet(c), F64Mul, F64RoundToSingle,
                    StoreFprPs0(ins.fpr_d()),
                ]);
                b.append(vec![
                    LoadFprPs1(ins.fpr_a()), LocalGet(c), F64Mul, F64RoundToSingle,
                    StoreFprPs1(ins.fpr_d()),
                ]);
            },
            Opcode::PsMadds1 => {
                let c = b.alloc_local(IrTy::F64);
                b.append(vec![LoadFprPs1(ins.fpr_c()), LocalSet(c)]);
                b.append(vec![
                    LoadFprPs0(ins.fpr_b()), LoadFprPs0(ins.fpr_a()), LocalGet(c), F64Mul, F64Add,
                    F64RoundToSingle, StoreFprPs0(ins.fpr_d()),
                ]);
                b.append(vec![
                    LoadFprPs1(ins.fpr_b()), LoadFprPs1(ins.fpr_a()), LocalGet(c), F64Mul, F64Add,
                    F64RoundToSingle, StoreFprPs1(ins.fpr_d()),
                ]);
            },
            Opcode::PsSel => {
                let la0 = b.alloc_local(IrTy::F64);
                let la1 = b.alloc_local(IrTy::F64);
                let c0 = b.alloc_local(IrTy::I32);
                let c1 = b.alloc_local(IrTy::I32);
                b.append(vec![
                    LoadFprPs0(ins.fpr_a()), LocalSet(la0), LoadFprPs1(ins.fpr_a()), LocalSet(la1),
                ]);
                b.append(vec![
                    LocalGet(la0), F64Const(F64_ZERO), F64Gt, LocalGet(la0), F64Const(F64_ZERO),
                    F64Eq, I32Or, LocalSet(c0),
                ]);
                b.append(vec![
                    LocalGet(la1), F64Const(F64_ZERO), F64Gt, LocalGet(la1), F64Const(F64_ZERO),
                    F64Eq, I32Or, LocalSet(c1),
                ]);
                b.append(vec![
                    LoadFprPs0(ins.fpr_c()), LoadFprPs0(ins.fpr_b()), LocalGet(c0), F64Select,
                    StoreFprPs0(ins.fpr_d()),
                ]);
                b.append(vec![
                    LoadFprPs1(ins.fpr_c()), LoadFprPs1(ins.fpr_b()), LocalGet(c1), F64Select,
                    StoreFprPs1(ins.fpr_d()),
                ]);
            },
            _ => {},
        }
    }

    /// Rotates the top of the stack left by a constant.
    fn push_rotate(&self, b: &mut IrBlock, sh: u8)
        ensures
            final(b).extends(*old(b), rotate_code(sh), seq![]),
    {
        if sh != 0 {
            b.append(vec![I32Const(sh as i32), I32Rotl]);
        }
    }

    /// Emits rotates and shifts by a constant.
    #[verifier::spinoff_prover]
    #[verifier::rlimit(60)]
    fn emit_rotate_family(&self, b: &mut IrBlock, ins: Ins)
        requires
            old(b).local_types@.len() < MAX_LOCALS,
        ensures
            final(b).extends(
                *old(b),
                rotate_family_code(ins, old(b).local_types@.len()),
                rotate_family_locals(ins),
            ),
    {
        proof {
            reveal(rotate_family_code);
        }
        proof {
            ins.lemma_register_fields();
        }
        let mask: u32 = ppc_mask(ins.field_mb() as u32, ins.field_me() as u32);
        match ins.op {
            Opcode::Rlwinm => {
                b.push(LoadGpr(ins.gpr_s()));
                self.push_rotate(b, ins.field_sh());
                b.append(vec![I32Const(mask as i32), I32And]);
                self.int_result(b, ins.gpr_a(), ins.field_rc());
            },
            Opcode::Rlwimi => {
                let rot = b.alloc_local(IrTy::I32);
                b.push(LoadGpr(ins.gpr_s()));
                self.push_rotate(b, ins.field_sh());
                b.append(vec![
                    I32Const(mask as i32), I32And, LocalSet(rot),
                    LoadGpr(ins.gpr_a()), I32Const(!mask as i32), I32And, LocalGet(rot), I32Or,
                ]);
                self.int_result(b, ins.gpr_a(), ins.field_rc());
            },
            Opcode::Rlwnm => {
                b.append(vec![
                    LoadGpr(ins.gpr_s()), LoadGpr(ins.gpr_b()), I32Rotl, I32Const(mask as i32),
                        I32And,
                ]);
                self.int_result(b, ins.gpr_a(), ins.field_rc());
            },
            Opcode::Srawi => {
                let sh: u8 = ins.field_sh();
                let rs_val = b.alloc_local(IrTy::I32);
                let result = b.alloc_local(IrTy::I32);
                let carry = b.alloc_local(IrTy::I32);
                b.append(vec![
                    LoadGpr(ins.gpr_s()), LocalTee(rs_val), I32Const(sh as i32), I32ShrS,
                    LocalSet(result),
                ]);
                if sh == 0 {
                    b.append(vec![I32Const(0), LocalSet(carry)]);
                } else {
                    // Carry: the value is negative and a one bit is shifted out.
                    assert(sh < 32 ==> (1u32 << sh) >= 1) by (bit_vector);
                    let low_mask: i32 = ((1u32 << sh) - 1) as i32;
                    let is_neg = b.alloc_local(IrTy::I32);
                    let has_lo = b.alloc_local(IrTy::I32);
                    b.append(vec![
                        LocalGet(rs_val), I32Const(31), I32ShrU, I32Const(1), I32And,
                        LocalSet(is_neg),
                        LocalGet(rs_val), I32Const(low_mask), I32And, I32Eqz,
                        I32Const(1), I32Xor, LocalSet(has_lo),
                        LocalGet(is_neg), LocalGet(has_lo), I32And, LocalSet(carry),
                    ]);
                }
                self.update_xer_ca(b, carry);
                b.push(LocalGet(result));
                self.int_result(b, ins.gpr_a(), ins.field_rc());
            },
            _ => {},
        }
    }

    /// Emits integer comparisons.
    #[verifier::spinoff_prover]
    #[verifier::rlimit(60)]
    fn emit_compare(&self, b: &mut IrBlock, ins: Ins)
        requires
            old(b).local_types@.len() < MAX_LOCALS,
            ins.op is Cmp || ins.op is Cmpi || ins.op is Cmpl || ins.op is Cmpli,
        ensures
            final(b).extends(
                *old(b),
                compare_code(ins, old(b).local_types@.len()),
                seq![IrTy::I32, IrTy::I32],
            ),
    {
        proof {
            reveal(compare_code);
        }
        proof {
            ins.lemma_register_fields();
        }
        let field: u8 = ins.field_crfd();
        let lhs = b.alloc_local(IrTy::I32);
        let rhs = b.alloc_local(IrTy::I32);
        b.append(vec![LoadGpr(ins.gpr_a()), LocalSet(lhs)]);
        match ins.op {
            Opcode::Cmp => {
                b.append(vec![LoadGpr(ins.gpr_b()), LocalSet(rhs)]);
                self.update_cr_compare(b, field, lhs, rhs);
            },
            Opcode::Cmpi => {
                b.append(vec![I32Const(ins.field_simm() as i32), LocalSet(rhs)]);
                self.update_cr_compare(b, field, lhs, rhs);
            },
            Opcode::Cmpl => {
                b.append(vec![LoadGpr(ins.gpr_b()), LocalSet(rhs)]);
                self.update_cr_unsigned(b, field, lhs, rhs);
            },
            _ => {
                b.append(vec![I32Const(ins.field_uimm() as i32), LocalSet(rhs)]);
                self.update_cr_unsigned(b, field, lhs, rhs);
            },
        }
    }

    fn push_ea_plus(&self, b: &mut IrBlock, ea: IrLocal, offset: i32)
        requires
            0 <= offset,
        ensures
            final(b).extends(*old(b), ea_plus_code(ea, offset as int), seq![]),
    {
        b.push(LocalGet(ea));
        if offset > 0 {
            b.append(vec![I32Const(offset), I32Add]);
        }
    }

    fn load_multiple(&self, b: &mut IrBlock, rd: u8, ra: u8, d: i32)
        requires
            rd < 32,
            -0x8000 <= d < 0x8000,
        ensures
            final(b).extends(*old(b), load_multiple_code(rd, ra, d, 32), seq![]),
    {
        let mut i: u8 = rd;
        while i < 32
            invariant
                rd <= i <= 32,
                -0x8000 <= d < 0x8000,
                b.extends(*old(b), load_multiple_code(rd, ra, d, i as int), seq![]),
            decreases 32 - i,
        {
            self.push_ea_d(b, ra, d + 4 * (i - rd) as i32);
            b.append(vec![ReadU32, StoreGpr(i)]);
            i = i + 1;
        }
    }

    fn store_multiple(&self, b: &mut IrBlock, rs: u8, ra: u8, d: i32)
        requires
            rs < 32,
            -0x8000 <= d < 0x8000,
        ensures
            final(b).extends(*old(b), store_multiple_code(rs, ra, d, 32), seq![]),
    {
        let mut i: u8 = rs;
        while i < 32
            invariant
                rs <= i <= 32,
                -0x8000 <= d < 0x8000,
                b.extends(*old(b), store_multiple_code(rs, ra, d, i as int), seq![]),
            decreases 32 - i,
        {
            self.push_ea_d(b, ra, d + 4 * (i - rs) as i32);
            b.append(vec![LoadGpr(i), WriteU32]);
            i = i + 1;
        }
    }

    fn zero_words(&self, b: &mut IrBlock, ea: IrLocal, count: i32)
        requires
            0 <= count <= 32,
        ensures
            final(b).extends(*old(b), zero_words_code(ea, count as int), seq![]),
    {
        let mut i: i32 = 0;
        while i < count
            invariant
                0 <= i <= count <= 32,
                b.extends(*old(b), zero_words_code(ea, i as int), seq![]),
            decreases count - i,
        {
            self.push_ea_plus(b, ea, i * 4);
            b.append(vec![I32Const(0), WriteU32]);
            i = i + 1;
        }
    }

    fn push_base(&self, b: &mut IrBlock, ra: u8, ea: IrLocal)
        ensures
            final(b).extends(*old(b), base_code(ra, ea), seq![]),
    {
        if ra == 0 {
            b.push(I32Const(0));
        } else {
            b.push(LoadGpr(ra));
        }
        b.push(LocalSet(ea));
    }

    fn push_shifted(&self, b: &mut IrBlock, amount: i32, shift: IrInst)
        ensures
            final(b).extends(*old(b), shifted_code(amount, shift), seq![]),
    {
        if amount > 0 {
            b.append(vec![I32Const(amount), shift]);
        }
    }

    fn load_string(&self, b: &mut IrBlock, rd: u8, ea: IrLocal, count: u8)
        requires
            rd < 32,
            count <= 32,
        ensures
            final(b).extends(
                *old(b),
                clear_registers_code(rd, (count + 3) / 4) + load_string_code(rd, ea, count as int),
                seq![],
            ),
    {
        let num_regs: u8 = (count + 3) / 4;
        let mut r: u8 = 0;
        while r < num_regs
            invariant
                rd < 32,
                r <= num_regs <= 8,
                b.extends(*old(b), clear_registers_code(rd, r as int), seq![]),
            decreases num_regs - r,
        {
            b.append(vec![I32Const(0), StoreGpr((rd + r) % 32)]);
            r = r + 1;
        }
        let ghost cleared = clear_registers_code(rd, num_regs as int);
        let mut i: u8 = 0;
        assert(cleared + load_string_code(rd, ea, 0) =~= cleared);
        while i < count
            invariant
                rd < 32,
                i <= count <= 32,
                b.extends(*old(b), cleared + load_string_code(rd, ea, i as int), seq![]),
            decreases count - i,
        {
            let reg: u8 = (rd + i / 4) % 32;
            let shift: i32 = 8 * (3 - (i % 4) as i32);
            self.push_ea_plus(b, ea, i as i32);
            b.push(ReadU8);
            self.push_shifted(b, shift, I32Shl);
            b.append(vec![LoadGpr(reg), I32Or, StoreGpr(reg)]);
            i = i + 1;
        }
    }

    fn store_string(&self, b: &mut IrBlock, rs: u8, ea: IrLocal, count: u8)
        requires
            rs < 32,
            count <= 32,
        ensures
            final(b).extends(*old(b), store_string_code(rs, ea, count as int), seq![]),
    {
        let mut i: u8 = 0;
        while i < count
            invariant
                rs < 32,
                i <= count <= 32,
                b.extends(*old(b), store_string_code(rs, ea, i as int), seq![]),
            decreases count - i,
        {
            let reg: u8 = (rs + i / 4) % 32;
            let shift: i32 = 8 * (3 - (i % 4) as i32);
            self.push_ea_plus(b, ea, i as i32);
            b.push(LoadGpr(reg));
            self.push_shifted(b, shift, I32ShrU);
            b.append(vec![I32Const(0xFF), I32And, WriteU8]);
            i = i + 1;
        }
    }

    /// Emits instructions that move several words or bytes.
    #[verifier::spinoff_prover]
    fn emit_bulk(&self, b: &mut IrBlock, ins: Ins)
        requires
            old(b).local_types@.len() < MAX_LOCALS,
        ensures
            final(b).extends(
                *old(b),
                bulk_code(ins, old(b).local_types@.len()),
                bulk_locals(ins),
            ),
    {
        proof {
            reveal(bulk_code);
        }
        proof {
            ins.lemma_register_fields();
        }
        let d: i32 = ins.field_offset() as i32;
        let count: u8 = if ins.field_nb() == 0 { 32 } else { ins.field_nb() };
        match ins.op {
            Opcode::Lmw => {
                self.load_multiple(b, ins.gpr_d(), ins.gpr_a(), d);
            },
            Opcode::Stmw => {
                self.store_multiple(b, ins.gpr_s(), ins.gpr_a(), d);
            },
            Opcode::Dcbz => {
                // One 32-byte cache line.
                let ea = b.alloc_local(IrTy::I32);
                self.push_ea_x(b, ins.gpr_a(), ins.gpr_b());
                b.append(vec![I32Const(!31u32 as i32), I32And, LocalSet(ea)]);
                self.zero_words(b, ea, 8);
            },
            Opcode::DcbzL => {
                // One 128-byte line of the second-level cache.
                let ea = b.alloc_local(IrTy::I32);
                self.push_ea_x(b, ins.gpr_a(), ins.gpr_b());
                b.append(vec![I32Const(!127u32 as i32), I32And, LocalSet(ea)]);
                self.zero_words(b, ea, 32);
            },
            Opcode::Lswi => {
                let ea = b.alloc_local(IrTy::I32);
                self.push_base(b, ins.gpr_a(), ea);
                self.load_string(b, ins.gpr_d(), ea, count);
            },
            Opcode::Stswi => {
                let ea = b.alloc_local(IrTy::I32);
                self.push_base(b, ins.gpr_a(), ea);
                self.store_string(b, ins.gpr_s(), ea, count);
            },
            _ => {},
        }
    }

    fn load_slot(&self, r: u8, ps1: bool) -> (inst: IrInst)
        ensures
            inst == load_slot(r, ps1),
    {
        if ps1 {
            LoadFprPs1(r)
        } else {
            LoadFprPs0(r)
        }
    }

    /// Leaves `a * c + b`, or a variant of it, on the stack. The variants go
    /// through locals to get the operand order right.
    fn fma_slot(&self, b: &mut IrBlock, ins: Ins, ps1: bool, kind: FmaKind)
        requires
            old(b).local_types@.len() < u32::MAX - 3,
        ensures
            final(b).extends(
                *old(b),
                fma_code(ins, ps1, kind, old(b).local_types@.len()),
                fma_locals(kind),
            ),
    {
        let load_a = self.load_slot(ins.fpr_a(), ps1);
        let load_b = self.load_slot(ins.fpr_b(), ps1);
        let load_c = self.load_slot(ins.fpr_c(), ps1);
        if kind.sub || kind.neg {
            let la = b.alloc_local(IrTy::F64);
            let lc = b.alloc_local(IrTy::F64);
            let lb = b.alloc_local(IrTy::F64);
            b.append(vec![
                load_a, LocalSet(la), load_b, LocalSet(lb), load_c, LocalSet(lc),
                LocalGet(la), LocalGet(lc), F64Mul, LocalGet(lb),
            ]);
            if kind.sub {
                b.push(F64Sub);
            } else {
                b.push(F64Add);
            }
            if kind.neg {
                b.push(F64Neg);
            }
        } else {
            b.append(vec![load_b, load_a, load_c, F64Mul, F64Add]);
        }
        if kind.round {
            b.push(F64RoundToSingle);
        }
    }

    fn fma_kind(op: Opcode) -> (kind: FmaKind)
        ensures
            kind == fma_kind(op),
    {
        match op {
            Opcode::Fmadd => FmaKind { sub: false, neg: false, round: false },
            Opcode::Fmadds | Opcode::PsMadd => FmaKind { sub: false, neg: false, round: true },
            Opcode::Fmsub => FmaKind { sub: true, neg: false, round: false },
            Opcode::Fmsubs | Opcode::PsMsub => FmaKind { sub: true, neg: false, round: true },
            Opcode::Fnmadd => FmaKind { sub: false, neg: true, round: false },
            Opcode::Fnmadds | Opcode::PsNmadd => FmaKind { sub: false, neg: true, round: true },
            Opcode::Fnmsub => FmaKind { sub: true, neg: true, round: false },
            _ => FmaKind { sub: true, neg: true, round: true },
        }
    }

    /// Emits a scalar multiply-add.
    fn emit_fma_scalar(&self, b: &mut IrBlock, ins: Ins)
        requires
            old(b).local_types@.len() < MAX_LOCALS,
        ensures
            final(b).extends(
                *old(b),
                fma_scalar_code(ins, old(b).local_types@.len()),
                fma_locals(fma_kind(ins.op)),
            ),
    {
        proof {
            reveal(fma_scalar_code);
        }
        self.fma_slot(b, ins, false, Self::fma_kind(ins.op));
        b.push(StoreFprPs0(ins.fpr_d()));
    }

    /// Emits a multiply-add on both halves.
    fn emit_fma_ps(&self, b: &mut IrBlock, ins: Ins)
        requires
            old(b).local_types@.len() < MAX_LOCALS,
        ensures
            final(b).extends(
                *old(b),
                fma_paired_code(ins, old(b).local_types@.len()),
                fma_locals(fma_kind(ins.op)) + fma_locals(fma_kind(ins.op)),
            ),
    {
        proof {
            reveal(fma_paired_code);
        }
        let kind = Self::fma_kind(ins.op);
        self.fma_slot(b, ins, false, kind);
        b.push(StoreFprPs0(ins.fpr_d()));
        self.fma_slot(b, ins, true, kind);
        b.push(StoreFprPs1(ins.fpr_d()));
    }

    /// Emits `1.0 / x`, or `1.0 / sqrt(x)`, for one half of a register.
    fn emit_recip(&self, b: &mut IrBlock, fd: u8, fb: u8, sqrt: bool, ps1: bool)
        requires
            old(b).local_types@.len() < u32::MAX,
        ensures
            final(b).extends(
                *old(b),
                recip_code(fd, fb, sqrt, ps1, old(b).local_types@.len()),
                seq![IrTy::F64],
            ),
    {
        let loc = b.alloc_local(IrTy::F64);
        b.push(self.load_slot(fb, ps1));
        if sqrt {
            b.push(F64Sqrt);
        }
        b.append(vec![LocalSet(loc), F64Const(F64_ONE), LocalGet(loc), F64Div]);
        if ps1 {
            b.push(StoreFprPs1(fd));
        } else {
            b.push(StoreFprPs0(fd));
        }
    }

    /// Emits reciprocal estimates.
    fn emit_estimate(&self, b: &mut IrBlock, ins: Ins)
        requires
            old(b).local_types@.len() < MAX_LOCALS,
        ensures
            final(b).extends(
                *old(b),
                estimate_code(ins, old(b).local_types@.len()),
                estimate_locals(ins),
            ),
    {
        proof {
            reveal(estimate_code);
        }
        let fd: u8 = ins.fpr_d();
        let fb: u8 = ins.fpr_b();
        match ins.op {
            Opcode::Fres => {
                self.emit_recip(b, fd, fb, false, false);
            },
            Opcode::Frsqrte => {
                self.emit_recip(b, fd, fb, true, false);
            },
            Opcode::PsRes => {
                self.emit_recip(b, fd, fb, false, false);
                self.emit_recip(b, fd, fb, false, true);
            },
            Opcode::PsRsqrte => {
                self.emit_recip(b, fd, fb, true, false);
                self.emit_recip(b, fd, fb, true, true);
            },
            _ => {},
        }
    }

    fn push_shifted_or(&self, b: &mut IrBlock, loc: IrLocal, position: u32)
        ensures
            final(b).extends(*old(b), shifted_or_code(loc, position), seq![]),
    {
        b.append(vec![LocalGet(loc), I32Const(position as i32), I32Shl, I32Or]);
    }

    /// Emits a floating-point comparison of one half of two registers. The
    /// target's comparisons give 0 for NaN, so the unordered flag is the
    /// absence of the other three.
    #[verifier::spinoff_prover]
    #[verifier::rlimit(60)]
    fn update_cr_float(&self, b: &mut IrBlock, ins: Ins, ps1: bool)
        requires
            old(b).local_types@.len() < MAX_LOCALS,
        ensures
            final(b).extends(
                *old(b),
                float_compare_code(ins, ps1, old(b).local_types@.len()),
                float_compare_locals(),
            ),
    {
        proof {
            reveal(float_compare_code);
        }
        proof {
            ins.lemma_register_fields();
        }
        let la = b.alloc_local(IrTy::F64);
        let lb = b.alloc_local(IrTy::F64);
        let lt = b.alloc_local(IrTy::I32);
        let gt = b.alloc_local(IrTy::I32);
        let eq = b.alloc_local(IrTy::I32);
        let un = b.alloc_local(IrTy::I32);
        b.append(vec![
            self.load_slot(ins.fpr_a(), ps1), LocalSet(la),
            self.load_slot(ins.fpr_b(), ps1), LocalSet(lb),
            LocalGet(la), LocalGet(lb), F64Lt, LocalSet(lt),
            LocalGet(la), LocalGet(lb), F64Gt, LocalSet(gt),
            LocalGet(la), LocalGet(lb), F64Eq, LocalSet(eq),
            LocalGet(lt), LocalGet(gt), I32Or, LocalGet(eq), I32Or, I32Const(1), I32Xor,
            LocalSet(un),
        ]);
        let so: u32 = 28 - 4 * (ins.field_crfd() as u32);
        self.push_cleared_field(b, ins.field_crfd());
        self.push_shifted_or(b, lt, so + 3);
        self.push_shifted_or(b, gt, so + 2);
        self.push_shifted_or(b, eq, so + 1);
        self.push_shifted_or(b, un, so);
        b.push(StoreCr);
    }

    /// Puts a condition bit into a new local.
    fn cr_get_bit(&self, b: &mut IrBlock, bit: u8) -> (loc: IrLocal)
        requires
            bit < 32,
            old(b).local_types@.len() < u32::MAX,
        ensures
            loc == local_at(old(b).local_types@.len() + 1, IrTy::I32),
            final(b).extends(*old(b), get_bit_code(bit, loc), seq![IrTy::I32]),
    {
        let pos: i32 = (31 - bit) as i32;
        let loc = b.alloc_local(IrTy::I32);
        b.append(vec![LoadCr, I32Const(pos), I32ShrU, I32Const(1), I32And, LocalSet(loc)]);
        loc
    }

    fn cr_set_bit(&self, b: &mut IrBlock, bit: u8, val: IrLocal)
        requires
            bit < 32,
        ensures
            final(b).extends(*old(b), set_bit_code(bit, val), seq![]),
    {
        let pos: u32 = (31 - bit) as u32;
        b.append(vec![
            LoadCr, I32Const(!(1u32 << pos) as i32), I32And,
            LocalGet(val), I32Const(pos as i32), I32Shl, I32Or, StoreCr,
        ]);
    }

    fn bit_operation(&self, b: &mut IrBlock, op: Opcode, la: IrLocal, lb: IrLocal)
        ensures
            final(b).extends(*old(b), bit_operation_code(op, la, lb), seq![]),
    {
        match op {
            Opcode::Crxor => {
                b.append(vec![LocalGet(la), LocalGet(lb), I32Xor]);
            },
            Opcode::Creqv => {
                b.append(vec![LocalGet(la), LocalGet(lb), I32Xor, I32Const(1), I32Xor]);
            },
            Opcode::Cror => {
                b.append(vec![LocalGet(la), LocalGet(lb), I32Or]);
            },
            Opcode::Crorc => {
                b.append(vec![LocalGet(lb), I32Const(1), I32Xor, LocalGet(la), I32Or]);
            },
            Opcode::Crnor => {
                b.append(vec![LocalGet(la), LocalGet(lb), I32Or, I32Const(1), I32Xor]);
            },
            Opcode::Crand => {
                b.append(vec![LocalGet(la), LocalGet(lb), I32And]);
            },
            Opcode::Crandc => {
                b.append(vec![LocalGet(lb), I32Const(1), I32Xor, LocalGet(la), I32And]);
            },
            _ => {
                b.append(vec![LocalGet(la), LocalGet(lb), I32And, I32Const(1), I32Xor]);
            },
        }
    }

    /// Emits operations on single condition bits.
    fn emit_condition(&self, b: &mut IrBlock, ins: Ins)
        requires
            old(b).local_types@.len() < MAX_LOCALS,
        ensures
            final(b).extends(
                *old(b),
                condition_code(ins, old(b).local_types@.len()),
                seq![IrTy::I32, IrTy::I32, IrTy::I32],
            ),
    {
        proof {
            reveal(condition_code);
        }
        proof {
            ins.lemma_register_fields();
        }
        let la = self.cr_get_bit(b, ins.field_crba());
        let lb = self.cr_get_bit(b, ins.field_crbb());
        let lv = b.alloc_local(IrTy::I32);
        self.bit_operation(b, ins.op, la, lb);
        b.push(LocalSet(lv));
        self.cr_set_bit(b, ins.field_crbd(), lv);
    }

    fn field_mask(crm: u8) -> (mask: u32)
        ensures
            mask == field_mask(crm, 8),
    {
        let mut mask: u32 = 0;
        let mut i: u32 = 0;
        while i < 8
            invariant
                i <= 8,
                mask == field_mask(crm, i as int),
            decreases 8 - i,
        {
            if (crm as u32 >> (7 - i)) & 1 != 0 {
                mask = mask | (0xFu32 << (28 - 4 * i));
            }
            i = i + 1;
        }
        mask
    }

    fn spr_load(spr: u16) -> (inst: IrInst)
        ensures
            inst == spr_load(spr),
    {
        match spr {
            1u16 => LoadXer,
            8u16 => LoadLr,
            9u16 => LoadCtr,
            22u16 => LoadDec,
            26u16 => LoadSrr0,
            27u16 => LoadSrr1,
            272u16 => LoadSprg(0),
            273u16 => LoadSprg(1),
            274u16 => LoadSprg(2),
            275u16 => LoadSprg(3),
            _ => I32Const(0),
        }
    }

    fn spr_store(spr: u16) -> (inst: IrInst)
        ensures
            inst == spr_store(spr),
    {
        match spr {
            1u16 => StoreXer,
            8u16 => StoreLr,
            9u16 => StoreCtr,
            22u16 => StoreDec,
            26u16 => StoreSrr0,
            27u16 => StoreSrr1,
            272u16 => StoreSprg(0),
            273u16 => StoreSprg(1),
            274u16 => StoreSprg(2),
            275u16 => StoreSprg(3),
            _ => IrInst::Drop,
        }
    }

    /// Emits moves between special registers.
    #[verifier::spinoff_prover]
    #[verifier::rlimit(60)]
    fn emit_system(&self, b: &mut IrBlock, ins: Ins)
        requires
            old(b).local_types@.len() < MAX_LOCALS,
        ensures
            final(b).extends(
                *old(b),
                system_code(ins, old(b).local_types@.len()),
                system_locals(ins),
            ),
    {
        proof {
            reveal(system_code);
        }
        proof {
            ins.lemma_register_fields();
        }
        match ins.op {
            Opcode::Mfspr => {
                b.append(vec![Self::spr_load(ins.field_spr()), StoreGpr(ins.gpr_d())]);
            },
            Opcode::Mtspr => {
                b.append(vec![LoadGpr(ins.gpr_s()), Self::spr_store(ins.field_spr())]);
            },
            Opcode::Mftb => {
                if ins.field_tbr() == 268 {
                    b.push(LoadTbLo);
                } else {
                    b.push(LoadTbHi);
                }
                b.push(StoreGpr(ins.gpr_d()));
            },
            Opcode::Mfcr => {
                b.append(vec![LoadCr, StoreGpr(ins.gpr_d())]);
            },
            Opcode::Mtcrf => {
                let mask: u32 = Self::field_mask(ins.field_crm());
                b.append(vec![
                    LoadCr, I32Const(!mask as i32), I32And,
                    LoadGpr(ins.gpr_s()), I32Const(mask as i32), I32And, I32Or, StoreCr,
                ]);
            },
            Opcode::Mcrf => {
                let loc = b.alloc_local(IrTy::I32);
                let src: u32 = 28 - 4 * (ins.field_crfs() as u32);
                let dst: u32 = 28 - 4 * (ins.field_crfd() as u32);
                b.append(vec![
                    LoadCr, I32Const(src as i32), I32ShrU,
                    I32Const(0xF), I32And, I32Const(dst as i32), I32Shl, LocalSet(loc),
                    LoadCr, I32Const(!(0xFu32 << dst) as i32), I32And, LocalGet(loc), I32Or,
                    StoreCr,
                ]);
            },
            Opcode::Mcrxr => {
                let field: u8 = ins.field_crfd();
                let loc = b.alloc_local(IrTy::I32);
                b.append(vec![
                    LoadXer, LocalTee(loc), I32Const(!(7u32 << 29u32) as i32), I32And, StoreXer,
                ]);
                self.push_cleared_field(b, field);
                b.append(vec![LocalGet(loc), I32Const((7u32 << 29u32) as i32), I32And]);
                self.push_shifted(b, 4 * (field as i32), I32ShrU);
                b.append(vec![I32Or, StoreCr]);
            },
            Opcode::Mfmsr => {
                b.append(vec![LoadMsr, StoreGpr(ins.gpr_d())]);
            },
            Opcode::Mfsr => {
                b.append(vec![I32Const(0), StoreGpr(ins.gpr_d())]);
            },
            _ => {},
        }
    }

    /// Stores the return address if `lk` is set.
    fn push_link(&self, b: &mut IrBlock, pc: u32, lk: bool)
        requires
            pc <= u32::MAX - 4,
        ensures
            final(b).extends(*old(b), link_code(pc, lk), seq![]),
    {
        if lk {
            let next: i32 = (pc + 4) as i32;
            b.append(vec![I32Const(next), StoreLr]);
        }
    }

    fn push_unless(&self, b: &mut IrBlock, keep: bool)
        ensures
            final(b).extends(*old(b), unless_code(keep), seq![]),
    {
        if !keep {
            b.append(vec![I32Const(1), I32Xor]);
        }
    }

    /// Leaves on the stack whether a branch is taken.
    fn emit_branch_cond(&self, b: &mut IrBlock, bo: u8, bi: u8)
        requires
            bi < 32,
            old(b).local_types@.len() < u32::MAX,
        ensures
            final(b).extends(
                *old(b),
                branch_cond_code(bo, bi, old(b).local_types@.len()),
                branch_cond_locals(bo),
            ),
    {
        let pos: i32 = (31 - bi) as i32;
        b.push(I32Const(1));
        if (bo >> 2u8) & 1 == 0 {
            let loc = b.alloc_local(IrTy::I32);
            b.append(vec![
                LoadCtr, I32Const(1), I32Sub, LocalTee(loc), StoreCtr, LocalGet(loc), I32Eqz,
            ]);
            self.push_unless(b, (bo >> 1u8) & 1 != 0);
            b.push(I32And);
        }
        if (bo >> 4u8) & 1 == 0 {
            b.append(vec![LoadCr, I32Const(pos), I32ShrU, I32Const(1), I32And]);
            self.push_unless(b, (bo >> 3u8) & 1 != 0);
            b.push(I32And);
        }
    }

    /// The target of a direct branch at `pc`.
    fn branch_target(pc: u32, displacement: i32, absolute: bool) -> (target: u32)
        ensures
            target == branch_target(pc, displacement, absolute),
    {
        if absolute {
            displacement as u32
        } else {
            pc.wrapping_add_signed(displacement)
        }
    }

    /// Emits branches.
    #[verifier::spinoff_prover]
    #[verifier::rlimit(60)]
    fn emit_branch(&self, b: &mut IrBlock, ins: Ins, pc: u32)
        requires
            old(b).local_types@.len() < MAX_LOCALS,
            pc <= u32::MAX - 4,
        ensures
            final(b).extends(
                *old(b),
                branch_code(ins, pc, old(b).local_types@.len()),
                branch_locals(ins),
            ),
    {
        proof {
            reveal(branch_code);
        }
        proof {
            ins.lemma_register_fields();
        }
        let bo: u8 = ins.field_bo();
        let bi: u8 = ins.field_bi();
        let always: bool = (bo >> 4u8) & 1 != 0 && (bo >> 2u8) & 1 != 0;
        let next: u32 = pc + 4;
        match ins.op {
            Opcode::B => {
                let target: u32 = Self::branch_target(pc, ins.field_li(), ins.field_aa());
                self.push_link(b, pc, ins.field_lk());
                b.push(ReturnStatic(target));
            },
            Opcode::Bc => {
                let taken: u32 = Self::branch_target(pc, ins.field_bd() as i32, ins.field_aa());
                self.push_link(b, pc, ins.field_lk());
                self.emit_branch_cond(b, bo, bi);
                b.push(BranchIf { taken, fallthrough: next });
            },
            Opcode::Bclr => {
                let lr = b.alloc_local(IrTy::I32);
                b.append(vec![LoadLr, LocalSet(lr)]);
                self.push_link(b, pc, ins.field_lk());
                if always {
                    b.append(vec![LocalGet(lr), ReturnDynamic]);
                } else {
                    self.emit_branch_cond(b, bo, bi);
                    b.push(BranchRegIf { reg_local: lr, fallthrough: next });
                }
            },
            Opcode::Bcctr => {
                let ctr = b.alloc_local(IrTy::I32);
                b.append(vec![LoadCtr, LocalSet(ctr)]);
                self.push_link(b, pc, ins.field_lk());
                if always {
                    b.append(vec![LocalGet(ctr), ReturnDynamic]);
                } else {
                    // The counter holds the target, so whatever the options say
                    // it must not be counted down.
                    self.emit_branch_cond(b, bo | 4, bi);
                    b.push(BranchRegIf { reg_local: ctr, fallthrough: next });
                }
            },
            _ => {},
        }
    }

    /// Emits instructions that end a block without being branches.
    #[verifier::spinoff_prover]
    fn emit_leave(&self, b: &mut IrBlock, ins: Ins, pc: u32)
        requires
            pc <= u32::MAX - 4,
        ensures
            final(b).extends(*old(b), leave_code(ins, pc), seq![]),
    {
        proof {
            reveal(leave_code);
        }
        let next: u32 = pc + 4;
        match ins.op {
            Opcode::Mtmsr => {
                // The host looks for pending interrupts between blocks, so it
                // must see the new MSR before the next instruction.
                b.append(vec![LoadGpr(ins.gpr_s()), StoreMsr, ReturnStatic(next)]);
            },
            Opcode::Rfi => {
                let mask: u32 = SRR1_TO_MSR_MASK;
                b.append(vec![
                    LoadSrr1, I32Const(mask as i32), I32And,
                    LoadMsr, I32Const(!mask as i32), I32And, I32Or,
                    I32Const(!(1u32 << 18u32) as i32), I32And, StoreMsr,
                    LoadSrr0, I32Const(!3u32 as i32), I32And, ReturnDynamic,
                ]);
            },
            Opcode::Sc => {
                // Delivering the exception skips the instruction, so the
                // address stored is its own.
                b.append(vec![I32Const(pc as i32), StorePC, RaiseException(SYSCALL_VECTOR)]);
            },
            _ => {
                b.push(ReturnStatic(next));
            },
        }
    }

    /// Notes an operation that has no translation.
    fn report(&self, b: &mut IrBlock, name: String, pc: u32)
        ensures
            final(b).insts == old(b).insts,
            final(b).local_types == old(b).local_types,
            final(b).instruction_count == old(b).instruction_count,
            final(b).cycles == old(b).cycles,
            label_views(final(b).unimplemented_ops@) == label_views(old(b).unimplemented_ops@)
                + seq![name@ + " @ 0x"@ + hex8(pc)],
    {
        let digits = upper_hex(pc);
        let mut label = name;
        label.append(" @ 0x");
        label.append(digits.as_str());
        b.unimplemented_ops.push(label);
    }

    /// Cycle cost of an operation.
    fn cycles_for(op: Opcode) -> (cycles: u32)
        ensures
            cycles == cycle_cost(op),
    {
        match op {
            Opcode::And | Opcode::Andc | Opcode::Andi_ | Opcode::Andis_ | Opcode::Or
            | Opcode::Orc | Opcode::Ori | Opcode::Oris | Opcode::Xor | Opcode::Xori
            | Opcode::Xoris | Opcode::Eqv | Opcode::Nand | Opcode::Nor => 1,
            Opcode::Mfspr | Opcode::Mtspr | Opcode::Mfmsr | Opcode::Mtmsr | Opcode::Mfcr
            | Opcode::Mtcrf | Opcode::Crand | Opcode::Crandc | Opcode::Creqv | Opcode::Crnand
            | Opcode::Crnor | Opcode::Cror | Opcode::Crorc | Opcode::Crxor | Opcode::Mftb => 1,
            Opcode::Mulhw | Opcode::Mulhwu | Opcode::Mullw | Opcode::Mulli => 3,
            Opcode::Divw | Opcode::Divwu => 19,
            Opcode::Lmw | Opcode::Stmw | Opcode::Lswi | Opcode::Stswi => 10,
            _ => 2,
        }
    }

    /// Adds one guest instruction to the block; gives whether it ends it.
    #[verifier::spinoff_prover]
    #[verifier::rlimit(60)]
    fn emit_inst(&self, b: &mut IrBlock, ins: Ins, pc: u32) -> (ends: bool)
        requires
            old(b).local_types@.len() < MAX_LOCALS,
            old(b).instruction_count < u32::MAX,
            old(b).cycles + cycle_cost(ins.op) <= u32::MAX,
            pc <= u32::MAX - 4,
        ensures
            ends == ends_block(ins.op),
            final(b)@ == old(b)@.with(pc, ins),
    {
        b.instruction_count = b.instruction_count + 1;
        b.cycles = b.cycles + Self::cycles_for(ins.op);
        let ghost counted = *b;
        match ins.op {
            Opcode::Addi | Opcode::Addis | Opcode::Add | Opcode::Subf | Opcode::Neg | Opcode::Mulli
            | Opcode::Mullw | Opcode::Mulhw | Opcode::Mulhwu | Opcode::Divw | Opcode::Divwu => {
                self.emit_arithmetic(b, ins)
            },
            Opcode::Addic | Opcode::Addic_ | Opcode::Addc | Opcode::Adde | Opcode::Addze
            | Opcode::Addme => self.emit_carry_add(b, ins),
            Opcode::Subfic | Opcode::Subfc | Opcode::Subfe | Opcode::Subfze | Opcode::Subfme => {
                self.emit_carry_sub(b, ins)
            },
            Opcode::And | Opcode::Andc | Opcode::Or | Opcode::Orc | Opcode::Xor | Opcode::Nor
            | Opcode::Nand | Opcode::Eqv | Opcode::Andi_ | Opcode::Andis_ | Opcode::Ori
            | Opcode::Oris
            | Opcode::Xori | Opcode::Xoris | Opcode::Cntlzw | Opcode::Extsb | Opcode::Extsh => {
                self.emit_logic(b, ins)
            },
            Opcode::Slw | Opcode::Srw | Opcode::Sraw => self.emit_shift(b, ins),
            Opcode::Lwz | Opcode::Lwzu | Opcode::Lwzx | Opcode::Lwzux | Opcode::Lhz | Opcode::Lhzu
            | Opcode::Lhzx | Opcode::Lhzux | Opcode::Lbz | Opcode::Lbzu | Opcode::Lbzx
            | Opcode::Lbzux
            | Opcode::Lha | Opcode::Lhau | Opcode::Lhax | Opcode::Lhaux | Opcode::Lwbrx
            | Opcode::Lhbrx | Opcode::Lwarx => self.emit_load(b, ins),
            Opcode::Stw | Opcode::Stwu | Opcode::Stwx | Opcode::Stwux | Opcode::Sth | Opcode::Sthu
            | Opcode::Sthx | Opcode::Sthux | Opcode::Stb | Opcode::Stbu | Opcode::Stbx
            | Opcode::Stbux
            | Opcode::Stwbrx | Opcode::Sthbrx | Opcode::Stwcx_ => self.emit_store(b, ins),
            Opcode::Lfs | Opcode::PsqL | Opcode::Lfsu | Opcode::PsqLu | Opcode::Lfsx | Opcode::PsqLx
            | Opcode::Lfsux | Opcode::Lfd | Opcode::Lfdu | Opcode::Lfdx | Opcode::Lfdux => {
                self.emit_float_load(b, ins)
            },
            Opcode::Stfs | Opcode::PsqSt | Opcode::Stfsu | Opcode::Stfsx | Opcode::PsqStx
            | Opcode::Stfsux | Opcode::PsqStu | Opcode::Stfd | Opcode::Stfdu | Opcode::Stfdx
            | Opcode::Stfdux | Opcode::Stfiwx => self.emit_float_store(b, ins),
            Opcode::Fadd | Opcode::Fadds | Opcode::Fsub | Opcode::Fsubs | Opcode::Fdiv
            | Opcode::Fdivs | Opcode::Fmul | Opcode::Fmuls | Opcode::Fmr | Opcode::Fneg
            | Opcode::Fabs
            | Opcode::Frsp | Opcode::Fsqrt | Opcode::Fsqrts | Opcode::Fctiw | Opcode::Fctiwz
            | Opcode::Mffs | Opcode::Fsel => self.emit_scalar(b, ins),
            Opcode::PsAdd | Opcode::PsSub | Opcode::PsDiv | Opcode::PsMul | Opcode::PsMr
            | Opcode::PsNeg | Opcode::PsAbs | Opcode::PsNabs | Opcode::PsMerge00 | Opcode::PsMerge01
            | Opcode::PsMerge10 | Opcode::PsMerge11 | Opcode::PsSum0 | Opcode::PsSum1
            | Opcode::PsMuls0 | Opcode::PsMadds0 | Opcode::PsMuls1 | Opcode::PsMadds1
            | Opcode::PsSel => {
                self.emit_paired(b, ins)
            },
            Opcode::Rlwinm | Opcode::Rlwimi | Opcode::Rlwnm | Opcode::Srawi => {
                self.emit_rotate_family(b, ins)
            },
            Opcode::Cmp | Opcode::Cmpi | Opcode::Cmpl | Opcode::Cmpli => {
                self.emit_compare(b, ins)
            },
            Opcode::Lmw | Opcode::Stmw | Opcode::Dcbz | Opcode::DcbzL | Opcode::Lswi
            | Opcode::Stswi => self.emit_bulk(b, ins),
            Opcode::Fmadd | Opcode::Fmadds | Opcode::Fmsub | Opcode::Fmsubs | Opcode::Fnmadd
            | Opcode::Fnmadds | Opcode::Fnmsub | Opcode::Fnmsubs => self.emit_fma_scalar(b, ins),
            Opcode::PsMadd | Opcode::PsMsub | Opcode::PsNmadd | Opcode::PsNmsub => {
                self.emit_fma_ps(b, ins)
            },
            Opcode::Fres | Opcode::Frsqrte | Opcode::PsRes | Opcode::PsRsqrte => {
                self.emit_estimate(b, ins)
            },
            Opcode::Fcmpu | Opcode::Fcmpo | Opcode::PsCmpu0 | Opcode::PsCmpo0 => {
                self.update_cr_float(b, ins, false)
            },
            Opcode::PsCmpu1 | Opcode::PsCmpo1 => self.update_cr_float(b, ins, true),
            Opcode::Crxor | Opcode::Creqv | Opcode::Cror | Opcode::Crorc | Opcode::Crnor
            | Opcode::Crand | Opcode::Crandc | Opcode::Crnand => self.emit_condition(b, ins),
            Opcode::Mfspr | Opcode::Mtspr | Opcode::Mftb | Opcode::Mfcr | Opcode::Mtcrf
            | Opcode::Mcrf | Opcode::Mcrxr | Opcode::Mfmsr | Opcode::Mfsr => {
                self.emit_system(b, ins)
            },
            Opcode::B | Opcode::Bc | Opcode::Bclr | Opcode::Bcctr => {
                self.emit_branch(b, ins, pc);
                assert(b.unimplemented_ops == counted.unimplemented_ops);
                return true;
            },
            Opcode::Mtmsr | Opcode::Rfi | Opcode::Sc => {
                self.emit_leave(b, ins, pc);
                return true;
            },
            // Whatever cannot be translated is reported and stepped over, so
            // that the guest keeps running.
            Opcode::Illegal => {
                self.report(b, "Illegal".to_string(), pc);
                self.emit_leave(b, ins, pc);
                return true;
            },
            Opcode::Other(number) => {
                self.report(b, name_of_opcode(number), pc);
                self.emit_leave(b, ins, pc);
                return true;
            },
            // Cache and synchronisation hints, the FPSCR and segment registers.
            _ => {},
        }
        false
    }

    /// Translates the instructions of one block, each given with its address.
    ///
    /// Translation stops after the first instruction that ends the block. A
    /// sequence without any instruction is refused.
    pub fn decode(&self, instructions: &[(u32, Ins)]) -> (result: Result<IrBlock, String>)
        requires
            instructions@.len() > 0 ==> can_decode(instructions@),
        ensures
            instructions@.len() == 0 ==> result is Err && result->Err_0@
                == "block contains no instructions"@,
            instructions@.len() > 0 ==> result is Ok && result->Ok_0@ == decoded(instructions@),
    {
        if instructions.len() == 0 {
            return Err("block contains no instructions".to_string());
        }
        let mut block = IrBlock::default();
        let mut i: usize = 0;
        assert(label_views(block.unimplemented_ops@) =~= seq![]);
        assert(instructions@.take(0) =~= seq![]);
        while i < instructions.len()
            invariant
                i <= instructions@.len(),
                instructions@.len() > 0,
                can_decode(instructions@),
                forall|k: int| 0 <= k < i ==> !ends_block((#[trigger] instructions@[k]).1.op),
                block@ == translate_all(instructions@.take(i as int)),
            decreases instructions@.len() - i,
        {
            let (pc, ins) = instructions[i];
            proof {
                let ahead = instructions@.take(i + 1);
                assert(ahead.drop_last() =~= instructions@.take(i as int));
                assert(ahead.last() == instructions@[i as int]);
                let taken = instructions@.take(block_length(instructions@) as int);
                block_is_prefix(instructions@);
                assert(i < block_length(instructions@));
                lemma_beginning(taken, i as nat);
                lemma_beginning(taken, (i + 1) as nat);
                assert(taken.take(i as int) =~= instructions@.take(i as int));
                assert(taken.take(i + 1) =~= ahead);
            }
            let ends: bool = self.emit_inst(&mut block, ins, pc);
            i = i + 1;
            if ends {
                proof {
                    lemma_block_length(instructions@, i as nat);
                }
                return Ok(block);
            }
        }
        proof {
            lemma_block_length(instructions@, i as nat);
            assert(instructions@.take(i as int) =~= instructions@);
        }
        let last_pc: u32 = instructions[i - 1].0;
        let ghost before = block@;
        block.push(ReturnStatic(last_pc + 4));
        assert(block@.insts =~= before.insts.push(ReturnStatic(next_pc(last_pc))));
        Ok(block)
    }
}

} // verus!
