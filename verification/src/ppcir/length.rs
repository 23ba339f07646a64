//! How long translated blocks can get.

use vstd::prelude::*;

use super::translate::{
    arithmetic_code, block_length, branch_code, bulk_code, carry_add_code, carry_code,
    carry_sub_code, clear_registers_code, compare_code, compare_signed_code, compare_unsigned_code,
    condition_code, cycle_cost, decoded, ends_block, estimate_code, float_compare_code,
    float_load_code, float_store_code, fma_paired_code, fma_scalar_code, int_result_code,
    leave_code, load_code, load_multiple_code, load_string_code, logic_code, paired_code,
    rotate_family_code, scalar_code, set_field_code, shift_code, store_code, store_multiple_code,
    store_string_code, string_length, system_code, translate, translate_all, zero_words_code,
};
use super::inst::{local_at, IrLocal, IrTy};
use super::typing::{block_is_prefix, locals_of_all_bounded};
use crate::disasm::{Ins, Opcode};

verus! {

broadcast proof fn length_of_int_result(rd: u8, rc: bool, n: nat)
    ensures
        (#[trigger] int_result_code(rd, rc, n)).len() <= 32,
{
    reveal(int_result_code);
    reveal(set_field_code);
}

broadcast proof fn length_of_carry(carry: IrLocal)
    ensures
        (#[trigger] carry_code(carry)).len() == 8,
{
    reveal(carry_code);
}

broadcast proof fn length_of_compare_signed(field: u8, lhs: IrLocal, rhs: IrLocal)
    ensures
        (#[trigger] compare_signed_code(field, lhs, rhs)).len() <= 32,
{
    reveal(compare_signed_code);
    reveal(set_field_code);
}

broadcast proof fn length_of_compare_unsigned(field: u8, lhs: IrLocal, rhs: IrLocal)
    ensures
        (#[trigger] compare_unsigned_code(field, lhs, rhs)).len() <= 32,
{
    reveal(compare_unsigned_code);
    reveal(set_field_code);
}

proof fn lemma_multiple_length(r: u8, ra: u8, d: i32, end: int)
    requires
        0 <= end,
    ensures
        load_multiple_code(r, ra, d, end).len() <= 5 * end,
        store_multiple_code(r, ra, d, end).len() <= 5 * end,
    decreases end,
{
    if end > r {
        lemma_multiple_length(r, ra, d, end - 1);
    }
}

proof fn lemma_zero_length(ea: IrLocal, count: int)
    requires
        0 <= count,
    ensures
        zero_words_code(ea, count).len() <= 5 * count,
    decreases count,
{
    if count > 0 {
        lemma_zero_length(ea, count - 1);
    }
}

proof fn lemma_string_length(r: u8, ea: IrLocal, count: int)
    requires
        0 <= count,
    ensures
        clear_registers_code(r, count).len() <= 2 * count,
        load_string_code(r, ea, count).len() <= 9 * count,
        store_string_code(r, ea, count).len() <= 9 * count,
    decreases count,
{
    if count > 0 {
        lemma_string_length(r, ea, count - 1);
    }
}

broadcast group group_helper_lengths {
    length_of_int_result,
    length_of_carry,
    length_of_compare_signed,
    length_of_compare_unsigned,
}

#[verifier::spinoff_prover]
proof fn lemma_arithmetic_length(ins: Ins, n: nat)
    ensures
        arithmetic_code(ins, n).len() <= 512,
{
    reveal(arithmetic_code);
    broadcast use group_helper_lengths;

}

#[verifier::spinoff_prover]
proof fn lemma_carry_add_length(ins: Ins, n: nat)
    ensures
        carry_add_code(ins, n).len() <= 512,
{
    reveal(carry_add_code);
    broadcast use group_helper_lengths;

}

#[verifier::spinoff_prover]
proof fn lemma_carry_sub_length(ins: Ins, n: nat)
    ensures
        carry_sub_code(ins, n).len() <= 512,
{
    reveal(carry_sub_code);
    broadcast use group_helper_lengths;

}

#[verifier::spinoff_prover]
proof fn lemma_logic_length(ins: Ins, n: nat)
    ensures
        logic_code(ins, n).len() <= 512,
{
    reveal(logic_code);
    broadcast use group_helper_lengths;

}

#[verifier::spinoff_prover]
proof fn lemma_shift_length(ins: Ins, n: nat)
    ensures
        shift_code(ins, n).len() <= 512,
{
    reveal(shift_code);
    broadcast use group_helper_lengths;

}

#[verifier::spinoff_prover]
proof fn lemma_load_length(ins: Ins, n: nat)
    ensures
        load_code(ins, n).len() <= 512,
{
    reveal(load_code);
    broadcast use group_helper_lengths;

}

#[verifier::spinoff_prover]
proof fn lemma_store_length(ins: Ins, n: nat)
    ensures
        store_code(ins, n).len() <= 512,
{
    reveal(store_code);
    broadcast use group_helper_lengths;

}

#[verifier::spinoff_prover]
proof fn lemma_float_load_length(ins: Ins, n: nat)
    ensures
        float_load_code(ins, n).len() <= 512,
{
    reveal(float_load_code);
    broadcast use group_helper_lengths;

}

#[verifier::spinoff_prover]
proof fn lemma_float_store_length(ins: Ins, n: nat)
    ensures
        float_store_code(ins, n).len() <= 512,
{
    reveal(float_store_code);
    broadcast use group_helper_lengths;

}

#[verifier::spinoff_prover]
proof fn lemma_scalar_length(ins: Ins, n: nat)
    ensures
        scalar_code(ins, n).len() <= 512,
{
    reveal(scalar_code);
    broadcast use group_helper_lengths;

}

#[verifier::spinoff_prover]
proof fn lemma_paired_length(ins: Ins, n: nat)
    ensures
        paired_code(ins, n).len() <= 512,
{
    reveal(paired_code);
    broadcast use group_helper_lengths;

}

#[verifier::spinoff_prover]
proof fn lemma_rotate_family_length(ins: Ins, n: nat)
    ensures
        rotate_family_code(ins, n).len() <= 512,
{
    reveal(rotate_family_code);
    broadcast use group_helper_lengths;

}

#[verifier::spinoff_prover]
proof fn lemma_compare_length(ins: Ins, n: nat)
    ensures
        compare_code(ins, n).len() <= 512,
{
    reveal(compare_code);
    broadcast use group_helper_lengths;

}

#[verifier::spinoff_prover]
proof fn lemma_fma_scalar_length(ins: Ins, n: nat)
    ensures
        fma_scalar_code(ins, n).len() <= 512,
{
    reveal(fma_scalar_code);
    broadcast use group_helper_lengths;

}

#[verifier::spinoff_prover]
proof fn lemma_fma_paired_length(ins: Ins, n: nat)
    ensures
        fma_paired_code(ins, n).len() <= 512,
{
    reveal(fma_paired_code);
    broadcast use group_helper_lengths;

}

#[verifier::spinoff_prover]
proof fn lemma_estimate_length(ins: Ins, n: nat)
    ensures
        estimate_code(ins, n).len() <= 512,
{
    reveal(estimate_code);
    broadcast use group_helper_lengths;

}

#[verifier::spinoff_prover]
proof fn lemma_condition_length(ins: Ins, n: nat)
    ensures
        condition_code(ins, n).len() <= 512,
{
    reveal(condition_code);
    broadcast use group_helper_lengths;

}

#[verifier::spinoff_prover]
proof fn lemma_system_length(ins: Ins, n: nat)
    ensures
        system_code(ins, n).len() <= 512,
{
    reveal(system_code);
    broadcast use group_helper_lengths;

}

#[verifier::spinoff_prover]
proof fn lemma_bulk_length(ins: Ins, n: nat)
    ensures
        bulk_code(ins, n).len() <= 512,
{
    reveal(bulk_code);
    let ea = local_at(n + 1, IrTy::I32);
    ins.lemma_register_fields();
    lemma_multiple_length(ins.gpr_d(), ins.gpr_a(), ins.field_offset() as i32, 32);
    lemma_zero_length(ea, 8);
    lemma_zero_length(ea, 32);
    lemma_string_length(ins.gpr_d(), ea, string_length(ins));
    lemma_string_length(ins.gpr_d(), ea, (string_length(ins) + 3) / 4);
}

/// One guest instruction becomes at most 512 IR instructions.
#[verifier::spinoff_prover]
#[verifier::rlimit(60)]
pub proof fn translation_length(ins: Ins, pc: u32, n: nat)
    ensures
        translate(ins, pc, n).len() <= 512,
{
    reveal(branch_code);
    reveal(float_compare_code);
    reveal(leave_code);
    lemma_arithmetic_length(ins, n);
    lemma_carry_add_length(ins, n);
    lemma_carry_sub_length(ins, n);
    lemma_logic_length(ins, n);
    lemma_shift_length(ins, n);
    lemma_load_length(ins, n);
    lemma_store_length(ins, n);
    lemma_float_load_length(ins, n);
    lemma_float_store_length(ins, n);
    lemma_scalar_length(ins, n);
    lemma_paired_length(ins, n);
    lemma_rotate_family_length(ins, n);
    lemma_compare_length(ins, n);
    lemma_fma_scalar_length(ins, n);
    lemma_fma_paired_length(ins, n);
    lemma_estimate_length(ins, n);
    lemma_condition_length(ins, n);
    lemma_system_length(ins, n);
    lemma_bulk_length(ins, n);
    assert(float_compare_code(ins, true, n).len() <= 512);
    assert(float_compare_code(ins, false, n).len() <= 512);
    assert(branch_code(ins, pc, n).len() <= 512);
    assert(leave_code(ins, pc).len() <= 512);
}

proof fn lemma_all_length(instructions: Seq<(u32, Ins)>)
    ensures
        translate_all(instructions).insts.len() <= 512 * instructions.len(),
        translate_all(instructions).cycles <= 19 * instructions.len(),
    decreases instructions.len(),
{
    if instructions.len() > 0 {
        let init = instructions.drop_last();
        let last = instructions.last();
        lemma_all_length(init);
        translation_length(last.1, last.0, translate_all(init).locals.len());
    }
}

/// A block of `k` guest instructions has at most `512 k + 1` IR instructions and at
/// most `16 k` locals, and takes at most `19 k` cycles.
pub proof fn decoded_length(instructions: Seq<(u32, Ins)>)
    requires
        instructions.len() > 0,
    ensures
        decoded(instructions).insts.len() <= 512 * instructions.len() + 1,
        decoded(instructions).locals.len() <= 16 * instructions.len(),
        decoded(instructions).cycles <= 19 * instructions.len(),
{
    block_is_prefix(instructions);
    let taken = instructions.take(block_length(instructions) as int);
    lemma_all_length(taken);
    locals_of_all_bounded(taken);
}

/// What an instruction costs: logical operations and moves of special registers one
/// cycle, products three, quotients nineteen, and the transfers of several registers ten;
/// sums, comparisons, shifts, branches, loads and stores two.
pub proof fn instructions_have_their_cost(op: Opcode)
    ensures
        op is And || op is Andc || op is Andi_ || op is Andis_ || op is Or || op is Orc || op is Ori
            || op is Oris || op is Xor || op is Xori || op is Xoris || op is Eqv || op is Nand
            || op is Nor || op is Mfspr || op is Mtspr || op is Mfmsr || op is Mtmsr || op is Mfcr
            || op is Mtcrf || op is Mftb || op is Crand || op is Crandc || op is Creqv
            || op is Crnand || op is Crnor || op is Cror || op is Crorc || op is Crxor
            ==> cycle_cost(op) == 1,
        op is Mulli || op is Mullw || op is Mulhw || op is Mulhwu ==> cycle_cost(op) == 3,
        op is Divw || op is Divwu ==> cycle_cost(op) == 19,
        op is Lmw || op is Stmw || op is Lswi || op is Stswi ==> cycle_cost(op) == 10,
        op is Add || op is Addi || op is Addis || op is Subf || op is Neg || op is Cmp || op is Cmpi
            || op is Cmpl || op is Cmpli || op is Slw || op is Srw || op is Sraw || op is Srawi
            || op is Rlwinm || op is Rlwimi || op is Rlwnm || op is B || op is Bc || op is Bclr
            || op is Bcctr || op is Lwz || op is Lhz || op is Lbz || op is Lfs || op is Lfd
            || op is Stw || op is Sth || op is Stb || op is Stfs || op is Stfd || op is Fadd
            || op is Fmul || op is Fdiv || op is Sc || op is Rfi ==> cycle_cost(op) == 2,
{
}

/// Blocks end with the instructions that leave them, and with no other: branches, the
/// return from an exception, a change of the machine state, a system call, and what has no
/// translation.
pub proof fn blocks_end_where_they_leave(op: Opcode)
    ensures
        ends_block(op) <==> op is B || op is Bc || op is Bclr || op is Bcctr || op is Rfi
            || op is Mtmsr || op is Sc || op is Illegal || op is Other,
{
}

} // verus!
