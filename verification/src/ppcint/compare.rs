//! Comparisons, the condition register and sign extension.

use vstd::prelude::*;

use super::system::{bit, nibble, test_bit, with_field, System, SystemView, XER_SO};
use crate::disasm::Ins;

verus! {

/// Bit position of condition field `field`.
pub open spec fn field_shift(field: u8) -> u32 {
    (28 - 4 * field) as u32
}

/// The two's complement value of a word.
#[verifier::allow_in_spec]
pub fn signed(word: u32) -> i32
    returns
        word as i32,
{
    word as i32
}

impl SystemView {
    /// The outcome of comparing `a` with `b` in condition field `field`.
    pub open spec fn compared(self, field: u8, a: int, b: int) -> SystemView {
        self.with_cr(
            with_field(
                self.cpu.cr,
                field_shift(field),
                nibble(a < b, a > b, a == b, bit(self.cpu.xer, XER_SO)),
            ),
        )
    }
}

/// Records the sign of `val` and the summary overflow in condition field 0.
pub fn update_cr0(val: u32, sys: &mut System)
    ensures
        final(sys)@ == old(sys)@.recorded(val),
{
    let s: i32 = val as i32;
    let so: bool = test_bit(sys.cpu.xer, XER_SO);
    sys.set_field(28, s < 0, s > 0, s == 0, so);
}

fn write_cr_field(sys: &mut System, field: u8, lt: bool, gt: bool, eq: bool)
    requires
        field < 8,
    ensures
        final(sys)@ == old(sys)@.with_cr(
            with_field(
                old(sys)@.cpu.cr,
                field_shift(field),
                nibble(lt, gt, eq, bit(old(sys)@.cpu.xer, XER_SO)),
            ),
        ),
{
    let so: bool = test_bit(sys.cpu.xer, XER_SO);
    sys.set_field(28 - 4 * (field as u32), lt, gt, eq, so);
}

fn write_compare_u(sys: &mut System, field: u8, a: u32, b: u32)
    requires
        field < 8,
    ensures
        final(sys)@ == old(sys)@.compared(field, a as int, b as int),
{
    write_cr_field(sys, field, a < b, a > b, a == b);
}

fn write_compare_s(sys: &mut System, field: u8, a: i32, b: i32)
    requires
        field < 8,
    ensures
        final(sys)@ == old(sys)@.compared(field, a as int, b as int),
{
    write_cr_field(sys, field, a < b, a > b, a == b);
}

/// Unsigned immediate operand of a comparison.
fn unsigned_immediate(ins: Ins) -> (value: u32)
    ensures
        value == ins.field_uimm(),
{
    ins.field_uimm() as u32
}

/// Signed immediate operand of a comparison.
fn signed_immediate(ins: Ins) -> (value: i32)
    ensures
        value == ins.field_simm(),
{
    ins.field_simm() as i32
}

/// Compares a register with an immediate, unsigned.
pub fn cmpli(ins: Ins, sys: &mut System)
    ensures
        final(sys)@ == old(sys)@.compared(
            ins.field_crfd(),
            int_of(old(sys)@.gpr(ins.gpr_a())),
            half_of(ins.field_uimm()),
        ),
{
    proof {
        ins.lemma_register_fields();
    }
    let a: u32 = sys.gpr(ins.gpr_a());
    write_compare_u(sys, ins.field_crfd(), a, unsigned_immediate(ins));
}

/// A word as an integer.
pub open spec fn int_of(word: u32) -> int {
    word as int
}

/// A halfword as an integer.
pub open spec fn half_of(half: u16) -> int {
    half as int
}

/// A word as a signed integer.
pub open spec fn signed_int(word: u32) -> int {
    signed(word) as int
}

/// A signed halfword as an integer.
pub open spec fn signed_half(half: i16) -> int {
    half as int
}

/// Compares two registers, unsigned.
pub fn cmpl(ins: Ins, sys: &mut System)
    ensures
        final(sys)@ == old(sys)@.compared(
            ins.field_crfd(),
            int_of(old(sys)@.gpr(ins.gpr_a())),
            int_of(old(sys)@.gpr(ins.gpr_b())),
        ),
{
    proof {
        ins.lemma_register_fields();
    }
    let a: u32 = sys.gpr(ins.gpr_a());
    let b: u32 = sys.gpr(ins.gpr_b());
    write_compare_u(sys, ins.field_crfd(), a, b);
}

/// Compares a register with an immediate, signed.
pub fn cmpi(ins: Ins, sys: &mut System)
    ensures
        final(sys)@ == old(sys)@.compared(
            ins.field_crfd(),
            signed_int(old(sys)@.gpr(ins.gpr_a())),
            signed_half(ins.field_simm()),
        ),
{
    proof {
        ins.lemma_register_fields();
    }
    let a: u32 = sys.gpr(ins.gpr_a());
    write_compare_s(sys, ins.field_crfd(), signed(a), signed_immediate(ins));
}

/// Compares two registers, signed.
pub fn cmp(ins: Ins, sys: &mut System)
    ensures
        final(sys)@ == old(sys)@.compared(
            ins.field_crfd(),
            signed_int(old(sys)@.gpr(ins.gpr_a())),
            signed_int(old(sys)@.gpr(ins.gpr_b())),
        ),
{
    proof {
        ins.lemma_register_fields();
    }
    let a: u32 = sys.gpr(ins.gpr_a());
    let b: u32 = sys.gpr(ins.gpr_b());
    write_compare_s(sys, ins.field_crfd(), signed(a), signed(b));
}

/// The low halfword of `word`, sign-extended.
pub open spec fn extended16(word: u32) -> u32 {
    word as i16 as i32 as u32
}

/// The low byte of `word`, sign-extended.
pub open spec fn extended8(word: u32) -> u32 {
    word as i8 as i32 as u32
}

impl SystemView {
    /// `value` in register `r`, with its sign recorded if `rc` is set.
    pub open spec fn stored(self, r: u8, value: u32, rc: bool) -> SystemView {
        let done = self.with_gpr(r, value);
        if rc {
            done.recorded(value)
        } else {
            done
        }
    }
}

/// Stores `value` in register `r` and records its sign if `rc` is set.
pub fn store_result(sys: &mut System, r: u8, value: u32, rc: bool)
    requires
        r < 32,
    ensures
        final(sys)@ == old(sys)@.stored(r, value, rc),
{
    sys.set_gpr(r, value);
    if rc {
        update_cr0(value, sys);
    }
}

/// `ra = rs`, sign-extended from a halfword.
pub fn extsh(ins: Ins, sys: &mut System)
    ensures
        final(sys)@ == old(sys)@.stored(
            ins.gpr_a(),
            extended16(old(sys)@.gpr(ins.gpr_s())),
            ins.field_rc(),
        ),
{
    proof {
        ins.lemma_register_fields();
    }
    let s: u32 = sys.gpr(ins.gpr_s());
    store_result(sys, ins.gpr_a(), s as i16 as i32 as u32, ins.field_rc());
}

/// `rd = rs`, sign-extended from a byte; both name the same field of the word.
pub fn extsb(ins: Ins, sys: &mut System)
    ensures
        final(sys)@ == old(sys)@.stored(
            ins.gpr_d(),
            extended8(old(sys)@.gpr(ins.gpr_s())),
            ins.field_rc(),
        ),
{
    proof {
        ins.lemma_register_fields();
    }
    let s: u32 = sys.gpr(ins.gpr_s());
    store_result(sys, ins.gpr_d(), s as i8 as i32 as u32, ins.field_rc());
}

} // verus!
