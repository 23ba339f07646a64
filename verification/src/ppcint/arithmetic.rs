//! Integer arithmetic.

use vstd::prelude::*;

use super::compare::update_cr0;
use super::system::{
    bit, put_bit, test_bit, with_bit, System, SystemView, XER_CA, XER_OV, XER_SO,
};
use crate::disasm::Ins;

verus! {

/// Left operand of an addition.
#[derive(Clone, Copy, PartialEq, Eq, Structural)]
pub enum AddLhs {
    RA,
    ZeroOrRA,
}

/// Right operand of an addition.
#[derive(Clone, Copy, PartialEq, Eq, Structural)]
pub enum AddRhs {
    RB,
    Imm,
    ShiftedImm,
    Zero,
}

/// Which addition an instruction is.
#[derive(Clone, Copy, PartialEq, Eq, Structural)]
pub struct AddOp {
    pub lhs: AddLhs,
    pub rhs: AddRhs,
    /// Add the carry flag.
    pub extend: bool,
    /// Record the sign of the result.
    pub record: bool,
    /// Set the carry flag.
    pub carry: bool,
    /// Set the overflow flags.
    pub overflow: bool,
}

/// Sign-extended immediate operand.
pub open spec fn immediate(ins: Ins) -> u32 {
    ins.field_simm() as i32 as u32
}

/// Immediate operand in the upper halfword.
pub open spec fn shifted_immediate(ins: Ins) -> u32 {
    ((ins.field_simm() as i32) << 16u32) as u32
}

/// Whether `word` is negative as a signed value.
pub open spec fn negative(word: u32) -> bool {
    word >= 0x8000_0000
}

/// `value` modulo the size of a word.
pub open spec fn wrapped(value: int) -> u32 {
    (value % 0x1_0000_0000) as u32
}

/// XER with the overflow flag set to `overflow`; the summary flag sticks.
pub open spec fn xer_with_overflow(xer: u32, overflow: bool) -> u32 {
    let flagged = with_bit(xer, XER_OV, overflow);
    if overflow {
        with_bit(flagged, XER_SO, true)
    } else {
        flagged
    }
}

impl SystemView {
    /// Left operand of an addition.
    pub open spec fn add_lhs(self, ins: Ins, lhs: AddLhs) -> u32 {
        match lhs {
            AddLhs::RA => self.gpr(ins.gpr_a()),
            AddLhs::ZeroOrRA => self.gpr_or_zero(ins.gpr_a()),
        }
    }

    /// Right operand of an addition.
    pub open spec fn add_rhs(self, ins: Ins, rhs: AddRhs) -> u32 {
        match rhs {
            AddRhs::RB => self.gpr(ins.gpr_b()),
            AddRhs::Imm => immediate(ins),
            AddRhs::ShiftedImm => shifted_immediate(ins),
            AddRhs::Zero => 0,
        }
    }

    /// 1 if the carry flag is set, else 0.
    pub open spec fn carry_in(self) -> int {
        if bit(self.cpu.xer, XER_CA) {
            1
        } else {
            0
        }
    }

    /// What an addition leaves: the sum in the destination register, its carry,
    /// its signed overflow and its sign where the instruction asks for them.
    pub open spec fn added(self, ins: Ins, op: AddOp) -> SystemView {
        let lhs = self.add_lhs(ins, op.lhs);
        let rhs = self.add_rhs(ins, op.rhs);
        let sum = lhs + rhs + if op.extend { self.carry_in() } else { 0 };
        let result = wrapped(sum);
        let overflow = negative(lhs) == negative(rhs) && negative(result) != negative(lhs);
        let s1 = if op.overflow {
            self.with_xer(xer_with_overflow(self.cpu.xer, overflow))
        } else {
            self
        };
        let s2 = if op.carry {
            s1.with_xer(with_bit(s1.cpu.xer, XER_CA, sum >= 0x1_0000_0000))
        } else {
            s1
        };
        let s3 = if op.record {
            s2.recorded(result)
        } else {
            s2
        };
        s3.with_gpr(ins.gpr_d(), result)
    }

    /// What a subtraction leaves: the difference in the destination register,
    /// less one for a clear carry flag if it extends, and the absence of a
    /// borrow in the carry flag.
    pub open spec fn subtracted(
        self,
        ins: Ins,
        lhs: u32,
        rhs: u32,
        extend: bool,
        carry: bool,
    ) -> SystemView {
        let difference = lhs - rhs - if extend { 1 - self.carry_in() } else { 0 };
        let done = self.with_gpr(ins.gpr_d(), wrapped(difference));
        if carry {
            done.with_xer(with_bit(done.cpu.xer, XER_CA, difference >= 0))
        } else {
            done
        }
    }

    /// What a product leaves: the low word of it in the destination register,
    /// whether the signed product does not fit, and the sign of the word.
    pub open spec fn multiplied(
        self,
        ins: Ins,
        rhs: u32,
        record: bool,
        overflow: bool,
    ) -> SystemView {
        let product = (self.gpr(ins.gpr_a()) as i32) * (rhs as i32);
        let result = product as i64 as u32;
        let s1 = if overflow {
            self.with_xer(xer_with_overflow(self.cpu.xer, product != result as i32))
        } else {
            self
        };
        let s2 = if record {
            s1.recorded(result)
        } else {
            s1
        };
        s2.with_gpr(ins.gpr_d(), result)
    }

    /// A result in the destination register, with its sign recorded if the
    /// instruction asks for it.
    pub open spec fn with_result(self, ins: Ins, result: u32) -> SystemView {
        let done = self.with_gpr(ins.gpr_d(), result);
        if ins.field_rc() {
            done.recorded(result)
        } else {
            done
        }
    }

    /// What negation leaves: negating the least value sets the overflow flags if
    /// they are asked for.
    pub open spec fn negated(self, ins: Ins) -> SystemView {
        let a = self.gpr(ins.gpr_a());
        let flagged = if ins.field_oe() && a == 0x8000_0000 {
            self.with_xer(xer_with_overflow(self.cpu.xer, true))
        } else {
            self
        };
        flagged.with_result(ins, wrapped(-(a as int)))
    }

    /// What a quotient leaves; one that does not exist is 0 and an overflow.
    pub open spec fn divided(self, ins: Ins, quotient: Option<u32>) -> SystemView {
        let result = match quotient {
            Some(q) => q,
            None => 0,
        };
        let s1 = if ins.field_oe() {
            self.with_xer(xer_with_overflow(self.cpu.xer, quotient is None))
        } else {
            self
        };
        let s2 = if ins.field_rc() {
            s1.recorded(result)
        } else {
            s1
        };
        s2.with_gpr(ins.gpr_d(), result)
    }
}

/// Quotient rounded toward zero.
pub open spec fn truncated_quotient(lhs: int, rhs: int) -> int {
    let magnitude = (if lhs < 0 { -lhs } else { lhs }) / (if rhs < 0 { -rhs } else { rhs });
    if (lhs < 0) == (rhs < 0) {
        magnitude
    } else {
        -magnitude
    }
}

/// The signed quotient of two words, if it exists and fits.
pub open spec fn signed_quotient(lhs: u32, rhs: u32) -> Option<u32> {
    if rhs == 0 || (lhs == 0x8000_0000 && rhs == 0xFFFF_FFFF) {
        None
    } else {
        Some(wrapped(truncated_quotient((lhs as i32) as int, (rhs as i32) as int)))
    }
}

/// The unsigned quotient of two words, if it exists.
pub open spec fn unsigned_quotient(lhs: u32, rhs: u32) -> Option<u32> {
    if rhs == 0 {
        None
    } else {
        Some(lhs / rhs)
    }
}

fn get_simm(ins: Ins) -> (value: u32)
    ensures
        value == immediate(ins),
{
    ins.field_simm() as i32 as u32
}

fn set_overflow(sys: &mut System, overflow: bool)
    ensures
        final(sys)@ == old(sys)@.with_xer(xer_with_overflow(old(sys)@.cpu.xer, overflow)),
{
    sys.cpu.xer = put_bit(sys.cpu.xer, XER_OV, overflow);
    if overflow {
        sys.cpu.xer = put_bit(sys.cpu.xer, XER_SO, true);
    }
}

fn set_carry(sys: &mut System, carry: bool)
    ensures
        final(sys)@ == old(sys)@.with_xer(with_bit(old(sys)@.cpu.xer, XER_CA, carry)),
{
    sys.cpu.xer = put_bit(sys.cpu.xer, XER_CA, carry);
}

fn execute_add(ins: Ins, sys: &mut System, op: AddOp)
    ensures
        final(sys)@ == old(sys)@.added(ins, op),
{
    proof {
        ins.lemma_register_fields();
    }
    let lhs: u32 = match op.lhs {
        AddLhs::RA => sys.gpr(ins.gpr_a()),
        AddLhs::ZeroOrRA => sys.gpr_or_zero(ins.gpr_a()),
    };
    let rhs: u32 = match op.rhs {
        AddRhs::RB => sys.gpr(ins.gpr_b()),
        AddRhs::Imm => get_simm(ins),
        AddRhs::ShiftedImm => ((ins.field_simm() as i32) << 16u32) as u32,
        AddRhs::Zero => 0,
    };
    let cin: u64 = if op.extend && test_bit(sys.cpu.xer, XER_CA) { 1 } else { 0 };
    let sum: u64 = lhs as u64 + rhs as u64 + cin;
    let result: u32 = (sum % 0x1_0000_0000) as u32;
    let overflow: bool = (lhs >= 0x8000_0000) == (rhs >= 0x8000_0000) && (result >= 0x8000_0000)
        != (lhs >= 0x8000_0000);
    if op.overflow {
        set_overflow(sys, overflow);
    }
    if op.carry {
        set_carry(sys, sum >= 0x1_0000_0000);
    }
    if op.record {
        update_cr0(result, sys);
    }
    sys.set_gpr(ins.gpr_d(), result);
}

/// `rd = ra + rb`
pub fn add(ins: Ins, sys: &mut System)
    ensures
        final(sys)@ == old(sys)@.added(
            ins,
            (AddOp {
                overflow: ins.field_oe(),
                ..plain_add(AddLhs::RA, AddRhs::RB, ins.field_rc(), false)
            }),
        ),
{
    let op = AddOp {
        lhs: AddLhs::RA,
        rhs: AddRhs::RB,
        extend: false,
        record: ins.field_rc(),
        carry: false,
        overflow: ins.field_oe(),
    };
    execute_add(ins, sys, op);
}

/// The addition that `adde` and `addc` perform: both add the carry flag and set
/// it.
pub open spec fn extended_add(ins: Ins) -> AddOp {
    AddOp {
        lhs: AddLhs::RA,
        rhs: AddRhs::RB,
        extend: true,
        record: ins.field_rc(),
        carry: true,
        overflow: ins.field_oe(),
    }
}

/// `rd = ra + rb + carry`
pub fn adde(ins: Ins, sys: &mut System)
    ensures
        final(sys)@ == old(sys)@.added(ins, extended_add(ins)),
{
    let op = AddOp {
        lhs: AddLhs::RA,
        rhs: AddRhs::RB,
        extend: true,
        record: ins.field_rc(),
        carry: true,
        overflow: ins.field_oe(),
    };
    execute_add(ins, sys, op);
}

/// `rd = ra + rb + carry`
pub fn addc(ins: Ins, sys: &mut System)
    ensures
        final(sys)@ == old(sys)@.added(ins, extended_add(ins)),
{
    adde(ins, sys);
}

/// An addition that neither extends nor sets the overflow flags.
pub open spec fn plain_add(lhs: AddLhs, rhs: AddRhs, record: bool, carry: bool) -> AddOp {
    AddOp { lhs, rhs, extend: false, record, carry, overflow: false }
}

/// `rd = (ra or 0) + simm`
pub fn addi(ins: Ins, sys: &mut System)
    ensures
        final(sys)@ == old(sys)@.added(
            ins,
            plain_add(AddLhs::ZeroOrRA, AddRhs::Imm, false, false),
        ),
{
    let op = AddOp {
        lhs: AddLhs::ZeroOrRA,
        rhs: AddRhs::Imm,
        extend: false,
        record: false,
        carry: false,
        overflow: false,
    };
    execute_add(ins, sys, op);
}

/// `rd = ra + simm`, with carry.
pub fn addic(ins: Ins, sys: &mut System)
    ensures
        final(sys)@ == old(sys)@.added(ins, plain_add(AddLhs::RA, AddRhs::Imm, false, true)),
{
    let op = AddOp {
        lhs: AddLhs::RA,
        rhs: AddRhs::Imm,
        extend: false,
        record: false,
        carry: true,
        overflow: false,
    };
    execute_add(ins, sys, op);
}

/// `rd = ra + simm`, with carry and record.
pub fn addic_(ins: Ins, sys: &mut System)
    ensures
        final(sys)@ == old(sys)@.added(ins, plain_add(AddLhs::RA, AddRhs::Imm, true, true)),
{
    let op = AddOp {
        lhs: AddLhs::RA,
        rhs: AddRhs::Imm,
        extend: false,
        record: true,
        carry: true,
        overflow: false,
    };
    execute_add(ins, sys, op);
}

/// `rd = (ra or 0) + (simm << 16)`
pub fn addis(ins: Ins, sys: &mut System)
    ensures
        final(sys)@ == old(sys)@.added(
            ins,
            plain_add(AddLhs::ZeroOrRA, AddRhs::ShiftedImm, false, false),
        ),
{
    let op = AddOp {
        lhs: AddLhs::ZeroOrRA,
        rhs: AddRhs::ShiftedImm,
        extend: false,
        record: false,
        carry: false,
        overflow: false,
    };
    execute_add(ins, sys, op);
}

/// `rd = ra + carry`, with carry.
pub fn addze(ins: Ins, sys: &mut System)
    ensures
        final(sys)@ == old(sys)@.added(
            ins,
            (AddOp { extend: true, ..plain_add(AddLhs::RA, AddRhs::Zero, false, true) }),
        ),
{
    let op = AddOp {
        lhs: AddLhs::RA,
        rhs: AddRhs::Zero,
        extend: true,
        record: false,
        carry: true,
        overflow: false,
    };
    execute_add(ins, sys, op);
}

fn execute_sub(ins: Ins, sys: &mut System, lhs: u32, rhs: u32, extend: bool, carry: bool)
    ensures
        final(sys)@ == old(sys)@.subtracted(ins, lhs, rhs, extend, carry),
{
    proof {
        ins.lemma_register_fields();
    }
    let less: u64 = if extend && !test_bit(sys.cpu.xer, XER_CA) { 1 } else { 0 };
    let taken: u64 = rhs as u64 + less;
    let result: u32 = ((0x1_0000_0000 + lhs as u64 - taken) % 0x1_0000_0000) as u32;
    sys.set_gpr(ins.gpr_d(), result);
    if carry {
        set_carry(sys, lhs as u64 >= taken);
    }
}

/// `rd = rb - ra`
pub fn subf(ins: Ins, sys: &mut System)
    ensures
        final(sys)@ == old(sys)@.subtracted(
            ins,
            old(sys)@.gpr(ins.gpr_b()),
            old(sys)@.gpr(ins.gpr_a()),
            false,
            false,
        ),
{
    proof {
        ins.lemma_register_fields();
    }
    let lhs: u32 = sys.gpr(ins.gpr_b());
    let rhs: u32 = sys.gpr(ins.gpr_a());
    execute_sub(ins, sys, lhs, rhs, false, false);
}

/// `rd = rb - ra`, with carry.
pub fn subfc(ins: Ins, sys: &mut System)
    ensures
        final(sys)@ == old(sys)@.subtracted(
            ins,
            old(sys)@.gpr(ins.gpr_b()),
            old(sys)@.gpr(ins.gpr_a()),
            false,
            true,
        ),
{
    proof {
        ins.lemma_register_fields();
    }
    let lhs: u32 = sys.gpr(ins.gpr_b());
    let rhs: u32 = sys.gpr(ins.gpr_a());
    execute_sub(ins, sys, lhs, rhs, false, true);
}

/// `rd = rb - ra - (1 - carry)`, with carry.
pub fn subfe(ins: Ins, sys: &mut System)
    ensures
        final(sys)@ == old(sys)@.subtracted(
            ins,
            old(sys)@.gpr(ins.gpr_b()),
            old(sys)@.gpr(ins.gpr_a()),
            true,
            true,
        ),
{
    proof {
        ins.lemma_register_fields();
    }
    let lhs: u32 = sys.gpr(ins.gpr_b());
    let rhs: u32 = sys.gpr(ins.gpr_a());
    execute_sub(ins, sys, lhs, rhs, true, true);
}

/// `rd = ra - simm`, with carry.
pub fn subfic(ins: Ins, sys: &mut System)
    ensures
        final(sys)@ == old(sys)@.subtracted(
            ins,
            old(sys)@.gpr(ins.gpr_a()),
            immediate(ins),
            false,
            true,
        ),
{
    proof {
        ins.lemma_register_fields();
    }
    let lhs: u32 = sys.gpr(ins.gpr_a());
    execute_sub(ins, sys, lhs, get_simm(ins), false, true);
}

/// `rd = -1 - ra - (1 - carry)`, with carry.
pub fn subfme(ins: Ins, sys: &mut System)
    ensures
        final(sys)@ == old(sys)@.subtracted(
            ins,
            0xFFFF_FFFF,
            old(sys)@.gpr(ins.gpr_a()),
            true,
            true,
        ),
{
    proof {
        ins.lemma_register_fields();
    }
    let rhs: u32 = sys.gpr(ins.gpr_a());
    execute_sub(ins, sys, 0xFFFF_FFFF, rhs, true, true);
}

/// `rd = (ra or 0) - (1 - carry)`, with carry.
pub fn subfze(ins: Ins, sys: &mut System)
    ensures
        final(sys)@ == old(sys)@.subtracted(
            ins,
            old(sys)@.gpr_or_zero(ins.gpr_a()),
            0,
            true,
            true,
        ),
{
    proof {
        ins.lemma_register_fields();
    }
    let lhs: u32 = sys.gpr_or_zero(ins.gpr_a());
    execute_sub(ins, sys, lhs, 0, true, true);
}

/// `rd = -ra`
pub fn neg(ins: Ins, sys: &mut System)
    ensures
        final(sys)@ == old(sys)@.negated(ins),
{
    proof {
        ins.lemma_register_fields();
    }
    let a: u32 = sys.gpr(ins.gpr_a());
    let result: u32 = 0u32.wrapping_sub(a);
    if ins.field_oe() && a == 0x8000_0000 {
        set_overflow(sys, true);
    }
    sys.set_gpr(ins.gpr_d(), result);
    if ins.field_rc() {
        update_cr0(result, sys);
    }
}

/// A signed product fits 64 bits.
proof fn lemma_signed_product(a: i32, b: i32)
    ensures
        -0x4000_0000_0000_0000 <= a * b <= 0x4000_0000_0000_0000,
{
    assert(-0x4000_0000_0000_0000 <= a * b <= 0x4000_0000_0000_0000) by (nonlinear_arith)
        requires
            -0x8000_0000 <= a <= 0x7FFF_FFFF,
            -0x8000_0000 <= b <= 0x7FFF_FFFF,
    ;
}

fn execute_mul(ins: Ins, sys: &mut System, rhs: u32, record: bool, overflow: bool)
    ensures
        final(sys)@ == old(sys)@.multiplied(ins, rhs, record, overflow),
{
    proof {
        ins.lemma_register_fields();
        lemma_signed_product(old(sys)@.gpr(ins.gpr_a()) as i32, rhs as i32);
    }
    let lhs_s: i64 = sys.gpr(ins.gpr_a()) as i32 as i64;
    let rhs_s: i64 = rhs as i32 as i64;
    let prod: i64 = lhs_s * rhs_s;
    let result: u32 = prod as u32;
    if overflow {
        set_overflow(sys, prod != result as i32 as i64);
    }
    if record {
        update_cr0(result, sys);
    }
    sys.set_gpr(ins.gpr_d(), result);
}

/// `rd = low word of ra * rb`
pub fn mullw(ins: Ins, sys: &mut System)
    ensures
        final(sys)@ == old(sys)@.multiplied(
            ins,
            old(sys)@.gpr(ins.gpr_b()),
            ins.field_rc(),
            ins.field_oe(),
        ),
{
    proof {
        ins.lemma_register_fields();
    }
    let rhs: u32 = sys.gpr(ins.gpr_b());
    execute_mul(ins, sys, rhs, ins.field_rc(), ins.field_oe());
}

/// `rd = low word of ra * simm`
pub fn mulli(ins: Ins, sys: &mut System)
    ensures
        final(sys)@ == old(sys)@.multiplied(ins, immediate(ins), false, false),
{
    execute_mul(ins, sys, get_simm(ins), false, false);
}

/// High word of the unsigned product of two words.
pub open spec fn unsigned_high(a: u32, b: u32) -> u32 {
    ((a * b) / 0x1_0000_0000) as u32
}

/// `rd = high word of the unsigned product`
pub fn mulhwu(ins: Ins, sys: &mut System)
    ensures
        final(sys)@ == old(sys)@.with_result(
            ins,
            unsigned_high(old(sys)@.gpr(ins.gpr_a()), old(sys)@.gpr(ins.gpr_b())),
        ),
{
    proof {
        ins.lemma_register_fields();
    }
    let a: u64 = sys.gpr(ins.gpr_a()) as u64;
    let b: u64 = sys.gpr(ins.gpr_b()) as u64;
    proof {
        assert(a * b <= 0xFFFF_FFFE_0000_0001) by (nonlinear_arith)
            requires
                0 <= a <= 0xFFFF_FFFF,
                0 <= b <= 0xFFFF_FFFF,
        ;
    }
    let result: u32 = (a * b / 0x1_0000_0000) as u32;
    sys.set_gpr(ins.gpr_d(), result);
    if ins.field_rc() {
        update_cr0(result, sys);
    }
}

/// High word of the signed product of two words.
pub open spec fn signed_high(a: u32, b: u32) -> u32 {
    ((((a as i32) * (b as i32)) as i64) >> 32u32) as u32
}

/// `rd = high word of the signed product`
pub fn mulhw(ins: Ins, sys: &mut System)
    ensures
        final(sys)@ == old(sys)@.with_result(
            ins,
            signed_high(old(sys)@.gpr(ins.gpr_a()), old(sys)@.gpr(ins.gpr_b())),
        ),
{
    proof {
        ins.lemma_register_fields();
        lemma_signed_product(
            old(sys)@.gpr(ins.gpr_a()) as i32,
            old(sys)@.gpr(ins.gpr_b()) as i32,
        );
    }
    let a: i64 = sys.gpr(ins.gpr_a()) as i32 as i64;
    let b: i64 = sys.gpr(ins.gpr_b()) as i32 as i64;
    let result: u32 = ((a * b) >> 32u32) as u32;
    sys.set_gpr(ins.gpr_d(), result);
    if ins.field_rc() {
        update_cr0(result, sys);
    }
}

fn execute_div(ins: Ins, sys: &mut System, quotient: Option<u32>)
    ensures
        final(sys)@ == old(sys)@.divided(ins, quotient),
{
    proof {
        ins.lemma_register_fields();
    }
    let (result, overflow): (u32, bool) = match quotient {
        Some(q) => (q, false),
        None => (0, true),
    };
    if ins.field_oe() {
        set_overflow(sys, overflow);
    }
    if ins.field_rc() {
        update_cr0(result, sys);
    }
    sys.set_gpr(ins.gpr_d(), result);
}

/// Magnitude and sign of a word taken as a signed value.
fn magnitude(word: u32) -> (parts: (u32, bool))
    ensures
        parts.1 == ((word as i32) < 0),
        parts.0 == if (word as i32) < 0 {
            -((word as i32) as int)
        } else {
            (word as i32) as int
        },
{
    proof {
        assert((word as i32) as int == if word >= 0x8000_0000 {
            word - 0x1_0000_0000
        } else {
            word as int
        }) by (bit_vector);
    }
    if word >= 0x8000_0000 {
        (0u32.wrapping_sub(word), true)
    } else {
        (word, false)
    }
}

/// `rd = ra / rb`, signed.
pub fn divw(ins: Ins, sys: &mut System)
    ensures
        final(sys)@ == old(sys)@.divided(
            ins,
            signed_quotient(old(sys)@.gpr(ins.gpr_a()), old(sys)@.gpr(ins.gpr_b())),
        ),
{
    proof {
        ins.lemma_register_fields();
    }
    let lhs: u32 = sys.gpr(ins.gpr_a());
    let rhs: u32 = sys.gpr(ins.gpr_b());
    if rhs == 0 || (lhs == 0x8000_0000 && rhs == 0xFFFF_FFFF) {
        execute_div(ins, sys, None);
    } else {
        let (a, a_neg) = magnitude(lhs);
        let (b, b_neg) = magnitude(rhs);
        proof {
            assert(rhs != 0 ==> (rhs as i32) != 0) by (bit_vector);
        }
        let q: u32 = a / b;
        proof {
            assert(q <= a) by (nonlinear_arith)
                requires
                    q == a / b,
                    b > 0,
            ;
        }
        if a_neg == b_neg {
            execute_div(ins, sys, Some(q));
        } else {
            execute_div(ins, sys, Some(0u32.wrapping_sub(q)));
        }
    }
}

/// `rd = ra / rb`, unsigned.
pub fn divwu(ins: Ins, sys: &mut System)
    ensures
        final(sys)@ == old(sys)@.divided(
            ins,
            unsigned_quotient(old(sys)@.gpr(ins.gpr_a()), old(sys)@.gpr(ins.gpr_b())),
        ),
{
    proof {
        ins.lemma_register_fields();
    }
    let lhs: u32 = sys.gpr(ins.gpr_a());
    let rhs: u32 = sys.gpr(ins.gpr_b());
    if rhs == 0 {
        execute_div(ins, sys, None);
    } else {
        execute_div(ins, sys, Some(lhs / rhs));
    }
}

} // verus!
