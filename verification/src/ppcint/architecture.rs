//! What the interpreter's instructions do, in numbers.
//!
//! Registers are numbers below 2 to the 32nd. A flag is a bit by its weight: bit 31 of
//! the condition register is the first flag of its first field, and the exception
//! register holds the summary overflow in bit 31, the overflow in bit 30 and the carry in
//! bit 29.

use vstd::prelude::*;

use super::arithmetic::{
    extended_add, immediate, negative, plain_add, wrapped, xer_with_overflow, AddLhs, AddOp, AddRhs,
};
use super::interpreter::effect;
use super::logic::{rotate_moves_bits, rotated};
use super::system::{bit, physical, with_bit, with_field, CpuView, Fault, SystemView};
use crate::bits::{double_arithmetic, word_arithmetic};
use crate::bytes::{byte_digits, byte_order, low_address};
use crate::disasm::{constant_places, constants_as_words, Extensions, Ins, Opcode};
use crate::gekko::Exception;
use crate::ppcir::translate::{msb_bit, rotate_mask, rotate_mask_selects};

verus! {

/// A word as a signed number.
pub open spec fn signed_value(word: u32) -> int {
    if word < 0x8000_0000 {
        word as int
    } else {
        word - 0x1_0000_0000
    }
}

proof fn lemma_signed_word(word: u32)
    ensures
        (word as i32) == signed_value(word),
{
    word_arithmetic(word);
}

/// Whether a number is one that a signed word can hold.
pub open spec fn fits_signed(value: int) -> bool {
    -0x8000_0000 <= value < 0x8000_0000
}

/// Whether nothing but register `rd` and the two registers with flags has changed, and
/// register `rd` holds `value` modulo the size of a word.
pub open spec fn sets_register(sys: SystemView, after: SystemView, rd: u8, value: int) -> bool {
    after == (SystemView {
        cpu: CpuView {
            gpr: sys.cpu.gpr.update(rd as int, (value % 0x1_0000_0000) as u32),
            xer: after.cpu.xer,
            cr: after.cpu.cr,
            ..sys.cpu
        },
        ..sys
    })
}

/// Whether bits `from` up to `to` of two words are the same.
pub open spec fn same_bits(before: u32, after: u32, from: u32, to: u32) -> bool {
    forall|i: u32| from <= i < to ==> #[trigger] bit(after, i) == bit(before, i)
}

/// Whether the carry flag is `carry` and no other flag has changed.
pub open spec fn sets_carry(before: u32, after: u32, carry: bool) -> bool {
    &&& bit(after, 29) == carry
    &&& same_bits(before, after, 0, 29)
    &&& same_bits(before, after, 30, 32)
}

/// Whether the overflow flag is `overflow`, the summary flag has become set if it is, and
/// no flag below them has changed but perhaps the carry.
pub open spec fn sets_overflow(before: u32, after: u32, overflow: bool) -> bool {
    &&& bit(after, 30) == overflow
    &&& bit(after, 31) == (bit(before, 31) || overflow)
    &&& same_bits(before, after, 0, 29)
}

/// Whether condition field `field`, of which field 0 is the most significant, tells how
/// `a` and `b` compare, with the summary overflow, and no other field has changed.
pub open spec fn tells(before: u32, after: u32, field: u8, a: int, b: int, so: bool) -> bool {
    let low = (28 - 4 * field) as u32;
    &&& bit(after, (low + 3) as u32) == (a < b)
    &&& bit(after, (low + 2) as u32) == (a > b)
    &&& bit(after, (low + 1) as u32) == (a == b)
    &&& bit(after, low) == so
    &&& same_bits(before, after, 0, low)
    &&& same_bits(before, after, (low + 4) as u32, 32)
}

/// Whether the sign of `value` was recorded in condition field 0, if it was asked for.
pub open spec fn records(sys: SystemView, after: SystemView, rc: bool, value: u32) -> bool {
    if rc {
        tells(sys.cpu.cr, after.cpu.cr, 0, signed_value(value), 0, bit(after.cpu.xer, 31))
    } else {
        after.cpu.cr == sys.cpu.cr
    }
}

/// Bits of words, one by one.
proof fn lemma_set_bits(
    word: u32,
    p: u32,
    q: u32,
    n: u32,
    x: u32,
    y: u32,
    l: bool,
    g: bool,
    e: bool,
    s: bool,
)
    by (bit_vector)
    requires
        p < 32,
        q < 32,
        n < 32,
    ensures
        (((word | (1u32 << p)) >> q) & 1 != 0) == (if p == q {
            true
        } else {
            (word >> q) & 1 != 0
        }),
        (((word & !(1u32 << p)) >> q) & 1 != 0) == (if p == q {
            false
        } else {
            (word >> q) & 1 != 0
        }),
        p <= 28 ==> ((((word & !(0xFu32 << p)) | (((if l {
            8u32
        } else {
            0
        }) | (if g {
            4u32
        } else {
            0
        }) | (if e {
            2u32
        } else {
            0
        }) | (if s {
            1u32
        } else {
            0
        })) << p)) >> q) & 1 != 0) == (if q == p + 3 {
            l
        } else if q == p + 2 {
            g
        } else if q == p + 1 {
            e
        } else if q == p {
            s
        } else {
            (word >> q) & 1 != 0
        }),
        (((x & y) >> q) & 1 != 0) == ((x >> q) & 1 != 0 && (y >> q) & 1 != 0),
        (((x | y) >> q) & 1 != 0) == ((x >> q) & 1 != 0 || (y >> q) & 1 != 0),
        (((x ^ y) >> q) & 1 != 0) == (((x >> q) & 1 != 0) != ((y >> q) & 1 != 0)),
        (((!x) >> q) & 1 != 0) == !((x >> q) & 1 != 0),
        (((x << n) >> q) & 1 != 0) == (q >= n && (x >> ((q - n) as u32)) & 1 != 0),
        (((((x as i32) >> n) as u32) >> q) & 1 != 0) == ((x >> (if q + n < 32 {
            (q + n) as u32
        } else {
            31u32
        })) & 1 != 0),
        x & 0x1F == x % 32,
        x < 0x1_0000 ==> x << 16 == 0x1_0000 * x,
        ((y >> q) & 1 != 0) == ((y >> q) & 1 == 1),
        word & 0xFFFF_FFFC == word - word % 4,
        (word & 2 != 0) == (word / 2 % 2 == 1),
        (word & 4 != 0) == (word / 4 % 2 == 1),
        (word & 8 != 0) == (word / 8 % 2 == 1),
        (word & 16 != 0) == (word / 16 % 2 == 1),
        (word & 0xFF) as u8 == word % 0x100,
        (((word & 0xFFFF) as u16) >> 8) as u8 == word / 0x100 % 0x100,
        (((word & 0xFFFF) as u16) & 0xFF) as u8 == word % 0x100,
        word < 0x2000 ==> 0xFFF0_0000u32 | word == 0xFFF0_0000 + word,
        ((word as i16) as i32) as u32 == (if word % 0x1_0000 < 0x8000 {
            (word % 0x1_0000) as int
        } else {
            word % 0x1_0000 + 0xFFFF_0000
        }),
        ((word as i8) as i32) as u32 == (if word % 0x100 < 0x80 {
            (word % 0x100) as int
        } else {
            word % 0x100 + 0xFFFF_FF00
        }),
        (word & 0x40 != 0) == ((word >> 6) & 1 != 0),
        ((((word & 0x0001_1040) | ((word >> 16) & 1)) >> q) & 1 != 0) == (if q == 0 {
            (word >> 16) & 1 != 0
        } else {
            (q == 6 || q == 12 || q == 16) && (word >> q) & 1 != 0
        }),
{
}

/// Setting a bit of a word sets that bit and no other.
pub proof fn set_bit_is_set(word: u32, position: u32, value: bool)
    requires
        position < 32,
    ensures
        bit(with_bit(word, position, value), position) == value,
        same_bits(word, with_bit(word, position, value), 0, position),
        same_bits(word, with_bit(word, position, value), (position + 1) as u32, 32),
{
    let after = with_bit(word, position, value);
    assert forall|i: u32| i < 32 implies #[trigger] bit(after, i) == if i == position {
        value
    } else {
        bit(word, i)
    } by {
        lemma_set_bits(word, position, i, 0, 0, 0, false, false, false, false);
    }
}

/// A comparison in a condition field can be read off that field and changes no other.
proof fn lemma_tells(cr: u32, field: u8, a: int, b: int, so: bool)
    requires
        field < 8,
    ensures
        tells(
            cr,
            with_field(
                cr,
                (28 - 4 * field) as u32,
                super::system::nibble(a < b, a > b, a == b, so),
            ),
            field,
            a,
            b,
            so,
        ),
{
    let low = (28 - 4 * field) as u32;
    let after = with_field(cr, low, super::system::nibble(a < b, a > b, a == b, so));
    assert forall|i: u32| i < 32 implies #[trigger] bit(after, i) == if i == low + 3 {
        a < b
    } else if i == low + 2 {
        a > b
    } else if i == low + 1 {
        a == b
    } else if i == low {
        so
    } else {
        bit(cr, i)
    } by {
        lemma_set_bits(cr, low, i, 0, 0, 0, a < b, a > b, a == b, so);
    }
}

proof fn lemma_records(sys: SystemView, value: u32)
    ensures
        tells(
            sys.cpu.cr,
            sys.recorded(value).cpu.cr,
            0,
            signed_value(value),
            0,
            bit(sys.cpu.xer, 31),
        ),
{
    lemma_signed_word(value);
    lemma_tells(sys.cpu.cr, 0, signed_value(value), 0, bit(sys.cpu.xer, 31));
}

proof fn lemma_overflow(xer: u32, overflow: bool)
    ensures
        sets_overflow(xer, xer_with_overflow(xer, overflow), overflow),
        bit(xer_with_overflow(xer, overflow), 29) == bit(xer, 29),
{
    set_bit_is_set(xer, 30, overflow);
    set_bit_is_set(with_bit(xer, 30, overflow), 31, true);
}

/// Whether `after` holds the sum of two words in register `rd`, modulo the size of a
/// word. The carry is taken in if `carry_in` is set and left if `carry_out` is: then it
/// says whether the words as unsigned numbers give more than a word holds. The overflow
/// says whether they do as signed numbers, if `oe` asks for it, and `rc` asks for the sign.
#[verifier::opaque]
pub open spec fn is_sum(
    sys: SystemView,
    after: SystemView,
    rd: u8,
    lhs: u32,
    rhs: u32,
    carry_in: bool,
    carry_out: bool,
    oe: bool,
    rc: bool,
) -> bool {
    let carry: int = if carry_in && bit(sys.cpu.xer, 29) {
        1
    } else {
        0
    };
    let sum = lhs + rhs + carry;
    &&& sets_register(sys, after, rd, sum)
    &&& bit(after.cpu.xer, 29) == if carry_out {
        sum >= 0x1_0000_0000
    } else {
        bit(sys.cpu.xer, 29)
    }
    &&& same_bits(sys.cpu.xer, after.cpu.xer, 0, 29)
    &&& oe ==> sets_overflow(
        sys.cpu.xer,
        after.cpu.xer,
        !fits_signed(signed_value(lhs) + signed_value(rhs) + carry),
    )
    &&& !oe ==> same_bits(sys.cpu.xer, after.cpu.xer, 30, 32)
    &&& records(sys, after, rc, (sum % 0x1_0000_0000) as u32)
}

proof fn lemma_added(ins: Ins, sys: SystemView, op: AddOp)
    ensures
        is_sum(
            sys,
            sys.added(ins, op),
            ins.gpr_d(),
            sys.add_lhs(ins, op.lhs),
            sys.add_rhs(ins, op.rhs),
            op.extend,
            op.carry,
            op.overflow,
            op.record,
        ),
{
    reveal(is_sum);
    let lhs = sys.add_lhs(ins, op.lhs);
    let rhs = sys.add_rhs(ins, op.rhs);
    let sum = lhs + rhs + if op.extend {
        sys.carry_in()
    } else {
        0
    };
    let result = wrapped(sum);
    let overflow = negative(lhs) == negative(rhs) && negative(result) != negative(lhs);
    assert(overflow == !fits_signed(
        signed_value(lhs) + signed_value(rhs) + (if op.extend {
            sys.carry_in()
        } else {
            0
        }),
    ));
    let x0 = sys.cpu.xer;
    let x1 = if op.overflow {
        xer_with_overflow(x0, overflow)
    } else {
        x0
    };
    lemma_overflow(x0, overflow);
    let x2 = if op.carry {
        with_bit(x1, 29, sum >= 0x1_0000_0000)
    } else {
        x1
    };
    set_bit_is_set(x1, 29, sum >= 0x1_0000_0000);
    let s2 = sys.with_xer(x2);
    lemma_records(s2, result);
    assert(sys.added(ins, op) == (if op.record {
        s2.recorded(result)
    } else {
        s2
    }).with_gpr(ins.gpr_d(), result));
}

/// Left operand of a sum, as a number: a register, or zero for register 0 in the two
/// forms that load constants.
pub open spec fn left_term(ins: Ins, sys: SystemView) -> int {
    if (ins.op is Addi || ins.op is Addis) && ins.gpr_a() == 0 {
        0
    } else {
        sys.cpu.gpr[ins.gpr_a() as int] as int
    }
}

/// Right operand of a sum, as a number.
pub open spec fn right_term(ins: Ins, sys: SystemView) -> int {
    match ins.op {
        Opcode::Addi | Opcode::Addic | Opcode::Addic_ => ins.field_simm() as int,
        Opcode::Addis => 0x1_0000 * ins.field_simm(),
        Opcode::Addze => 0,
        _ => sys.cpu.gpr[ins.gpr_b() as int] as int,
    }
}

/// Whether a sum takes in the carry.
pub open spec fn takes_carry(ins: Ins) -> bool {
    ins.op is Addc || ins.op is Adde || ins.op is Addze
}

/// Whether a sum leaves its carry.
pub open spec fn leaves_carry(ins: Ins) -> bool {
    takes_carry(ins) || ins.op is Addic || ins.op is Addic_
}

/// Which addition a sum is.
spec fn sum_op(ins: Ins) -> AddOp {
    let rc = ins.field_rc();
    match ins.op {
        Opcode::Add => AddOp {
            overflow: ins.field_oe(),
            ..plain_add(AddLhs::RA, AddRhs::RB, rc, false)
        },
        Opcode::Addi => plain_add(AddLhs::ZeroOrRA, AddRhs::Imm, false, false),
        Opcode::Addic => plain_add(AddLhs::RA, AddRhs::Imm, false, true),
        Opcode::Addic_ => plain_add(AddLhs::RA, AddRhs::Imm, true, true),
        Opcode::Addis => plain_add(AddLhs::ZeroOrRA, AddRhs::ShiftedImm, false, false),
        Opcode::Addze => AddOp {
            extend: true,
            ..plain_add(AddLhs::RA, AddRhs::Zero, false, true)
        },
        _ => extended_add(ins),
    }
}

proof fn lemma_sum_effect(ins: Ins, sys: SystemView)
    requires
        ins.op is Add || ins.op is Addc || ins.op is Adde || ins.op is Addi || ins.op is Addic
            || ins.op is Addic_ || ins.op is Addis || ins.op is Addze,
    ensures
        effect(ins, sys) == Ok::<SystemView, Fault>(sys.added(ins, sum_op(ins))),
{
}

proof fn lemma_sum_terms(ins: Ins, sys: SystemView)
    requires
        ins.op is Add || ins.op is Addc || ins.op is Adde || ins.op is Addi || ins.op is Addic
            || ins.op is Addic_ || ins.op is Addis || ins.op is Addze,
    ensures
        left_term(ins, sys) == sys.add_lhs(ins, sum_op(ins).lhs),
        right_term(ins, sys) % 0x1_0000_0000 == sys.add_rhs(ins, sum_op(ins).rhs),
{
    constants_as_words(ins);
}

/// A sum is the sum of its operands, and of the carry where it is taken in.
pub proof fn sums_add_up(ins: Ins, sys: SystemView)
    requires
        ins.op is Add || ins.op is Addc || ins.op is Adde || ins.op is Addi || ins.op is Addic
            || ins.op is Addic_ || ins.op is Addis || ins.op is Addze,
    ensures
        effect(ins, sys) is Ok,
        ({
            let full = ins.op is Add || ins.op is Addc || ins.op is Adde;
            is_sum(
                sys,
                effect(ins, sys).unwrap(),
                ins.gpr_d(),
                left_term(ins, sys) as u32,
                (right_term(ins, sys) % 0x1_0000_0000) as u32,
                takes_carry(ins),
                leaves_carry(ins),
                full && ins.field_oe(),
                ins.op is Addic_ || full && ins.field_rc(),
            )
        }),
{
    lemma_sum_effect(ins, sys);
    lemma_sum_terms(ins, sys);
    lemma_added(ins, sys, sum_op(ins));
}

/// The two halves of the time base, read under the numbers 269 and 268, make up the time
/// base. Reading brings the time base up to the clock and changes nothing else but the
/// destination register; there is no third half.
pub proof fn time_base_has_two_halves(upper: Ins, lower: Ins, other: Ins, sys: SystemView)
    requires
        sys.cpu.gpr.len() == 32,
        upper.op is Mftb && upper.field_tbr() == 269,
        lower.op is Mftb && lower.field_tbr() == 268,
        other.op is Mftb && other.field_tbr() != 268 && other.field_tbr() != 269,
    ensures
        effect(upper, sys) is Ok,
        effect(lower, sys) is Ok,
        ({
            let u = effect(upper, sys).unwrap();
            let l = effect(lower, sys).unwrap();
            let hi = u.cpu.gpr[upper.gpr_d() as int];
            let lo = l.cpu.gpr[lower.gpr_d() as int];
            &&& hi * 0x1_0000_0000 + lo == sys.cpu.tb
            &&& u == (SystemView {
                cpu: CpuView {
                    gpr: sys.cpu.gpr.update(upper.gpr_d() as int, hi),
                    tb: sys.clock,
                    ..sys.cpu
                },
                ..sys
            })
            &&& l == (SystemView {
                cpu: CpuView {
                    gpr: sys.cpu.gpr.update(lower.gpr_d() as int, lo),
                    tb: sys.clock,
                    ..sys.cpu
                },
                ..sys
            })
        }),
        effect(other, sys) == Err::<SystemView, Fault>(Fault::InvalidTimeBase),
{
    double_arithmetic(sys.cpu.tb);
    double_arithmetic(sys.cpu.tb >> 32);
    upper.lemma_register_fields();
    lower.lemma_register_fields();
}

/// Left operand of a difference.
pub open spec fn minuend(ins: Ins, sys: SystemView) -> u32 {
    if ins.op is Subfic {
        sys.cpu.gpr[ins.gpr_a() as int]
    } else {
        sys.cpu.gpr[ins.gpr_b() as int]
    }
}

/// Right operand of a difference.
pub open spec fn subtrahend(ins: Ins, sys: SystemView) -> int {
    if ins.op is Subfic {
        (ins.field_simm() as int) % 0x1_0000_0000
    } else {
        sys.cpu.gpr[ins.gpr_a() as int] as int
    }
}

/// A difference is the second operand less the first, or less an immediate, and one less
/// for a clear carry in the extended form. But for the plain form, the carry that is left
/// says that nothing had to be borrowed.
pub proof fn differences_subtract(ins: Ins, sys: SystemView)
    requires
        ins.op is Subf || ins.op is Subfc || ins.op is Subfic || ins.op is Subfe,
    ensures
        effect(ins, sys) is Ok,
        ({
            let after = effect(ins, sys).unwrap();
            let borrow: int = if ins.op is Subfe && !bit(sys.cpu.xer, 29) {
                1
            } else {
                0
            };
            let difference = minuend(ins, sys) - subtrahend(ins, sys) - borrow;
            &&& sets_register(sys, after, ins.gpr_d(), difference)
            &&& after.cpu.cr == sys.cpu.cr
            &&& ins.op is Subf ==> after.cpu.xer == sys.cpu.xer
            &&& !(ins.op is Subf) ==> sets_carry(sys.cpu.xer, after.cpu.xer, difference >= 0)
        }),
{
    constants_as_words(ins);
    set_bit_is_set(sys.cpu.xer, 29, true);
    set_bit_is_set(sys.cpu.xer, 29, false);
}

/// A negation is the difference from zero; only the least number cannot be negated, which
/// sets the overflow flags if they are asked for.
pub proof fn negations_negate(ins: Ins, sys: SystemView)
    requires
        ins.op is Neg,
    ensures
        effect(ins, sys) is Ok,
        ({
            let after = effect(ins, sys).unwrap();
            let a = sys.cpu.gpr[ins.gpr_a() as int];
            &&& sets_register(sys, after, ins.gpr_d(), -a)
            &&& ins.field_oe() && a == 0x8000_0000 ==> sets_overflow(
                sys.cpu.xer,
                after.cpu.xer,
                true,
            )
            &&& !(ins.field_oe() && a == 0x8000_0000) ==> after.cpu.xer == sys.cpu.xer
            &&& records(sys, after, ins.field_rc(), ((-(a as int)) % 0x1_0000_0000) as u32)
        }),
{
    lemma_overflow(sys.cpu.xer, true);
    let a = sys.gpr(ins.gpr_a());
    let flagged = if ins.field_oe() && a == 0x8000_0000 {
        sys.with_xer(xer_with_overflow(sys.cpu.xer, true))
    } else {
        sys
    };
    lemma_records(flagged.with_gpr(ins.gpr_d(), wrapped(-(a as int))), wrapped(-(a as int)));
}

proof fn lemma_product(a: u32, b: u32)
    ensures
        ({
            let product = signed_value(a) * signed_value(b);
            &&& (a as i32) * (b as i32) == product
            &&& -0x4000_0000_0000_0000 <= product <= 0x4000_0000_0000_0000
            &&& product as i64 as u32 == product % 0x1_0000_0000
            &&& ((product as i64) >> 32u32) as u32 == product / 0x1_0000_0000 % 0x1_0000_0000
        }),
{
    lemma_signed_word(a);
    lemma_signed_word(b);
    let x = signed_value(a);
    let y = signed_value(b);
    assert(-0x4000_0000_0000_0000 <= x * y <= 0x4000_0000_0000_0000) by (nonlinear_arith)
        requires
            -0x8000_0000 <= x < 0x8000_0000,
            -0x8000_0000 <= y < 0x8000_0000,
    ;
    lemma_long(x * y);
}

proof fn lemma_long(p: int)
    requires
        -0x4000_0000_0000_0000 <= p <= 0x4000_0000_0000_0000,
    ensures
        p as i64 as u32 == p % 0x1_0000_0000,
        ((p as i64) >> 32u32) as u32 == p / 0x1_0000_0000 % 0x1_0000_0000,
{
    let d = (p % 0x1_0000_0000_0000_0000) as u64;
    double_arithmetic(d);
    assert(d as i64 == p);
}

/// The low and high words of a product: the first of two registers, or of a register and
/// an immediate, the others of two registers as signed or as unsigned numbers. The
/// overflow says that the signed product is more than a word holds.
#[verifier::rlimit(30)]
pub proof fn products_multiply(ins: Ins, sys: SystemView)
    requires
        ins.op is Mulli || ins.op is Mullw || ins.op is Mulhw || ins.op is Mulhwu,
    ensures
        effect(ins, sys) is Ok,
        ({
            let after = effect(ins, sys).unwrap();
            let a = sys.cpu.gpr[ins.gpr_a() as int];
            let b = sys.cpu.gpr[ins.gpr_b() as int];
            let signed = signed_value(a) * signed_value(b);
            let result = match ins.op {
                Opcode::Mulli => signed_value(a) * ins.field_simm(),
                Opcode::Mullw => signed,
                Opcode::Mulhw => signed / 0x1_0000_0000,
                _ => a * b / 0x1_0000_0000,
            };
            let oe = ins.op is Mullw && ins.field_oe();
            &&& sets_register(sys, after, ins.gpr_d(), result)
            &&& oe ==> sets_overflow(sys.cpu.xer, after.cpu.xer, !fits_signed(signed))
            &&& oe ==> bit(after.cpu.xer, 29) == bit(sys.cpu.xer, 29)
            &&& !oe ==> after.cpu.xer == sys.cpu.xer
            &&& records(
                sys,
                after,
                !(ins.op is Mulli) && ins.field_rc(),
                (result % 0x1_0000_0000) as u32,
            )
        }),
{
    let a = sys.gpr(ins.gpr_a());
    let b = sys.gpr(ins.gpr_b());
    lemma_product(a, b);
    lemma_product(a, immediate(ins));
    constants_as_words(ins);
    lemma_overflow(sys.cpu.xer, true);
    lemma_overflow(sys.cpu.xer, false);
    let signed = signed_value(a) * signed_value(b);
    let low = (signed % 0x1_0000_0000) as u32;
    lemma_signed_word(low);
    assert(a * b / 0x1_0000_0000 < 0x1_0000_0000) by (nonlinear_arith)
        requires
            0 <= a < 0x1_0000_0000,
            0 <= b < 0x1_0000_0000,
    ;
    assert(a * b >= 0) by (nonlinear_arith);
    let s1 = if ins.op is Mullw && ins.field_oe() {
        sys.with_xer(xer_with_overflow(sys.cpu.xer, !fits_signed(signed)))
    } else {
        sys
    };
    lemma_records(s1, low);
    let high = (signed / 0x1_0000_0000 % 0x1_0000_0000) as u32;
    lemma_records(sys.with_gpr(ins.gpr_d(), high), high);
    let top = (a * b / 0x1_0000_0000) as u32;
    lemma_records(sys.with_gpr(ins.gpr_d(), top), top);
}

/// A comparison tells in its field how a register compares with another or with an
/// immediate, as signed or as unsigned numbers. Nothing else changes.
pub proof fn comparisons_tell(ins: Ins, sys: SystemView)
    requires
        ins.op is Cmp || ins.op is Cmpi || ins.op is Cmpl || ins.op is Cmpli,
    ensures
        effect(ins, sys) is Ok,
        ({
            let after = effect(ins, sys).unwrap();
            let a = sys.cpu.gpr[ins.gpr_a() as int];
            let b = sys.cpu.gpr[ins.gpr_b() as int];
            let so = bit(sys.cpu.xer, 31);
            let (left, right) = match ins.op {
                Opcode::Cmp => (signed_value(a), signed_value(b)),
                Opcode::Cmpi => (signed_value(a), ins.field_simm() as int),
                Opcode::Cmpl => (a as int, b as int),
                _ => (a as int, ins.field_uimm() as int),
            };
            &&& after == (SystemView {
                cpu: CpuView { cr: after.cpu.cr, ..sys.cpu },
                ..sys
            })
            &&& tells(sys.cpu.cr, after.cpu.cr, ins.field_crfd(), left, right, so)
        }),
{
    ins.lemma_register_fields();
    let a = sys.gpr(ins.gpr_a());
    let b = sys.gpr(ins.gpr_b());
    lemma_signed_word(a);
    lemma_signed_word(b);
    let so = bit(sys.cpu.xer, 31);
    let field = ins.field_crfd();
    lemma_tells(sys.cpu.cr, field, signed_value(a), signed_value(b), so);
    lemma_tells(sys.cpu.cr, field, signed_value(a), ins.field_simm() as int, so);
    lemma_tells(sys.cpu.cr, field, a as int, b as int, so);
    lemma_tells(sys.cpu.cr, field, a as int, ins.field_uimm() as int, so);
}

/// Where a branch with options `bo` on condition bit `bi` is taken: the options ask for
/// the counter, already counted down, to be zero or not, and for the condition bit, counted
/// from the most significant, to be set or not; either can be ignored.
pub open spec fn taken(bo: u8, bi: u8, ctr: u32, cr: u32) -> bool {
    let counts = bo / 4 % 2 == 1 || (ctr == 0) == (bo / 2 % 2 == 1);
    let holds = bo / 16 % 2 == 1 || bit(cr, (31 - bi) as u32) == (bo / 8 % 2 == 1);
    counts && holds
}

/// Branches go to the address that is given with them or relative to them, or to that in
/// the link or count register without its two low bits; where they are not taken, to the
/// next instruction, whose address is in the link register if they link.
pub proof fn branches_go_to_their_targets(ins: Ins, sys: SystemView)
    requires
        ins.op is B || ins.op is Bc || ins.op is Bclr || ins.op is Bcctr,
    ensures
        effect(ins, sys) is Ok,
        ({
            let after = effect(ins, sys).unwrap();
            let next = ((sys.cpu.pc + 4) % 0x1_0000_0000) as u32;
            let ctr = if ins.op is B || ins.field_bo() / 4 % 2 == 1 {
                sys.cpu.ctr
            } else {
                ((sys.cpu.ctr - 1) % 0x1_0000_0000) as u32
            };
            let from: int = if ins.field_aa() {
                0
            } else {
                sys.cpu.pc as int
            };
            let target = match ins.op {
                Opcode::B => (from + ins.field_li()) % 0x1_0000_0000,
                Opcode::Bc => (from + ins.field_bd()) % 0x1_0000_0000,
                Opcode::Bclr => sys.cpu.lr - sys.cpu.lr % 4,
                _ => ctr - ctr % 4,
            };
            let goes = ins.op is B || taken(ins.field_bo(), ins.field_bi(), ctr, sys.cpu.cr);
            after == (SystemView {
                cpu: CpuView {
                    ctr,
                    lr: if ins.field_lk() {
                        next
                    } else {
                        sys.cpu.lr
                    },
                    pc: if goes {
                        target as u32
                    } else {
                        next
                    },
                    ..sys.cpu
                },
                ..sys
            })
        }),
{
    let bo = ins.field_bo();
    lemma_options(bo);
    lemma_aligned(sys.cpu.lr);
    lemma_aligned(sys.cpu.ctr);
    lemma_aligned(((sys.cpu.ctr - 1) % 0x1_0000_0000) as u32);
}

proof fn lemma_aligned(word: u32)
    ensures
        word & 0xFFFF_FFFC == word - word % 4,
{
    lemma_set_bits(word, 0, 0, 0, 0, 0, false, false, false, false);
}

proof fn lemma_options(bo: u8)
    ensures
        bo & 2 != 0 <==> bo / 2 % 2 == 1,
        bo & 4 != 0 <==> bo / 4 % 2 == 1,
        bo & 8 != 0 <==> bo / 8 % 2 == 1,
        bo & 16 != 0 <==> bo / 16 % 2 == 1,
{
    lemma_set_bits(bo as u32, 0, 0, 0, 0, 0, false, false, false, false);
    assert(bo & 2 == (bo as u32) & 2 && bo & 4 == (bo as u32) & 4 && bo & 8 == (bo as u32) & 8
        && bo & 16 == (bo as u32) & 16);
}

/// Logical operations work bit by bit, on the source register and a second register or an
/// immediate in the lower or upper half; complements count the second operand or the
/// result the other way round.
pub proof fn logic_works_bit_by_bit(ins: Ins, sys: SystemView, i: u32)
    requires
        ins.op is And || ins.op is Andc || ins.op is Andi_ || ins.op is Or || ins.op is Ori
            || ins.op is Xor || ins.op is Xoris || ins.op is Nor || ins.op is Slw
            || ins.op is Rlwinm || ins.op is Rlwimi || ins.op is Sraw,
        i < 32,
        sys.cpu.gpr.len() == 32,
    ensures
        effect(ins, sys) is Ok,
        ({
            let after = effect(ins, sys).unwrap();
            let s = sys.cpu.gpr[ins.gpr_s() as int];
            let b = sys.cpu.gpr[ins.gpr_b() as int];
            let prior = sys.cpu.gpr[ins.gpr_a() as int];
            let low = (ins.code % 0x1_0000) as u32;
            let high = (0x1_0000 * (ins.code % 0x1_0000)) as u32;
            let result = after.cpu.gpr[ins.gpr_a() as int];
            let from = ((i + 32 - ins.field_sh()) % 32) as u32;
            let place = 31 - i;
            let masked = if ins.field_mb() <= ins.field_me() {
                ins.field_mb() <= place <= ins.field_me()
            } else {
                ins.field_mb() <= place || place <= ins.field_me()
            };
            let n = b % 32;
            let rc = !(ins.op is Or || ins.op is Ori || ins.op is Xoris || ins.op is Slw)
                && ins.field_rc();
            &&& sets_register(sys, after, ins.gpr_a(), result as int)
            &&& records(sys, after, rc, result)
            &&& ins.op is And ==> bit(result, i) == (bit(s, i) && bit(b, i))
            &&& ins.op is Andc ==> bit(result, i) == (bit(s, i) && !bit(b, i))
            &&& ins.op is Andi_ ==> bit(result, i) == (bit(s, i) && bit(low, i))
            &&& ins.op is Or ==> bit(result, i) == (bit(s, i) || bit(b, i))
            &&& ins.op is Ori ==> bit(result, i) == (bit(s, i) || bit(low, i))
            &&& ins.op is Xor ==> bit(result, i) == (bit(s, i) != bit(b, i))
            &&& ins.op is Xoris ==> bit(result, i) == (bit(s, i) != bit(high, i))
            &&& ins.op is Nor ==> bit(result, i) == !(bit(s, i) || bit(b, i))
            &&& ins.op is Slw ==> bit(result, i) == (i >= n && bit(s, (i - n) as u32))
            &&& ins.op is Sraw ==> bit(result, i) == bit(
                s,
                if i + n < 32 {
                    (i + n) as u32
                } else {
                    31
                },
            )
            &&& ins.op is Rlwinm ==> bit(result, i) == (masked && bit(s, from))
            &&& ins.op is Rlwimi ==> bit(result, i) == if masked {
                bit(s, from)
            } else {
                bit(prior, i)
            }
        }),
{
    ins.lemma_register_fields();
    constant_places(ins);
    let s = sys.gpr(ins.gpr_s());
    let b = sys.gpr(ins.gpr_b());
    let prior = sys.gpr(ins.gpr_a());
    let low = ins.field_uimm() as u32;
    let after = effect(ins, sys).unwrap();
    let result = after.gpr(ins.gpr_a());
    match ins.op {
        Opcode::Andc => {
            lemma_logic(s, !b, 0, i);
            lemma_logic(b, 0, 0, i);
        },
        Opcode::Andi_ | Opcode::Ori => {
            lemma_logic(s, low, 0, i);
        },
        Opcode::Xoris => {
            lemma_logic(low, 0, 0, i);
            lemma_logic(s, low << 16, 0, i);
        },
        Opcode::Nor => {
            lemma_logic(s, b, 0, i);
            lemma_logic(s | b, 0, 0, i);
        },
        Opcode::Slw | Opcode::Sraw => {
            lemma_logic(b, 0, 0, i);
            lemma_logic(s, 0, b & 0x1F, i);
        },
        Opcode::Rlwinm | Opcode::Rlwimi => {
            let sh = ins.field_sh();
            let mask = rotate_mask(ins.field_mb() as u32, ins.field_me() as u32);
            rotate_mask_selects(ins.field_mb() as u32, ins.field_me() as u32, (31 - i) as u32);
            rotate_moves_bits(s, sh, i);
            lemma_logic(rotated(s, sh), mask, 0, i);
            assert(msb_bit(mask, (31 - i) as u32) == bit(mask, i));
            lemma_logic(mask, 0, 0, i);
            lemma_logic(prior, !mask, 0, i);
            lemma_logic(prior & !mask, rotated(s, sh) & mask, 0, i);
        },
        _ => {
            lemma_logic(s, b, 0, i);
        },
    }
    let x = if ins.op is Sraw {
        after.cpu.xer
    } else {
        sys.cpu.xer
    };
    lemma_records(sys.with_xer(x).with_gpr(ins.gpr_a(), result), result);
}

proof fn lemma_logic(x: u32, y: u32, n: u32, i: u32)
    requires
        n < 32,
        i < 32,
    ensures
        bit(x & y, i) == (bit(x, i) && bit(y, i)),
        bit(x | y, i) == (bit(x, i) || bit(y, i)),
        bit(x ^ y, i) == (bit(x, i) != bit(y, i)),
        bit(!x, i) == !bit(x, i),
        bit(x << n, i) == (i >= n && bit(x, (i - n) as u32)),
        bit(((x as i32) >> n) as u32, i) == bit(
            x,
            if i + n < 32 {
                (i + n) as u32
            } else {
                31
            },
        ),
        x & 0x1F == x % 32,
        x < 0x1_0000 ==> x << 16 == 0x1_0000 * x,
        bit(y, i) == ((y >> i) & 1 == 1),
{
    lemma_set_bits(x, 0, i, n, x, y, false, false, false, false);
}

/// An exception goes to its vector, from 0xFFF0_0000 up if bit 6 of the machine state is
/// set. The address to return to is saved, after a system call that of the next
/// instruction, and so are the bits of the machine state that come back; of the machine
/// state, bits 6, 12 and 16 stay, and bit 0 becomes bit 16.
pub proof fn exceptions_go_to_their_vectors(cpu: CpuView, exception: Exception, i: u32)
    requires
        i < 32,
    ensures
        ({
            let after = cpu.after_exception(exception);
            let offset: int = match exception {
                Exception::Reset => 0x100,
                Exception::MachineCheck => 0x200,
                Exception::DSI => 0x300,
                Exception::ISI => 0x400,
                Exception::Interrupt => 0x500,
                Exception::Alignment => 0x600,
                Exception::Program => 0x700,
                Exception::FloatUnavailable => 0x800,
                Exception::Decrementer => 0x900,
                Exception::Syscall => 0xC00,
                Exception::Trace => 0xD00,
                Exception::PerformanceMonitor => 0xF00,
                Exception::Breakpoint => 0x1300,
            };
            &&& after == (CpuView { pc: after.pc, msr: after.msr, srr: after.srr, ..cpu })
            &&& after.pc == offset + if bit(cpu.msr, 6) {
                0xFFF0_0000int
            } else {
                0
            }
            &&& after.srr.len() == 2
            &&& after.srr[0] == if exception is Syscall {
                (cpu.pc + 4) % 0x1_0000_0000
            } else {
                cpu.pc as int
            }
            &&& bit(after.srr[1], i) == (bit(0x87C0_FF73, i) && bit(cpu.msr, i))
            &&& bit(after.msr, i) == if i == 0 {
                bit(cpu.msr, 16)
            } else {
                (i == 6 || i == 12 || i == 16) && bit(cpu.msr, i)
            }
        }),
{
    lemma_set_bits(cpu.msr, 0, i, 0, 0, 0, false, false, false, false);
    lemma_set_bits(exception.vector(), 0, 0, 0, 0, 0, false, false, false, false);
    lemma_logic(cpu.msr, 0x87C0_FF73, 0, i);
}

/// Whether a load or store leaves its address in the base register.
pub open spec fn updates_base(ins: Ins) -> bool {
    ins.op is Lbzu || ins.op is Lhzu || ins.op is Lwzu || ins.op is Stbu || ins.op is Stwu
}

/// The address of a load or store: the base register, or zero for register 0, plus a
/// displacement or a second register.
pub open spec fn access_address(ins: Ins, sys: SystemView) -> int {
    let base: int = if ins.gpr_a() == 0 {
        0
    } else {
        sys.cpu.gpr[ins.gpr_a() as int] as int
    };
    if ins.op is Lhzx || ins.op is Lwzx || ins.op is Stbx || ins.op is Stwx {
        (base + sys.cpu.gpr[ins.gpr_b() as int]) % 0x1_0000_0000
    } else {
        (base + ins.field_offset()) % 0x1_0000_0000
    }
}

/// Number of bytes that a load or store moves.
pub open spec fn access_size(ins: Ins) -> int {
    match ins.op {
        Opcode::Lbz | Opcode::Lbzu | Opcode::Stb | Opcode::Stbx | Opcode::Stbu => 1,
        Opcode::Lhz | Opcode::Lhzu | Opcode::Lhzx | Opcode::Sth => 2,
        _ => 4,
    }
}

/// Loads take a byte, a halfword or a word from main memory, the most significant byte
/// first, at the address modulo 32 MiB, and widen it with zeros. The forms with update
/// leave the address in the base register. What is not in memory cannot be loaded.
pub proof fn loads_take_bytes(ins: Ins, sys: SystemView)
    requires
        ins.op is Lbz || ins.op is Lhz || ins.op is Lwz || ins.op is Lhzx || ins.op is Lwzx
            || ins.op is Lbzu || ins.op is Lhzu || ins.op is Lwzu,
        updates_base(ins) ==> ins.gpr_a() != 0 && ins.gpr_a() != ins.gpr_d(),
        sys.cpu.gpr.len() == 32,
    ensures
        ({
            let ea = access_address(ins, sys);
            let at = ea % 0x0200_0000;
            let size = access_size(ins);
            let ram = sys.ram;
            let value = if size == 1 {
                ram[at] as int
            } else if size == 2 {
                0x100 * ram[at] + ram[at + 1]
            } else {
                0x100_0000 * ram[at] + 0x1_0000 * ram[at + 1] + 0x100 * ram[at + 2] + ram[at + 3]
            };
            let loaded = sys.cpu.gpr.update(ins.gpr_d() as int, value as u32);
            if at + size <= ram.len() {
                effect(ins, sys) == Ok::<SystemView, Fault>(
                    SystemView {
                        cpu: CpuView {
                            gpr: if updates_base(ins) {
                                loaded.update(ins.gpr_a() as int, ea as u32)
                            } else {
                                loaded
                            },
                            ..sys.cpu
                        },
                        ..sys
                    },
                )
            } else {
                effect(ins, sys) == Err::<SystemView, Fault>(Fault::InvalidRead)
            }
        }),
{
    ins.lemma_register_fields();
    let ea = access_address(ins, sys) as u32;
    low_address(ea);
    byte_order(sys.ram, (ea % 0x0200_0000) as int);
    let d = ins.gpr_d() as int;
    let a = ins.gpr_a() as int;
    let g = sys.cpu.gpr;
    match ins.op {
        Opcode::Lbz | Opcode::Lbzu => {
            assert(effect(ins, sys) == if ins.op is Lbz {
                sys.loaded(ins, super::memory::widened8(sys.read8(ea)))
            } else {
                sys.byte_loaded_update(ins)
            });
        },
        Opcode::Lhz | Opcode::Lhzu | Opcode::Lhzx => {
            assert(effect(ins, sys) == if ins.op is Lhzu {
                sys.half_loaded_update(ins)
            } else {
                sys.loaded(ins, super::memory::widened16(sys.read16(ea)))
            });
        },
        _ => {
            assert(effect(ins, sys) == if ins.op is Lwzu {
                sys.word_loaded_update(ins)
            } else {
                sys.loaded(ins, sys.read32(ea))
            });
            if ins.op is Lwzu && physical(ea) + 4 <= sys.ram.len() {
                let v = sys.read32(ea).unwrap();
                assert(g.update(a, ea).update(d, v) =~= g.update(d, v).update(a, ea));
            }
        },
    }
}

/// Stores put the low byte, halfword or word of a register in main memory, the most
/// significant byte first, at the address modulo 32 MiB, and change no other byte. The
/// forms with update leave the address in the base register.
pub proof fn stores_put_bytes(ins: Ins, sys: SystemView, k: int)
    requires
        ins.op is Stb || ins.op is Stbx || ins.op is Stbu || ins.op is Stw || ins.op is Stwx
            || ins.op is Stwu || ins.op is Sth,
        ins.op is Sth ==> access_address(ins, sys) % 0x0200_0000 != 0x01FF_FFFF,
        access_address(ins, sys) % 0x0200_0000 + access_size(ins) <= sys.ram.len(),
        0 <= k < sys.ram.len(),
        sys.cpu.gpr.len() == 32,
    ensures
        effect(ins, sys) is Ok,
        ({
            let after = effect(ins, sys).unwrap();
            let ea = access_address(ins, sys);
            let at = ea % 0x0200_0000;
            let size = access_size(ins);
            let s = sys.cpu.gpr[ins.gpr_s() as int];
            &&& after.ram.len() == sys.ram.len()
            &&& after.ram[k] == if at <= k < at + size {
                let place = at + size - 1 - k;
                if place == 0 {
                    s % 0x100
                } else if place == 1 {
                    s / 0x100 % 0x100
                } else if place == 2 {
                    s / 0x1_0000 % 0x100
                } else {
                    s / 0x100_0000
                }
            } else {
                sys.ram[k] as u32
            }
            &&& after == (SystemView {
                cpu: CpuView {
                    gpr: if updates_base(ins) && ins.gpr_a() != 0 {
                        sys.cpu.gpr.update(ins.gpr_a() as int, ea as u32)
                    } else {
                        sys.cpu.gpr
                    },
                    ..sys.cpu
                },
                ram: after.ram,
                ..sys
            })
        }),
{
    ins.lemma_register_fields();
    let ea = access_address(ins, sys) as u32;
    let s = sys.gpr(ins.gpr_s());
    low_address(ea);
    byte_digits(s);
    if ins.op is Sth {
        low_address((ea + 1) as u32);
        lemma_low_half(s);
    } else {
        lemma_low_half(s);
    }
}

proof fn lemma_low_half(s: u32)
    ensures
        (s & 0xFF) as u8 == s % 0x100,
        (((s & 0xFFFF) as u16) >> 8) as u8 == s / 0x100 % 0x100,
        (((s & 0xFFFF) as u16) & 0xFF) as u8 == s % 0x100,
{
    lemma_set_bits(s, 0, 0, 0, 0, 0, false, false, false, false);
}

/// The special-purpose registers by their numbers. Of a block-translation register the
/// even number is the upper word.
pub proof fn special_registers_have_their_numbers(cpu: CpuView, k: int)
    requires
        0 <= k < 8,
    ensures
        cpu.spr(1) == Some(cpu.xer),
        cpu.spr(8) == Some(cpu.lr),
        cpu.spr(9) == Some(cpu.ctr),
        cpu.spr(26) == Some(cpu.srr[0]),
        cpu.spr(27) == Some(cpu.srr[1]),
        k < 4 ==> cpu.spr((528 + 2 * k) as u16) == Some((cpu.ibat[k] / 0x1_0000_0000) as u32),
        k < 4 ==> cpu.spr((529 + 2 * k) as u16) == Some((cpu.ibat[k] % 0x1_0000_0000) as u32),
        k < 4 ==> cpu.spr((536 + 2 * k) as u16) == Some((cpu.dbat[k] / 0x1_0000_0000) as u32),
        k < 4 ==> cpu.spr((537 + 2 * k) as u16) == Some((cpu.dbat[k] % 0x1_0000_0000) as u32),
        cpu.spr((912 + k) as u16) == Some(cpu.gqr[k]),
        cpu.spr(920) == Some(cpu.hid[2]),
        cpu.spr(1008) == Some(cpu.hid[0]),
        cpu.spr(1009) == Some(cpu.hid[1]),
        cpu.spr(1017) == Some(cpu.l2cr),
{
    if k < 4 {
        double_arithmetic(cpu.ibat[k]);
        double_arithmetic(cpu.ibat[k] >> 32);
        double_arithmetic(cpu.dbat[k]);
        double_arithmetic(cpu.dbat[k] >> 32);
    }
}

/// Moves to and from special-purpose registers and the machine state move the register
/// whole, and the return from an exception goes to the address that was saved, without its
/// two low bits. It brings back the bits of the machine state that are saved, keeps the
/// others, and clears bit 18.
pub proof fn system_registers_are_moved(ins: Ins, sys: SystemView, i: u32)
    requires
        i < 32,
        sys.cpu.gpr.len() == 32,
        sys.cpu.srr.len() == 2,
    ensures
        ins.op is Mfmsr ==> effect(ins, sys) == Ok::<SystemView, Fault>(
            SystemView {
                cpu: CpuView {
                    gpr: sys.cpu.gpr.update(ins.gpr_d() as int, sys.cpu.msr),
                    ..sys.cpu
                },
                ..sys
            },
        ),
        ins.op is Mtmsr ==> effect(ins, sys) == Ok::<SystemView, Fault>(
            SystemView {
                cpu: CpuView { msr: sys.cpu.gpr[ins.gpr_s() as int], ..sys.cpu },
                ..sys
            },
        ),
        ins.op is Mfspr ==> match sys.cpu.spr(ins.field_spr()) {
            Some(value) => effect(ins, sys) == Ok::<SystemView, Fault>(
                SystemView {
                    cpu: CpuView {
                        gpr: sys.cpu.gpr.update(ins.gpr_d() as int, value),
                        ..sys.cpu
                    },
                    ..sys
                },
            ),
            None => effect(ins, sys) == Err::<SystemView, Fault>(Fault::UnknownSpr),
        },
        ins.op is Rfi ==> {
            let after = effect(ins, sys).unwrap();
            &&& effect(ins, sys) is Ok
            &&& after == (SystemView {
                cpu: CpuView { pc: after.cpu.pc, msr: after.cpu.msr, ..sys.cpu },
                ..sys
            })
            &&& after.cpu.pc == sys.cpu.srr[0] - sys.cpu.srr[0] % 4
            &&& bit(after.cpu.msr, i) == if i == 18 {
                false
            } else if bit(0x87C0_FF73, i) {
                bit(sys.cpu.srr[1], i)
            } else {
                bit(sys.cpu.msr, i)
            }
        },
{
    let srr = sys.cpu.srr;
    lemma_aligned(srr[0]);
    let m = 0x87C0_FF73u32;
    lemma_logic(m, 0, 0, i);
    lemma_logic(sys.cpu.msr, !m, 0, i);
    lemma_logic(srr[1], m, 0, i);
    let merged = (sys.cpu.msr & !m) | (srr[1] & m);
    lemma_logic(sys.cpu.msr & !m, srr[1] & m, 0, i);
    set_bit_is_set(merged, 18, false);
}

/// Instructions that only order or hint at memory accesses do nothing, and neither does a
/// system call.
pub proof fn hints_do_nothing(ins: Ins, sys: SystemView)
    requires
        ins.op is Sync || ins.op is Isync || ins.op is Icbi || ins.op is Dcbi || ins.op is Dcbf
            || ins.op is Sc,
    ensures
        effect(ins, sys) == Ok::<SystemView, Fault>(sys),
{
}

/// A quotient of two words rounded toward zero, with the remainder that is left: signed in
/// the one form, unsigned in the other. One that does not exist is zero, and an overflow
/// if that is asked for.
pub proof fn quotients_divide(ins: Ins, sys: SystemView)
    requires
        ins.op is Divw || ins.op is Divwu,
        sys.cpu.gpr.len() == 32,
    ensures
        effect(ins, sys) is Ok,
        ({
            let after = effect(ins, sys).unwrap();
            let a = sys.cpu.gpr[ins.gpr_a() as int];
            let b = sys.cpu.gpr[ins.gpr_b() as int];
            let result = after.cpu.gpr[ins.gpr_d() as int];
            let none = b == 0 || ins.op is Divw && a == 0x8000_0000 && b == 0xFFFF_FFFF;
            let (x, y, q) = if ins.op is Divw {
                (signed_value(a), signed_value(b), signed_value(result))
            } else {
                (a as int, b as int, result as int)
            };
            &&& sets_register(sys, after, ins.gpr_d(), result as int)
            &&& none ==> result == 0
            &&& !none && ins.op is Divwu ==> x == q * y + x % y
            &&& !none && ins.op is Divw ==> q == if (x < 0) == (y < 0) {
                absolute(x) / absolute(y)
            } else {
                -(absolute(x) / absolute(y))
            }
            &&& ins.field_oe() ==> sets_overflow(sys.cpu.xer, after.cpu.xer, none)
            &&& !ins.field_oe() ==> after.cpu.xer == sys.cpu.xer
            &&& records(sys, after, ins.field_rc(), result)
        }),
{
    ins.lemma_register_fields();
    let a = sys.gpr(ins.gpr_a());
    let b = sys.gpr(ins.gpr_b());
    lemma_signed_word(a);
    lemma_signed_word(b);
    lemma_overflow(sys.cpu.xer, true);
    lemma_overflow(sys.cpu.xer, false);
    let quotient = if ins.op is Divw {
        super::arithmetic::signed_quotient(a, b)
    } else {
        super::arithmetic::unsigned_quotient(a, b)
    };
    let result = match quotient {
        Some(q) => q,
        None => 0,
    };
    assert(effect(ins, sys) == Ok::<SystemView, Fault>(sys.divided(ins, quotient)));
    let s1 = if ins.field_oe() {
        sys.with_xer(xer_with_overflow(sys.cpu.xer, quotient is None))
    } else {
        sys
    };
    lemma_records(s1, result);
    if b != 0 && ins.op is Divwu {
        vstd::arithmetic::div_mod::lemma_fundamental_div_mod(a as int, b as int);
        assert(b as int * (a as int / b as int) == (a as int / b as int) * b as int)
            by (nonlinear_arith);
    }
    if b != 0 && ins.op is Divw {
        let x = absolute(signed_value(a));
        let y = absolute(signed_value(b));
        vstd::arithmetic::div_mod::lemma_div_is_ordered_by_denominator(x, 1, y);
        vstd::arithmetic::div_mod::lemma_div_pos_is_pos(x, y);
        if x == 0x8000_0000 && y > 1 {
            vstd::arithmetic::div_mod::lemma_div_decreases(x, y);
        }
    }
}

/// The distance of a number from zero.
pub open spec fn absolute(value: int) -> int {
    if value < 0 {
        -value
    } else {
        value
    }
}

/// A step executes the word that main memory holds at the program counter modulo 32 MiB,
/// the most significant byte first. The program counter then moves on by four, unless the
/// instruction has changed it. What is not in memory cannot be executed.
pub proof fn steps_execute_what_is_there(sys: SystemView)
    ensures
        ({
            let at = sys.cpu.pc as int % 0x0200_0000;
            let word = 0x100_0000 * sys.ram[at] + 0x1_0000 * sys.ram[at + 1] + 0x100 * sys.ram[at
                + 2] + sys.ram[at + 3];
            let ins = Ins::decoded(word as u32, Extensions::none());
            if at + 4 > sys.ram.len() {
                sys.stepped() == Err::<SystemView, Fault>(Fault::Fetch)
            } else {
                match effect(ins, sys) {
                    Err(fault) => sys.stepped() == Err::<SystemView, Fault>(fault),
                    Ok(after) => {
                        &&& sys.stepped() is Ok
                        &&& sys.stepped().unwrap() == (SystemView {
                            cpu: CpuView { pc: sys.stepped().unwrap().cpu.pc, ..after.cpu },
                            ..after
                        })
                        &&& sys.stepped().unwrap().cpu.pc == if after.cpu.pc == sys.cpu.pc {
                            (sys.cpu.pc + 4) % 0x1_0000_0000
                        } else {
                            after.cpu.pc as int
                        }
                    },
                }
            }
        }),
{
    low_address(sys.cpu.pc);
    byte_order(sys.ram, sys.cpu.pc as int % 0x0200_0000);
}

/// Sign extension gives the low halfword or byte the value that it has as a signed number.
/// The halfword goes to the register that is named second, the byte to the first.
pub proof fn extensions_keep_the_sign(ins: Ins, sys: SystemView)
    requires
        ins.op is Extsb || ins.op is Extsh,
    ensures
        effect(ins, sys) is Ok,
        ({
            let after = effect(ins, sys).unwrap();
            let s = sys.cpu.gpr[ins.gpr_s() as int];
            let (low, size): (int, int) = if ins.op is Extsb {
                ((s % 0x100) as int, 0x100)
            } else {
                ((s % 0x1_0000) as int, 0x1_0000)
            };
            let value = if 2 * low < size {
                low
            } else {
                low - size
            };
            let rd = if ins.op is Extsb {
                ins.gpr_d()
            } else {
                ins.gpr_a()
            };
            &&& sets_register(sys, after, rd, value)
            &&& after.cpu.xer == sys.cpu.xer
            &&& records(sys, after, ins.field_rc(), (value % 0x1_0000_0000) as u32)
        }),
{
    let s = sys.gpr(ins.gpr_s());
    lemma_set_bits(s, 0, 0, 0, 0, 0, false, false, false, false);
    let half = super::compare::extended16(s);
    let byte = super::compare::extended8(s);
    lemma_records(sys.with_gpr(ins.gpr_a(), half), half);
    lemma_records(sys.with_gpr(ins.gpr_d(), byte), byte);
}

} // verus!
