//! What the pieces do that translated instructions are made of.

use vstd::prelude::*;

use super::inst::IrInst::{
    I32Const, I32Eq, I32Eqz, I32GtS, I32GtU, I32LtS, I32LtU, LoadXer, LocalGet, LocalTee, StoreCr,
    StoreGpr,
};
use super::inst::{local_at, IrInst, IrLocal, IrTy};
use super::meaning::{run, run_in_pieces, run_to, truth, Machine, Stack, Value};
use super::translate::{
    at_bit_code, carry_code, cleared_field_code, compare_signed_code, compare_unsigned_code,
    int_result_code, record_code, set_field_code, so_position,
};
use crate::ppcint::system::{bit, nibble, with_bit, with_field, XER_CA};

verus! {

/// Facts about single words: casts, immediate operands, branch options, flags and
/// shift amounts.
pub(crate) proof fn lemma_bits(code: u32, bo: u8, x: u32, y: u32, z: i32)
    ensures
        (x as i32) as u32 == x,
        z as u32 == if z >= 0 {
            z as int
        } else {
            z + 0x1_0000_0000
        },
        ((((code & 0xffff) as u16 as i32) << 16) as u32) == (((((code & 0xffff) as i16) as i32)
            << 16u32) as u32),
        ((((code & 0xffff) as u16 as i32) << 16) as u32) == ((code & 0xffff) as u16 as u32) << 16,
        (bo >> 1u8) & 1 != 0 <==> bo & 2 != 0,
        (bo >> 2u8) & 1 != 0 <==> bo & 4 != 0,
        (bo >> 3u8) & 1 != 0 <==> bo & 8 != 0,
        (bo >> 4u8) & 1 != 0 <==> bo & 16 != 0,
        bo & 4 != 0 ==> bo | 4 == bo,
        ((x + 4) as u32) == ((x + 4) % 0x1_0000_0000) as u32,
        !x == 0xFFFF_FFFF - x,
        x & !0u32 == x,
        x & !0xFFFF_FFFFu32 == 0,
        0u32 & x == 0,
        0u32 ^ x == x,
        x | y == y | x,
        x < 32 ==> x & 31 == x,
        (x >> (5u32 & 31)) & 1 == if x & 0x20 == 0 {
            0u32
        } else {
            1
        },
        x & 3 == 0 ==> x & 0xFFFF_FFFC == x,
        y < 32 ==> (x >> (y & 31)) & 1 == if (x >> y) & 1 != 0 {
            1u32
        } else {
            0
        },
        y < 32 ==> (x & !(1u32 << y)) | (1u32 << (y & 31)) == x | (1u32 << y),
        y < 32 ==> (x & !(1u32 << y)) | (0u32 << (y & 31)) == x & !(1u32 << y),
        (x >> (31u32 & 31)) & 1 == if (x as i32) < 0 {
            1u32
        } else {
            0
        },
        0xFFFF_FFFFu32 & x == x,
        (x ^ 31) ^ x == 31,
        x & 0x3F <= 63,
        x <= 63 && x & 0x20 == 0 ==> x < 32,
        x <= 63 && x & 0x20 != 0 ==> x >= 32,
        0u32 & 0 == 0 && 0u32 & 1 == 0 && 1u32 & 0 == 0 && 1u32 & 1 == 1,
        0u32 | 0 == 0 && 0u32 | 1 == 1 && 1u32 | 0 == 1 && 1u32 | 1 == 1,
        0u32 ^ 0 == 0 && 0u32 ^ 1 == 1 && 1u32 ^ 0 == 1 && 1u32 ^ 1 == 0,
{
    assert((x as i32) as u32 == x && z as u32 == (if z >= 0 {
        z as int
    } else {
        z + 0x1_0000_0000
    }) && ((((code & 0xffff) as u16 as i32) << 16) as u32) == (((((code & 0xffff) as i16) as i32)
        << 16u32) as u32) && ((((code & 0xffff) as u16 as i32) << 16) as u32) == ((code
        & 0xffff) as u16 as u32) << 16 && ((bo >> 1u8) & 1 != 0 <==> bo & 2 != 0) && ((bo >> 2u8)
        & 1 != 0 <==> bo & 4 != 0) && ((bo >> 3u8) & 1 != 0 <==> bo & 8 != 0) && ((bo >> 4u8) & 1
        != 0 <==> bo & 16 != 0) && (bo & 4 != 0 ==> bo | 4 == bo) && ((x + 4) as u32) == ((x + 4)
        % 0x1_0000_0000) as u32 && !x == 0xFFFF_FFFF - x && x & !0u32 == x && x & !0xFFFF_FFFFu32
        == 0 && 0u32 & x == 0 && 0u32 ^ x == x && x | y == y | x && (x < 32 ==> x & 31 == x) && (x
        >> (5u32 & 31)) & 1 == (if x & 0x20 == 0 {
        0u32
    } else {
        1
    }) && (x & 3 == 0 ==> x & 0xFFFF_FFFC == x) && (y < 32 ==> (x >> (y & 31)) & 1 == (if (x >> y)
        & 1 != 0 {
        1u32
    } else {
        0
    })) && (y < 32 ==> (x & !(1u32 << y)) | (1u32 << (y & 31)) == x | (1u32 << y) && (x & !(1u32
        << y)) | (0u32 << (y & 31)) == x & !(1u32 << y)) && (x >> (31u32 & 31)) & 1 == (if (
    x as i32) < 0 {
        1u32
    } else {
        0
    }) && 0xFFFF_FFFFu32 & x == x && (x ^ 31) ^ x == 31 && x & 0x3F <= 63 && (x <= 63 && x & 0x20
        == 0 ==> x < 32) && (x <= 63 && x & 0x20 != 0 ==> x >= 32) && 0u32 & 0 == 0 && 0u32 & 1
        == 0 && 1u32 & 0 == 0 && 1u32 & 1 == 1 && 0u32 | 0 == 0 && 0u32 | 1 == 1 && 1u32 | 0 == 1
        && 1u32 | 1 == 1 && 0u32 ^ 0 == 0 && 0u32 ^ 1 == 1 && 1u32 ^ 0 == 1 && 1u32 ^ 1 == 0)
        by (bit_vector);
}

/// A word that is taken as a signed constant and back is unchanged.
pub(crate) proof fn lemma_constant(x: u32)
    ensures
        (x as i32) as u32 == x,
{
    lemma_bits(0, 0, x, 0, 0);
}

/// A signed constant as a word.
pub(crate) proof fn lemma_signed(x: i32)
    ensures
        x as u32 == if x >= 0 {
            x as int
        } else {
            x + 0x1_0000_0000
        },
{
    lemma_bits(0, 0, 0, 0, x);
}

/// Zeros and ones combined.
pub(crate) proof fn lemma_truth(p: bool, q: bool)
    ensures
        truth(p) & truth(q) == truth(p && q),
        truth(p) | truth(q) == truth(p || q),
        truth(p) ^ truth(q) == truth(p != q),
        truth(p) ^ 1 == truth(!p),
        1u32 & truth(p) == truth(p),
{
    lemma_bits(0, 0, 0, 0, 0);
}

/// The carry flag put into the exception register, and taken out of it.
pub(crate) proof fn lemma_carry_bits(xer: u32)
    ensures
        (xer & !(1u32 << 29u32)) | (1u32 << (29u32 & 31)) == with_bit(xer, XER_CA, true),
        (xer & !(1u32 << 29u32)) | (0u32 << (29u32 & 31)) == with_bit(xer, XER_CA, false),
        (xer >> (29u32 & 31)) & 1 == truth(bit(xer, XER_CA)),
{
    lemma_bits(0, 0, xer, 29, 0);
}

/// Four flags put into a condition field one by one are the field with all four.
pub(crate) proof fn lemma_field_bits(cr: u32, xer: u32, shift: u32, l: u32, g: u32, e: u32)
    requires
        shift <= 28,
        l <= 1,
        g <= 1,
        e <= 1,
    ensures
        ({
            let base = cr & !(0xFu32 << shift);
            let with_l = base | (l << (((shift + 3) as u32) & 31));
            let with_g = with_l | (g << (((shift + 2) as u32) & 31));
            let with_e = with_g | (e << (((shift + 1) as u32) & 31));
            with_e | ((xer >> (31u32 & 31)) << (shift & 31)) == with_field(
                cr,
                shift,
                nibble(l == 1, g == 1, e == 1, bit(xer, 31)),
            )
        }),
{
    assert(shift <= 28 && l <= 1 && g <= 1 && e <= 1 ==> (cr & !(0xFu32 << shift)) | (l << (((shift
        + 3) as u32) & 31)) | (g << (((shift + 2) as u32) & 31)) | (e << (((shift + 1) as u32)
        & 31)) | ((xer >> (31u32 & 31)) << (shift & 31)) == (cr & !(0xFu32 << shift)) | (((if l
            == 1 {
        8u32
    } else {
        0
    }) | (if g == 1 {
        4u32
    } else {
        0
    }) | (if e == 1 {
        2u32
    } else {
        0
    }) | (if (xer >> 31u32) & 1 != 0 {
        1u32
    } else {
        0
    })) << shift)) by (bit_vector);
}

/// A word under a 0 or 1 gets that bit at `position`.
pub(crate) proof fn lemma_at_bit(position: u32, m: Machine, base: u32, x: u32, rest: Stack)
    requires
        m.exit is None,
        m.stack == Stack::Cons(
            Value::I32(x),
            Box::new(Stack::Cons(Value::I32(base), Box::new(rest))),
        ),
    ensures
        run(at_bit_code(position), m) == (Machine {
            stack: Stack::Cons(Value::I32(base | (x << (position & 31))), Box::new(rest)),
            ..m
        }),
{
    broadcast use crate::ppcir::meaning::group_steps;
    reveal_with_fuel(run_to, 9);

    lemma_constant(position);
}

/// A test of two locals.
pub(crate) proof fn lemma_test(lhs: IrLocal, rhs: IrLocal, test: IrInst, m: Machine, a: u32, b: u32)
    requires
        m.exit is None,
        m.locals[lhs.index] == Value::I32(a),
        m.locals[rhs.index] == Value::I32(b),
        test is I32LtS || test is I32GtS || test is I32LtU || test is I32GtU || test is I32Eq,
    ensures
        run(seq![IrInst::LocalGet(lhs), IrInst::LocalGet(rhs), test], m) == m.pushed32(
            truth(
                match test {
                    IrInst::I32LtS => (a as i32) < (b as i32),
                    IrInst::I32GtS => (a as i32) > (b as i32),
                    IrInst::I32LtU => a < b,
                    IrInst::I32GtU => a > b,
                    _ => a == b,
                },
            ),
        ),
{
    broadcast use crate::ppcir::meaning::group_steps;
    reveal_with_fuel(run_to, 9);

}

/// Whether `code` pushes `x` on the machine `m`, whatever its stack holds.
pub open spec fn pushes(code: Seq<IrInst>, m: Machine, x: u32) -> bool {
    forall|stack: Stack|
        #[trigger] run(code, Machine { stack, ..m }) == (Machine { stack, ..m }).pushed32(x)
}

/// A condition field is replaced by the outcomes of three tests and the summary
/// overflow.
pub(crate) proof fn lemma_set_field(
    field: u8,
    lt: Seq<IrInst>,
    gt: Seq<IrInst>,
    eq: Seq<IrInst>,
    m: Machine,
    l: bool,
    g: bool,
    e: bool,
)
    requires
        field < 8,
        m.exit is None,
        pushes(lt, m, truth(l)),
        pushes(gt, m, truth(g)),
        pushes(eq, m, truth(e)),
    ensures
        run(set_field_code(field, lt, gt, eq), m) == (Machine {
            sys: m.sys.with_cr(
                with_field(
                    m.sys.cpu.cr,
                    so_position(field),
                    nibble(l, g, e, bit(m.sys.cpu.xer, 31)),
                ),
            ),
            ..m
        }),
{
    reveal(set_field_code);
    let so = so_position(field);
    let cr = m.sys.cpu.cr;
    let xer = m.sys.cpu.xer;
    let c0 = cleared_field_code(field);
    let c1 = c0 + lt + at_bit_code((so + 3) as u32);
    let c2 = c1 + gt + at_bit_code((so + 2) as u32);
    let c3 = c2 + eq + at_bit_code((so + 1) as u32);
    let summary = seq![IrInst::LoadXer, IrInst::I32Const(31), IrInst::I32ShrU];
    let c4 = c3 + summary + at_bit_code(so);
    let x0 = cr & !(0xFu32 << so);
    let x1 = x0 | (truth(l) << (((so + 3) as u32) & 31));
    let x2 = x1 | (truth(g) << (((so + 2) as u32) & 31));
    let x3 = x2 | (truth(e) << (((so + 1) as u32) & 31));
    let x4 = x3 | ((xer >> (31u32 & 31)) << (so & 31));
    let m0 = m.pushed32(x0);
    let m1 = m.pushed32(x1);
    let m2 = m.pushed32(x2);
    let m3 = m.pushed32(x3);
    let m4 = m.pushed32(x4);
    assert(run(c0, m) == m0) by {
    broadcast use crate::ppcir::meaning::group_steps;
    reveal_with_fuel(run_to, 9);
        lemma_constant(!(0xFu32 << so));
    }
    assert(run(c1, m) == m1) by {
        run_in_pieces(c0, lt, m);
        run_in_pieces(c0 + lt, at_bit_code((so + 3) as u32), m);
        assert(m0 == Machine { stack: m0.stack, ..m });
        lemma_at_bit((so + 3) as u32, m0.pushed32(truth(l)), x0, truth(l), m.stack);
    }
    assert(run(c2, m) == m2) by {
        run_in_pieces(c1, gt, m);
        run_in_pieces(c1 + gt, at_bit_code((so + 2) as u32), m);
        assert(m1 == Machine { stack: m1.stack, ..m });
        lemma_at_bit((so + 2) as u32, m1.pushed32(truth(g)), x1, truth(g), m.stack);
    }
    assert(run(c3, m) == m3) by {
        run_in_pieces(c2, eq, m);
        run_in_pieces(c2 + eq, at_bit_code((so + 1) as u32), m);
        assert(m2 == Machine { stack: m2.stack, ..m });
        lemma_at_bit((so + 1) as u32, m2.pushed32(truth(e)), x2, truth(e), m.stack);
    }
    assert(run(c4, m) == m4) by {
        run_in_pieces(c3, summary, m);
        run_in_pieces(c3 + summary, at_bit_code(so), m);
        assert(run(summary, m3) == m3.pushed32(xer >> (31u32 & 31))) by {
        broadcast use crate::ppcir::meaning::group_steps;
    reveal_with_fuel(run_to, 9);
            lemma_constant(31);
        }
        lemma_at_bit(so, m3.pushed32(xer >> (31u32 & 31)), x3, xer >> (31u32 & 31), m.stack);
    }
    let store = seq![IrInst::StoreCr];
    run_in_pieces(c4, store, m);
    assert(run(store, m4) == m4.stored_cpu(
        crate::gekko::CpuView { cr: x4, ..m.sys.cpu },
    )) by {
    broadcast use crate::ppcir::meaning::group_steps;
    reveal_with_fuel(run_to, 9);
    }
    lemma_field_bits(cr, xer, so, truth(l), truth(g), truth(e));
}

/// Recording the sign of a local.
pub(crate) proof fn lemma_record(loc: IrLocal, m: Machine, value: u32)
    requires
        m.exit is None,
        m.locals[loc.index] == Value::I32(value),
    ensures
        run(record_code(0, loc), m) == (Machine { sys: m.sys.recorded(value), ..m }),
{
    let lt = seq![IrInst::LocalGet(loc), IrInst::I32Const(0), IrInst::I32LtS];
    let gt = seq![IrInst::LocalGet(loc), IrInst::I32Const(0), IrInst::I32GtS];
    let eq = seq![IrInst::LocalGet(loc), IrInst::I32Eqz];
    let s = value as i32;
    lemma_constant(value);
    lemma_constant(0);
    assert(pushes(lt, m, truth(s < 0)) && pushes(gt, m, truth(s > 0)) && pushes(
        eq,
        m,
        truth(s == 0),
    )) by {
    broadcast use crate::ppcir::meaning::group_steps;
    reveal_with_fuel(run_to, 9);
    }
    lemma_set_field(0, lt, gt, eq, m, s < 0, s > 0, s == 0);
}

/// Storing a result, and recording its sign if asked to.
pub(crate) proof fn lemma_int_result(rd: u8, rc: bool, n: nat, m: Machine, value: u32)
    requires
        m.exit is None,
        m.stack.top() == Value::I32(value),
    ensures
        ({
            let after = run(int_result_code(rd, rc, n), m);
            &&& after.sys == m.sys.stored(rd, value, rc)
            &&& after.stack == m.stack.rest()
            &&& after.exit is None
        }),
{
    reveal(int_result_code);
    let loc = local_at(n + 1, IrTy::I32);
    let keep = seq![IrInst::LocalTee(loc), IrInst::StoreGpr(rd)];
    broadcast use crate::ppcir::meaning::group_steps;
    reveal_with_fuel(run_to, 3);
    if rc {
        run_in_pieces(keep, record_code(0, loc), m);
        lemma_record(loc, run(keep, m), value);
    }
}

/// Setting the carry flag from a local.
pub(crate) proof fn lemma_carry(carry: IrLocal, m: Machine, set: bool)
    requires
        m.exit is None,
        m.locals[carry.index] == Value::I32(truth(set)),
    ensures
        run(carry_code(carry), m) == (Machine {
            sys: m.sys.with_xer(with_bit(m.sys.cpu.xer, XER_CA, set)),
            ..m
        }),
{
    reveal(carry_code);
    broadcast use crate::ppcir::meaning::group_steps;
    reveal_with_fuel(run_to, 9);
    lemma_constant(!(1u32 << 29u32));
    lemma_constant(29);
    lemma_carry_bits(m.sys.cpu.xer);
}

/// A signed halfword as a word and back.
pub(crate) proof fn lemma_half(x: i16)
    ensures
        (x as i32 as u32) as i32 == x,
{
    lemma_signed(x as i32);
    lemma_constant(x as i32 as u32);
    lemma_signed((x as i32 as u32) as i32);
}

/// Comparing two locals as signed values.
pub(crate) proof fn lemma_compare_signed(field: u8, lhs: IrLocal, rhs: IrLocal, m: Machine, a: u32,
    b: u32)
    requires
        field < 8,
        m.exit is None,
        m.locals[lhs.index] == Value::I32(a),
        m.locals[rhs.index] == Value::I32(b),
    ensures
        run(compare_signed_code(field, lhs, rhs), m) == (Machine {
            sys: m.sys.compared(field, (a as i32) as int, (b as i32) as int),
            ..m
        }),
{
    reveal(compare_signed_code);
    let lt = seq![LocalGet(lhs), LocalGet(rhs), I32LtS];
    let gt = seq![LocalGet(lhs), LocalGet(rhs), I32GtS];
    let eq = seq![LocalGet(lhs), LocalGet(rhs), I32Eq];
    let (x, y) = (a as i32, b as i32);
    lemma_constant(a);
    lemma_constant(b);
    assert forall|stack: Stack|
        #[trigger] run(lt, Machine { stack, ..m }) == (Machine { stack, ..m }).pushed32(
            truth(x < y),
        ) by {
        lemma_test(lhs, rhs, I32LtS, Machine { stack, ..m }, a, b);
    }
    assert forall|stack: Stack|
        #[trigger] run(gt, Machine { stack, ..m }) == (Machine { stack, ..m }).pushed32(
            truth(x > y),
        ) by {
        lemma_test(lhs, rhs, I32GtS, Machine { stack, ..m }, a, b);
    }
    assert forall|stack: Stack|
        #[trigger] run(eq, Machine { stack, ..m }) == (Machine { stack, ..m }).pushed32(
            truth(x == y),
        ) by {
        lemma_test(lhs, rhs, I32Eq, Machine { stack, ..m }, a, b);
    }
    lemma_set_field(field, lt, gt, eq, m, x < y, x > y, x == y);
}

/// Comparing two locals as unsigned values.
pub(crate) proof fn lemma_compare_unsigned(
    field: u8,
    lhs: IrLocal,
    rhs: IrLocal,
    m: Machine,
    a: u32,
    b: u32,
)
    requires
        field < 8,
        m.exit is None,
        m.locals[lhs.index] == Value::I32(a),
        m.locals[rhs.index] == Value::I32(b),
    ensures
        run(compare_unsigned_code(field, lhs, rhs), m) == (Machine {
            sys: m.sys.compared(field, a as int, b as int),
            ..m
        }),
{
    reveal(compare_unsigned_code);
    let lt = seq![LocalGet(lhs), LocalGet(rhs), I32LtU];
    let gt = seq![LocalGet(lhs), LocalGet(rhs), I32GtU];
    let eq = seq![LocalGet(lhs), LocalGet(rhs), I32Eq];
    assert forall|stack: Stack|
        #[trigger] run(lt, Machine { stack, ..m }) == (Machine { stack, ..m }).pushed32(
            truth(a < b),
        ) by {
        lemma_test(lhs, rhs, I32LtU, Machine { stack, ..m }, a, b);
    }
    assert forall|stack: Stack|
        #[trigger] run(gt, Machine { stack, ..m }) == (Machine { stack, ..m }).pushed32(
            truth(a > b),
        ) by {
        lemma_test(lhs, rhs, I32GtU, Machine { stack, ..m }, a, b);
    }
    assert forall|stack: Stack|
        #[trigger] run(eq, Machine { stack, ..m }) == (Machine { stack, ..m }).pushed32(
            truth(a == b),
        ) by {
        lemma_test(lhs, rhs, I32Eq, Machine { stack, ..m }, a, b);
    }
    lemma_set_field(field, lt, gt, eq, m, a < b, a > b, a == b);
}

/// Code that leaves `value` on the stack, with a result stored from there.
pub(crate) proof fn lemma_result(pre: Seq<IrInst>, rd: u8, rc: bool, n: nat, m: Machine, value: u32)
    requires
        run(pre, m).exit is None,
        run(pre, m).stack == Stack::Cons(Value::I32(value), Box::new(Stack::Empty)),
    ensures
        ready(run(pre + int_result_code(rd, rc, n), m)),
        run(pre + int_result_code(rd, rc, n), m).sys == run(pre, m).sys.stored(rd, value, rc),
{
    run_in_pieces(pre, int_result_code(rd, rc, n), m);
    lemma_int_result(rd, rc, n, run(pre, m), value);
}

/// Whether `m` is about to run code.
pub open spec fn ready(m: Machine) -> bool {
    m.stack is Empty && m.exit is None
}

} // verus!
