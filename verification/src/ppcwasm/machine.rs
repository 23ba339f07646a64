//! What WebAssembly code means, as far as compiled blocks use it.
//!
//! The machine holds the register image that a block works on, and guest memory behind
//! the hooks that it calls. An exception hook may do anything and is left out, and so
//! is a trap: what a division without a quotient gives is not said.

use vstd::prelude::*;

use super::encode::{AccessOp, ConstOp, F64Op, FlowOp, I32Op, TestOp, WasmInst, WideOp};
use super::imports;
use crate::gekko::{hi32, join64, lo32};
use crate::ppcint::arithmetic::{truncated_quotient, wrapped};
use crate::ppcint::compare::{extended16, extended8};
use crate::ppcint::memory::{widened16, widened8};
use crate::ppcir::meaning::{rotated_left, truth, Machine, Value};

verus! {

/// A machine that runs a compiled block.
#[verifier::ext_equal]
pub struct Wasm {
    /// Stack, locals and guest memory; the guest's registers are in the image instead.
    /// Once the function has returned, `exit` is its result.
    pub core: Machine,
    /// The register image, as words.
    pub image: Seq<u32>,
    /// Address of the register image.
    pub base: u32,
    /// Conditional blocks that were entered and not left.
    pub open: nat,
    /// Ends that are still passed over, with everything before them.
    pub skip: nat,
}

impl Wasm {
    /// Stack, locals and guest memory replaced.
    pub open spec fn with(self, core: Machine) -> Wasm {
        Wasm { core, ..self }
    }

    /// Index of the image word that lies `offset` behind address `addr`.
    pub open spec fn slot(self, addr: u32, offset: u64) -> int {
        (addr + offset - self.base) / 4
    }
}

/// An operation on 32-bit integers.
pub open spec fn i32_done(op: I32Op, m: Machine) -> Machine {
    let a = m.a();
    let b = m.b();
    match op {
        I32Op::Add => m.binary(wrapped(a + b)),
        I32Op::Sub => m.binary(wrapped(a - b)),
        I32Op::Mul => m.binary(((a as i32) * (b as i32)) as i64 as u32),
        I32Op::DivS => m.binary(
            wrapped(truncated_quotient((a as i32) as int, (b as i32) as int)),
        ),
        I32Op::DivU => m.binary(a / b),
        I32Op::And => m.binary(a & b),
        I32Op::Or => m.binary(a | b),
        I32Op::Xor => m.binary(a ^ b),
        I32Op::Shl => m.binary(a << (b & 31)),
        I32Op::ShrU => m.binary(a >> (b & 31)),
        I32Op::ShrS => m.binary(((a as i32) >> (b & 31)) as u32),
        I32Op::Rotl => m.binary(rotated_left(a, b)),
        I32Op::Clz => m.unary(b.leading_zeros()),
        I32Op::Ctz => m.unary(b.trailing_zeros()),
        I32Op::Extend8S => m.unary(extended8(b)),
        I32Op::Extend16S => m.unary(extended16(b)),
    }
}

/// A comparison.
pub open spec fn test_done(op: TestOp, m: Machine) -> Machine {
    let a = m.a();
    let b = m.b();
    match op {
        TestOp::I32Eq => m.binary(truth(a == b)),
        TestOp::I32Ne => m.binary(truth(a != b)),
        TestOp::I32LtS => m.binary(truth((a as i32) < (b as i32))),
        TestOp::I32LtU => m.binary(truth(a < b)),
        TestOp::I32GtS => m.binary(truth((a as i32) > (b as i32))),
        TestOp::I32GtU => m.binary(truth(a > b)),
        TestOp::I32Eqz => m.unary(truth(b == 0)),
        TestOp::F64Lt => m.binary(truth((m.doubles.less)(m.x(), m.y()))),
        TestOp::F64Gt => m.binary(truth((m.doubles.greater)(m.x(), m.y()))),
        TestOp::F64Eq => m.binary(truth((m.doubles.equal)(m.x(), m.y()))),
    }
}

/// An operation on doubles.
pub open spec fn f64_done(op: F64Op, m: Machine) -> Machine {
    match op {
        F64Op::Add => m.binary64((m.doubles.sum)(m.x(), m.y())),
        F64Op::Sub => m.binary64((m.doubles.difference)(m.x(), m.y())),
        F64Op::Mul => m.binary64((m.doubles.product)(m.x(), m.y())),
        F64Op::Div => m.binary64((m.doubles.quotient)(m.x(), m.y())),
        F64Op::Neg => m.unary64((m.doubles.negated)(m.y())),
        F64Op::Abs => m.unary64((m.doubles.magnitude)(m.y())),
        F64Op::Sqrt => m.unary64((m.doubles.root)(m.y())),
        F64Op::Nearest => m.unary64((m.doubles.nearest)(m.y())),
    }
}

/// A conversion, or an operation on 64-bit integers.
pub open spec fn wide_done(op: WideOp, m: Machine) -> Machine {
    let top = m.stack.top();
    let second = m.stack.rest().top();
    let below = Machine { stack: m.stack.rest(), ..m };
    let two_below = Machine { stack: m.stack.rest().rest(), ..m };
    match op {
        WideOp::F64ConvertI32S => m.unary64((m.doubles.of_signed)(m.b())),
        WideOp::I32TruncF64S => m.unary((m.doubles.truncated)(m.y())),
        WideOp::I32TruncSatF64S => m.unary((m.doubles.truncated_clamped)(m.y())),
        WideOp::F32DemoteF64 => below.pushed(Value::F32((m.doubles.demoted)(m.y()))),
        WideOp::F64PromoteF32 => m.unary64((m.doubles.promoted)(top.single())),
        WideOp::F32ReinterpretI32 => below.pushed(Value::F32(m.b())),
        WideOp::I32ReinterpretF32 => m.unary(top.single()),
        WideOp::I64ReinterpretF64 => below.pushed(Value::I64(m.y() as int)),
        WideOp::F64ReinterpretI64 => m.unary64(
            (top.long() % 0x1_0000_0000_0000_0000) as u64,
        ),
        WideOp::I32WrapI64 => m.unary(wrapped(top.long())),
        WideOp::I64ExtendI32S => below.pushed(Value::I64((m.b() as i32) as int)),
        WideOp::I64ExtendI32U => below.pushed(Value::I64(m.b() as int)),
        WideOp::I64Mul => two_below.pushed(
            Value::I64(second.long() * top.long()),
        ),
        WideOp::I64ShrS => two_below.pushed(
            Value::I64(((second.long() as i64) >> ((top.long() % 64) as u32)) as int),
        ),
        WideOp::I64ShrU => two_below.pushed(
            Value::I64(
                (((second.long() % 0x1_0000_0000_0000_0000) as u64) >> ((top.long(
                    ) % 64) as u32)) as int,
            ),
        ),
    }
}

/// A call of a hook.
pub open spec fn called(index: u32, m: Machine) -> Machine {
    let addr = m.a();
    let value = m.b();
    if index == imports::READ_U8 {
        m.read(widened8(m.sys.read8(m.b())))
    } else if index == imports::READ_U16 {
        m.read(widened16(m.sys.read16(m.b())))
    } else if index == imports::READ_U32 {
        m.read(m.sys.read32(m.b()))
    } else if index == imports::READ_F64 {
        m.unary64(m.sys.read64(m.b()))
    } else if index == imports::WRITE_U8 {
        m.wrote(m.sys.written8(addr, (value & 0xFF) as u8))
    } else if index == imports::WRITE_U16 {
        m.wrote(m.sys.written16(addr, (value & 0xFFFF) as u16))
    } else if index == imports::WRITE_U32 {
        m.wrote(m.sys.written32(addr, value))
    } else if index == imports::WRITE_F64 {
        m.wrote(m.sys.written64(addr, m.y()))
    } else if index == imports::PSQ_LOAD {
        m.binary64((m.doubles.quantized_load)(m.sys.ram, addr, value))
    } else if index == imports::PSQ_STORE {
        m.quantized()
    } else if index == imports::PSQ_LOAD_SIZE {
        m.unary((m.doubles.quantized_size)(value))
    } else {
        m
    }
}

/// An access to a local or to the register image.
pub open spec fn access_done(op: AccessOp, w: Wasm) -> Wasm {
    let m = w.core;
    match op {
        AccessOp::LocalGet(i) => w.with(m.pushed(m.locals[i])),
        AccessOp::LocalSet(i) => w.with(
            Machine {
                stack: m.stack.rest(),
                locals: m.locals.insert(i, m.stack.top()),
                ..m
            },
        ),
        AccessOp::LocalTee(i) => w.with(
            Machine { locals: m.locals.insert(i, m.stack.top()), ..m },
        ),
        AccessOp::I32Load(place) => w.with(m.unary(w.image[w.slot(m.b(), place.offset)])),
        AccessOp::F64Load(place) => {
            let k = w.slot(m.b(), place.offset);
            w.with(m.unary64(join64(w.image[k + 1], w.image[k])))
        },
        AccessOp::I32Store(place) => Wasm {
            core: m.wrote(m.sys),
            image: w.image.update(w.slot(m.a(), place.offset), m.b()),
            ..w
        },
        AccessOp::F64Store(place) => {
            let k = w.slot(m.a(), place.offset);
            Wasm {
                core: m.wrote(m.sys),
                image: w.image.update(k, lo32(m.y())).update(k + 1, hi32(m.y())),
                ..w
            }
        },
    }
}

/// Control flow. The end of the function returns what is on the stack.
pub open spec fn flow_done(op: FlowOp, w: Wasm) -> Wasm {
    let m = w.core;
    let rest = Machine { stack: m.stack.rest(), ..m };
    match op {
        FlowOp::Call(index) => w.with(called(index, m)),
        FlowOp::If => if m.b() != 0 {
            Wasm { core: rest, open: w.open + 1, ..w }
        } else {
            Wasm { core: rest, skip: 1, ..w }
        },
        FlowOp::End => if w.open > 0 {
            Wasm { open: (w.open - 1) as nat, ..w }
        } else {
            w.with(m.returned(m.b()))
        },
        FlowOp::Return => w.with(m.returned(m.b())),
        FlowOp::Drop => w.with(rest),
        FlowOp::Select => w.with(m.selected()),
    }
}

/// The machine after one instruction.
#[verifier::opaque]
pub open spec fn wasm_step(inst: WasmInst, w: Wasm) -> Wasm {
    if w.core.exit is Some {
        w
    } else if w.skip > 0 {
        match inst {
            WasmInst::Flow(FlowOp::If) => Wasm { skip: w.skip + 1, ..w },
            WasmInst::Flow(FlowOp::End) => Wasm { skip: (w.skip - 1) as nat, ..w },
            _ => w,
        }
    } else {
        match inst {
            WasmInst::I32(op) => w.with(i32_done(op, w.core)),
            WasmInst::Test(op) => w.with(test_done(op, w.core)),
            WasmInst::F64(op) => w.with(f64_done(op, w.core)),
            WasmInst::Wide(op) => w.with(wide_done(op, w.core)),
            WasmInst::Const(ConstOp::I32(c)) => w.with(w.core.pushed32(c as u32)),
            WasmInst::Const(ConstOp::I64(c)) => w.with(w.core.pushed(Value::I64(c as int))),
            WasmInst::Const(ConstOp::F64(bits)) => w.with(w.core.pushed(Value::F64(bits))),
            WasmInst::Access(op) => access_done(op, w),
            WasmInst::Flow(op) => flow_done(op, w),
        }
    }
}

/// An operation on 32-bit integers, in a machine that runs.
pub(crate) proof fn step_i32(op: I32Op, w: Wasm)
    requires
        w.core.exit is None,
        w.skip == 0,
    ensures
        wasm_step(WasmInst::I32(op), w) == w.with(i32_done(op, w.core)),
{
    reveal(wasm_step);
}

/// A comparison, in a machine that runs.
pub(crate) proof fn step_test(op: TestOp, w: Wasm)
    requires
        w.core.exit is None,
        w.skip == 0,
    ensures
        wasm_step(WasmInst::Test(op), w) == w.with(test_done(op, w.core)),
{
    reveal(wasm_step);
}

/// An operation on doubles, in a machine that runs.
pub(crate) proof fn step_f64(op: F64Op, w: Wasm)
    requires
        w.core.exit is None,
        w.skip == 0,
    ensures
        wasm_step(WasmInst::F64(op), w) == w.with(f64_done(op, w.core)),
{
    reveal(wasm_step);
}

/// A double, in a machine that runs.
pub(crate) proof fn step_const_double(bits: u64, w: Wasm)
    requires
        w.core.exit is None,
        w.skip == 0,
    ensures
        wasm_step(WasmInst::Const(ConstOp::F64(bits)), w) == w.with(
            w.core.pushed(Value::F64(bits)),
        ),
{
    reveal(wasm_step);
}

/// A conversion or an operation on 64-bit integers, in a machine that runs.
pub(crate) proof fn step_wide(op: WideOp, w: Wasm)
    requires
        w.core.exit is None,
        w.skip == 0,
    ensures
        wasm_step(WasmInst::Wide(op), w) == w.with(wide_done(op, w.core)),
{
    reveal(wasm_step);
}

/// A 32-bit constant, in a machine that runs.
pub(crate) proof fn step_const32(c: i32, w: Wasm)
    requires
        w.core.exit is None,
        w.skip == 0,
    ensures
        wasm_step(WasmInst::Const(ConstOp::I32(c)), w) == w.with(w.core.pushed32(c as u32)),
{
    reveal(wasm_step);
}

/// A 64-bit constant, in a machine that runs.
pub(crate) proof fn step_const64(c: i64, w: Wasm)
    requires
        w.core.exit is None,
        w.skip == 0,
    ensures
        wasm_step(WasmInst::Const(ConstOp::I64(c)), w) == w.with(
            w.core.pushed(Value::I64(c as int)),
        ),
{
    reveal(wasm_step);
}

/// An access, in a machine that runs.
pub(crate) proof fn step_access(op: AccessOp, w: Wasm)
    requires
        w.core.exit is None,
        w.skip == 0,
    ensures
        wasm_step(WasmInst::Access(op), w) == access_done(op, w),
{
    reveal(wasm_step);
}

/// Control flow, in a machine that runs.
pub(crate) proof fn step_flow(op: FlowOp, w: Wasm)
    requires
        w.core.exit is None,
        w.skip == 0,
    ensures
        wasm_step(WasmInst::Flow(op), w) == flow_done(op, w),
{
    reveal(wasm_step);
}

/// An instruction of a block that is passed over.
pub(crate) proof fn step_skipped(inst: WasmInst, w: Wasm)
    requires
        w.core.exit is None,
        w.skip == 1,
        !(inst matches WasmInst::Flow(FlowOp::If)),
    ensures
        wasm_step(inst, w) == if inst matches WasmInst::Flow(FlowOp::End) {
            Wasm { skip: 0, ..w }
        } else {
            w
        },
{
    reveal(wasm_step);
}

/// An instruction behind a return.
pub(crate) proof fn step_ended(inst: WasmInst, w: Wasm)
    requires
        w.core.exit is Some,
    ensures
        wasm_step(inst, w) == w,
{
    reveal(wasm_step);
}

/// The machine after the first `count` instructions of `code`.
pub open spec fn wasm_run_to(code: Seq<WasmInst>, count: nat, w: Wasm) -> Wasm
    decreases count,
{
    if count == 0 {
        w
    } else {
        wasm_step(code[count - 1], wasm_run_to(code, (count - 1) as nat, w))
    }
}

/// The machine after running `code`.
pub open spec fn wasm_run(code: Seq<WasmInst>, w: Wasm) -> Wasm {
    wasm_run_to(code, code.len(), w)
}

proof fn lemma_run_prefix(first: Seq<WasmInst>, second: Seq<WasmInst>, count: nat, w: Wasm)
    requires
        count <= first.len(),
    ensures
        wasm_run_to(first + second, count, w) == wasm_run_to(first, count, w),
    decreases count,
{
    if count > 0 {
        lemma_run_prefix(first, second, (count - 1) as nat, w);
    }
}

proof fn lemma_run_suffix(first: Seq<WasmInst>, second: Seq<WasmInst>, count: nat, w: Wasm)
    requires
        count <= second.len(),
    ensures
        wasm_run_to(first + second, first.len() + count, w) == wasm_run_to(
            second,
            count,
            wasm_run(first, w),
        ),
    decreases count,
{
    if count == 0 {
        lemma_run_prefix(first, second, first.len(), w);
    } else {
        lemma_run_suffix(first, second, (count - 1) as nat, w);
    }
}

/// Running two pieces of code one behind the other is running the second from where
/// the first ends.
pub proof fn wasm_run_in_pieces(first: Seq<WasmInst>, second: Seq<WasmInst>, w: Wasm)
    ensures
        wasm_run(first + second, w) == wasm_run(second, wasm_run(first, w)),
{
    lemma_run_suffix(first, second, second.len(), w);
}

pub(crate) proof fn wasm_run_1(i1: WasmInst, w: Wasm)
    ensures
        wasm_run(seq![i1], w) == wasm_step(i1, w),
{
    reveal_with_fuel(wasm_run_to, 2);
}

pub(crate) proof fn wasm_run_2(i1: WasmInst, i2: WasmInst, w: Wasm)
    ensures
        wasm_run(seq![i1, i2], w) == wasm_step(i2, wasm_step(i1, w)),
{
    reveal_with_fuel(wasm_run_to, 3);
}

pub(crate) proof fn wasm_run_3(i1: WasmInst, i2: WasmInst, i3: WasmInst, w: Wasm)
    ensures
        wasm_run(seq![i1, i2, i3], w) == wasm_step(i3, wasm_step(i2, wasm_step(i1, w))),
{
    reveal_with_fuel(wasm_run_to, 4);
}

pub(crate) proof fn wasm_run_4(i1: WasmInst, i2: WasmInst, i3: WasmInst, i4: WasmInst, w: Wasm)
    ensures
        wasm_run(seq![i1, i2, i3, i4], w) == wasm_step(i4, wasm_step(i3, wasm_step(i2,
            wasm_step(i1, w)))),
{
    reveal_with_fuel(wasm_run_to, 5);
}

pub(crate) proof fn wasm_run_5(
    i1: WasmInst,
    i2: WasmInst,
    i3: WasmInst,
    i4: WasmInst,
    i5: WasmInst,
    w: Wasm,
)
    ensures
        wasm_run(seq![i1, i2, i3, i4, i5], w) == wasm_step(i5, wasm_step(i4, wasm_step(i3,
            wasm_step(i2, wasm_step(i1, w))))),
{
    reveal_with_fuel(wasm_run_to, 6);
}

pub(crate) proof fn wasm_run_8(
    i1: WasmInst,
    i2: WasmInst,
    i3: WasmInst,
    i4: WasmInst,
    i5: WasmInst,
    i6: WasmInst,
    i7: WasmInst,
    i8: WasmInst,
    w: Wasm,
)
    ensures
        wasm_run(seq![i1, i2, i3, i4, i5, i6, i7, i8], w) == wasm_step(i8, wasm_step(i7,
            wasm_step(i6, wasm_step(i5, wasm_step(i4, wasm_step(i3, wasm_step(i2, wasm_step(i1,
            w)))))))),
{
    reveal_with_fuel(wasm_run_to, 9);
}

} // verus!
