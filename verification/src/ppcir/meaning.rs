//! What the intermediate representation means: a machine that runs it.
//!
//! What the arithmetic of doubles gives is left open: the machine is told. So is the
//! exception hook, which belongs to the host; raising an exception has no meaning here.

use vstd::prelude::*;

use super::inst::{IrInst, IrLocal};
use crate::gekko::{hi32, join64, lo32, CpuView};
use crate::ppcint::arithmetic::{truncated_quotient, wrapped};
use crate::ppcint::compare::{extended16, extended8};
use crate::ppcint::logic::swapped;
use crate::ppcint::system::SystemView;

verus! {

/// A value on the operand stack or in a local.
pub enum Value {
    /// A 32-bit word.
    I32(u32),
    /// A 64-bit word, as the integer that it stands for: a word that was extended,
    /// the product of two such words, or the bits of a double.
    I64(int),
    /// A double, by its bits.
    F64(u64),
    /// A single, by its bits.
    F32(u32),
}

/// The arithmetic of doubles and singles, on their bits, and the quantized loads and
/// stores that the host carries out.
pub struct Doubles {
    pub sum: spec_fn(u64, u64) -> u64,
    pub difference: spec_fn(u64, u64) -> u64,
    pub product: spec_fn(u64, u64) -> u64,
    pub quotient: spec_fn(u64, u64) -> u64,
    pub negated: spec_fn(u64) -> u64,
    pub magnitude: spec_fn(u64) -> u64,
    pub root: spec_fn(u64) -> u64,
    pub nearest: spec_fn(u64) -> u64,
    pub less: spec_fn(u64, u64) -> bool,
    pub greater: spec_fn(u64, u64) -> bool,
    pub equal: spec_fn(u64, u64) -> bool,
    pub of_signed: spec_fn(u32) -> u64,
    pub truncated: spec_fn(u64) -> u32,
    pub truncated_clamped: spec_fn(u64) -> u32,
    pub demoted: spec_fn(u64) -> u32,
    pub promoted: spec_fn(u32) -> u64,
    pub quantized_load: spec_fn(Seq<u8>, u32, u32) -> u64,
    pub quantized_store: spec_fn(Seq<u8>, u32, u32, u64) -> (Seq<u8>, u32),
    pub quantized_size: spec_fn(u32) -> u32,
}

/// The operand stack.
pub enum Stack {
    Empty,
    Cons(Value, Box<Stack>),
}

/// A machine that runs the intermediate representation.
#[verifier::ext_equal]
pub struct Machine {
    /// Guest registers and main memory.
    pub sys: SystemView,
    pub stack: Stack,
    pub locals: Map<u32, Value>,
    /// Where the guest goes on, once the code has returned.
    pub exit: Option<u32>,
    pub doubles: Doubles,
}

/// 1 if `holds`, else 0.
pub open spec fn truth(holds: bool) -> u32 {
    if holds {
        1
    } else {
        0
    }
}

/// `word` rotated left by `count` bits, of which the low five count.
pub open spec fn rotated_left(word: u32, count: u32) -> u32 {
    let n = count & 31;
    if n == 0 {
        word
    } else {
        (word << n) | (word >> ((32 - n) as u32))
    }
}

/// The low two bytes of `word` swapped.
pub open spec fn half_swapped(word: u32) -> u32 {
    ((word & 0xFF) << 8) | ((word >> 8) & 0xFF)
}

impl Value {
    /// The word.
    pub open spec fn word(self) -> u32 {
        match self {
            Value::I32(x) => x,
            _ => 0,
        }
    }

    /// The 64-bit word.
    pub open spec fn long(self) -> int {
        match self {
            Value::I64(x) => x,
            _ => 0,
        }
    }

    /// The bits of the double.
    pub open spec fn double(self) -> u64 {
        match self {
            Value::F64(x) => x,
            _ => 0,
        }
    }

    /// The bits of the single.
    pub open spec fn single(self) -> u32 {
        match self {
            Value::F32(x) => x,
            _ => 0,
        }
    }
}

impl Stack {
    /// The value on top.
    pub open spec fn top(self) -> Value {
        match self {
            Stack::Cons(value, _) => value,
            Stack::Empty => Value::I32(0),
        }
    }

    /// What is below the top.
    pub open spec fn rest(self) -> Stack {
        match self {
            Stack::Cons(_, rest) => *rest,
            Stack::Empty => Stack::Empty,
        }
    }
}

impl SystemView {
    /// A big-endian halfword stored at `addr`.
    pub open spec fn written16(self, addr: u32, value: u16) -> SystemView {
        self.written8(addr, (value >> 8) as u8).written8(
            wrapped(addr + 1),
            (value & 0xFF) as u8,
        )
    }

    /// The big-endian double at `addr`; 0 where there is no memory.
    pub open spec fn read64(self, addr: u32) -> u64 {
        match (self.read32(addr), self.read32(wrapped(addr + 4))) {
            (Some(hi), Some(lo)) => join64(hi, lo),
            _ => 0,
        }
    }

    /// A big-endian double stored at `addr`.
    pub open spec fn written64(self, addr: u32, value: u64) -> SystemView {
        self.written32(addr, hi32(value)).written32(wrapped(addr + 4), lo32(value))
    }
}

impl Machine {
    /// The word on top of the stack.
    pub open spec fn b(self) -> u32 {
        self.stack.top().word()
    }

    /// The word below it.
    pub open spec fn a(self) -> u32 {
        self.stack.rest().top().word()
    }

    /// The double on top of the stack.
    pub open spec fn y(self) -> u64 {
        self.stack.top().double()
    }

    /// The double below it.
    pub open spec fn x(self) -> u64 {
        self.stack.rest().top().double()
    }

    /// A value pushed.
    pub open spec fn pushed(self, value: Value) -> Machine {
        Machine { stack: Stack::Cons(value, Box::new(self.stack)), ..self }
    }

    /// A word pushed.
    pub open spec fn pushed32(self, word: u32) -> Machine {
        self.pushed(Value::I32(word))
    }

    /// The top of the stack replaced by a word.
    pub open spec fn unary(self, word: u32) -> Machine {
        (Machine { stack: self.stack.rest(), ..self }).pushed32(word)
    }

    /// The two topmost values replaced by a word.
    pub open spec fn binary(self, word: u32) -> Machine {
        (Machine { stack: self.stack.rest().rest(), ..self }).pushed32(word)
    }

    /// The top of the stack replaced by a double.
    pub open spec fn unary64(self, bits: u64) -> Machine {
        (Machine { stack: self.stack.rest(), ..self }).pushed(Value::F64(bits))
    }

    /// The two topmost values replaced by a double.
    pub open spec fn binary64(self, bits: u64) -> Machine {
        (Machine { stack: self.stack.rest().rest(), ..self }).pushed(Value::F64(bits))
    }

    /// The top of the stack taken off, and the guest replaced.
    pub open spec fn stored(self, sys: SystemView) -> Machine {
        Machine { stack: self.stack.rest(), sys, ..self }
    }

    /// The top of the stack taken off, and the guest's registers replaced.
    pub open spec fn stored_cpu(self, cpu: CpuView) -> Machine {
        self.stored(SystemView { cpu, ..self.sys })
    }

    /// The address on top of the stack replaced by what was read there; what has no
    /// memory reads as 0.
    pub open spec fn read(self, value: Option<u32>) -> Machine {
        self.unary(
            match value {
                Some(v) => v,
                None => 0,
            },
        )
    }

    /// Address and value taken off, and the guest replaced.
    pub open spec fn wrote(self, sys: SystemView) -> Machine {
        Machine { stack: self.stack.rest().rest(), sys, ..self }
    }

    /// Address, parameters and double taken off; the host stores the double and tells
    /// how many bytes it took.
    pub open spec fn quantized(self) -> Machine {
        let below = self.stack.rest();
        let addr = below.rest().top().word();
        let (ram, size) = (self.doubles.quantized_store)(
            self.sys.ram,
            addr,
            below.top().word(),
            self.y(),
        );
        (Machine {
            stack: below.rest().rest(),
            sys: SystemView { ram, ..self.sys },
            ..self
        }).pushed32(size)
    }

    /// Two doubles and a condition replaced by one of the doubles.
    pub open spec fn selected(self) -> Machine {
        let below = self.stack.rest();
        (Machine { stack: below.rest().rest(), ..self }).pushed(
            if self.b() != 0 {
                below.rest().top()
            } else {
                below.top()
            },
        )
    }

    /// The code has returned: the guest goes on at `pc`.
    pub open spec fn returned(self, pc: u32) -> Machine {
        Machine { exit: Some(pc), ..self }
    }
}

/// The machine after an access to a guest register.
pub open spec fn accessed(inst: IrInst, m: Machine) -> Machine {
    let cpu = m.sys.cpu;
    match inst {
        IrInst::LoadGpr(r) => m.pushed32(cpu.gpr[r as int]),
        IrInst::LoadCr => m.pushed32(cpu.cr),
        IrInst::LoadLr => m.pushed32(cpu.lr),
        IrInst::LoadCtr => m.pushed32(cpu.ctr),
        IrInst::LoadXer => m.pushed32(cpu.xer),
        IrInst::LoadMsr => m.pushed32(cpu.msr),
        IrInst::LoadSrr0 => m.pushed32(cpu.srr[0]),
        IrInst::LoadSrr1 => m.pushed32(cpu.srr[1]),
        IrInst::LoadSprg(i) => m.pushed32(cpu.sprg[i as int]),
        IrInst::LoadTbLo => m.pushed32(lo32(cpu.tb)),
        IrInst::LoadTbHi => m.pushed32(hi32(cpu.tb)),
        IrInst::LoadDec => m.pushed32(cpu.dec),
        IrInst::StoreGpr(r) => m.stored(m.sys.with_gpr(r, m.b())),
        IrInst::StoreCr => m.stored_cpu(CpuView { cr: m.b(), ..cpu }),
        IrInst::StoreLr => m.stored_cpu(CpuView { lr: m.b(), ..cpu }),
        IrInst::StoreCtr => m.stored_cpu(CpuView { ctr: m.b(), ..cpu }),
        IrInst::StoreXer => m.stored_cpu(CpuView { xer: m.b(), ..cpu }),
        IrInst::StoreMsr => m.stored_cpu(CpuView { msr: m.b(), ..cpu }),
        IrInst::StoreSrr0 => m.stored_cpu(CpuView { srr: cpu.srr.update(0, m.b()), ..cpu }),
        IrInst::StoreSrr1 => m.stored_cpu(CpuView { srr: cpu.srr.update(1, m.b()), ..cpu }),
        IrInst::StoreSprg(i) => m.stored_cpu(
            CpuView { sprg: cpu.sprg.update(i as int, m.b()), ..cpu },
        ),
        IrInst::StoreDec => m.stored_cpu(CpuView { dec: m.b(), ..cpu }),
        IrInst::StorePC => m.stored_cpu(CpuView { pc: m.b(), ..cpu }),
        IrInst::LoadGqr(i) => m.pushed32(cpu.gqr[i as int]),
        IrInst::LoadFpscr => m.pushed32(cpu.fpscr),
        IrInst::StoreGqr(i) => m.stored_cpu(
            CpuView { gqr: cpu.gqr.update(i as int, m.b()), ..cpu },
        ),
        IrInst::StoreFpscr => m.stored_cpu(CpuView { fpscr: m.b(), ..cpu }),
        IrInst::LoadFprPs0(r) => m.pushed(Value::F64(cpu.ps0[r as int])),
        IrInst::LoadFprPs1(r) => m.pushed(Value::F64(cpu.ps1[r as int])),
        IrInst::StoreFprPs0(r) => m.stored_cpu(
            CpuView { ps0: cpu.ps0.update(r as int, m.y()), ..cpu },
        ),
        IrInst::StoreFprPs1(r) => m.stored_cpu(
            CpuView { ps1: cpu.ps1.update(r as int, m.y()), ..cpu },
        ),
        _ => m,
    }
}

/// The machine after an operation on words.
pub open spec fn computed(inst: IrInst, m: Machine) -> Machine {
    let a = m.a();
    let b = m.b();
    match inst {
        IrInst::I32Add => m.binary(wrapped(a + b)),
        IrInst::I32Sub => m.binary(wrapped(a - b)),
        IrInst::I32Mul => m.binary(((a as i32) * (b as i32)) as i64 as u32),
        IrInst::I32DivS => m.binary(
            wrapped(truncated_quotient((a as i32) as int, (b as i32) as int)),
        ),
        IrInst::I32DivU => m.binary(a / b),
        IrInst::I32And => m.binary(a & b),
        IrInst::I32Or => m.binary(a | b),
        IrInst::I32Xor => m.binary(a ^ b),
        IrInst::I32Not => m.unary(!b),
        IrInst::I32Shl => m.binary(a << (b & 31)),
        IrInst::I32ShrU => m.binary(a >> (b & 31)),
        IrInst::I32ShrS => m.binary(((a as i32) >> (b & 31)) as u32),
        IrInst::I32Rotl => m.binary(rotated_left(a, b)),
        IrInst::I32Clz => m.unary(b.leading_zeros()),
        IrInst::I32Ctz => m.unary(b.trailing_zeros()),
        IrInst::I32Eq => m.binary(truth(a == b)),
        IrInst::I32Ne => m.binary(truth(a != b)),
        IrInst::I32LtS => m.binary(truth((a as i32) < (b as i32))),
        IrInst::I32LtU => m.binary(truth(a < b)),
        IrInst::I32GtS => m.binary(truth((a as i32) > (b as i32))),
        IrInst::I32GtU => m.binary(truth(a > b)),
        IrInst::I32Eqz => m.unary(truth(b == 0)),
        IrInst::I32Extend8S => m.unary(extended8(b)),
        IrInst::I32Extend16S => m.unary(extended16(b)),
        IrInst::I32Bswap => m.unary(swapped(b)),
        IrInst::I32Bswap16 => m.unary(half_swapped(b)),
        _ => m,
    }
}

/// The machine after an operation on 64-bit words.
pub open spec fn widened(inst: IrInst, m: Machine) -> Machine {
    let rest = Machine { stack: m.stack.rest(), ..m };
    match inst {
        IrInst::I64ExtendI32S => rest.pushed(Value::I64((m.b() as i32) as int)),
        IrInst::I64ExtendI32U => rest.pushed(Value::I64(m.b() as int)),
        IrInst::I64Mul => (Machine { stack: rest.stack.rest(), ..m }).pushed(
            Value::I64(m.stack.rest().top().long() * m.stack.top().long()),
        ),
        IrInst::I64ShrS32 => m.unary(((m.stack.top().long() as i64) >> 32u32) as u32),
        IrInst::I64ShrU32 => m.unary(
            (m.stack.top().long() % 0x1_0000_0000_0000_0000 / 0x1_0000_0000) as u32,
        ),
        IrInst::I32WrapI64 => m.unary(wrapped(m.stack.top().long())),
        IrInst::F64ReinterpretI64 => m.unary64(
            (m.stack.top().long() % 0x1_0000_0000_0000_0000) as u64,
        ),
        IrInst::I64ReinterpretF64 => rest.pushed(Value::I64(m.y() as int)),
        _ => m,
    }
}

/// The machine after an access to memory.
pub open spec fn transferred(inst: IrInst, m: Machine) -> Machine {
    let addr = m.a();
    let value = m.b();
    match inst {
        IrInst::ReadU8 => m.read(crate::ppcint::memory::widened8(m.sys.read8(m.b()))),
        IrInst::ReadU16 => m.read(crate::ppcint::memory::widened16(m.sys.read16(m.b()))),
        IrInst::ReadU32 => m.read(m.sys.read32(m.b())),
        IrInst::WriteU8 => m.wrote(m.sys.written8(addr, (value & 0xFF) as u8)),
        IrInst::WriteU16 => m.wrote(m.sys.written16(addr, (value & 0xFFFF) as u16)),
        IrInst::WriteU32 => m.wrote(m.sys.written32(addr, value)),
        IrInst::ReadF64 => m.unary64(m.sys.read64(m.b())),
        IrInst::WriteF64 => m.wrote(m.sys.written64(addr, m.y())),
        IrInst::PsqLoad => m.binary64((m.doubles.quantized_load)(m.sys.ram, addr, value)),
        IrInst::PsqStore => m.quantized(),
        IrInst::PsqLoadSize => m.unary((m.doubles.quantized_size)(value)),
        _ => m,
    }
}

/// The machine after an operation on doubles.
pub open spec fn floated(inst: IrInst, m: Machine) -> Machine {
    match inst {
        IrInst::F64Const(bits) => m.pushed(Value::F64(bits)),
        IrInst::F64Add => m.binary64((m.doubles.sum)(m.x(), m.y())),
        IrInst::F64Sub => m.binary64((m.doubles.difference)(m.x(), m.y())),
        IrInst::F64Mul => m.binary64((m.doubles.product)(m.x(), m.y())),
        IrInst::F64Div => m.binary64((m.doubles.quotient)(m.x(), m.y())),
        IrInst::F64Neg => m.unary64((m.doubles.negated)(m.y())),
        IrInst::F64Abs => m.unary64((m.doubles.magnitude)(m.y())),
        IrInst::F64Sqrt => m.unary64((m.doubles.root)(m.y())),
        IrInst::F64Nearest => m.unary64((m.doubles.nearest)(m.y())),
        IrInst::F64Lt => m.binary(truth((m.doubles.less)(m.x(), m.y()))),
        IrInst::F64Gt => m.binary(truth((m.doubles.greater)(m.x(), m.y()))),
        IrInst::F64Eq => m.binary(truth((m.doubles.equal)(m.x(), m.y()))),
        IrInst::F64FromI32S => m.unary64((m.doubles.of_signed)(m.b())),
        IrInst::I32TruncF64S => m.unary((m.doubles.truncated)(m.y())),
        IrInst::I32TruncSatF64S => m.unary((m.doubles.truncated_clamped)(m.y())),
        IrInst::F64RoundToSingle => m.unary64(
            (m.doubles.promoted)((m.doubles.demoted)(m.y())),
        ),
        IrInst::F64PromoteSingleBits => m.unary64((m.doubles.promoted)(m.b())),
        IrInst::I32DemoteToSingleBits => m.unary((m.doubles.demoted)(m.y())),
        IrInst::I32FromF64LowBits => m.unary(wrapped(m.y() as int)),
        IrInst::F64Select => m.selected(),
        _ => m,
    }
}

/// The machine after one instruction. Code that has returned does nothing more.
#[verifier::opaque]
pub open spec fn step(inst: IrInst, m: Machine) -> Machine {
    if m.exit is Some {
        m
    } else {
        match inst {
            IrInst::I32Const(c) => m.pushed32(c as u32),
            IrInst::Drop => Machine { stack: m.stack.rest(), ..m },
            IrInst::LocalSet(l) => Machine {
                stack: m.stack.rest(),
                locals: m.locals.insert(l.index, m.stack.top()),
                ..m
            },
            IrInst::LocalGet(l) => m.pushed(m.locals[l.index]),
            IrInst::LocalTee(l) => Machine {
                locals: m.locals.insert(l.index, m.stack.top()),
                ..m
            },
            IrInst::LoadGpr(_)
            | IrInst::LoadCr
            | IrInst::LoadLr
            | IrInst::LoadCtr
            | IrInst::LoadXer
            | IrInst::LoadMsr
            | IrInst::LoadSrr0
            | IrInst::LoadSrr1
            | IrInst::LoadSprg(_)
            | IrInst::LoadTbLo
            | IrInst::LoadTbHi
            | IrInst::LoadDec
            | IrInst::StoreGpr(_)
            | IrInst::StoreCr
            | IrInst::StoreLr
            | IrInst::StoreCtr
            | IrInst::StoreXer
            | IrInst::StoreMsr
            | IrInst::StoreSrr0
            | IrInst::StoreSrr1
            | IrInst::StoreSprg(_)
            | IrInst::StoreDec
            | IrInst::StorePC
            | IrInst::LoadGqr(_)
            | IrInst::LoadFpscr
            | IrInst::StoreGqr(_)
            | IrInst::StoreFpscr
            | IrInst::LoadFprPs0(_)
            | IrInst::LoadFprPs1(_)
            | IrInst::StoreFprPs0(_)
            | IrInst::StoreFprPs1(_) => accessed(inst, m),
            IrInst::I64ExtendI32S
            | IrInst::I64ExtendI32U
            | IrInst::I64Mul
            | IrInst::I64ShrS32
            | IrInst::I64ShrU32
            | IrInst::I32WrapI64
            | IrInst::F64ReinterpretI64
            | IrInst::I64ReinterpretF64 => widened(inst, m),
            IrInst::ReadU8
            | IrInst::ReadU16
            | IrInst::ReadU32
            | IrInst::WriteU8
            | IrInst::WriteU16
            | IrInst::WriteU32
            | IrInst::ReadF64
            | IrInst::WriteF64
            | IrInst::PsqLoad
            | IrInst::PsqStore
            | IrInst::PsqLoadSize => transferred(inst, m),
            IrInst::F64Const(_)
            | IrInst::F64Add
            | IrInst::F64Sub
            | IrInst::F64Mul
            | IrInst::F64Div
            | IrInst::F64Neg
            | IrInst::F64Abs
            | IrInst::F64Sqrt
            | IrInst::F64Nearest
            | IrInst::F64Lt
            | IrInst::F64Gt
            | IrInst::F64Eq
            | IrInst::F64FromI32S
            | IrInst::I32TruncF64S
            | IrInst::I32TruncSatF64S
            | IrInst::F64RoundToSingle
            | IrInst::F64PromoteSingleBits
            | IrInst::I32DemoteToSingleBits
            | IrInst::I32FromF64LowBits
            | IrInst::F64Select => floated(inst, m),
            IrInst::ReturnStatic(pc) => m.returned(pc),
            IrInst::ReturnDynamic => m.returned(m.b()),
            IrInst::BranchIf { taken, fallthrough } => m.returned(
                if m.b() != 0 {
                    taken
                } else {
                    fallthrough
                },
            ),
            IrInst::BranchRegIf { reg_local, fallthrough } => m.returned(
                if m.b() != 0 {
                    m.locals[reg_local.index].word()
                } else {
                    fallthrough
                },
            ),
            IrInst::RaiseException(_) => m,
            _ => computed(inst, m),
        }
    }
}

pub(crate) broadcast proof fn step_i32_const(c: i32, m: Machine)
    requires
        m.exit is None,
    ensures
        #[trigger] step(IrInst::I32Const(c), m) == m.pushed32(c as u32),
{
    reveal(step);
}

pub(crate) broadcast proof fn step_drop(m: Machine)
    requires
        m.exit is None,
    ensures
        #[trigger] step(IrInst::Drop, m) == (Machine { stack: m.stack.rest(), ..m }),
{
    reveal(step);
}

pub(crate) broadcast proof fn step_local_set(l: IrLocal, m: Machine)
    requires
        m.exit is None,
    ensures
        #[trigger] step(IrInst::LocalSet(l), m)
            == (Machine {
            stack: m.stack.rest(),
            locals: m.locals.insert(l.index, m.stack.top()),
            ..m
        }),
{
    reveal(step);
}

pub(crate) broadcast proof fn step_local_get(l: IrLocal, m: Machine)
    requires
        m.exit is None,
    ensures
        #[trigger] step(IrInst::LocalGet(l), m) == m.pushed(m.locals[l.index]),
{
    reveal(step);
}

pub(crate) broadcast proof fn step_local_tee(l: IrLocal, m: Machine)
    requires
        m.exit is None,
    ensures
        #[trigger] step(IrInst::LocalTee(l), m)
            == (Machine {
            locals: m.locals.insert(l.index, m.stack.top()),
            ..m
        }),
{
    reveal(step);
}

pub(crate) broadcast proof fn step_load_gpr(r: u8, m: Machine)
    requires
        m.exit is None,
    ensures
        #[trigger] step(IrInst::LoadGpr(r), m) == m.pushed32(m.sys.cpu.gpr[r as int]),
{
    reveal(step);
}

pub(crate) broadcast proof fn step_load_cr(m: Machine)
    requires
        m.exit is None,
    ensures
        #[trigger] step(IrInst::LoadCr, m) == m.pushed32(m.sys.cpu.cr),
{
    reveal(step);
}

pub(crate) broadcast proof fn step_load_lr(m: Machine)
    requires
        m.exit is None,
    ensures
        #[trigger] step(IrInst::LoadLr, m) == m.pushed32(m.sys.cpu.lr),
{
    reveal(step);
}

pub(crate) broadcast proof fn step_load_ctr(m: Machine)
    requires
        m.exit is None,
    ensures
        #[trigger] step(IrInst::LoadCtr, m) == m.pushed32(m.sys.cpu.ctr),
{
    reveal(step);
}

pub(crate) broadcast proof fn step_load_xer(m: Machine)
    requires
        m.exit is None,
    ensures
        #[trigger] step(IrInst::LoadXer, m) == m.pushed32(m.sys.cpu.xer),
{
    reveal(step);
}

pub(crate) broadcast proof fn step_load_msr(m: Machine)
    requires
        m.exit is None,
    ensures
        #[trigger] step(IrInst::LoadMsr, m) == m.pushed32(m.sys.cpu.msr),
{
    reveal(step);
}

pub(crate) broadcast proof fn step_load_srr0(m: Machine)
    requires
        m.exit is None,
    ensures
        #[trigger] step(IrInst::LoadSrr0, m) == m.pushed32(m.sys.cpu.srr[0]),
{
    reveal(step);
}

pub(crate) broadcast proof fn step_load_srr1(m: Machine)
    requires
        m.exit is None,
    ensures
        #[trigger] step(IrInst::LoadSrr1, m) == m.pushed32(m.sys.cpu.srr[1]),
{
    reveal(step);
}

pub(crate) broadcast proof fn step_load_sprg(i: u8, m: Machine)
    requires
        m.exit is None,
    ensures
        #[trigger] step(IrInst::LoadSprg(i), m) == m.pushed32(m.sys.cpu.sprg[i as int]),
{
    reveal(step);
}

pub(crate) broadcast proof fn step_load_tb_lo(m: Machine)
    requires
        m.exit is None,
    ensures
        #[trigger] step(IrInst::LoadTbLo, m) == m.pushed32(lo32(m.sys.cpu.tb)),
{
    reveal(step);
}

pub(crate) broadcast proof fn step_load_tb_hi(m: Machine)
    requires
        m.exit is None,
    ensures
        #[trigger] step(IrInst::LoadTbHi, m) == m.pushed32(hi32(m.sys.cpu.tb)),
{
    reveal(step);
}

pub(crate) broadcast proof fn step_load_dec(m: Machine)
    requires
        m.exit is None,
    ensures
        #[trigger] step(IrInst::LoadDec, m) == m.pushed32(m.sys.cpu.dec),
{
    reveal(step);
}

pub(crate) broadcast proof fn step_store_gpr(r: u8, m: Machine)
    requires
        m.exit is None,
    ensures
        #[trigger] step(IrInst::StoreGpr(r), m) == m.stored(m.sys.with_gpr(r, m.b())),
{
    reveal(step);
}

pub(crate) broadcast proof fn step_store_cr(m: Machine)
    requires
        m.exit is None,
    ensures
        #[trigger] step(IrInst::StoreCr, m) == m.stored_cpu(CpuView { cr: m.b(), ..m.sys.cpu }),
{
    reveal(step);
}

pub(crate) broadcast proof fn step_store_lr(m: Machine)
    requires
        m.exit is None,
    ensures
        #[trigger] step(IrInst::StoreLr, m) == m.stored_cpu(CpuView { lr: m.b(), ..m.sys.cpu }),
{
    reveal(step);
}

pub(crate) broadcast proof fn step_store_ctr(m: Machine)
    requires
        m.exit is None,
    ensures
        #[trigger] step(IrInst::StoreCtr, m) == m.stored_cpu(CpuView { ctr: m.b(), ..m.sys.cpu }),
{
    reveal(step);
}

pub(crate) broadcast proof fn step_store_xer(m: Machine)
    requires
        m.exit is None,
    ensures
        #[trigger] step(IrInst::StoreXer, m) == m.stored_cpu(CpuView { xer: m.b(), ..m.sys.cpu }),
{
    reveal(step);
}

pub(crate) broadcast proof fn step_store_msr(m: Machine)
    requires
        m.exit is None,
    ensures
        #[trigger] step(IrInst::StoreMsr, m) == m.stored_cpu(CpuView { msr: m.b(), ..m.sys.cpu }),
{
    reveal(step);
}

pub(crate) broadcast proof fn step_store_srr0(m: Machine)
    requires
        m.exit is None,
    ensures
        #[trigger] step(IrInst::StoreSrr0, m)
            == m.stored_cpu(CpuView { srr: m.sys.cpu.srr.update(0, m.b()), ..m.sys.cpu }),
{
    reveal(step);
}

pub(crate) broadcast proof fn step_store_srr1(m: Machine)
    requires
        m.exit is None,
    ensures
        #[trigger] step(IrInst::StoreSrr1, m)
            == m.stored_cpu(CpuView { srr: m.sys.cpu.srr.update(1, m.b()), ..m.sys.cpu }),
{
    reveal(step);
}

pub(crate) broadcast proof fn step_store_sprg(i: u8, m: Machine)
    requires
        m.exit is None,
    ensures
        #[trigger] step(IrInst::StoreSprg(i), m)
            == m.stored_cpu( CpuView { sprg: m.sys.cpu.sprg.update(i as int, m.b()), ..m.sys.cpu },
                ),
{
    reveal(step);
}

pub(crate) broadcast proof fn step_store_dec(m: Machine)
    requires
        m.exit is None,
    ensures
        #[trigger] step(IrInst::StoreDec, m) == m.stored_cpu(CpuView { dec: m.b(), ..m.sys.cpu }),
{
    reveal(step);
}

pub(crate) broadcast proof fn step_store_pc(m: Machine)
    requires
        m.exit is None,
    ensures
        #[trigger] step(IrInst::StorePC, m) == m.stored_cpu(CpuView { pc: m.b(), ..m.sys.cpu }),
{
    reveal(step);
}

pub(crate) broadcast proof fn step_load_gqr(i: u8, m: Machine)
    requires
        m.exit is None,
    ensures
        #[trigger] step(IrInst::LoadGqr(i), m) == m.pushed32(m.sys.cpu.gqr[i as int]),
{
    reveal(step);
}

pub(crate) broadcast proof fn step_load_fpscr(m: Machine)
    requires
        m.exit is None,
    ensures
        #[trigger] step(IrInst::LoadFpscr, m) == m.pushed32(m.sys.cpu.fpscr),
{
    reveal(step);
}

pub(crate) broadcast proof fn step_store_gqr(i: u8, m: Machine)
    requires
        m.exit is None,
    ensures
        #[trigger] step(IrInst::StoreGqr(i), m)
            == m.stored_cpu( CpuView { gqr: m.sys.cpu.gqr.update(i as int, m.b()), ..m.sys.cpu }, ),
{
    reveal(step);
}

pub(crate) broadcast proof fn step_store_fpscr(m: Machine)
    requires
        m.exit is None,
    ensures
        #[trigger] step(IrInst::StoreFpscr, m)
            == m.stored_cpu(CpuView { fpscr: m.b(), ..m.sys.cpu }),
{
    reveal(step);
}

pub(crate) broadcast proof fn step_load_fpr_ps0(r: u8, m: Machine)
    requires
        m.exit is None,
    ensures
        #[trigger] step(IrInst::LoadFprPs0(r), m) == m.pushed(Value::F64(m.sys.cpu.ps0[r as int])),
{
    reveal(step);
}

pub(crate) broadcast proof fn step_load_fpr_ps1(r: u8, m: Machine)
    requires
        m.exit is None,
    ensures
        #[trigger] step(IrInst::LoadFprPs1(r), m) == m.pushed(Value::F64(m.sys.cpu.ps1[r as int])),
{
    reveal(step);
}

pub(crate) broadcast proof fn step_store_fpr_ps0(r: u8, m: Machine)
    requires
        m.exit is None,
    ensures
        #[trigger] step(IrInst::StoreFprPs0(r), m)
            == m.stored_cpu( CpuView { ps0: m.sys.cpu.ps0.update(r as int, m.y()), ..m.sys.cpu }, ),
{
    reveal(step);
}

pub(crate) broadcast proof fn step_store_fpr_ps1(r: u8, m: Machine)
    requires
        m.exit is None,
    ensures
        #[trigger] step(IrInst::StoreFprPs1(r), m)
            == m.stored_cpu( CpuView { ps1: m.sys.cpu.ps1.update(r as int, m.y()), ..m.sys.cpu }, ),
{
    reveal(step);
}

pub(crate) broadcast proof fn step_i32_add(m: Machine)
    requires
        m.exit is None,
    ensures
        #[trigger] step(IrInst::I32Add, m) == m.binary(wrapped(m.a() + m.b())),
{
    reveal(step);
}

pub(crate) broadcast proof fn step_i32_sub(m: Machine)
    requires
        m.exit is None,
    ensures
        #[trigger] step(IrInst::I32Sub, m) == m.binary(wrapped(m.a() - m.b())),
{
    reveal(step);
}

pub(crate) broadcast proof fn step_i32_mul(m: Machine)
    requires
        m.exit is None,
    ensures
        #[trigger] step(IrInst::I32Mul, m)
            == m.binary(((m.a() as i32) * (m.b() as i32)) as i64 as u32),
{
    reveal(step);
}

pub(crate) broadcast proof fn step_i32_div_s(m: Machine)
    requires
        m.exit is None,
    ensures
        #[trigger] step(IrInst::I32DivS, m)
            == m.binary( wrapped(truncated_quotient((m.a() as i32) as int, (m.b() as i32) as int)),
                ),
{
    reveal(step);
}

pub(crate) broadcast proof fn step_i32_div_u(m: Machine)
    requires
        m.exit is None,
    ensures
        #[trigger] step(IrInst::I32DivU, m) == m.binary(m.a() / m.b()),
{
    reveal(step);
}

pub(crate) broadcast proof fn step_i32_and(m: Machine)
    requires
        m.exit is None,
    ensures
        #[trigger] step(IrInst::I32And, m) == m.binary(m.a() & m.b()),
{
    reveal(step);
}

pub(crate) broadcast proof fn step_i32_or(m: Machine)
    requires
        m.exit is None,
    ensures
        #[trigger] step(IrInst::I32Or, m) == m.binary(m.a() | m.b()),
{
    reveal(step);
}

pub(crate) broadcast proof fn step_i32_xor(m: Machine)
    requires
        m.exit is None,
    ensures
        #[trigger] step(IrInst::I32Xor, m) == m.binary(m.a() ^ m.b()),
{
    reveal(step);
}

pub(crate) broadcast proof fn step_i32_not(m: Machine)
    requires
        m.exit is None,
    ensures
        #[trigger] step(IrInst::I32Not, m) == m.unary(!m.b()),
{
    reveal(step);
}

pub(crate) broadcast proof fn step_i32_shl(m: Machine)
    requires
        m.exit is None,
    ensures
        #[trigger] step(IrInst::I32Shl, m) == m.binary(m.a() << (m.b() & 31)),
{
    reveal(step);
}

pub(crate) broadcast proof fn step_i32_shr_u(m: Machine)
    requires
        m.exit is None,
    ensures
        #[trigger] step(IrInst::I32ShrU, m) == m.binary(m.a() >> (m.b() & 31)),
{
    reveal(step);
}

pub(crate) broadcast proof fn step_i32_shr_s(m: Machine)
    requires
        m.exit is None,
    ensures
        #[trigger] step(IrInst::I32ShrS, m) == m.binary(((m.a() as i32) >> (m.b() & 31)) as u32),
{
    reveal(step);
}

pub(crate) broadcast proof fn step_i32_rotl(m: Machine)
    requires
        m.exit is None,
    ensures
        #[trigger] step(IrInst::I32Rotl, m) == m.binary(rotated_left(m.a(), m.b())),
{
    reveal(step);
}

pub(crate) broadcast proof fn step_i32_clz(m: Machine)
    requires
        m.exit is None,
    ensures
        #[trigger] step(IrInst::I32Clz, m) == m.unary(m.b().leading_zeros()),
{
    reveal(step);
}

pub(crate) broadcast proof fn step_i32_ctz(m: Machine)
    requires
        m.exit is None,
    ensures
        #[trigger] step(IrInst::I32Ctz, m) == m.unary(m.b().trailing_zeros()),
{
    reveal(step);
}

pub(crate) broadcast proof fn step_i32_eq(m: Machine)
    requires
        m.exit is None,
    ensures
        #[trigger] step(IrInst::I32Eq, m) == m.binary(truth(m.a() == m.b())),
{
    reveal(step);
}

pub(crate) broadcast proof fn step_i32_ne(m: Machine)
    requires
        m.exit is None,
    ensures
        #[trigger] step(IrInst::I32Ne, m) == m.binary(truth(m.a() != m.b())),
{
    reveal(step);
}

pub(crate) broadcast proof fn step_i32_lt_s(m: Machine)
    requires
        m.exit is None,
    ensures
        #[trigger] step(IrInst::I32LtS, m) == m.binary(truth((m.a() as i32) < (m.b() as i32))),
{
    reveal(step);
}

pub(crate) broadcast proof fn step_i32_lt_u(m: Machine)
    requires
        m.exit is None,
    ensures
        #[trigger] step(IrInst::I32LtU, m) == m.binary(truth(m.a() < m.b())),
{
    reveal(step);
}

pub(crate) broadcast proof fn step_i32_gt_s(m: Machine)
    requires
        m.exit is None,
    ensures
        #[trigger] step(IrInst::I32GtS, m) == m.binary(truth((m.a() as i32) > (m.b() as i32))),
{
    reveal(step);
}

pub(crate) broadcast proof fn step_i32_gt_u(m: Machine)
    requires
        m.exit is None,
    ensures
        #[trigger] step(IrInst::I32GtU, m) == m.binary(truth(m.a() > m.b())),
{
    reveal(step);
}

pub(crate) broadcast proof fn step_i32_eqz(m: Machine)
    requires
        m.exit is None,
    ensures
        #[trigger] step(IrInst::I32Eqz, m) == m.unary(truth(m.b() == 0)),
{
    reveal(step);
}

pub(crate) broadcast proof fn step_i32_extend8_s(m: Machine)
    requires
        m.exit is None,
    ensures
        #[trigger] step(IrInst::I32Extend8S, m) == m.unary(extended8(m.b())),
{
    reveal(step);
}

pub(crate) broadcast proof fn step_i32_extend16_s(m: Machine)
    requires
        m.exit is None,
    ensures
        #[trigger] step(IrInst::I32Extend16S, m) == m.unary(extended16(m.b())),
{
    reveal(step);
}

pub(crate) broadcast proof fn step_i32_bswap(m: Machine)
    requires
        m.exit is None,
    ensures
        #[trigger] step(IrInst::I32Bswap, m) == m.unary(swapped(m.b())),
{
    reveal(step);
}

pub(crate) broadcast proof fn step_i32_bswap16(m: Machine)
    requires
        m.exit is None,
    ensures
        #[trigger] step(IrInst::I32Bswap16, m) == m.unary(half_swapped(m.b())),
{
    reveal(step);
}

pub(crate) broadcast proof fn step_i64_extend_i32_s(m: Machine)
    requires
        m.exit is None,
    ensures
        #[trigger] step(IrInst::I64ExtendI32S, m)
            == (Machine { stack: m.stack.rest(), ..m }).pushed(Value::I64((m.b() as i32) as int)),
{
    reveal(step);
}

pub(crate) broadcast proof fn step_i64_extend_i32_u(m: Machine)
    requires
        m.exit is None,
    ensures
        #[trigger] step(IrInst::I64ExtendI32U, m)
            == (Machine { stack: m.stack.rest(), ..m }).pushed(Value::I64(m.b() as int)),
{
    reveal(step);
}

pub(crate) broadcast proof fn step_i64_mul(m: Machine)
    requires
        m.exit is None,
    ensures
        #[trigger] step(IrInst::I64Mul, m)
            == (Machine { stack: m.stack.rest().rest(),
                ..m }).pushed( Value::I64(m.stack.rest().top().long() * m.stack.top().long()), ),
{
    reveal(step);
}

pub(crate) broadcast proof fn step_i64_shr_s32(m: Machine)
    requires
        m.exit is None,
    ensures
        #[trigger] step(IrInst::I64ShrS32, m)
            == m.unary(((m.stack.top().long() as i64) >> 32u32) as u32),
{
    reveal(step);
}

pub(crate) broadcast proof fn step_i64_shr_u32(m: Machine)
    requires
        m.exit is None,
    ensures
        #[trigger] step(IrInst::I64ShrU32, m)
            == m.unary((m.stack.top().long() % 0x1_0000_0000_0000_0000 / 0x1_0000_0000) as u32),
{
    reveal(step);
}

pub(crate) broadcast proof fn step_i32_wrap_i64(m: Machine)
    requires
        m.exit is None,
    ensures
        #[trigger] step(IrInst::I32WrapI64, m) == m.unary(wrapped(m.stack.top().long())),
{
    reveal(step);
}

pub(crate) broadcast proof fn step_f64_reinterpret_i64(m: Machine)
    requires
        m.exit is None,
    ensures
        #[trigger] step(IrInst::F64ReinterpretI64, m)
            == m.unary64( (m.stack.top().long() % 0x1_0000_0000_0000_0000) as u64, ),
{
    reveal(step);
}

pub(crate) broadcast proof fn step_i64_reinterpret_f64(m: Machine)
    requires
        m.exit is None,
    ensures
        #[trigger] step(IrInst::I64ReinterpretF64, m)
            == (Machine { stack: m.stack.rest(), ..m }).pushed(Value::I64(m.y() as int)),
{
    reveal(step);
}

pub(crate) broadcast proof fn step_read_u8(m: Machine)
    requires
        m.exit is None,
    ensures
        #[trigger] step(IrInst::ReadU8, m)
            == m.read(crate::ppcint::memory::widened8(m.sys.read8(m.b()))),
{
    reveal(step);
}

pub(crate) broadcast proof fn step_read_u16(m: Machine)
    requires
        m.exit is None,
    ensures
        #[trigger] step(IrInst::ReadU16, m)
            == m.read(crate::ppcint::memory::widened16(m.sys.read16(m.b()))),
{
    reveal(step);
}

pub(crate) broadcast proof fn step_read_u32(m: Machine)
    requires
        m.exit is None,
    ensures
        #[trigger] step(IrInst::ReadU32, m) == m.read(m.sys.read32(m.b())),
{
    reveal(step);
}

pub(crate) broadcast proof fn step_write_u8(m: Machine)
    requires
        m.exit is None,
    ensures
        #[trigger] step(IrInst::WriteU8, m) == m.wrote(m.sys.written8(m.a(), (m.b() & 0xFF) as u8)),
{
    reveal(step);
}

pub(crate) broadcast proof fn step_write_u16(m: Machine)
    requires
        m.exit is None,
    ensures
        #[trigger] step(IrInst::WriteU16, m)
            == m.wrote(m.sys.written16(m.a(), (m.b() & 0xFFFF) as u16)),
{
    reveal(step);
}

pub(crate) broadcast proof fn step_write_u32(m: Machine)
    requires
        m.exit is None,
    ensures
        #[trigger] step(IrInst::WriteU32, m) == m.wrote(m.sys.written32(m.a(), m.b())),
{
    reveal(step);
}

pub(crate) broadcast proof fn step_read_f64(m: Machine)
    requires
        m.exit is None,
    ensures
        #[trigger] step(IrInst::ReadF64, m) == m.unary64(m.sys.read64(m.b())),
{
    reveal(step);
}

pub(crate) broadcast proof fn step_write_f64(m: Machine)
    requires
        m.exit is None,
    ensures
        #[trigger] step(IrInst::WriteF64, m) == m.wrote(m.sys.written64(m.a(), m.y())),
{
    reveal(step);
}

pub(crate) broadcast proof fn step_psq_load(m: Machine)
    requires
        m.exit is None,
    ensures
        #[trigger] step(IrInst::PsqLoad, m)
            == m.binary64((m.doubles.quantized_load)(m.sys.ram, m.a(), m.b())),
{
    reveal(step);
}

pub(crate) broadcast proof fn step_psq_store(m: Machine)
    requires
        m.exit is None,
    ensures
        #[trigger] step(IrInst::PsqStore, m) == m.quantized(),
{
    reveal(step);
}

pub(crate) broadcast proof fn step_psq_load_size(m: Machine)
    requires
        m.exit is None,
    ensures
        #[trigger] step(IrInst::PsqLoadSize, m) == m.unary((m.doubles.quantized_size)(m.b())),
{
    reveal(step);
}

pub(crate) broadcast proof fn step_f64_const(bits: u64, m: Machine)
    requires
        m.exit is None,
    ensures
        #[trigger] step(IrInst::F64Const(bits), m) == m.pushed(Value::F64(bits)),
{
    reveal(step);
}

pub(crate) broadcast proof fn step_f64_add(m: Machine)
    requires
        m.exit is None,
    ensures
        #[trigger] step(IrInst::F64Add, m) == m.binary64((m.doubles.sum)(m.x(), m.y())),
{
    reveal(step);
}

pub(crate) broadcast proof fn step_f64_sub(m: Machine)
    requires
        m.exit is None,
    ensures
        #[trigger] step(IrInst::F64Sub, m) == m.binary64((m.doubles.difference)(m.x(), m.y())),
{
    reveal(step);
}

pub(crate) broadcast proof fn step_f64_mul(m: Machine)
    requires
        m.exit is None,
    ensures
        #[trigger] step(IrInst::F64Mul, m) == m.binary64((m.doubles.product)(m.x(), m.y())),
{
    reveal(step);
}

pub(crate) broadcast proof fn step_f64_div(m: Machine)
    requires
        m.exit is None,
    ensures
        #[trigger] step(IrInst::F64Div, m) == m.binary64((m.doubles.quotient)(m.x(), m.y())),
{
    reveal(step);
}

pub(crate) broadcast proof fn step_f64_neg(m: Machine)
    requires
        m.exit is None,
    ensures
        #[trigger] step(IrInst::F64Neg, m) == m.unary64((m.doubles.negated)(m.y())),
{
    reveal(step);
}

pub(crate) broadcast proof fn step_f64_abs(m: Machine)
    requires
        m.exit is None,
    ensures
        #[trigger] step(IrInst::F64Abs, m) == m.unary64((m.doubles.magnitude)(m.y())),
{
    reveal(step);
}

pub(crate) broadcast proof fn step_f64_sqrt(m: Machine)
    requires
        m.exit is None,
    ensures
        #[trigger] step(IrInst::F64Sqrt, m) == m.unary64((m.doubles.root)(m.y())),
{
    reveal(step);
}

pub(crate) broadcast proof fn step_f64_nearest(m: Machine)
    requires
        m.exit is None,
    ensures
        #[trigger] step(IrInst::F64Nearest, m) == m.unary64((m.doubles.nearest)(m.y())),
{
    reveal(step);
}

pub(crate) broadcast proof fn step_f64_lt(m: Machine)
    requires
        m.exit is None,
    ensures
        #[trigger] step(IrInst::F64Lt, m) == m.binary(truth((m.doubles.less)(m.x(), m.y()))),
{
    reveal(step);
}

pub(crate) broadcast proof fn step_f64_gt(m: Machine)
    requires
        m.exit is None,
    ensures
        #[trigger] step(IrInst::F64Gt, m) == m.binary(truth((m.doubles.greater)(m.x(), m.y()))),
{
    reveal(step);
}

pub(crate) broadcast proof fn step_f64_eq(m: Machine)
    requires
        m.exit is None,
    ensures
        #[trigger] step(IrInst::F64Eq, m) == m.binary(truth((m.doubles.equal)(m.x(), m.y()))),
{
    reveal(step);
}

pub(crate) broadcast proof fn step_f64_from_i32_s(m: Machine)
    requires
        m.exit is None,
    ensures
        #[trigger] step(IrInst::F64FromI32S, m) == m.unary64((m.doubles.of_signed)(m.b())),
{
    reveal(step);
}

pub(crate) broadcast proof fn step_i32_trunc_f64_s(m: Machine)
    requires
        m.exit is None,
    ensures
        #[trigger] step(IrInst::I32TruncF64S, m) == m.unary((m.doubles.truncated)(m.y())),
{
    reveal(step);
}

pub(crate) broadcast proof fn step_i32_trunc_sat_f64_s(m: Machine)
    requires
        m.exit is None,
    ensures
        #[trigger] step(IrInst::I32TruncSatF64S, m)
            == m.unary((m.doubles.truncated_clamped)(m.y())),
{
    reveal(step);
}

pub(crate) broadcast proof fn step_f64_round_to_single(m: Machine)
    requires
        m.exit is None,
    ensures
        #[trigger] step(IrInst::F64RoundToSingle, m)
            == m.unary64( (m.doubles.promoted)((m.doubles.demoted)(m.y())), ),
{
    reveal(step);
}

pub(crate) broadcast proof fn step_f64_promote_single_bits(m: Machine)
    requires
        m.exit is None,
    ensures
        #[trigger] step(IrInst::F64PromoteSingleBits, m) == m.unary64((m.doubles.promoted)(m.b())),
{
    reveal(step);
}

pub(crate) broadcast proof fn step_i32_demote_to_single_bits(m: Machine)
    requires
        m.exit is None,
    ensures
        #[trigger] step(IrInst::I32DemoteToSingleBits, m) == m.unary((m.doubles.demoted)(m.y())),
{
    reveal(step);
}

pub(crate) broadcast proof fn step_i32_from_f64_low_bits(m: Machine)
    requires
        m.exit is None,
    ensures
        #[trigger] step(IrInst::I32FromF64LowBits, m) == m.unary(wrapped(m.y() as int)),
{
    reveal(step);
}

pub(crate) broadcast proof fn step_f64_select(m: Machine)
    requires
        m.exit is None,
    ensures
        #[trigger] step(IrInst::F64Select, m) == m.selected(),
{
    reveal(step);
}

pub(crate) broadcast proof fn step_return_static(pc: u32, m: Machine)
    requires
        m.exit is None,
    ensures
        #[trigger] step(IrInst::ReturnStatic(pc), m) == m.returned(pc),
{
    reveal(step);
}

pub(crate) broadcast proof fn step_return_dynamic(m: Machine)
    requires
        m.exit is None,
    ensures
        #[trigger] step(IrInst::ReturnDynamic, m) == m.returned(m.b()),
{
    reveal(step);
}

pub(crate) broadcast proof fn step_branch_if(taken: u32, fallthrough: u32, m: Machine)
    requires
        m.exit is None,
    ensures
        #[trigger] step(IrInst::BranchIf { taken, fallthrough }, m) == m.returned(
            if m.b() != 0 {
                taken
            } else {
                fallthrough
            },
        ),
{
    reveal(step);
}

pub(crate) broadcast proof fn step_branch_reg_if(reg_local: IrLocal, fallthrough: u32, m: Machine)
    requires
        m.exit is None,
    ensures
        #[trigger] step(IrInst::BranchRegIf { reg_local, fallthrough }, m) == m.returned(
            if m.b() != 0 {
                m.locals[reg_local.index].word()
            } else {
                fallthrough
            },
        ),
{
    reveal(step);
}

/// What each instruction on words does.
pub broadcast group group_steps {
    step_i32_const,
    step_drop,
    step_local_set,
    step_local_get,
    step_local_tee,
    step_load_gpr,
    step_load_cr,
    step_load_lr,
    step_load_ctr,
    step_load_xer,
    step_load_msr,
    step_load_srr0,
    step_load_srr1,
    step_load_sprg,
    step_load_tb_lo,
    step_load_tb_hi,
    step_load_dec,
    step_store_gpr,
    step_store_cr,
    step_store_lr,
    step_store_ctr,
    step_store_xer,
    step_store_msr,
    step_store_srr0,
    step_store_srr1,
    step_store_sprg,
    step_store_dec,
    step_store_pc,
    step_i32_add,
    step_i32_sub,
    step_i32_mul,
    step_i32_div_s,
    step_i32_div_u,
    step_i32_and,
    step_i32_or,
    step_i32_xor,
    step_i32_not,
    step_i32_shl,
    step_i32_shr_u,
    step_i32_shr_s,
    step_i32_rotl,
    step_i32_clz,
    step_i32_ctz,
    step_i32_eq,
    step_i32_ne,
    step_i32_lt_s,
    step_i32_lt_u,
    step_i32_gt_s,
    step_i32_gt_u,
    step_i32_eqz,
    step_i32_extend8_s,
    step_i32_extend16_s,
    step_i32_bswap,
    step_i32_bswap16,
    step_i64_extend_i32_s,
    step_i64_extend_i32_u,
    step_i64_mul,
    step_i64_shr_s32,
    step_i64_shr_u32,
    step_i32_wrap_i64,
    step_read_u8,
    step_read_u16,
    step_read_u32,
    step_write_u8,
    step_write_u16,
    step_write_u32,
    step_return_static,
    step_return_dynamic,
    step_branch_if,
    step_branch_reg_if,
}

/// What each instruction on doubles, and on the registers that hold them, does.
pub broadcast group group_float_steps {
    step_load_gqr,
    step_load_fpscr,
    step_i64_reinterpret_f64,
    step_store_fpr_ps1,
    step_store_fpr_ps0,
    step_store_fpscr,
    step_store_gqr,
    step_load_fpr_ps0,
    step_load_fpr_ps1,
    step_f64_reinterpret_i64,
    step_read_f64,
    step_write_f64,
    step_psq_load,
    step_psq_store,
    step_psq_load_size,
    step_f64_const,
    step_f64_add,
    step_f64_sub,
    step_f64_mul,
    step_f64_div,
    step_f64_neg,
    step_f64_abs,
    step_f64_sqrt,
    step_f64_nearest,
    step_f64_lt,
    step_f64_gt,
    step_f64_eq,
    step_f64_from_i32_s,
    step_i32_trunc_f64_s,
    step_i32_trunc_sat_f64_s,
    step_f64_round_to_single,
    step_f64_promote_single_bits,
    step_i32_demote_to_single_bits,
    step_i32_from_f64_low_bits,
    step_f64_select,
}

/// The machine after running the first `count` instructions of `code`.
pub open spec fn run_to(code: Seq<IrInst>, count: nat, m: Machine) -> Machine
    decreases count,
{
    if count == 0 {
        m
    } else {
        step(code[count - 1], run_to(code, (count - 1) as nat, m))
    }
}

/// The machine after running `code`.
pub open spec fn run(code: Seq<IrInst>, m: Machine) -> Machine {
    run_to(code, code.len(), m)
}

pub(crate) proof fn run_1(i1: IrInst, m: Machine)
    ensures
        run(seq![i1], m) == step(i1, m),
{
    reveal_with_fuel(run_to, 2);
}

pub(crate) proof fn run_2(i1: IrInst, i2: IrInst, m: Machine)
    ensures
        run(seq![i1, i2], m) == step(i2, step(i1, m)),
{
    reveal_with_fuel(run_to, 3);
}

pub(crate) proof fn run_3(i1: IrInst, i2: IrInst, i3: IrInst, m: Machine)
    ensures
        run(seq![i1, i2, i3], m) == step(i3, step(i2, step(i1, m))),
{
    reveal_with_fuel(run_to, 4);
}

pub(crate) proof fn run_4(i1: IrInst, i2: IrInst, i3: IrInst, i4: IrInst, m: Machine)
    ensures
        run(seq![i1, i2, i3, i4], m) == step(i4, step(i3, step(i2, step(i1, m)))),
{
    reveal_with_fuel(run_to, 5);
}

pub(crate) proof fn run_5(i1: IrInst, i2: IrInst, i3: IrInst, i4: IrInst, i5: IrInst, m: Machine)
    ensures
        run(seq![i1, i2, i3, i4, i5], m) == step(i5, step(i4, step(i3, step(i2, step(i1, m))))),
{
    reveal_with_fuel(run_to, 6);
}

pub(crate) proof fn run_6(i1: IrInst, i2: IrInst, i3: IrInst, i4: IrInst, i5: IrInst, i6: IrInst,
    m: Machine)
    ensures
        run(seq![i1, i2, i3, i4, i5, i6], m) == step(i6, step(i5, step(i4, step(i3, step(i2,
            step(i1, m)))))),
{
    reveal_with_fuel(run_to, 7);
}

pub(crate) proof fn run_7(i1: IrInst, i2: IrInst, i3: IrInst, i4: IrInst, i5: IrInst, i6: IrInst,
    i7: IrInst, m: Machine)
    ensures
        run(seq![i1, i2, i3, i4, i5, i6, i7], m) == step(i7, step(i6, step(i5, step(i4, step(i3,
            step(i2, step(i1, m))))))),
{
    reveal_with_fuel(run_to, 8);
}

pub(crate) proof fn run_8(i1: IrInst, i2: IrInst, i3: IrInst, i4: IrInst, i5: IrInst, i6: IrInst,
    i7: IrInst, i8: IrInst, m: Machine)
    ensures
        run(seq![i1, i2, i3, i4, i5, i6, i7, i8], m) == step(i8, step(i7, step(i6, step(i5,
            step(i4, step(i3, step(i2, step(i1, m)))))))),
{
    reveal_with_fuel(run_to, 9);
}

/// What has run does not depend on what is still to run.
proof fn lemma_run_prefix(first: Seq<IrInst>, second: Seq<IrInst>, count: nat, m: Machine)
    requires
        count <= first.len(),
    ensures
        run_to(first + second, count, m) == run_to(first, count, m),
    decreases count,
{
    if count > 0 {
        lemma_run_prefix(first, second, (count - 1) as nat, m);
    }
}

proof fn lemma_run_suffix(first: Seq<IrInst>, second: Seq<IrInst>, count: nat, m: Machine)
    requires
        count <= second.len(),
    ensures
        run_to(first + second, first.len() + count, m) == run_to(second, count, run(first, m)),
    decreases count,
{
    if count == 0 {
        lemma_run_prefix(first, second, first.len(), m);
    } else {
        lemma_run_suffix(first, second, (count - 1) as nat, m);
    }
}

/// Running two pieces of code one behind the other is running the second from where
/// the first ends.
pub broadcast proof fn run_in_pieces(first: Seq<IrInst>, second: Seq<IrInst>, m: Machine)
    ensures
        #[trigger] run(first + second, m) == run(second, run(first, m)),
{
    lemma_run_suffix(first, second, second.len(), m);
}

} // verus!
