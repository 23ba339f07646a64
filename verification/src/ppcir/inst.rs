//! The instruction set of the intermediate representation.
//!
//! Every instruction pops its inputs from the top of a virtual operand stack
//! and pushes its result, if any. Stack notation: `(inputs) -> (outputs)`.

use vstd::prelude::*;

verus! {

/// Type tag for IR values.
#[derive(Debug, Clone, Copy, PartialEq, Eq, Structural)]
pub enum IrTy {
    /// 32-bit integer (general-purpose registers, CR, LR, CTR, XER, ...).
    I32,
    /// 64-bit IEEE-754 double (floating-point registers, paired-single slots).
    F64,
}

/// A typed local variable slot. Index 0 is always the pointer to the register
/// file (the function parameter); allocated locals start at index 1.
#[derive(Debug, Clone, Copy, PartialEq, Eq, Structural)]
pub struct IrLocal {
    pub index: u32,
    pub ty: IrTy,
}

/// One IR instruction. Arithmetic and comparisons work on the operand stack;
/// loads and stores access the guest registers.
#[derive(Debug, Clone, Copy, PartialEq, Eq, Structural)]
pub enum IrInst {
    /// `() -> (i32)`: push a constant.
    I32Const(i32),
    /// `() -> (f64)`: push the double with this bit pattern.
    F64Const(u64),
    /// `(T) -> ()`: discard the top of the stack.
    Drop,
    /// `(T) -> ()`
    LocalSet(IrLocal),
    /// `() -> (T)`
    LocalGet(IrLocal),
    /// `(T) -> (T)`
    LocalTee(IrLocal),
    /// `() -> (i32)`
    LoadGpr(u8),
    /// `() -> (f64)`
    LoadFprPs0(u8),
    /// `() -> (f64)`
    LoadFprPs1(u8),
    LoadCr,
    LoadLr,
    LoadCtr,
    LoadXer,
    LoadMsr,
    LoadSrr0,
    LoadSrr1,
    /// SPRG number 0 to 3.
    LoadSprg(u8),
    LoadTbLo,
    LoadTbHi,
    LoadDec,
    /// `() -> (i32)`: graphics quantization register 0 to 7.
    LoadGqr(u8),
    /// `() -> (i32)`: the raw bits of FPSCR.
    LoadFpscr,
    /// `(i32) -> ()`
    StoreGpr(u8),
    /// `(f64) -> ()`
    StoreFprPs0(u8),
    /// `(f64) -> ()`
    StoreFprPs1(u8),
    StoreCr,
    StoreLr,
    StoreCtr,
    StoreXer,
    StoreMsr,
    StoreSrr0,
    StoreSrr1,
    StoreSprg(u8),
    StoreDec,
    /// Write the program counter field.
    StorePC,
    /// `(i32) -> ()`: graphics quantization register 0 to 7.
    StoreGqr(u8),
    /// `(i32) -> ()`: the raw bits of FPSCR.
    StoreFpscr,
    I32Add,
    I32Sub,
    I32Mul,
    I32DivS,
    I32DivU,
    I32And,
    I32Or,
    I32Xor,
    /// `(i32) -> (i32)`: bitwise NOT.
    I32Not,
    I32Shl,
    I32ShrU,
    I32ShrS,
    I32Rotl,
    I32Clz,
    I32Ctz,
    /// Comparisons give 0 or 1.
    I32Eq,
    I32Ne,
    I32LtS,
    I32LtU,
    I32GtS,
    I32GtU,
    I32Eqz,
    I32Extend8S,
    I32Extend16S,
    F64Add,
    F64Sub,
    F64Mul,
    F64Div,
    F64Neg,
    F64Abs,
    F64Sqrt,
    /// `(f64, f64) -> (i32)`: 1 if lhs < rhs, 0 otherwise (0 for NaN inputs).
    F64Lt,
    /// `(f64, f64) -> (i32)`: 1 if lhs > rhs, 0 otherwise (0 for NaN inputs).
    F64Gt,
    /// `(f64, f64) -> (i32)`: 1 if lhs == rhs, 0 otherwise (0 for NaN inputs).
    F64Eq,
    /// `(i32) -> (f64)`: signed conversion.
    F64FromI32S,
    /// `(f64) -> (i32)`: truncate toward zero.
    I32TruncF64S,
    /// `(f64) -> (i32)`: truncate toward zero, clamping on overflow and NaN.
    I32TruncSatF64S,
    /// `(f64) -> (f64)`: round to single precision and back.
    F64RoundToSingle,
    /// `(i32) -> (f64)`: take the bits as a single and promote it.
    F64PromoteSingleBits,
    /// `(f64) -> (i32)`: demote to a single and take its bits.
    I32DemoteToSingleBits,
    /// `(f64) -> (i32)`: low 32 bits of the bit pattern.
    I32FromF64LowBits,
    /// `(i64) -> (f64)`: reinterpret the bit pattern.
    F64ReinterpretI64,
    /// `(f64) -> (f64)`: round to the nearest integer, ties to even.
    F64Nearest,
    /// `(f64, f64, i32) -> (f64)`: the first double if the condition is not 0.
    F64Select,
    /// `(i32) -> (i32)`: reverse all four bytes.
    I32Bswap,
    /// `(i32) -> (i32)`: reverse the low two bytes, zero-extend.
    I32Bswap16,
    /// `(i32) -> (i64)`
    I64ExtendI32S,
    /// `(i32) -> (i64)`
    I64ExtendI32U,
    /// `(i64, i64) -> (i64)`
    I64Mul,
    /// `(i64) -> (i32)`: arithmetic shift right by 32, then wrap.
    I64ShrS32,
    /// `(i64) -> (i32)`: logical shift right by 32, then wrap.
    I64ShrU32,
    /// `(f64) -> (i64)`: reinterpret the bit pattern.
    I64ReinterpretF64,
    /// `(i64) -> (i32)`: low 32 bits.
    I32WrapI64,
    ReadU8,
    ReadU16,
    ReadU32,
    ReadF64,
    WriteU8,
    WriteU16,
    WriteU32,
    WriteF64,
    /// `(addr: i32, gqr: i32) -> (f64)`: load one dequantized element.
    PsqLoad,
    /// `(addr: i32, gqr: i32, val: f64) -> (i32)`: quantize and store one
    /// element; gives the number of bytes written.
    PsqStore,
    /// `(gqr: i32) -> (i32)`: byte size of one load element.
    PsqLoadSize,
    /// Return a constant program counter.
    ReturnStatic(u32),
    /// Return the i32 on top of the stack as the next program counter.
    ReturnDynamic,
    /// `(i32) -> ()`: return `taken` if the condition is not 0, else
    /// `fallthrough`.
    BranchIf { taken: u32, fallthrough: u32 },
    /// `(i32) -> ()`: if the condition is not 0, store `reg_local` into the
    /// program counter and return 0; else return `fallthrough`.
    BranchRegIf { reg_local: IrLocal, fallthrough: u32 },
    /// Call the exception hook with this vector and terminate.
    RaiseException(i32),
}

/// A compiled IR basic block.
#[derive(Debug, Clone)]
pub struct IrBlock {
    pub insts: Vec<IrInst>,
    pub instruction_count: u32,
    pub cycles: u32,
    /// Types of the allocated locals: entry `n` is the type of local `n + 1`.
    pub local_types: Vec<IrTy>,
    /// Names of guest opcodes that have no translation.
    pub unimplemented_ops: Vec<String>,
}

/// The views of `labels`.
pub open spec fn label_views(labels: Seq<String>) -> Seq<Seq<char>> {
    labels.map_values(|s: String| s@)
}

impl Default for IrBlock {
    /// An empty block.
    fn default() -> (block: Self)
        ensures
            block.insts@ == Seq::<IrInst>::empty(),
            block.local_types@ == Seq::<IrTy>::empty(),
            block.unimplemented_ops@ == Seq::<String>::empty(),
            block.instruction_count == 0,
            block.cycles == 0,
    {
        IrBlock {
            insts: Vec::new(),
            instruction_count: 0,
            cycles: 0,
            local_types: Vec::new(),
            unimplemented_ops: Vec::new(),
        }
    }
}

/// The `n`th local of a block, counting from 1, with type `ty`.
pub open spec fn local_at(n: nat, ty: IrTy) -> IrLocal {
    IrLocal { index: n as u32, ty }
}

impl IrBlock {
    /// `self` is `before` with `code` appended to its instructions and `locals`
    /// to its locals.
    pub open spec fn extends(self, before: IrBlock, code: Seq<IrInst>, locals: Seq<IrTy>) -> bool {
        &&& self.insts@ =~= before.insts@ + code
        &&& self.local_types@ =~= before.local_types@ + locals
        &&& self.instruction_count == before.instruction_count
        &&& self.cycles == before.cycles
        &&& self.unimplemented_ops == before.unimplemented_ops
    }

    /// Allocates a new typed local and returns its handle.
    pub fn alloc_local(&mut self, ty: IrTy) -> (local: IrLocal)
        requires
            old(self).local_types@.len() < u32::MAX,
        ensures
            local == local_at(old(self).local_types@.len() + 1, ty),
            final(self).extends(*old(self), seq![], seq![ty]),
    {
        let index: u32 = (self.local_types.len() as u32) + 1;
        self.local_types.push(ty);
        IrLocal { index, ty }
    }

    /// Appends one instruction.
    pub fn push(&mut self, inst: IrInst)
        ensures
            final(self).extends(*old(self), seq![inst], seq![]),
    {
        self.insts.push(inst);
    }

    /// Appends several instructions.
    pub fn append(&mut self, code: Vec<IrInst>)
        ensures
            final(self).extends(*old(self), code@, seq![]),
    {
        let mut code = code;
        self.insts.append(&mut code);
    }
}

} // verus!
