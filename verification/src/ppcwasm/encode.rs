//! WebAssembly instructions and the encoder that turns them into a module.
//!
//! The binary format is the business of the `wasm_encoder` crate. Its section
//! builders are append-only, so each is described by the list of entries that
//! were added to it; the finished bytes depend on those lists alone.

use vstd::prelude::*;
use wasm_encoder::{
    BlockType, CodeSection, EntityType, ExportKind, ExportSection, Function, FunctionSection,
    GlobalType, Ieee64, ImportSection, Instruction, MemArg, MemoryType, Module, TypeSection,
    ValType,
};

use super::imports;

verus! {

/// Type of a WebAssembly value.
#[derive(Clone, Copy, Debug, PartialEq, Eq, Structural)]
pub enum ValTy {
    I32,
    F64,
}

/// Integer operations on 32-bit values.
#[derive(Clone, Copy, Debug, PartialEq, Eq, Structural)]
pub enum I32Op {
    Add,
    Sub,
    Mul,
    DivS,
    DivU,
    And,
    Or,
    Xor,
    Shl,
    ShrU,
    ShrS,
    Rotl,
    Clz,
    Ctz,
    Extend8S,
    Extend16S,
}

/// Comparisons, which give 0 or 1.
#[derive(Clone, Copy, Debug, PartialEq, Eq, Structural)]
pub enum TestOp {
    I32Eq,
    I32Ne,
    I32LtS,
    I32LtU,
    I32GtS,
    I32GtU,
    I32Eqz,
    F64Lt,
    F64Gt,
    F64Eq,
}

/// Operations on doubles.
#[derive(Clone, Copy, Debug, PartialEq, Eq, Structural)]
pub enum F64Op {
    Add,
    Sub,
    Mul,
    Div,
    Neg,
    Abs,
    Sqrt,
    Nearest,
}

/// Conversions, and the few operations on 64-bit integers.
#[derive(Clone, Copy, Debug, PartialEq, Eq, Structural)]
pub enum WideOp {
    F64ConvertI32S,
    I32TruncF64S,
    I32TruncSatF64S,
    F32DemoteF64,
    F64PromoteF32,
    F32ReinterpretI32,
    I32ReinterpretF32,
    I64ReinterpretF64,
    F64ReinterpretI64,
    I32WrapI64,
    I64ExtendI32S,
    I64ExtendI32U,
    I64Mul,
    I64ShrS,
    I64ShrU,
}

/// Constants.
#[derive(Clone, Copy, Debug, PartialEq, Eq, Structural)]
pub enum ConstOp {
    I32(i32),
    I64(i64),
    /// A double, by its bit pattern.
    F64(u64),
}

/// Where a load or store goes, relative to its address operand.
#[derive(Clone, Copy, Debug, PartialEq, Eq, Structural)]
pub struct Place {
    pub offset: u64,
    /// Expected alignment, as a power of two.
    pub align: u32,
    /// Index of the memory.
    pub memory_index: u32,
}

impl Place {
    /// Whether the alignment leaves room for the flag that the binary format keeps in
    /// the same number.
    pub open spec fn encodable(self) -> bool {
        self.align < 64
    }
}

/// Locals and memory.
#[derive(Clone, Copy, Debug, PartialEq, Eq, Structural)]
pub enum AccessOp {
    LocalGet(u32),
    LocalSet(u32),
    LocalTee(u32),
    I32Load(Place),
    F64Load(Place),
    I32Store(Place),
    F64Store(Place),
}

impl AccessOp {
    /// Whether the place of a load or store can be encoded.
    pub open spec fn encodable(self) -> bool {
        match self {
            AccessOp::I32Load(place)
            | AccessOp::F64Load(place)
            | AccessOp::I32Store(place)
            | AccessOp::F64Store(place) => place.encodable(),
            _ => true,
        }
    }
}

/// Control flow and stack handling.
#[derive(Clone, Copy, Debug, PartialEq, Eq, Structural)]
pub enum FlowOp {
    /// Call of the function with this index.
    Call(u32),
    /// A conditional block without parameters and results.
    If,
    End,
    Return,
    Drop,
    Select,
}

/// A WebAssembly instruction.
#[derive(Clone, Copy, Debug, PartialEq, Eq, Structural)]
pub enum WasmInst {
    I32(I32Op),
    Test(TestOp),
    F64(F64Op),
    Wide(WideOp),
    Const(ConstOp),
    Access(AccessOp),
    Flow(FlowOp),
}

impl WasmInst {
    /// Whether the instruction can be encoded.
    pub open spec fn encodable(self) -> bool {
        self matches WasmInst::Access(op) ==> op.encodable()
    }
}

/// A function type.
pub struct FuncTy {
    pub params: Seq<ValTy>,
    pub results: Seq<ValTy>,
}

/// An import, with its module and its name.
pub enum Import {
    Function { module: Seq<char>, name: Seq<char>, ty: u32 },
    Memory { module: Seq<char>, name: Seq<char>, minimum: u64 },
    Global { module: Seq<char>, name: Seq<char>, ty: ValTy, mutable: bool },
}

/// An exported function.
pub struct Export {
    pub name: Seq<char>,
    pub index: u32,
}

/// A function body: runs of locals of one type, and the instructions.
pub struct Body {
    pub locals: Seq<(u32, ValTy)>,
    pub code: Seq<WasmInst>,
}

/// Longest instruction list that the encoder is given: with at most twenty-one
/// bytes each, the body stays below the format's limit of 32-bit sizes.
pub const MAX_CODE: usize = 0x0800_0000;

/// Longest list of local runs that the encoder is given.
pub const MAX_RUNS: usize = 0x0100_0000;

/// `wasm_encoder::Function`: the body of a function that is being written.
#[verifier::external_type_specification]
#[verifier::external_body]
pub struct ExFunction(wasm_encoder::Function);

/// `wasm_encoder::TypeSection`: the function types of a module.
#[verifier::external_type_specification]
#[verifier::external_body]
pub struct ExTypeSection(wasm_encoder::TypeSection);

/// `wasm_encoder::ImportSection`: the imports of a module.
#[verifier::external_type_specification]
#[verifier::external_body]
pub struct ExImportSection(wasm_encoder::ImportSection);

/// `wasm_encoder::FunctionSection`: the types of the functions of a module.
#[verifier::external_type_specification]
#[verifier::external_body]
pub struct ExFunctionSection(wasm_encoder::FunctionSection);

/// `wasm_encoder::ExportSection`: the exports of a module.
#[verifier::external_type_specification]
#[verifier::external_body]
pub struct ExExportSection(wasm_encoder::ExportSection);

/// `wasm_encoder::CodeSection`: the function bodies of a module.
#[verifier::external_type_specification]
#[verifier::external_body]
pub struct ExCodeSection(wasm_encoder::CodeSection);

/// Runs of locals that a function was made with.
pub uninterp spec fn function_locals(function: wasm_encoder::Function) -> Seq<(u32, ValTy)>;

/// Instructions that were written into a function.
pub uninterp spec fn function_code(function: wasm_encoder::Function) -> Seq<WasmInst>;

/// Types that were added to a section.
pub uninterp spec fn type_list(section: wasm_encoder::TypeSection) -> Seq<FuncTy>;

/// Imports that were added to a section.
pub uninterp spec fn import_list(section: wasm_encoder::ImportSection) -> Seq<Import>;

/// Type indices of the functions that were declared in a section.
pub uninterp spec fn function_list(section: wasm_encoder::FunctionSection) -> Seq<u32>;

/// Exports that were added to a section.
pub uninterp spec fn export_list(section: wasm_encoder::ExportSection) -> Seq<Export>;

/// Function bodies that were added to a section.
pub uninterp spec fn body_list(section: wasm_encoder::CodeSection) -> Seq<Body>;

/// Binary module with the given sections.
pub uninterp spec fn module_bytes(
    types: Seq<FuncTy>,
    imports: Seq<Import>,
    functions: Seq<u32>,
    exports: Seq<Export>,
    bodies: Seq<Body>,
) -> Seq<u8>;

/// Wraps `wasm_encoder::Function::new`: a function with the given runs of locals
/// and no instruction yet.
#[verifier::external_body]
fn new_function(locals: Vec<(u32, ValTy)>) -> (function: Function)
    requires
        locals@.len() <= MAX_RUNS,
    ensures
        function_locals(function) == locals@,
        function_code(function) == Seq::<WasmInst>::empty(),
{
    Function::new(locals.into_iter().map(|(n, ty)| match ty {
        ValTy::I32 => (n, ValType::I32),
        ValTy::F64 => (n, ValType::F64),
    }).collect::<Vec<(u32, ValType)>>())
}

/// Wraps `wasm_encoder::Function::instruction` for 32-bit integer operations:
/// the instruction is added behind those already written.
#[verifier::external_body]
fn push_i32(function: &mut Function, op: I32Op)
    ensures
        function_locals(*final(function)) == function_locals(*old(function)),
        function_code(*final(function)) == function_code(*old(function)).push(WasmInst::I32(op)),
{
    function.instruction(&match op {
        I32Op::Add => Instruction::I32Add, I32Op::Sub => Instruction::I32Sub,
        I32Op::Mul => Instruction::I32Mul, I32Op::DivS => Instruction::I32DivS,
        I32Op::DivU => Instruction::I32DivU, I32Op::And => Instruction::I32And,
        I32Op::Or => Instruction::I32Or, I32Op::Xor => Instruction::I32Xor,
        I32Op::Shl => Instruction::I32Shl, I32Op::ShrU => Instruction::I32ShrU,
        I32Op::ShrS => Instruction::I32ShrS, I32Op::Rotl => Instruction::I32Rotl,
        I32Op::Clz => Instruction::I32Clz, I32Op::Ctz => Instruction::I32Ctz,
        I32Op::Extend8S => Instruction::I32Extend8S,
        I32Op::Extend16S => Instruction::I32Extend16S,
    });
}

/// Wraps `wasm_encoder::Function::instruction` for comparisons: the instruction
/// is added behind those already written.
#[verifier::external_body]
fn push_test(function: &mut Function, op: TestOp)
    ensures
        function_locals(*final(function)) == function_locals(*old(function)),
        function_code(*final(function)) == function_code(*old(function)).push(WasmInst::Test(op)),
{
    function.instruction(&match op {
        TestOp::I32Eq => Instruction::I32Eq, TestOp::I32Ne => Instruction::I32Ne,
        TestOp::I32LtS => Instruction::I32LtS, TestOp::I32LtU => Instruction::I32LtU,
        TestOp::I32GtS => Instruction::I32GtS, TestOp::I32GtU => Instruction::I32GtU,
        TestOp::I32Eqz => Instruction::I32Eqz, TestOp::F64Lt => Instruction::F64Lt,
        TestOp::F64Gt => Instruction::F64Gt, TestOp::F64Eq => Instruction::F64Eq,
    });
}

/// Wraps `wasm_encoder::Function::instruction` for operations on doubles: the
/// instruction is added behind those already written.
#[verifier::external_body]
fn push_f64(function: &mut Function, op: F64Op)
    ensures
        function_locals(*final(function)) == function_locals(*old(function)),
        function_code(*final(function)) == function_code(*old(function)).push(WasmInst::F64(op)),
{
    function.instruction(&match op {
        F64Op::Add => Instruction::F64Add, F64Op::Sub => Instruction::F64Sub,
        F64Op::Mul => Instruction::F64Mul, F64Op::Div => Instruction::F64Div,
        F64Op::Neg => Instruction::F64Neg, F64Op::Abs => Instruction::F64Abs,
        F64Op::Sqrt => Instruction::F64Sqrt, F64Op::Nearest => Instruction::F64Nearest,
    });
}

/// Wraps `wasm_encoder::Function::instruction` for conversions and 64-bit
/// integers: the instruction is added behind those already written.
#[verifier::external_body]
fn push_wide(function: &mut Function, op: WideOp)
    ensures
        function_locals(*final(function)) == function_locals(*old(function)),
        function_code(*final(function)) == function_code(*old(function)).push(WasmInst::Wide(op)),
{
    function.instruction(&match op {
        WideOp::F64ConvertI32S => Instruction::F64ConvertI32S,
        WideOp::I32TruncF64S => Instruction::I32TruncF64S,
        WideOp::I32TruncSatF64S => Instruction::I32TruncSatF64S,
        WideOp::F32DemoteF64 => Instruction::F32DemoteF64,
        WideOp::F64PromoteF32 => Instruction::F64PromoteF32,
        WideOp::F32ReinterpretI32 => Instruction::F32ReinterpretI32,
        WideOp::I32ReinterpretF32 => Instruction::I32ReinterpretF32,
        WideOp::I64ReinterpretF64 => Instruction::I64ReinterpretF64,
        WideOp::F64ReinterpretI64 => Instruction::F64ReinterpretI64,
        WideOp::I32WrapI64 => Instruction::I32WrapI64, WideOp::I64Mul => Instruction::I64Mul,
        WideOp::I64ExtendI32S => Instruction::I64ExtendI32S,
        WideOp::I64ExtendI32U => Instruction::I64ExtendI32U,
        WideOp::I64ShrS => Instruction::I64ShrS, WideOp::I64ShrU => Instruction::I64ShrU, });
}

/// Wraps `wasm_encoder::Function::instruction` for constants: the instruction is
/// added behind those already written.
#[verifier::external_body]
fn push_const(function: &mut Function, op: ConstOp)
    ensures
        function_locals(*final(function)) == function_locals(*old(function)),
        function_code(*final(function)) == function_code(*old(function)).push(WasmInst::Const(op)),
{
    function.instruction(&match op {
        ConstOp::I32(v) => Instruction::I32Const(v),
        ConstOp::I64(v) => Instruction::I64Const(v),
        ConstOp::F64(bits) => Instruction::F64Const(Ieee64::new(bits)),
    });
}

/// Wraps `wasm_encoder::Function::instruction` for locals and memory: the
/// instruction is added behind those already written. An alignment is written into one
/// number with a flag of value 64, so only smaller ones can be told apart.
#[verifier::external_body]
fn push_access(function: &mut Function, op: AccessOp)
    requires
        op.encodable(),
    ensures
        function_locals(*final(function)) == function_locals(*old(function)),
        function_code(*final(function)) == function_code(*old(function)).push(
            WasmInst::Access(op),
        ),
{
    let arg = |p: Place| MemArg {
        offset: p.offset, align: p.align, memory_index: p.memory_index,
    };
    function.instruction(&match op {
        AccessOp::LocalGet(i) => Instruction::LocalGet(i),
        AccessOp::LocalSet(i) => Instruction::LocalSet(i),
        AccessOp::LocalTee(i) => Instruction::LocalTee(i),
        AccessOp::I32Load(p) => Instruction::I32Load(arg(p)),
        AccessOp::F64Load(p) => Instruction::F64Load(arg(p)),
        AccessOp::I32Store(p) => Instruction::I32Store(arg(p)),
        AccessOp::F64Store(p) => Instruction::F64Store(arg(p)),
    });
}

/// Wraps `wasm_encoder::Function::instruction` for control flow: the instruction
/// is added behind those already written.
#[verifier::external_body]
fn push_flow(function: &mut Function, op: FlowOp)
    ensures
        function_locals(*final(function)) == function_locals(*old(function)),
        function_code(*final(function)) == function_code(*old(function)).push(WasmInst::Flow(op)),
{
    function.instruction(&match op {
        FlowOp::Call(index) => Instruction::Call(index),
        FlowOp::If => Instruction::If(BlockType::Empty),
        FlowOp::End => Instruction::End,
        FlowOp::Return => Instruction::Return,
        FlowOp::Drop => Instruction::Drop,
        FlowOp::Select => Instruction::Select,
    });
}

/// Wraps `wasm_encoder::TypeSection::new`: a section without types.
#[verifier::external_body]
fn new_types() -> (section: TypeSection)
    ensures
        type_list(section) == Seq::<FuncTy>::empty(),
{
    TypeSection::new()
}

/// Wraps `wasm_encoder::TypeSection::ty` and the `function` of what it returns: a
/// function type is added behind those already there.
#[verifier::external_body]
fn add_type(section: &mut TypeSection, params: &[ValTy], results: &[ValTy])
    requires
        params@.len() < 0x100,
        results@.len() < 0x100,
    ensures
        type_list(*final(section)) == type_list(*old(section)).push(
            FuncTy { params: params@, results: results@ },
        ),
{
    let convert = |list: &[ValTy]| list.iter().map(|ty| match ty {
        ValTy::I32 => ValType::I32,
        ValTy::F64 => ValType::F64,
    }).collect::<Vec<ValType>>();
    section.ty().function(convert(params), convert(results));
}

/// Wraps `wasm_encoder::ImportSection::new`: a section without imports.
#[verifier::external_body]
fn new_imports() -> (section: ImportSection)
    ensures
        import_list(section) == Seq::<Import>::empty(),
{
    ImportSection::new()
}

/// Wraps `wasm_encoder::ImportSection::import` for functions: the import is added
/// behind those already there.
#[verifier::external_body]
fn import_function(section: &mut ImportSection, module: &str, name: &str, ty: u32)
    requires
        module@.len() < 0x100,
        name@.len() < 0x100,
    ensures
        import_list(*final(section)) == import_list(*old(section)).push(
            Import::Function { module: module@, name: name@, ty },
        ),
{
    section.import(module, name, EntityType::Function(ty));
}

/// Wraps `wasm_encoder::ImportSection::import` for a memory of 32-bit addresses
/// without an upper limit that is not shared: the import is added behind those
/// already there.
#[verifier::external_body]
fn import_memory(section: &mut ImportSection, module: &str, name: &str, minimum: u64)
    requires
        module@.len() < 0x100,
        name@.len() < 0x100,
    ensures
        import_list(*final(section)) == import_list(*old(section)).push(
            Import::Memory { module: module@, name: name@, minimum },
        ),
{
    section.import(module, name, EntityType::Memory(MemoryType {
        minimum, maximum: None, memory64: false, shared: false, page_size_log2: None,
    }));
}

/// Wraps `wasm_encoder::ImportSection::import` for a global that is not shared:
/// the import is added behind those already there.
#[verifier::external_body]
fn import_global(
    section: &mut ImportSection,
    module: &str,
    name: &str,
    ty: ValTy,
    mutable: bool,
)
    requires
        module@.len() < 0x100,
        name@.len() < 0x100,
    ensures
        import_list(*final(section)) == import_list(*old(section)).push(
            Import::Global { module: module@, name: name@, ty, mutable },
        ),
{
    let val_type = match ty {
        ValTy::I32 => ValType::I32,
        ValTy::F64 => ValType::F64,
    };
    section.import(module, name, EntityType::Global(GlobalType {
        val_type, mutable, shared: false,
    }));
}

/// Wraps `wasm_encoder::FunctionSection::new`: a section without functions.
#[verifier::external_body]
fn new_functions() -> (section: FunctionSection)
    ensures
        function_list(section) == Seq::<u32>::empty(),
{
    FunctionSection::new()
}

/// Wraps `wasm_encoder::FunctionSection::function`: a function of the type with
/// this index is declared behind those already there.
#[verifier::external_body]
fn declare_function(section: &mut FunctionSection, ty: u32)
    ensures
        function_list(*final(section)) == function_list(*old(section)).push(ty),
{
    section.function(ty);
}

/// Wraps `wasm_encoder::ExportSection::new`: a section without exports.
#[verifier::external_body]
fn new_exports() -> (section: ExportSection)
    ensures
        export_list(section) == Seq::<Export>::empty(),
{
    ExportSection::new()
}

/// Wraps `wasm_encoder::ExportSection::export` for functions: the export is added
/// behind those already there.
#[verifier::external_body]
fn export_function(section: &mut ExportSection, name: &str, index: u32)
    requires
        name@.len() < 0x100,
    ensures
        export_list(*final(section)) == export_list(*old(section)).push(
            Export { name: name@, index },
        ),
{
    section.export(name, ExportKind::Func, index);
}

/// Wraps `wasm_encoder::CodeSection::new`: a section without bodies.
#[verifier::external_body]
fn new_code() -> (section: CodeSection)
    ensures
        body_list(section) == Seq::<Body>::empty(),
{
    CodeSection::new()
}

/// Wraps `wasm_encoder::CodeSection::function`: the body is added behind those
/// already there.
#[verifier::external_body]
fn add_body(section: &mut CodeSection, function: &Function)
    requires
        body_list(*old(section)).len() == 0,
        function_locals(*function).len() <= MAX_RUNS,
        function_code(*function).len() <= MAX_CODE,
    ensures
        body_list(*final(section)) == body_list(*old(section)).push(
            Body { locals: function_locals(*function), code: function_code(*function) },
        ),
{
    section.function(function);
}

/// Wraps `wasm_encoder::Module`: `new`, one `section` per section in the order of
/// the binary format, and `finish`. Every section writes itself out from the
/// entries that were added to it, so the bytes depend on those alone; how they
/// are laid out is not restated here, except that they start with the magic
/// number and the version of the format.
#[verifier::external_body]
fn assemble(
    types: &TypeSection,
    imports: &ImportSection,
    functions: &FunctionSection,
    exports: &ExportSection,
    code: &CodeSection,
) -> (bytes: Vec<u8>)
    requires
        type_list(*types).len() < 0x100,
        import_list(*imports).len() < 0x100,
        function_list(*functions).len() < 0x100,
        export_list(*exports).len() < 0x100,
        body_list(*code).len() <= 1,
    ensures
        bytes@ == module_bytes(
            type_list(*types),
            import_list(*imports),
            function_list(*functions),
            export_list(*exports),
            body_list(*code),
        ),
        bytes@.len() >= 8,
        bytes@.take(8) == seq![0u8, 0x61, 0x73, 0x6D, 1, 0, 0, 0],
{
    let mut module = Module::new();
    module.section(types);
    module.section(imports);
    module.section(functions);
    module.section(exports);
    module.section(code);
    module.finish()
}

/// Adds one instruction to a function.
fn push_inst(function: &mut Function, inst: WasmInst)
    requires
        inst.encodable(),
    ensures
        function_locals(*final(function)) == function_locals(*old(function)),
        function_code(*final(function)) == function_code(*old(function)).push(inst),
{
    match inst {
        WasmInst::I32(op) => push_i32(function, op),
        WasmInst::Test(op) => push_test(function, op),
        WasmInst::F64(op) => push_f64(function, op),
        WasmInst::Wide(op) => push_wide(function, op),
        WasmInst::Const(op) => push_const(function, op),
        WasmInst::Access(op) => push_access(function, op),
        WasmInst::Flow(op) => push_flow(function, op),
    }
}

/// Type index of `(i32) -> i32`, the type of most read hooks and of `execute`.
pub const TY_I32_I32: u32 = 0;

/// Type index of `(i32, i32) -> ()`.
pub const TY_II_VOID: u32 = 1;

/// Type index of `(i32) -> ()`.
pub const TY_I_VOID: u32 = 2;

/// Type index of `(i32) -> f64`.
pub const TY_I_F64: u32 = 3;

/// Type index of `(i32, f64) -> ()`.
pub const TY_IF64_VOID: u32 = 4;

/// Type index of `(i32, i32) -> f64`.
pub const TY_II_F64: u32 = 5;

/// Type index of `(i32, i32, f64) -> i32`.
pub const TY_IIF64_I32: u32 = 6;

/// Type index of `() -> ()`.
pub const TY_VOID: u32 = 7;

/// The function types of a block module, by index.
pub open spec fn block_types() -> Seq<FuncTy> {
    let i = ValTy::I32;
    let f = ValTy::F64;
    seq![
        FuncTy { params: seq![i], results: seq![i] },
        FuncTy { params: seq![i, i], results: seq![] },
        FuncTy { params: seq![i], results: seq![] },
        FuncTy { params: seq![i], results: seq![f] },
        FuncTy { params: seq![i, f], results: seq![] },
        FuncTy { params: seq![i, i], results: seq![f] },
        FuncTy { params: seq![i, i, f], results: seq![i] },
        FuncTy { params: seq![], results: seq![] },
    ]
}

/// Import of a hook.
pub open spec fn hook(name: Seq<char>, ty: u32) -> Import {
    Import::Function { module: "hooks"@, name, ty }
}

/// The imports of a block module: the memory, the base of guest memory in it,
/// and the hooks. Code reaches guest memory through the hooks alone; the base is part
/// of the interface and no instruction reads it.
pub open spec fn block_imports() -> Seq<Import> {
    seq![
        Import::Memory { module: "env"@, name: "memory"@, minimum: 1 },
        Import::Global { module: "env"@, name: "ram_base"@, ty: ValTy::I32, mutable: false },
        hook("read_u8"@, TY_I32_I32),
        hook("read_u16"@, TY_I32_I32),
        hook("read_u32"@, TY_I32_I32),
        hook("read_f64"@, TY_I_F64),
        hook("write_u8"@, TY_II_VOID),
        hook("write_u16"@, TY_II_VOID),
        hook("write_u32"@, TY_II_VOID),
        hook("write_f64"@, TY_IF64_VOID),
        hook("raise_exception"@, TY_I_VOID),
        hook("psq_load"@, TY_II_F64),
        hook("psq_store"@, TY_IIF64_I32),
        hook("psq_load_size"@, TY_I32_I32),
        hook("icbi"@, TY_I_VOID),
        hook("isync"@, TY_VOID),
    ]
}

/// The binary module of a block whose `execute` has the given body.
pub open spec fn block_module(locals: Seq<(u32, ValTy)>, code: Seq<WasmInst>) -> Seq<u8> {
    module_bytes(
        block_types(),
        block_imports(),
        seq![TY_I32_I32],
        seq![Export { name: "execute"@, index: imports::COUNT }],
        seq![Body { locals, code }],
    )
}

/// Every block module has the same interface. It imports the memory, the base of guest
/// memory and then the hooks, each at its function index and with its signature, and no
/// other function.
pub proof fn hooks_are_imported_in_order()
    ensures
        ({
            let i = ValTy::I32;
            let f = ValTy::F64;
            let none = Seq::<ValTy>::empty();
            let memory = Import::Memory { module: "env"@, name: "memory"@, minimum: 1 };
            let base = Import::Global {
                module: "env"@,
                name: "ram_base"@,
                ty: i,
                mutable: false,
            };
            &&& block_imports().len() == 2 + imports::COUNT
            &&& block_imports()[0] == memory
            &&& block_imports()[1] == base
            &&& imports_hook(imports::READ_U8, "read_u8"@, seq![i], seq![i])
            &&& imports_hook(imports::READ_U16, "read_u16"@, seq![i], seq![i])
            &&& imports_hook(imports::READ_U32, "read_u32"@, seq![i], seq![i])
            &&& imports_hook(imports::READ_F64, "read_f64"@, seq![i], seq![f])
            &&& imports_hook(imports::WRITE_U8, "write_u8"@, seq![i, i], none)
            &&& imports_hook(imports::WRITE_U16, "write_u16"@, seq![i, i], none)
            &&& imports_hook(imports::WRITE_U32, "write_u32"@, seq![i, i], none)
            &&& imports_hook(imports::WRITE_F64, "write_f64"@, seq![i, f], none)
            &&& imports_hook(imports::RAISE_EXCEPTION, "raise_exception"@, seq![i], none)
            &&& imports_hook(imports::PSQ_LOAD, "psq_load"@, seq![i, i], seq![f])
            &&& imports_hook(imports::PSQ_STORE, "psq_store"@, seq![i, i, f], seq![i])
            &&& imports_hook(imports::PSQ_LOAD_SIZE, "psq_load_size"@, seq![i], seq![i])
            &&& imports_hook(imports::ICBI, "icbi"@, seq![i], none)
            &&& imports_hook(imports::ISYNC, "isync"@, none, none)
        }),
{
}

/// Whether block modules import the hook `name`, with the given signature, as the
/// function with this index.
pub open spec fn imports_hook(
    index: u32,
    name: Seq<char>,
    params: Seq<ValTy>,
    results: Seq<ValTy>,
) -> bool {
    &&& block_imports()[2 + index] matches Import::Function { module, name: imported, ty }
    &&& module == "hooks"@
    &&& imported == name
    &&& 0 <= ty < block_types().len()
    &&& block_types()[ty as int] == (FuncTy { params, results })
}

fn make_types() -> (types: TypeSection)
    ensures
        type_list(types) == block_types(),
{
    let mut types = new_types();
    let i = ValTy::I32;
    let f = ValTy::F64;
    add_type(&mut types, &[i], &[i]);
    add_type(&mut types, &[i, i], &[]);
    add_type(&mut types, &[i], &[]);
    add_type(&mut types, &[i], &[f]);
    add_type(&mut types, &[i, f], &[]);
    add_type(&mut types, &[i, i], &[f]);
    add_type(&mut types, &[i, i, f], &[i]);
    add_type(&mut types, &[], &[]);
    proof {
        let list = type_list(types);
        assert(list[0].params =~= seq![i] && list[0].results =~= seq![i]);
        assert(list[1].params =~= seq![i, i] && list[1].results =~= seq![]);
        assert(list[2].params =~= seq![i] && list[2].results =~= seq![]);
        assert(list[3].params =~= seq![i] && list[3].results =~= seq![f]);
        assert(list[4].params =~= seq![i, f] && list[4].results =~= seq![]);
        assert(list[5].params =~= seq![i, i] && list[5].results =~= seq![f]);
        assert(list[6].params =~= seq![i, i, f] && list[6].results =~= seq![i]);
        assert(list[7].params =~= seq![] && list[7].results =~= seq![]);
        assert(list =~= block_types());
    }
    types
}

fn add_hook(imports: &mut ImportSection, name: &str, ty: u32)
    requires
        name@.len() < 0x100,
    ensures
        import_list(*final(imports)) == import_list(*old(imports)).push(hook(name@, ty)),
{
    proof {
        reveal_strlit("hooks");
    }
    import_function(imports, "hooks", name, ty);
}

fn make_imports() -> (imports: ImportSection)
    ensures
        import_list(imports) == block_imports(),
{
    proof {
        reveal_strlit("env");
        reveal_strlit("memory");
        reveal_strlit("ram_base");
        reveal_strlit("read_u8");
        reveal_strlit("read_u16");
        reveal_strlit("read_u32");
        reveal_strlit("read_f64");
        reveal_strlit("write_u8");
        reveal_strlit("write_u16");
        reveal_strlit("write_u32");
        reveal_strlit("write_f64");
        reveal_strlit("raise_exception");
        reveal_strlit("psq_load");
        reveal_strlit("psq_store");
        reveal_strlit("psq_load_size");
        reveal_strlit("icbi");
        reveal_strlit("isync");
    }
    let mut imports = new_imports();
    import_memory(&mut imports, "env", "memory", 1);
    import_global(&mut imports, "env", "ram_base", ValTy::I32, false);
    add_hook(&mut imports, "read_u8", TY_I32_I32);
    add_hook(&mut imports, "read_u16", TY_I32_I32);
    add_hook(&mut imports, "read_u32", TY_I32_I32);
    add_hook(&mut imports, "read_f64", TY_I_F64);
    add_hook(&mut imports, "write_u8", TY_II_VOID);
    add_hook(&mut imports, "write_u16", TY_II_VOID);
    add_hook(&mut imports, "write_u32", TY_II_VOID);
    add_hook(&mut imports, "write_f64", TY_IF64_VOID);
    add_hook(&mut imports, "raise_exception", TY_I_VOID);
    add_hook(&mut imports, "psq_load", TY_II_F64);
    add_hook(&mut imports, "psq_store", TY_IIF64_I32);
    add_hook(&mut imports, "psq_load_size", TY_I32_I32);
    add_hook(&mut imports, "icbi", TY_I_VOID);
    add_hook(&mut imports, "isync", TY_VOID);
    assert(import_list(imports) =~= block_imports());
    imports
}

/// Encodes the module of a block whose `execute` has the given body.
pub fn encode_block(locals: Vec<(u32, ValTy)>, code: &Vec<WasmInst>) -> (bytes: Vec<u8>)
    requires
        locals@.len() <= MAX_RUNS,
        code@.len() <= MAX_CODE,
        forall|i: int| 0 <= i < code@.len() ==> (#[trigger] code@[i]).encodable(),
    ensures
        bytes@ == block_module(locals@, code@),
        bytes@.len() >= 8,
        bytes@.take(8) == seq![0u8, 0x61, 0x73, 0x6D, 1, 0, 0, 0],
{
    let ghost runs = locals@;
    let mut function = new_function(locals);
    let mut i: usize = 0;
    while i < code.len()
        invariant
            i <= code@.len() <= MAX_CODE,
            forall|k: int| 0 <= k < code@.len() ==> (#[trigger] code@[k]).encodable(),
            function_locals(function) == runs,
            function_code(function) == code@.take(i as int),
        decreases code@.len() - i,
    {
        push_inst(&mut function, code[i]);
        i = i + 1;
        assert(function_code(function) =~= code@.take(i as int));
    }
    assert(code@.take(i as int) =~= code@);
    let types = make_types();
    let imports = make_imports();
    let mut functions = new_functions();
    declare_function(&mut functions, TY_I32_I32);
    let mut exports = new_exports();
    proof {
        reveal_strlit("execute");
    }
    export_function(&mut exports, "execute", imports::COUNT);
    let mut bodies = new_code();
    add_body(&mut bodies, &function);
    assert(function_list(functions) =~= seq![TY_I32_I32]);
    assert(export_list(exports) =~= seq![Export {
        name: "execute"@,
        index: imports::COUNT,
    }]);
    assert(body_list(bodies) =~= seq![Body { locals: runs, code: code@ }]);
    assemble(&types, &imports, &functions, &exports, &bodies)
}

} // verus!
