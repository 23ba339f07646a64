//! The compiler from guest instructions to WebAssembly modules.

use vstd::prelude::*;

use super::block::WasmBlock;
use super::encode::{
    block_imports, block_module, block_types, hooks_are_imported_in_order, module_bytes, Body,
    Export, FuncTy, ValTy, MAX_RUNS, TY_I32_I32,
};
use super::imports;
use super::lower::{block_code, block_runs, lower, MAX_IR_INSTS};
use super::offsets::RegOffsets;
use crate::disasm::Ins;
use crate::ppcir::inst::label_views;
use crate::ppcir::length::decoded_length;
use crate::ppcir::translate::{can_decode, decoded, BlockView};
use crate::ppcir::typing::{
    block_is_prefix, decoded_is_well_typed, empty_stack, well_typed_operands_fit,
};
use crate::ppcir::Decoder;

verus! {

/// PowerPC to WebAssembly compiler.
pub struct WasmJit {
    offsets: RegOffsets,
    decoder: Decoder,
}

/// The compiled form of a decoded block.
pub open spec fn compiled(wasm: WasmBlock, block: BlockView, offsets: RegOffsets) -> bool {
    &&& wasm.bytes@ == block_module(
        block_runs(block.locals),
        block_code(block.insts, block.locals.len(), offsets),
    )
    &&& wasm.bytes@.len() >= 8
    &&& wasm.bytes@.take(8) == seq![0u8, 0x61, 0x73, 0x6D, 1, 0, 0, 0]
    &&& wasm.instruction_count == block.instruction_count
    &&& wasm.cycles == block.cycles
    &&& label_views(wasm.unimplemented_ops@) == block.labels
}

/// Whether the block that `instructions` begin with can be decoded and is short enough
/// for a module.
pub open spec fn can_compile(instructions: Seq<(u32, Ins)>) -> bool {
    instructions.len() > 0 ==> {
        &&& can_decode(instructions)
        &&& decoded(instructions).insts.len() <= MAX_IR_INSTS
        &&& decoded(instructions).locals.len() <= MAX_RUNS - 2
    }
}

/// Blocks of up to eight thousand instructions are short enough.
pub proof fn short_blocks_compile(instructions: Seq<(u32, Ins)>)
    requires
        instructions.len() < 0x2000,
        forall|i: int|
            0 <= i < instructions.len() ==> (#[trigger] instructions[i]).0 <= u32::MAX - 4,
    ensures
        can_compile(instructions),
{
    if instructions.len() > 0 {
        decoded_length(instructions);
        block_is_prefix(instructions);
    }
}

/// The module of a compiled block, whatever the block: it imports the memory, the base
/// of guest memory and the hooks in the order of their function indices, and its one
/// function follows them, is exported as `execute` and maps the place of the register
/// image to the next program counter. What is counted is what the block counts.
pub proof fn modules_have_one_interface(
    wasm: WasmBlock,
    instructions: Seq<(u32, Ins)>,
    offsets: RegOffsets,
)
    requires
        compiled(wasm, decoded(instructions), offsets),
    ensures
        ({
            let block = decoded(instructions);
            let execute = Body {
                locals: block_runs(block.locals),
                code: block_code(block.insts, block.locals.len(), offsets),
            };
            &&& wasm.bytes@ == module_bytes(
                block_types(),
                block_imports(),
                seq![TY_I32_I32],
                seq![Export { name: "execute"@, index: imports::COUNT }],
                seq![execute],
            )
            &&& block_types()[TY_I32_I32 as int] == (FuncTy {
                params: seq![ValTy::I32],
                results: seq![ValTy::I32],
            })
            &&& block_imports().len() == 2 + imports::COUNT
            &&& block_imports()[0] is Memory
            &&& block_imports()[1] is Global
            &&& forall|i: int|
                2 <= i < block_imports().len() ==> #[trigger] block_imports()[i] is Function
            &&& wasm.instruction_count == block.instruction_count
            &&& wasm.cycles == block.cycles
            &&& label_views(wasm.unimplemented_ops@) == block.labels
        }),
{
    hooks_are_imported_in_order();
}

impl WasmJit {
    /// The register offsets that compiled blocks use.
    pub closed spec fn reg_offsets(self) -> RegOffsets {
        self.offsets
    }

    /// A compiler for the register image.
    pub fn new() -> (jit: WasmJit)
        ensures
            jit.reg_offsets().match_image(),
    {
        WasmJit { offsets: RegOffsets::compute(), decoder: Decoder::new() }
    }

    /// The register offsets that compiled blocks use.
    pub fn offsets(&self) -> (offsets: &RegOffsets)
        ensures
            *offsets == self.reg_offsets(),
    {
        &self.offsets
    }

    /// Compiles a sequence of instructions, each given with its address.
    ///
    /// There is no block for an empty sequence.
    pub fn build(&self, instructions: &[(u32, Ins)]) -> (block: Option<WasmBlock>)
        requires
            can_compile(instructions@),
        ensures
            instructions@.len() == 0 <==> block is None,
            instructions@.len() > 0 ==> block is Some && compiled(
                block->0,
                decoded(instructions@),
                self.reg_offsets(),
            ),
    {
        match self.decoder.decode(instructions) {
            Err(_) => None,
            Ok(ir) => {
                proof {
                    decoded_is_well_typed(instructions@);
                    well_typed_operands_fit(ir.insts@, ir.local_types@, empty_stack());
                }
                Some(lower(&ir, &self.offsets))
            },
        }
    }
}

} // verus!
