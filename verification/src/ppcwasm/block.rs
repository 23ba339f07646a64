//! Compiled blocks.

use vstd::prelude::*;

verus! {

/// A guest basic block compiled to WebAssembly.
///
/// The module exports one function, `execute`, from the byte offset of the
/// register image in linear memory to the next program counter; 0 means that
/// the block has already stored the program counter.
#[derive(Debug, Clone)]
pub struct WasmBlock {
    /// The binary module.
    pub bytes: Vec<u8>,
    /// Number of guest instructions in the block.
    pub instruction_count: u32,
    /// Estimated cycle count.
    pub cycles: u32,
    /// Names of guest opcodes that have no translation.
    pub unimplemented_ops: Vec<String>,
}

} // verus!
