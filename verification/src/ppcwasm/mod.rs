//! PowerPC to WebAssembly compiler.
//!
//! Guest instructions are decoded into the intermediate representation, which
//! is lowered to a WebAssembly module with one exported function.

pub mod block;
pub mod encode;
pub mod faithful;
pub mod imports;
pub mod jit;
pub mod lower;
pub mod machine;
pub mod offsets;

pub use block::WasmBlock;
pub use jit::WasmJit;
pub use offsets::RegOffsets;
