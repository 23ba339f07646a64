//! Stack-machine intermediate representation for PowerPC code.
//!
//! A typed, stack-machine IR sits between instruction decoding and the code
//! generator: guest code is decoded once and can be lowered to any target.

pub mod agreement;
pub mod bulk;
pub mod decode;
pub mod definition;
pub mod floats;
pub mod inst;
pub mod length;
pub mod meaning;
pub mod pieces;
pub mod translate;
pub mod typing;

pub use decode::Decoder;
pub use inst::{IrBlock, IrInst, IrLocal, IrTy};
