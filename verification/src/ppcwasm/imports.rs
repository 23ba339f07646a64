//! Function indices of the hooks that a compiled block imports.
//!
//! The import section lists one memory, one global and then the hook functions,
//! in the order of these indices.

use vstd::prelude::*;

verus! {

/// `(i32) -> i32`
pub const READ_U8: u32 = 0;

/// `(i32) -> i32`
pub const READ_U16: u32 = 1;

/// `(i32) -> i32`
pub const READ_U32: u32 = 2;

/// `(i32) -> f64`
pub const READ_F64: u32 = 3;

/// `(i32, i32) -> ()`
pub const WRITE_U8: u32 = 4;

/// `(i32, i32) -> ()`
pub const WRITE_U16: u32 = 5;

/// `(i32, i32) -> ()`
pub const WRITE_U32: u32 = 6;

/// `(i32, f64) -> ()`
pub const WRITE_F64: u32 = 7;

/// `(i32) -> ()`
pub const RAISE_EXCEPTION: u32 = 8;

/// `(i32, i32) -> f64`
pub const PSQ_LOAD: u32 = 9;

/// `(i32, i32, f64) -> i32`
pub const PSQ_STORE: u32 = 10;

/// `(i32) -> i32`
pub const PSQ_LOAD_SIZE: u32 = 11;

/// `(i32) -> ()`: invalidate the compiled block at a guest address.
pub const ICBI: u32 = 12;

/// `() -> ()`: flush all compiled blocks.
pub const ISYNC: u32 = 13;

/// Number of imported functions; `execute` is the function with this index.
pub const COUNT: u32 = 14;

} // verus!
