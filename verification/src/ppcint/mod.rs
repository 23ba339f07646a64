//! PowerPC interpreter.

pub mod architecture;
pub mod arithmetic;
pub mod branch;
pub mod compare;
pub mod interpreter;
pub mod logic;
pub mod memory;
pub mod others;
pub mod system;

pub use interpreter::{Core, Executed};
pub use system::{Fault, System};
