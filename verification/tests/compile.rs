//! Compilation to WebAssembly modules.

use lazuli::disasm::{Extensions, Ins};
use lazuli::ppcir::decode::ppc_mask;
use lazuli::ppcwasm::WasmJit;

fn ins(code: u32) -> Ins { Ins::new(code, Extensions::gekko_broadway()) }

#[test]
fn build_empty_returns_none() {
    assert!(WasmJit::new().build(&[]).is_none());
}

#[test]
fn build_single_nop_produces_valid_wasm() {
    let b = WasmJit::new().build(&[(0x8000_0000u32, ins(0x6000_0000))]).unwrap();
    assert_eq!(b.instruction_count, 1);
    assert_eq!(&b.bytes[..4], b"\0asm");
}

#[test]
fn build_addi_block_is_valid_wasm() {
    let b = WasmJit::new().build(&[(0x8000_0000u32, ins(0x3860_002A))]).unwrap();
    assert_eq!(&b.bytes[..4], b"\0asm");
    assert_eq!(b.instruction_count, 1);
}

#[test]
fn build_branch_terminates_block() {
    let b = WasmJit::new()
        .build(&[(0x8000_0000u32, ins(0x4800_0010)), (0x8000_0004u32, ins(0x3860_0001))])
        .unwrap();
    assert_eq!(b.instruction_count, 1);
    assert_eq!(&b.bytes[..4], b"\0asm");
}

#[test]
fn ppc_mask_sanity() {
    assert_eq!(ppc_mask(0, 31), 0xFFFF_FFFFu32);
    assert_eq!(ppc_mask(24, 31), 0x0000_00FFu32);
}

#[test]
fn stwu_followed_by_addi_is_valid_wasm() {
    let b = WasmJit::new()
        .build(&[(0x8000_0000u32, ins(0x9421_FFF8)), (0x8000_0004u32, ins(0x3860_0001))])
        .unwrap();
    assert_eq!(&b.bytes[..4], b"\0asm");
    assert_eq!(b.instruction_count, 2);
    assert!(b.unimplemented_ops.is_empty());
}

#[test]
fn lwzu_followed_by_addi_is_valid_wasm() {
    let b = WasmJit::new()
        .build(&[(0x8000_0000u32, ins(0x8464_0004)), (0x8000_0004u32, ins(0x38A0_0001))])
        .unwrap();
    assert_eq!(&b.bytes[..4], b"\0asm");
    assert_eq!(b.instruction_count, 2);
    assert!(b.unimplemented_ops.is_empty());
}

#[test]
fn rfi_terminates_block() {
    let b = WasmJit::new()
        .build(&[(0x8000_0000u32, ins(0x4C00_0064)), (0x8000_0004u32, ins(0x3860_0001))])
        .unwrap();
    assert_eq!(b.instruction_count, 1);
    assert_eq!(&b.bytes[..4], b"\0asm");
    assert!(b.unimplemented_ops.is_empty());
}

#[test]
fn fadd_no_unimpl() {
    let b = WasmJit::new().build(&[(0x8000_0000u32, ins(0xFC22_082A))]).unwrap();
    assert_eq!(&b.bytes[..4], b"\0asm");
    assert!(b.unimplemented_ops.is_empty(), "{:?}", b.unimplemented_ops);
}

#[test]
fn lfs_no_unimpl() {
    let b = WasmJit::new().build(&[(0x8000_0000u32, ins(0xC023_0000))]).unwrap();
    assert_eq!(&b.bytes[..4], b"\0asm");
    assert!(b.unimplemented_ops.is_empty(), "{:?}", b.unimplemented_ops);
}

#[test]
fn stfs_no_unimpl() {
    let b = WasmJit::new().build(&[(0x8000_0000u32, ins(0xD023_0000))]).unwrap();
    assert_eq!(&b.bytes[..4], b"\0asm");
    assert!(b.unimplemented_ops.is_empty(), "{:?}", b.unimplemented_ops);
}

#[test]
fn fmadd_no_unimpl() {
    let b = WasmJit::new().build(&[(0x8000_0000u32, ins(0xFC22_21FA))]).unwrap();
    assert_eq!(&b.bytes[..4], b"\0asm");
    assert!(b.unimplemented_ops.is_empty(), "{:?}", b.unimplemented_ops);
}

#[test]
fn ps_add_no_unimpl() {
    let b = WasmJit::new().build(&[(0x8000_0000u32, ins(0x1002_1814))]).unwrap();
    assert_eq!(&b.bytes[..4], b"\0asm");
}

#[test]
fn ppc_mask_full_range() { assert_eq!(ppc_mask(0, 31), 0xFFFF_FFFF); }
#[test]
fn ppc_mask_lower_byte() { assert_eq!(ppc_mask(24, 31), 0x0000_00FF); }
#[test]
fn ppc_mask_upper_halfword() { assert_eq!(ppc_mask(0, 15), 0xFFFF_0000); }
