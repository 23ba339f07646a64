//! Translated code against the interpreter, and compiled code against both.

use std::collections::HashMap;

use lazuli::disasm::{Extensions, Ins};
use lazuli::gekko::Cpu;
use lazuli::ppcint::{Core, System};
use lazuli::ppcir::{Decoder, IrInst};
use lazuli::ppcwasm::WasmJit;

const START: u32 = 0x8000_0000;

fn block(code: &[u32]) -> Vec<(u32, Ins)> {
    code.iter()
        .enumerate()
        .map(|(i, word)| (START + 4 * i as u32, Ins::new(*word, Extensions::gekko_broadway())))
        .collect()
}

fn machine(code: &[u32]) -> System {
    let mut ram = vec![0u8; 0x1000];
    for (i, word) in code.iter().enumerate() {
        ram[4 * i..4 * i + 4].copy_from_slice(&word.to_be_bytes());
    }
    let mut sys = System { cpu: Cpu::default(), ram, clock: 0 };
    sys.cpu.pc = START;
    sys.cpu.gpr[1] = START;
    sys.cpu.gpr[3] = 0xFFFF_FFF0;
    sys.cpu.gpr[4] = 7;
    sys
}

/// Runs integer code of the intermediate representation; gives the next program counter.
fn evaluate(insts: &[IrInst], sys: &mut System) -> u32 {
    let mut stack: Vec<u32> = Vec::new();
    let mut locals: HashMap<u32, u32> = HashMap::new();
    for inst in insts {
        match *inst {
            IrInst::I32Const(c) => stack.push(c as u32),
            IrInst::LocalSet(l) => {
                locals.insert(l.index, stack.pop().unwrap());
            }
            IrInst::LocalTee(l) => {
                locals.insert(l.index, *stack.last().unwrap());
            }
            IrInst::LocalGet(l) => stack.push(locals[&l.index]),
            IrInst::LoadGpr(r) => stack.push(sys.cpu.gpr[r as usize]),
            IrInst::LoadCr => stack.push(sys.cpu.cr),
            IrInst::LoadLr => stack.push(sys.cpu.lr),
            IrInst::LoadXer => stack.push(sys.cpu.xer),
            IrInst::StoreGpr(r) => sys.cpu.gpr[r as usize] = stack.pop().unwrap(),
            IrInst::StoreCr => sys.cpu.cr = stack.pop().unwrap(),
            IrInst::StoreLr => sys.cpu.lr = stack.pop().unwrap(),
            IrInst::I32Eqz => {
                let x = stack.pop().unwrap();
                stack.push((x == 0) as u32);
            }
            IrInst::ReadU32 => {
                let at = (stack.pop().unwrap() & 0x01FF_FFFF) as usize;
                stack.push(u32::from_be_bytes(sys.ram[at..at + 4].try_into().unwrap()));
            }
            IrInst::WriteU32 => {
                let value = stack.pop().unwrap();
                let at = (stack.pop().unwrap() & 0x01FF_FFFF) as usize;
                sys.ram[at..at + 4].copy_from_slice(&value.to_be_bytes());
            }
            IrInst::ReturnStatic(pc) => return pc,
            IrInst::ReturnDynamic => return stack.pop().unwrap(),
            IrInst::BranchIf { taken, fallthrough } => {
                return if stack.pop().unwrap() != 0 { taken } else { fallthrough };
            }
            other => {
                let y = stack.pop().unwrap();
                let x = stack.pop().unwrap();
                stack.push(match other {
                    IrInst::I32Add => x.wrapping_add(y),
                    IrInst::I32Sub => x.wrapping_sub(y),
                    IrInst::I32Mul => x.wrapping_mul(y),
                    IrInst::I32And => x & y,
                    IrInst::I32Or => x | y,
                    IrInst::I32Xor => x ^ y,
                    IrInst::I32Shl => x << (y & 31),
                    IrInst::I32ShrU => x >> (y & 31),
                    IrInst::I32Rotl => x.rotate_left(y & 31),
                    IrInst::I32Eq => (x == y) as u32,
                    IrInst::I32LtS => ((x as i32) < (y as i32)) as u32,
                    IrInst::I32GtS => ((x as i32) > (y as i32)) as u32,
                    IrInst::I32LtU => (x < y) as u32,
                    IrInst::I32GtU => (x > y) as u32,
                    _ => panic!("{:?}", other),
                });
            }
        }
    }
    unreachable!()
}

fn agree(code: &[u32]) {
    let mut interpreted = machine(code);
    Core::new().exec(&mut interpreted, 2 * code.len() as u64, &[]).unwrap();
    let mut translated = machine(code);
    let ir = Decoder::new().decode(&block(code)).unwrap();
    let next = evaluate(&ir.insts, &mut translated);
    assert_eq!(next, interpreted.cpu.pc);
    assert_eq!(translated.cpu.gpr, interpreted.cpu.gpr);
    assert_eq!(translated.cpu.cr, interpreted.cpu.cr);
    assert_eq!(translated.cpu.lr, interpreted.cpu.lr);
    assert_eq!(translated.ram, interpreted.ram);
}

#[test]
fn arithmetic_agrees() {
    // addi r5, r3, 42; addis r6, r4, 1; add. r7, r5, r6; mullw r8, r3, r4
    agree(&[0x38A3_002A, 0x3CC4_0001, 0x7CE5_3215, 0x7D03_21D6]);
}

#[test]
fn logic_agrees() {
    // and. r5, r3, r4; or r6, r3, r4; xor r7, r3, r4; rlwinm r8, r3, 8, 24, 31
    agree(&[0x7C65_2039, 0x7C66_2378, 0x7C67_2278, 0x5468_463E]);
}

#[test]
fn memory_accesses_agree() {
    // stw r3, 0x100(r1); lwz r5, 0x100(r1); lwzu r6, 0x100(r1)
    agree(&[0x9061_0100, 0x80A1_0100, 0x84C1_0100]);
}

#[test]
fn branches_agree() {
    // cmpwi r3, 0; blt +8
    agree(&[0x2C03_0000, 0x4180_0008]);
    // cmpwi r4, 0; blt +8
    agree(&[0x2C04_0000, 0x4180_0008]);
    // bl +16
    agree(&[0x4800_0011]);
}

#[test]
fn compiled_code_stores_and_returns() {
    // li r3, 42
    let compiled = WasmJit::new().build(&block(&[0x3860_002A])).unwrap();
    let body = [
        0x41, 0x2A, // i32.const 42
        0x21, 0x01, // local.set 1
        0x20, 0x00, // local.get 0
        0x20, 0x01, // local.get 1
        0x36, 0x02, 0x14, // i32.store offset=20
        0x41, 0x84, 0x80, 0x80, 0x80, 0x78, // i32.const 0x80000004
        0x0F, // return
        0x0B, // end
    ];
    assert!(compiled.bytes.ends_with(&body), "{:02X?}", compiled.bytes);
}
