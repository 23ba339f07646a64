//! Processor registers, exceptions and the register image.

use lazuli::gekko::{Cpu, Exception};
use lazuli::ppcwasm::RegOffsets;

#[test]
fn image_round_trips() {
    let mut cpu = Cpu::default();
    cpu.pc = 0x8000_3100;
    cpu.gpr[31] = 0xFEED_F00D;
    cpu.ps0[5] = 0x3FF0_0000_0000_0000;
    cpu.ps1[6] = 0x4000_0000_0000_0000;
    cpu.sprg = [1, 2, 3, 4];
    cpu.tb = 0x0123_4567_89AB_CDEF;
    cpu.dbat[3] = 0xFFFF_0000_1234_5678;
    let bytes = cpu.to_bytes();
    let back = Cpu::from_bytes(&bytes);
    assert_eq!(back.to_bytes(), bytes);
    assert_eq!(back.pc, cpu.pc);
    assert_eq!(back.gpr, cpu.gpr);
    assert_eq!(back.ps0, cpu.ps0);
    assert_eq!(back.ps1, cpu.ps1);
    assert_eq!(back.sprg, cpu.sprg);
    assert_eq!(back.tb, cpu.tb);
    assert_eq!(back.dbat, cpu.dbat);
}

#[test]
fn offsets_point_into_the_image() {
    let mut cpu = Cpu::default();
    cpu.gpr[7] = 0x1122_3344;
    cpu.lr = 0x5566_7788;
    cpu.tb = 0xAABB_CCDD_0102_0304;
    cpu.ps1[9] = 0x1020_3040_5060_7080;
    let image = cpu.to_bytes();
    let off = RegOffsets::compute();
    let word = |at: u64| {
        let at = at as usize;
        u32::from_le_bytes([image[at], image[at + 1], image[at + 2], image[at + 3]])
    };
    assert_eq!(word(off.gpr[7]), 0x1122_3344);
    assert_eq!(word(off.lr), 0x5566_7788);
    assert_eq!(word(off.tb_lo), 0x0102_0304);
    assert_eq!(word(off.tb_hi), 0xAABB_CCDD);
    assert_eq!(word(off.fpr_ps1[9]), 0x5060_7080);
    assert_eq!(word(off.fpr_ps1[9] + 4), 0x1020_3040);
}

#[test]
fn exception_goes_to_its_vector() {
    let mut cpu = Cpu::default();
    cpu.pc = 0x8000_1234;
    cpu.msr = 0x0000_8072;
    cpu.raise_exception(Exception::Interrupt);
    assert_eq!(cpu.srr[0], 0x8000_1234);
    assert_eq!(cpu.srr[1], 0x0000_8072);
    assert_eq!(cpu.pc, 0xFFF0_0500);
    assert_eq!(cpu.msr & 0x8000, 0);
}

#[test]
fn system_call_resumes_behind_itself() {
    let mut cpu = Cpu::default();
    cpu.pc = 0x8000_1234;
    cpu.msr = 0;
    cpu.raise_exception(Exception::Syscall);
    assert_eq!(cpu.srr[0], 0x8000_1238);
    assert_eq!(cpu.pc, 0x0000_0C00);
}

#[test]
fn vectors_name_exceptions() {
    assert_eq!(Exception::from_vector(0x0900), Some(Exception::Decrementer));
    assert_eq!(Exception::from_vector(0x0C00), Some(Exception::Syscall));
    assert_eq!(Exception::from_vector(0x0950), None);
}
