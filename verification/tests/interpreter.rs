//! The interpreter, instruction by instruction.

use lazuli::disasm::{Extensions, Ins};
use lazuli::gekko::Cpu;
use lazuli::ppcint::compare::update_cr0;
use lazuli::ppcint::{Core, Executed, Fault, System};

fn machine(code: &[u32]) -> System {
    let mut ram = vec![0u8; 0x1000];
    for (i, word) in code.iter().enumerate() {
        ram[4 * i..4 * i + 4].copy_from_slice(&word.to_be_bytes());
    }
    let mut sys = System { cpu: Cpu::default(), ram, clock: 0 };
    sys.cpu.pc = 0x8000_0000;
    sys
}

fn run(code: &[u32], sys: &mut System) -> Result<Executed, Fault> {
    Core::new().exec(sys, 2 * code.len() as u64, &[])
}

#[test]
fn constants_are_loaded_and_added() {
    // li r3, 42; lis r4, 1; add r5, r3, r4
    let code = [0x3860_002A, 0x3C80_0001, 0x7CA3_2214];
    let mut sys = machine(&code);
    let done = run(&code, &mut sys).unwrap();
    assert_eq!(done, Executed { instructions: 3, cycles: 6, hit_breakpoint: false });
    assert_eq!(sys.cpu.gpr[3], 42);
    assert_eq!(sys.cpu.gpr[4], 0x1_0000);
    assert_eq!(sys.cpu.gpr[5], 0x1_002A);
    assert_eq!(sys.cpu.pc, 0x8000_000C);
}

#[test]
fn a_word_goes_through_memory() {
    // stw r3, 0x100(r1); lwz r4, 0x100(r1)
    let code = [0x9061_0100, 0x8081_0100];
    let mut sys = machine(&code);
    sys.cpu.gpr[1] = 0x8000_0000;
    sys.cpu.gpr[3] = 0xDEAD_BEEF;
    run(&code, &mut sys).unwrap();
    assert_eq!(&sys.ram[0x100..0x104], &[0xDE, 0xAD, 0xBE, 0xEF]);
    assert_eq!(sys.cpu.gpr[4], 0xDEAD_BEEF);
}

#[test]
fn comparison_sets_a_condition_field() {
    // cmpwi cr0, r3, -1
    let code = [0x2C03_FFFF];
    let mut sys = machine(&code);
    sys.cpu.gpr[3] = 5;
    run(&code, &mut sys).unwrap();
    assert_eq!(sys.cpu.cr >> 28, 0b0100);
    let mut sys = machine(&code);
    sys.cpu.gpr[3] = 0xFFFF_FFFF;
    run(&code, &mut sys).unwrap();
    assert_eq!(sys.cpu.cr >> 28, 0b0010);
}

#[test]
fn results_are_recorded_by_sign() {
    let mut sys = machine(&[]);
    sys.cpu.xer = 0x8000_0000;
    update_cr0(0x8000_0000, &mut sys);
    assert_eq!(sys.cpu.cr, 0x9000_0000);
    update_cr0(7, &mut sys);
    assert_eq!(sys.cpu.cr, 0x5000_0000);
    sys.cpu.xer = 0;
    update_cr0(0, &mut sys);
    assert_eq!(sys.cpu.cr, 0x2000_0000);
}

#[test]
fn branch_and_link_comes_back() {
    // bl +8; li r3, 1; blr
    let code = [0x4800_0009, 0x3860_0001, 0x4E80_0020];
    let mut sys = machine(&code);
    Core::new().exec(&mut sys, 6, &[]).unwrap();
    assert_eq!(sys.cpu.lr, 0x8000_0004);
    assert_eq!(sys.cpu.gpr[3], 1);
    assert_eq!(sys.cpu.pc, 0x8000_0008);
}

#[test]
fn counted_branch_repeats() {
    // addi r3, r3, 1; bdnz -4
    let code = [0x3863_0001, 0x4200_FFFC];
    let mut sys = machine(&code);
    sys.cpu.ctr = 3;
    Core::new().exec(&mut sys, 12, &[]).unwrap();
    assert_eq!(sys.cpu.gpr[3], 3);
    assert_eq!(sys.cpu.ctr, 0);
    assert_eq!(sys.cpu.pc, 0x8000_0008);
}

#[test]
fn breakpoint_stops_execution() {
    let code = [0x3863_0001, 0x3863_0001, 0x3863_0001];
    let mut sys = machine(&code);
    let done = Core::new().exec(&mut sys, 100, &[0x8000_0008]).unwrap();
    assert!(done.hit_breakpoint);
    assert_eq!(sys.cpu.pc, 0x8000_0008);
    assert_eq!(sys.cpu.gpr[3], 2);
}

#[test]
fn carry_is_kept_between_words() {
    // addic r3, r3, 1; addze r4, r4
    let code = [0x3063_0001, 0x7C84_0194];
    let mut sys = machine(&code);
    sys.cpu.gpr[3] = 0xFFFF_FFFF;
    sys.cpu.gpr[4] = 9;
    run(&code, &mut sys).unwrap();
    assert_eq!(sys.cpu.gpr[3], 0);
    assert_eq!(sys.cpu.gpr[4], 10);
    assert_eq!(sys.cpu.xer & 0x2000_0000, 0);
}

#[test]
fn rotation_selects_under_a_mask() {
    // rlwinm r4, r3, 8, 24, 31
    let code = [0x5464_463E];
    let mut sys = machine(&code);
    sys.cpu.gpr[3] = 0xAB00_0000;
    run(&code, &mut sys).unwrap();
    assert_eq!(sys.cpu.gpr[4], 0xAB);
}

#[test]
fn quotient_rounds_toward_zero() {
    // divw r5, r3, r4
    let code = [0x7CA3_23D6];
    let mut sys = machine(&code);
    sys.cpu.gpr[3] = (-7i32) as u32;
    sys.cpu.gpr[4] = 2;
    run(&code, &mut sys).unwrap();
    assert_eq!(sys.cpu.gpr[5] as i32, -3);
    sys.cpu.gpr[4] = 0;
    sys.cpu.pc = 0x8000_0000;
    run(&code, &mut sys).unwrap();
    assert_eq!(sys.cpu.gpr[5], 0);
}

#[test]
fn special_registers_read_back() {
    // mtspr SRR0, r3; mfspr r4, SRR0
    let code = [0x7C7A_03A6, 0x7C9A_02A6];
    let mut sys = machine(&code);
    sys.cpu.gpr[3] = 0x1234_5678;
    run(&code, &mut sys).unwrap();
    assert_eq!(sys.cpu.srr[0], 0x1234_5678);
    assert_eq!(sys.cpu.gpr[4], 0x1234_5678);
}

#[test]
fn return_from_interrupt_restores() {
    // rfi
    let code = [0x4C00_0064];
    let mut sys = machine(&code);
    sys.cpu.srr = [0x8000_0103, 0x0000_8000];
    sys.cpu.msr = 0;
    run(&code, &mut sys).unwrap();
    assert_eq!(sys.cpu.pc, 0x8000_0100);
    assert_eq!(sys.cpu.msr, 0x0000_8000);
}

#[test]
fn faults_leave_the_machine_alone() {
    let cases = [
        // lwz r3, 0(r4) without memory
        (0x8064_0000, Fault::InvalidRead),
        // stwx r3, r4, r5 without memory
        (0x7C64_292E, Fault::InvalidWrite),
        // lhzu r3, 0(0)
        (0xA460_0000, Fault::InvalidForm),
        // mftb r3, 300
        (0x7C6C_4AE6, Fault::InvalidTimeBase),
        // mfspr r3, 274
        (0x7C72_42A6, Fault::UnknownSpr),
        // an undefined encoding
        (0x0000_0000, Fault::Unimplemented),
    ];
    for (code, fault) in cases {
        let mut sys = machine(&[code]);
        sys.cpu.gpr[4] = 0x8010_0000;
        let before = sys.ram.clone();
        assert_eq!(Core::new().step(&mut sys), Err(fault), "{:08X}", code);
        assert_eq!(sys.cpu.pc, 0x8000_0000);
        assert_eq!(sys.cpu.gpr[3], 0);
        assert_eq!(sys.ram, before);
    }
    let mut sys = machine(&[]);
    sys.cpu.pc = 0x8000_1000;
    assert_eq!(Core::new().step(&mut sys), Err(Fault::Fetch));
}

#[test]
fn core_counts_instructions_and_cycles() {
    let code = [0x6000_0000; 5];
    let mut sys = machine(&code);
    let mut core = Core::new();
    core.step(&mut sys).unwrap();
    assert_eq!(core.instr_count, 1);
    let done = core.exec(&mut sys, 7, &[]).unwrap();
    assert_eq!(done.cycles, 8);
    assert_eq!(core.instr_count, 5);
    // The instruction that faults counts as started.
    let mut sys = machine(&[0x6000_0000, 0x0000_0000]);
    let mut core = Core::new();
    assert_eq!(core.exec(&mut sys, 10, &[]), Err(Fault::Unimplemented));
    assert_eq!(core.instr_count, 2);
}

#[test]
fn names_and_fields_of_an_instruction() {
    let ins = Ins::new(0x3863_FFFF, Extensions::gekko_broadway());
    assert_eq!(ins.gpr_d(), 3);
    assert_eq!(ins.gpr_a(), 3);
    assert_eq!(ins.field_simm(), -1);
    assert_eq!(ins.field_uimm(), 0xFFFF);
}

#[test]
fn paired_singles_need_the_extension() {
    // ps_add f0, f2, f3
    let with = Ins::new(0x1002_182A, Extensions::gekko_broadway());
    let without = Ins::new(0x1002_182A, Extensions::none());
    assert_ne!(with.op, without.op);
}
