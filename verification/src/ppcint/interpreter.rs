//! The interpreter core: fetches, decodes and executes one instruction at a time.

use vstd::prelude::*;

use super::arithmetic::{
    self, extended_add, immediate, plain_add, signed_high, signed_quotient, unsigned_high,
    unsigned_quotient, wrapped, AddLhs, AddOp, AddRhs,
};
use super::branch::{self, destination};
use super::compare::{
    self, extended16, extended8, half_of, int_of, signed_half, signed_int,
};
use super::logic::{self, mask_of, rotated};
use super::memory::{self, widened16, widened8};
use super::others;
use super::system::{outcome_is, CpuView, Fault, System, SystemView};
use crate::disasm::{Extensions, Ins, Opcode};

verus! {

/// Integer arithmetic: what an instruction leaves, if it is of this family.
pub open spec fn arithmetic_effect(ins: Ins, sys: SystemView) -> Option<Result<SystemView, Fault>> {
    let a = sys.gpr(ins.gpr_a());
    let b = sys.gpr(ins.gpr_b());
    match ins.op {
        Opcode::Add => Some(Ok(sys.added(ins, AddOp { overflow: ins.field_oe(),
            ..plain_add(AddLhs::RA, AddRhs::RB, ins.field_rc(), false) }))),
        Opcode::Addc => Some(Ok(sys.added(ins, extended_add(ins)))),
        Opcode::Adde => Some(Ok(sys.added(ins, extended_add(ins)))),
        Opcode::Addi => Some(Ok(sys.added(ins, plain_add(AddLhs::ZeroOrRA, AddRhs::Imm, false,
            false)))),
        Opcode::Addic => Some(Ok(sys.added(ins, plain_add(AddLhs::RA, AddRhs::Imm, false, true)))),
        Opcode::Addic_ => Some(Ok(sys.added(ins, plain_add(AddLhs::RA, AddRhs::Imm, true, true)))),
        Opcode::Addis => Some(Ok(sys.added(ins, plain_add(AddLhs::ZeroOrRA, AddRhs::ShiftedImm,
            false, false)))),
        Opcode::Addze => Some(Ok(sys.added(ins, AddOp { extend: true, ..plain_add(AddLhs::RA,
            AddRhs::Zero, false, true) }))),
        Opcode::Subf => Some(Ok(sys.subtracted(ins, b, a, false, false))),
        Opcode::Subfc => Some(Ok(sys.subtracted(ins, b, a, false, true))),
        Opcode::Subfic => Some(Ok(sys.subtracted(ins, a, immediate(ins), false, true))),
        Opcode::Subfe => Some(Ok(sys.subtracted(ins, b, a, true, true))),
        Opcode::Neg => Some(Ok(sys.negated(ins))),
        Opcode::Mulli => Some(Ok(sys.multiplied(ins, immediate(ins), false, false))),
        Opcode::Mullw => Some(Ok(sys.multiplied(ins, b, ins.field_rc(), ins.field_oe()))),
        Opcode::Mulhw => Some(Ok(sys.with_result(ins, signed_high(a, b)))),
        Opcode::Mulhwu => Some(Ok(sys.with_result(ins, unsigned_high(a, b)))),
        Opcode::Divw => Some(Ok(sys.divided(ins, signed_quotient(a, b)))),
        Opcode::Divwu => Some(Ok(sys.divided(ins, unsigned_quotient(a, b)))),
        _ => None,
    }
}

/// Branches and system registers: what an instruction leaves, if it is of this family.
pub open spec fn control_effect(ins: Ins, sys: SystemView) -> Option<Result<SystemView, Fault>> {
    let s = sys.gpr(ins.gpr_s());
    match ins.op {
        Opcode::B => Some(Ok(sys.jumped(ins, destination(sys.cpu.pc, ins.field_li(),
            ins.field_aa())))),
        Opcode::Bc => Some(Ok(sys.branched(ins, destination(sys.cpu.pc, ins.field_bd() as i32,
            ins.field_aa()), false))),
        Opcode::Bcctr => Some(Ok(sys.branched(ins, 0, true))),
        Opcode::Bclr => Some(Ok(sys.branched(ins, sys.cpu.lr & 0xFFFF_FFFC, false))),
        Opcode::Sc => Some(Ok(sys)),
        Opcode::Rfi => Some(Ok(sys.returned())),
        Opcode::Mfmsr => Some(Ok(sys.with_gpr(ins.gpr_d(), sys.cpu.msr))),
        Opcode::Mtmsr => Some(Ok(SystemView { cpu: CpuView { msr: s, ..sys.cpu }, ..sys })),
        Opcode::Mfspr => Some(sys.spr_read(ins)),
        Opcode::Mtspr => Some(sys.spr_written(ins)),
        Opcode::Sync => Some(Ok(sys)),
        Opcode::Isync => Some(Ok(sys)),
        Opcode::Icbi => Some(Ok(sys)),
        Opcode::Dcbi => Some(Ok(sys)),
        Opcode::Dcbf => Some(Ok(sys)),
        _ => None,
    }
}

/// Comparisons: what an instruction leaves, if it is of this family.
pub open spec fn comparison_effect(ins: Ins, sys: SystemView) -> Option<Result<SystemView, Fault>> {
    let a = sys.gpr(ins.gpr_a());
    let b = sys.gpr(ins.gpr_b());
    match ins.op {
        Opcode::Cmp => Some(Ok(sys.compared(ins.field_crfd(), signed_int(a), signed_int(b)))),
        Opcode::Cmpi => Some(Ok(sys.compared(ins.field_crfd(), signed_int(a),
            signed_half(ins.field_simm())))),
        Opcode::Cmpl => Some(Ok(sys.compared(ins.field_crfd(), int_of(a), int_of(b)))),
        Opcode::Cmpli => Some(Ok(sys.compared(ins.field_crfd(), int_of(a),
            half_of(ins.field_uimm())))),
        _ => None,
    }
}

/// Logical operations, rotates and shifts: what an instruction leaves, if it is of this family.
pub open spec fn logical_effect(ins: Ins, sys: SystemView) -> Option<Result<SystemView, Fault>> {
    let b = sys.gpr(ins.gpr_b());
    let s = sys.gpr(ins.gpr_s());
    let rc = ins.field_rc();
    match ins.op {
        Opcode::Extsb => Some(Ok(sys.stored(ins.gpr_d(), extended8(s), rc))),
        Opcode::Extsh => Some(Ok(sys.stored(ins.gpr_a(), extended16(s), rc))),
        Opcode::And => Some(Ok(sys.stored(ins.gpr_a(), s & b, rc))),
        Opcode::Andc => Some(Ok(sys.stored(ins.gpr_a(), s & !b, rc))),
        Opcode::Andi_ => Some(Ok(sys.stored(ins.gpr_a(), s & (ins.field_uimm() as u32), rc))),
        Opcode::Or => Some(Ok(sys.with_gpr(ins.gpr_a(), s | b))),
        Opcode::Ori => Some(Ok(sys.with_gpr(ins.gpr_a(), s | (ins.field_uimm() as u32)))),
        Opcode::Oris => Some(Ok(sys.with_gpr(ins.gpr_d(), sys.gpr_or_zero(ins.gpr_a())
            | ((ins.field_uimm() as u32) << 16)))),
        Opcode::Xor => Some(Ok(sys.stored(ins.gpr_a(), s ^ b, rc))),
        Opcode::Xoris => Some(Ok(sys.with_gpr(ins.gpr_a(), s ^ ((ins.field_uimm() as u32) << 16)))),
        Opcode::Nor => Some(Ok(sys.stored(ins.gpr_a(), !(s | b), rc))),
        Opcode::Cntlzw => Some(Ok(sys.stored(ins.gpr_a(), s.leading_zeros(), rc))),
        Opcode::Crxor => Some(Ok(sys.condition_bits_combined(ins))),
        Opcode::Mtfsb1 => Some(Ok(sys.status_bit_set(ins))),
        Opcode::Rlwinm => Some(Ok(sys.stored(ins.gpr_a(), rotated(s,
            ins.field_sh()) & mask_of(ins), rc))),
        Opcode::Rlwimi => Some(Ok(sys.stored(ins.gpr_a(), (sys.gpr(ins.gpr_a()) & !mask_of(ins))
            | (rotated(s, ins.field_sh()) & mask_of(ins)), rc))),
        Opcode::Slw => Some(Ok(sys.with_gpr(ins.gpr_a(), s << (b & 0x1F)))),
        Opcode::Sraw => Some(Ok(sys.shifted_right(ins))),
        _ => None,
    }
}

/// Loads and stores: what an instruction leaves, if it is of this family.
pub open spec fn memory_effect(ins: Ins, sys: SystemView) -> Option<Result<SystemView, Fault>> {
    let s = sys.gpr(ins.gpr_s());
    match ins.op {
        Opcode::Lbz => Some(sys.loaded(ins, widened8(sys.read8(sys.displaced(ins))))),
        Opcode::Lbzu => Some(sys.byte_loaded_update(ins)),
        Opcode::Lhz => Some(sys.loaded(ins, widened16(sys.read16(sys.displaced(ins))))),
        Opcode::Lhzu => Some(sys.half_loaded_update(ins)),
        Opcode::Lhzx => Some(sys.loaded(ins, widened16(sys.read16(sys.indexed(ins))))),
        Opcode::Lwz => Some(sys.loaded(ins, sys.read32(sys.displaced(ins)))),
        Opcode::Lwzu => Some(sys.word_loaded_update(ins)),
        Opcode::Lwzx => Some(sys.loaded(ins, sys.read32(sys.indexed(ins)))),
        Opcode::Lmw => Some(sys.words_loaded(ins)),
        Opcode::Stb => Some(Ok(sys.byte_stored(ins, sys.displaced(ins)))),
        Opcode::Stbu => Some(Ok(sys.byte_stored(ins, sys.displaced(ins)).based(ins,
            sys.displaced(ins)))),
        Opcode::Stbx => Some(Ok(sys.byte_stored(ins, sys.indexed(ins)))),
        Opcode::Sth => Some(sys.half_stored(ins)),
        Opcode::Stw => Some(Ok(sys.written32(sys.displaced(ins), s))),
        Opcode::Stwu => Some(Ok(sys.word_stored_update(ins))),
        Opcode::Stwx => Some(sys.word_stored_indexed(ins)),
        Opcode::Stmw => Some(Ok(sys.stored_multiple(ins.gpr_s() as int, sys.displaced(ins)))),
        Opcode::Stfdu => Some(sys.double_stored_update(ins)),
        Opcode::Mftb => Some(sys.time_base_read(ins)),
        _ => None,
    }
}

/// What instruction `ins` leaves, or why it cannot be executed.
pub open spec fn effect(ins: Ins, sys: SystemView) -> Result<SystemView, Fault> {
    if let Some(outcome) = arithmetic_effect(ins, sys) {
        outcome
    } else
    if let Some(outcome) = control_effect(ins, sys) {
        outcome
    } else
    if let Some(outcome) = comparison_effect(ins, sys) {
        outcome
    } else
    if let Some(outcome) = logical_effect(ins, sys) {
        outcome
    } else
    if let Some(outcome) = memory_effect(ins, sys) {
        outcome
    } else {
        Err(Fault::Unimplemented)
    }
}

/// Executes `ins` if it is of this family: integer arithmetic.
fn execute_arithmetic(ins: Ins, sys: &mut System) -> (done: Option<Result<(), Fault>>)
    ensures
        match arithmetic_effect(ins, old(sys)@) {
            Some(want) => done is Some && outcome_is(
                old(sys)@,
                want,
                final(sys)@,
                done.unwrap(),
            ),
            None => done is None && *final(sys) == *old(sys),
        },
{
    match ins.op {
        Opcode::Add => crate::ppcint::arithmetic::add(ins, sys),
        Opcode::Addc => arithmetic::addc(ins, sys),
        Opcode::Adde => arithmetic::adde(ins, sys),
        Opcode::Addi => arithmetic::addi(ins, sys),
        Opcode::Addic => arithmetic::addic(ins, sys),
        Opcode::Addic_ => arithmetic::addic_(ins, sys),
        Opcode::Addis => arithmetic::addis(ins, sys),
        Opcode::Addze => arithmetic::addze(ins, sys),
        Opcode::Subf => arithmetic::subf(ins, sys),
        Opcode::Subfc => arithmetic::subfc(ins, sys),
        Opcode::Subfic => arithmetic::subfic(ins, sys),
        Opcode::Subfe => arithmetic::subfe(ins, sys),
        Opcode::Neg => arithmetic::neg(ins, sys),
        Opcode::Mulli => arithmetic::mulli(ins, sys),
        Opcode::Mullw => arithmetic::mullw(ins, sys),
        Opcode::Mulhw => arithmetic::mulhw(ins, sys),
        Opcode::Mulhwu => arithmetic::mulhwu(ins, sys),
        Opcode::Divw => arithmetic::divw(ins, sys),
        Opcode::Divwu => arithmetic::divwu(ins, sys),
        _ => {
            return None;
        },
    }
    Some(Ok(()))
}

/// Executes `ins` if it is of this family: branches and system registers.
fn execute_control(ins: Ins, sys: &mut System) -> (done: Option<Result<(), Fault>>)
    ensures
        match control_effect(ins, old(sys)@) {
            Some(want) => done is Some && outcome_is(
                old(sys)@,
                want,
                final(sys)@,
                done.unwrap(),
            ),
            None => done is None && *final(sys) == *old(sys),
        },
{
    match ins.op {
        Opcode::B => branch::b(ins, sys),
        Opcode::Bc => branch::bc(ins, sys),
        Opcode::Bcctr => branch::bcctr(ins, sys),
        Opcode::Bclr => branch::bclr(ins, sys),
        Opcode::Sc => branch::sc(ins, sys),
        Opcode::Rfi => branch::rfi(ins, sys),
        Opcode::Mfmsr => others::mfmsr(ins, sys),
        Opcode::Mtmsr => others::mtmsr(ins, sys),
        Opcode::Mfspr => {
            return Some(others::mfspr(ins, sys));
        },
        Opcode::Mtspr => {
            return Some(others::mtspr(ins, sys));
        },
        Opcode::Sync => others::sync(ins, sys),
        Opcode::Isync => others::isync(ins, sys),
        Opcode::Icbi => others::icbi(ins, sys),
        Opcode::Dcbi => others::dcbi(ins, sys),
        Opcode::Dcbf => others::dcbf(ins, sys),
        _ => {
            return None;
        },
    }
    Some(Ok(()))
}

/// Executes `ins` if it is of this family: comparisons.
fn execute_comparison(ins: Ins, sys: &mut System) -> (done: Option<Result<(), Fault>>)
    ensures
        match comparison_effect(ins, old(sys)@) {
            Some(want) => done is Some && outcome_is(
                old(sys)@,
                want,
                final(sys)@,
                done.unwrap(),
            ),
            None => done is None && *final(sys) == *old(sys),
        },
{
    match ins.op {
        Opcode::Cmp => compare::cmp(ins, sys),
        Opcode::Cmpi => compare::cmpi(ins, sys),
        Opcode::Cmpl => compare::cmpl(ins, sys),
        Opcode::Cmpli => compare::cmpli(ins, sys),
        _ => {
            return None;
        },
    }
    Some(Ok(()))
}

/// Executes `ins` if it is of this family: logical operations, rotates and shifts.
fn execute_logical(ins: Ins, sys: &mut System) -> (done: Option<Result<(), Fault>>)
    ensures
        match logical_effect(ins, old(sys)@) {
            Some(want) => done is Some && outcome_is(
                old(sys)@,
                want,
                final(sys)@,
                done.unwrap(),
            ),
            None => done is None && *final(sys) == *old(sys),
        },
{
    match ins.op {
        Opcode::Extsb => compare::extsb(ins, sys),
        Opcode::Extsh => compare::extsh(ins, sys),
        Opcode::And => logic::and(ins, sys),
        Opcode::Andc => logic::andc(ins, sys),
        Opcode::Andi_ => logic::andi_(ins, sys),
        Opcode::Or => logic::or(ins, sys),
        Opcode::Ori => logic::ori(ins, sys),
        Opcode::Oris => logic::oris(ins, sys),
        Opcode::Xor => logic::xor(ins, sys),
        Opcode::Xoris => logic::xoris(ins, sys),
        Opcode::Nor => logic::nor(ins, sys),
        Opcode::Cntlzw => logic::cntlzw(ins, sys),
        Opcode::Crxor => logic::crxor(ins, sys),
        Opcode::Mtfsb1 => logic::mtfsb1(ins, sys),
        Opcode::Rlwinm => logic::rlwinm(ins, sys),
        Opcode::Rlwimi => logic::rlwimi(ins, sys),
        Opcode::Slw => logic::slw(ins, sys),
        Opcode::Sraw => logic::sraw(ins, sys),
        _ => {
            return None;
        },
    }
    Some(Ok(()))
}

/// Executes `ins` if it is of this family: loads and stores.
fn execute_memory(ins: Ins, sys: &mut System) -> (done: Option<Result<(), Fault>>)
    ensures
        match memory_effect(ins, old(sys)@) {
            Some(want) => done is Some && outcome_is(
                old(sys)@,
                want,
                final(sys)@,
                done.unwrap(),
            ),
            None => done is None && *final(sys) == *old(sys),
        },
{
    match ins.op {
        Opcode::Lbz => {
            return Some(memory::lbz(ins, sys));
        },
        Opcode::Lbzu => {
            return Some(memory::lbzu(ins, sys));
        },
        Opcode::Lhz => {
            return Some(memory::lhz(ins, sys));
        },
        Opcode::Lhzu => {
            return Some(memory::lhzu(ins, sys));
        },
        Opcode::Lhzx => {
            return Some(memory::lhzx(ins, sys));
        },
        Opcode::Lwz => {
            return Some(memory::lwz(ins, sys));
        },
        Opcode::Lwzu => {
            return Some(memory::lwzu(ins, sys));
        },
        Opcode::Lwzx => {
            return Some(memory::lwzx(ins, sys));
        },
        Opcode::Lmw => {
            return Some(memory::lmw(ins, sys));
        },
        Opcode::Stb => memory::stb(ins, sys),
        Opcode::Stbu => memory::stbu(ins, sys),
        Opcode::Stbx => memory::stbx(ins, sys),
        Opcode::Sth => {
            return Some(memory::sth(ins, sys));
        },
        Opcode::Stw => memory::stw(ins, sys),
        Opcode::Stwu => memory::stwu(ins, sys),
        Opcode::Stwx => {
            return Some(memory::stwx(ins, sys));
        },
        Opcode::Stmw => memory::stmw(ins, sys),
        Opcode::Stfdu => {
            return Some(memory::stfdu(ins, sys));
        },
        Opcode::Mftb => {
            return Some(memory::mftb(ins, sys));
        },
        _ => {
            return None;
        },
    }
    Some(Ok(()))
}

/// Executes `ins`.
fn execute(ins: Ins, sys: &mut System) -> (done: Result<(), Fault>)
    ensures
        outcome_is(old(sys)@, effect(ins, old(sys)@), final(sys)@, done),
{
    if let Some(done) = execute_arithmetic(ins, sys) {
        return done;
    }
    if let Some(done) = execute_control(ins, sys) {
        return done;
    }
    if let Some(done) = execute_comparison(ins, sys) {
        return done;
    }
    if let Some(done) = execute_logical(ins, sys) {
        return done;
    }
    if let Some(done) = execute_memory(ins, sys) {
        return done;
    }
    Err(Fault::Unimplemented)
}

impl SystemView {
    /// The machine after one instruction, or why it cannot be executed. An
    /// instruction that leaves the program counter is followed by the next one.
    pub open spec fn stepped(self) -> Result<SystemView, Fault> {
        match self.read32(self.cpu.pc) {
            None => Err(Fault::Fetch),
            Some(raw) => match effect(Ins::decoded(raw, Extensions::none()), self) {
                Err(fault) => Err(fault),
                Ok(after) => Ok(
                    if after.cpu.pc == self.cpu.pc {
                        after.with_pc(wrapped(self.cpu.pc + 4))
                    } else {
                        after
                    },
                ),
            },
        }
    }
}

/// How many cycles an instruction takes.
pub const CYCLES_PER_INSTRUCTION: u64 = 2;

/// What was executed.
#[derive(Clone, Copy, Debug, PartialEq, Eq, Structural)]
pub struct Executed {
    pub instructions: u64,
    pub cycles: u64,
    pub hit_breakpoint: bool,
}

/// How a run ends.
pub struct Run {
    /// The machine at the end.
    pub sys: SystemView,
    /// Instructions that were executed.
    pub instructions: nat,
    /// Whether it stopped at a breakpoint.
    pub hit_breakpoint: bool,
    /// The fault that stopped it, if one did.
    pub fault: Option<Fault>,
}

/// Executes instructions until `cycles` have passed, a breakpoint is reached or
/// an instruction cannot be executed.
pub open spec fn run(sys: SystemView, cycles: int, breakpoints: Seq<u32>) -> Run
    decreases cycles + 1,
{
    if cycles <= 0 {
        Run { sys, instructions: 0, hit_breakpoint: false, fault: None }
    } else if breakpoints.contains(sys.cpu.pc) {
        Run { sys, instructions: 0, hit_breakpoint: true, fault: None }
    } else {
        match sys.stepped() {
            Err(fault) => Run { sys, instructions: 0, hit_breakpoint: false, fault: Some(fault) },
            Ok(after) => {
                let rest = run(after, cycles - CYCLES_PER_INSTRUCTION, breakpoints);
                Run { instructions: rest.instructions + 1, ..rest }
            },
        }
    }
}

/// A run never executes more instructions than the cycles allow.
pub proof fn run_is_bounded(sys: SystemView, cycles: int, breakpoints: Seq<u32>)
    ensures
        cycles <= 0 ==> run(sys, cycles, breakpoints).instructions == 0,
        cycles > 0 ==> 2 * run(sys, cycles, breakpoints).instructions <= cycles + 1,
    decreases cycles + 1,
{
    if cycles > 0 && !breakpoints.contains(sys.cpu.pc) {
        if let Ok(after) = sys.stepped() {
            run_is_bounded(after, cycles - CYCLES_PER_INSTRUCTION, breakpoints);
        }
    }
}

/// A run without breakpoints or faults can be cut anywhere at an instruction:
/// running on from there ends the same.
pub proof fn run_splits(sys: SystemView, first: nat, second: int, breakpoints: Seq<u32>)
    requires
        first % 2 == 0,
        run(sys, first as int, breakpoints).fault is None,
        !run(sys, first as int, breakpoints).hit_breakpoint,
        second >= 0,
    ensures
        ({
            let head = run(sys, first as int, breakpoints);
            let tail = run(head.sys, second, breakpoints);
            run(sys, first + second, breakpoints) == (Run {
                instructions: head.instructions + tail.instructions,
                ..tail
            })
        }),
    decreases first,
{
    if first > 0 {
        if let Ok(after) = sys.stepped() {
            run_splits(after, (first - 2) as nat, second, breakpoints);
        }
    }
}

/// The interpreter.
pub struct Core {
    /// Instructions that were started.
    pub instr_count: u64,
    /// Cycles that the core has been charged with.
    pub total_cycles: u64,
}

impl Core {
    /// An interpreter that has executed nothing.
    pub fn new() -> (core: Self)
        ensures
            core.instr_count == 0,
            core.total_cycles == 0,
    {
        Core { instr_count: 0, total_cycles: 0 }
    }

    /// Executes one instruction. On a fault the machine is left as it was.
    pub fn step(&mut self, sys: &mut System) -> (executed: Result<Executed, Fault>)
        requires
            old(self).instr_count < u64::MAX,
        ensures
            final(self).instr_count == old(self).instr_count + 1,
            final(self).total_cycles == old(self).total_cycles,
            match old(sys)@.stepped() {
                Ok(after) => final(sys)@ == after && executed == Ok::<Executed, Fault>(
                    Executed {
                        instructions: 1,
                        cycles: CYCLES_PER_INSTRUCTION,
                        hit_breakpoint: false,
                    },
                ),
                Err(fault) => final(sys)@ == old(sys)@ && executed == Err::<Executed, Fault>(
                    fault,
                ),
            },
    {
        let old_pc: u32 = sys.cpu.pc;
        self.instr_count = self.instr_count + 1;
        let raw: u32 = match sys.read_u32(old_pc) {
            Some(raw) => raw,
            None => {
                return Err(Fault::Fetch);
            },
        };
        let ins = Ins::new(raw, Extensions::none());
        match execute(ins, sys) {
            Ok(_) => {},
            Err(fault) => {
                return Err(fault);
            },
        }
        if sys.cpu.pc == old_pc {
            sys.cpu.pc = old_pc.wrapping_add(4);
        }
        Ok(Executed { instructions: 1, cycles: CYCLES_PER_INSTRUCTION, hit_breakpoint: false })
    }

    /// Executes instructions until `cycles` have passed or a breakpoint is
    /// reached. An instruction that faults counts as started.
    pub fn exec(&mut self, sys: &mut System, cycles: u64, breakpoints: &[u32]) -> (executed: Result<
        Executed,
        Fault,
    >)
        requires
            cycles < u64::MAX,
            old(self).instr_count + cycles < u64::MAX,
        ensures
            ({
                let end = run(old(sys)@, cycles as int, breakpoints@);
                &&& final(sys)@ == end.sys
                &&& match end.fault {
                    Some(fault) => executed == Err::<Executed, Fault>(fault),
                    None => executed == Ok::<Executed, Fault>(
                        Executed {
                            instructions: end.instructions as u64,
                            cycles: (end.instructions * CYCLES_PER_INSTRUCTION) as u64,
                            hit_breakpoint: end.hit_breakpoint,
                        },
                    ),
                }
            }),
            ({
                let end = run(old(sys)@, cycles as int, breakpoints@);
                final(self).instr_count == old(self).instr_count + end.instructions
                    + if end.fault is Some {
                    1int
                } else {
                    0
                }
            }),
            final(self).total_cycles == old(self).total_cycles,
    {
        let mut executed = Executed { instructions: 0, cycles: 0, hit_breakpoint: false };
        let ghost end = run(old(sys)@, cycles as int, breakpoints@);
        proof {
            run_is_bounded(old(sys)@, cycles as int, breakpoints@);
        }
        while executed.cycles < cycles
            invariant
                cycles < u64::MAX,
                old(self).instr_count + cycles < u64::MAX,
                executed.cycles == 2 * executed.instructions,
                executed.cycles <= cycles + 1,
                !executed.hit_breakpoint,
                self.instr_count == old(self).instr_count + executed.instructions,
                self.total_cycles == old(self).total_cycles,
                end == run(old(sys)@, cycles as int, breakpoints@),
                ({
                    let rest = run(sys@, cycles - executed.cycles, breakpoints@);
                    end == (Run {
                        instructions: rest.instructions + executed.instructions as nat,
                        ..rest
                    })
                }),
                end.instructions * 2 <= cycles + 1,
            decreases cycles + 2 - executed.cycles,
        {
            if contains(breakpoints, sys.cpu.pc) {
                executed.hit_breakpoint = true;
                return Ok(executed);
            }
            match self.step(sys) {
                Ok(one) => {
                    executed.instructions = executed.instructions + one.instructions;
                    executed.cycles = executed.cycles + one.cycles;
                },
                Err(fault) => {
                    return Err(fault);
                },
            }
        }
        Ok(executed)
    }
}

/// Whether `pc` is among `breakpoints`.
fn contains(breakpoints: &[u32], pc: u32) -> (found: bool)
    ensures
        found == breakpoints@.contains(pc),
{
    let mut i: usize = 0;
    while i < breakpoints.len()
        invariant
            i <= breakpoints@.len(),
            forall|k: int| 0 <= k < i ==> breakpoints@[k] != pc,
        decreases breakpoints@.len() - i,
    {
        if breakpoints[i] == pc {
            return true;
        }
        i = i + 1;
    }
    false
}

} // verus!
