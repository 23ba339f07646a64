//! Branches and the return from an exception.

use vstd::prelude::*;

use super::arithmetic::wrapped;
use super::system::{bit, CpuView, System, SystemView};
use crate::disasm::Ins;
use crate::gekko::SRR1_TO_MSR_MASK;

verus! {

/// The counter after a branch with option `bo`: one less unless the option
/// ignores it.
pub open spec fn counted(ctr: u32, bo: u8) -> u32 {
    if bo & 4 != 0 {
        ctr
    } else {
        wrapped(ctr - 1)
    }
}

/// Whether the counter, already decremented, lets a branch with option `bo` be
/// taken.
pub open spec fn counter_holds(ctr: u32, bo: u8) -> bool {
    bo & 4 != 0 || ((ctr != 0) != (bo & 2 != 0))
}

/// Whether the condition bit `bi`, counted from the most significant, lets a
/// branch with option `bo` be taken.
pub open spec fn condition_holds(cr: u32, bo: u8, bi: u8) -> bool {
    bo & 16 != 0 || bit(cr, (31 - bi) as u32) == (bo & 8 != 0)
}

impl SystemView {
    /// What a conditional branch leaves: the counter, the link register and the
    /// program counter. `to_counter` branches to the new counter, else the
    /// branch goes to `target`.
    pub open spec fn branched(self, ins: Ins, target: u32, to_counter: bool) -> SystemView {
        let ctr = counted(self.cpu.ctr, ins.field_bo());
        let taken = counter_holds(ctr, ins.field_bo()) && condition_holds(
            self.cpu.cr,
            ins.field_bo(),
            ins.field_bi(),
        );
        let next = wrapped(self.cpu.pc + 4);
        SystemView {
            cpu: CpuView {
                ctr,
                lr: if ins.field_lk() {
                    next
                } else {
                    self.cpu.lr
                },
                pc: if taken {
                    if to_counter {
                        ctr & 0xFFFF_FFFC
                    } else {
                        target
                    }
                } else {
                    next
                },
                ..self.cpu
            },
            ..self
        }
    }

    /// What an unconditional branch to `target` leaves.
    pub open spec fn jumped(self, ins: Ins, target: u32) -> SystemView {
        SystemView {
            cpu: CpuView {
                lr: if ins.field_lk() {
                    wrapped(self.cpu.pc + 4)
                } else {
                    self.cpu.lr
                },
                pc: target,
                ..self.cpu
            },
            ..self
        }
    }

    /// What the return from an exception leaves.
    pub open spec fn returned(self) -> SystemView {
        SystemView {
            cpu: CpuView {
                msr: msr_written(self.cpu.msr, self.cpu.srr[1]),
                pc: self.cpu.srr[0] & 0xFFFF_FFFC,
                ..self.cpu
            },
            ..self
        }
    }
}

/// Destination of a branch by `offset`, which is relative unless `absolute`.
pub open spec fn destination(pc: u32, offset: i32, absolute: bool) -> u32 {
    wrapped(
        if absolute {
            offset as int
        } else {
            pc + offset
        },
    )
}

/// MSR after `val` was written to it: the bits that SRR1 carries come from
/// `val`, and bit 18 is cleared.
pub open spec fn msr_written(msr: u32, val: u32) -> u32 {
    ((msr & !SRR1_TO_MSR_MASK) | (val & SRR1_TO_MSR_MASK)) & !(1u32 << 18)
}

fn evaluate_ctr(sys: &mut System, bo: u8) -> (holds: bool)
    ensures
        final(sys)@ == (SystemView {
            cpu: CpuView { ctr: counted(old(sys)@.cpu.ctr, bo), ..old(sys)@.cpu },
            ..old(sys)@
        }),
        holds == counter_holds(final(sys)@.cpu.ctr, bo),
{
    if bo & 4 != 0 {
        return true;
    }
    let ctr: u32 = sys.cpu.ctr.wrapping_sub(1);
    sys.cpu.ctr = ctr;
    (ctr != 0) != (bo & 2 != 0)
}

fn evaluate_condition(sys: &System, bo: u8, bi: u8) -> (holds: bool)
    requires
        bi < 32,
    ensures
        holds == condition_holds(sys@.cpu.cr, bo, bi),
{
    if bo & 16 != 0 {
        return true;
    }
    let set: bool = super::system::test_bit(sys.cpu.cr, 31 - bi as u32);
    set == (bo & 8 != 0)
}

fn branch_target(pc: u32, offset: i32, absolute: bool) -> (target: u32)
    ensures
        target == destination(pc, offset, absolute),
{
    if absolute {
        0u32.wrapping_add_signed(offset)
    } else {
        pc.wrapping_add_signed(offset)
    }
}

fn update_lr(sys: &mut System, pc: u32, lk: bool)
    ensures
        final(sys)@ == (SystemView {
            cpu: CpuView {
                lr: if lk {
                    wrapped(pc + 4)
                } else {
                    old(sys)@.cpu.lr
                },
                ..old(sys)@.cpu
            },
            ..old(sys)@
        }),
{
    if lk {
        sys.cpu.lr = pc.wrapping_add(4);
    }
}

/// Branches.
pub fn b(ins: Ins, sys: &mut System)
    ensures
        final(sys)@ == old(sys)@.jumped(
            ins,
            destination(old(sys)@.cpu.pc, ins.field_li(), ins.field_aa()),
        ),
{
    let pc: u32 = sys.cpu.pc;
    let target: u32 = branch_target(pc, ins.field_li(), ins.field_aa());
    update_lr(sys, pc, ins.field_lk());
    sys.cpu.pc = target;
}

/// Branches on a condition.
pub fn bc(ins: Ins, sys: &mut System)
    ensures
        final(sys)@ == old(sys)@.branched(
            ins,
            destination(old(sys)@.cpu.pc, ins.field_bd() as i32, ins.field_aa()),
            false,
        ),
{
    proof {
        ins.lemma_register_fields();
    }
    let pc: u32 = sys.cpu.pc;
    let ctr_ok: bool = evaluate_ctr(sys, ins.field_bo());
    let cond_ok: bool = evaluate_condition(sys, ins.field_bo(), ins.field_bi());
    let target: u32 = branch_target(pc, ins.field_bd() as i32, ins.field_aa());
    update_lr(sys, pc, ins.field_lk());
    sys.cpu.pc = if ctr_ok && cond_ok { target } else { pc.wrapping_add(4) };
}

/// Branches to the link register on a condition.
pub fn bclr(ins: Ins, sys: &mut System)
    ensures
        final(sys)@ == old(sys)@.branched(ins, old(sys)@.cpu.lr & 0xFFFF_FFFC, false),
{
    proof {
        ins.lemma_register_fields();
    }
    let pc: u32 = sys.cpu.pc;
    let ctr_ok: bool = evaluate_ctr(sys, ins.field_bo());
    let cond_ok: bool = evaluate_condition(sys, ins.field_bo(), ins.field_bi());
    let target: u32 = sys.cpu.lr & 0xFFFF_FFFC;
    update_lr(sys, pc, ins.field_lk());
    sys.cpu.pc = if ctr_ok && cond_ok { target } else { pc.wrapping_add(4) };
}

/// Branches to the counter on a condition.
pub fn bcctr(ins: Ins, sys: &mut System)
    ensures
        final(sys)@ == old(sys)@.branched(ins, 0, true),
{
    proof {
        ins.lemma_register_fields();
    }
    let pc: u32 = sys.cpu.pc;
    let ctr_ok: bool = evaluate_ctr(sys, ins.field_bo());
    let cond_ok: bool = evaluate_condition(sys, ins.field_bo(), ins.field_bi());
    let target: u32 = sys.cpu.ctr & 0xFFFF_FFFC;
    update_lr(sys, pc, ins.field_lk());
    sys.cpu.pc = if ctr_ok && cond_ok { target } else { pc.wrapping_add(4) };
}

/// Writes to MSR the bits that SRR1 carries.
pub fn write_msr(msr: &mut u32, val: u32)
    ensures
        *final(msr) == msr_written(*old(msr), val),
{
    *msr = ((*msr & !SRR1_TO_MSR_MASK) | (val & SRR1_TO_MSR_MASK)) & !(1u32 << 18);
}

/// Returns from an exception.
pub fn rfi(_ins: Ins, sys: &mut System)
    ensures
        final(sys)@ == old(sys)@.returned(),
{
    let srr0: u32 = sys.cpu.srr[0];
    let srr1: u32 = sys.cpu.srr[1];
    let mut msr: u32 = sys.cpu.msr;
    write_msr(&mut msr, srr1);
    sys.cpu.msr = msr;
    sys.cpu.pc = srr0 & 0xFFFF_FFFC;
}

/// System calls have no effect.
pub fn sc(_ins: Ins, sys: &mut System)
    ensures
        *final(sys) == *old(sys),
{
}

} // verus!
