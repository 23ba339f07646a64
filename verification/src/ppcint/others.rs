//! Special-purpose registers, the machine state and cache operations.

use vstd::prelude::*;

use super::system::{outcome_is, CpuView, Fault, System, SystemView};
use crate::disasm::Ins;
use crate::gekko::{hi32, join64, lo32};

verus! {

impl CpuView {
    /// Special-purpose register `n`, if it is kept. Of a block-translation
    /// register the even number is the upper half.
    pub open spec fn spr(self, n: u16) -> Option<u32> {
        if n == 1 {
            Some(self.xer)
        } else if n == 8 {
            Some(self.lr)
        } else if n == 9 {
            Some(self.ctr)
        } else if n == 26 || n == 27 {
            Some(self.srr[n - 26])
        } else if 528 <= n <= 535 {
            Some(bat_half(self.ibat[(n - 528) / 2], n % 2 == 0))
        } else if 536 <= n <= 543 {
            Some(bat_half(self.dbat[(n - 536) / 2], n % 2 == 0))
        } else if 912 <= n <= 919 {
            Some(self.gqr[n - 912])
        } else if n == 920 {
            Some(self.hid[2])
        } else if n == 1008 || n == 1009 {
            Some(self.hid[n - 1008])
        } else if n == 1017 {
            Some(self.l2cr)
        } else {
            None
        }
    }

    /// The registers with special-purpose register `n` set to `val`, if it is
    /// kept.
    pub open spec fn with_spr(self, n: u16, val: u32) -> Option<CpuView> {
        if n == 1 {
            Some(CpuView { xer: val, ..self })
        } else if n == 8 {
            Some(CpuView { lr: val, ..self })
        } else if n == 9 {
            Some(CpuView { ctr: val, ..self })
        } else if n == 26 || n == 27 {
            Some(CpuView { srr: self.srr.update(n - 26, val), ..self })
        } else if 528 <= n <= 535 {
            let k = (n - 528) / 2;
            let bat = with_bat_half(self.ibat[k], n % 2 == 0, val);
            Some(CpuView { ibat: self.ibat.update(k, bat), ..self })
        } else if 536 <= n <= 543 {
            let k = (n - 536) / 2;
            let bat = with_bat_half(self.dbat[k], n % 2 == 0, val);
            Some(CpuView { dbat: self.dbat.update(k, bat), ..self })
        } else if 912 <= n <= 919 {
            Some(CpuView { gqr: self.gqr.update(n - 912, val), ..self })
        } else if n == 920 {
            Some(CpuView { hid: self.hid.update(2, val), ..self })
        } else if n == 1008 || n == 1009 {
            Some(CpuView { hid: self.hid.update(n - 1008, val), ..self })
        } else if n == 1017 {
            Some(CpuView { l2cr: val, ..self })
        } else {
            None
        }
    }
}

impl SystemView {
    /// What moving a special-purpose register to `rd` leaves.
    pub open spec fn spr_read(self, ins: Ins) -> Result<SystemView, Fault> {
        match self.cpu.spr(ins.field_spr()) {
            Some(value) => Ok(self.with_gpr(ins.gpr_d(), value)),
            None => Err(Fault::UnknownSpr),
        }
    }

    /// What moving `rs` to a special-purpose register leaves.
    pub open spec fn spr_written(self, ins: Ins) -> Result<SystemView, Fault> {
        match self.cpu.with_spr(ins.field_spr(), self.gpr(ins.gpr_s())) {
            Some(cpu) => Ok(SystemView { cpu, ..self }),
            None => Err(Fault::UnknownSpr),
        }
    }
}

/// Half of a block-translation register.
pub open spec fn bat_half(bat: u64, upper: bool) -> u32 {
    if upper {
        hi32(bat)
    } else {
        lo32(bat)
    }
}

/// A block-translation register with one half replaced.
pub open spec fn with_bat_half(bat: u64, upper: bool, val: u32) -> u64 {
    if upper {
        join64(val, lo32(bat))
    } else {
        join64(hi32(bat), val)
    }
}

/// A special-purpose register that was written reads back the value, and the
/// same registers can be read as written.
pub proof fn spr_reads_back(cpu: CpuView, n: u16, val: u32)
    requires
        cpu.srr.len() == 2,
        cpu.ibat.len() == 4,
        cpu.dbat.len() == 4,
        cpu.gqr.len() == 8,
        cpu.hid.len() == 3,
    ensures
        cpu.with_spr(n, val) is Some <==> cpu.spr(n) is Some,
        cpu.with_spr(n, val) is Some ==> cpu.with_spr(n, val).unwrap().spr(n) == Some(val),
{
    broadcast use crate::gekko::halves_of_join;

}

fn get_bat(bat: u64, upper: bool) -> (half: u32)
    ensures
        half == bat_half(bat, upper),
{
    if upper {
        (bat >> 32) as u32
    } else {
        bat as u32
    }
}

fn put_bat(bat: u64, upper: bool, val: u32) -> (result: u64)
    ensures
        result == with_bat_half(bat, upper, val),
{
    if upper {
        ((val as u64) << 32) | (bat as u32 as u64)
    } else {
        (((bat >> 32) as u32 as u64) << 32) | (val as u64)
    }
}

/// Moves a special-purpose register to `rd`.
pub fn mfspr(ins: Ins, sys: &mut System) -> (done: Result<(), Fault>)
    ensures
        outcome_is(old(sys)@, old(sys)@.spr_read(ins), final(sys)@, done),
{
    proof {
        ins.lemma_register_fields();
    }
    let spr: u16 = ins.field_spr();
    let value: u32 = if spr == 1 {
        sys.cpu.xer
    } else if spr == 8 {
        sys.cpu.lr
    } else if spr == 9 {
        sys.cpu.ctr
    } else if spr == 26 || spr == 27 {
        sys.cpu.srr[(spr - 26) as usize]
    } else if 528 <= spr && spr <= 535 {
        get_bat(sys.cpu.ibat[((spr - 528) / 2) as usize], spr % 2 == 0)
    } else if 536 <= spr && spr <= 543 {
        get_bat(sys.cpu.dbat[((spr - 536) / 2) as usize], spr % 2 == 0)
    } else if 912 <= spr && spr <= 919 {
        sys.cpu.gqr[(spr - 912) as usize]
    } else if spr == 920 {
        sys.cpu.hid[2]
    } else if spr == 1008 || spr == 1009 {
        sys.cpu.hid[(spr - 1008) as usize]
    } else if spr == 1017 {
        sys.cpu.l2cr
    } else {
        return Err(Fault::UnknownSpr);
    };
    sys.set_gpr(ins.gpr_d(), value);
    Ok(())
}

/// Moves `rs` to a special-purpose register.
pub fn mtspr(ins: Ins, sys: &mut System) -> (done: Result<(), Fault>)
    ensures
        outcome_is(old(sys)@, old(sys)@.spr_written(ins), final(sys)@, done),
{
    proof {
        ins.lemma_register_fields();
    }
    let spr: u16 = ins.field_spr();
    let val: u32 = sys.gpr(ins.gpr_s());
    if spr == 1 {
        sys.cpu.xer = val;
    } else if spr == 8 {
        sys.cpu.lr = val;
    } else if spr == 9 {
        sys.cpu.ctr = val;
    } else if spr == 26 || spr == 27 {
        sys.cpu.srr[(spr - 26) as usize] = val;
    } else if 528 <= spr && spr <= 535 {
        let k: usize = ((spr - 528) / 2) as usize;
        sys.cpu.ibat[k] = put_bat(sys.cpu.ibat[k], spr % 2 == 0, val);
    } else if 536 <= spr && spr <= 543 {
        let k: usize = ((spr - 536) / 2) as usize;
        sys.cpu.dbat[k] = put_bat(sys.cpu.dbat[k], spr % 2 == 0, val);
    } else if 912 <= spr && spr <= 919 {
        sys.cpu.gqr[(spr - 912) as usize] = val;
    } else if spr == 920 {
        sys.cpu.hid[2] = val;
    } else if spr == 1008 || spr == 1009 {
        sys.cpu.hid[(spr - 1008) as usize] = val;
    } else if spr == 1017 {
        sys.cpu.l2cr = val;
    } else {
        return Err(Fault::UnknownSpr);
    }
    Ok(())
}

/// Moves the machine state to `rd`.
pub fn mfmsr(ins: Ins, sys: &mut System)
    ensures
        final(sys)@ == old(sys)@.with_gpr(ins.gpr_d(), old(sys)@.cpu.msr),
{
    proof {
        ins.lemma_register_fields();
    }
    let msr: u32 = sys.cpu.msr;
    sys.set_gpr(ins.gpr_d(), msr);
}

/// Moves `rs` to the machine state.
pub fn mtmsr(ins: Ins, sys: &mut System)
    ensures
        final(sys)@ == (SystemView {
            cpu: CpuView { msr: old(sys)@.gpr(ins.gpr_s()), ..old(sys)@.cpu },
            ..old(sys)@
        }),
{
    proof {
        ins.lemma_register_fields();
    }
    let value: u32 = sys.gpr(ins.gpr_s());
    sys.cpu.msr = value;
}

/// Accesses are already in order.
pub fn sync(_ins: Ins, sys: &mut System)
    ensures
        *final(sys) == *old(sys),
{
}

/// Instructions are already in order.
pub fn isync(_ins: Ins, sys: &mut System)
    ensures
        *final(sys) == *old(sys),
{
}

/// There is no data cache to invalidate.
pub fn dcbi(_ins: Ins, sys: &mut System)
    ensures
        *final(sys) == *old(sys),
{
}

/// There is no data cache to flush.
pub fn dcbf(_ins: Ins, sys: &mut System)
    ensures
        *final(sys) == *old(sys),
{
}

/// There is no instruction cache to invalidate.
pub fn icbi(_ins: Ins, sys: &mut System)
    ensures
        *final(sys) == *old(sys),
{
}

} // verus!
