//! Loads, stores and the time base.

use vstd::prelude::*;

use super::arithmetic::wrapped;
use super::system::{mapped, outcome_is, physical, CpuView, Fault, System, SystemView};
use crate::bytes::be32_at;
use crate::disasm::Ins;
use crate::gekko::{hi32, lo32};

verus! {

impl SystemView {
    /// Base register plus displacement.
    pub open spec fn displaced(self, ins: Ins) -> u32 {
        wrapped(self.gpr_or_zero(ins.gpr_a()) + ins.field_offset())
    }

    /// Base register plus index register.
    pub open spec fn indexed(self, ins: Ins) -> u32 {
        wrapped(self.gpr_or_zero(ins.gpr_a()) + self.gpr(ins.gpr_b()))
    }

    /// The base register set to `ea`, unless it is register 0.
    pub open spec fn based(self, ins: Ins, ea: u32) -> SystemView {
        if ins.gpr_a() != 0 {
            self.with_gpr(ins.gpr_a(), ea)
        } else {
            self
        }
    }

    /// The low byte of the source register stored at `ea`.
    pub open spec fn byte_stored(self, ins: Ins, ea: u32) -> SystemView {
        self.written8(ea, (self.gpr(ins.gpr_s()) & 0xFF) as u8)
    }

    /// The registers from the destination up loaded from consecutive words at
    /// `addr`.
    pub open spec fn loaded_multiple(self, first: u8, addr: u32) -> SystemView {
        SystemView {
            cpu: CpuView {
                gpr: Seq::new(
                    self.cpu.gpr.len(),
                    |r: int|
                        if r < first {
                            self.cpu.gpr[r]
                        } else {
                            be32_at(self.ram, physical(word_address(addr, r - first)))
                        },
                ),
                ..self.cpu
            },
            ..self
        }
    }

    /// The registers from `first` up stored in consecutive words at `addr`.
    pub open spec fn stored_multiple(self, first: int, addr: u32) -> SystemView
        decreases 32 - first,
    {
        if first >= 32 {
            self
        } else {
            self.written32(addr, self.cpu.gpr[first]).stored_multiple(
                first + 1,
                wrapped(addr + 4),
            )
        }
    }

    /// Bytes `from` and up of `value`, counted from the most significant, stored
    /// from `addr` up.
    pub open spec fn stored_double(self, addr: u32, value: u64, from: int) -> SystemView
        decreases 8 - from,
    {
        if from >= 8 {
            self
        } else {
            self.written8((addr + from) as u32, double_byte(value, from)).stored_double(
                addr,
                value,
                from + 1,
            )
        }
    }

    /// What a load of `value` leaves: the value in the destination register, or a
    /// fault where it could not be read.
    pub open spec fn loaded(self, ins: Ins, value: Option<u32>) -> Result<SystemView, Fault> {
        match value {
            Some(v) => Ok(self.with_gpr(ins.gpr_d(), v)),
            None => Err(Fault::InvalidRead),
        }
    }

    /// What a load of a byte with update leaves.
    pub open spec fn byte_loaded_update(self, ins: Ins) -> Result<SystemView, Fault> {
        let ea = self.displaced(ins);
        match self.loaded(ins, widened8(self.read8(ea))) {
            Ok(after) => Ok(after.based(ins, ea)),
            Err(fault) => Err(fault),
        }
    }

    /// What a load of a halfword with update leaves. The base register must be
    /// neither register 0 nor the destination.
    pub open spec fn half_loaded_update(self, ins: Ins) -> Result<SystemView, Fault> {
        let ea = wrapped(self.gpr(ins.gpr_a()) + ins.field_simm());
        if ins.gpr_a() == 0 || ins.gpr_a() == ins.gpr_d() {
            Err(Fault::InvalidForm)
        } else {
            match self.loaded(ins, widened16(self.read16(ea))) {
                Ok(after) => Ok(after.with_gpr(ins.gpr_a(), ea)),
                Err(fault) => Err(fault),
            }
        }
    }

    /// What a load of a word with update leaves. The base register is updated
    /// first, so that a destination that is also the base holds the word.
    pub open spec fn word_loaded_update(self, ins: Ins) -> Result<SystemView, Fault> {
        let ea = self.displaced(ins);
        self.based(ins, ea).loaded(ins, self.read32(ea))
    }

    /// What a store of a word with update leaves: nothing changes where there is
    /// no memory.
    pub open spec fn word_stored_update(self, ins: Ins) -> SystemView {
        let ea = self.displaced(ins);
        if mapped(self.ram, ea, 4) {
            self.written32(ea, self.gpr(ins.gpr_s())).based(ins, ea)
        } else {
            self
        }
    }

    /// What a load of several words leaves. Nothing is loaded where one of the
    /// words cannot be read.
    pub open spec fn words_loaded(self, ins: Ins) -> Result<SystemView, Fault> {
        let ea = self.displaced(ins);
        if words_mapped(self.ram, ea, 32 - ins.gpr_d()) {
            Ok(self.loaded_multiple(ins.gpr_d(), ea))
        } else {
            Err(Fault::InvalidRead)
        }
    }

    /// What a store of a double with update leaves. The eight bytes may not run
    /// past the end of the address space.
    pub open spec fn double_stored_update(self, ins: Ins) -> Result<SystemView, Fault> {
        let ea = self.displaced(ins);
        if ea + 7 <= u32::MAX {
            Ok(self.based(ins, ea).stored_double(ea, self.cpu.ps0[ins.fpr_s() as int], 0))
        } else {
            Err(Fault::InvalidWrite)
        }
    }

    /// What a store of a halfword leaves: each byte is stored where there is
    /// memory. The halfword may not run past the end of the address space.
    pub open spec fn half_stored(self, ins: Ins) -> Result<SystemView, Fault> {
        let ea = self.displaced(ins);
        let value = (self.gpr(ins.gpr_s()) & 0xFFFF) as u16;
        if ea < u32::MAX {
            Ok(
                self.written8(ea, (value >> 8) as u8).written8(
                    (ea + 1) as u32,
                    (value & 0xFF) as u8,
                ),
            )
        } else {
            Err(Fault::InvalidWrite)
        }
    }

    /// What a store of a word at an indexed address leaves.
    pub open spec fn word_stored_indexed(self, ins: Ins) -> Result<SystemView, Fault> {
        let ea = self.indexed(ins);
        if mapped(self.ram, ea, 4) {
            Ok(self.written32(ea, self.gpr(ins.gpr_s())))
        } else {
            Err(Fault::InvalidWrite)
        }
    }

    /// What reading half of the time base leaves: the time base is then brought
    /// up to the clock.
    pub open spec fn time_base_read(self, ins: Ins) -> Result<SystemView, Fault> {
        match self.time_base(ins.field_tbr()) {
            Some(value) => Ok(
                (SystemView { cpu: CpuView { tb: self.clock, ..self.cpu }, ..self }).with_gpr(
                    ins.gpr_d(),
                    value,
                ),
            ),
            None => Err(Fault::InvalidTimeBase),
        }
    }

    /// Half of the time base that `tbr` names.
    pub open spec fn time_base(self, tbr: u16) -> Option<u32> {
        if tbr == 268 {
            Some(lo32(self.cpu.tb))
        } else if tbr == 269 {
            Some(hi32(self.cpu.tb))
        } else {
            None
        }
    }
}

/// Byte `i` of `value`, counted from the most significant.
pub open spec fn double_byte(value: u64, i: int) -> u8 {
    (value >> ((56 - 8 * i) as u64)) as u8
}

/// Address of word `k` from `addr` up.
pub open spec fn word_address(addr: u32, k: int) -> u32 {
    wrapped(addr + 4 * k)
}

/// Whether `count` consecutive words from `addr` up are in memory.
pub open spec fn words_mapped(ram: Seq<u8>, addr: u32, count: int) -> bool {
    forall|k: int| 0 <= k < count ==> mapped(ram, #[trigger] word_address(addr, k), 4)
}

fn ea_d_signed(ins: Ins, sys: &System) -> (ea: u32)
    ensures
        ea == sys@.displaced(ins),
{
    proof {
        ins.lemma_register_fields();
    }
    sys.gpr_or_zero(ins.gpr_a()).wrapping_add_signed(ins.field_offset() as i32)
}

fn ea_indexed(ins: Ins, sys: &System) -> (ea: u32)
    ensures
        ea == sys@.indexed(ins),
{
    proof {
        ins.lemma_register_fields();
    }
    sys.gpr_or_zero(ins.gpr_a()).wrapping_add(sys.gpr(ins.gpr_b()))
}

fn update_base(ins: Ins, sys: &mut System, ea: u32)
    ensures
        final(sys)@ == old(sys)@.based(ins, ea),
{
    proof {
        ins.lemma_register_fields();
    }
    if ins.gpr_a() != 0 {
        sys.set_gpr(ins.gpr_a(), ea);
    }
}

/// A byte widened to a word.
pub open spec fn widened8(value: Option<u8>) -> Option<u32> {
    match value {
        Some(v) => Some(v as u32),
        None => None,
    }
}

/// A halfword widened to a word.
pub open spec fn widened16(value: Option<u16>) -> Option<u32> {
    match value {
        Some(v) => Some(v as u32),
        None => None,
    }
}

fn finish_load(ins: Ins, sys: &mut System, value: Option<u32>) -> (done: Result<(), Fault>)
    ensures
        outcome_is(old(sys)@, old(sys)@.loaded(ins, value), final(sys)@, done),
{
    proof {
        ins.lemma_register_fields();
    }
    match value {
        Some(v) => {
            sys.set_gpr(ins.gpr_d(), v);
            Ok(())
        },
        None => Err(Fault::InvalidRead),
    }
}

fn widen8(value: Option<u8>) -> (wide: Option<u32>)
    ensures
        wide == widened8(value),
{
    match value {
        Some(v) => Some(v as u32),
        None => None,
    }
}

fn widen16(value: Option<u16>) -> (wide: Option<u32>)
    ensures
        wide == widened16(value),
{
    match value {
        Some(v) => Some(v as u32),
        None => None,
    }
}

/// Loads a word.
pub fn lwz(ins: Ins, sys: &mut System) -> (done: Result<(), Fault>)
    ensures
        outcome_is(
            old(sys)@,
            old(sys)@.loaded(ins, old(sys)@.read32(old(sys)@.displaced(ins))),
            final(sys)@,
            done,
        ),
{
    let value: Option<u32> = sys.read_u32(ea_d_signed(ins, sys));
    finish_load(ins, sys, value)
}

/// Stores a word, where there is memory.
pub fn stw(ins: Ins, sys: &mut System)
    ensures
        final(sys)@ == old(sys)@.written32(
            old(sys)@.displaced(ins),
            old(sys)@.gpr(ins.gpr_s()),
        ),
{
    proof {
        ins.lemma_register_fields();
    }
    let ea: u32 = ea_d_signed(ins, sys);
    let val: u32 = sys.gpr(ins.gpr_s());
    sys.write_u32(ea, val);
}

/// Stores a word and updates the base register, where there is memory.
pub fn stwu(ins: Ins, sys: &mut System)
    ensures
        final(sys)@ == old(sys)@.word_stored_update(ins),
{
    proof {
        ins.lemma_register_fields();
    }
    let ea: u32 = ea_d_signed(ins, sys);
    let val: u32 = sys.gpr(ins.gpr_s());
    if sys.write_u32(ea, val) {
        update_base(ins, sys, ea);
    }
}

/// Loads a byte.
pub fn lbz(ins: Ins, sys: &mut System) -> (done: Result<(), Fault>)
    ensures
        outcome_is(
            old(sys)@,
            old(sys)@.loaded(ins, widened8(old(sys)@.read8(old(sys)@.displaced(ins)))),
            final(sys)@,
            done,
        ),
{
    let value: Option<u32> = widen8(sys.read_u8(ea_d_signed(ins, sys)));
    finish_load(ins, sys, value)
}

/// Loads a byte and updates the base register.
pub fn lbzu(ins: Ins, sys: &mut System) -> (done: Result<(), Fault>)
    ensures
        outcome_is(old(sys)@, old(sys)@.byte_loaded_update(ins), final(sys)@, done),
{
    let ea: u32 = ea_d_signed(ins, sys);
    let value: Option<u32> = widen8(sys.read_u8(ea));
    let done: Result<(), Fault> = finish_load(ins, sys, value);
    if done.is_ok() {
        update_base(ins, sys, ea);
    }
    done
}

/// Loads a halfword and updates the base register.
pub fn lhzu(ins: Ins, sys: &mut System) -> (done: Result<(), Fault>)
    ensures
        outcome_is(old(sys)@, old(sys)@.half_loaded_update(ins), final(sys)@, done),
{
    proof {
        ins.lemma_register_fields();
    }
    if ins.gpr_a() == 0 || ins.gpr_a() == ins.gpr_d() {
        return Err(Fault::InvalidForm);
    }
    let ea: u32 = sys.gpr(ins.gpr_a()).wrapping_add_signed(ins.field_simm() as i32);
    let value: Option<u32> = widen16(sys.read_u16(ea));
    let done: Result<(), Fault> = finish_load(ins, sys, value);
    if done.is_ok() {
        sys.set_gpr(ins.gpr_a(), ea);
    }
    done
}

fn store_byte(ins: Ins, sys: &mut System, ea: u32)
    ensures
        final(sys)@ == old(sys)@.byte_stored(ins, ea),
{
    proof {
        ins.lemma_register_fields();
    }
    let value: u8 = (sys.gpr(ins.gpr_s()) & 0xFF) as u8;
    sys.write_u8(ea, value);
}

/// Stores a byte, where there is memory.
pub fn stb(ins: Ins, sys: &mut System)
    ensures
        final(sys)@ == old(sys)@.byte_stored(ins, old(sys)@.displaced(ins)),
{
    let ea: u32 = ea_d_signed(ins, sys);
    store_byte(ins, sys, ea);
}

/// Stores a byte, where there is memory, and updates the base register.
pub fn stbu(ins: Ins, sys: &mut System)
    ensures
        final(sys)@ == old(sys)@.byte_stored(ins, old(sys)@.displaced(ins)).based(
            ins,
            old(sys)@.displaced(ins),
        ),
{
    let ea: u32 = ea_d_signed(ins, sys);
    store_byte(ins, sys, ea);
    update_base(ins, sys, ea);
}

/// Stores a byte at an indexed address, where there is memory.
pub fn stbx(ins: Ins, sys: &mut System)
    ensures
        final(sys)@ == old(sys)@.byte_stored(ins, old(sys)@.indexed(ins)),
{
    let ea: u32 = ea_indexed(ins, sys);
    store_byte(ins, sys, ea);
}

/// Loads a word and updates the base register.
pub fn lwzu(ins: Ins, sys: &mut System) -> (done: Result<(), Fault>)
    ensures
        outcome_is(old(sys)@, old(sys)@.word_loaded_update(ins), final(sys)@, done),
{
    let ea: u32 = ea_d_signed(ins, sys);
    let value: Option<u32> = sys.read_u32(ea);
    if value.is_some() {
        update_base(ins, sys, ea);
    }
    finish_load(ins, sys, value)
}

/// Stores registers in consecutive words, where there is memory.
pub fn stmw(ins: Ins, sys: &mut System)
    ensures
        final(sys)@ == old(sys)@.stored_multiple(
            ins.gpr_s() as int,
            old(sys)@.displaced(ins),
        ),
{
    proof {
        ins.lemma_register_fields();
    }
    let mut addr: u32 = ea_d_signed(ins, sys);
    let mut reg: u8 = ins.gpr_s();
    let ghost start = addr;
    while reg < 32
        invariant
            reg <= 32,
            sys@.stored_multiple(reg as int, addr) == old(sys)@.stored_multiple(
                ins.gpr_s() as int,
                start,
            ),
        decreases 32 - reg,
    {
        let value: u32 = sys.gpr(reg);
        sys.write_u32(addr, value);
        addr = addr.wrapping_add(4);
        reg = reg + 1;
    }
}

/// Loads a word from an indexed address.
pub fn lwzx(ins: Ins, sys: &mut System) -> (done: Result<(), Fault>)
    ensures
        outcome_is(
            old(sys)@,
            old(sys)@.loaded(ins, old(sys)@.read32(old(sys)@.indexed(ins))),
            final(sys)@,
            done,
        ),
{
    let value: Option<u32> = sys.read_u32(ea_indexed(ins, sys));
    finish_load(ins, sys, value)
}

fn all_words_mapped(sys: &System, addr: u32, count: u32) -> (mapped_all: bool)
    requires
        count <= 32,
    ensures
        mapped_all == words_mapped(sys@.ram, addr, count as int),
{
    let mut k: u32 = 0;
    while k < count
        invariant
            k <= count <= 32,
            words_mapped(sys@.ram, addr, k as int),
        decreases count - k,
    {
        let at: u32 = addr.wrapping_add(4 * k);
        assert(at == word_address(addr, k as int));
        if sys.read_u32(at).is_none() {
            return false;
        }
        k = k + 1;
    }
    true
}

/// Loads registers from consecutive words.
pub fn lmw(ins: Ins, sys: &mut System) -> (done: Result<(), Fault>)
    ensures
        outcome_is(old(sys)@, old(sys)@.words_loaded(ins), final(sys)@, done),
{
    proof {
        ins.lemma_register_fields();
    }
    let ea: u32 = ea_d_signed(ins, sys);
    let first: u8 = ins.gpr_d();
    if !all_words_mapped(sys, ea, 32 - first as u32) {
        return Err(Fault::InvalidRead);
    }
    let mut reg: u8 = first;
    let ghost want = old(sys)@.loaded_multiple(first, ea);
    while reg < 32
        invariant
            first <= reg <= 32,
            words_mapped(old(sys)@.ram, ea, 32 - first),
            want == old(sys)@.loaded_multiple(first, ea),
            sys@.cpu.gpr.len() == 32,
            want.cpu.gpr.len() == 32,
            sys@ == (SystemView {
                cpu: CpuView { gpr: sys@.cpu.gpr, ..old(sys)@.cpu },
                ..old(sys)@
            }),
            forall|r: int| 0 <= r < reg ==> sys@.cpu.gpr[r] == #[trigger] want.cpu.gpr[r],
        decreases 32 - reg,
    {
        let at: u32 = ea.wrapping_add(4 * (reg - first) as u32);
        assert(at == word_address(ea, reg - first));
        match sys.read_u32(at) {
            Some(value) => {
                sys.set_gpr(reg, value);
            },
            None => {
                assert(mapped(old(sys)@.ram, word_address(ea, reg - first), 4));
            },
        }
        reg = reg + 1;
    }
    Ok(())
}

/// Stores the first half of a floating-point register and updates the base
/// register.
pub fn stfdu(ins: Ins, sys: &mut System) -> (done: Result<(), Fault>)
    ensures
        outcome_is(old(sys)@, old(sys)@.double_stored_update(ins), final(sys)@, done),
{
    proof {
        ins.lemma_register_fields();
    }
    let ea: u32 = ea_d_signed(ins, sys);
    if ea > 0xFFFF_FFF8 {
        return Err(Fault::InvalidWrite);
    }
    let value: u64 = sys.cpu.ps0[ins.fpr_s() as usize];
    update_base(ins, sys, ea);
    let ghost start = sys@;
    let mut i: u32 = 0;
    while i < 8
        invariant
            i <= 8,
            ea + 7 <= u32::MAX,
            sys@.stored_double(ea, value, i as int) == start.stored_double(ea, value, 0),
        decreases 8 - i,
    {
        let byte: u8 = (value >> (56 - 8 * i as u64)) as u8;
        sys.write_u8(ea + i, byte);
        i = i + 1;
    }
    Ok(())
}

/// Loads a halfword.
pub fn lhz(ins: Ins, sys: &mut System) -> (done: Result<(), Fault>)
    ensures
        outcome_is(
            old(sys)@,
            old(sys)@.loaded(ins, widened16(old(sys)@.read16(old(sys)@.displaced(ins)))),
            final(sys)@,
            done,
        ),
{
    let value: Option<u32> = widen16(sys.read_u16(ea_d_signed(ins, sys)));
    finish_load(ins, sys, value)
}

/// Loads a halfword from an indexed address.
pub fn lhzx(ins: Ins, sys: &mut System) -> (done: Result<(), Fault>)
    ensures
        outcome_is(
            old(sys)@,
            old(sys)@.loaded(ins, widened16(old(sys)@.read16(old(sys)@.indexed(ins)))),
            final(sys)@,
            done,
        ),
{
    let value: Option<u32> = widen16(sys.read_u16(ea_indexed(ins, sys)));
    finish_load(ins, sys, value)
}

/// Stores a halfword.
pub fn sth(ins: Ins, sys: &mut System) -> (done: Result<(), Fault>)
    ensures
        outcome_is(old(sys)@, old(sys)@.half_stored(ins), final(sys)@, done),
{
    proof {
        ins.lemma_register_fields();
    }
    let ea: u32 = ea_d_signed(ins, sys);
    if ea == 0xFFFF_FFFF {
        return Err(Fault::InvalidWrite);
    }
    let value: u16 = (sys.gpr(ins.gpr_s()) & 0xFFFF) as u16;
    sys.write_u8(ea, (value >> 8) as u8);
    sys.write_u8(ea + 1, (value & 0xFF) as u8);
    Ok(())
}

/// Stores a word at an indexed address.
pub fn stwx(ins: Ins, sys: &mut System) -> (done: Result<(), Fault>)
    ensures
        outcome_is(old(sys)@, old(sys)@.word_stored_indexed(ins), final(sys)@, done),
{
    proof {
        ins.lemma_register_fields();
    }
    let ea: u32 = ea_indexed(ins, sys);
    let value: u32 = sys.gpr(ins.gpr_s());
    if sys.write_u32(ea, value) {
        Ok(())
    } else {
        Err(Fault::InvalidWrite)
    }
}

/// Reads half of the time base, then brings the time base up to the clock.
pub fn mftb(ins: Ins, sys: &mut System) -> (done: Result<(), Fault>)
    ensures
        outcome_is(old(sys)@, old(sys)@.time_base_read(ins), final(sys)@, done),
{
    proof {
        ins.lemma_register_fields();
    }
    let value: u32 = match ins.field_tbr() {
        268 => sys.cpu.tb as u32,
        269 => (sys.cpu.tb >> 32) as u32,
        _ => {
            return Err(Fault::InvalidTimeBase);
        },
    };
    sys.cpu.tb = sys.clock;
    sys.set_gpr(ins.gpr_d(), value);
    Ok(())
}

} // verus!
