//! The machine that the interpreter runs on: registers and main memory.

use vstd::prelude::*;

use crate::bytes::{be16_at, be32_at, be_byte, half_be, read_be32};
use crate::gekko::Cpu;

pub use crate::gekko::CpuView;

verus! {

/// Registers and main memory.
#[verifier::ext_equal]
pub struct SystemView {
    pub cpu: CpuView,
    pub ram: Seq<u8>,
    /// Time base that the clock has reached.
    pub clock: u64,
}

/// The machine that the interpreter runs on.
pub struct System {
    pub cpu: Cpu,
    /// Main memory, addressed by physical address.
    pub ram: Vec<u8>,
    /// Time base that the clock has reached.
    pub clock: u64,
}

impl View for System {
    type V = SystemView;

    open spec fn view(&self) -> SystemView {
        SystemView { cpu: self.cpu@, ram: self.ram@, clock: self.clock }
    }
}

/// Why an instruction cannot be executed.
#[derive(Clone, Copy, Debug, PartialEq, Eq, Structural)]
pub enum Fault {
    /// The instruction itself is not in memory.
    Fetch,
    /// The interpreter does not know the instruction.
    Unimplemented,
    /// The registers that the instruction names do not go together.
    InvalidForm,
    /// A load from an address without memory.
    InvalidRead,
    /// A store to an address without memory.
    InvalidWrite,
    /// A time-base register that does not exist.
    InvalidTimeBase,
    /// A special-purpose register that is not kept.
    UnknownSpr,
}

/// Whether an instruction that should have outcome `want` did: on success the
/// machine is as it says, and on a fault nothing has changed.
pub open spec fn outcome_is(
    before: SystemView,
    want: Result<SystemView, Fault>,
    after: SystemView,
    done: Result<(), Fault>,
) -> bool {
    match want {
        Ok(sys) => done is Ok && after =~= sys,
        Err(fault) => done == Err::<(), Fault>(fault) && after =~= before,
    }
}

/// Physical address of a virtual address: the segment bits are dropped.
pub open spec fn physical(addr: u32) -> int {
    (addr & 0x01FF_FFFF) as int
}

/// Whether `len` bytes at virtual address `addr` are in memory.
pub open spec fn mapped(ram: Seq<u8>, addr: u32, len: int) -> bool {
    physical(addr) + len <= ram.len()
}

/// Bit `position` of `word`.
pub open spec fn bit(word: u32, position: u32) -> bool {
    (word >> position) & 1 != 0
}

/// `word` with bit `position` set to `value`.
pub open spec fn with_bit(word: u32, position: u32, value: bool) -> u32 {
    if value {
        word | (1u32 << position)
    } else {
        word & !(1u32 << position)
    }
}

/// Position of the carry flag in XER.
pub const XER_CA: u32 = 29;

/// Position of the overflow flag in XER.
pub const XER_OV: u32 = 30;

/// Position of the summary overflow flag in XER.
pub const XER_SO: u32 = 31;

/// The four flags of a condition field.
pub open spec fn nibble(lt: bool, gt: bool, eq: bool, so: bool) -> u32 {
    ((if lt { 8u32 } else { 0 }) | (if gt { 4u32 } else { 0 }) | (if eq { 2u32 } else { 0 }) | (
    if so { 1u32 } else { 0 }))
}

/// `cr` with the condition field at bit `shift` replaced.
pub open spec fn with_field(cr: u32, shift: u32, flags: u32) -> u32 {
    (cr & !(0xFu32 << shift)) | (flags << shift)
}

impl SystemView {
    /// Register `r`.
    pub open spec fn gpr(self, r: u8) -> u32 {
        self.cpu.gpr[r as int]
    }

    /// Register `r`, where register 0 stands for zero.
    pub open spec fn gpr_or_zero(self, r: u8) -> u32 {
        if r == 0 {
            0
        } else {
            self.gpr(r)
        }
    }

    /// Register `r` set to `value`.
    pub open spec fn with_gpr(self, r: u8, value: u32) -> SystemView {
        SystemView { cpu: CpuView { gpr: self.cpu.gpr.update(r as int, value), ..self.cpu },
            ..self }
    }

    /// The exception register replaced.
    pub open spec fn with_xer(self, xer: u32) -> SystemView {
        SystemView { cpu: CpuView { xer, ..self.cpu }, ..self }
    }

    /// The condition register replaced.
    pub open spec fn with_cr(self, cr: u32) -> SystemView {
        SystemView { cpu: CpuView { cr, ..self.cpu }, ..self }
    }

    /// The program counter replaced.
    pub open spec fn with_pc(self, pc: u32) -> SystemView {
        SystemView { cpu: CpuView { pc, ..self.cpu }, ..self }
    }

    /// The sign of `value` recorded in condition field 0.
    pub open spec fn recorded(self, value: u32) -> SystemView {
        let s = value as i32;
        self.with_cr(
            with_field(self.cpu.cr, 28, nibble(s < 0, s > 0, s == 0, bit(self.cpu.xer, XER_SO))),
        )
    }

    /// The byte at `addr`.
    pub open spec fn read8(self, addr: u32) -> Option<u8> {
        if mapped(self.ram, addr, 1) {
            Some(self.ram[physical(addr)])
        } else {
            None
        }
    }

    /// The big-endian halfword at `addr`.
    pub open spec fn read16(self, addr: u32) -> Option<u16> {
        if mapped(self.ram, addr, 2) {
            Some(be16_at(self.ram, physical(addr)))
        } else {
            None
        }
    }

    /// The big-endian word at `addr`.
    pub open spec fn read32(self, addr: u32) -> Option<u32> {
        if mapped(self.ram, addr, 4) {
            Some(be32_at(self.ram, physical(addr)))
        } else {
            None
        }
    }

    /// A byte stored at `addr`, where there is memory.
    pub open spec fn written8(self, addr: u32, value: u8) -> SystemView {
        if mapped(self.ram, addr, 1) {
            SystemView { ram: self.ram.update(physical(addr), value), ..self }
        } else {
            self
        }
    }

    /// A big-endian word stored at `addr`, where there is memory for all of it.
    pub open spec fn written32(self, addr: u32, value: u32) -> SystemView {
        if mapped(self.ram, addr, 4) {
            let at = physical(addr);
            SystemView {
                ram: self.ram.update(at, be_byte(value, 0)).update(
                    at + 1,
                    be_byte(value, 1),
                ).update(at + 2, be_byte(value, 2)).update(at + 3, be_byte(value, 3)),
                ..self
            }
        } else {
            self
        }
    }
}

/// `word` with bit `position` set to `value`.
pub fn put_bit(word: u32, position: u32, value: bool) -> (result: u32)
    requires
        position < 32,
    ensures
        result == with_bit(word, position, value),
{
    if value {
        word | (1u32 << position)
    } else {
        word & !(1u32 << position)
    }
}

/// Bit `position` of `word`.
pub fn test_bit(word: u32, position: u32) -> (set: bool)
    requires
        position < 32,
    ensures
        set == bit(word, position),
{
    (word >> position) & 1 != 0
}

impl System {
    /// Register `r`.
    pub fn gpr(&self, r: u8) -> (value: u32)
        requires
            r < 32,
        ensures
            value == self@.gpr(r),
    {
        self.cpu.gpr[r as usize]
    }

    /// Register `r`, where register 0 stands for zero.
    pub fn gpr_or_zero(&self, r: u8) -> (value: u32)
        requires
            r < 32,
        ensures
            value == self@.gpr_or_zero(r),
    {
        if r == 0 {
            0
        } else {
            self.cpu.gpr[r as usize]
        }
    }

    /// Sets register `r`.
    pub fn set_gpr(&mut self, r: u8, value: u32)
        requires
            r < 32,
        ensures
            final(self)@ == old(self)@.with_gpr(r, value),
    {
        self.cpu.gpr[r as usize] = value;
    }

    /// Replaces the condition field at bit `shift`.
    pub fn set_field(&mut self, shift: u32, lt: bool, gt: bool, eq: bool, so: bool)
        requires
            shift < 32,
        ensures
            final(self)@ == old(self)@.with_cr(
                with_field(old(self)@.cpu.cr, shift, nibble(lt, gt, eq, so)),
            ),
    {
        let flags: u32 = (if lt { 8u32 } else { 0 }) | (if gt { 4u32 } else { 0 }) | (if eq {
            2u32
        } else {
            0
        }) | (if so { 1u32 } else { 0 });
        self.cpu.cr = (self.cpu.cr & !(0xFu32 << shift)) | (flags << shift);
    }

    /// The byte at `addr`, if there is memory.
    pub fn read_u8(&self, addr: u32) -> (value: Option<u8>)
        ensures
            value == self@.read8(addr),
    {
        let at: usize = (addr & 0x01FF_FFFF) as usize;
        if at < self.ram.len() {
            Some(self.ram[at])
        } else {
            None
        }
    }

    /// The big-endian halfword at `addr`, if there is memory.
    pub fn read_u16(&self, addr: u32) -> (value: Option<u16>)
        ensures
            value == self@.read16(addr),
    {
        proof {
            crate::bytes::physical_bits(addr);
        }
        let at: usize = (addr & 0x01FF_FFFF) as usize;
        if at + 2 <= self.ram.len() {
            Some(half_be(self.ram[at], self.ram[at + 1]))
        } else {
            None
        }
    }

    /// The big-endian word at `addr`, if there is memory.
    pub fn read_u32(&self, addr: u32) -> (value: Option<u32>)
        ensures
            value == self@.read32(addr),
    {
        proof {
            crate::bytes::physical_bits(addr);
        }
        let at: usize = (addr & 0x01FF_FFFF) as usize;
        if at + 4 <= self.ram.len() {
            Some(read_be32(self.ram.as_slice(), at))
        } else {
            None
        }
    }

    /// Stores a byte; gives whether there is memory.
    pub fn write_u8(&mut self, addr: u32, value: u8) -> (written: bool)
        ensures
            written == mapped(old(self)@.ram, addr, 1),
            final(self)@ == old(self)@.written8(addr, value),
    {
        let at: usize = (addr & 0x01FF_FFFF) as usize;
        if at < self.ram.len() {
            self.ram.set(at, value);
            true
        } else {
            false
        }
    }

    /// Stores a big-endian word; gives whether there is memory.
    pub fn write_u32(&mut self, addr: u32, value: u32) -> (written: bool)
        ensures
            written == mapped(old(self)@.ram, addr, 4),
            final(self)@ == old(self)@.written32(addr, value),
    {
        proof {
            crate::bytes::physical_bits(addr);
            crate::bytes::low_byte(value);
        }
        let at: usize = (addr & 0x01FF_FFFF) as usize;
        if at + 4 <= self.ram.len() {
            self.ram.set(at, (value >> 24) as u8);
            self.ram.set(at + 1, (value >> 16) as u8);
            self.ram.set(at + 2, (value >> 8) as u8);
            self.ram.set(at + 3, value as u8);
            true
        } else {
            false
        }
    }
}

/// A word that was stored where there is memory is read back.
pub proof fn read_after_write(sys: SystemView, addr: u32, value: u32)
    requires
        mapped(sys.ram, addr, 4),
    ensures
        sys.written32(addr, value).read32(addr) == Some(value),
{
    crate::bytes::word_from_bytes(value);
}

/// A store leaves every byte outside the word as it was.
pub proof fn write_is_local(sys: SystemView, addr: u32, value: u32, at: int)
    requires
        0 <= at < sys.ram.len(),
        at < physical(addr) || at >= physical(addr) + 4,
    ensures
        sys.written32(addr, value).ram[at] == sys.ram[at],
        sys.written32(addr, value).ram.len() == sys.ram.len(),
        sys.written32(addr, value).cpu == sys.cpu,
{
}

} // verus!
