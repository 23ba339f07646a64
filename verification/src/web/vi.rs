//! Video Interface (VI) registers.
//!
//! The register file is 128 bytes of big-endian words. TFBL (offset 0x1C) holds
//! the physical address of the external frame buffer divided by 32, VCOUNT
//! (offset 0x2C, upper half) the current line, and DI0 to DI3 (offsets 0x30 to
//! 0x3C) the display interrupts, whose bit 28 enables and bit 31 is the status.
//! The status is cleared by a word write of 1.

use vstd::prelude::*;

verus! {

/// Address of the first VI register.
pub const VI_BASE: u32 = 0xCC00_2000;

/// Bytes covered by the VI registers.
pub const VI_SIZE: u32 = 0x80;

/// Lines of a frame.
pub const VI_LINES: u32 = 525;

/// Status bit of a display interrupt.
pub const VI_DI_STATUS: u32 = 0x8000_0000;

/// The Video Interface registers.
pub struct ViState {
    /// The words, in the order of their offsets.
    pub regs: [u32; 32],
}

/// Whether the word with index `idx` is a display interrupt.
pub open spec fn is_display_interrupt(idx: int) -> bool {
    12 <= idx <= 15
}

/// Whether display interrupt `reg` is both raised and enabled.
pub open spec fn interrupt_active(reg: u32) -> bool {
    (reg >> 31) & 1 != 0 && (reg >> 28) & 1 != 0
}

/// The word at `offset`, rounded down; words outside the file read 0.
pub open spec fn vi_word(regs: Seq<u32>, offset: u32) -> u32 {
    if offset / 4 < regs.len() {
        regs[(offset / 4) as int]
    } else {
        0
    }
}

/// The halfword at `offset`, rounded down to even.
pub open spec fn vi_half(regs: Seq<u32>, offset: u32) -> u16 {
    if offset % 4 < 2 {
        (vi_word(regs, offset) >> 16) as u16
    } else {
        vi_word(regs, offset) as u16
    }
}

/// A word with its upper or lower half replaced.
pub open spec fn with_half(word: u32, upper: bool, val: u16) -> u32 {
    if upper {
        (word & 0x0000_FFFF) | ((val as u32) << 16)
    } else {
        (word & 0xFFFF_0000) | (val as u32)
    }
}

/// The file with the word at `offset` replaced.
pub open spec fn vi_stored(regs: Seq<u32>, offset: u32, val: u32) -> Seq<u32> {
    if offset / 4 < regs.len() {
        regs.update((offset / 4) as int, val)
    } else {
        regs
    }
}

/// The file after the word `val` was written at `offset`.
pub open spec fn vi_written32(regs: Seq<u32>, offset: u32, val: u32) -> Seq<u32> {
    if is_display_interrupt((offset / 4) as int) {
        let kept = vi_word(regs, offset) & VI_DI_STATUS & !val;
        vi_stored(regs, offset, kept | (val & !VI_DI_STATUS))
    } else {
        vi_stored(regs, offset, val)
    }
}

/// The file after the halfword `val` was written at `offset`.
pub open spec fn vi_written16(regs: Seq<u32>, offset: u32, val: u16) -> Seq<u32> {
    vi_stored(regs, offset, with_half(vi_word(regs, offset), offset % 4 < 2, val))
}

/// Whether some display interrupt is both raised and enabled.
pub open spec fn vi_interrupting(regs: Seq<u32>) -> bool {
    exists|i: int| is_display_interrupt(i) && #[trigger] interrupt_active(regs[i])
}

/// The line that VCOUNT shows.
pub open spec fn vi_line(regs: Seq<u32>) -> u16 {
    vi_half(regs, 0x2C)
}

/// The file after one more line.
pub open spec fn vi_advanced(regs: Seq<u32>) -> Seq<u32> {
    vi_written16(regs, 0x2C, ((vi_line(regs) + 1) % VI_LINES as int) as u16)
}

/// The file after every enabled display interrupt was raised.
pub open spec fn vi_fired(regs: Seq<u32>) -> Seq<u32> {
    Seq::new(
        regs.len(),
        |i: int|
            if is_display_interrupt(i) && (regs[i] >> 28) & 1 != 0 {
                regs[i] | VI_DI_STATUS
            } else {
                regs[i]
            },
    )
}

/// Physical address of the external frame buffer.
pub open spec fn vi_frame_buffer(regs: Seq<u32>) -> u32 {
    (vi_word(regs, 0x1C) & 0x00FF_FFFF) << 5
}

impl View for ViState {
    type V = Seq<u32>;

    open spec fn view(&self) -> Seq<u32> {
        self.regs@
    }
}

impl ViState {
    fn read32(&self, offset: u32) -> (val: u32)
        ensures
            val == vi_word(self@, offset),
    {
        let idx: usize = (offset / 4) as usize;
        if idx < 32 {
            self.regs[idx]
        } else {
            0
        }
    }

    fn write32(&mut self, offset: u32, val: u32)
        ensures
            final(self)@ == vi_stored(old(self)@, offset, val),
    {
        let idx: usize = (offset / 4) as usize;
        if idx < 32 {
            self.regs[idx] = val;
        }
    }

    /// Reads the word at `offset`.
    pub fn read_u32(&self, offset: u32) -> (val: u32)
        ensures
            val == vi_word(self@, offset),
    {
        self.read32(offset)
    }

    /// Reads the halfword at `offset`.
    pub fn read_u16(&self, offset: u32) -> (val: u16)
        ensures
            val == vi_half(self@, offset),
    {
        let word: u32 = self.read32(offset);
        if offset % 4 < 2 {
            (word >> 16) as u16
        } else {
            word as u16
        }
    }

    /// Writes the word at `offset`.
    pub fn write_u32(&mut self, offset: u32, val: u32)
        ensures
            final(self)@ == vi_written32(old(self)@, offset, val),
    {
        let idx: u32 = offset / 4;
        if 12 <= idx && idx <= 15 {
            let kept: u32 = self.read32(offset) & VI_DI_STATUS & !val;
            self.write32(offset, kept | (val & !VI_DI_STATUS));
        } else {
            self.write32(offset, val);
        }
    }

    /// Whether some display interrupt is both raised and enabled.
    pub fn any_display_interrupt_active(&self) -> (active: bool)
        ensures
            active == vi_interrupting(self@),
    {
        let mut i: usize = 12;
        while i <= 15
            invariant
                12 <= i <= 16,
                forall|k: int| 12 <= k < i ==> !interrupt_active(#[trigger] self@[k]),
            decreases 16 - i,
        {
            let reg: u32 = self.regs[i];
            if (reg >> 31) & 1 != 0 && (reg >> 28) & 1 != 0 {
                assert(interrupt_active(self@[i as int]));
                return true;
            }
            i = i + 1;
        }
        false
    }

    /// Writes the halfword at `offset`.
    pub fn write_u16(&mut self, offset: u32, val: u16)
        ensures
            final(self)@ == vi_written16(old(self)@, offset, val),
    {
        let current: u32 = self.read32(offset);
        let merged: u32 = if offset % 4 < 2 {
            (current & 0x0000_FFFF) | ((val as u32) << 16)
        } else {
            (current & 0xFFFF_0000) | (val as u32)
        };
        self.write32(offset, merged);
    }

    /// Physical address of the external frame buffer; 0 if none was set.
    pub fn xfb_addr(&self) -> (addr: u32)
        ensures
            addr == vi_frame_buffer(self@),
    {
        (self.read32(0x1C) & 0x00FF_FFFF) << 5
    }

    /// The current line.
    pub fn vcount(&self) -> (line: u16)
        ensures
            line == vi_line(self@),
    {
        self.read_u16(0x2C)
    }

    /// Moves on by one line, round the frame.
    pub fn advance_vcount(&mut self)
        ensures
            final(self)@ == vi_advanced(old(self)@),
    {
        let current: u32 = self.read_u16(0x2C) as u32;
        let next: u16 = ((current + 1) % VI_LINES) as u16;
        self.write_u16(0x2C, next);
    }

    /// Raises every display interrupt that is enabled.
    pub fn fire_display_interrupts(&mut self)
        ensures
            final(self)@ == vi_fired(old(self)@),
    {
        let mut i: usize = 12;
        while i <= 15
            invariant
                12 <= i <= 16,
                self@.len() == 32,
                old(self)@.len() == 32,
                forall|k: int| 0 <= k < 32 && !(12 <= k < i) ==> #[trigger] self@[k]
                    == old(self)@[k],
                forall|k: int| 12 <= k < i ==> #[trigger] self@[k] == vi_fired(old(self)@)[k],
            decreases 16 - i,
        {
            let reg: u32 = self.regs[i];
            if (reg >> 28) & 1 != 0 {
                self.regs[i] = reg | VI_DI_STATUS;
            }
            i = i + 1;
        }
    }
}

impl Default for ViState {
    /// All registers zero.
    fn default() -> (vi: Self)
        ensures
            vi@ == Seq::new(32, |i: int| 0u32),
    {
        ViState { regs: [0u32;32] }
    }
}

/// Once every enabled display interrupt was raised, one is active exactly if one
/// is enabled; writing the status bit of each back clears it.
pub proof fn vi_retrace(regs: Seq<u32>, i: int, val: u32)
    requires
        regs.len() == 32,
        is_display_interrupt(i),
    ensures
        (regs[i] >> 28) & 1 != 0 ==> interrupt_active(vi_fired(regs)[i]),
        (regs[i] >> 28) & 1 == 0 ==> vi_fired(regs)[i] == regs[i],
        val & VI_DI_STATUS != 0 ==> !interrupt_active(
            vi_written32(regs, (4 * i) as u32, val)[i],
        ),
{
    let r = regs[i];
    assert(((r >> 28) & 1 != 0 ==> ((r | 0x8000_0000u32) >> 31) & 1 != 0 && ((r | 0x8000_0000u32)
        >> 28) & 1 != 0) && (val & 0x8000_0000u32 != 0 ==> (((r & 0x8000_0000u32 & !val) | (val
        & !0x8000_0000u32)) >> 31) & 1 == 0)) by (bit_vector);
}

/// The line counter counts from 0 to the last line of the frame and starts over.
pub proof fn vi_counts_lines(regs: Seq<u32>)
    requires
        regs.len() == 32,
    ensures
        vi_line(vi_advanced(regs)) == (vi_line(regs) + 1) % VI_LINES as int,
{
    let w = vi_word(regs, 0x2C);
    let n = ((vi_line(regs) + 1) % VI_LINES as int) as u16;
    assert((((w & 0x0000_FFFF) | ((n as u32) << 16)) >> 16) as u16 == n) by (bit_vector);
}

} // verus!
