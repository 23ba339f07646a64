//! Audio Interface (AI) registers.
//!
//! | Offset | Name   | Description                                     |
//! |--------|--------|-------------------------------------------------|
//! | 0x00   | AICR   | Control                                         |
//! | 0x04   | AIVR   | Volume                                          |
//! | 0x08   | AISCNT | Sample counter, read-only                       |
//! | 0x0C   | AIIT   | Sample count at which the interrupt is raised   |
//!
//! Bits of AICR:
//!
//! | Bit | Field    | Description                                    |
//! |-----|----------|------------------------------------------------|
//! | 0   | PSTAT    | DMA is playing                                 |
//! | 1   | AISFR    | Sample rate: 0 = 48 kHz, 1 = 32 kHz            |
//! | 2   | AIINTMSK | Interrupt enable                               |
//! | 3   | AIINT    | Interrupt pending, write 1 clears              |
//! | 4   | AIINTVLD | AIIT is valid                                  |
//! | 5   | AIOCNT   | Resets the sample counter, clears itself       |
//! | 6   | AFR      | DSP sample rate: 0 = 48 kHz, 1 = 32 kHz        |

use vstd::prelude::*;

verus! {

/// Address of the first AI register.
pub const AI_BASE: u32 = 0xCC00_6C00;

/// Bytes covered by the AI registers.
pub const AI_SIZE: u32 = 0x10;

/// AIINT.
pub const AI_INT: u32 = 0x08;

/// AIOCNT.
pub const AI_RESET_COUNT: u32 = 0x20;

/// PSTAT, AIINTMSK and AIINTVLD: all must be set for the interrupt.
pub const AI_ARMED: u32 = 0x15;

/// The Audio Interface registers.
#[derive(Clone, Copy, Debug, PartialEq, Eq, Structural)]
pub struct AiState {
    /// AICR.
    pub control: u32,
    /// AIVR.
    pub volume: u32,
    /// AISCNT.
    pub sample_count: u32,
    /// AIIT.
    pub interrupt_sample: u32,
}

impl AiState {
    /// Value of the register at `offset`.
    pub open spec fn reg(self, offset: u32) -> u32 {
        match offset {
            0x00 => self.control,
            0x04 => self.volume,
            0x08 => self.sample_count,
            0x0C => self.interrupt_sample,
            _ => 0,
        }
    }

    /// The registers after `val` was written at `offset`. Of AICR the interrupt
    /// flag is cleared by writing 1, the reset bit clears the counter and is not
    /// kept, and the other fields are stored. The counter ignores writes.
    pub open spec fn written(self, offset: u32, val: u32) -> AiState {
        match offset {
            0x00 => AiState {
                control: (self.control & AI_INT & !val) | (val & !(AI_INT | AI_RESET_COUNT)),
                sample_count: if val & AI_RESET_COUNT != 0 {
                    0
                } else {
                    self.sample_count
                },
                ..self
            },
            0x04 => AiState { volume: val, ..self },
            0x0C => AiState { interrupt_sample: val, ..self },
            _ => self,
        }
    }

    /// The sample counter after `samples` more samples.
    pub open spec fn counted(self, samples: u32) -> u32 {
        ((self.sample_count + samples) % 0x1_0000_0000) as u32
    }

    /// Whether `samples` more samples raise the interrupt: it is armed, and the
    /// counter passes from below the threshold to it or beyond.
    pub open spec fn fires(self, samples: u32) -> bool {
        &&& self.control & AI_ARMED == AI_ARMED
        &&& self.sample_count < self.interrupt_sample <= self.counted(samples)
    }

    /// The registers after `samples` more samples.
    pub open spec fn ticked(self, samples: u32) -> AiState {
        AiState {
            sample_count: self.counted(samples),
            control: if self.fires(samples) {
                self.control | AI_INT
            } else {
                self.control
            },
            ..self
        }
    }

    /// Reads the register at `offset`.
    pub fn read_u32(&self, offset: u32) -> (val: u32)
        ensures
            val == self.reg(offset),
    {
        match offset {
            0x00 => self.control,
            0x04 => self.volume,
            0x08 => self.sample_count,
            0x0C => self.interrupt_sample,
            _ => 0,
        }
    }

    /// Writes the register at `offset`.
    pub fn write_u32(&mut self, offset: u32, val: u32)
        ensures
            *final(self) == old(self).written(offset, val),
    {
        match offset {
            0x00 => {
                if val & AI_RESET_COUNT != 0 {
                    self.sample_count = 0;
                }
                self.control = (self.control & AI_INT & !val) | (val & !(AI_INT | AI_RESET_COUNT));
            },
            0x04 => self.volume = val,
            0x0C => self.interrupt_sample = val,
            _ => {},
        }
    }

    /// Advances the sample counter; gives whether the interrupt is raised.
    pub fn tick_sample_counter(&mut self, samples: u32) -> (fired: bool)
        ensures
            *final(self) == old(self).ticked(samples),
            fired == old(self).fires(samples),
    {
        let was_below: bool = self.sample_count < self.interrupt_sample;
        self.sample_count = self.sample_count.wrapping_add(samples);
        let crossed: bool = was_below && self.sample_count >= self.interrupt_sample;
        if crossed && self.control & AI_ARMED == AI_ARMED {
            self.control = self.control | AI_INT;
            return true;
        }
        false
    }

    /// Whether DMA is playing.
    pub fn is_playing(&self) -> (playing: bool)
        ensures
            playing == (self.control & 1 != 0),
    {
        self.control & 1 != 0
    }
}

impl Default for AiState {
    /// All registers zero.
    fn default() -> (ai: Self)
        ensures
            ai == (AiState { control: 0, volume: 0, sample_count: 0, interrupt_sample: 0 }),
    {
        AiState { control: 0, volume: 0, sample_count: 0, interrupt_sample: 0 }
    }
}

/// Writing AICR starts and stops DMA, clears a pending interrupt only where 1 is
/// written to it, and never raises one.
pub proof fn ai_control_write(ai: AiState, val: u32)
    ensures
        ai.written(0, val).control & 1 == val & 1,
        val & AI_INT != 0 ==> ai.written(0, val).control & AI_INT == 0,
        val & AI_INT == 0 ==> ai.written(0, val).control & AI_INT == ai.control & AI_INT,
        ai.written(0, val).control & AI_RESET_COUNT == 0,
{
    let c = ai.control;
    assert(((c & 0x8u32 & !val) | (val & !(0x8u32 | 0x20u32))) & 1 == val & 1 && (val & 0x8u32 != 0
        ==> ((c & 0x8u32 & !val) | (val & !(0x8u32 | 0x20u32))) & 0x8u32 == 0) && (val & 0x8u32
        == 0 ==> ((c & 0x8u32 & !val) | (val & !(0x8u32 | 0x20u32))) & 0x8u32 == c & 0x8u32) && ((
    c & 0x8u32 & !val) | (val & !(0x8u32 | 0x20u32))) & 0x20u32 == 0) by (bit_vector);
}

} // verus!
