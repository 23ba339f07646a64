//! Audio samples for the host.

use vstd::prelude::*;

use super::cache::{phys_addr, physical_address};
use super::dsp::{DspState, AUDIO_BLOCK};
use super::emulator::{EmuView, WasmEmulator};
use crate::bytes::{be16_at, half_be};

verus! {

/// The big-endian sample at physical address `at`; silence outside main memory.
pub open spec fn sample_at(ram: Seq<u8>, at: int) -> i16 {
    if at + 1 < ram.len() {
        be16_at(ram, at) as i16
    } else {
        0
    }
}

impl EmuView {
    /// Whether `n` samples would be heard: audio is playing, and there is a buffer.
    pub open spec fn audible(self, n: u32) -> bool {
        &&& self.dsp.audio_dma_control & 0x8000 != 0
        &&& n != 0
        &&& self.dsp.audio_len() != 0
    }

    /// Value `k` of the samples from the current position on, left and right in turn,
    /// round the buffer.
    pub open spec fn audio_value(self, k: int) -> i16 {
        let pos = (self.dsp.audio_dma_pos + 4 * (k / 2)) % self.dsp.audio_len();
        sample_at(self.ram, physical_address(self.dsp.audio_dma_base) + pos + 2 * (k % 2))
    }

    /// The emulator after `n` samples were played.
    pub open spec fn played(self, n: u32) -> EmuView {
        EmuView {
            dsp: DspState {
                audio_dma_pos: ((self.dsp.audio_dma_pos + 4 * n) % self.dsp.audio_len()) as u32,
                ..self.dsp
            },
            ..self
        }
    }
}

impl WasmEmulator {
    fn sample(&self, at: usize) -> (value: i16)
        requires
            at <= 0x0400_0000,
        ensures
            value == sample_at(self@.ram, at as int),
    {
        if at + 1 < self.ram.len() {
            half_be(self.ram[at], self.ram[at + 1]) as i16
        } else {
            0
        }
    }

    /// Plays `n_samples` stereo samples: gives them, left and right in turn. There
    /// are none while nothing is playing.
    pub fn take_audio_samples(&mut self, n_samples: u32) -> (samples: Vec<i16>)
        requires
            old(self)@.wf(),
        ensures
            final(self)@.wf(),
            old(self)@.audible(n_samples) ==> final(self)@ == old(self)@.played(n_samples)
                && samples@ == Seq::new(
                (2 * n_samples) as nat,
                |k: int| old(self)@.audio_value(k),
            ),
            !old(self)@.audible(n_samples) ==> final(self)@ == old(self)@ && samples@.len() == 0,
    {
        let mut samples: Vec<i16> = Vec::new();
        let blocks: u32 = (self.dsp.audio_dma_control & 0x7FFF) as u32;
        proof {
            let c = self.dsp.audio_dma_control;
            assert(c & 0x7FFF <= 0x7FFF) by (bit_vector);
        }
        let len: u32 = blocks * AUDIO_BLOCK;
        if self.dsp.audio_dma_control & 0x8000 == 0 || n_samples == 0 || len == 0 {
            return samples;
        }
        let base: usize = phys_addr(self.dsp.audio_dma_base);
        let mut pos: u32 = self.dsp.audio_dma_pos % len;
        let mut i: u32 = 0;
        let ghost start = self.dsp.audio_dma_pos as int;
        proof {
            assert(samples@ =~= Seq::new(0, |k: int| old(self)@.audio_value(k)));
        }
        while i < n_samples
            invariant
                i <= n_samples,
                0 < len <= 0x7FFF * 32,
                len == old(self)@.dsp.audio_len(),
                base == physical_address(old(self)@.dsp.audio_dma_base),
                base <= 0x01FF_FFFF,
                start == old(self)@.dsp.audio_dma_pos,
                pos == (start + 4 * i) % len as int,
                self@ == old(self)@,
                samples@ == Seq::new((2 * i) as nat, |k: int| old(self)@.audio_value(k)),
            decreases n_samples - i,
        {
            let at: usize = base + pos as usize;
            let left: i16 = self.sample(at);
            let right: i16 = self.sample(at + 2);
            samples.push(left);
            samples.push(right);
            proof {
                let k = 2 * i as int;
                assert(k / 2 == i && k % 2 == 0 && (k + 1) / 2 == i && (k + 1) % 2 == 1);
                assert(left == old(self)@.audio_value(k));
                assert(right == old(self)@.audio_value(k + 1));
                assert(samples@ =~= Seq::new((k + 2) as nat, |j: int| old(self)@.audio_value(j)));
                lemma_next_position(start + 4 * i, len as int);
            }
            pos = (pos + 4) % len;
            i = i + 1;
        }
        self.dsp.audio_dma_pos = pos;
        samples
    }
}

/// Moving on in the buffer and going round it commute.
proof fn lemma_next_position(at: int, len: int)
    requires
        len > 0,
        at >= 0,
    ensures
        (at % len + 4) % len == (at + 4) % len,
{
    vstd::arithmetic::div_mod::lemma_add_mod_noop(at, 4, len);
    vstd::arithmetic::div_mod::lemma_add_mod_noop(at % len, 4, len);
    vstd::arithmetic::div_mod::lemma_mod_twice(at, len);
}

} // verus!
