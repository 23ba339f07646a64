//! Saved states.
//!
//! A state is a sequence of little-endian words and bytes:
//!
//! | Length   | Contents                                                     |
//! |----------|--------------------------------------------------------------|
//! | 4        | `LAZU`                                                       |
//! | 4        | Version, at least 2                                          |
//! | 4        | Length of the register image                                 |
//! | 816      | Register image                                               |
//! | 4        | Length of main memory                                        |
//! | variable | Main memory                                                  |
//! | 16       | PI status and mask, buttons, pending decrementer             |
//! | 128      | VI registers                                                 |
//! | 48       | SI output buffers, input buffers (high), input buffers (low) |
//! | 16       | SI poll, communication control, status, clock lock           |
//! | 16       | AI control, volume, sample count, interrupt sample           |

use js_sys::WebAssembly::Module;
use vstd::prelude::*;

use super::ai::AiState;
use super::emulator::{overlaid, EmuView, PiRegs, WasmEmulator};
use super::si::SiView;
use crate::bytes::{flatten, le32_at, le_byte, le_bytes, push_le32, read_le32, word_from_bytes};
use crate::gekko::{Cpu, CPU_SIZE};

verus! {

/// Version of the states that are written.
pub const STATE_VERSION: u32 = 2;

/// Number of register words in a state.
pub const STATE_WORDS: usize = 56;

/// Position of the register image in a state.
pub const STATE_CPU_AT: usize = 12;

/// Position of main memory in a state.
pub const STATE_RAM_AT: usize = 832;

/// The first four bytes of a state.
pub open spec fn state_magic() -> Seq<u8> {
    seq![0x4Cu8, 0x41, 0x5A, 0x55]
}

impl EmuView {
    /// Whether the registers that a state holds have their number.
    pub open spec fn state_shaped(self) -> bool {
        &&& self.vi.len() == 32
        &&& self.si.out_buf.len() == 4
        &&& self.si.in_buf_hi.len() == 4
        &&& self.si.in_buf_lo.len() == 4
    }

    /// Register word `k` of a state.
    pub open spec fn state_word(self, k: int) -> u32 {
        if k == 0 {
            self.pi.intsr
        } else if k == 1 {
            self.pi.intmsk
        } else if k == 2 {
            self.pad_buttons
        } else if k == 3 {
            if self.decrementer_pending {
                1
            } else {
                0
            }
        } else if k < 36 {
            self.vi[k - 4]
        } else if k < 40 {
            self.si.out_buf[k - 36]
        } else if k < 44 {
            self.si.in_buf_hi[k - 40]
        } else if k < 48 {
            self.si.in_buf_lo[k - 44]
        } else if k == 48 {
            self.si.poll
        } else if k == 49 {
            self.si.comm_ctrl
        } else if k == 50 {
            self.si.status
        } else if k == 51 {
            self.si.exi_clock_lock
        } else if k == 52 {
            self.ai.control
        } else if k == 53 {
            self.ai.volume
        } else if k == 54 {
            self.ai.sample_count
        } else {
            self.ai.interrupt_sample
        }
    }

    /// The register words of a state.
    pub open spec fn state_words(self) -> Seq<u32> {
        Seq::new(STATE_WORDS as nat, |k: int| self.state_word(k))
    }

    /// The emulator with register word `k` set from a state.
    pub open spec fn with_state_word(self, k: int, val: u32) -> EmuView {
        if k == 0 {
            EmuView { pi: PiRegs { intsr: val, ..self.pi }, ..self }
        } else if k == 1 {
            EmuView { pi: PiRegs { intmsk: val, ..self.pi }, ..self }
        } else if k == 2 {
            EmuView { pad_buttons: val, ..self }
        } else if k == 3 {
            EmuView { decrementer_pending: val != 0, ..self }
        } else if k < 36 {
            EmuView { vi: self.vi.update(k - 4, val), ..self }
        } else {
            EmuView { si: si_restored(self.si, k, val), ai: ai_restored(self.ai, k, val), ..self }
        }
    }

    /// The emulator with the first `n` register words set from `words`.
    pub open spec fn restored(self, words: Seq<u32>, n: nat) -> EmuView
        decreases n,
    {
        if n == 0 {
            self
        } else {
            self.restored(words, (n - 1) as nat).with_state_word(n - 1, words[n - 1])
        }
    }

    /// The saved state of an emulator with register image `image`.
    pub open spec fn state_image(self, image: Seq<u8>) -> Seq<u8> {
        state_magic() + le_bytes(STATE_VERSION) + le_bytes(CPU_SIZE as u32) + image + le_bytes(
            self.ram.len() as u32,
        ) + self.ram + flatten(self.state_words())
    }

    /// The emulator after as much of state `data` as is there was taken over, but for
    /// the processor registers. Main memory is taken over as far as it fits, the
    /// register words one by one; once all are there, compiled blocks are dropped.
    pub open spec fn loaded(self, data: Seq<u8>) -> EmuView {
        if !ram_complete(data) {
            self
        } else {
            let ram = overlaid(
                self.ram,
                data.subrange(STATE_RAM_AT as int, STATE_RAM_AT + stored_ram_len(data)),
            );
            let after = (EmuView { ram, ..self }).restored(stored_words(data), words_there(data));
            if words_there(data) == STATE_WORDS {
                EmuView { cache: Map::<u32, Module>::empty(), ..after }
            } else {
                after
            }
        }
    }
}

/// SI registers with word `k` of a state set.
pub open spec fn si_restored(si: SiView, k: int, val: u32) -> SiView {
    if 36 <= k < 40 {
        SiView { out_buf: si.out_buf.update(k - 36, val), ..si }
    } else if 40 <= k < 44 {
        SiView { in_buf_hi: si.in_buf_hi.update(k - 40, val), ..si }
    } else if 44 <= k < 48 {
        SiView { in_buf_lo: si.in_buf_lo.update(k - 44, val), ..si }
    } else if k == 48 {
        SiView { poll: val, ..si }
    } else if k == 49 {
        SiView { comm_ctrl: val, ..si }
    } else if k == 50 {
        SiView { status: val, ..si }
    } else if k == 51 {
        SiView { exi_clock_lock: val, ..si }
    } else {
        si
    }
}

/// AI registers with word `k` of a state set.
pub open spec fn ai_restored(ai: AiState, k: int, val: u32) -> AiState {
    if k == 52 {
        AiState { control: val, ..ai }
    } else if k == 53 {
        AiState { volume: val, ..ai }
    } else if k == 54 {
        AiState { sample_count: val, ..ai }
    } else if k == 55 {
        AiState { interrupt_sample: val, ..ai }
    } else {
        ai
    }
}

/// Whether `data` begins like a state and has a whole register image.
pub open spec fn cpu_complete(data: Seq<u8>) -> bool {
    &&& data.len() >= STATE_CPU_AT + CPU_SIZE
    &&& data.take(4) == state_magic()
    &&& le32_at(data, 4) >= STATE_VERSION
    &&& le32_at(data, 8) == CPU_SIZE
}

/// Length of main memory that state `data` names.
pub open spec fn stored_ram_len(data: Seq<u8>) -> int {
    le32_at(data, STATE_RAM_AT - 4) as int
}

/// Whether state `data` reaches to the end of main memory.
pub open spec fn ram_complete(data: Seq<u8>) -> bool {
    data.len() >= STATE_RAM_AT && data.len() >= STATE_RAM_AT + stored_ram_len(data)
}

/// Number of whole register words that state `data` has.
pub open spec fn words_there(data: Seq<u8>) -> nat {
    let n = (data.len() - STATE_RAM_AT - stored_ram_len(data)) / 4;
    if n < STATE_WORDS {
        n as nat
    } else {
        STATE_WORDS as nat
    }
}

/// The register words that state `data` has.
pub open spec fn stored_words(data: Seq<u8>) -> Seq<u32> {
    Seq::new(
        words_there(data),
        |k: int| le32_at(data, STATE_RAM_AT + stored_ram_len(data) + 4 * k),
    )
}

/// Whether `data` is a whole state.
pub open spec fn state_complete(data: Seq<u8>) -> bool {
    cpu_complete(data) && ram_complete(data) && words_there(data) == STATE_WORDS
}

/// Appends `bytes`.
fn append_slice(out: &mut Vec<u8>, bytes: &[u8])
    ensures
        final(out)@ == old(out)@ + bytes@,
{
    let mut i: usize = 0;
    while i < bytes.len()
        invariant
            i <= bytes@.len(),
            out@ == old(out)@ + bytes@.take(i as int),
        decreases bytes@.len() - i,
    {
        out.push(bytes[i]);
        i = i + 1;
        assert(out@ =~= old(out)@ + bytes@.take(i as int));
    }
    assert(bytes@.take(i as int) =~= bytes@);
}

/// The bytes of one more word.
proof fn lemma_flatten_push(words: Seq<u32>, word: u32)
    ensures
        flatten(words.push(word)) == flatten(words) + le_bytes(word),
{
    let longer = words.push(word);
    assert forall|k: int| 0 <= k < 4 * longer.len() implies flatten(longer)[k] == (flatten(words)
        + le_bytes(word))[k] by {
        if k < 4 * words.len() {
            assert(longer[k / 4] == words[k / 4]);
        } else {
            assert(k / 4 == words.len());
            assert(k % 4 == k - 4 * words.len());
        }
    }
    assert(flatten(longer) =~= flatten(words) + le_bytes(word));
}

impl WasmEmulator {
    fn get_state_word(&self, k: usize) -> (word: u32)
        requires
            k < STATE_WORDS,
        ensures
            word == self@.state_word(k as int),
    {
        if k < 4 {
            match k {
                0 => self.pi.intsr,
                1 => self.pi.intmsk,
                2 => self.pad_buttons,
                _ => if self.decrementer_pending {
                    1
                } else {
                    0
                },
            }
        } else if k < 36 {
            self.vi.regs[k - 4]
        } else if k < 40 {
            self.si.out_buf[k - 36]
        } else if k < 44 {
            self.si.in_buf_hi[k - 40]
        } else if k < 48 {
            self.si.in_buf_lo[k - 44]
        } else {
            match k {
                48 => self.si.poll,
                49 => self.si.comm_ctrl,
                50 => self.si.status,
                51 => self.si.exi_clock_lock,
                52 => self.ai.control,
                53 => self.ai.volume,
                54 => self.ai.sample_count,
                _ => self.ai.interrupt_sample,
            }
        }
    }

    fn set_state_word(&mut self, k: usize, val: u32)
        requires
            k < STATE_WORDS,
        ensures
            final(self)@ == old(self)@.with_state_word(k as int, val),
            final(self).cpu == old(self).cpu,
    {
        if k < 4 {
            match k {
                0 => self.pi.intsr = val,
                1 => self.pi.intmsk = val,
                2 => self.pad_buttons = val,
                _ => self.decrementer_pending = val != 0,
            }
        } else if k < 36 {
            self.vi.regs[k - 4] = val;
        } else if k < 40 {
            self.si.out_buf[k - 36] = val;
        } else if k < 44 {
            self.si.in_buf_hi[k - 40] = val;
        } else if k < 48 {
            self.si.in_buf_lo[k - 44] = val;
        } else {
            match k {
                48 => self.si.poll = val,
                49 => self.si.comm_ctrl = val,
                50 => self.si.status = val,
                51 => self.si.exi_clock_lock = val,
                52 => self.ai.control = val,
                53 => self.ai.volume = val,
                54 => self.ai.sample_count = val,
                _ => self.ai.interrupt_sample = val,
            }
        }
    }

    /// Saves the state.
    pub fn save_state(&self) -> (state: Vec<u8>)
        requires
            self@.wf(),
        ensures
            state@ == self@.state_image(self.cpu.image()),
    {
        let mut buf: Vec<u8> = Vec::new();
        buf.push(0x4C);
        buf.push(0x41);
        buf.push(0x5A);
        buf.push(0x55);
        assert(buf@ =~= state_magic());
        push_le32(&mut buf, STATE_VERSION);
        push_le32(&mut buf, CPU_SIZE as u32);
        let image: Vec<u8> = self.cpu.to_bytes();
        append_slice(&mut buf, image.as_slice());
        push_le32(&mut buf, self.ram.len() as u32);
        append_slice(&mut buf, self.ram.as_slice());
        let ghost head = buf@;
        let mut k: usize = 0;
        proof {
            assert(flatten(self@.state_words().take(0)) =~= Seq::empty());
            assert(buf@ =~= head + flatten(self@.state_words().take(0)));
        }
        while k < STATE_WORDS
            invariant
                k <= STATE_WORDS,
                buf@ == head + flatten(self@.state_words().take(k as int)),
            decreases STATE_WORDS - k,
        {
            let word: u32 = self.get_state_word(k);
            push_le32(&mut buf, word);
            proof {
                let words = self@.state_words();
                lemma_flatten_push(words.take(k as int), word);
                assert(words.take(k + 1) =~= words.take(k as int).push(word));
                assert(buf@ =~= head + flatten(words.take(k + 1)));
            }
            k = k + 1;
        }
        assert(self@.state_words().take(STATE_WORDS as int) =~= self@.state_words());
        buf
    }

    /// Takes over a saved state; gives whether `data` is a whole one. Of a state that
    /// is cut off, what is there is taken over; anything but a state is ignored.
    pub fn load_state(&mut self, data: &[u8]) -> (complete: bool)
        requires
            old(self)@.wf(),
        ensures
            final(self)@.wf(),
            complete == state_complete(data@),
            if cpu_complete(data@) {
                &&& final(self).cpu.image() == data@.subrange(
                    STATE_CPU_AT as int,
                    STATE_CPU_AT + CPU_SIZE,
                )
                &&& final(self)@ == (EmuView {
                    cpu: final(self)@.cpu,
                    ..old(self)@.loaded(data@)
                })
            } else {
                final(self)@ == old(self)@
            },
    {
        if !has_cpu(data) {
            return false;
        }
        let image: &[u8] = vstd::slice::slice_subrange(
            data,
            STATE_CPU_AT,
            STATE_CPU_AT + CPU_SIZE,
        );
        self.cpu = Cpu::from_bytes(image);
        proof {
            assert(image@.take(CPU_SIZE as int) =~= data@.subrange(
                STATE_CPU_AT as int,
                STATE_CPU_AT + CPU_SIZE,
            ));
        }
        if data.len() < STATE_RAM_AT {
            return false;
        }
        let ram_size: usize = read_le32(data, STATE_RAM_AT - 4) as usize;
        if ram_size > data.len() - STATE_RAM_AT {
            return false;
        }
        let ram_bytes: &[u8] = vstd::slice::slice_subrange(
            data,
            STATE_RAM_AT,
            STATE_RAM_AT + ram_size,
        );
        self.sync_ram(ram_bytes);
        let base: usize = STATE_RAM_AT + ram_size;
        let ghost start = self@;
        let ghost cpu = self.cpu;
        let mut k: usize = 0;
        while k < STATE_WORDS && data.len() - base - 4 * k >= 4
            invariant
                k <= STATE_WORDS,
                base == STATE_RAM_AT + stored_ram_len(data@),
                base + 4 * k <= data@.len(),
                k <= words_there(data@),
                self@ == start.restored(stored_words(data@), k as nat),
                self.cpu == cpu,
            decreases STATE_WORDS - k,
        {
            let val: u32 = read_le32(data, base + 4 * k);
            assert(val == stored_words(data@)[k as int]);
            self.set_state_word(k, val);
            k = k + 1;
        }
        proof {
            lemma_restored_frame(start, stored_words(data@), k as nat);
            lemma_restored_cpu(old(self)@, start, stored_words(data@), k as nat);
        }
        if k < STATE_WORDS {
            return false;
        }
        self.cache.clear();
        true
    }
}

/// Whether `data` begins like a state and has a whole register image.
fn has_cpu(data: &[u8]) -> (complete: bool)
    ensures
        complete == cpu_complete(data@),
{
    if data.len() < STATE_CPU_AT + CPU_SIZE {
        return false;
    }
    let magic: bool = data[0] == 0x4C && data[1] == 0x41 && data[2] == 0x5A && data[3] == 0x55;
    proof {
        let head = data@.take(4);
        assert(head[0] == data@[0] && head[1] == data@[1] && head[2] == data@[2] && head[3]
            == data@[3]);
        if magic {
            assert(head =~= state_magic());
        } else {
            let m = state_magic();
            assert(m[0] == 0x4C && m[1] == 0x41 && m[2] == 0x5A && m[3] == 0x55);
        }
    }
    magic && read_le32(data, 4) >= STATE_VERSION && read_le32(data, 8) as usize == CPU_SIZE
}

/// Restoring register words leaves memory, processor and everything else alone.
proof fn lemma_restored_frame(emu: EmuView, words: Seq<u32>, n: nat)
    requires
        emu.state_shaped(),
        n <= STATE_WORDS,
    ensures
        ({
            let r = emu.restored(words, n);
            &&& r == (EmuView {
                pi: r.pi,
                pad_buttons: r.pad_buttons,
                decrementer_pending: r.decrementer_pending,
                vi: r.vi,
                si: r.si,
                ai: r.ai,
                ..emu
            })
            &&& r.state_shaped()
            &&& r.si.axes == emu.si.axes && r.si.si_buf == emu.si.si_buf
        }),
    decreases n,
{
    if n > 0 {
        lemma_restored_frame(emu, words, (n - 1) as nat);
    }
}

/// Restoring register words does not depend on the processor.
proof fn lemma_restored_cpu(a: EmuView, b: EmuView, words: Seq<u32>, n: nat)
    requires
        b == (EmuView { cpu: b.cpu, ram: b.ram, ..a }),
    ensures
        b.restored(words, n) == (EmuView {
            cpu: b.cpu,
            ..(EmuView { ram: b.ram, ..a }).restored(words, n)
        }),
    decreases n,
{
    if n > 0 {
        lemma_restored_cpu(a, b, words, (n - 1) as nat);
    }
}

/// Register words that were restored can be read back.
proof fn lemma_restored_words(emu: EmuView, words: Seq<u32>, n: nat, k: int)
    requires
        emu.state_shaped(),
        n <= STATE_WORDS,
        0 <= k < n,
        k == 3 ==> words[3] <= 1,
    ensures
        emu.restored(words, n).state_word(k) == words[k],
    decreases n,
{
    lemma_restored_frame(emu, words, (n - 1) as nat);
    if k < n - 1 {
        lemma_restored_words(emu, words, (n - 1) as nat, k);
    }
}

/// Where the parts of a saved state stand.
proof fn lemma_state_parts(emu: EmuView, image: Seq<u8>)
    requires
        image.len() == CPU_SIZE,
        emu.ram.len() <= u32::MAX,
    ensures
        ({
            let data = emu.state_image(image);
            &&& data.len() == STATE_RAM_AT + emu.ram.len() + 4 * STATE_WORDS
            &&& data.take(4) == state_magic()
            &&& le32_at(data, 4) == STATE_VERSION
            &&& le32_at(data, 8) == CPU_SIZE
            &&& data.subrange(STATE_CPU_AT as int, STATE_CPU_AT + CPU_SIZE) == image
            &&& stored_ram_len(data) == emu.ram.len()
            &&& data.subrange(STATE_RAM_AT as int, STATE_RAM_AT + emu.ram.len()) == emu.ram
            &&& words_there(data) == STATE_WORDS
            &&& stored_words(data) == emu.state_words()
        }),
{
    let data = emu.state_image(image);
    let ram_len = emu.ram.len() as u32;
    let words = emu.state_words();
    word_from_bytes(STATE_VERSION);
    word_from_bytes(CPU_SIZE as u32);
    word_from_bytes(ram_len);
    assert(data.take(4) =~= state_magic());
    assert(data[4] == le_byte(STATE_VERSION, 0) && data[5] == le_byte(STATE_VERSION, 1) && data[6]
        == le_byte(STATE_VERSION, 2) && data[7] == le_byte(STATE_VERSION, 3));
    assert(data[8] == le_byte(CPU_SIZE as u32, 0) && data[9] == le_byte(CPU_SIZE as u32, 1)
        && data[10] == le_byte(CPU_SIZE as u32, 2) && data[11] == le_byte(CPU_SIZE as u32, 3));
    assert(data.subrange(STATE_CPU_AT as int, STATE_CPU_AT + CPU_SIZE) =~= image);
    assert(data[828] == le_byte(ram_len, 0) && data[829] == le_byte(ram_len, 1) && data[830]
        == le_byte(ram_len, 2) && data[831] == le_byte(ram_len, 3));
    assert(data.subrange(STATE_RAM_AT as int, STATE_RAM_AT + emu.ram.len()) =~= emu.ram);
    let base = STATE_RAM_AT + emu.ram.len();
    assert forall|k: int| 0 <= k < STATE_WORDS implies #[trigger] stored_words(data)[k]
        == words[k] by {
        crate::bytes::word_of_flattened(words, k);
        assert(data[base + 4 * k] == flatten(words)[4 * k]);
        assert(data[base + 4 * k + 1] == flatten(words)[4 * k + 1]);
        assert(data[base + 4 * k + 2] == flatten(words)[4 * k + 2]);
        assert(data[base + 4 * k + 3] == flatten(words)[4 * k + 3]);
    }
    assert(stored_words(data) =~= words);
}

/// Equal register words mean equal registers.
proof fn lemma_words_determine(a: EmuView, b: EmuView)
    requires
        a.state_shaped(),
        b.state_shaped(),
        forall|k: int| 0 <= k < STATE_WORDS ==> #[trigger] a.state_word(k) == b.state_word(k),
    ensures
        a.pi.intsr == b.pi.intsr,
        a.pi.intmsk == b.pi.intmsk,
        a.pad_buttons == b.pad_buttons,
        a.decrementer_pending == b.decrementer_pending,
        a.vi == b.vi,
        a.ai == b.ai,
        a.si == (SiView { si_buf: a.si.si_buf, axes: a.si.axes, ..b.si }),
{
    assert forall|i: int| 0 <= i < 32 implies a.vi[i] == b.vi[i] by {
        assert(a.state_word(i + 4) == b.state_word(i + 4));
    }
    assert forall|i: int| 0 <= i < 4 implies a.si.out_buf[i] == b.si.out_buf[i] by {
        assert(a.state_word(i + 36) == b.state_word(i + 36));
    }
    assert forall|i: int| 0 <= i < 4 implies a.si.in_buf_hi[i] == b.si.in_buf_hi[i] by {
        assert(a.state_word(i + 40) == b.state_word(i + 40));
    }
    assert forall|i: int| 0 <= i < 4 implies a.si.in_buf_lo[i] == b.si.in_buf_lo[i] by {
        assert(a.state_word(i + 44) == b.state_word(i + 44));
    }
    assert(a.state_word(0) == b.state_word(0));
    assert(a.state_word(1) == b.state_word(1));
    assert(a.state_word(2) == b.state_word(2));
    assert(a.state_word(3) == b.state_word(3));
    assert(a.state_word(48) == b.state_word(48));
    assert(a.state_word(49) == b.state_word(49));
    assert(a.state_word(50) == b.state_word(50));
    assert(a.state_word(51) == b.state_word(51));
    assert(a.state_word(52) == b.state_word(52));
    assert(a.state_word(53) == b.state_word(53));
    assert(a.state_word(54) == b.state_word(54));
    assert(a.state_word(55) == b.state_word(55));
    assert(a.vi =~= b.vi);
    assert(a.si.out_buf =~= b.si.out_buf);
    assert(a.si.in_buf_hi =~= b.si.in_buf_hi);
    assert(a.si.in_buf_lo =~= b.si.in_buf_lo);
}

/// What loading a whole state with the memory and register words of `saved` leaves.
proof fn lemma_loaded_registers(emu: EmuView, saved: EmuView, data: Seq<u8>)
    requires
        emu.state_shaped(),
        saved.state_shaped(),
        emu.ram.len() == saved.ram.len(),
        ram_complete(data),
        stored_ram_len(data) == saved.ram.len(),
        data.subrange(STATE_RAM_AT as int, STATE_RAM_AT + saved.ram.len()) == saved.ram,
        words_there(data) == STATE_WORDS,
        stored_words(data) == saved.state_words(),
    ensures
        ({
            let after = emu.loaded(data);
            &&& after.ram == saved.ram
            &&& after.cache == Map::<u32, Module>::empty()
            &&& after.pi.intsr == saved.pi.intsr
            &&& after.pi.intmsk == saved.pi.intmsk
            &&& after.pad_buttons == saved.pad_buttons
            &&& after.decrementer_pending == saved.decrementer_pending
            &&& after.vi == saved.vi
            &&& after.ai == saved.ai
            &&& after.si == (SiView { si_buf: emu.si.si_buf, axes: emu.si.axes, ..saved.si })
        }),
{
    let words = saved.state_words();
    let ram = overlaid(emu.ram, saved.ram);
    assert(ram =~= saved.ram);
    let base = EmuView { ram, ..emu };
    let done = base.restored(words, STATE_WORDS as nat);
    lemma_restored_frame(base, words, STATE_WORDS as nat);
    assert forall|k: int| 0 <= k < STATE_WORDS implies #[trigger] done.state_word(k)
        == saved.state_word(k) by {
        lemma_restored_words(base, words, STATE_WORDS as nat, k);
        assert(words[k] == saved.state_word(k));
    }
    lemma_words_determine(done, saved);
}

/// Loading a saved state brings back what was saved: it is accepted, and memory,
/// buttons, the pending decrementer and the PI, VI, SI and AI registers are as they
/// were, on an emulator with as much memory. The processor registers come back too,
/// as their image does.
#[verifier::spinoff_prover]
#[verifier::rlimit(50)]
pub proof fn state_round_trip(saved: WasmEmulator, emu: EmuView)
    requires
        saved@.wf(),
        emu.wf(),
        emu.ram.len() == saved@.ram.len(),
        emu.state_shaped(),
    ensures
        ({
            let data = saved@.state_image(saved.cpu.image());
            let after = emu.loaded(data);
            &&& state_complete(data)
            &&& data.subrange(STATE_CPU_AT as int, STATE_CPU_AT + CPU_SIZE) == saved.cpu.image()
            &&& after.ram == saved@.ram
            &&& after.cache == Map::<u32, Module>::empty()
            &&& after.pi.intsr == saved@.pi.intsr
            &&& after.pi.intmsk == saved@.pi.intmsk
            &&& after.pad_buttons == saved@.pad_buttons
            &&& after.decrementer_pending == saved@.decrementer_pending
            &&& after.vi == saved@.vi
            &&& after.ai == saved@.ai
            &&& after.si == (SiView {
                si_buf: emu.si.si_buf,
                axes: emu.si.axes,
                ..saved@.si
            })
        }),
{
    lemma_state_parts(saved@, saved.cpu.image());
    lemma_loaded_registers(emu, saved@, saved@.state_image(saved.cpu.image()));
}

/// Where everything is in a saved state: the letters `LAZU`, the version and the length of
/// the register image, the register image, the length of main memory, main memory, and the
/// register words of the Processor Interface, the pad, the decrementer, the Video, Serial
/// and Audio Interfaces. Numbers have their least significant byte first.
pub proof fn states_have_their_layout(emu: EmuView, image: Seq<u8>, k: int)
    requires
        image.len() == 816,
        emu.ram.len() <= u32::MAX,
        0 <= k < 56,
    ensures
        ({
            let data = emu.state_image(image);
            let end = 832 + emu.ram.len();
            let word = le32_at(data, end + 4 * k);
            &&& data.len() == end + 224
            &&& data.take(4) == seq![0x4Cu8, 0x41, 0x5A, 0x55]
            &&& le32_at(data, 4) == 2
            &&& le32_at(data, 8) == 816
            &&& data.subrange(12, 828) == image
            &&& le32_at(data, 828) == emu.ram.len()
            &&& data.subrange(832, end as int) == emu.ram
            &&& k == 0 ==> word == emu.pi.intsr
            &&& k == 1 ==> word == emu.pi.intmsk
            &&& k == 2 ==> word == emu.pad_buttons
            &&& k == 3 ==> word == if emu.decrementer_pending {
                1int
            } else {
                0
            }
            &&& 4 <= k < 36 ==> word == emu.vi[k - 4]
            &&& 36 <= k < 40 ==> word == emu.si.out_buf[k - 36]
            &&& 40 <= k < 44 ==> word == emu.si.in_buf_hi[k - 40]
            &&& 44 <= k < 48 ==> word == emu.si.in_buf_lo[k - 44]
            &&& k == 48 ==> word == emu.si.poll
            &&& k == 49 ==> word == emu.si.comm_ctrl
            &&& k == 50 ==> word == emu.si.status
            &&& k == 51 ==> word == emu.si.exi_clock_lock
            &&& k == 52 ==> word == emu.ai.control
            &&& k == 53 ==> word == emu.ai.volume
            &&& k == 54 ==> word == emu.ai.sample_count
            &&& k == 55 ==> word == emu.ai.interrupt_sample
        }),
{
    let data = emu.state_image(image);
    let end = 832 + emu.ram.len();
    let words = flatten(emu.state_words());
    word_from_bytes(2);
    word_from_bytes(816);
    word_from_bytes(emu.ram.len() as u32);
    crate::bytes::word_of_flattened(emu.state_words(), k);
    assert(data.take(4) =~= state_magic());
    assert(data.subrange(12, 828) =~= image);
    assert(data.subrange(832, end as int) =~= emu.ram);
    assert(data[end + 4 * k] == words[4 * k]);
    assert(data[end + 4 * k + 1] == words[4 * k + 1]);
    assert(data[end + 4 * k + 2] == words[4 * k + 2]);
    assert(data[end + 4 * k + 3] == words[4 * k + 3]);
}

} // verus!
