//! External Interface (EXI) registers and the devices behind them.
//!
//! Channel 0 has a memory card as device 0 and the clock, settings memory (SRAM)
//! and debug port (UART) as device 1; channel 1 has a memory card as device 0.
//! Each channel has five registers at 0x14 times its number:
//!
//! | Offset | Name        | Description                                      |
//! |--------|-------------|--------------------------------------------------|
//! | 0x00   | EXICxCPR    | Parameters: device select and interrupts         |
//! | 0x04   | EXICxMAR    | DMA address                                      |
//! | 0x08   | EXICxLENGTH | DMA length                                       |
//! | 0x0C   | EXICxCR     | Control: start, DMA, direction and length        |
//! | 0x10   | EXICxDATA   | Immediate data                                   |
//!
//! Of CPR, bits 1, 3 and 11 are interrupts that are cleared by writing 1 and bits 7
//! to 9 select the device. Of CR, bit 0 starts a transfer, bit 1 asks for DMA, bits
//! 2 and 3 are the direction (0 reads, 1 writes) and bits 4 to 7 the number of bytes
//! less one.
//!
//! The second device of channel 0 takes its command from DATA:
//!
//! | DATA                        | Command                        |
//! |-----------------------------|--------------------------------|
//! | `0x2000_0000`               | Read the clock                 |
//! | `0x2000_0100 - 0x2001_00FF` | Read SRAM                      |
//! | `0x2001_0000`               | Read the debug port (ignored)  |
//! | `0xA000_0000`               | Set the clock                  |
//! | `0xA000_0100 - 0xA001_00FF` | Write SRAM                     |
//! | `0xA001_0000`               | Send to the debug port         |

use vstd::prelude::*;

use super::memcard::{blank_card, CardView, MemCard};
use crate::bytes::{be16, be_byte, half_be};

verus! {

/// Address of the first EXI register.
pub const EXI_BASE: u32 = 0xCC00_6800;

/// Bytes covered by the EXI registers.
pub const EXI_SIZE: u32 = 0x40;

/// Bytes covered by the registers of a channel.
pub const EXI_CHANNEL_SIZE: u32 = 0x14;

/// Interrupt bits of CPR, which are cleared by writing 1.
pub const EXI_CPR_W1C: u32 = 0x0000_080A;

/// Transfer-complete interrupt of CPR.
pub const EXI_XFER_INT: u32 = 0x0000_0008;

/// Seconds from the Unix epoch to the epoch of the clock, the start of 2000.
pub const GC_EPOCH_OFFSET_S: u64 = 946_684_800;

/// Byte of SRAM that has a fixed value.
pub const SRAM_FIXED: u8 = 0x6C;

pub const CMD_READ_CLOCK: u32 = 0x2000_0000;

pub const CMD_READ_UART: u32 = 0x2001_0000;

pub const CMD_SET_CLOCK: u32 = 0xA000_0000;

pub const CMD_WRITE_UART: u32 = 0xA001_0000;

/// Registers of a channel.
#[derive(Clone, Copy, Debug, PartialEq, Eq, Structural)]
pub struct ExiChannel {
    /// EXICxCPR.
    pub param: u32,
    /// EXICxMAR.
    pub dma_base: u32,
    /// EXICxLENGTH.
    pub dma_length: u32,
    /// EXICxCR.
    pub control: u32,
    /// EXICxDATA.
    pub data: u32,
}

/// A copy from SRAM to main memory that a transfer asks for.
#[derive(Clone, Copy, Debug, PartialEq, Eq, Structural)]
pub struct ExiSramDma {
    /// Destination in main memory.
    pub ram_addr: u32,
    /// Number of bytes.
    pub length: u32,
    /// Position of the first byte in SRAM.
    pub sram_offset: usize,
}

/// The External Interface registers and the devices behind them.
pub struct ExiState {
    pub channels: [ExiChannel; 3],
    /// The device that each channel had selected last.
    pub prev_device_sel: [u8; 3],
    /// Memory card of channel 0.
    pub mc_a: MemCard,
    /// Memory card of channel 1.
    pub mc_b: MemCard,
    /// Settings memory.
    pub sram: [u8; 64],
    /// The clock, in seconds since the start of 2000; 0 if it was never read or
    /// set.
    pub rtc: u32,
    /// Whether what is written goes to the debug port.
    pub uart_pending: bool,
    /// Bytes that were sent to the debug port.
    pub uart_output: Vec<u8>,
}

/// The registers and devices, with arrays as sequences.
#[verifier::ext_equal]
pub struct ExiView {
    pub channels: Seq<ExiChannel>,
    pub prev_device_sel: Seq<u8>,
    pub mc_a: CardView,
    pub mc_b: CardView,
    pub sram: Seq<u8>,
    pub rtc: u32,
    pub uart_pending: bool,
    pub uart_output: Seq<u8>,
}

impl View for ExiState {
    type V = ExiView;

    open spec fn view(&self) -> ExiView {
        ExiView {
            channels: self.channels@,
            prev_device_sel: self.prev_device_sel@,
            mc_a: self.mc_a@,
            mc_b: self.mc_b@,
            sram: self.sram@,
            rtc: self.rtc,
            uart_pending: self.uart_pending,
            uart_output: self.uart_output@,
        }
    }
}

impl ExiChannel {
    /// Value of the register at `reg`.
    pub open spec fn reg(self, reg: u32) -> u32 {
        match reg {
            0x00 => self.param,
            0x04 => self.dma_base,
            0x08 => self.dma_length,
            0x0C => self.control,
            0x10 => self.data,
            _ => 0,
        }
    }

    /// The selected device, one bit for each.
    pub open spec fn device(self) -> u32 {
        (self.param >> 7) & 7
    }

    /// The registers after a transfer: the start bit is cleared and completion is
    /// flagged.
    pub open spec fn completed(self) -> ExiChannel {
        ExiChannel { control: self.control & !1u32, param: self.param | EXI_XFER_INT, ..self }
    }
}

/// Number of bytes that control value `cr` asks for.
pub open spec fn transfer_bytes(cr: u32) -> nat {
    (((cr >> 4) & 0xF) + 1) as nat
}

/// Direction that control value `cr` asks for.
pub open spec fn transfer_direction(cr: u32) -> u32 {
    (cr >> 2) & 3
}

/// Whether control value `cr` asks for DMA.
pub open spec fn transfer_is_dma(cr: u32) -> bool {
    (cr >> 1) & 1 != 0
}

/// `n`, but at most 4.
pub open spec fn at_most_four(n: nat) -> nat {
    if n < 4 {
        n
    } else {
        4
    }
}

/// Position in SRAM that a command names.
pub open spec fn sram_position(cmd: u32) -> int {
    ((((cmd & !0xA000_0000u32) - 0x100) % 0x1_0000_0000) as u32 >> 6) as int
}

/// Whether `cmd` reads SRAM.
pub open spec fn reads_sram(cmd: u32) -> bool {
    0x2000_0100 <= cmd <= 0x2001_00FF && cmd != CMD_READ_UART
}

/// Whether `cmd` writes SRAM.
pub open spec fn writes_sram(cmd: u32) -> bool {
    0xA000_0100 <= cmd <= 0xA001_00FF && cmd != CMD_WRITE_UART
}

/// Halfword `i` of the four that the checksums of SRAM cover.
pub open spec fn sram_half(sram: Seq<u8>, i: int) -> u16 {
    be16(sram[0x0C + 2 * i], sram[0x0D + 2 * i])
}

/// First checksum of SRAM: the sum of the four halfwords.
pub open spec fn checksum1(sram: Seq<u8>) -> u16 {
    ((sram_half(sram, 0) + sram_half(sram, 1) + sram_half(sram, 2) + sram_half(sram, 3))
        % 0x1_0000) as u16
}

/// Second checksum of SRAM: the sum of the complements of the four halfwords.
pub open spec fn checksum2(sram: Seq<u8>) -> u16 {
    (((0xFFFF - sram_half(sram, 0)) + (0xFFFF - sram_half(sram, 1)) + (0xFFFF - sram_half(sram, 2))
        + (0xFFFF - sram_half(sram, 3))) % 0x1_0000) as u16
}

/// SRAM with its fixed byte and its checksums in place.
pub open spec fn checksummed(sram: Seq<u8>) -> Seq<u8> {
    let s = sram.update(0x13, SRAM_FIXED);
    s.update(0, (checksum1(s) >> 8) as u8).update(1, checksum1(s) as u8).update(
        2,
        (checksum2(s) >> 8) as u8,
    ).update(3, checksum2(s) as u8)
}

/// Byte of SRAM at position `at`; past its end bytes read 0.
pub open spec fn sram_byte(sram: Seq<u8>, at: int) -> u8 {
    if at < sram.len() {
        sram[at]
    } else {
        0
    }
}

/// Word whose bytes are the first `n` bytes of SRAM from position `at` on, then
/// zeros.
pub open spec fn sram_word(sram: Seq<u8>, at: int, n: nat) -> u32 {
    crate::bytes::be32(
        if n > 0 {
            sram_byte(sram, at)
        } else {
            0
        },
        if n > 1 {
            sram_byte(sram, at + 1)
        } else {
            0
        },
        if n > 2 {
            sram_byte(sram, at + 2)
        } else {
            0
        },
        if n > 3 {
            sram_byte(sram, at + 3)
        } else {
            0
        },
    )
}

/// SRAM after the first `n` bytes of `word` were stored from position `at` on; bytes
/// past its end are dropped.
pub open spec fn sram_stored(sram: Seq<u8>, at: int, word: u32, n: nat) -> Seq<u8> {
    Seq::new(
        sram.len(),
        |i: int|
            if at <= i < at + n {
                be_byte(word, i - at)
            } else {
                sram[i]
            },
    )
}

/// What the debug port keeps of the first `n` bytes of `word`: all but escape and
/// zero bytes.
pub open spec fn uart_kept(word: u32, n: nat) -> Seq<u8>
    decreases n,
{
    if n == 0 {
        Seq::empty()
    } else {
        let byte = be_byte(word, n - 1);
        let kept = uart_kept(word, (n - 1) as nat);
        if byte != 0x1B && byte != 0 {
            kept.push(byte)
        } else {
            kept
        }
    }
}

/// Seconds since the start of 2000 at a Unix time in milliseconds: 0 before, and the
/// greatest value once it no longer fits.
pub open spec fn seconds_of(unix_ms: u64) -> u32 {
    let secs = unix_ms as int / 1000 - GC_EPOCH_OFFSET_S;
    if secs < 0 {
        0
    } else if secs > 0xFFFF_FFFF {
        0xFFFF_FFFF
    } else {
        secs as u32
    }
}

impl ExiView {
    /// Whether every array has its length.
    pub open spec fn wf(self) -> bool {
        &&& self.channels.len() == 3
        &&& self.prev_device_sel.len() == 3
        &&& self.mc_a.wf()
        &&& self.mc_b.wf()
        &&& self.sram.len() == 64
    }

    /// Value of the register at `offset`.
    pub open spec fn reg(self, offset: u32) -> u32 {
        let ch = offset as int / EXI_CHANNEL_SIZE as int;
        if ch < 3 {
            self.channels[ch].reg(offset % EXI_CHANNEL_SIZE)
        } else {
            0
        }
    }

    /// The state with the registers of channel `ch` replaced.
    pub open spec fn with_channel(self, ch: int, channel: ExiChannel) -> ExiView {
        ExiView { channels: self.channels.update(ch, channel), ..self }
    }

    /// The state after the device of channel `ch` was changed to `device`: the
    /// memory card that was selected is deselected.
    pub open spec fn selected(self, ch: int, device: u8) -> ExiView {
        let before = self.prev_device_sel[ch];
        let sel = ExiView { prev_device_sel: self.prev_device_sel.update(ch, device), ..self };
        if before == device || before != 1 {
            sel
        } else if ch == 0 {
            ExiView { mc_a: self.mc_a.deselected(), ..sel }
        } else if ch == 1 {
            ExiView { mc_b: self.mc_b.deselected(), ..sel }
        } else {
            sel
        }
    }

    /// The state after `val` was written at `offset`, and the copy that this asks
    /// for. `unix_ms` is the time.
    pub open spec fn written(self, offset: u32, val: u32, unix_ms: u64) -> (
        ExiView,
        Option<ExiSramDma>,
    ) {
        let ch = offset as int / EXI_CHANNEL_SIZE as int;
        let reg = offset % EXI_CHANNEL_SIZE;
        if ch >= 3 {
            (self, None)
        } else {
            let c = self.channels[ch];
            if reg == 0x00 {
                (
                    self.selected(ch, ((val >> 7) & 7) as u8).with_channel(
                        ch,
                        ExiChannel {
                            param: (c.param & EXI_CPR_W1C & !val) | (val & !EXI_CPR_W1C),
                            ..c
                        },
                    ),
                    None,
                )
            } else if reg == 0x04 {
                (self.with_channel(ch, ExiChannel { dma_base: val, ..c }), None)
            } else if reg == 0x08 {
                (self.with_channel(ch, ExiChannel { dma_length: val, ..c }), None)
            } else if reg == 0x0C {
                let started = self.with_channel(ch, ExiChannel { control: val, ..c });
                if val & 1 != 0 {
                    started.transferred(ch, val, unix_ms)
                } else {
                    (started, None)
                }
            } else if reg == 0x10 {
                (self.with_channel(ch, ExiChannel { data: val, ..c }), None)
            } else {
                (self, None)
            }
        }
    }

    /// Whether writing `val` at `offset` reads the time.
    pub open spec fn reads_time(self, offset: u32, val: u32) -> bool {
        let c = self.channels[0];
        &&& offset == 0x0C
        &&& val & 1 != 0
        &&& c.device() == 2
        &&& c.data == CMD_READ_CLOCK
        &&& transfer_direction(val) == 0
        &&& self.rtc == 0
    }

    /// The state after a transfer on channel `ch`, and the copy that it asks for.
    pub open spec fn transferred(self, ch: int, cr: u32, unix_ms: u64) -> (
        ExiView,
        Option<ExiSramDma>,
    ) {
        let c = self.channels[ch];
        if c.device() == 1 {
            (self.card_transferred(ch, cr), None)
        } else if ch == 0 && c.device() == 2 {
            let (after, dma) = self.system_transferred(cr, unix_ms);
            (after.with_channel(0, after.channels[0].completed()), dma)
        } else {
            (self.with_channel(ch, c.completed()), None)
        }
    }

    /// The state after a transfer with the memory card of channel `ch`; channel 2
    /// has none.
    pub open spec fn card_transferred(self, ch: int, cr: u32) -> ExiView {
        let c = self.channels[ch];
        let rw = transfer_direction(cr);
        if ch == 0 {
            let (card, word) = self.mc_a.handled(rw, transfer_bytes(cr), c.data);
            (ExiView { mc_a: card, ..self }).with_channel(
                ch,
                (ExiChannel { data: word, ..c }).completed(),
            )
        } else if ch == 1 {
            let (card, word) = self.mc_b.handled(rw, transfer_bytes(cr), c.data);
            (ExiView { mc_b: card, ..self }).with_channel(
                ch,
                (ExiChannel { data: word, ..c }).completed(),
            )
        } else {
            self.with_channel(ch, c.completed())
        }
    }

    /// The state after a transfer with the clock, SRAM or debug port, but for its
    /// completion, and the copy that it asks for.
    pub open spec fn system_transferred(self, cr: u32, unix_ms: u64) -> (
        ExiView,
        Option<ExiSramDma>,
    ) {
        let c = self.channels[0];
        let cmd = c.data;
        let rw = transfer_direction(cr);
        let n = at_most_four(transfer_bytes(cr));
        if cmd == CMD_READ_CLOCK && rw == 0 {
            let rtc = if self.rtc == 0 {
                seconds_of(unix_ms)
            } else {
                self.rtc
            };
            (
                (ExiView { rtc, uart_pending: false, ..self }).with_channel(
                    0,
                    ExiChannel { data: rtc, ..c },
                ),
                None,
            )
        } else if cmd == CMD_SET_CLOCK && rw == 1 {
            (ExiView { rtc: cmd, ..self }, None)
        } else if reads_sram(cmd) && rw == 0 {
            let sram = checksummed(self.sram);
            let fresh = ExiView { sram, uart_pending: false, ..self };
            if transfer_is_dma(cr) {
                (
                    fresh,
                    Some(
                        ExiSramDma {
                            ram_addr: c.dma_base,
                            length: c.dma_length,
                            sram_offset: sram_position(cmd) as usize,
                        },
                    ),
                )
            } else {
                (
                    fresh.with_channel(
                        0,
                        ExiChannel { data: sram_word(sram, sram_position(cmd), n), ..c },
                    ),
                    None,
                )
            }
        } else if writes_sram(cmd) && rw == 1 {
            if transfer_is_dma(cr) {
                (self, None)
            } else {
                (
                    ExiView {
                        sram: sram_stored(self.sram, sram_position(cmd), cmd, n),
                        ..self
                    },
                    None,
                )
            }
        } else if cmd == CMD_WRITE_UART && rw == 1 {
            (ExiView { uart_pending: true, ..self }, None)
        } else if rw == 1 && self.uart_pending {
            (ExiView { uart_output: self.uart_output + uart_kept(cmd, n), ..self }, None)
        } else {
            (self, None)
        }
    }
}

/// Time by the host's clock, from `js_sys::Date::now`, in whole milliseconds since
/// the Unix epoch. Nothing is claimed of it.
#[verifier::external_body]
fn unix_milliseconds() -> (unix_ms: u64) {
    js_sys::Date::now() as u64
}

/// Seconds since the start of 2000 at a Unix time in milliseconds.
pub fn gc_seconds(unix_ms: u64) -> (secs: u32)
    ensures
        secs == seconds_of(unix_ms),
{
    let unix_secs: u64 = unix_ms / 1000;
    if unix_secs < GC_EPOCH_OFFSET_S {
        0
    } else if unix_secs - GC_EPOCH_OFFSET_S > 0xFFFF_FFFF {
        0xFFFF_FFFF
    } else {
        (unix_secs - GC_EPOCH_OFFSET_S) as u32
    }
}

/// The fields of control and parameter registers are small.
proof fn lemma_fields(word: u32)
    ensures
        (word >> 4) & 0xF <= 15,
        (word >> 7) & 7 <= 7,
{
    assert((word >> 4) & 0xF <= 15 && (word >> 7) & 7 <= 7) by (bit_vector);
}

fn byte_of(word: u32, i: usize) -> (byte: u8)
    requires
        i < 4,
    ensures
        byte == be_byte(word, i as int),
{
    (word >> (24 - 8 * (i as u32))) as u8
}

impl ExiState {
    /// Reads the register at `offset`.
    pub fn read_u32(&self, offset: u32) -> (val: u32)
        ensures
            val == self@.reg(offset),
    {
        let ch: usize = (offset / EXI_CHANNEL_SIZE) as usize;
        if ch >= 3 {
            return 0;
        }
        match offset % EXI_CHANNEL_SIZE {
            0x00 => self.channels[ch].param,
            0x04 => self.channels[ch].dma_base,
            0x08 => self.channels[ch].dma_length,
            0x0C => self.channels[ch].control,
            0x10 => self.channels[ch].data,
            _ => 0,
        }
    }

    /// Writes the register at `offset`; gives the copy from SRAM to main memory
    /// that it asks for. A started transfer is carried out at once. The host's
    /// clock is read only if the transfer reads the clock for the first time.
    pub fn write_u32(&mut self, offset: u32, val: u32) -> (dma: Option<ExiSramDma>)
        requires
            old(self)@.wf(),
        ensures
            final(self)@.wf(),
            exists|unix_ms: u64|
                (final(self)@, dma) == #[trigger] old(self)@.written(offset, val, unix_ms),
            !old(self)@.reads_time(offset, val) ==> (final(self)@, dma) == old(self)@.written(
                offset,
                val,
                0,
            ),
    {
        let c: ExiChannel = self.channels[0];
        let unix_ms: u64 = if offset == 0x0C && val & 1 != 0 && (c.param >> 7) & 7 == 2 && c.data
            == CMD_READ_CLOCK && (val >> 2) & 3 == 0 && self.rtc == 0 {
            unix_milliseconds()
        } else {
            0
        };
        self.write_u32_at(offset, val, unix_ms)
    }

    /// Writes the register at `offset` at the given time; gives the copy from SRAM
    /// to main memory that it asks for.
    pub fn write_u32_at(&mut self, offset: u32, val: u32, unix_ms: u64) -> (dma: Option<ExiSramDma>)
        requires
            old(self)@.wf(),
        ensures
            final(self)@.wf(),
            (final(self)@, dma) == old(self)@.written(offset, val, unix_ms),
    {
        let ch: usize = (offset / EXI_CHANNEL_SIZE) as usize;
        if ch >= 3 {
            return None;
        }
        let mut c: ExiChannel = self.channels[ch];
        match offset % EXI_CHANNEL_SIZE {
            0x00 => {
                proof {
                    lemma_fields(val);
                }
                self.select(ch, ((val >> 7) & 7) as u8);
                c.param = (c.param & EXI_CPR_W1C & !val) | (val & !EXI_CPR_W1C);
                self.channels[ch] = c;
            },
            0x04 => {
                c.dma_base = val;
                self.channels[ch] = c;
            },
            0x08 => {
                c.dma_length = val;
                self.channels[ch] = c;
            },
            0x0C => {
                c.control = val;
                self.channels[ch] = c;
                if val & 1 != 0 {
                    return self.handle_transfer(ch, val, unix_ms);
                }
            },
            0x10 => {
                c.data = val;
                self.channels[ch] = c;
            },
            _ => {},
        }
        None
    }

    /// Notes the device that channel `ch` selects.
    fn select(&mut self, ch: usize, device: u8)
        requires
            old(self)@.wf(),
            ch < 3,
        ensures
            final(self)@ == old(self)@.selected(ch as int, device),
            final(self)@.wf(),
    {
        let before: u8 = self.prev_device_sel[ch];
        if before != device && before == 1 {
            if ch == 0 {
                self.mc_a.reset_phase();
            } else if ch == 1 {
                self.mc_b.reset_phase();
            }
        }
        self.prev_device_sel[ch] = device;
    }

    /// Gives the bytes sent to the debug port since the last call.
    pub fn take_uart_output(&mut self) -> (output: Vec<u8>)
        ensures
            output@ == old(self)@.uart_output,
            final(self)@ == (ExiView { uart_output: Seq::empty(), ..old(self)@ }),
    {
        let mut output: Vec<u8> = Vec::new();
        std::mem::swap(&mut self.uart_output, &mut output);
        output
    }

    /// Sets the fixed byte and the checksums of SRAM.
    pub fn update_sram_checksum(&mut self)
        ensures
            final(self)@ == (ExiView { sram: checksummed(old(self)@.sram), ..old(self)@ }),
    {
        self.sram[0x13] = SRAM_FIXED;
        let ghost s = self.sram@;
        let w0: u16 = half_be(self.sram[0x0C], self.sram[0x0D]);
        let w1: u16 = half_be(self.sram[0x0E], self.sram[0x0F]);
        let w2: u16 = half_be(self.sram[0x10], self.sram[0x11]);
        let w3: u16 = half_be(self.sram[0x12], self.sram[0x13]);
        let c1: u16 = ((w0 as u32 + w1 as u32 + w2 as u32 + w3 as u32) % 0x1_0000) as u16;
        let c2: u16 = (((0xFFFF - w0) as u32 + (0xFFFF - w1) as u32 + (0xFFFF - w2) as u32 + (0xFFFF
            - w3) as u32) % 0x1_0000) as u16;
        assert(c1 == checksum1(s));
        assert(c2 == checksum2(s));
        self.sram[0] = (c1 >> 8) as u8;
        self.sram[1] = c1 as u8;
        self.sram[2] = (c2 >> 8) as u8;
        self.sram[3] = c2 as u8;
    }

    /// Carries out the transfer that was started on channel `ch` with control value
    /// `cr_val`, at the given time; gives the copy from SRAM to main memory that it asks
    /// for.
    pub fn handle_transfer(&mut self, ch: usize, cr_val: u32, unix_ms: u64) -> (dma: Option<
        ExiSramDma,
    >)
        requires
            old(self)@.wf(),
            ch < 3,
        ensures
            final(self)@.wf(),
            (final(self)@, dma) == old(self)@.transferred(ch as int, cr_val, unix_ms),
    {
        let device: u32 = (self.channels[ch].param >> 7) & 7;
        if device == 1 {
            self.card_transfer(ch, cr_val);
            return None;
        }
        let dma: Option<ExiSramDma> = if ch == 0 && device == 2 {
            self.system_transfer(cr_val, unix_ms)
        } else {
            None
        };
        self.complete(ch);
        dma
    }

    fn complete(&mut self, ch: usize)
        requires
            ch < 3,
        ensures
            final(self)@ == old(self)@.with_channel(
                ch as int,
                old(self)@.channels[ch as int].completed(),
            ),
    {
        let mut c: ExiChannel = self.channels[ch];
        c.control = c.control & !1u32;
        c.param = c.param | EXI_XFER_INT;
        self.channels[ch] = c;
    }

    fn card_transfer(&mut self, ch: usize, cr_val: u32)
        requires
            old(self)@.wf(),
            ch < 3,
        ensures
            final(self)@.wf(),
            final(self)@ == old(self)@.card_transferred(ch as int, cr_val),
    {
        proof {
            lemma_fields(cr_val);
        }
        let rw: u32 = (cr_val >> 2) & 3;
        let bytes: usize = (((cr_val >> 4) & 0xF) + 1) as usize;
        let mut c: ExiChannel = self.channels[ch];
        if ch == 0 {
            c.data = self.mc_a.handle(rw, bytes, c.data);
        } else if ch == 1 {
            c.data = self.mc_b.handle(rw, bytes, c.data);
        }
        self.channels[ch] = c;
        self.complete(ch);
    }

    fn system_transfer(&mut self, cr_val: u32, unix_ms: u64) -> (dma: Option<ExiSramDma>)
        requires
            old(self)@.wf(),
        ensures
            final(self)@.wf(),
            (final(self)@, dma) == old(self)@.system_transferred(cr_val, unix_ms),
    {
        let mut c: ExiChannel = self.channels[0];
        let cmd: u32 = c.data;
        proof {
            lemma_fields(cr_val);
        }
        let rw: u32 = (cr_val >> 2) & 3;
        let bytes: usize = (((cr_val >> 4) & 0xF) + 1) as usize;
        let n: usize = if bytes < 4 { bytes } else { 4 };
        let dma: bool = (cr_val >> 1) & 1 != 0;
        if cmd == CMD_READ_CLOCK && rw == 0 {
            self.uart_pending = false;
            if self.rtc == 0 {
                self.rtc = gc_seconds(unix_ms);
            }
            c.data = self.rtc;
            self.channels[0] = c;
            None
        } else if cmd == CMD_SET_CLOCK && rw == 1 {
            self.rtc = cmd;
            None
        } else if 0x2000_0100 <= cmd && cmd <= 0x2001_00FF && cmd != CMD_READ_UART && rw == 0 {
            self.uart_pending = false;
            self.update_sram_checksum();
            let at: usize = sram_offset(cmd);
            if dma {
                Some(
                    ExiSramDma { ram_addr: c.dma_base, length: c.dma_length, sram_offset: at },
                )
            } else {
                c.data = self.read_sram(at, n);
                self.channels[0] = c;
                None
            }
        } else if 0xA000_0100 <= cmd && cmd <= 0xA001_00FF && cmd != CMD_WRITE_UART && rw == 1 {
            if !dma {
                self.write_sram(sram_offset(cmd), cmd, n);
            }
            None
        } else if cmd == CMD_WRITE_UART && rw == 1 {
            self.uart_pending = true;
            None
        } else if rw == 1 && self.uart_pending {
            self.write_uart(cmd, n);
            None
        } else {
            None
        }
    }

    fn sram_get(&self, at: usize) -> (byte: u8)
        ensures
            byte == sram_byte(self@.sram, at as int),
    {
        if at < 64 {
            self.sram[at]
        } else {
            0
        }
    }

    fn read_sram(&self, at: usize, n: usize) -> (word: u32)
        requires
            at <= 0x3FF_FFFF,
            n <= 4,
        ensures
            word == sram_word(self@.sram, at as int, n as nat),
    {
        crate::bytes::word_be(
            if n > 0 {
                self.sram_get(at)
            } else {
                0
            },
            if n > 1 {
                self.sram_get(at + 1)
            } else {
                0
            },
            if n > 2 {
                self.sram_get(at + 2)
            } else {
                0
            },
            if n > 3 {
                self.sram_get(at + 3)
            } else {
                0
            },
        )
    }

    fn write_sram(&mut self, at: usize, word: u32, n: usize)
        requires
            at <= 0x3FF_FFFF,
            n <= 4,
        ensures
            final(self)@ == (ExiView {
                sram: sram_stored(old(self)@.sram, at as int, word, n as nat),
                ..old(self)@
            }),
    {
        let mut i: usize = 0;
        while i < n
            invariant
                i <= n <= 4,
                at <= 0x3FF_FFFF,
                self@.sram.len() == 64,
                self@ == (ExiView {
                    sram: sram_stored(old(self)@.sram, at as int, word, i as nat),
                    ..old(self)@
                }),
            decreases n - i,
        {
            if at + i < 64 {
                self.sram[at + i] = byte_of(word, i);
            }
            i = i + 1;
        }
    }

    fn write_uart(&mut self, word: u32, n: usize)
        requires
            n <= 4,
        ensures
            final(self)@ == (ExiView {
                uart_output: old(self)@.uart_output + uart_kept(word, n as nat),
                ..old(self)@
            }),
    {
        let mut i: usize = 0;
        while i < n
            invariant
                i <= n <= 4,
                self@ == (ExiView {
                    uart_output: old(self)@.uart_output + uart_kept(word, i as nat),
                    ..old(self)@
                }),
            decreases n - i,
        {
            let byte: u8 = byte_of(word, i);
            if byte != 0x1B && byte != 0 {
                self.uart_output.push(byte);
            }
            i = i + 1;
        }
    }
}

fn sram_offset(cmd: u32) -> (at: usize)
    ensures
        at == sram_position(cmd),
        at <= 0x3FF_FFFF,
{
    let base: u32 = (cmd & !0xA000_0000u32).wrapping_sub(0x100);
    proof {
        assert(base >> 6 <= 0x3FF_FFFF) by (bit_vector);
    }
    (base >> 6) as usize
}

/// The state at reset: registers zero, blank cards, SRAM set to stereo and English.
pub open spec fn exi_reset() -> ExiView {
    ExiView {
        channels: Seq::new(
            3,
            |i: int|
                ExiChannel { param: 0, dma_base: 0, dma_length: 0, control: 0, data: 0 },
        ),
        prev_device_sel: Seq::new(3, |i: int| 0u8),
        mc_a: blank_card(),
        mc_b: blank_card(),
        sram: Seq::new(64, |i: int| 0u8).update(0x11, 0x04).update(0x13, SRAM_FIXED),
        rtc: 0,
        uart_pending: false,
        uart_output: Seq::empty(),
    }
}

impl Default for ExiState {
    /// The state at reset.
    fn default() -> (exi: Self)
        ensures
            exi@ == exi_reset(),
            exi@.wf(),
    {
        let zero = ExiChannel { param: 0, dma_base: 0, dma_length: 0, control: 0, data: 0 };
        let mut exi = ExiState {
            channels: [zero, zero, zero],
            prev_device_sel: [0u8;3],
            mc_a: MemCard::default(),
            mc_b: MemCard::default(),
            sram: [0u8;64],
            rtc: 0,
            uart_pending: false,
            uart_output: Vec::new(),
        };
        exi.sram[0x11] = 0x04;
        exi.sram[0x13] = SRAM_FIXED;
        assert(exi@ =~= exi_reset());
        exi
    }
}

/// The checksums of SRAM are right after every read: they are those of the bytes
/// they cover, with the fixed byte among them, and add up to the sum of four all-ones
/// halfwords. No other byte changes, and taking them again changes nothing.
pub proof fn sram_checksums_hold(sram: Seq<u8>)
    requires
        sram.len() == 64,
    ensures
        ({
            let s = checksummed(sram);
            &&& be16(s[0], s[1]) == checksum1(s)
            &&& be16(s[2], s[3]) == checksum2(s)
            &&& (be16(s[0], s[1]) + be16(s[2], s[3])) % 0x1_0000 == 0xFFFC
            &&& s.len() == 64
            &&& s[0x13] == SRAM_FIXED
            &&& forall|i: int| 4 <= i < 64 && i != 0x13 ==> #[trigger] s[i] == sram[i]
            &&& checksummed(s) == s
        }),
{
    let s = checksummed(sram);
    let base = sram.update(0x13, SRAM_FIXED);
    let a = checksum1(base);
    let b = checksum2(base);
    assert((((a >> 8) as u8 as u16) << 8) | (a as u8 as u16) == a && (((b >> 8) as u8 as u16) << 8)
        | (b as u8 as u16) == b) by (bit_vector);
    assert(checksum1(s) == a);
    assert(checksum2(s) == b);
    assert(s.update(0x13, SRAM_FIXED) =~= s);
    assert(checksummed(s) =~= s);
}

/// Every transfer completes at once, whatever it does: its start bit is cleared and
/// completion is flagged, the DMA registers of its channel and all registers of the
/// other channels stay, and so do the selected devices. A copy is asked for exactly by a
/// DMA read of SRAM on channel 0, from the position that the command names to the place
/// that the DMA registers name.
pub proof fn transfers_complete(exi: ExiView, ch: int, cr: u32, unix_ms: u64)
    requires
        exi.wf(),
        0 <= ch < 3,
    ensures
        ({
            let c = exi.channels[ch];
            let (after, dma) = exi.transferred(ch, cr, unix_ms);
            &&& after.channels.len() == 3
            &&& after.channels[ch].control == c.control & !1u32
            &&& after.channels[ch].param == c.param | EXI_XFER_INT
            &&& after.channels[ch].dma_base == c.dma_base
            &&& after.channels[ch].dma_length == c.dma_length
            &&& forall|other: int|
                0 <= other < 3 && other != ch ==> #[trigger] after.channels[other]
                    == exi.channels[other]
            &&& after.prev_device_sel == exi.prev_device_sel
            &&& dma is Some <==> ch == 0 && c.device() == 2 && transfer_is_dma(cr)
                && transfer_direction(cr) == 0 && reads_sram(c.data)
            &&& dma matches Some(copy) ==> copy == (ExiSramDma {
                ram_addr: c.dma_base,
                length: c.dma_length,
                sram_offset: sram_position(c.data) as usize,
            })
        }),
{
}

/// Text sent to the debug port comes out of it: after the command, every word that
/// is not itself a command adds its bytes to the output.
pub proof fn uart_collects(exi: ExiView, cr: u32, word: u32, unix_ms: u64)
    requires
        exi.wf(),
        exi.channels[0].data == CMD_WRITE_UART,
        transfer_direction(cr) == 1,
        word != CMD_SET_CLOCK,
        word != CMD_WRITE_UART,
        !writes_sram(word),
    ensures
        ({
            let armed = exi.system_transferred(cr, unix_ms).0;
            let next = armed.with_channel(0, ExiChannel { data: word, ..armed.channels[0] });
            next.system_transferred(cr, unix_ms).0.uart_output == exi.uart_output + uart_kept(
                word,
                at_most_four(transfer_bytes(cr)),
            )
        }),
{
}

/// The clock keeps the value that its first read gave it.
pub proof fn clock_is_latched(exi: ExiView, cr: u32, first: u64, later: u64)
    requires
        exi.wf(),
        exi.channels[0].data == CMD_READ_CLOCK,
        transfer_direction(cr) == 0,
    ensures
        ({
            let once = exi.system_transferred(cr, first).0;
            let again = once.with_channel(
                0,
                ExiChannel { data: CMD_READ_CLOCK, ..once.channels[0] },
            ).system_transferred(cr, later).0;
            &&& once.channels[0].data == once.rtc
            &&& once.rtc != 0 ==> again.channels[0].data == once.channels[0].data
        }),
{
}

} // verus!
