//! Serial Interface (SI) registers and the controller behind them.
//!
//! A command is put in the output buffer of a channel and started by setting bit 0
//! of SICOMCSR; bits 1 and 2 name the channel. The reply is in the input buffer at
//! once, and bit 31 of SICOMCSR is set. Channel 0 has a standard controller, the
//! others have none.
//!
//! | Offset      | Name     | Description                                |
//! |-------------|----------|--------------------------------------------|
//! | 12 n        | SIOUTBUF | Output buffer of channel n                 |
//! | 12 n + 4    | SIINBUFH | Input buffer of channel n, bytes 0 to 3    |
//! | 12 n + 8    | SIINBUFL | Input buffer of channel n, bytes 4 to 7    |
//! | 0x30        | SIPOLL   | Polling configuration                      |
//! | 0x34        | SICOMCSR | Communication control and status           |
//! | 0x38        | SISR     | Status, write 1 clears                     |
//! | 0x3C        | SIEXILK  | Clock lock                                 |
//! | 0x80 - 0xFF | SIBUFREG | Raw transfer buffer                        |
//!
//! The reply to a poll is eight bytes:
//!
//! | Byte | Contents                                           |
//! |------|----------------------------------------------------|
//! | 0    | 0, 0, 0, Start, Y, X, B, A                         |
//! | 1    | 1, L, R, Z, up, down, right, left                  |
//! | 2, 3 | Main stick X and Y (centre 128, up is larger)      |
//! | 4, 5 | C-stick X and Y                                    |
//! | 6, 7 | Left and right trigger                             |

use vstd::prelude::*;

use crate::bytes::{be32, be_byte, word_be};

verus! {

/// Address of the first SI register.
pub const SI_BASE: u32 = 0xCC00_6400;

/// Bytes covered by the SI registers.
pub const SI_SIZE: u32 = 0x100;

/// Bits of SICOMCSR that are cleared by writing 1: transfer and read interrupt.
pub const SI_COMM_W1C: u32 = 0x9000_0000;

/// Reply of a standard controller to the question what it is.
pub const SI_STANDARD_CONTROLLER: u32 = 0x0900_2000;

pub const BTN_A: u32 = 0x0001;

pub const BTN_B: u32 = 0x0002;

pub const BTN_X: u32 = 0x0004;

pub const BTN_Y: u32 = 0x0008;

pub const BTN_Z: u32 = 0x0010;

pub const BTN_START: u32 = 0x0020;

pub const BTN_UP: u32 = 0x0040;

pub const BTN_DOWN: u32 = 0x0080;

pub const BTN_LEFT: u32 = 0x0100;

pub const BTN_RIGHT: u32 = 0x0200;

pub const BTN_L: u32 = 0x0400;

pub const BTN_R: u32 = 0x0800;

/// The Serial Interface registers and the position of the controller's sticks.
pub struct SiState {
    /// Output buffers.
    pub out_buf: [u32; 4],
    /// Input buffers, bytes 0 to 3.
    pub in_buf_hi: [u32; 4],
    /// Input buffers, bytes 4 to 7.
    pub in_buf_lo: [u32; 4],
    /// SIPOLL.
    pub poll: u32,
    /// SICOMCSR.
    pub comm_ctrl: u32,
    /// SISR.
    pub status: u32,
    /// SIEXILK.
    pub exi_clock_lock: u32,
    /// SIBUFREG.
    pub si_buf: [u8; 128],
    /// Main stick, horizontal.
    pub joy_x: u8,
    /// Main stick, vertical.
    pub joy_y: u8,
    /// C-stick, horizontal.
    pub c_stick_x: u8,
    /// C-stick, vertical.
    pub c_stick_y: u8,
    /// Left trigger.
    pub l_trig: u8,
    /// Right trigger.
    pub r_trig: u8,
}

/// The registers, with arrays as sequences.
#[verifier::ext_equal]
pub struct SiView {
    pub out_buf: Seq<u32>,
    pub in_buf_hi: Seq<u32>,
    pub in_buf_lo: Seq<u32>,
    pub poll: u32,
    pub comm_ctrl: u32,
    pub status: u32,
    pub exi_clock_lock: u32,
    pub si_buf: Seq<u8>,
    pub axes: Axes,
}

/// Position of the sticks and triggers.
#[derive(Clone, Copy, PartialEq, Eq, Structural)]
pub struct Axes {
    pub joy_x: u8,
    pub joy_y: u8,
    pub c_stick_x: u8,
    pub c_stick_y: u8,
    pub l_trig: u8,
    pub r_trig: u8,
}

impl View for SiState {
    type V = SiView;

    open spec fn view(&self) -> SiView {
        SiView {
            out_buf: self.out_buf@,
            in_buf_hi: self.in_buf_hi@,
            in_buf_lo: self.in_buf_lo@,
            poll: self.poll,
            comm_ctrl: self.comm_ctrl,
            status: self.status,
            exi_clock_lock: self.exi_clock_lock,
            si_buf: self.si_buf@,
            axes: Axes {
                joy_x: self.joy_x,
                joy_y: self.joy_y,
                c_stick_x: self.c_stick_x,
                c_stick_y: self.c_stick_y,
                l_trig: self.l_trig,
                r_trig: self.r_trig,
            },
        }
    }
}

/// `bit` if button `button` is held, else 0.
pub open spec fn held(pad: u32, button: u32, bit: u8) -> u8 {
    if pad & button != 0 {
        bit
    } else {
        0
    }
}

/// First byte of the reply to a poll.
pub open spec fn poll_byte0(pad: u32) -> u8 {
    held(pad, BTN_A, 1) | held(pad, BTN_B, 2) | held(pad, BTN_X, 4) | held(pad, BTN_Y, 8) | held(
        pad,
        BTN_START,
        16,
    )
}

/// Second byte of the reply to a poll.
pub open spec fn poll_byte1(pad: u32) -> u8 {
    0x80u8 | held(pad, BTN_LEFT, 1) | held(pad, BTN_RIGHT, 2) | held(pad, BTN_DOWN, 4) | held(
        pad,
        BTN_UP,
        8,
    ) | held(pad, BTN_Z, 16) | held(pad, BTN_R, 32) | held(pad, BTN_L, 64)
}

/// The reply to a poll.
pub open spec fn poll_response(pad: u32, axes: Axes) -> Seq<u8> {
    seq![
        poll_byte0(pad),
        poll_byte1(pad),
        axes.joy_x,
        axes.joy_y,
        axes.c_stick_x,
        axes.c_stick_y,
        axes.l_trig,
        axes.r_trig,
    ]
}

impl SiView {
    /// Value of the word register at `offset`.
    pub open spec fn reg(self, offset: u32) -> u32 {
        if offset < 0x30 {
            if offset % 12 == 0 {
                self.out_buf[offset as int / 12]
            } else if offset % 12 == 4 {
                self.in_buf_hi[offset as int / 12]
            } else if offset % 12 == 8 {
                self.in_buf_lo[offset as int / 12]
            } else {
                0
            }
        } else if offset == 0x30 {
            self.poll
        } else if offset == 0x34 {
            self.comm_ctrl
        } else if offset == 0x38 {
            self.status
        } else if offset == 0x3C {
            self.exi_clock_lock
        } else if 0x80 <= offset <= 0xFC {
            let at = offset - 0x80;
            be32(self.si_buf[at], self.si_buf[at + 1], self.si_buf[at + 2], self.si_buf[at + 3])
        } else {
            0
        }
    }

    /// Whether writing `val` at `offset` starts a transfer.
    pub open spec fn starts(offset: u32, val: u32) -> bool {
        offset == 0x34 && val & 1 != 0
    }

    /// What `channel` replies to the command in its output buffer: the first and
    /// the second word.
    pub open spec fn reply(self, channel: int, pad: u32) -> (u32, u32) {
        let cmd = (self.out_buf[channel] >> 24) as u8;
        if channel != 0 {
            (0, 0)
        } else if cmd == 0 {
            (SI_STANDARD_CONTROLLER, 0)
        } else if 0x40 <= cmd <= 0x42 {
            let r = poll_response(pad, self.axes);
            (be32(r[0], r[1], r[2], r[3]), be32(r[4], r[5], r[6], r[7]))
        } else {
            (0, 0)
        }
    }

    /// The registers after `channel` has replied.
    pub open spec fn responded(self, channel: int, pad: u32) -> SiView {
        let (hi, lo) = self.reply(channel, pad);
        SiView {
            in_buf_hi: self.in_buf_hi.update(channel, hi),
            in_buf_lo: self.in_buf_lo.update(channel, lo),
            ..self
        }
    }

    /// The registers after `val` was written at `offset`, with buttons `pad` held.
    pub open spec fn written(self, offset: u32, val: u32, pad: u32) -> SiView {
        if offset < 0x30 {
            let n = offset as int / 12;
            if offset % 12 == 0 {
                SiView { out_buf: self.out_buf.update(n, val), ..self }
            } else if offset % 12 == 4 {
                SiView { in_buf_hi: self.in_buf_hi.update(n, val), ..self }
            } else if offset % 12 == 8 {
                SiView { in_buf_lo: self.in_buf_lo.update(n, val), ..self }
            } else {
                self
            }
        } else if offset == 0x30 {
            SiView { poll: val, ..self }
        } else if offset == 0x34 {
            let merged = (self.comm_ctrl & SI_COMM_W1C & !val) | (val & !SI_COMM_W1C);
            if val & 1 != 0 {
                SiView {
                    comm_ctrl: (merged & !1u32) | 0x8000_0000,
                    ..self.responded(((val >> 1) & 3) as int, pad)
                }
            } else {
                SiView { comm_ctrl: merged, ..self }
            }
        } else if offset == 0x38 {
            SiView { status: self.status & !val, ..self }
        } else if offset == 0x3C {
            SiView { exi_clock_lock: val, ..self }
        } else if 0x80 <= offset <= 0xFC {
            let at = offset - 0x80;
            SiView {
                si_buf: self.si_buf.update(at, be_byte(val, 0)).update(
                    at + 1,
                    be_byte(val, 1),
                ).update(at + 2, be_byte(val, 2)).update(at + 3, be_byte(val, 3)),
                ..self
            }
        } else {
            self
        }
    }
}

fn when_held(pad: u32, button: u32, bit: u8) -> (result: u8)
    ensures
        result == held(pad, button, bit),
{
    if pad & button != 0 {
        bit
    } else {
        0
    }
}

/// The reply to a poll: the buttons as the controller sends them, then the axes.
pub fn build_poll_response(pad: u32, axes: Axes) -> (response: [u8; 8])
    ensures
        response@ == poll_response(pad, axes),
{
    let b0: u8 = when_held(pad, BTN_A, 1) | when_held(pad, BTN_B, 2) | when_held(pad, BTN_X, 4)
        | when_held(pad, BTN_Y, 8) | when_held(pad, BTN_START, 16);
    let b1: u8 = 0x80u8 | when_held(pad, BTN_LEFT, 1) | when_held(pad, BTN_RIGHT, 2) | when_held(
        pad,
        BTN_DOWN,
        4,
    ) | when_held(pad, BTN_UP, 8) | when_held(pad, BTN_Z, 16) | when_held(pad, BTN_R, 32)
        | when_held(pad, BTN_L, 64);
    [
        b0,
        b1,
        axes.joy_x,
        axes.joy_y,
        axes.c_stick_x,
        axes.c_stick_y,
        axes.l_trig,
        axes.r_trig,
    ]
}

/// A channel number has two bits.
proof fn lemma_channel(val: u32)
    ensures
        (val >> 1) & 3 < 4,
{
    assert((val >> 1) & 3 < 4) by (bit_vector);
}

impl SiState {
    /// Reads the word register at `offset`.
    pub fn read_u32(&self, offset: u32) -> (val: u32)
        ensures
            val == self@.reg(offset),
    {
        if offset < 0x30 {
            let n: usize = (offset / 12) as usize;
            match offset % 12 {
                0 => self.out_buf[n],
                4 => self.in_buf_hi[n],
                8 => self.in_buf_lo[n],
                _ => 0,
            }
        } else if 0x80 <= offset && offset <= 0xFC {
            let at: usize = (offset - 0x80) as usize;
            word_be(self.si_buf[at], self.si_buf[at + 1], self.si_buf[at + 2], self.si_buf[at + 3])
        } else {
            match offset {
                0x30 => self.poll,
                0x34 => self.comm_ctrl,
                0x38 => self.status,
                0x3C => self.exi_clock_lock,
                _ => 0,
            }
        }
    }

    /// Writes the word register at `offset`; gives whether a transfer took place.
    pub fn write_u32(&mut self, offset: u32, val: u32, pad_buttons: u32) -> (triggered: bool)
        ensures
            final(self)@ == old(self)@.written(offset, val, pad_buttons),
            triggered == SiView::starts(offset, val),
    {
        if offset < 0x30 {
            let n: usize = (offset / 12) as usize;
            match offset % 12 {
                0 => self.out_buf[n] = val,
                4 => self.in_buf_hi[n] = val,
                8 => self.in_buf_lo[n] = val,
                _ => {},
            }
        } else if 0x80 <= offset && offset <= 0xFC {
            let at: usize = (offset - 0x80) as usize;
            proof {
                crate::bytes::low_byte(val);
            }
            self.si_buf[at] = (val >> 24) as u8;
            self.si_buf[at + 1] = (val >> 16) as u8;
            self.si_buf[at + 2] = (val >> 8) as u8;
            self.si_buf[at + 3] = val as u8;
        } else {
            match offset {
                0x30 => self.poll = val,
                0x34 => {
                    let merged: u32 = (self.comm_ctrl & SI_COMM_W1C & !val) | (val & !SI_COMM_W1C);
                    self.comm_ctrl = merged;
                    if val & 1 != 0 {
                        proof {
                            lemma_channel(val);
                        }
                        let channel: usize = ((val >> 1) & 3) as usize;
                        self.auto_respond(channel, pad_buttons);
                        self.comm_ctrl = (merged & !1u32) | 0x8000_0000;
                        return true;
                    }
                },
                0x38 => self.status = self.status & !val,
                0x3C => self.exi_clock_lock = val,
                _ => {},
            }
        }
        false
    }

    /// Puts the reply of `channel` to its command in its input buffer.
    fn auto_respond(&mut self, channel: usize, pad_buttons: u32)
        requires
            channel < 4,
        ensures
            final(self)@ == old(self)@.responded(channel as int, pad_buttons),
    {
        let cmd: u8 = (self.out_buf[channel] >> 24) as u8;
        if channel != 0 {
            self.in_buf_hi[channel] = 0;
            self.in_buf_lo[channel] = 0;
        } else if cmd == 0 {
            self.in_buf_hi[channel] = SI_STANDARD_CONTROLLER;
            self.in_buf_lo[channel] = 0;
        } else if 0x40 <= cmd && cmd <= 0x42 {
            let axes = Axes {
                joy_x: self.joy_x,
                joy_y: self.joy_y,
                c_stick_x: self.c_stick_x,
                c_stick_y: self.c_stick_y,
                l_trig: self.l_trig,
                r_trig: self.r_trig,
            };
            let r: [u8; 8] = build_poll_response(pad_buttons, axes);
            self.in_buf_hi[channel] = word_be(r[0], r[1], r[2], r[3]);
            self.in_buf_lo[channel] = word_be(r[4], r[5], r[6], r[7]);
        } else {
            self.in_buf_hi[channel] = 0;
            self.in_buf_lo[channel] = 0;
        }
    }

    /// Sets the position of the sticks and triggers that polls report.
    pub fn set_analog_axes(
        &mut self,
        joy_x: u8,
        joy_y: u8,
        c_stick_x: u8,
        c_stick_y: u8,
        l_trig: u8,
        r_trig: u8,
    )
        ensures
            final(self)@ == (SiView {
                axes: Axes { joy_x, joy_y, c_stick_x, c_stick_y, l_trig, r_trig },
                ..old(self)@
            }),
    {
        self.joy_x = joy_x;
        self.joy_y = joy_y;
        self.c_stick_x = c_stick_x;
        self.c_stick_y = c_stick_y;
        self.l_trig = l_trig;
        self.r_trig = r_trig;
    }
}

/// Whether `si` is as at reset: registers zero, sticks centred, triggers released.
pub open spec fn si_at_reset(si: SiView) -> bool {
    si == (SiView {
        out_buf: Seq::new(4, |i: int| 0u32),
        in_buf_hi: Seq::new(4, |i: int| 0u32),
        in_buf_lo: Seq::new(4, |i: int| 0u32),
        poll: 0,
        comm_ctrl: 0,
        status: 0,
        exi_clock_lock: 0,
        si_buf: Seq::new(128, |i: int| 0u8),
        axes: Axes {
            joy_x: 128,
            joy_y: 128,
            c_stick_x: 128,
            c_stick_y: 128,
            l_trig: 0,
            r_trig: 0,
        },
    })
}

impl Default for SiState {
    /// The registers at reset.
    fn default() -> (si: Self)
        ensures
            si_at_reset(si@),
    {
        let si = SiState {
            out_buf: [0u32;4],
            in_buf_hi: [0u32;4],
            in_buf_lo: [0u32;4],
            poll: 0,
            comm_ctrl: 0,
            status: 0,
            exi_clock_lock: 0,
            si_buf: [0u8;128],
            joy_x: 128,
            joy_y: 128,
            c_stick_x: 128,
            c_stick_y: 128,
            l_trig: 0,
            r_trig: 0,
        };
        assert(si@.out_buf =~= Seq::new(4, |i: int| 0u32));
        assert(si@.in_buf_hi =~= Seq::new(4, |i: int| 0u32));
        assert(si@.in_buf_lo =~= Seq::new(4, |i: int| 0u32));
        assert(si@.si_buf =~= Seq::new(128, |i: int| 0u8));
        si
    }
}

/// A transfer on channel 0 that polls leaves the eight bytes of the reply in the
/// input buffer, flags the transfer and clears the start bit; on every other
/// channel the reply is empty.
pub proof fn si_poll_reports_pad(si: SiView, val: u32, pad: u32, i: int)
    requires
        si.out_buf.len() == 4,
        si.in_buf_hi.len() == 4,
        si.in_buf_lo.len() == 4,
        val & 1 != 0,
        0 <= i < 4,
    ensures
        ({
            let after = si.written(0x34, val, pad);
            let channel = ((val >> 1) & 3) as int;
            let cmd = (si.out_buf[0] >> 24) as u8;
            &&& after.comm_ctrl & 0x8000_0001 == 0x8000_0000
            &&& channel == 0 && 0x40 <= cmd <= 0x42 ==> {
                &&& be_byte(after.reg(4), i) == poll_response(pad, si.axes)[i]
                &&& be_byte(after.reg(8), i) == poll_response(pad, si.axes)[i + 4]
            }
            &&& channel != 0 ==> after.reg((12 * channel + 4) as u32) == 0 && after.reg(
                (12 * channel + 8) as u32,
            ) == 0
        }),
{
    lemma_channel(val);
    let m = (si.comm_ctrl & SI_COMM_W1C & !val) | (val & !SI_COMM_W1C);
    assert(((m & !1u32) | 0x8000_0000u32) & 0x8000_0001u32 == 0x8000_0000u32) by (bit_vector);
    let r = poll_response(pad, si.axes);
    crate::bytes::bytes_from_word(r[0], r[1], r[2], r[3]);
    crate::bytes::bytes_from_word(r[4], r[5], r[6], r[7]);
    assert(i == 0 || i == 1 || i == 2 || i == 3);
}

} // verus!
