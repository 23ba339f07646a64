//! Memory cards.
//!
//! The host selects the card, sends a command byte and three address bytes, and
//! then transfers data; deselecting the card ends the exchange. Bytes stand
//! left-aligned in a word, the first byte in bits 31 to 24.
//!
//! | Command | Meaning                                   |
//! |---------|-------------------------------------------|
//! | 0x52    | Read                                      |
//! | 0xF1    | Write                                     |
//! | 0xF2    | Erase the 16 KiB block of the address     |

use vstd::prelude::*;

use crate::bytes::be_byte;

verus! {

/// Bytes on a card.
pub const MC_SIZE: usize = 0x8_0000;

/// What a card replies when it is read without a command.
pub const MC_DEVICE_ID: u32 = 0xC204_0000;

pub const MC_CMD_READ: u8 = 0x52;

pub const MC_CMD_WRITE: u8 = 0xF1;

pub const MC_CMD_ERASE: u8 = 0xF2;

/// Bytes that are erased together.
pub const MC_ERASE_SIZE: usize = 0x4000;

/// Most bytes of one transfer: the number of their bits fits a word.
pub const MC_MAX_TRANSFER: usize = 0x1FFF_FFFF;

/// Where the exchange with a card stands.
#[derive(Clone, Copy, Debug, PartialEq, Eq, Structural)]
pub enum McPhase {
    /// No command was sent.
    Idle,
    /// The command was sent; address bytes follow.
    GotCmd,
    /// The address is complete; data follow.
    DataXfer,
}

/// A memory card.
pub struct MemCard {
    /// The stored bytes.
    pub data: Vec<u8>,
    pub phase: McPhase,
    pub cmd: u8,
    /// The address as far as it was sent.
    pub addr: u32,
    /// Number of address bytes that were sent.
    pub addr_bytes: u8,
    /// Bytes transferred since the address was complete.
    pub xfer_pos: u32,
}

/// A memory card, with its bytes as a sequence.
#[verifier::ext_equal]
pub struct CardView {
    pub data: Seq<u8>,
    pub phase: McPhase,
    pub cmd: u8,
    pub addr: u32,
    pub addr_bytes: u8,
    pub xfer_pos: u32,
}

impl View for MemCard {
    type V = CardView;

    open spec fn view(&self) -> CardView {
        CardView {
            data: self.data@,
            phase: self.phase,
            cmd: self.cmd,
            addr: self.addr,
            addr_bytes: self.addr_bytes,
            xfer_pos: self.xfer_pos,
        }
    }
}

/// Byte `i` of a word sent to the card; past the word its last byte is repeated.
pub open spec fn sent_byte(data_in: u32, i: int) -> u8 {
    if i < 4 {
        be_byte(data_in, i)
    } else {
        be_byte(data_in, 3)
    }
}

/// `addr` with the first `n` bytes of `data_in` shifted in.
pub open spec fn address_extended(addr: u32, data_in: u32, n: nat) -> u32
    decreases n,
{
    if n == 0 {
        addr
    } else {
        (address_extended(addr, data_in, (n - 1) as nat) << 8) | (be_byte(
            data_in,
            n - 1,
        ) as u32)
    }
}

/// `n` bytes of the card from position `at` on, round its end; a word holds the
/// last four.
pub open spec fn gathered(data: Seq<u8>, at: int, n: nat) -> u32
    decreases n,
{
    if n == 0 {
        0
    } else {
        (gathered(data, at, (n - 1) as nat) << 8) | (data[(at + n - 1) % MC_SIZE as int] as u32)
    }
}

/// The bytes of the card after `n` bytes were stored from position `at` on.
pub open spec fn scattered(data: Seq<u8>, at: int, data_in: u32, n: nat) -> Seq<u8>
    decreases n,
{
    if n == 0 {
        data
    } else {
        scattered(data, at, data_in, (n - 1) as nat).update(
            (at + n - 1) % MC_SIZE as int,
            sent_byte(data_in, n - 1),
        )
    }
}

/// `word` with its `n` bytes left-aligned.
pub open spec fn aligned(word: u32, n: nat) -> u32 {
    if n >= 4 {
        word
    } else {
        word << ((32 - 8 * n) as u32)
    }
}

impl CardView {
    /// Whether the card has all its bytes.
    pub open spec fn wf(self) -> bool {
        self.data.len() == MC_SIZE
    }

    /// Position on the card that the next byte is transferred from or to.
    pub open spec fn position(self) -> int {
        self.base() + self.xfer_pos
    }

    /// The address, kept on the card.
    pub open spec fn base(self) -> int {
        if self.addr < MC_SIZE {
            self.addr as int
        } else {
            MC_SIZE - 1
        }
    }

    /// Whether `bytes` bytes can be transferred at once: data are counted in bits, and a
    /// word of no data cannot be aligned.
    pub open spec fn can_transfer(self, bytes: nat) -> bool {
        self.phase == McPhase::DataXfer ==> {
            &&& self.cmd == MC_CMD_READ ==> 1 <= bytes <= MC_MAX_TRANSFER
            &&& self.cmd == MC_CMD_WRITE ==> bytes <= MC_MAX_TRANSFER
        }
    }

    /// What a transfer of `bytes` bytes leaves, and the word that the host
    /// receives. The host reads if `rw` is 0.
    pub open spec fn handled(self, rw: u32, bytes: nat, data_in: u32) -> (CardView, u32) {
        match self.phase {
            McPhase::Idle => if rw == 0 {
                (self, MC_DEVICE_ID)
            } else {
                (
                    CardView {
                        cmd: (data_in >> 24) as u8,
                        addr: 0,
                        addr_bytes: 0,
                        xfer_pos: 0,
                        phase: McPhase::GotCmd,
                        ..self
                    },
                    0,
                )
            },
            McPhase::GotCmd => if rw == 1 {
                (self.addressed(bytes, data_in), 0)
            } else {
                (self, 0)
            },
            McPhase::DataXfer => if self.cmd == MC_CMD_READ {
                (
                    self.moved(bytes),
                    aligned(gathered(self.data, self.position(), bytes), bytes),
                )
            } else if self.cmd == MC_CMD_WRITE {
                (
                    CardView {
                        data: scattered(self.data, self.position(), data_in, bytes),
                        ..self.moved(bytes)
                    },
                    0,
                )
            } else if self.cmd == MC_CMD_ERASE {
                (
                    CardView {
                        data: erased(self.data, self.base()),
                        phase: McPhase::Idle,
                        ..self
                    },
                    0,
                )
            } else {
                (self, 0)
            },
        }
    }

    /// The card after up to `bytes` address bytes: data follow once there are
    /// three.
    pub open spec fn addressed(self, bytes: nat, data_in: u32) -> CardView {
        let room: nat = if self.addr_bytes >= 3 {
            0
        } else {
            (3 - self.addr_bytes) as nat
        };
        let n: nat = if bytes < room {
            bytes
        } else {
            room
        };
        let complete = self.addr_bytes + n >= 3;
        CardView {
            addr: address_extended(self.addr, data_in, n),
            addr_bytes: (self.addr_bytes + n) as u8,
            xfer_pos: if complete {
                0
            } else {
                self.xfer_pos
            },
            phase: if complete {
                McPhase::DataXfer
            } else {
                McPhase::GotCmd
            },
            ..self
        }
    }

    /// The card after `bytes` bytes of data.
    pub open spec fn moved(self, bytes: nat) -> CardView {
        CardView { xfer_pos: ((self.xfer_pos + bytes) % 0x1_0000_0000) as u32, ..self }
    }

    /// The card after it was deselected.
    pub open spec fn deselected(self) -> CardView {
        CardView { phase: McPhase::Idle, addr_bytes: 0, xfer_pos: 0, ..self }
    }
}

/// The bytes after the block that holds position `at` was erased.
pub open spec fn erased(data: Seq<u8>, at: int) -> Seq<u8> {
    let block = at / MC_ERASE_SIZE as int * MC_ERASE_SIZE;
    Seq::new(
        data.len(),
        |i: int|
            if block <= i < block + MC_ERASE_SIZE {
                0xFFu8
            } else {
                data[i]
            },
    )
}

/// A card with nothing on it.
pub open spec fn blank_card() -> CardView {
    CardView {
        data: Seq::new(MC_SIZE as nat, |i: int| 0xFFu8),
        phase: McPhase::Idle,
        cmd: 0,
        addr: 0,
        addr_bytes: 0,
        xfer_pos: 0,
    }
}

/// A vector of `len` equal bytes.
pub fn filled(len: usize, value: u8) -> (bytes: Vec<u8>)
    ensures
        bytes@ == Seq::new(len as nat, |i: int| value),
{
    let bytes: Vec<u8> = vec![value; len];
    assert(bytes@ =~= Seq::new(len as nat, |i: int| value));
    bytes
}

fn byte_at(word: u32, i: usize) -> (byte: u8)
    requires
        i < 4,
    ensures
        byte == be_byte(word, i as int),
{
    (word >> (24 - 8 * (i as u32))) as u8
}

impl MemCard {
    /// Carries out one transfer of `bytes` bytes; gives the word that the host
    /// receives. The host reads if `rw` is 0 and sends `data_in` if it is 1.
    pub fn handle(&mut self, rw: u32, bytes: usize, data_in: u32) -> (word: u32)
        requires
            old(self)@.wf(),
            old(self)@.can_transfer(bytes as nat),
        ensures
            (final(self)@, word) == old(self)@.handled(rw, bytes as nat, data_in),
            final(self)@.wf(),
    {
        match self.phase {
            McPhase::Idle => {
                if rw == 0 {
                    return MC_DEVICE_ID;
                }
                self.cmd = (data_in >> 24) as u8;
                self.addr = 0;
                self.addr_bytes = 0;
                self.xfer_pos = 0;
                self.phase = McPhase::GotCmd;
                0
            },
            McPhase::GotCmd => {
                if rw == 1 {
                    self.take_address(bytes, data_in);
                }
                0
            },
            McPhase::DataXfer => {
                if self.cmd == MC_CMD_READ {
                    self.read_data(bytes)
                } else if self.cmd == MC_CMD_WRITE {
                    self.write_data(bytes, data_in);
                    0
                } else if self.cmd == MC_CMD_ERASE {
                    self.erase_block();
                    self.phase = McPhase::Idle;
                    0
                } else {
                    0
                }
            },
        }
    }

    fn take_address(&mut self, bytes: usize, data_in: u32)
        ensures
            final(self)@ == (CardView {
                phase: if final(self)@.addr_bytes >= 3 {
                    McPhase::DataXfer
                } else {
                    old(self)@.phase
                },
                ..old(self)@.addressed(bytes as nat, data_in)
            }),
    {
        let room: usize = if self.addr_bytes >= 3 { 0 } else { 3 - self.addr_bytes as usize };
        let n: usize = if bytes < room { bytes } else { room };
        let mut i: usize = 0;
        while i < n
            invariant
                i <= n <= 3,
                old(self).addr_bytes + n <= 3 || n == 0,
                self@ == (CardView {
                    addr: address_extended(old(self)@.addr, data_in, i as nat),
                    addr_bytes: (old(self)@.addr_bytes + i) as u8,
                    ..old(self)@
                }),
            decreases n - i,
        {
            self.addr = (self.addr << 8) | (byte_at(data_in, i) as u32);
            self.addr_bytes = self.addr_bytes + 1;
            i = i + 1;
        }
        if self.addr_bytes >= 3 {
            self.xfer_pos = 0;
            self.phase = McPhase::DataXfer;
        }
    }

    fn card_addr(&self) -> (addr: usize)
        ensures
            addr == self@.base(),
    {
        if (self.addr as usize) < MC_SIZE {
            self.addr as usize
        } else {
            MC_SIZE - 1
        }
    }

    fn read_data(&mut self, bytes: usize) -> (word: u32)
        requires
            old(self)@.wf(),
            1 <= bytes <= MC_MAX_TRANSFER,
        ensures
            final(self)@ == old(self)@.moved(bytes as nat),
            word == aligned(
                gathered(old(self)@.data, old(self)@.position(), bytes as nat),
                bytes as nat,
            ),
    {
        let start: u64 = self.card_addr() as u64 + self.xfer_pos as u64;
        let mut result: u32 = 0;
        let mut i: usize = 0;
        while i < bytes
            invariant
                i <= bytes <= MC_MAX_TRANSFER,
                start == self@.position(),
                start < 0x2_0000_0000,
                self@ == old(self)@,
                self@.wf(),
                result == gathered(self@.data, start as int, i as nat),
            decreases bytes - i,
        {
            let pos: usize = ((start + i as u64) % (MC_SIZE as u64)) as usize;
            result = (result << 8) | (self.data[pos] as u32);
            i = i + 1;
        }
        self.xfer_pos = self.xfer_pos.wrapping_add(bytes as u32);
        if bytes >= 4 {
            result
        } else {
            result << (32 - 8 * (bytes as u32))
        }
    }

    fn write_data(&mut self, bytes: usize, data_in: u32)
        requires
            old(self)@.wf(),
            bytes <= MC_MAX_TRANSFER,
        ensures
            final(self)@ == (CardView {
                data: scattered(old(self)@.data, old(self)@.position(), data_in, bytes as nat),
                ..old(self)@.moved(bytes as nat)
            }),
            final(self)@.wf(),
    {
        let start: u64 = self.card_addr() as u64 + self.xfer_pos as u64;
        let mut i: usize = 0;
        while i < bytes
            invariant
                i <= bytes <= MC_MAX_TRANSFER,
                start == old(self)@.position(),
                start < 0x2_0000_0000,
                self@.wf(),
                self@ == (CardView {
                    data: scattered(old(self)@.data, start as int, data_in, i as nat),
                    ..old(self)@
                }),
            decreases bytes - i,
        {
            let pos: usize = ((start + i as u64) % (MC_SIZE as u64)) as usize;
            let byte: u8 = if i < 4 { byte_at(data_in, i) } else { byte_at(data_in, 3) };
            self.data.set(pos, byte);
            i = i + 1;
        }
        self.xfer_pos = self.xfer_pos.wrapping_add(bytes as u32);
    }

    fn erase_block(&mut self)
        requires
            old(self)@.wf(),
        ensures
            final(self)@ == (CardView {
                data: erased(old(self)@.data, old(self)@.base()),
                ..old(self)@
            }),
            final(self)@.wf(),
    {
        let block: usize = self.card_addr() / MC_ERASE_SIZE * MC_ERASE_SIZE;
        let mut i: usize = block;
        while i < block + MC_ERASE_SIZE
            invariant
                block == old(self)@.base() / MC_ERASE_SIZE as int * MC_ERASE_SIZE,
                block + MC_ERASE_SIZE <= MC_SIZE,
                block <= i <= block + MC_ERASE_SIZE,
                old(self)@.wf(),
                self@.wf(),
                self@ == (CardView { data: self@.data, ..old(self)@ }),
                forall|k: int|
                    0 <= k < MC_SIZE ==> #[trigger] self@.data[k] == if block <= k < i {
                        0xFFu8
                    } else {
                        old(self)@.data[k]
                    },
            decreases block + MC_ERASE_SIZE - i,
        {
            self.data.set(i, 0xFF);
            i = i + 1;
        }
    }

    /// Ends the exchange: the card was deselected.
    pub fn reset_phase(&mut self)
        ensures
            final(self)@ == old(self)@.deselected(),
    {
        self.phase = McPhase::Idle;
        self.addr_bytes = 0;
        self.xfer_pos = 0;
    }
}

impl Default for MemCard {
    /// A card with nothing on it.
    fn default() -> (card: Self)
        ensures
            card@ == blank_card(),
    {
        MemCard {
            data: filled(MC_SIZE, 0xFF),
            phase: McPhase::Idle,
            cmd: 0,
            addr: 0,
            addr_bytes: 0,
            xfer_pos: 0,
        }
    }
}

/// A card that was just deselected answers a read with its identity, whatever the
/// exchange before and however many bytes are asked for. Nothing on it changes, and it
/// answers the same again.
pub proof fn card_answers_probe(card: CardView, bytes: nat, data_in: u32)
    ensures
        ({
            let idle = card.deselected();
            &&& idle.phase == McPhase::Idle
            &&& idle.data == card.data
            &&& idle.handled(0, bytes, data_in) == (idle, MC_DEVICE_ID)
        }),
{
}

/// Sending a command byte and three address bytes to an idle card, each in a
/// transfer of its own, sets up the data transfer at that address.
pub proof fn card_is_addressed(card: CardView, cmd: u8, a: u8, b: u8, c: u8)
    requires
        card.phase == McPhase::Idle,
    ensures
        ({
            let c0 = card.handled(1, 1, (cmd as u32) << 24).0;
            let c1 = c0.handled(1, 1, (a as u32) << 24).0;
            let c2 = c1.handled(1, 1, (b as u32) << 24).0;
            let c3 = c2.handled(1, 1, (c as u32) << 24).0;
            c3 == (CardView {
                cmd,
                addr: ((a as u32) << 16) | ((b as u32) << 8) | (c as u32),
                addr_bytes: 3,
                xfer_pos: 0,
                phase: McPhase::DataXfer,
                ..card
            })
        }),
{
    reveal_with_fuel(address_extended, 2);
    assert((((cmd as u32) << 24) >> 24) as u8 == cmd && (((a as u32) << 24) >> 24) as u8 == a && (((
    b as u32) << 24) >> 24) as u8 == b && (((c as u32) << 24) >> 24) as u8 == c && ((((((0u32 << 8)
        | (a as u32)) << 8) | (b as u32)) << 8) | (c as u32)) == ((a as u32) << 16) | ((b as u32)
        << 8) | (c as u32)) by (bit_vector);
}

/// What a transfer stores: the bytes sent, in order from the position on, and
/// nothing else changes.
pub proof fn card_stores(data: Seq<u8>, at: int, data_in: u32, n: nat, k: int)
    requires
        data.len() == MC_SIZE,
        0 <= at,
        n <= MC_SIZE,
        0 <= k < MC_SIZE,
    ensures
        scattered(data, at, data_in, n).len() == MC_SIZE,
        forall|i: int|
            0 <= i < n ==> scattered(data, at, data_in, n)[#[trigger] ((at + i)
                % MC_SIZE as int)] == sent_byte(data_in, i),
        (forall|i: int| 0 <= i < n ==> #[trigger] ((at + i) % MC_SIZE as int) != k) ==> scattered(
            data,
            at,
            data_in,
            n,
        )[k] == data[k],
    decreases n,
{
    if n > 0 {
        card_stores(data, at, data_in, (n - 1) as nat, k);
        let before = scattered(data, at, data_in, (n - 1) as nat);
        let last = (at + n - 1) % MC_SIZE as int;
        assert(last == (at + (n - 1)) % MC_SIZE as int);
        assert forall|i: int| 0 <= i < n implies scattered(data, at, data_in, n)[#[trigger] ((at
            + i) % MC_SIZE as int)] == sent_byte(data_in, i) by {
            if i < n - 1 {
                assert((at + i) % MC_SIZE as int != last);
            }
        }
    }
}

/// What a transfer of up to four bytes reads: the bytes of the card, in order from
/// the position on, then zeros.
pub proof fn card_reads(data: Seq<u8>, at: int, n: nat, i: int)
    requires
        n <= 4,
        0 <= i < 4,
    ensures
        be_byte(aligned(gathered(data, at, n), n), i) == if i < n {
            data[(at + i) % MC_SIZE as int]
        } else {
            0
        },
{
    reveal_with_fuel(gathered, 5);
    let a = data[at % MC_SIZE as int];
    let b = data[(at + 1) % MC_SIZE as int];
    let c = data[(at + 2) % MC_SIZE as int];
    let d = data[(at + 3) % MC_SIZE as int];
    assert(at + 0 == at);
    lemma_bytes_of(a, b, c, d);
    assert(n == 0 || n == 1 || n == 2 || n == 3 || n == 4);
    assert(i == 0 || i == 1 || i == 2 || i == 3);
}

proof fn lemma_bytes_of(a: u8, b: u8, c: u8, d: u8)
    ensures
        ({
            let w1 = (0u32 << 8) | (a as u32);
            let w2 = (w1 << 8) | (b as u32);
            let w3 = (w2 << 8) | (c as u32);
            let w4 = (w3 << 8) | (d as u32);
            let l0 = 0u32 << 32;
            let l1 = w1 << 24;
            let l2 = w2 << 16;
            let l3 = w3 << 8;
            &&& (l0 >> 24) as u8 == 0 && (l0 >> 16) as u8 == 0 && (l0 >> 8) as u8 == 0 && (l0
                >> 0) as u8 == 0
            &&& (l1 >> 24) as u8 == a && (l1 >> 16) as u8 == 0 && (l1 >> 8) as u8 == 0 && (l1
                >> 0) as u8 == 0
            &&& (l2 >> 24) as u8 == a && (l2 >> 16) as u8 == b && (l2 >> 8) as u8 == 0 && (l2
                >> 0) as u8 == 0
            &&& (l3 >> 24) as u8 == a && (l3 >> 16) as u8 == b && (l3 >> 8) as u8 == c && (l3
                >> 0) as u8 == 0
            &&& (w4 >> 24) as u8 == a && (w4 >> 16) as u8 == b && (w4 >> 8) as u8 == c && (w4
                >> 0) as u8 == d
        }),
{
    assert({
        let w1 = (0u32 << 8) | (a as u32);
        let w2 = (w1 << 8) | (b as u32);
        let w3 = (w2 << 8) | (c as u32);
        let w4 = (w3 << 8) | (d as u32);
        let l0 = 0u32 << 32;
        let l1 = w1 << 24;
        let l2 = w2 << 16;
        let l3 = w3 << 8;
        &&& (l0 >> 24) as u8 == 0 && (l0 >> 16) as u8 == 0 && (l0 >> 8) as u8 == 0 && (l0
            >> 0) as u8 == 0
        &&& (l1 >> 24) as u8 == a && (l1 >> 16) as u8 == 0 && (l1 >> 8) as u8 == 0 && (l1
            >> 0) as u8 == 0
        &&& (l2 >> 24) as u8 == a && (l2 >> 16) as u8 == b && (l2 >> 8) as u8 == 0 && (l2
            >> 0) as u8 == 0
        &&& (l3 >> 24) as u8 == a && (l3 >> 16) as u8 == b && (l3 >> 8) as u8 == c && (l3
            >> 0) as u8 == 0
        &&& (w4 >> 24) as u8 == a && (w4 >> 16) as u8 == b && (w4 >> 8) as u8 == c && (w4
            >> 0) as u8 == d
    }) by (bit_vector);
}

/// What was written to a card is read back from the same address: the word that
/// comes back holds the bytes that were sent, then zeros.
pub proof fn card_reads_back(data: Seq<u8>, at: int, data_in: u32, n: nat, i: int)
    requires
        data.len() == MC_SIZE,
        0 <= at,
        n <= 4,
        0 <= i < 4,
    ensures
        be_byte(aligned(gathered(scattered(data, at, data_in, n), at, n), n), i) == if i < n {
            be_byte(data_in, i)
        } else {
            0
        },
{
    let stored = scattered(data, at, data_in, n);
    card_stores(data, at, data_in, n, 0);
    card_reads(stored, at, n, i);
    assert(i < n ==> stored[(at + i) % MC_SIZE as int] == sent_byte(data_in, i));
}

} // verus!
