//! Loading programs and discs.

use vstd::prelude::*;

use super::cache::{kept_outside, phys_addr, physical_address};
use super::di::DiState;
use super::disc::{
    disc_of, dol_complete, dol_has, dol_offset, dol_size, dol_target, flatten_disc_image, is_title,
    printable, printable_of, read_u32be, title_of, word_or_zero, DiscError, APPLOADER_HEADER,
    APPLOADER_ISO_OFFSET, DOL_HEADER, DOL_SECTIONS, GC_ISO_MAGIC, ISO_HEADER,
};
use super::emulator::{EmuView, WasmEmulator};
use super::hw::{copied, copy_bytes};
use crate::bytes::{be32_at, be_byte, be_bytes, byte_digits, byte_order, low_address, read_be32};

verus! {

/// Guest address that the loader program is put at.
pub const APPLOADER_LOAD_ADDR: u32 = 0x8120_0000;

/// Guest address that the header of a disc is put at.
pub const HEADER_LOAD_ADDR: u32 = 0x8000_0000;

/// Guest address of the values that the system finds when it starts.
pub const GLOBALS_ADDR: u32 = 0x8000_0020;

/// Bytes of the values that the system finds when it starts.
pub const GLOBALS_LEN: usize = 0xE0;

/// State of the lid when a disc is in the drive.
pub const COVER_CLOSED: u32 = 0x4;

/// What is known of a disc that was loaded.
pub struct DiscInfo {
    /// Title of the game.
    pub game_name: String,
    /// Identifier of the game.
    pub game_id: String,
    /// Entry point of the executable.
    pub dol_entry: u32,
    /// Entry point of the loader program.
    pub apploader_entry: u32,
}

/// Word `k` of the values that the system finds when it starts: magic number,
/// version, memory size, console type, bounds of free memory, and clock rates.
pub open spec fn globals_word(k: int) -> u32 {
    if k == 0 {
        0x0D15_EA5E
    } else if k == 1 {
        0x0000_0001
    } else if k == 2 {
        0x0180_0000
    } else if k == 3 {
        0x0000_0003
    } else if k == 4 {
        0x8042_E260
    } else if k == 5 || k == 6 {
        0x817F_E8C0
    } else if k == 7 {
        0x0000_0024
    } else if k == 44 {
        0x0100_0000
    } else if k == 54 {
        0x09A7_EC80
    } else if k == 55 {
        0x1CF7_C580
    } else {
        0
    }
}

/// The values that the system finds when it starts.
pub open spec fn globals() -> Seq<u8> {
    Seq::new(GLOBALS_LEN as nat, |i: int| be_byte(globals_word(i / 4), i % 4))
}

/// `n` zero bytes.
pub open spec fn zeros(n: int) -> Seq<u8> {
    Seq::new(n as nat, |i: int| 0u8)
}

/// Position of the executable on a disc.
pub open spec fn boot_position(disc: Seq<u8>) -> int {
    be32_at(disc, 0x420) as int
}

/// Entry point of the loader program on a disc.
pub open spec fn apploader_entry(disc: Seq<u8>) -> u32 {
    be32_at(disc, APPLOADER_ISO_OFFSET + 0x10)
}

/// Length of the loader program on a disc.
pub open spec fn apploader_size(disc: Seq<u8>) -> int {
    be32_at(disc, APPLOADER_ISO_OFFSET + 0x14) as int
}

/// Position of the loader program on a disc.
pub open spec fn apploader_position() -> int {
    APPLOADER_ISO_OFFSET + APPLOADER_HEADER
}

impl EmuView {
    /// The emulator after `data` was put in main memory at guest address `addr`:
    /// blocks compiled from what was there are dropped. Data that do not fit are
    /// ignored.
    pub open spec fn bytes_loaded(self, addr: u32, data: Seq<u8>) -> EmuView {
        let start = physical_address(addr);
        let end = start + data.len();
        if end > self.ram.len() {
            self
        } else {
            EmuView {
                ram: copied(self.ram, start, data, 0, data.len() as int),
                cache: kept_outside(self.cache, start, end),
                ..self
            }
        }
    }

    /// The emulator after the first `n` sections of executable `data` were loaded.
    pub open spec fn sections_loaded(self, data: Seq<u8>, n: nat) -> EmuView
        decreases n,
    {
        if n == 0 {
            self
        } else {
            let before = self.sections_loaded(data, (n - 1) as nat);
            let i = n - 1;
            if dol_has(data, i) {
                before.bytes_loaded(
                    dol_target(data, i),
                    data.subrange(dol_offset(data, i), dol_offset(data, i) + dol_size(data, i)),
                )
            } else {
                before
            }
        }
    }

    /// The emulator after executable `data` was loaded: every section, then zeros
    /// where it asks for them.
    pub open spec fn dol_loaded(self, data: Seq<u8>) -> EmuView {
        let sections = self.sections_loaded(data, DOL_SECTIONS as nat);
        let size = be32_at(data, 0xDC);
        if size > 0 {
            sections.bytes_loaded(be32_at(data, 0xD8), zeros(size as int))
        } else {
            sections
        }
    }

    /// The emulator with `disc` in the drive and the lid closed.
    pub open spec fn disc_inserted(self, disc: Seq<u8>) -> EmuView {
        EmuView { disc: Some(disc), di: DiState { cover: COVER_CLOSED, ..self.di }, ..self }
    }

    /// The emulator after the header of `disc` and the values that the system finds
    /// when it starts were put in memory.
    pub open spec fn header_loaded(self, disc: Seq<u8>) -> EmuView {
        self.bytes_loaded(HEADER_LOAD_ADDR, disc.take(ISO_HEADER as int)).bytes_loaded(
            GLOBALS_ADDR,
            globals(),
        )
    }

    /// The emulator after the loader program of `disc` was put in memory, if the disc
    /// has all of it.
    pub open spec fn apploader_loaded(self, disc: Seq<u8>) -> EmuView {
        let end = apploader_position() + apploader_size(disc);
        if apploader_size(disc) > 0 && end <= disc.len() {
            self.bytes_loaded(APPLOADER_LOAD_ADDR, disc.subrange(apploader_position(), end))
        } else {
            self
        }
    }

    /// The emulator after the image `data` was parsed and loaded, and the reason why
    /// it could not be, if there is one. What precedes a fault has been loaded.
    pub open spec fn disc_parsed(self, data: Seq<u8>) -> (EmuView, Option<DiscError>) {
        match disc_of(data) {
            Err(error) => (self, Some(error)),
            Ok(disc) => if word_or_zero(disc, 0x1C) != GC_ISO_MAGIC {
                (self, Some(DiscError::BadMagic(word_or_zero(disc, 0x1C))))
            } else if disc.len() < ISO_HEADER {
                (self, Some(DiscError::IsoHeader))
            } else if disc.len() < apploader_position() {
                (self.header_loaded(disc), Some(DiscError::Apploader))
            } else if boot_position(disc) + DOL_HEADER > disc.len() {
                (
                    self.header_loaded(disc).apploader_loaded(disc),
                    Some(DiscError::BootDol),
                )
            } else {
                (self.header_loaded(disc).apploader_loaded(disc).disc_inserted(disc), None)
            },
        }
    }
}

/// The values that the system finds when it starts.
fn globals_bytes() -> (bytes: Vec<u8>)
    ensures
        bytes@ == globals(),
{
    let mut bytes: Vec<u8> = Vec::new();
    let mut k: usize = 0;
    while k < GLOBALS_LEN / 4
        invariant
            k <= GLOBALS_LEN / 4,
            bytes@ == globals().take(4 * k as int),
        decreases GLOBALS_LEN / 4 - k,
    {
        let word: u32 = match k {
            0 => 0x0D15_EA5E,
            1 => 0x0000_0001,
            2 => 0x0180_0000,
            3 => 0x0000_0003,
            4 => 0x8042_E260,
            5 => 0x817F_E8C0,
            6 => 0x817F_E8C0,
            7 => 0x0000_0024,
            44 => 0x0100_0000,
            54 => 0x09A7_EC80,
            55 => 0x1CF7_C580,
            _ => 0,
        };
        assert(word == globals_word(k as int));
        proof {
            crate::bytes::low_byte(word);
        }
        bytes.push((word >> 24) as u8);
        bytes.push((word >> 16) as u8);
        bytes.push((word >> 8) as u8);
        bytes.push(word as u8);
        proof {
            let j = 4 * k as int;
            assert(j / 4 == k && (j + 1) / 4 == k && (j + 2) / 4 == k && (j + 3) / 4 == k);
            assert(bytes@ =~= globals().take(j + 4));
        }
        k = k + 1;
    }
    assert(globals().take(GLOBALS_LEN as int) =~= globals());
    bytes
}

impl WasmEmulator {
    /// Puts `data` in main memory at guest address `guest_addr`.
    pub fn load_bytes(&mut self, guest_addr: u32, data: &[u8])
        requires
            old(self)@.wf(),
        ensures
            final(self)@.wf(),
            final(self)@ == old(self)@.bytes_loaded(guest_addr, data@),
    {
        let start: usize = phys_addr(guest_addr);
        if data.len() > self.ram.len() || start > self.ram.len() - data.len() {
            return ;
        }
        let end: usize = start + data.len();
        copy_bytes(&mut self.ram, start, data, 0, data.len());
        self.cache.invalidate_range(start, end);
    }

    /// Puts `len` zero bytes in main memory at guest address `guest_addr`.
    fn load_zeros(&mut self, guest_addr: u32, len: u32)
        requires
            old(self)@.wf(),
        ensures
            final(self)@.wf(),
            final(self)@ == old(self)@.bytes_loaded(guest_addr, zeros(len as int)),
    {
        let start: usize = phys_addr(guest_addr);
        let n: usize = len as usize;
        if n > self.ram.len() || start > self.ram.len() - n {
            return ;
        }
        let bytes: Vec<u8> = super::memcard::filled(n, 0);
        assert(bytes@ =~= zeros(len as int));
        self.load_bytes(guest_addr, bytes.as_slice());
    }

    /// Loads the executable `data`; gives its entry point.
    pub fn load_ipl_hle(&mut self, data: &[u8]) -> (entry: u32)
        requires
            old(self)@.wf(),
            dol_complete(data@),
        ensures
            final(self)@.wf(),
            final(self)@ == old(self)@.dol_loaded(data@),
            entry == be32_at(data@, 0xE0),
    {
        let mut i: usize = 0;
        while i < DOL_SECTIONS
            invariant
                i <= DOL_SECTIONS,
                dol_complete(data@),
                self@.wf(),
                self@ == old(self)@.sections_loaded(data@, i as nat),
            decreases DOL_SECTIONS - i,
        {
            let offset: usize = read_be32(data, 4 * i) as usize;
            let target: u32 = read_be32(data, 0x48 + 4 * i);
            let size: usize = read_be32(data, 0x90 + 4 * i) as usize;
            if offset != 0 && size != 0 {
                assert(dol_has(data@, i as int));
                let total: usize = data.len();
                let section: &[u8] = vstd::slice::slice_subrange(data, offset, offset + size);
                self.load_bytes(target, section);
            }
            i = i + 1;
        }
        let bss_target: u32 = read_be32(data, 0xD8);
        let bss_size: u32 = read_be32(data, 0xDC);
        if bss_size > 0 {
            self.load_zeros(bss_target, bss_size);
        }
        read_be32(data, 0xE0)
    }

    /// Puts the disc that the image `data` holds in the drive. An image that cannot
    /// be unpacked is taken as it is.
    pub fn load_disc_image(&mut self, data: &[u8])
        requires
            old(self)@.wf(),
        ensures
            final(self)@.wf(),
            final(self)@ == old(self)@.disc_inserted(
                match disc_of(data@) {
                    Ok(disc) => disc,
                    Err(_) => data@,
                },
            ),
    {
        let flat: Vec<u8> = match flatten_disc_image(data) {
            Ok(flat) => flat,
            Err(_) => vstd::slice::slice_to_vec(data),
        };
        self.disc = Some(flat);
        self.di.cover = COVER_CLOSED;
    }

    /// Parses the image `data`, puts the header and the loader program of the disc in
    /// memory, and the disc in the drive.
    pub fn parse_and_load_disc(&mut self, data: &[u8]) -> (info: Result<DiscInfo, DiscError>)
        requires
            old(self)@.wf(),
        ensures
            final(self)@.wf(),
            ({
                let (after, fault) = old(self)@.disc_parsed(data@);
                &&& final(self)@ == after
                &&& match info {
                    Err(error) => fault == Some(error),
                    Ok(found) => {
                        let disc = disc_of(data@).unwrap();
                        &&& fault is None
                        &&& is_title(disc.subrange(0x20, 0x400), found.game_name@)
                        &&& found.game_id@ == printable(disc.take(6))
                        &&& found.dol_entry == be32_at(disc, boot_position(disc) + 0xE0)
                        &&& found.apploader_entry == apploader_entry(disc)
                    },
                }
            }),
    {
        let flat: Vec<u8> = match flatten_disc_image(data) {
            Ok(flat) => flat,
            Err(error) => {
                return Err(error);
            },
        };
        let disc: &[u8] = flat.as_slice();
        let magic: u32 = read_u32be(disc, 0x1C);
        if magic != GC_ISO_MAGIC {
            return Err(DiscError::BadMagic(magic));
        }
        if disc.len() < ISO_HEADER {
            return Err(DiscError::IsoHeader);
        }
        let game_name: String = title_of(vstd::slice::slice_subrange(disc, 0x20, 0x400));
        let id_bytes: &[u8] = vstd::slice::slice_subrange(disc, 0, 6);
        let game_id: String = printable_of(id_bytes);
        assert(id_bytes@ =~= disc@.take(6));
        let header: &[u8] = vstd::slice::slice_subrange(disc, 0, ISO_HEADER);
        assert(header@ =~= disc@.take(ISO_HEADER as int));
        self.load_bytes(HEADER_LOAD_ADDR, header);
        let values: Vec<u8> = globals_bytes();
        self.load_bytes(GLOBALS_ADDR, values.as_slice());
        if disc.len() < APPLOADER_ISO_OFFSET + APPLOADER_HEADER {
            return Err(DiscError::Apploader);
        }
        let apploader_entry: u32 = read_be32(disc, APPLOADER_ISO_OFFSET + 0x10);
        let apploader_size: usize = read_be32(disc, APPLOADER_ISO_OFFSET + 0x14) as usize;
        let body: usize = APPLOADER_ISO_OFFSET + APPLOADER_HEADER;
        if apploader_size > 0 && apploader_size <= disc.len() - body {
            self.load_bytes(
                APPLOADER_LOAD_ADDR,
                vstd::slice::slice_subrange(disc, body, body + apploader_size),
            );
        }
        let boot: usize = read_be32(disc, 0x420) as usize;
        if boot > disc.len() - DOL_HEADER {
            return Err(DiscError::BootDol);
        }
        let dol_entry: u32 = read_be32(disc, boot + 0xE0);
        self.disc = Some(flat);
        self.di.cover = COVER_CLOSED;
        Ok(DiscInfo { game_name, game_id, dol_entry, apploader_entry })
    }
}

/// What was loaded is in memory, and nothing else has changed; no compiled block that
/// starts where it was loaded is left.
pub proof fn loaded_bytes_are_there(emu: EmuView, addr: u32, data: Seq<u8>, at: int, pc: u32)
    requires
        physical_address(addr) + data.len() <= emu.ram.len(),
        0 <= at < emu.ram.len(),
    ensures
        ({
            let start = physical_address(addr);
            let after = emu.bytes_loaded(addr, data);
            &&& after.ram.len() == emu.ram.len()
            &&& start <= at < start + data.len() ==> after.ram[at] == data[at - start]
            &&& !(start <= at < start + data.len()) ==> after.ram[at] == emu.ram[at]
            &&& start <= physical_address(pc) < start + data.len() ==> !after.cache.contains_key(
                pc,
            )
            &&& after.cache.contains_key(pc) ==> emu.cache.contains_key(pc) && after.cache[pc]
                == emu.cache[pc]
        }),
{
}

/// The big-endian number at position `at`.
pub open spec fn number_at(data: Seq<u8>, at: int) -> int {
    0x100_0000 * data[at] + 0x1_0000 * data[at + 1] + 0x100 * data[at + 2] + data[at + 3]
}

/// Whether the part of an executable whose target and size are at header positions
/// `target` and `size` fits in memory and covers the byte of main memory at `at`.
pub open spec fn covers(emu: EmuView, data: Seq<u8>, target: int, size: int, at: int) -> bool {
    let start = number_at(data, target) % 0x0200_0000;
    &&& number_at(data, size) != 0
    &&& start + number_at(data, size) <= emu.ram.len()
    &&& start <= at < start + number_at(data, size)
}

/// Whether section `i` of an executable is there and covers the byte at `at`: its position
/// in the file, its target and its size are the words at header positions 4, 0x48 and
/// 0x90, each plus four times `i`.
pub open spec fn section_covers(emu: EmuView, data: Seq<u8>, i: int, at: int) -> bool {
    number_at(data, 4 * i) != 0 && covers(emu, data, 0x48 + 4 * i, 0x90 + 4 * i, at)
}

proof fn lemma_sections(emu: EmuView, data: Seq<u8>, n: nat, at: int)
    requires
        dol_complete(data),
        n <= 18,
        0 <= at < emu.ram.len(),
    ensures
        ({
            let after = emu.sections_loaded(data, n);
            &&& after.ram.len() == emu.ram.len()
            &&& forall|i: int|
                0 <= i < n && #[trigger] section_covers(emu, data, i, at) && (forall|j: int|
                    i < j < n ==> !section_covers(emu, data, j, at)) ==> after.ram[at]
                    == data[number_at(data, 4 * i) + at - number_at(data, 0x48 + 4 * i)
                    % 0x0200_0000]
            &&& (forall|i: int| 0 <= i < n ==> !section_covers(emu, data, i, at))
                ==> after.ram[at] == emu.ram[at]
        }),
    decreases n,
{
    if n > 0 {
        let i = n - 1;
        lemma_sections(emu, data, i as nat, at);
        byte_order(data, 4 * i);
        byte_order(data, 0x48 + 4 * i);
        byte_order(data, 0x90 + 4 * i);
        low_address(dol_target(data, i));
        let before = emu.sections_loaded(data, i as nat);
        let section = data.subrange(dol_offset(data, i), dol_offset(data, i) + dol_size(data, i));
        assert(dol_has(data, i) <==> number_at(data, 4 * i) != 0 && number_at(data, 0x90 + 4 * i)
            != 0);
        if dol_has(data, i) && physical_address(dol_target(data, i)) + dol_size(data, i)
            <= emu.ram.len() {
            loaded_bytes_are_there(before, dol_target(data, i), section, at, 0);
        }
        assert(emu.sections_loaded(data, n).ram[at] == if section_covers(emu, data, i, at) {
            data[number_at(data, 4 * i) + at - number_at(data, 0x48 + 4 * i) % 0x0200_0000]
        } else {
            before.ram[at]
        });
    }
}

/// After an executable was loaded, main memory holds the bytes of its sections, each at
/// the physical address of the target that its header names; where sections overlap, the
/// later one. The zeros that the header asks for, by the words at 0xD8 and 0xDC, come
/// last. Every other byte is as it was.
pub proof fn executables_are_put_in_place(emu: EmuView, data: Seq<u8>, i: int, at: int)
    requires
        dol_complete(data),
        0 <= i < 18,
        0 <= at < emu.ram.len(),
    ensures
        ({
            let after = emu.dol_loaded(data).ram;
            let zeroed = covers(emu, data, 0xD8, 0xDC, at);
            &&& after.len() == emu.ram.len()
            &&& zeroed ==> after[at] == 0
            &&& !zeroed && section_covers(emu, data, i, at) && (forall|j: int|
                i < j < 18 ==> !#[trigger] section_covers(emu, data, j, at)) ==> after[at]
                == data[number_at(data, 4 * i) + at - number_at(data, 0x48 + 4 * i) % 0x0200_0000]
            &&& !zeroed && (forall|j: int|
                0 <= j < 18 ==> !#[trigger] section_covers(emu, data, j, at)) ==> after[at]
                == emu.ram[at]
        }),
{
    lemma_sections(emu, data, 18, at);
    byte_order(data, 0xD8);
    byte_order(data, 0xDC);
    let target = be32_at(data, 0xD8);
    let size = be32_at(data, 0xDC);
    low_address(target);
    let before = emu.sections_loaded(data, 18);
    if size > 0 && physical_address(target) + size <= emu.ram.len() {
        loaded_bytes_are_there(before, target, zeros(size as int), at, 0);
    }
}

/// After a disc was parsed, main memory holds what the system expects to find: the magic
/// number, the version, 24 MiB of memory, the type of the console, the bounds of free
/// memory and the rates of bus and processor clock, as big-endian words at their places,
/// and elsewhere in the first 0x440 bytes the header of the disc.
pub proof fn systems_find_their_values(emu: EmuView, disc: Seq<u8>, k: int)
    requires
        emu.ram.len() >= 0x440,
        disc.len() >= 0x440,
        0 <= k < 0x440,
    ensures
        ({
            let ram = emu.header_loaded(disc).ram;
            &&& number_at(ram, 0x20) == 0x0D15_EA5E
            &&& number_at(ram, 0x24) == 1
            &&& number_at(ram, 0x28) == 24 * 1024 * 1024
            &&& number_at(ram, 0x2C) == 3
            &&& number_at(ram, 0x30) == 0x8042_E260
            &&& number_at(ram, 0x34) == 0x817F_E8C0
            &&& number_at(ram, 0x38) == 0x817F_E8C0
            &&& number_at(ram, 0x3C) == 0x24
            &&& number_at(ram, 0xD0) == 16 * 1024 * 1024
            &&& number_at(ram, 0xF8) == 162_000_000
            &&& number_at(ram, 0xFC) == 486_000_000
            &&& k < 0x20 || k >= 0x100 ==> ram[k] == disc[k]
        }),
{
    let first = emu.bytes_loaded(0x8000_0000, disc.take(0x440));
    low_address(0x8000_0000);
    low_address(0x8000_0020);
    let last = emu.header_loaded(disc);
    assert(first.ram.len() == emu.ram.len());
    assert forall|j: int| 0 <= j < 0x440 implies #[trigger] last.ram[j] == if 0x20 <= j < 0x100 {
        globals()[j - 0x20]
    } else {
        disc[j]
    } by {}
    lemma_global(last.ram, 0);
    lemma_global(last.ram, 1);
    lemma_global(last.ram, 2);
    lemma_global(last.ram, 3);
    lemma_global(last.ram, 4);
    lemma_global(last.ram, 5);
    lemma_global(last.ram, 6);
    lemma_global(last.ram, 7);
    lemma_global(last.ram, 44);
    lemma_global(last.ram, 54);
    lemma_global(last.ram, 55);
}

proof fn lemma_global(ram: Seq<u8>, k: int)
    requires
        0 <= k < 56,
        forall|j: int| 0x20 <= j < 0x100 ==> #[trigger] ram[j] == globals()[j - 0x20],
    ensures
        number_at(ram, 0x20 + 4 * k) == globals_word(k),
{
    let word = globals_word(k);
    byte_digits(word);
    let at = 4 * k;
    assert(at / 4 == k && (at + 1) / 4 == k && (at + 2) / 4 == k && (at + 3) / 4 == k);
    assert(at % 4 == 0 && (at + 1) % 4 == 1 && (at + 2) % 4 == 2 && (at + 3) % 4 == 3);
    assert(ram[0x20 + at] == be_bytes(word)[0]);
    assert(ram[0x20 + at + 1] == be_bytes(word)[1]);
    assert(ram[0x20 + at + 2] == be_bytes(word)[2]);
    assert(ram[0x20 + at + 3] == be_bytes(word)[3]);
}

/// The loader program of a disc follows its header at position 0x2440: its length is the
/// word at 0x2454, and it goes to physical address 0x0120_0000.
pub proof fn loader_programs_are_put_in_place(emu: EmuView, disc: Seq<u8>, at: int)
    requires
        disc.len() >= 0x2460,
        number_at(disc, 0x2454) > 0,
        0x2460 + number_at(disc, 0x2454) <= disc.len(),
        0x0120_0000 + number_at(disc, 0x2454) <= emu.ram.len(),
        0 <= at < emu.ram.len(),
    ensures
        ({
            let ram = emu.apploader_loaded(disc).ram;
            let start = 0x0120_0000int;
            &&& ram.len() == emu.ram.len()
            &&& ram[at] == if start <= at < start + number_at(disc, 0x2454) {
                disc[0x2460 + at - start]
            } else {
                emu.ram[at]
            }
        }),
{
    byte_order(disc, 0x2454);
    low_address(0x8120_0000);
}

/// What a disc says of itself is found at fixed places: an image is that of a disc if the
/// word at 0x1C is 0xC233_9F3D, the loader program starts at the word at 0x2450, and the
/// executable is at the position in the word at 0x420.
pub proof fn discs_are_recognised(emu: EmuView, disc: Seq<u8>)
    requires
        disc.len() >= 0x2460,
        !(disc[0] == 0x43 && disc[1] == 0x49 && disc[2] == 0x53 && disc[3] == 0x4F),
    ensures
        apploader_entry(disc) == number_at(disc, 0x2450),
        boot_position(disc) == number_at(disc, 0x420),
        ({
            let (after, fault) = emu.disc_parsed(disc);
            &&& fault is None <==> number_at(disc, 0x1C) == 0xC233_9F3D && number_at(disc, 0x420)
                + 0xE4 <= disc.len()
            &&& number_at(disc, 0x1C) != 0xC233_9F3D ==> after == emu
            &&& fault is None ==> after.disc == Some(disc)
            &&& fault is None ==> after.di.cover == 4
        }),
{
    byte_order(disc, 0x1C);
    byte_order(disc, 0x420);
    byte_order(disc, 0x2450);
}

} // verus!
