//! Disc images.
//!
//! An image is the bytes of the disc, or a compact image: `CISO`, the block size as
//! a little-endian word, a map with a byte for each block, and the blocks that the
//! map marks, one after the other. Blocks that are not marked are zero.

use vstd::prelude::*;

use crate::bytes::{be32_at, le32_at, read_be32, read_le32};

verus! {

/// Bytes before the blocks of a compact image: the mark, the block size and the map
/// fill 32 KiB.
pub const CISO_HEADER: usize = 0x8000;

/// Position of the map in a compact image.
pub const CISO_MAP: usize = 8;

/// Number of blocks that the map of a compact image has room for.
pub const CISO_BLOCKS: usize = 0x7FF8;

/// Number that marks the disc of a console, at position 0x1C.
pub const GC_ISO_MAGIC: u32 = 0xC233_9F3D;

/// Bytes of the header of a disc.
pub const ISO_HEADER: usize = 0x440;

/// Position of the header of the loader program on a disc.
pub const APPLOADER_ISO_OFFSET: usize = 0x2440;

/// Bytes of the header of the loader program.
pub const APPLOADER_HEADER: usize = 0x20;

/// Bytes of the fields in the header of an executable.
pub const DOL_HEADER: usize = 0xE4;

/// Sections of an executable.
pub const DOL_SECTIONS: usize = 18;

/// Why an image cannot be used.
#[derive(Clone, Copy, Debug, PartialEq, Eq, Structural)]
pub enum DiscError {
    /// A compact image without a whole header.
    CisoHeader,
    /// A compact image with blocks of no size.
    CisoBlockSize,
    /// A compact image without blocks.
    CisoEmpty,
    /// A compact image that is cut off.
    CisoTruncated,
    /// A compact image of a disc that is too large for this machine.
    CisoTooLarge,
    /// Not the disc of a console; the number at position 0x1C is given.
    BadMagic(u32),
    /// A disc without a whole header.
    IsoHeader,
    /// A disc without the header of the loader program.
    Apploader,
    /// A disc without the header of the executable.
    BootDol,
}

/// Whether `data` is a compact image.
pub open spec fn is_ciso(data: Seq<u8>) -> bool {
    data.len() >= 4 && data[0] == 0x43 && data[1] == 0x49 && data[2] == 0x53 && data[3] == 0x4F
}

/// Whether the map of a compact image marks block `i`.
pub open spec fn block_used(data: Seq<u8>, i: int) -> bool {
    data[CISO_MAP + i] != 0
}

/// Number of marked blocks among the first `n`.
pub open spec fn blocks_before(data: Seq<u8>, n: nat) -> nat
    decreases n,
{
    if n == 0 {
        0
    } else {
        blocks_before(data, (n - 1) as nat) + if block_used(data, n - 1) {
            1nat
        } else {
            0
        }
    }
}

/// Number of blocks of the disc, up to the last marked one, among the first `n`.
pub open spec fn disc_blocks(data: Seq<u8>, n: nat) -> nat
    decreases n,
{
    if n == 0 {
        0
    } else if block_used(data, n - 1) {
        n
    } else {
        disc_blocks(data, (n - 1) as nat)
    }
}

/// Block size of a compact image.
pub open spec fn block_size(data: Seq<u8>) -> int {
    le32_at(data, 4) as int
}

/// Byte `p` of the disc that a compact image holds.
pub open spec fn disc_byte(data: Seq<u8>, p: int) -> u8 {
    let block = p / block_size(data);
    if block_used(data, block) {
        data[CISO_HEADER + blocks_before(data, block as nat) * block_size(data) + p
            % block_size(data)]
    } else {
        0
    }
}

/// The disc that a compact image holds.
pub open spec fn ciso_disc(data: Seq<u8>) -> Result<Seq<u8>, DiscError> {
    let blocks = disc_blocks(data, CISO_BLOCKS as nat);
    if data.len() < CISO_HEADER {
        Err(DiscError::CisoHeader)
    } else if block_size(data) == 0 {
        Err(DiscError::CisoBlockSize)
    } else if blocks == 0 {
        Err(DiscError::CisoEmpty)
    } else if CISO_HEADER + blocks_before(data, blocks) * block_size(data) > data.len() {
        Err(DiscError::CisoTruncated)
    } else if blocks * block_size(data) > usize::MAX {
        Err(DiscError::CisoTooLarge)
    } else {
        Ok(Seq::new((blocks * block_size(data)) as nat, |p: int| disc_byte(data, p)))
    }
}

/// The disc that an image holds.
pub open spec fn disc_of(data: Seq<u8>) -> Result<Seq<u8>, DiscError> {
    if is_ciso(data) {
        ciso_disc(data)
    } else {
        Ok(data)
    }
}

/// The big-endian word at position `at`; 0 where there is none.
pub open spec fn word_or_zero(data: Seq<u8>, at: int) -> u32 {
    if at + 4 <= data.len() {
        be32_at(data, at)
    } else {
        0
    }
}

/// File position of section `i` of an executable.
pub open spec fn dol_offset(data: Seq<u8>, i: int) -> int {
    be32_at(data, 4 * i) as int
}

/// Guest address of section `i` of an executable.
pub open spec fn dol_target(data: Seq<u8>, i: int) -> u32 {
    be32_at(data, 0x48 + 4 * i)
}

/// Length of section `i` of an executable.
pub open spec fn dol_size(data: Seq<u8>, i: int) -> int {
    be32_at(data, 0x90 + 4 * i) as int
}

/// Whether an executable has section `i`.
pub open spec fn dol_has(data: Seq<u8>, i: int) -> bool {
    dol_offset(data, i) != 0 && dol_size(data, i) != 0
}

/// Whether `data` is a whole executable: the header is there, and so is every section
/// that it names.
pub open spec fn dol_complete(data: Seq<u8>) -> bool {
    &&& data.len() >= DOL_HEADER
    &&& forall|i: int|
        0 <= i < DOL_SECTIONS && #[trigger] dol_has(data, i) ==> dol_offset(data, i) + dol_size(
            data,
            i,
        ) <= data.len()
}

/// Whether `title` is the text before the first zero byte of `bytes`, a character for
/// each byte.
pub open spec fn is_title(bytes: Seq<u8>, title: Seq<char>) -> bool {
    &&& title.len() <= bytes.len()
    &&& forall|i: int| 0 <= i < title.len() ==> #[trigger] bytes[i] != 0
    &&& forall|i: int| 0 <= i < title.len() ==> #[trigger] title[i] == bytes[i] as char
    &&& title.len() < bytes.len() ==> bytes[title.len() as int] == 0
}

/// The printable characters of `bytes`.
pub open spec fn printable(bytes: Seq<u8>) -> Seq<char>
    decreases bytes.len(),
{
    if bytes.len() == 0 {
        Seq::empty()
    } else {
        let rest = printable(bytes.drop_last());
        if 0x20 <= bytes.last() <= 0x7E {
            rest.push(bytes.last() as char)
        } else {
            rest
        }
    }
}

/// `String::push` of the standard library: appends the character.
pub assume_specification[ String::push ](s: &mut String, c: char)
    ensures
        final(s)@ == old(s)@.push(c),
;

/// The text before the first zero byte of `bytes`.
pub fn title_of(bytes: &[u8]) -> (title: String)
    ensures
        is_title(bytes@, title@),
{
    let mut title: String = String::new();
    let mut i: usize = 0;
    while i < bytes.len()
        invariant
            i <= bytes@.len(),
            title@.len() == i,
            forall|k: int| 0 <= k < i ==> #[trigger] bytes@[k] != 0,
            forall|k: int| 0 <= k < i ==> #[trigger] title@[k] == bytes@[k] as char,
        decreases bytes@.len() - i,
    {
        let byte: u8 = bytes[i];
        if byte == 0 {
            return title;
        }
        title.push(byte as char);
        i = i + 1;
    }
    title
}

/// The printable characters of `bytes`.
pub fn printable_of(bytes: &[u8]) -> (text: String)
    ensures
        text@ == printable(bytes@),
{
    let mut text: String = String::new();
    let mut i: usize = 0;
    while i < bytes.len()
        invariant
            i <= bytes@.len(),
            text@ == printable(bytes@.take(i as int)),
        decreases bytes@.len() - i,
    {
        let byte: u8 = bytes[i];
        proof {
            assert(bytes@.take(i + 1).drop_last() =~= bytes@.take(i as int));
        }
        if 0x20 <= byte && byte <= 0x7E {
            text.push(byte as char);
        }
        i = i + 1;
    }
    assert(bytes@.take(i as int) =~= bytes@);
    text
}

/// Reads the big-endian word at position `offset`; 0 where there is none.
pub fn read_u32be(buf: &[u8], offset: usize) -> (word: u32)
    ensures
        word == word_or_zero(buf@, offset as int),
{
    if buf.len() < 4 || offset > buf.len() - 4 {
        return 0;
    }
    read_be32(buf, offset)
}

/// Whether `data` is a whole executable.
pub fn dol_is_complete(data: &[u8]) -> (complete: bool)
    ensures
        complete == dol_complete(data@),
{
    if data.len() < DOL_HEADER {
        return false;
    }
    let mut i: usize = 0;
    while i < DOL_SECTIONS
        invariant
            i <= DOL_SECTIONS,
            data@.len() >= DOL_HEADER,
            forall|k: int|
                0 <= k < i && #[trigger] dol_has(data@, k) ==> dol_offset(data@, k) + dol_size(
                    data@,
                    k,
                ) <= data@.len(),
        decreases DOL_SECTIONS - i,
    {
        let offset: u64 = read_be32(data, 4 * i) as u64;
        let size: u64 = read_be32(data, 0x90 + 4 * i) as u64;
        if offset != 0 && size != 0 && offset + size > data.len() as u64 {
            assert(dol_has(data@, i as int));
            return false;
        }
        i = i + 1;
    }
    true
}

/// The counts of marked blocks are small, and the last marked block is the last one.
proof fn lemma_blocks(data: Seq<u8>, n: nat)
    ensures
        blocks_before(data, n) <= n,
        disc_blocks(data, n) <= n,
    decreases n,
{
    if n > 0 {
        lemma_blocks(data, (n - 1) as nat);
    }
}

/// Earlier blocks come first.
proof fn lemma_blocks_monotonic(data: Seq<u8>, m: nat, n: nat)
    requires
        m <= n,
    ensures
        blocks_before(data, m) <= blocks_before(data, n),
    decreases n,
{
    if m < n {
        lemma_blocks_monotonic(data, m, (n - 1) as nat);
    }
}

/// Number of blocks of the disc in the compact image `data`.
fn count_blocks(data: &[u8]) -> (blocks: usize)
    requires
        data@.len() >= CISO_HEADER,
    ensures
        blocks == disc_blocks(data@, CISO_BLOCKS as nat),
        blocks <= CISO_BLOCKS,
{
    let mut n: usize = CISO_BLOCKS;
    while n > 0 && data[CISO_MAP + n - 1] == 0
        invariant
            n <= CISO_BLOCKS,
            data@.len() >= CISO_HEADER,
            disc_blocks(data@, n as nat) == disc_blocks(data@, CISO_BLOCKS as nat),
        decreases n,
    {
        n = n - 1;
    }
    n
}

/// Number of marked blocks among the first `n` of the compact image `data`.
fn count_used(data: &[u8], n: usize) -> (used: usize)
    requires
        data@.len() >= CISO_HEADER,
        n <= CISO_BLOCKS,
    ensures
        used == blocks_before(data@, n as nat),
        used <= n,
{
    let mut used: usize = 0;
    let mut i: usize = 0;
    while i < n
        invariant
            i <= n <= CISO_BLOCKS,
            data@.len() >= CISO_HEADER,
            used == blocks_before(data@, i as nat),
            used <= i,
        decreases n - i,
    {
        if data[CISO_MAP + i] != 0 {
            used = used + 1;
        }
        i = i + 1;
    }
    used
}

/// Appends the bytes of block `i` to the disc.
fn push_block(flat: &mut Vec<u8>, data: &[u8], i: usize, size: usize, src: usize)
    requires
        data@.len() >= CISO_HEADER,
        size > 0,
        size == block_size(data@),
        old(flat)@.len() == i * size,
        block_used(data@, i as int) ==> src == CISO_HEADER + blocks_before(data@, i as nat) * size
            && src + size <= data@.len(),
        i < CISO_BLOCKS,
        forall|p: int| 0 <= p < i * size ==> #[trigger] old(flat)@[p] == disc_byte(data@, p),
    ensures
        final(flat)@.len() == (i + 1) * size,
        forall|p: int| 0 <= p < (i + 1) * size ==> #[trigger] final(flat)@[p] == disc_byte(data@,
            p),
{
    let used: bool = data[CISO_MAP + i] != 0;
    let available: usize = data.len();
    let mut j: usize = 0;
    proof {
        assert((i + 1) * size == i * size + size) by (nonlinear_arith);
    }
    while j < size
        invariant
            j <= size,
            size > 0,
            size == block_size(data@),
            data@.len() == available,
            used == block_used(data@, i as int),
            used ==> src == CISO_HEADER + blocks_before(data@, i as nat) * size && src + size
                <= data@.len(),
            flat@.len() == i * size + j,
            forall|p: int| 0 <= p < i * size + j ==> #[trigger] flat@[p] == disc_byte(data@, p),
        decreases size - j,
    {
        let byte: u8 = if used { data[src + j] } else { 0 };
        proof {
            vstd::arithmetic::div_mod::lemma_fundamental_div_mod_converse(
                i * size + j,
                size as int,
                i as int,
                j as int,
            );
            assert(byte == disc_byte(data@, i * size + j));
        }
        flat.push(byte);
        j = j + 1;
    }
}

/// The disc that the compact image `data` holds.
pub fn flatten_ciso(data: &[u8]) -> (disc: Result<Vec<u8>, DiscError>)
    ensures
        match disc {
            Ok(flat) => ciso_disc(data@) == Ok::<Seq<u8>, DiscError>(flat@),
            Err(error) => ciso_disc(data@) == Err::<Seq<u8>, DiscError>(error),
        },
{
    if data.len() < CISO_HEADER {
        return Err(DiscError::CisoHeader);
    }
    let size: u64 = read_le32(data, 4) as u64;
    if size == 0 {
        return Err(DiscError::CisoBlockSize);
    }
    let blocks: usize = count_blocks(data);
    if blocks == 0 {
        return Err(DiscError::CisoEmpty);
    }
    let used: usize = count_used(data, blocks);
    proof {
        assert(used * size <= 0x7FF8 * 0xFFFF_FFFF) by (nonlinear_arith)
            requires
                0 <= used <= 0x7FF8,
                0 <= size <= 0xFFFF_FFFF,
        ;
        assert(blocks * size <= 0x7FF8 * 0xFFFF_FFFF) by (nonlinear_arith)
            requires
                0 <= blocks <= 0x7FF8,
                0 <= size <= 0xFFFF_FFFF,
        ;
    }
    if CISO_HEADER as u64 + used as u64 * size > data.len() as u64 {
        return Err(DiscError::CisoTruncated);
    }
    if blocks as u64 * size > usize::MAX as u64 {
        return Err(DiscError::CisoTooLarge);
    }
    proof {
        assert(size <= blocks * size) by (nonlinear_arith)
            requires
                blocks >= 1,
                size >= 0,
        ;
    }
    let block_len: usize = size as usize;
    let mut flat: Vec<u8> = Vec::new();
    let mut src: usize = CISO_HEADER;
    let mut i: usize = 0;
    let available: usize = data.len();
    while i < blocks
        invariant
            i <= blocks <= CISO_BLOCKS,
            data@.len() >= CISO_HEADER,
            data@.len() == available,
            block_len > 0,
            block_len == block_size(data@),
            blocks == disc_blocks(data@, CISO_BLOCKS as nat),
            CISO_HEADER + blocks_before(data@, blocks as nat) * block_len <= available,
            src == CISO_HEADER + blocks_before(data@, i as nat) * block_len,
            flat@.len() == i * block_len,
            forall|p: int| 0 <= p < i * block_len ==> #[trigger] flat@[p] == disc_byte(data@, p),
        decreases blocks - i,
    {
        let used: bool = data[CISO_MAP + i] != 0;
        proof {
            let here = blocks_before(data@, i as nat);
            let next = blocks_before(data@, (i + 1) as nat);
            lemma_blocks_monotonic(data@, (i + 1) as nat, blocks as nat);
            let all = blocks_before(data@, blocks as nat);
            assert(next * block_len <= all * block_len) by (nonlinear_arith)
                requires
                    0 <= next <= all,
                    block_len >= 0,
            ;
            assert((here + 1) * block_len == here * block_len + block_len) by (nonlinear_arith);
        }
        push_block(&mut flat, data, i, block_len, src);
        if used {
            src = src + block_len;
        }
        i = i + 1;
    }
    assert(flat@ =~= Seq::new((blocks * block_len) as nat, |p: int| disc_byte(data@, p)));
    Ok(flat)
}

/// The disc that an image holds.
pub fn flatten_disc_image(data: &[u8]) -> (disc: Result<Vec<u8>, DiscError>)
    ensures
        match disc {
            Ok(flat) => disc_of(data@) == Ok::<Seq<u8>, DiscError>(flat@),
            Err(error) => disc_of(data@) == Err::<Seq<u8>, DiscError>(error),
        },
{
    if data.len() >= 4 && data[0] == 0x43 && data[1] == 0x49 && data[2] == 0x53 && data[3] == 0x4F {
        flatten_ciso(data)
    } else {
        Ok(vstd::slice::slice_to_vec(data))
    }
}

} // verus!
