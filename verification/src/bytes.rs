//! Words and the bytes they are stored as.

use vstd::prelude::*;

verus! {

/// The word whose big-endian bytes are `a`, `b`, `c`, `d`.
pub open spec fn be32(a: u8, b: u8, c: u8, d: u8) -> u32 {
    ((a as u32) << 24) | ((b as u32) << 16) | ((c as u32) << 8) | (d as u32)
}

/// The halfword whose big-endian bytes are `a`, `b`.
pub open spec fn be16(a: u8, b: u8) -> u16 {
    ((a as u16) << 8) | (b as u16)
}

/// Byte `i` of `word`, counting from the least significant.
pub open spec fn le_byte(word: u32, i: int) -> u8 {
    (word >> ((8 * i) as u32)) as u8
}

/// Byte `i` of `word`, counting from the most significant.
pub open spec fn be_byte(word: u32, i: int) -> u8 {
    (word >> ((24 - 8 * i) as u32)) as u8
}

/// The little-endian word at position `at` of `bytes`.
pub open spec fn le32_at(bytes: Seq<u8>, at: int) -> u32 {
    be32(bytes[at + 3], bytes[at + 2], bytes[at + 1], bytes[at])
}

/// The big-endian word at position `at` of `bytes`.
pub open spec fn be32_at(bytes: Seq<u8>, at: int) -> u32 {
    be32(bytes[at], bytes[at + 1], bytes[at + 2], bytes[at + 3])
}

/// The big-endian halfword at position `at` of `bytes`.
pub open spec fn be16_at(bytes: Seq<u8>, at: int) -> u16 {
    be16(bytes[at], bytes[at + 1])
}

/// The four little-endian bytes of `word`.
pub open spec fn le_bytes(word: u32) -> Seq<u8> {
    Seq::new(4, |i: int| le_byte(word, i))
}

/// The four big-endian bytes of `word`.
pub open spec fn be_bytes(word: u32) -> Seq<u8> {
    Seq::new(4, |i: int| be_byte(word, i))
}

/// The little-endian bytes of `words`, one after the other.
pub open spec fn flatten(words: Seq<u32>) -> Seq<u8> {
    Seq::new(4 * words.len(), |k: int| le_byte(words[k / 4], k % 4))
}

/// Words and their bytes, bit by bit.
proof fn lemma_byte_bits(word: u32, a: u8, b: u8, c: u8, d: u8)
    by (bit_vector)
    ensures
        (((word >> 24) as u8 as u32) << 24) | (((word >> 16) as u8 as u32) << 16) | (((word
            >> 8) as u8 as u32) << 8) | ((word >> 0) as u8 as u32) == word,
        (((a as u32) << 24 | (b as u32) << 16 | (c as u32) << 8 | (d as u32)) >> 24) as u8 == a,
        (((a as u32) << 24 | (b as u32) << 16 | (c as u32) << 8 | (d as u32)) >> 16) as u8 == b,
        (((a as u32) << 24 | (b as u32) << 16 | (c as u32) << 8 | (d as u32)) >> 8) as u8 == c,
        (((a as u32) << 24 | (b as u32) << 16 | (c as u32) << 8 | (d as u32)) >> 0) as u8 == d,
        (word >> 0) as u8 == word as u8,
        word & 0x01FF_FFFF <= 0x01FF_FFFF,
        (a as u32) << 24 | (b as u32) << 16 | (c as u32) << 8 | (d as u32) == 0x100_0000 * a
            + 0x1_0000 * b + 0x100 * c + d,
        (a as u16) << 8 | (b as u16) == 0x100 * a + b,
        (word >> 24) as u8 == word / 0x100_0000,
        (word >> 16) as u8 == word / 0x1_0000 % 0x100,
        (word >> 8) as u8 == word / 0x100 % 0x100,
        (word >> 0) as u8 == word % 0x100,
        word & 0x01FF_FFFF == word % 0x0200_0000,
{
}

/// The bytes of a word, taken from the most significant down, give the word.
pub proof fn word_from_bytes(word: u32)
    ensures
        be32(be_byte(word, 0), be_byte(word, 1), be_byte(word, 2), be_byte(word, 3)) == word,
        be32(le_byte(word, 3), le_byte(word, 2), le_byte(word, 1), le_byte(word, 0)) == word,
{
    lemma_byte_bits(word, 0, 0, 0, 0);
}

/// A word built from four bytes has those bytes.
pub proof fn bytes_from_word(a: u8, b: u8, c: u8, d: u8)
    ensures
        be_byte(be32(a, b, c, d), 0) == a,
        be_byte(be32(a, b, c, d), 1) == b,
        be_byte(be32(a, b, c, d), 2) == c,
        be_byte(be32(a, b, c, d), 3) == d,
{
    lemma_byte_bits(0, a, b, c, d);
}

/// The lowest byte of a word is the word cut to a byte.
pub proof fn low_byte(word: u32)
    ensures
        (word >> 0) as u8 == word as u8,
{
    lemma_byte_bits(word, 0, 0, 0, 0);
}

/// A physical address has 25 bits.
pub proof fn physical_bits(addr: u32)
    ensures
        addr & 0x01FF_FFFF <= 0x01FF_FFFF,
{
    lemma_byte_bits(addr, 0, 0, 0, 0);
}

/// Big-endian numbers have their most significant byte first, little-endian ones their
/// least significant, whichever way they are put together.
pub proof fn byte_order(bytes: Seq<u8>, at: int)
    ensures
        be32_at(bytes, at) == 0x100_0000 * bytes[at] + 0x1_0000 * bytes[at + 1] + 0x100 * bytes[at
            + 2] + bytes[at + 3],
        le32_at(bytes, at) == bytes[at] + 0x100 * bytes[at + 1] + 0x1_0000 * bytes[at + 2]
            + 0x100_0000 * bytes[at + 3],
        be16_at(bytes, at) == 0x100 * bytes[at] + bytes[at + 1],
{
    lemma_byte_bits(0, bytes[at], bytes[at + 1], bytes[at + 2], bytes[at + 3]);
    lemma_byte_bits(0, bytes[at + 3], bytes[at + 2], bytes[at + 1], bytes[at]);
}

/// The bytes that a word is split into, as digits to base 256.
pub proof fn byte_digits(word: u32)
    ensures
        be_bytes(word).len() == 4,
        be_bytes(word)[0] == word / 0x100_0000,
        be_bytes(word)[1] == word / 0x1_0000 % 0x100,
        be_bytes(word)[2] == word / 0x100 % 0x100,
        be_bytes(word)[3] == word % 0x100,
        le_bytes(word).len() == 4,
        le_bytes(word)[0] == word % 0x100,
        le_bytes(word)[1] == word / 0x100 % 0x100,
        le_bytes(word)[2] == word / 0x1_0000 % 0x100,
        le_bytes(word)[3] == word / 0x100_0000,
{
    lemma_byte_bits(word, 0, 0, 0, 0);
}

/// The low 25 bits of an address are its remainder modulo 32 MiB.
pub proof fn low_address(addr: u32)
    ensures
        addr & 0x01FF_FFFF == addr % 0x0200_0000,
{
    lemma_byte_bits(addr, 0, 0, 0, 0);
}

/// The big-endian word whose bytes are given.
#[verifier::allow_in_spec]
pub fn word_be(a: u8, b: u8, c: u8, d: u8) -> u32
    returns
        be32(a, b, c, d),
{
    ((a as u32) << 24) | ((b as u32) << 16) | ((c as u32) << 8) | (d as u32)
}

/// The halfword whose big-endian bytes are given.
pub fn half_be(a: u8, b: u8) -> (half: u16)
    ensures
        half == be16(a, b),
{
    ((a as u16) << 8) | (b as u16)
}

/// Reads the big-endian word at position `at`.
pub fn read_be32(bytes: &[u8], at: usize) -> (word: u32)
    requires
        at + 4 <= bytes@.len(),
    ensures
        word == be32_at(bytes@, at as int),
{
    word_be(bytes[at], bytes[at + 1], bytes[at + 2], bytes[at + 3])
}

/// Reads the little-endian word at position `at`.
pub fn read_le32(bytes: &[u8], at: usize) -> (word: u32)
    requires
        at + 4 <= bytes@.len(),
    ensures
        word == le32_at(bytes@, at as int),
{
    let low: u8 = bytes[at];
    word_be(bytes[at + 3], bytes[at + 2], bytes[at + 1], low)
}

/// Appends the little-endian bytes of `word`.
pub fn push_le32(bytes: &mut Vec<u8>, word: u32)
    ensures
        final(bytes)@ == old(bytes)@ + le_bytes(word),
{
    bytes.push(word as u8);
    bytes.push((word >> 8) as u8);
    bytes.push((word >> 16) as u8);
    bytes.push((word >> 24) as u8);
    proof {
        low_byte(word);
        assert(bytes@ =~= old(bytes)@ + le_bytes(word));
    }
}

/// The word at position `i` can be read back from the flattened bytes.
pub proof fn word_of_flattened(words: Seq<u32>, i: int)
    requires
        0 <= i < words.len(),
    ensures
        le32_at(flatten(words), 4 * i) == words[i],
{
    word_from_bytes(words[i]);
    assert((4 * i) / 4 == i && (4 * i + 1) / 4 == i && (4 * i + 2) / 4 == i && (4 * i + 3) / 4
        == i);
}

} // verus!
