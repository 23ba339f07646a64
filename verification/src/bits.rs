//! Bit operations as arithmetic.

use vstd::prelude::*;

verus! {

/// Shifts, masks and casts of a word are quotients and remainders.
pub proof fn word_arithmetic(w: u32)
    by (bit_vector)
    ensures
        w >> 0u32 == w / 0x1,
        w >> 1u32 == w / 0x2,
        w >> 2u32 == w / 0x4,
        w >> 3u32 == w / 0x8,
        w >> 4u32 == w / 0x10,
        w >> 5u32 == w / 0x20,
        w >> 6u32 == w / 0x40,
        w >> 7u32 == w / 0x80,
        w >> 8u32 == w / 0x100,
        w >> 9u32 == w / 0x200,
        w >> 10u32 == w / 0x400,
        w >> 11u32 == w / 0x800,
        w >> 12u32 == w / 0x1000,
        w >> 13u32 == w / 0x2000,
        w >> 14u32 == w / 0x4000,
        w >> 15u32 == w / 0x8000,
        w >> 16u32 == w / 0x10000,
        w >> 17u32 == w / 0x20000,
        w >> 18u32 == w / 0x40000,
        w >> 19u32 == w / 0x80000,
        w >> 20u32 == w / 0x100000,
        w >> 21u32 == w / 0x200000,
        w >> 22u32 == w / 0x400000,
        w >> 23u32 == w / 0x800000,
        w >> 24u32 == w / 0x1000000,
        w >> 25u32 == w / 0x2000000,
        w >> 26u32 == w / 0x4000000,
        w >> 27u32 == w / 0x8000000,
        w >> 28u32 == w / 0x10000000,
        w >> 29u32 == w / 0x20000000,
        w >> 30u32 == w / 0x40000000,
        w >> 31u32 == w / 0x80000000,
        w & 0x1 == w % 0x2,
        w & 0x3 == w % 0x4,
        w & 0x7 == w % 0x8,
        w & 0xf == w % 0x10,
        w & 0x1f == w % 0x20,
        w & 0x3f == w % 0x40,
        w & 0x7f == w % 0x80,
        w & 0xff == w % 0x100,
        w & 0x1ff == w % 0x200,
        w & 0x3ff == w % 0x400,
        w & 0x7ff == w % 0x800,
        w & 0xfff == w % 0x1000,
        w & 0x1fff == w % 0x2000,
        w & 0x3fff == w % 0x4000,
        w & 0x7fff == w % 0x8000,
        w & 0xffff == w % 0x10000,
        w & 0x1ffff == w % 0x20000,
        w & 0x3ffff == w % 0x40000,
        w & 0x7ffff == w % 0x80000,
        w & 0xfffff == w % 0x100000,
        w & 0x1fffff == w % 0x200000,
        w & 0x3fffff == w % 0x400000,
        w & 0x7fffff == w % 0x800000,
        w & 0xffffff == w % 0x1000000,
        w & 0x1ffffff == w % 0x2000000,
        w & 0x3ffffff == w % 0x4000000,
        w & 0x7ffffff == w % 0x8000000,
        w & 0xfffffff == w % 0x10000000,
        w & 0x1fffffff == w % 0x20000000,
        w & 0x3fffffff == w % 0x40000000,
        w & 0x7fffffff == w % 0x80000000,
        w as u8 == w % 0x100,
        w as u16 == w % 0x1_0000,
        (w as i32) == if w < 0x8000_0000 {
            w as int
        } else {
            w - 0x1_0000_0000
        },
        !w == 0xFFFF_FFFF - w,
{
}

/// Shifts, masks and casts of a halfword are quotients and remainders.
pub proof fn half_arithmetic(h: u16)
    by (bit_vector)
    ensures
        h >> 0u16 == h / 0x1,
        h >> 1u16 == h / 0x2,
        h >> 2u16 == h / 0x4,
        h >> 3u16 == h / 0x8,
        h >> 4u16 == h / 0x10,
        h >> 5u16 == h / 0x20,
        h >> 6u16 == h / 0x40,
        h >> 7u16 == h / 0x80,
        h >> 8u16 == h / 0x100,
        h >> 9u16 == h / 0x200,
        h >> 10u16 == h / 0x400,
        h >> 11u16 == h / 0x800,
        h >> 12u16 == h / 0x1000,
        h >> 13u16 == h / 0x2000,
        h >> 14u16 == h / 0x4000,
        h >> 15u16 == h / 0x8000,
        h & 0x1 == h % 0x2,
        h & 0x3 == h % 0x4,
        h & 0x7 == h % 0x8,
        h & 0xf == h % 0x10,
        h & 0x1f == h % 0x20,
        h & 0x3f == h % 0x40,
        h & 0x7f == h % 0x80,
        h & 0xff == h % 0x100,
        h & 0x1ff == h % 0x200,
        h & 0x3ff == h % 0x400,
        h & 0x7ff == h % 0x800,
        h & 0xfff == h % 0x1000,
        h & 0x1fff == h % 0x2000,
        h & 0x3fff == h % 0x4000,
        h & 0x7fff == h % 0x8000,
        h as u8 == h % 0x100,
        (h as i16) == if h < 0x8000 {
            h as int
        } else {
            h - 0x1_0000
        },
        (((h as i16) as i32) << 16u32) as u32 == 0x1_0000 * h,
        (h as u32) << 16 == 0x1_0000 * h,
{
}

/// Shifts, masks and casts of a byte are quotients and remainders.
pub proof fn byte_arithmetic(b: u8)
    by (bit_vector)
    ensures
        b >> 0u8 == b / 0x1,
        b >> 1u8 == b / 0x2,
        b >> 2u8 == b / 0x4,
        b >> 3u8 == b / 0x8,
        b >> 4u8 == b / 0x10,
        b >> 5u8 == b / 0x20,
        b >> 6u8 == b / 0x40,
        b >> 7u8 == b / 0x80,
        b & 0x1 == b % 0x2,
        b & 0x3 == b % 0x4,
        b & 0x7 == b % 0x8,
        b & 0xf == b % 0x10,
        b & 0x1f == b % 0x20,
        b & 0x3f == b % 0x40,
        b & 0x7f == b % 0x80,
        (b as i8) == if b < 0x80 {
            b as int
        } else {
            b - 0x100
        },
{
}

/// Shifts and casts of a doubleword are quotients and remainders.
pub proof fn double_arithmetic(d: u64)
    by (bit_vector)
    ensures
        d as u32 == d % 0x1_0000_0000,
        d >> 0u64 == d / 0x1,
        d >> 8u64 == d / 0x100,
        d >> 16u64 == d / 0x10000,
        d >> 24u64 == d / 0x1000000,
        d >> 32u64 == d / 0x100000000,
        d >> 40u64 == d / 0x10000000000,
        d >> 48u64 == d / 0x1000000000000,
        d >> 56u64 == d / 0x100000000000000,
        d as u8 == d % 0x100,
        (d as i64) as u32 == d % 0x1_0000_0000,
        (d as i64) == if d < 0x8000_0000_0000_0000 {
            d as int
        } else {
            d - 0x1_0000_0000_0000_0000
        },
        ((d as i64) >> 32u32) as u32 == d / 0x1_0000_0000,
{
}

} // verus!
