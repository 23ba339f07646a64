//! What the commands of the graphics stream do, by their bytes.

use vstd::prelude::*;

use super::gx_fifo::{
    consumed, ActionView, ArrayDescriptor, FifoRegs, FifoView, Fog, Mode, ProjectionBits, Rgba8,
    Scissor, Topology, VertexFormat, ViewportBits,
};
use crate::bits::{byte_arithmetic, half_arithmetic, word_arithmetic};
use crate::bytes::byte_order;

verus! {

/// The stream that holds exactly `bytes`.
pub open spec fn stream(regs: FifoRegs, bytes: Seq<u8>) -> FifoView {
    FifoView { regs, pending: bytes }
}

/// The registers that a stream of exactly `bytes` leaves.
pub open spec fn regs_after(regs: FifoRegs, bytes: Seq<u8>, mode: Mode) -> FifoRegs {
    consumed(stream(regs, bytes), mode).fifo.regs
}

/// The big-endian number of two bytes.
pub open spec fn number16(bytes: Seq<u8>, at: int) -> int {
    0x100 * bytes[at] + bytes[at + 1]
}

/// The big-endian number of four bytes.
pub open spec fn number32(bytes: Seq<u8>, at: int) -> int {
    0x100_0000 * bytes[at] + 0x1_0000 * bytes[at + 1] + 0x100 * bytes[at + 2] + bytes[at + 3]
}

/// Whether `bytes` are a whole draw: an opcode from 0x80 up whose low three bits pick the
/// vertex format, the number of vertices, and that many vertices with a position.
pub open spec fn is_draw(regs: FifoRegs, bytes: Seq<u8>) -> bool {
    &&& bytes.len() >= 3
    &&& bytes[0] >= 0x80
    &&& number16(bytes, 1) > 0
    &&& regs.vcd_low / 0x200 % 4 != 0
    &&& bytes.len() == 3 + number16(bytes, 1) * regs.format((bytes[0] % 8) as int).vertex_size()
}

/// A draw reaches the renderer with the primitives that its opcode names: the hardware
/// numbers quads, triangles, triangle strips, triangle fans, lines, line strips and points
/// in steps of eight. The format, the number of vertices and the vertices are those of
/// the command, and nothing of the command is left over.
pub proof fn draws_name_their_primitives(regs: FifoRegs, bytes: Seq<u8>)
    requires
        is_draw(regs, bytes),
    ensures
        ({
            let done = consumed(stream(regs, bytes), Mode::Render);
            &&& done.fifo.pending.len() == 0
            &&& done.actions.len() > 0
            &&& done.actions.last() matches ActionView::Draw(topology, format, count, arrays, data)
            &&& 0x80 <= bytes[0] <= 0x87 ==> topology == Topology::QuadList
            &&& 0x90 <= bytes[0] <= 0x97 ==> topology == Topology::TriangleList
            &&& 0x98 <= bytes[0] <= 0x9F ==> topology == Topology::TriangleStrip
            &&& 0xA0 <= bytes[0] <= 0xA7 ==> topology == Topology::TriangleFan
            &&& 0xA8 <= bytes[0] <= 0xAF ==> topology == Topology::LineList
            &&& 0xB0 <= bytes[0] <= 0xB7 ==> topology == Topology::LineStrip
            &&& 0xB8 <= bytes[0] <= 0xBF ==> topology == Topology::PointList
            &&& format.vcd_low == regs.vcd_low
            &&& format.vcd_high == regs.vcd_high
            &&& format.vat_a == regs.vat_a[(bytes[0] % 8) as int]
            &&& format.vat_b == regs.vat_b[(bytes[0] % 8) as int]
            &&& format.vat_c == regs.vat_c[(bytes[0] % 8) as int]
            &&& count == number16(bytes, 1)
            &&& data == bytes.skip(3)
            &&& arrays.position == (ArrayDescriptor {
                address: regs.cp_array_base[0],
                stride: regs.cp_array_stride[0],
            })
            &&& arrays.normal == (ArrayDescriptor {
                address: regs.cp_array_base[1],
                stride: regs.cp_array_stride[1],
            })
            &&& arrays.chan0 == (ArrayDescriptor {
                address: regs.cp_array_base[2],
                stride: regs.cp_array_stride[2],
            })
            &&& arrays.chan1 == (ArrayDescriptor {
                address: regs.cp_array_base[3],
                stride: regs.cp_array_stride[3],
            })
            &&& arrays.tex_coords.len() == 8
            &&& arrays.general_purpose.len() == 4
            &&& forall|i: int|
                0 <= i < 8 ==> #[trigger] arrays.tex_coords[i] == (ArrayDescriptor {
                    address: regs.cp_array_base[i + 4],
                    stride: regs.cp_array_stride[i + 4],
                })
            &&& forall|i: int|
                0 <= i < 4 ==> #[trigger] arrays.general_purpose[i] == (ArrayDescriptor {
                    address: regs.cp_array_base[i + 12],
                    stride: regs.cp_array_stride[i + 12],
                })
        }),
{
    byte_arithmetic(bytes[0]);
    byte_order(bytes, 1);
    word_arithmetic(regs.vcd_low);
    lemma_shift_mask(regs.vcd_low);
    reveal_with_fuel(consumed, 2);
    assert(bytes.skip(bytes.len() as int).len() == 0);
    assert(bytes.subrange(3, bytes.len() as int) =~= bytes.skip(3));
}

proof fn lemma_shift_mask(word: u32)
    ensures
        (word >> 9) & 3 == word / 0x200 % 4,
{
    word_arithmetic(word);
    word_arithmetic(word >> 9);
}

/// A command that loads a CP register is an opcode from 0x08 to 0x0F, the register and
/// its value. Vertex descriptors are registers 0x50 and 0x60, the three parts of vertex
/// format `k` are registers 0x70, 0x80 and 0x90 plus `k`, and array `k` is at the address
/// in register 0xA0 plus `k`, its entries as far apart as register 0xB0 plus `k` says.
/// Nothing else changes, and nothing is drawn.
pub proof fn cp_registers_are_loaded(regs: FifoRegs, bytes: Seq<u8>, mode: Mode)
    requires
        bytes.len() == 6,
        0x08 <= bytes[0] <= 0x0F,
    ensures
        ({
            let done = consumed(stream(regs, bytes), mode);
            let after = done.fifo.regs;
            let reg = bytes[1];
            let val = number32(bytes, 2) as u32;
            &&& done.fifo.pending.len() == 0
            &&& done.actions.len() == 0
            &&& after == (FifoRegs {
                vcd_low: if reg == 0x50 {
                    val
                } else {
                    regs.vcd_low
                },
                vcd_high: if reg == 0x60 {
                    val
                } else {
                    regs.vcd_high
                },
                vat_a: if 0x70 <= reg < 0x78 {
                    regs.vat_a.update(reg - 0x70, val)
                } else {
                    regs.vat_a
                },
                vat_b: if 0x80 <= reg < 0x88 {
                    regs.vat_b.update(reg - 0x80, val)
                } else {
                    regs.vat_b
                },
                vat_c: if 0x90 <= reg < 0x98 {
                    regs.vat_c.update(reg - 0x90, val)
                } else {
                    regs.vat_c
                },
                cp_array_base: if 0xA0 <= reg < 0xB0 {
                    regs.cp_array_base.update(reg - 0xA0, val)
                } else {
                    regs.cp_array_base
                },
                cp_array_stride: if 0xB0 <= reg < 0xC0 {
                    regs.cp_array_stride.update(reg - 0xB0, val)
                } else {
                    regs.cp_array_stride
                },
                ..regs
            })
        }),
{
    byte_arithmetic(bytes[0]);
    byte_order(bytes, 2);
    reveal_with_fuel(consumed, 2);
    assert(bytes.skip(6).len() == 0);
}

/// A command that loads a BP register is an opcode from 0x60 to 0x67, the register and
/// three bytes of its value. Register 0x45 signals that drawing is done; 0x47 sets the
/// token, and 0x48 sets and signals it. Without a mask the register holds the value; a
/// mask in register 0xFE keeps the bits outside it, and is then used up.
pub proof fn bp_registers_are_loaded(regs: FifoRegs, bytes: Seq<u8>, mode: Mode)
    requires
        bytes.len() == 5,
        0x60 <= bytes[0] <= 0x67,
        regs.bp_regs.len() == 256,
    ensures
        ({
            let done = consumed(stream(regs, bytes), mode);
            let after = done.fifo.regs;
            let reg = bytes[1];
            let val = (0x1_0000 * bytes[2] + 0x100 * bytes[3] + bytes[4]) as u32;
            let mask = regs.bp_regs[0xFE];
            &&& done.fifo.pending.len() == 0
            &&& after.pe_finish_pending == (regs.pe_finish_pending || reg == 0x45)
            &&& after.pe_token_pending == (regs.pe_token_pending || reg == 0x48)
            &&& after.pe_token == if reg == 0x47 || reg == 0x48 {
                (0x100 * bytes[3] + bytes[4]) as u16
            } else {
                regs.pe_token
            }
            &&& mode == Mode::Simple ==> after.bp_regs == regs.bp_regs
            &&& mode != Mode::Simple && mask == 0 ==> after.bp_regs == regs.bp_regs.update(
                reg as int,
                val,
            )
            &&& mode != Mode::Simple && mask != 0 ==> {
                &&& reg != 0xFE ==> after.bp_regs[reg as int] & mask == val & mask
                &&& reg != 0xFE ==> after.bp_regs[reg as int] & !mask == regs.bp_regs[reg as int]
                    & !mask
                &&& after.bp_regs[0xFE] == 0
                &&& forall|i: int|
                    0 <= i < 256 && i != reg && i != 0xFE ==> #[trigger] after.bp_regs[i]
                        == regs.bp_regs[i]
            }
            &&& after.vcd_low == regs.vcd_low && after.vcd_high == regs.vcd_high
            &&& after.vat_a == regs.vat_a && after.vat_b == regs.vat_b && after.vat_c
                == regs.vat_c
            &&& after.cp_array_base == regs.cp_array_base
            &&& after.cp_array_stride == regs.cp_array_stride
            &&& after.xf_regs == regs.xf_regs
        }),
{
    byte_arithmetic(bytes[0]);
    byte_order(seq![0u8, bytes[2], bytes[3], bytes[4]], 0);
    reveal_with_fuel(consumed, 2);
    assert(bytes.skip(5).len() == 0);
    let val = (0x1_0000 * bytes[2] + 0x100 * bytes[3] + bytes[4]) as u32;
    lemma_format_bits(0, val, regs.bp_regs[bytes[1] as int], regs.bp_regs[0xFE], 0);
}

/// What the renderer is told after a BP register was loaded, with no change told before
/// and no mask: depth, blending and constant alpha in registers 0x40 to 0x42, the scissor
/// rectangle in 0x20, 0x21 and 0x59, the alpha test in 0xF3, fog in 0xEE to 0xF2 with its
/// colour as red, green and blue bytes from the top, and the clear colour in 0x4F and 0x50:
/// alpha above red, green above blue.
pub proof fn bp_changes_are_told(regs: FifoRegs, bytes: Seq<u8>)
    requires
        bytes.len() == 5,
        0x60 <= bytes[0] <= 0x67,
        regs.bp_regs.len() == 256,
        !regs.flags.bp_pixel && !regs.flags.bp_scissor && !regs.flags.bp_env
            && !regs.flags.bp_clear,
    ensures
        ({
            let done = consumed(stream(regs, bytes), Mode::Render);
            let bp = done.fifo.regs.bp_regs;
            let told = done.actions;
            let reg = bytes[1];
            &&& 0x40 <= reg <= 0x42 ==> told == seq![
                ActionView::SetDepthMode(bp[0x40]),
                ActionView::SetBlendMode(bp[0x41]),
                ActionView::SetConstantAlpha(bp[0x42]),
            ]
            &&& reg == 0x20 || reg == 0x21 || reg == 0x59 ==> told == seq![
                ActionView::SetScissor(
                    Scissor { top_left: bp[0x20], bottom_right: bp[0x21], offset: bp[0x59] },
                ),
            ]
            &&& 0xEE <= reg <= 0xF3 ==> told == seq![
                ActionView::SetAlphaTest(bp[0xF3]),
                ActionView::SetFog(
                    Fog {
                        a: bp[0xEE],
                        b0: bp[0xEF],
                        b1: bp[0xF0],
                        c: bp[0xF1],
                        color: Rgba8 {
                            r: (bp[0xF2] / 0x1_0000 % 0x100) as u8,
                            g: (bp[0xF2] / 0x100 % 0x100) as u8,
                            b: (bp[0xF2] % 0x100) as u8,
                            a: 255,
                        },
                    },
                ),
            ]
            &&& 0x4F <= reg <= 0x51 ==> told == seq![
                ActionView::SetClearColor(
                    Rgba8 {
                        r: (bp[0x4F] % 0x100) as u8,
                        g: (bp[0x50] / 0x100 % 0x100) as u8,
                        b: (bp[0x50] % 0x100) as u8,
                        a: (bp[0x4F] / 0x100 % 0x100) as u8,
                    },
                ),
            ]
            &&& !(0x40 <= reg <= 0x42) && reg != 0x20 && reg != 0x21 && reg != 0x59 && !(0xEE
                <= reg <= 0xF3) && !(0x4F <= reg <= 0x51) ==> told.len() == 0
        }),
{
    byte_arithmetic(bytes[0]);
    reveal_with_fuel(consumed, 2);
    assert(bytes.skip(5).len() == 0);
    let bp = consumed(stream(regs, bytes), Mode::Render).fifo.regs.bp_regs;
    lemma_format_bits(bp[0xF2], 0, 0, 0, bp[0x4F]);
    lemma_format_bits(bp[0x50], 0, 0, 0, 0);
    let told = consumed(stream(regs, bytes), Mode::Render).actions;
    let none = Seq::<ActionView>::empty();
    assert(none + none + none + none =~= none);
    assert(told + none =~= told);
}

/// Bytes of one coordinate, by its format.
pub open spec fn coordinate_bytes(fmt: int) -> int {
    if fmt == 4 {
        4
    } else if fmt / 2 == 1 {
        2
    } else {
        1
    }
}

/// Bytes of a colour, by its format.
pub open spec fn color_bytes(fmt: int) -> int {
    if fmt % 3 == 0 && fmt < 6 {
        2
    } else if fmt % 3 == 1 && fmt < 6 {
        3
    } else {
        4
    }
}

/// Bytes of an attribute: none, in the vertex, or an index of one or two bytes.
pub open spec fn attribute_bytes(mode: int, direct: int) -> int {
    if mode == 1 {
        direct
    } else if mode >= 2 {
        mode - 1
    } else {
        0
    }
}

/// Bytes of a number of coordinates: so many, or so many more if `more` is set.
pub open spec fn coordinates_bytes(few: int, many: int, more: int, fmt: int) -> int {
    if more == 0 {
        few * coordinate_bytes(fmt)
    } else {
        many * coordinate_bytes(fmt)
    }
}

/// The nine matrix indices of a vertex, of a byte each.
pub open spec fn matrix_bytes(low: int) -> int {
    low % 2 + low / 2 % 2 + low / 4 % 2 + low / 8 % 2 + low / 0x10 % 2 + low / 0x20 % 2 + low / 0x40
        % 2 + low / 0x80 % 2 + low / 0x100 % 2
}

/// Bytes of texture coordinate `k`.
pub open spec fn texture_bytes(k: int, f: VertexFormat) -> int {
    let high = f.vcd_high as int;
    let a = f.vat_a as int;
    let b = f.vat_b as int;
    let c = f.vat_c as int;
    if k == 0 {
        attribute_bytes(high % 4, coordinates_bytes(1, 2, a / 0x20_0000 % 2, a / 0x40_0000 % 8))
    } else if k == 1 {
        attribute_bytes(high / 4 % 4, coordinates_bytes(1, 2, b % 2, b / 2 % 8))
    } else if k == 2 {
        attribute_bytes(high / 0x10 % 4, coordinates_bytes(1, 2, b / 0x200 % 2, b / 0x400 % 8))
    } else if k == 3 {
        attribute_bytes(
            high / 0x40 % 4, coordinates_bytes(1, 2, b / 0x4_0000 % 2, b / 0x8_0000 % 8),
        )
    } else if k == 4 {
        attribute_bytes(
            high / 0x100 % 4, coordinates_bytes(1, 2, b / 0x800_0000 % 2, b / 0x1000_0000 % 8),
        )
    } else if k == 5 {
        attribute_bytes(high / 0x400 % 4, coordinates_bytes(1, 2, c / 0x20 % 2, c / 0x40 % 8))
    } else if k == 6 {
        attribute_bytes(high / 0x1000 % 4, coordinates_bytes(1, 2, c / 0x4000 % 2, c / 0x8000 % 8))
    } else {
        attribute_bytes(
            high / 0x4000 % 4, coordinates_bytes(1, 2, c / 0x80_0000 % 2, c / 0x100_0000 % 8),
        )
    }
}

proof fn lemma_texture(k: nat, f: VertexFormat)
    requires
        k < 8,
    ensures
        f.textures_size(k + 1) == f.textures_size(k) + texture_bytes(k as int, f),
{
    lemma_format_bits(f.vcd_low, f.vcd_high, f.vat_a, f.vat_b, f.vat_c);
}

proof fn lemma_matrices(f: VertexFormat)
    ensures
        crate::web::gx_fifo::set_bits(f.vcd_low, 9) == matrix_bytes(f.vcd_low as int),
{
    lemma_format_bits(f.vcd_low, 0, 0, 0, 0);
    reveal_with_fuel(crate::web::gx_fifo::set_bits, 10);
}

/// The size of a vertex, from the fields of its description: a byte for each of nine
/// matrix indices, then position, normal, two colours and eight texture coordinates.
pub proof fn vertices_are_measured(f: VertexFormat)
    ensures
        ({
            let low = f.vcd_low as int;
            let a = f.vat_a as int;
            f.vertex_size() == matrix_bytes(low) + attribute_bytes(
                low / 0x200 % 4,
                coordinates_bytes(2, 3, a % 2, a / 2 % 8),
            ) + attribute_bytes(
                low / 0x800 % 4,
                coordinates_bytes(3, 9, a / 0x200 % 2, a / 0x400 % 8),
            ) + attribute_bytes(low / 0x2000 % 4, color_bytes(a / 0x4000 % 8)) + attribute_bytes(
                low / 0x8000 % 4,
                color_bytes(a / 0x4_0000 % 8),
            ) + texture_bytes(0, f) + texture_bytes(1, f) + texture_bytes(2, f) + texture_bytes(
                3,
                f,
            ) + texture_bytes(4, f) + texture_bytes(5, f) + texture_bytes(6, f) + texture_bytes(
                7,
                f,
            )
        }),
{
    lemma_matrices(f);
    assert(f.textures_size(0) == 0);
    lemma_texture(0, f);
    lemma_texture(1, f);
    lemma_texture(2, f);
    lemma_texture(3, f);
    lemma_texture(4, f);
    lemma_texture(5, f);
    lemma_texture(6, f);
    lemma_texture(7, f);
    lemma_attributes(f);
}

proof fn lemma_attributes(f: VertexFormat)
    ensures
        ({
            let low = f.vcd_low as int;
            let a = f.vat_a as int;
            f.vertex_size() == crate::web::gx_fifo::set_bits(f.vcd_low, 9) + attribute_bytes(
                low / 0x200 % 4,
                coordinates_bytes(2, 3, a % 2, a / 2 % 8),
            ) + attribute_bytes(
                low / 0x800 % 4,
                coordinates_bytes(3, 9, a / 0x200 % 2, a / 0x400 % 8),
            ) + attribute_bytes(low / 0x2000 % 4, color_bytes(a / 0x4000 % 8)) + attribute_bytes(
                low / 0x8000 % 4,
                color_bytes(a / 0x4_0000 % 8),
            ) + f.textures_size(8)
        }),
{
    lemma_format_bits(f.vcd_low, f.vcd_high, f.vat_a, f.vat_b, f.vat_c);
}

proof fn lemma_format_bits(low: u32, high: u32, a: u32, b: u32, c: u32)
    by (bit_vector)
    ensures
        (low >> 0u32) & 1 == low / 0x1 % 2,
        (low >> 1u32) & 1 == low / 0x2 % 2,
        (low >> 2u32) & 1 == low / 0x4 % 2,
        (low >> 3u32) & 1 == low / 0x8 % 2,
        (low >> 4u32) & 1 == low / 0x10 % 2,
        (low >> 5u32) & 1 == low / 0x20 % 2,
        (low >> 6u32) & 1 == low / 0x40 % 2,
        (low >> 7u32) & 1 == low / 0x80 % 2,
        (low >> 8u32) & 1 == low / 0x100 % 2,
        (low >> 9u32) & 3 == low / 0x200 % 4,
        (low >> 11u32) & 3 == low / 0x800 % 4,
        (low >> 13u32) & 3 == low / 0x2000 % 4,
        (low >> 15u32) & 3 == low / 0x8000 % 4,
        (high >> 0u32) & 3 == high / 0x1 % 4,
        (high >> 2u32) & 3 == high / 0x4 % 4,
        (high >> 4u32) & 3 == high / 0x10 % 4,
        (high >> 6u32) & 3 == high / 0x40 % 4,
        (high >> 8u32) & 3 == high / 0x100 % 4,
        (high >> 10u32) & 3 == high / 0x400 % 4,
        (high >> 12u32) & 3 == high / 0x1000 % 4,
        (high >> 14u32) & 3 == high / 0x4000 % 4,
        a & 1 == a % 2,
        b & 1 == b % 2,
        (a >> 1) & 7 == a / 0x2 % 8,
        (a >> 9) & 1 == a / 0x200 % 2,
        (a >> 10) & 7 == a / 0x400 % 8,
        (a >> 14) & 7 == a / 0x4000 % 8,
        (a >> 18) & 7 == a / 0x40000 % 8,
        (a >> 21) & 1 == a / 0x200000 % 2,
        (a >> 22) & 7 == a / 0x400000 % 8,
        (b >> 1) & 7 == b / 0x2 % 8,
        (b >> 9) & 1 == b / 0x200 % 2,
        (b >> 10) & 7 == b / 0x400 % 8,
        (b >> 18) & 1 == b / 0x40000 % 2,
        (b >> 19) & 7 == b / 0x80000 % 8,
        (b >> 27) & 1 == b / 0x8000000 % 2,
        (b >> 28) & 7 == b / 0x10000000 % 8,
        (c >> 5) & 1 == c / 0x20 % 2,
        (c >> 6) & 7 == c / 0x40 % 8,
        (c >> 14) & 1 == c / 0x4000 % 2,
        (c >> 15) & 7 == c / 0x8000 % 8,
        (c >> 23) & 1 == c / 0x800000 % 2,
        (c >> 24) & 7 == c / 0x1000000 % 8,
        (low >> 16) as u8 == low / 0x1_0000 % 0x100,
        (low >> 8) as u8 == low / 0x100 % 0x100,
        low as u8 == low % 0x100,
        (c >> 8) as u8 == c / 0x100 % 0x100,
        c as u8 == c % 0x100,
        ((a & !b) | (high & b)) & b == high & b,
        ((a & !b) | (high & b)) & !b == a & !b,
        (high & 0xFFFF) as u16 == high % 0x1_0000,
{
}

/// Commands that are not whole wait for more bytes.
pub proof fn short_commands_wait(regs: FifoRegs, bytes: Seq<u8>, mode: Mode)
    requires
        bytes.len() > 0,
        0x08 <= bytes[0] <= 0x0F && bytes.len() < 6 || 0x10 <= bytes[0] <= 0x17 && (bytes.len() < 5
            || bytes.len() < 5 + 4 * (1 + number16(bytes, 1) % 16)) || 0x20 <= bytes[0] <= 0x3F
            && bytes.len() < 5 || 0x40 <= bytes[0] <= 0x47 && bytes.len() < 9 || 0x60 <= bytes[0]
            <= 0x67 && bytes.len() < 5 || 0x80 <= bytes[0] && bytes.len() < 3,
    ensures
        consumed(stream(regs, bytes), mode).fifo == stream(regs, bytes),
        consumed(stream(regs, bytes), mode).actions.len() == 0,
{
    byte_arithmetic(bytes[0]);
    byte_order(bytes, 1);
    half_arithmetic(crate::bytes::be16_at(bytes, 1));
}

/// Commands without effect here are skipped, each with its payload: indexed loads have
/// four bytes, a call eight, and the rest none.
pub proof fn other_commands_are_skipped(regs: FifoRegs, bytes: Seq<u8>, mode: Mode)
    requires
        bytes.len() > 0,
        bytes.len() == if 0x20 <= bytes[0] <= 0x3F {
            5int
        } else if 0x40 <= bytes[0] <= 0x47 {
            9
        } else {
            1
        },
        bytes[0] < 0x08 || 0x18 <= bytes[0] < 0x60 || 0x68 <= bytes[0] < 0x80,
    ensures
        consumed(stream(regs, bytes), mode).fifo == stream(regs, Seq::empty()),
        consumed(stream(regs, bytes), mode).actions.len() == 0,
{
    byte_arithmetic(bytes[0]);
    reveal_with_fuel(consumed, 2);
    assert(bytes.skip(bytes.len() as int) =~= Seq::empty());
}

proof fn lemma_xf_loaded(regs: FifoRegs, bytes: Seq<u8>, at: int, base: u16, n: nat, i: int)
    requires
        regs.xf_regs.len() == 0x1058,
        base + n <= 0x1_0000,
    ensures
        ({
            let after = regs.xf_loaded(bytes, at, base, n);
            &&& after.xf_regs.len() == 0x1058
            &&& 0 <= i < n && base + i < 0x1058 ==> after.xf_regs[base + i] == number32(
                bytes,
                at + 4 * i,
            )
            &&& 0 <= i < 0x1058 && (i < base || i >= base + n) ==> after.xf_regs[i]
                == regs.xf_regs[i]
            &&& after == (FifoRegs { xf_regs: after.xf_regs, flags: after.flags, ..regs })
        }),
    decreases n,
{
    if n > 0 {
        lemma_xf_loaded(regs, bytes, at, base, (n - 1) as nat, i);
        byte_order(bytes, at + 4 * (n - 1));
    }
}

/// A command that loads XF registers is an opcode from 0x10 to 0x17, the number of words
/// less one in the low four bits of a halfword, the first register, and the words: each
/// goes to the next register, where there is one, and no other register changes.
pub proof fn xf_registers_are_loaded(regs: FifoRegs, bytes: Seq<u8>, mode: Mode, i: int)
    requires
        bytes.len() >= 5,
        0x10 <= bytes[0] <= 0x17,
        bytes.len() == 5 + 4 * (1 + number16(bytes, 1) % 16),
        number16(bytes, 3) <= 0xFFF0,
        regs.xf_regs.len() == 0x1058,
        mode != Mode::Simple,
    ensures
        ({
            let done = consumed(stream(regs, bytes), mode);
            let base = number16(bytes, 3);
            let n = 1 + number16(bytes, 1) % 16;
            let after = done.fifo.regs;
            &&& done.fifo.pending.len() == 0
            &&& done.actions.len() == 0
            &&& after.xf_regs.len() == 0x1058
            &&& 0 <= i < n && base + i < 0x1058 ==> after.xf_regs[base + i] == number32(
                bytes,
                5 + 4 * i,
            )
            &&& 0 <= i < 0x1058 && (i < base || i >= base + n) ==> after.xf_regs[i]
                == regs.xf_regs[i]
            &&& after == (FifoRegs { xf_regs: after.xf_regs, flags: after.flags, ..regs })
        }),
{
    byte_arithmetic(bytes[0]);
    byte_order(bytes, 1);
    byte_order(bytes, 3);
    half_arithmetic(crate::bytes::be16_at(bytes, 1));
    let base = crate::bytes::be16_at(bytes, 3);
    let n = (1 + number16(bytes, 1) % 16) as nat;
    lemma_xf_loaded(regs, bytes, 5, base, n, i);
    reveal_with_fuel(consumed, 2);
    assert(bytes.skip(bytes.len() as int).len() == 0);
}

/// Before the first draw after a change, the renderer is told of the viewport in XF
/// registers 0x101A to 0x101F, three scales and three offsets, and of the projection in
/// 0x1021 to 0x1026, which is orthographic if register 0x1020 is not zero.
pub proof fn xf_changes_are_told(regs: FifoRegs, bytes: Seq<u8>)
    requires
        is_draw(regs, bytes),
        regs.flags.xf_viewport,
        regs.flags.xf_projection,
    ensures
        ({
            let told = consumed(stream(regs, bytes), Mode::Render).actions;
            let xf = regs.xf_regs;
            &&& told.len() == 3
            &&& told[0] == ActionView::SetViewport(
                ViewportBits {
                    scale_x: xf[0x101A],
                    scale_y: xf[0x101B],
                    scale_z: xf[0x101C],
                    offset_x: xf[0x101D],
                    offset_y: xf[0x101E],
                    offset_z: xf[0x101F],
                },
            )
            &&& told[1] == ActionView::SetProjectionMatrix(
                ProjectionBits {
                    a: xf[0x1021],
                    b: xf[0x1022],
                    c: xf[0x1023],
                    d: xf[0x1024],
                    e: xf[0x1025],
                    f: xf[0x1026],
                    orthographic: xf[0x1020] != 0,
                },
            )
            &&& told[2] is Draw
        }),
{
    byte_arithmetic(bytes[0]);
    byte_order(bytes, 1);
    lemma_shift_mask(regs.vcd_low);
    reveal_with_fuel(consumed, 2);
    assert(bytes.skip(bytes.len() as int).len() == 0);
}

/// Matrices in the XF registers: position matrices have three rows of four numbers, from
/// register four times their index up, and normal matrices three rows of three, from 0x400
/// plus three times their index. The missing row and column are those of the identity.
pub proof fn matrices_are_read_by_rows(regs: FifoRegs, index: u16, col: int, row: int)
    requires
        0 <= col < 4,
        0 <= row < 4,
        index < 64,
    ensures
        row < 3 ==> regs.matrix_element(false, index, col, row) == regs.xf_regs[4 * index + 4 * row
            + col],
        row < 3 && col < 3 ==> regs.matrix_element(true, index, col, row) == regs.xf_regs[0x400 + 3
            * index + 3 * row + col],
        row == 3 ==> regs.matrix_element(false, index, col, row) == if col == 3 {
            0x3F80_0000u32
        } else {
            0
        },
        row == 3 || col == 3 ==> regs.matrix_element(true, index, col, row) == if col == row {
            0x3F80_0000u32
        } else {
            0
        },
{
}

} // verus!
