//! The graphics command stream.
//!
//! Bytes that the processor sends are collected and taken as commands as soon as
//! they are complete. A command is an opcode byte and a payload; the high five
//! bits of the opcode are the operation, the low three bits pick a vertex format.
//!
//! | Opcode      | Operation               | Payload                            |
//! |-------------|-------------------------|------------------------------------|
//! | 0x00        | no operation            | none                               |
//! | 0x08        | load CP register        | 1-byte register, 4-byte value      |
//! | 0x10        | load XF registers       | 2-byte count, 2-byte base, words   |
//! | 0x20 - 0x38 | load XF by index        | 4 bytes                            |
//! | 0x40        | call display list       | 8 bytes                            |
//! | 0x48        | invalidate vertex cache | none                               |
//! | 0x61        | load BP register        | 1-byte register, 3-byte value      |
//! | 0x80 - 0xFF | draw                    | 2-byte count, vertices             |

use vstd::prelude::*;

use crate::bytes::{be16_at, be32, be32_at, half_be, read_be32, word_be};

verus! {

/// BP register that signals the end of drawing.
pub const BP_PIXEL_DONE: u8 = 0x45;

/// BP register that sets the token.
pub const BP_PIXEL_TOKEN: u8 = 0x47;

/// BP register that sets the token and signals it.
pub const BP_PIXEL_TOKEN_INT: u8 = 0x48;

pub const BP_SCISSOR_TL: u8 = 0x20;

pub const BP_SCISSOR_BR: u8 = 0x21;

pub const BP_Z_MODE: u8 = 0x40;

pub const BP_BLEND_MODE: u8 = 0x41;

pub const BP_CONST_ALPHA: u8 = 0x42;

pub const BP_CLEAR_AR: u8 = 0x4F;

pub const BP_CLEAR_GB: u8 = 0x50;

pub const BP_CLEAR_Z: u8 = 0x51;

pub const BP_SCISSOR_OFFSET: u8 = 0x59;

pub const BP_FOG_A: u8 = 0xEE;

pub const BP_FOG_B0: u8 = 0xEF;

pub const BP_FOG_B1: u8 = 0xF0;

pub const BP_FOG_C: u8 = 0xF1;

pub const BP_FOG_COLOR: u8 = 0xF2;

pub const BP_TEV_ALPHA_FUNC: u8 = 0xF3;

/// BP register that masks the next BP write.
pub const BP_MASK: u8 = 0xFE;

pub const XF_CHAN0_COLOR_CTRL: u16 = 0x100D;

pub const XF_CHAN1_COLOR_CTRL: u16 = 0x100E;

pub const XF_CHAN0_ALPHA_CTRL: u16 = 0x1011;

pub const XF_CHAN1_ALPHA_CTRL: u16 = 0x1012;

pub const XF_VIEWPORT_START: u16 = 0x101A;

pub const XF_VIEWPORT_END: u16 = 0x101F;

pub const XF_PROJECTION_START: u16 = 0x1020;

pub const XF_PROJECTION_END: u16 = 0x1026;

/// Number of XF registers that are kept.
pub const XF_REG_COUNT: usize = 0x1058;

/// First XF register of the normal matrices.
pub const XF_NORMAL_BASE: usize = 0x0400;

/// Bits of the number one in single precision.
pub const ONE_BITS: u32 = 0x3F80_0000;

/// What is done with the commands.
#[derive(Clone, Copy, Debug, PartialEq, Eq, Structural)]
pub enum Mode {
    /// Only the registers that bear on interrupts and vertex sizes are tracked.
    Simple,
    /// Every register is tracked, and nothing is drawn.
    Track,
    /// Every register is tracked, and the renderer is told what to do.
    Render,
}

/// How vertices make up primitives.
#[derive(Clone, Copy, Debug, PartialEq, Eq, Structural)]
pub enum Topology {
    QuadList,
    TriangleList,
    TriangleStrip,
    TriangleFan,
    LineList,
    LineStrip,
    PointList,
}

/// A colour.
#[derive(Clone, Copy, Debug, PartialEq, Eq, Structural)]
pub struct Rgba8 {
    pub r: u8,
    pub g: u8,
    pub b: u8,
    pub a: u8,
}

/// Fog parameters, as they stand in the registers.
#[derive(Clone, Copy, Debug, PartialEq, Eq, Structural)]
pub struct Fog {
    pub a: u32,
    pub b0: u32,
    pub b1: u32,
    pub c: u32,
    pub color: Rgba8,
}

/// Scissor rectangle, as it stands in the registers.
#[derive(Clone, Copy, Debug, PartialEq, Eq, Structural)]
pub struct Scissor {
    pub top_left: u32,
    pub bottom_right: u32,
    pub offset: u32,
}

/// Viewport: bits of the single-precision numbers in the XF registers.
#[derive(Clone, Copy, Debug, PartialEq, Eq, Structural)]
pub struct ViewportBits {
    pub scale_x: u32,
    pub scale_y: u32,
    pub scale_z: u32,
    pub offset_x: u32,
    pub offset_y: u32,
    pub offset_z: u32,
}

/// Projection: bits of the single-precision parameters in the XF registers.
#[derive(Clone, Copy, Debug, PartialEq, Eq, Structural)]
pub struct ProjectionBits {
    pub a: u32,
    pub b: u32,
    pub c: u32,
    pub d: u32,
    pub e: u32,
    pub f: u32,
    pub orthographic: bool,
}

/// Vertex format: which attributes there are and how each is stored.
#[derive(Clone, Copy, Debug, PartialEq, Eq, Structural)]
pub struct VertexFormat {
    pub vcd_low: u32,
    pub vcd_high: u32,
    pub vat_a: u32,
    pub vat_b: u32,
    pub vat_c: u32,
}

/// Where an array of vertex attributes is.
#[derive(Clone, Copy, Debug, PartialEq, Eq, Structural)]
pub struct ArrayDescriptor {
    /// Guest address of the first entry.
    pub address: u32,
    /// Bytes from one entry to the next.
    pub stride: u32,
}

/// The arrays that indexed attributes of a vertex are taken from.
#[derive(Clone, Copy, Debug)]
pub struct Arrays {
    pub position: ArrayDescriptor,
    pub normal: ArrayDescriptor,
    pub chan0: ArrayDescriptor,
    pub chan1: ArrayDescriptor,
    pub tex_coords: [ArrayDescriptor; 8],
    pub general_purpose: [ArrayDescriptor; 4],
}

/// The arrays, with lists as sequences.
#[verifier::ext_equal]
pub struct ArraysView {
    pub position: ArrayDescriptor,
    pub normal: ArrayDescriptor,
    pub chan0: ArrayDescriptor,
    pub chan1: ArrayDescriptor,
    pub tex_coords: Seq<ArrayDescriptor>,
    pub general_purpose: Seq<ArrayDescriptor>,
}

impl View for Arrays {
    type V = ArraysView;

    open spec fn view(&self) -> ArraysView {
        ArraysView {
            position: self.position,
            normal: self.normal,
            chan0: self.chan0,
            chan1: self.chan1,
            tex_coords: self.tex_coords@,
            general_purpose: self.general_purpose@,
        }
    }
}

/// A draw command.
pub struct DrawCall {
    pub topology: Topology,
    pub format: VertexFormat,
    pub count: u16,
    /// The arrays that indexed attributes are taken from.
    pub arrays: Arrays,
    /// The vertices, one after the other.
    pub data: Vec<u8>,
}

/// What the renderer has to do.
pub enum RenderAction {
    SetDepthMode(u32),
    SetBlendMode(u32),
    SetConstantAlpha(u32),
    SetScissor(Scissor),
    SetAlphaTest(u32),
    SetFog(Fog),
    SetClearColor(Rgba8),
    SetViewport(ViewportBits),
    SetProjectionMatrix(ProjectionBits),
    Draw(DrawCall),
}

/// What the renderer has to do, with vertices as a sequence.
pub enum ActionView {
    SetDepthMode(u32),
    SetBlendMode(u32),
    SetConstantAlpha(u32),
    SetScissor(Scissor),
    SetAlphaTest(u32),
    SetFog(Fog),
    SetClearColor(Rgba8),
    SetViewport(ViewportBits),
    SetProjectionMatrix(ProjectionBits),
    Draw(Topology, VertexFormat, u16, ArraysView, Seq<u8>),
}

impl View for RenderAction {
    type V = ActionView;

    open spec fn view(&self) -> ActionView {
        match *self {
            RenderAction::SetDepthMode(v) => ActionView::SetDepthMode(v),
            RenderAction::SetBlendMode(v) => ActionView::SetBlendMode(v),
            RenderAction::SetConstantAlpha(v) => ActionView::SetConstantAlpha(v),
            RenderAction::SetScissor(v) => ActionView::SetScissor(v),
            RenderAction::SetAlphaTest(v) => ActionView::SetAlphaTest(v),
            RenderAction::SetFog(v) => ActionView::SetFog(v),
            RenderAction::SetClearColor(v) => ActionView::SetClearColor(v),
            RenderAction::SetViewport(v) => ActionView::SetViewport(v),
            RenderAction::SetProjectionMatrix(v) => ActionView::SetProjectionMatrix(v),
            RenderAction::Draw(d) => ActionView::Draw(
                d.topology,
                d.format,
                d.count,
                d.arrays@,
                d.data@,
            ),
        }
    }
}

/// The views of `actions`.
pub open spec fn views(actions: Seq<RenderAction>) -> Seq<ActionView> {
    Seq::new(actions.len(), |i: int| actions[i]@)
}

/// The command stream and the registers that it sets.
pub struct GxFifo {
    /// Bytes that are not yet part of a complete command.
    pub buf: Vec<u8>,
    pub vcd_low: u32,
    pub vcd_high: u32,
    pub vat_a: [u32; 8],
    pub vat_b: [u32; 8],
    pub vat_c: [u32; 8],
    pub cp_array_base: [u32; 16],
    pub cp_array_stride: [u32; 16],
    pub xf_regs: [u32; 4184],
    pub bp_regs: [u32; 256],
    pub flags: Flags,
    /// Whether the end of drawing was signalled.
    pub pe_finish_pending: bool,
    /// Whether a token was signalled.
    pub pe_token_pending: bool,
    /// The last token.
    pub pe_token: u16,
}

/// Which groups of registers have changed since the renderer was told.
#[derive(Clone, Copy, Debug, PartialEq, Eq, Structural)]
pub struct Flags {
    pub xf_viewport: bool,
    pub xf_projection: bool,
    pub xf_channels: bool,
    pub bp_pixel: bool,
    pub bp_scissor: bool,
    pub bp_env: bool,
    pub bp_clear: bool,
}

/// The registers, with arrays as sequences.
#[verifier::ext_equal]
pub struct FifoRegs {
    pub vcd_low: u32,
    pub vcd_high: u32,
    pub vat_a: Seq<u32>,
    pub vat_b: Seq<u32>,
    pub vat_c: Seq<u32>,
    pub cp_array_base: Seq<u32>,
    pub cp_array_stride: Seq<u32>,
    pub xf_regs: Seq<u32>,
    pub bp_regs: Seq<u32>,
    pub flags: Flags,
    pub pe_finish_pending: bool,
    pub pe_token_pending: bool,
    pub pe_token: u16,
}

/// The registers and the bytes that are waiting.
#[verifier::ext_equal]
pub struct FifoView {
    pub regs: FifoRegs,
    pub pending: Seq<u8>,
}

impl View for GxFifo {
    type V = FifoView;

    open spec fn view(&self) -> FifoView {
        FifoView {
            regs: FifoRegs {
                vcd_low: self.vcd_low,
                vcd_high: self.vcd_high,
                vat_a: self.vat_a@,
                vat_b: self.vat_b@,
                vat_c: self.vat_c@,
                cp_array_base: self.cp_array_base@,
                cp_array_stride: self.cp_array_stride@,
                xf_regs: self.xf_regs@,
                bp_regs: self.bp_regs@,
                flags: self.flags,
                pe_finish_pending: self.pe_finish_pending,
                pe_token_pending: self.pe_token_pending,
                pe_token: self.pe_token,
            },
            pending: self.buf@,
        }
    }
}

/// How many of the low `n` bits of `word` are set.
pub open spec fn set_bits(word: u32, n: nat) -> int
    decreases n,
{
    if n == 0 {
        0
    } else {
        set_bits(word, (n - 1) as nat) + if (word >> ((n - 1) as u32)) & 1 != 0 {
            1int
        } else {
            0
        }
    }
}

/// Bytes of an attribute: none, stored in the vertex, or a one- or two-byte index.
pub open spec fn attribute_size(mode: u32, direct: int) -> int {
    if mode == 1 {
        direct
    } else if mode == 2 {
        1
    } else if mode == 3 {
        2
    } else {
        0
    }
}

/// Bytes of one coordinate.
pub open spec fn coordinate_size(fmt: u32) -> int {
    if fmt == 2 || fmt == 3 {
        2
    } else if fmt == 4 {
        4
    } else {
        1
    }
}

/// Bytes of a position that is stored in the vertex.
pub open spec fn position_size(va: u32) -> int {
    let each = coordinate_size((va >> 1) & 7);
    if va & 1 == 0 {
        2 * each
    } else {
        3 * each
    }
}

/// Bytes of a normal that is stored in the vertex.
pub open spec fn normal_size(va: u32) -> int {
    let each = coordinate_size((va >> 10) & 7);
    if (va >> 9) & 1 == 0 {
        3 * each
    } else {
        9 * each
    }
}

/// Bytes of a colour that is stored in the vertex in format `fmt`.
pub open spec fn color_size(fmt: u32) -> int {
    if fmt == 0 || fmt == 3 {
        2
    } else if fmt == 1 || fmt == 4 {
        3
    } else {
        4
    }
}

/// Component count and format of texture coordinate `tc`.
pub open spec fn texture_format(tc: int, va: u32, vb: u32, vc: u32) -> (u32, u32) {
    if tc == 0 {
        ((va >> 21) & 1, (va >> 22) & 7)
    } else if tc == 1 {
        (vb & 1, (vb >> 1) & 7)
    } else if tc == 2 {
        ((vb >> 9) & 1, (vb >> 10) & 7)
    } else if tc == 3 {
        ((vb >> 18) & 1, (vb >> 19) & 7)
    } else if tc == 4 {
        ((vb >> 27) & 1, (vb >> 28) & 7)
    } else if tc == 5 {
        ((vc >> 5) & 1, (vc >> 6) & 7)
    } else if tc == 6 {
        ((vc >> 14) & 1, (vc >> 15) & 7)
    } else if tc == 7 {
        ((vc >> 23) & 1, (vc >> 24) & 7)
    } else {
        (0, 0)
    }
}

/// Bytes of texture coordinate `tc` where it is stored in the vertex.
pub open spec fn texture_size(tc: int, va: u32, vb: u32, vc: u32) -> int {
    let (kind, fmt) = texture_format(tc, va, vb, vc);
    if kind == 0 {
        coordinate_size(fmt)
    } else {
        2 * coordinate_size(fmt)
    }
}

impl FifoRegs {
    /// The vertex format that slot `vat` of the attribute tables describes.
    pub open spec fn format(self, vat: int) -> VertexFormat {
        VertexFormat {
            vcd_low: self.vcd_low,
            vcd_high: self.vcd_high,
            vat_a: self.vat_a[vat],
            vat_b: self.vat_b[vat],
            vat_c: self.vat_c[vat],
        }
    }

    /// A write to CP register `reg`.
    pub open spec fn cp_written(self, reg: u8, val: u32) -> FifoRegs {
        if reg == 0x50 {
            FifoRegs { vcd_low: val, ..self }
        } else if reg == 0x60 {
            FifoRegs { vcd_high: val, ..self }
        } else if 0x70 <= reg <= 0x77 {
            FifoRegs { vat_a: self.vat_a.update(reg - 0x70, val), ..self }
        } else if 0x80 <= reg <= 0x87 {
            FifoRegs { vat_b: self.vat_b.update(reg - 0x80, val), ..self }
        } else if 0x90 <= reg <= 0x97 {
            FifoRegs { vat_c: self.vat_c.update(reg - 0x90, val), ..self }
        } else if 0xA0 <= reg <= 0xAF {
            FifoRegs { cp_array_base: self.cp_array_base.update(reg - 0xA0, val), ..self }
        } else if 0xB0 <= reg <= 0xBF {
            FifoRegs { cp_array_stride: self.cp_array_stride.update(reg - 0xB0, val), ..self }
        } else {
            self
        }
    }

    /// What a write to BP register `reg` signals.
    pub open spec fn bp_signalled(self, reg: u8, val: u32) -> FifoRegs {
        if reg == BP_PIXEL_DONE {
            FifoRegs { pe_finish_pending: true, ..self }
        } else if reg == BP_PIXEL_TOKEN {
            FifoRegs { pe_token: (val & 0xFFFF) as u16, ..self }
        } else if reg == BP_PIXEL_TOKEN_INT {
            FifoRegs { pe_token: (val & 0xFFFF) as u16, pe_token_pending: true, ..self }
        } else {
            self
        }
    }

    /// A write to BP register `reg`.
    pub open spec fn bp_written(self, reg: u8, val: u32) -> FifoRegs {
        FifoRegs {
            bp_regs: bp_stored(self.bp_regs, reg, val),
            flags: bp_flagged(self.flags, reg),
            ..self.bp_signalled(reg, val)
        }
    }

    /// A write to XF register `addr`.
    pub open spec fn xf_written(self, addr: u16, val: u32) -> FifoRegs {
        FifoRegs {
            xf_regs: if addr < XF_REG_COUNT {
                self.xf_regs.update(addr as int, val)
            } else {
                self.xf_regs
            },
            flags: xf_flagged(self.flags, addr),
            ..self
        }
    }

    /// Writes of the first `n` words at position `at` of `bytes` to consecutive XF
    /// registers from `base` up.
    pub open spec fn xf_loaded(self, bytes: Seq<u8>, at: int, base: u16, n: nat) -> FifoRegs
        decreases n,
    {
        if n == 0 {
            self
        } else {
            self.xf_loaded(bytes, at, base, (n - 1) as nat).xf_written(
                xf_address(base, n - 1),
                be32_at(bytes, at + 4 * (n - 1)),
            )
        }
    }

    /// What the renderer is told about changed BP registers.
    pub open spec fn bp_actions(self) -> Seq<ActionView> {
        let bp = self.bp_regs;
        let pixel = if self.flags.bp_pixel {
            seq![
                ActionView::SetDepthMode(bp[BP_Z_MODE as int]),
                ActionView::SetBlendMode(bp[BP_BLEND_MODE as int]),
                ActionView::SetConstantAlpha(bp[BP_CONST_ALPHA as int]),
            ]
        } else {
            Seq::empty()
        };
        let scissor = if self.flags.bp_scissor {
            seq![
                ActionView::SetScissor(
                    Scissor {
                        top_left: bp[BP_SCISSOR_TL as int],
                        bottom_right: bp[BP_SCISSOR_BR as int],
                        offset: bp[BP_SCISSOR_OFFSET as int],
                    },
                ),
            ]
        } else {
            Seq::empty()
        };
        let env = if self.flags.bp_env {
            seq![
                ActionView::SetAlphaTest(bp[BP_TEV_ALPHA_FUNC as int]),
                ActionView::SetFog(
                    Fog {
                        a: bp[BP_FOG_A as int],
                        b0: bp[BP_FOG_B0 as int],
                        b1: bp[BP_FOG_B1 as int],
                        c: bp[BP_FOG_C as int],
                        color: fog_color(bp[BP_FOG_COLOR as int]),
                    },
                ),
            ]
        } else {
            Seq::empty()
        };
        let clear = if self.flags.bp_clear {
            seq![
                ActionView::SetClearColor(
                    clear_color(bp[BP_CLEAR_AR as int], bp[BP_CLEAR_GB as int]),
                ),
            ]
        } else {
            Seq::empty()
        };
        pixel + scissor + env + clear
    }

    /// Array `i` that the CP registers name.
    pub open spec fn array(self, i: int) -> ArrayDescriptor {
        ArrayDescriptor { address: self.cp_array_base[i], stride: self.cp_array_stride[i] }
    }

    /// The arrays that the CP registers name: positions, normals, two colours, eight
    /// texture coordinates and four for general use.
    pub open spec fn arrays(self) -> ArraysView {
        ArraysView {
            position: self.array(0),
            normal: self.array(1),
            chan0: self.array(2),
            chan1: self.array(3),
            tex_coords: Seq::new(8, |i: int| self.array(4 + i)),
            general_purpose: Seq::new(4, |i: int| self.array(12 + i)),
        }
    }

    /// The registers once the renderer was told about changed BP registers.
    pub open spec fn bp_flushed(self) -> FifoRegs {
        FifoRegs {
            flags: Flags {
                bp_pixel: false,
                bp_scissor: false,
                bp_env: false,
                bp_clear: false,
                ..self.flags
            },
            ..self
        }
    }

    /// What the renderer is told about changed XF registers.
    pub open spec fn xf_actions(self) -> Seq<ActionView> {
        let viewport = if self.flags.xf_viewport {
            seq![ActionView::SetViewport(self.viewport())]
        } else {
            Seq::empty()
        };
        let projection = if self.flags.xf_projection {
            seq![ActionView::SetProjectionMatrix(self.projection())]
        } else {
            Seq::empty()
        };
        viewport + projection
    }

    /// The registers once the renderer was told about changed XF registers.
    pub open spec fn xf_flushed(self) -> FifoRegs {
        FifoRegs {
            flags: Flags { xf_viewport: false, xf_projection: false, ..self.flags },
            ..self
        }
    }

    /// The viewport registers.
    pub open spec fn viewport(self) -> ViewportBits {
        let base = XF_VIEWPORT_START as int;
        ViewportBits {
            scale_x: self.xf_regs[base],
            scale_y: self.xf_regs[base + 1],
            scale_z: self.xf_regs[base + 2],
            offset_x: self.xf_regs[base + 3],
            offset_y: self.xf_regs[base + 4],
            offset_z: self.xf_regs[base + 5],
        }
    }

    /// The projection registers.
    pub open spec fn projection(self) -> ProjectionBits {
        let base = XF_PROJECTION_START as int;
        ProjectionBits {
            a: self.xf_regs[base + 1],
            b: self.xf_regs[base + 2],
            c: self.xf_regs[base + 3],
            d: self.xf_regs[base + 4],
            e: self.xf_regs[base + 5],
            f: self.xf_regs[base + 6],
            orthographic: self.xf_regs[base] != 0,
        }
    }

    /// Bits of the element in column `col` and row `row` of a matrix in the XF
    /// registers: three rows of four numbers, or of three for a normal matrix,
    /// completed to four by four. A matrix outside the registers is the identity.
    pub open spec fn matrix_element(self, normal: bool, index: u16, col: int, row: int) -> u32 {
        let base = if normal {
            XF_NORMAL_BASE + index * 3
        } else {
            index * 4
        };
        let width: int = if normal {
            3
        } else {
            4
        };
        let stored = base + 3 * width <= XF_REG_COUNT;
        if stored && row < 3 && col < width {
            self.xf_regs[base + width * row + col]
        } else if row == col {
            ONE_BITS
        } else {
            0
        }
    }
}

/// The BP registers after `val` was stored in `reg`. If a mask was set, it applies
/// to this store and is used up.
pub open spec fn bp_stored(bp: Seq<u32>, reg: u8, val: u32) -> Seq<u32> {
    let mask = bp[BP_MASK as int];
    if mask != 0 {
        bp.update(reg as int, (bp[reg as int] & !mask) | (val & mask)).update(BP_MASK as int, 0)
    } else {
        bp.update(reg as int, val)
    }
}

/// Address of XF register `i` from `base` up.
pub open spec fn xf_address(base: u16, i: int) -> u16 {
    ((base + i) % 0x1_0000) as u16
}

/// The flags after a write to BP register `reg`.
pub open spec fn bp_flagged(flags: Flags, reg: u8) -> Flags {
    if BP_Z_MODE <= reg <= BP_CONST_ALPHA {
        Flags { bp_pixel: true, ..flags }
    } else if reg == BP_SCISSOR_TL || reg == BP_SCISSOR_BR || reg == BP_SCISSOR_OFFSET {
        Flags { bp_scissor: true, ..flags }
    } else if BP_FOG_A <= reg <= BP_TEV_ALPHA_FUNC {
        Flags { bp_env: true, ..flags }
    } else if BP_CLEAR_AR <= reg <= BP_CLEAR_Z {
        Flags { bp_clear: true, ..flags }
    } else {
        flags
    }
}

/// The flags after a write to XF register `addr`.
pub open spec fn xf_flagged(flags: Flags, addr: u16) -> Flags {
    if XF_VIEWPORT_START <= addr <= XF_VIEWPORT_END {
        Flags { xf_viewport: true, ..flags }
    } else if XF_PROJECTION_START <= addr <= XF_PROJECTION_END {
        Flags { xf_projection: true, ..flags }
    } else if addr == XF_CHAN0_COLOR_CTRL || addr == XF_CHAN1_COLOR_CTRL || addr
        == XF_CHAN0_ALPHA_CTRL || addr == XF_CHAN1_ALPHA_CTRL {
        Flags { xf_channels: true, ..flags }
    } else {
        flags
    }
}

/// Fog colour in register value `raw`.
pub open spec fn fog_color(raw: u32) -> Rgba8 {
    Rgba8 { r: (raw >> 16) as u8, g: (raw >> 8) as u8, b: raw as u8, a: 255 }
}

/// Clear colour in the two clear-colour registers: alpha stands above red in the one,
/// and green above blue in the other.
pub open spec fn clear_color(ar: u32, gb: u32) -> Rgba8 {
    Rgba8 { r: ar as u8, g: (gb >> 8) as u8, b: gb as u8, a: (ar >> 8) as u8 }
}

/// The primitives that a draw opcode names.
pub open spec fn topology_of(opcode: u8) -> Topology {
    let op = opcode >> 3;
    if op == 0b1_0000 {
        Topology::QuadList
    } else if op == 0b1_0011 {
        Topology::TriangleStrip
    } else if op == 0b1_0100 {
        Topology::TriangleFan
    } else if op == 0b1_0101 {
        Topology::LineList
    } else if op == 0b1_0110 {
        Topology::LineStrip
    } else if op == 0b1_0111 {
        Topology::PointList
    } else {
        Topology::TriangleList
    }
}

impl VertexFormat {
    /// Bytes of a vertex.
    pub open spec fn vertex_size(self) -> int {
        set_bits(self.vcd_low, 9) + attribute_size(
            (self.vcd_low >> 9) & 3,
            position_size(self.vat_a),
        ) + attribute_size((self.vcd_low >> 11) & 3, normal_size(self.vat_a)) + attribute_size(
            (self.vcd_low >> 13) & 3,
            color_size((self.vat_a >> 14) & 7),
        ) + attribute_size((self.vcd_low >> 15) & 3, color_size((self.vat_a >> 18) & 7))
            + self.textures_size(8)
    }

    /// Bytes of the first `n` texture coordinates of a vertex.
    pub open spec fn textures_size(self, n: nat) -> int
        decreases n,
    {
        if n == 0 {
            0
        } else {
            let tc = (n - 1) as nat;
            self.textures_size(tc) + attribute_size(
                (self.vcd_high >> ((2 * tc) as u32)) & 3,
                texture_size(tc as int, self.vat_a, self.vat_b, self.vat_c),
            )
        }
    }

    /// Whether vertices have a position.
    pub open spec fn has_position(self) -> bool {
        (self.vcd_low >> 9) & 3 != 0
    }
}

/// Length of the payload of the command that `bytes` begin with, if it can be told
/// yet.
pub open spec fn payload_length(regs: FifoRegs, bytes: Seq<u8>) -> Option<int> {
    let op = bytes[0] >> 3;
    if op == 0b0_0001 {
        Some(5)
    } else if op == 0b0_0010 {
        if bytes.len() < 3 {
            None
        } else {
            Some(4 + ((be16_at(bytes, 1) & 0xF) + 1) * 4)
        }
    } else if 0b0_0100 <= op <= 0b0_0111 || op == 0b0_1100 {
        Some(4)
    } else if op == 0b0_1000 {
        Some(8)
    } else if op >= 0b1_0000 {
        if bytes.len() < 3 {
            None
        } else {
            Some(2 + be16_at(bytes, 1) * regs.format((bytes[0] & 7) as int).vertex_size())
        }
    } else {
        Some(0)
    }
}

/// What a command does: the registers after it, and what the renderer is told.
pub open spec fn command_effect(regs: FifoRegs, bytes: Seq<u8>, mode: Mode) -> (
    FifoRegs,
    Seq<ActionView>,
) {
    let op = bytes[0] >> 3;
    if op == 0b0_0001 {
        (regs.cp_written(bytes[1], be32_at(bytes, 2)), Seq::empty())
    } else if op == 0b0_0010 && mode != Mode::Simple {
        let count = (be16_at(bytes, 1) & 0xF) + 1;
        (regs.xf_loaded(bytes, 5, be16_at(bytes, 3), count as nat), Seq::empty())
    } else if op == 0b0_1100 {
        let val = be32(0, bytes[2], bytes[3], bytes[4]);
        if mode == Mode::Simple {
            (regs.bp_signalled(bytes[1], val), Seq::empty())
        } else {
            let after = regs.bp_written(bytes[1], val);
            if mode == Mode::Render {
                (after.bp_flushed(), after.bp_actions())
            } else {
                (after, Seq::empty())
            }
        }
    } else if op >= 0b1_0000 && mode == Mode::Render {
        let count = be16_at(bytes, 1);
        let format = regs.format((bytes[0] & 7) as int);
        if count != 0 && format.has_position() {
            (
                regs.xf_flushed(),
                regs.xf_actions().push(
                    ActionView::Draw(
                        topology_of(bytes[0]),
                        format,
                        count,
                        regs.arrays(),
                        bytes.subrange(3, 3 + count * format.vertex_size()),
                    ),
                ),
            )
        } else {
            (regs, Seq::empty())
        }
    } else {
        (regs, Seq::empty())
    }
}

/// Whether `bytes` begin with a complete command.
pub open spec fn command_complete(regs: FifoRegs, bytes: Seq<u8>) -> bool {
    bytes.len() > 0 && match payload_length(regs, bytes) {
        Some(payload) => 0 <= payload && 1 + payload <= bytes.len(),
        None => false,
    }
}

/// What is left when every complete command of a stream has been taken.
#[verifier::ext_equal]
pub struct Consumed {
    pub fifo: FifoView,
    pub actions: Seq<ActionView>,
}

/// Takes every complete command of `fifo`.
pub open spec fn consumed(fifo: FifoView, mode: Mode) -> Consumed
    decreases fifo.pending.len(),
{
    if !command_complete(fifo.regs, fifo.pending) {
        Consumed { fifo, actions: Seq::empty() }
    } else {
        let payload = payload_length(fifo.regs, fifo.pending).unwrap();
        let (regs, actions) = command_effect(fifo.regs, fifo.pending, mode);
        let rest = consumed(FifoView { regs, pending: fifo.pending.skip(1 + payload) }, mode);
        Consumed { fifo: rest.fifo, actions: actions + rest.actions }
    }
}

impl FifoView {
    /// The stream with a big-endian word appended.
    pub open spec fn pushed(self, word: u32) -> FifoView {
        FifoView { pending: self.pending + crate::bytes::be_bytes(word), ..self }
    }

    /// An empty stream with all registers zero.
    pub open spec fn reset() -> FifoView {
        FifoView {
            regs: FifoRegs {
                vcd_low: 0,
                vcd_high: 0,
                vat_a: Seq::new(8, |i: int| 0u32),
                vat_b: Seq::new(8, |i: int| 0u32),
                vat_c: Seq::new(8, |i: int| 0u32),
                cp_array_base: Seq::new(16, |i: int| 0u32),
                cp_array_stride: Seq::new(16, |i: int| 0u32),
                xf_regs: Seq::new(XF_REG_COUNT as nat, |i: int| 0u32),
                bp_regs: Seq::new(256, |i: int| 0u32),
                flags: Flags {
                    xf_viewport: false,
                    xf_projection: false,
                    xf_channels: false,
                    bp_pixel: false,
                    bp_scissor: false,
                    bp_env: false,
                    bp_clear: false,
                },
                pe_finish_pending: false,
                pe_token_pending: false,
                pe_token: 0,
            },
            pending: Seq::empty(),
        }
    }
}

fn attr_size(mode: u32, direct: usize) -> (size: usize)
    requires
        direct <= 36,
    ensures
        size == attribute_size(mode, direct as int),
        size <= direct + 2,
{
    match mode {
        1 => direct,
        2 => 1,
        3 => 2,
        _ => 0,
    }
}

fn coords_fmt_size(fmt: u32) -> (size: usize)
    ensures
        size == coordinate_size(fmt),
        size <= 4,
{
    match fmt {
        2 | 3 => 2,
        4 => 4,
        _ => 1,
    }
}

fn pos_direct_size(va: u32) -> (size: usize)
    ensures
        size == position_size(va),
        size <= 12,
{
    let each: usize = coords_fmt_size((va >> 1) & 7);
    if va & 1 == 0 {
        2 * each
    } else {
        3 * each
    }
}

fn norm_direct_size(va: u32) -> (size: usize)
    ensures
        size == normal_size(va),
        size <= 36,
{
    let each: usize = coords_fmt_size((va >> 10) & 7);
    if (va >> 9) & 1 == 0 {
        3 * each
    } else {
        9 * each
    }
}

fn color_direct_size(fmt: u32) -> (size: usize)
    ensures
        size == color_size(fmt),
        size <= 4,
{
    match fmt {
        0 | 3 => 2,
        1 | 4 => 3,
        _ => 4,
    }
}

fn texcoord_direct_size(tc: u32, va: u32, vb: u32, vc: u32) -> (size: usize)
    ensures
        size == texture_size(tc as int, va, vb, vc),
        size <= 8,
{
    let (kind, fmt): (u32, u32) = match tc {
        0 => ((va >> 21) & 1, (va >> 22) & 7),
        1 => (vb & 1, (vb >> 1) & 7),
        2 => ((vb >> 9) & 1, (vb >> 10) & 7),
        3 => ((vb >> 18) & 1, (vb >> 19) & 7),
        4 => ((vb >> 27) & 1, (vb >> 28) & 7),
        5 => ((vc >> 5) & 1, (vc >> 6) & 7),
        6 => ((vc >> 14) & 1, (vc >> 15) & 7),
        7 => ((vc >> 23) & 1, (vc >> 24) & 7),
        _ => (0, 0),
    };
    let each: usize = coords_fmt_size(fmt);
    if kind == 0 {
        each
    } else {
        2 * each
    }
}

/// The flags after a write to BP register `reg`.
fn flag_bp(flags: Flags, reg: u8) -> (flagged: Flags)
    ensures
        flagged == bp_flagged(flags, reg),
{
    let mut flagged = flags;
    if BP_Z_MODE <= reg && reg <= BP_CONST_ALPHA {
        flagged.bp_pixel = true;
    } else if reg == BP_SCISSOR_TL || reg == BP_SCISSOR_BR || reg == BP_SCISSOR_OFFSET {
        flagged.bp_scissor = true;
    } else if BP_FOG_A <= reg && reg <= BP_TEV_ALPHA_FUNC {
        flagged.bp_env = true;
    } else if BP_CLEAR_AR <= reg && reg <= BP_CLEAR_Z {
        flagged.bp_clear = true;
    }
    flagged
}

/// No vertex is longer than this many bytes.
pub const MAX_VERTEX_SIZE: usize = 200;

impl VertexFormat {
    /// Bytes of a vertex.
    pub fn size(&self) -> (size: usize)
        ensures
            size == self.vertex_size(),
            size <= MAX_VERTEX_SIZE,
    {
        let mut size: usize = 0;
        let mut i: u32 = 0;
        while i < 9
            invariant
                i <= 9,
                size == set_bits(self.vcd_low, i as nat),
                size <= i,
            decreases 9 - i,
        {
            if (self.vcd_low >> i) & 1 != 0 {
                size = size + 1;
            }
            i = i + 1;
        }
        size = size + attr_size((self.vcd_low >> 9) & 3, pos_direct_size(self.vat_a));
        size = size + attr_size((self.vcd_low >> 11) & 3, norm_direct_size(self.vat_a));
        size = size + attr_size(
            (self.vcd_low >> 13) & 3,
            color_direct_size((self.vat_a >> 14) & 7),
        );
        size = size + attr_size(
            (self.vcd_low >> 15) & 3,
            color_direct_size((self.vat_a >> 18) & 7),
        );
        let ghost fixed = size as int;
        let mut tc: u32 = 0;
        while tc < 8
            invariant
                tc <= 8,
                fixed <= 80,
                size == fixed + self.textures_size(tc as nat),
                size <= fixed + 10 * tc,
            decreases 8 - tc,
        {
            size = size + attr_size(
                (self.vcd_high >> (2 * tc)) & 3,
                texcoord_direct_size(tc, self.vat_a, self.vat_b, self.vat_c),
            );
            tc = tc + 1;
        }
        size
    }
}

/// The view of a longer list of actions.
proof fn lemma_views_push(actions: Seq<RenderAction>, action: RenderAction)
    ensures
        views(actions.push(action)) == views(actions).push(action@),
{
    assert(views(actions.push(action)) =~= views(actions).push(action@));
}

fn push_action(actions: &mut Vec<RenderAction>, action: RenderAction)
    ensures
        views(final(actions)@) == views(old(actions)@).push(action@),
{
    proof {
        lemma_views_push(actions@, action);
    }
    actions.push(action);
}

fn draw_topology(opcode: u8) -> (topology: Topology)
    ensures
        topology == topology_of(opcode),
{
    match opcode >> 3 {
        0b1_0000 => Topology::QuadList,
        0b1_0011 => Topology::TriangleStrip,
        0b1_0100 => Topology::TriangleFan,
        0b1_0101 => Topology::LineList,
        0b1_0110 => Topology::LineStrip,
        0b1_0111 => Topology::PointList,
        _ => Topology::TriangleList,
    }
}

/// The bytes of `buf` from `from` up to `to`.
fn copy_range(buf: &Vec<u8>, from: usize, to: usize) -> (copy: Vec<u8>)
    requires
        from <= to <= buf@.len(),
    ensures
        copy@ == buf@.subrange(from as int, to as int),
{
    let mut copy: Vec<u8> = Vec::new();
    let mut i: usize = from;
    while i < to
        invariant
            from <= i <= to <= buf@.len(),
            copy@ == buf@.subrange(from as int, i as int),
        decreases to - i,
    {
        copy.push(buf[i]);
        i = i + 1;
    }
    copy
}

impl GxFifo {
    /// The vertex format of slot `vat`, which is at most the last one.
    fn vertex_format(&self, vat: usize) -> (format: VertexFormat)
        requires
            vat < 8,
        ensures
            format == self@.regs.format(vat as int),
    {
        VertexFormat {
            vcd_low: self.vcd_low,
            vcd_high: self.vcd_high,
            vat_a: self.vat_a[vat],
            vat_b: self.vat_b[vat],
            vat_c: self.vat_c[vat],
        }
    }

    /// Bytes of a vertex in slot `vat` of the attribute tables; slots past the
    /// last stand for the last.
    pub fn vertex_size(&self, vat: usize) -> (size: usize)
        ensures
            size == self@.regs.format(
                if vat < 7 {
                    vat as int
                } else {
                    7
                },
            ).vertex_size(),
    {
        let slot: usize = if vat < 7 { vat } else { 7 };
        self.vertex_format(slot).size()
    }

    /// Appends a word and takes every complete command; the renderer is not
    /// involved.
    pub fn push_u32(&mut self, word: u32)
        ensures
            final(self)@ == consumed(old(self)@.pushed(word), Mode::Simple).fifo,
    {
        self.append_word(word);
        self.process_commands_simple();
    }

    /// Appends a word and takes every complete command; gives what the renderer
    /// has to do if there is one.
    pub fn push_u32_gfx(&mut self, word: u32, rendering: bool) -> (actions: Vec<RenderAction>)
        ensures
            ({
                let mode = if rendering {
                    Mode::Render
                } else {
                    Mode::Track
                };
                let end = consumed(old(self)@.pushed(word), mode);
                final(self)@ == end.fifo && views(actions@) == end.actions
            }),
    {
        self.append_word(word);
        self.process_pending_gfx(rendering)
    }

    fn append_word(&mut self, word: u32)
        ensures
            final(self)@ == old(self)@.pushed(word),
    {
        proof {
            crate::bytes::low_byte(word);
        }
        self.buf.push((word >> 24) as u8);
        self.buf.push((word >> 16) as u8);
        self.buf.push((word >> 8) as u8);
        self.buf.push(word as u8);
        assert(self@.pending =~= old(self)@.pending + crate::bytes::be_bytes(word));
    }

    /// Takes every complete command, as far as it bears on interrupts and vertex
    /// sizes.
    pub fn process_commands_simple(&mut self)
        ensures
            final(self)@ == consumed(old(self)@, Mode::Simple).fifo,
    {
        let actions: Vec<RenderAction> = self.process(Mode::Simple);
    }

    /// Takes every complete command; gives what the renderer has to do if there is
    /// one.
    pub fn process_pending_gfx(&mut self, rendering: bool) -> (actions: Vec<RenderAction>)
        ensures
            ({
                let mode = if rendering {
                    Mode::Render
                } else {
                    Mode::Track
                };
                let end = consumed(old(self)@, mode);
                final(self)@ == end.fifo && views(actions@) == end.actions
            }),
    {
        if rendering {
            self.process(Mode::Render)
        } else {
            self.process(Mode::Track)
        }
    }

    fn process(&mut self, mode: Mode) -> (actions: Vec<RenderAction>)
        ensures
            ({
                let end = consumed(old(self)@, mode);
                final(self)@ == end.fifo && views(actions@) == end.actions
            }),
    {
        let mut actions: Vec<RenderAction> = Vec::new();
        let mut pos: usize = 0;
        let ghost end = consumed(old(self)@, mode);
        proof {
            assert(self.buf@.skip(0) =~= self.buf@);
            assert(views(actions@) =~= Seq::empty());
            assert(views(actions@) + end.actions =~= end.actions);
        }
        loop
            invariant
                pos <= self.buf@.len(),
                self.buf@ == old(self).buf@,
                end == consumed(old(self)@, mode),
                ({
                    let here = FifoView { regs: self@.regs, pending: self.buf@.skip(pos as int) };
                    let rest = consumed(here, mode);
                    &&& end.fifo == rest.fifo
                    &&& end.actions == views(actions@) + rest.actions
                }),
            ensures
                !command_complete(self@.regs, self.buf@.skip(pos as int)),
            decreases self.buf@.len() - pos,
        {
            let ghost bytes = self.buf@.skip(pos as int);
            let total: usize = self.buf.len();
            let payload: usize = match self.complete_payload(pos) {
                Some(p) => p,
                None => {
                    break;
                },
            };
            let ghost before = self@.regs;
            let ghost told = views(actions@);
            self.execute(pos, mode, &mut actions);
            assert(pos + 1 + payload <= total);
            pos = pos + 1 + payload;
            proof {
                let (regs, new) = command_effect(before, bytes, mode);
                let rest = consumed(
                    FifoView { regs, pending: bytes.skip(1 + payload) },
                    mode,
                );
                assert(bytes.skip(1 + payload) =~= self.buf@.skip(pos as int));
                assert((told + new) + rest.actions =~= told + (new + rest.actions));
            }
        }
        proof {
            assert(views(actions@) + Seq::<ActionView>::empty() =~= views(actions@));
        }
        if pos > 0 {
            let tail: Vec<u8> = copy_range(&self.buf, pos, self.buf.len());
            proof {
                assert(tail@ =~= self.buf@.skip(pos as int));
            }
            self.buf = tail;
        } else {
            assert(self.buf@.skip(0) =~= self.buf@);
        }
        actions
    }

    /// Length of the payload of the command at `pos`, if the command is complete.
    fn complete_payload(&self, pos: usize) -> (payload: Option<usize>)
        requires
            pos <= self.buf@.len(),
        ensures
            ({
                let bytes = self.buf@.skip(pos as int);
                match payload {
                    Some(p) => command_complete(self@.regs, bytes) && payload_length(
                        self@.regs,
                        bytes,
                    ) == Some(p as int),
                    None => !command_complete(self@.regs, bytes),
                }
            }),
    {
        let avail: usize = self.buf.len() - pos;
        if avail == 0 {
            return None;
        }
        match self.payload_needed(pos) {
            Some(payload) => if payload < avail {
                Some(payload)
            } else {
                None
            },
            None => None,
        }
    }

    /// Length of the payload of the command at `pos`, if it can be told yet.
    fn payload_needed(&self, pos: usize) -> (payload: Option<usize>)
        requires
            pos < self.buf@.len(),
        ensures
            match payload {
                Some(p) => payload_length(self@.regs, self.buf@.skip(pos as int)) == Some(p as int),
                None => payload_length(self@.regs, self.buf@.skip(pos as int)) is None,
            },
    {
        let avail: usize = self.buf.len() - pos;
        let opcode: u8 = self.buf[pos];
        let op: u8 = opcode >> 3;
        proof {
            lemma_vat_index(opcode);
        }
        if op == 0b0_0001 {
            Some(5)
        } else if op == 0b0_0010 {
            if avail < 3 {
                return None;
            }
            let count: u16 = half_be(self.buf[pos + 1], self.buf[pos + 2]) & 0xF;
            proof {
                lemma_payload_covers(self@.regs, self.buf@.skip(pos as int));
            }
            Some(4 + (count as usize + 1) * 4)
        } else if (0b0_0100 <= op && op <= 0b0_0111) || op == 0b0_1100 {
            Some(4)
        } else if op == 0b0_1000 {
            Some(8)
        } else if op >= 0b1_0000 {
            if avail < 3 {
                return None;
            }
            let count: usize = half_be(self.buf[pos + 1], self.buf[pos + 2]) as usize;
            let size: usize = self.vertex_format((opcode & 7) as usize).size();
            proof {
                assert(count * size <= 0xFFFF * 200) by (nonlinear_arith)
                    requires
                        0 <= count <= 0xFFFF,
                        0 <= size <= 200,
                ;
            }
            Some(2 + count * size)
        } else {
            Some(0)
        }
    }

    /// Carries out the complete command at `pos`.
    fn execute(&mut self, pos: usize, mode: Mode, actions: &mut Vec<RenderAction>)
        requires
            pos <= old(self).buf@.len(),
            command_complete(old(self)@.regs, old(self).buf@.skip(pos as int)),
        ensures
            final(self).buf@ == old(self).buf@,
            ({
                let bytes = old(self).buf@.skip(pos as int);
                let (regs, new) = command_effect(old(self)@.regs, bytes, mode);
                final(self)@.regs == regs && views(final(actions)@) == views(old(actions)@) + new
            }),
    {
        let total: usize = self.buf.len();
        let ghost bytes = self.buf@.skip(pos as int);
        let opcode: u8 = self.buf[pos];
        let op: u8 = opcode >> 3;
        proof {
            lemma_vat_index(opcode);
            lemma_payload_covers(self@.regs, bytes);
            assert(pos + bytes.len() == total);
            assert(views(actions@) + Seq::<ActionView>::empty() =~= views(actions@));
        }
        if op == 0b0_0001 {
            let reg: u8 = self.buf[pos + 1];
            let val: u32 = read_be32(self.buf.as_slice(), pos + 2);
            self.apply_cp_register(reg, val);
        } else if op == 0b0_0010 {
            match mode {
                Mode::Simple => {},
                _ => {
                    self.load_xf(pos);
                },
            }
        } else if op == 0b0_1100 {
            let reg: u8 = self.buf[pos + 1];
            let val: u32 = word_be(0, self.buf[pos + 2], self.buf[pos + 3], self.buf[pos + 4]);
            match mode {
                Mode::Simple => self.apply_bp_simple(reg, val),
                Mode::Track => self.apply_bp_gfx(reg, val),
                Mode::Render => {
                    self.apply_bp_gfx(reg, val);
                    self.flush_bp_actions(actions);
                },
            }
        } else if op >= 0b1_0000 {
            match mode {
                Mode::Render => self.decode_and_draw(pos, actions),
                _ => {},
            }
        }
    }

    /// Loads XF registers from the command at `pos`.
    fn load_xf(&mut self, pos: usize)
        requires
            pos <= old(self).buf@.len(),
            command_complete(old(self)@.regs, old(self).buf@.skip(pos as int)),
            old(self).buf@[pos as int] >> 3 == 0b0_0010,
        ensures
            ({
                let bytes = old(self).buf@.skip(pos as int);
                final(self)@ == (FifoView {
                    regs: old(self)@.regs.xf_loaded(
                        bytes,
                        5,
                        be16_at(bytes, 3),
                        ((be16_at(bytes, 1) & 0xF) + 1) as nat,
                    ),
                    ..old(self)@
                })
            }),
    {
        let total: usize = self.buf.len();
        let ghost bytes = self.buf@.skip(pos as int);
        proof {
            lemma_payload_covers(self@.regs, bytes);
            assert(pos + bytes.len() == total);
        }
        let count: u16 = (half_be(self.buf[pos + 1], self.buf[pos + 2]) & 0xF) + 1;
        let base: u16 = half_be(self.buf[pos + 3], self.buf[pos + 4]);
        let mut i: u16 = 0;
        while i < count
            invariant
                i <= count <= 16,
                pos + 5 + 4 * count <= self.buf@.len(),
                self.buf@.len() == total,
                self.buf@ == old(self).buf@,
                bytes == old(self).buf@.skip(pos as int),
                self@ == (FifoView {
                    regs: old(self)@.regs.xf_loaded(bytes, 5, base, i as nat),
                    ..old(self)@
                }),
            decreases count - i,
        {
            let val: u32 = read_be32(self.buf.as_slice(), pos + 5 + 4 * i as usize);
            assert(val == be32_at(bytes, 5 + 4 * i));
            self.apply_xf_register(base.wrapping_add(i), val);
            i = i + 1;
        }
    }

    /// Writes CP register `reg`.
    fn apply_cp_register(&mut self, reg: u8, val: u32)
        ensures
            final(self)@ == (FifoView { regs: old(self)@.regs.cp_written(reg, val), ..old(self)@ }),
    {
        if reg == 0x50 {
            self.vcd_low = val;
        } else if reg == 0x60 {
            self.vcd_high = val;
        } else if 0x70 <= reg && reg <= 0x77 {
            self.vat_a[(reg - 0x70) as usize] = val;
        } else if 0x80 <= reg && reg <= 0x87 {
            self.vat_b[(reg - 0x80) as usize] = val;
        } else if 0x90 <= reg && reg <= 0x97 {
            self.vat_c[(reg - 0x90) as usize] = val;
        } else if 0xA0 <= reg && reg <= 0xAF {
            self.cp_array_base[(reg - 0xA0) as usize] = val;
        } else if 0xB0 <= reg && reg <= 0xBF {
            self.cp_array_stride[(reg - 0xB0) as usize] = val;
        }
    }

    /// Signals what a write to BP register `reg` asks for.
    fn apply_bp_simple(&mut self, reg: u8, val: u32)
        ensures
            final(self)@ == (FifoView {
                regs: old(self)@.regs.bp_signalled(reg, val),
                ..old(self)@
            }),
    {
        if reg == BP_PIXEL_DONE {
            self.pe_finish_pending = true;
        } else if reg == BP_PIXEL_TOKEN {
            self.pe_token = (val & 0xFFFF) as u16;
        } else if reg == BP_PIXEL_TOKEN_INT {
            self.pe_token = (val & 0xFFFF) as u16;
            self.pe_token_pending = true;
        }
    }

    /// Writes XF register `addr`.
    fn apply_xf_register(&mut self, addr: u16, val: u32)
        ensures
            final(self)@ == (FifoView {
                regs: old(self)@.regs.xf_written(addr, val),
                ..old(self)@
            }),
    {
        let idx: usize = addr as usize;
        if idx < XF_REG_COUNT {
            self.xf_regs[idx] = val;
        }
        if XF_VIEWPORT_START <= addr && addr <= XF_VIEWPORT_END {
            self.flags.xf_viewport = true;
        } else if XF_PROJECTION_START <= addr && addr <= XF_PROJECTION_END {
            self.flags.xf_projection = true;
        } else if addr == XF_CHAN0_COLOR_CTRL || addr == XF_CHAN1_COLOR_CTRL || addr
            == XF_CHAN0_ALPHA_CTRL || addr == XF_CHAN1_ALPHA_CTRL {
            self.flags.xf_channels = true;
        }
    }

    /// Stores `val` in BP register `reg`, under the mask if one was set.
    fn store_bp(&mut self, reg: u8, val: u32)
        ensures
            final(self)@ == (FifoView {
                regs: FifoRegs {
                    bp_regs: bp_stored(old(self)@.regs.bp_regs, reg, val),
                    ..old(self)@.regs
                },
                ..old(self)@
            }),
    {
        let mask: u32 = self.bp_regs[BP_MASK as usize];
        if mask != 0 {
            self.bp_regs[reg as usize] = (self.bp_regs[reg as usize] & !mask) | (val & mask);
            self.bp_regs[BP_MASK as usize] = 0;
        } else {
            self.bp_regs[reg as usize] = val;
        }
    }

    /// Writes BP register `reg`.
    fn apply_bp_gfx(&mut self, reg: u8, val: u32)
        ensures
            final(self)@ == (FifoView { regs: old(self)@.regs.bp_written(reg, val), ..old(self)@ }),
    {
        self.apply_bp_simple(reg, val);
        self.store_bp(reg, val);
        self.flags = flag_bp(self.flags, reg);
    }

    /// Tells the renderer about changed BP registers.
    fn flush_bp_actions(&mut self, actions: &mut Vec<RenderAction>)
        ensures
            final(self)@ == (FifoView { regs: old(self)@.regs.bp_flushed(), ..old(self)@ }),
            views(final(actions)@) == views(old(actions)@) + old(self)@.regs.bp_actions(),
    {
        let ghost told = views(actions@);
        let ghost want = self@.regs.bp_actions();
        if self.flags.bp_pixel {
            push_action(actions, RenderAction::SetDepthMode(self.bp_regs[BP_Z_MODE as usize]));
            push_action(actions, RenderAction::SetBlendMode(self.bp_regs[BP_BLEND_MODE as usize]));
            push_action(
                actions,
                RenderAction::SetConstantAlpha(self.bp_regs[BP_CONST_ALPHA as usize]),
            );
        }
        if self.flags.bp_scissor {
            push_action(
                actions,
                RenderAction::SetScissor(
                    Scissor {
                        top_left: self.bp_regs[BP_SCISSOR_TL as usize],
                        bottom_right: self.bp_regs[BP_SCISSOR_BR as usize],
                        offset: self.bp_regs[BP_SCISSOR_OFFSET as usize],
                    },
                ),
            );
        }
        if self.flags.bp_env {
            push_action(
                actions,
                RenderAction::SetAlphaTest(self.bp_regs[BP_TEV_ALPHA_FUNC as usize]),
            );
            let raw: u32 = self.bp_regs[BP_FOG_COLOR as usize];
            push_action(
                actions,
                RenderAction::SetFog(
                    Fog {
                        a: self.bp_regs[BP_FOG_A as usize],
                        b0: self.bp_regs[BP_FOG_B0 as usize],
                        b1: self.bp_regs[BP_FOG_B1 as usize],
                        c: self.bp_regs[BP_FOG_C as usize],
                        color: Rgba8 {
                            r: (raw >> 16) as u8,
                            g: (raw >> 8) as u8,
                            b: raw as u8,
                            a: 255,
                        },
                    },
                ),
            );
        }
        if self.flags.bp_clear {
            let ar: u32 = self.bp_regs[BP_CLEAR_AR as usize];
            let gb: u32 = self.bp_regs[BP_CLEAR_GB as usize];
            push_action(
                actions,
                RenderAction::SetClearColor(
                    Rgba8 { r: ar as u8, g: (gb >> 8) as u8, b: gb as u8, a: (ar >> 8) as u8 },
                ),
            );
        }
        self.flags.bp_pixel = false;
        self.flags.bp_scissor = false;
        self.flags.bp_env = false;
        self.flags.bp_clear = false;
        assert(views(actions@) =~= told + want);
    }

    /// Tells the renderer about changed XF registers.
    fn flush_xf_actions(&mut self, actions: &mut Vec<RenderAction>)
        ensures
            final(self)@ == (FifoView { regs: old(self)@.regs.xf_flushed(), ..old(self)@ }),
            views(final(actions)@) == views(old(actions)@) + old(self)@.regs.xf_actions(),
    {
        let ghost told = views(actions@);
        let ghost want = self@.regs.xf_actions();
        if self.flags.xf_viewport {
            let base: usize = XF_VIEWPORT_START as usize;
            push_action(
                actions,
                RenderAction::SetViewport(
                    ViewportBits {
                        scale_x: self.xf_regs[base],
                        scale_y: self.xf_regs[base + 1],
                        scale_z: self.xf_regs[base + 2],
                        offset_x: self.xf_regs[base + 3],
                        offset_y: self.xf_regs[base + 4],
                        offset_z: self.xf_regs[base + 5],
                    },
                ),
            );
        }
        if self.flags.xf_projection {
            let base: usize = XF_PROJECTION_START as usize;
            push_action(
                actions,
                RenderAction::SetProjectionMatrix(
                    ProjectionBits {
                        a: self.xf_regs[base + 1],
                        b: self.xf_regs[base + 2],
                        c: self.xf_regs[base + 3],
                        d: self.xf_regs[base + 4],
                        e: self.xf_regs[base + 5],
                        f: self.xf_regs[base + 6],
                        orthographic: self.xf_regs[base] != 0,
                    },
                ),
            );
        }
        self.flags.xf_viewport = false;
        self.flags.xf_projection = false;
        assert(views(actions@) =~= told + want);
    }

    /// Hands the draw command at `pos` to the renderer, after the changed XF
    /// registers. Without vertices or positions nothing is drawn.
    fn decode_and_draw(&mut self, pos: usize, actions: &mut Vec<RenderAction>)
        requires
            pos <= old(self).buf@.len(),
            command_complete(old(self)@.regs, old(self).buf@.skip(pos as int)),
            old(self).buf@[pos as int] >> 3 >= 0b1_0000,
        ensures
            final(self).buf@ == old(self).buf@,
            ({
                let bytes = old(self).buf@.skip(pos as int);
                let (regs, new) = command_effect(old(self)@.regs, bytes, Mode::Render);
                final(self)@.regs == regs && views(final(actions)@) == views(old(actions)@) + new
            }),
    {
        let total: usize = self.buf.len();
        let ghost bytes = self.buf@.skip(pos as int);
        let ghost told = views(actions@);
        let opcode: u8 = self.buf[pos];
        proof {
            lemma_vat_index(opcode);
            lemma_payload_covers(self@.regs, bytes);
            assert(pos + bytes.len() == total);
        }
        let count: u16 = half_be(self.buf[pos + 1], self.buf[pos + 2]);
        let format = self.vertex_format((opcode & 7) as usize);
        if count == 0 || (format.vcd_low >> 9) & 3 == 0 {
            assert(told + Seq::<ActionView>::empty() =~= told);
            return;
        }
        let size: usize = format.size();
        proof {
            assert(count * size <= 0xFFFF * 200) by (nonlinear_arith)
                requires
                    0 <= count <= 0xFFFF,
                    0 <= size <= 200,
            ;
        }
        let start: usize = pos + 3;
        let data: Vec<u8> = copy_range(&self.buf, start, start + (count as usize) * size);
        proof {
            assert(data@ =~= bytes.subrange(3, 3 + count * size));
        }
        let arrays: Arrays = self.make_arrays();
        let ghost xf = self@.regs.xf_actions();
        self.flush_xf_actions(actions);
        let topology: Topology = draw_topology(opcode);
        let call = DrawCall { topology, format, count, arrays, data };
        push_action(actions, RenderAction::Draw(call));
        assert(views(actions@) =~= told + xf.push(RenderAction::Draw(call)@));
    }

    fn array(&self, i: usize) -> (descriptor: ArrayDescriptor)
        requires
            i < 16,
        ensures
            descriptor == self@.regs.array(i as int),
    {
        ArrayDescriptor { address: self.cp_array_base[i], stride: self.cp_array_stride[i] }
    }

    /// The arrays that the CP registers name.
    pub fn make_arrays(&self) -> (arrays: Arrays)
        ensures
            arrays@ == self@.regs.arrays(),
    {
        let arrays = Arrays {
            position: self.array(0),
            normal: self.array(1),
            chan0: self.array(2),
            chan1: self.array(3),
            tex_coords: [
                self.array(4),
                self.array(5),
                self.array(6),
                self.array(7),
                self.array(8),
                self.array(9),
                self.array(10),
                self.array(11),
            ],
            general_purpose: [self.array(12), self.array(13), self.array(14), self.array(15)],
        };
        assert(arrays@ =~= self@.regs.arrays());
        arrays
    }

    /// Bits of a matrix in the XF registers, column by column.
    pub fn read_xf_matrix(&self, normal: bool, index: u16) -> (matrix: [u32; 16])
        ensures
            forall|i: int|
                0 <= i < 16 ==> #[trigger] matrix@[i] == self@.regs.matrix_element(
                    normal,
                    index,
                    i / 4,
                    i % 4,
                ),
    {
        let base: usize = if normal {
            XF_NORMAL_BASE + index as usize * 3
        } else {
            index as usize * 4
        };
        let width: usize = if normal { 3 } else { 4 };
        let stored: bool = base + 3 * width <= XF_REG_COUNT;
        let mut matrix: [u32; 16] = [0u32;16];
        let mut i: usize = 0;
        while i < 16
            invariant
                i <= 16,
                width == if normal {
                    3int
                } else {
                    4
                },
                base == if normal {
                    XF_NORMAL_BASE + index * 3
                } else {
                    index * 4
                },
                stored == (base + 3 * width <= XF_REG_COUNT),
                forall|k: int|
                    0 <= k < i ==> #[trigger] matrix@[k] == self@.regs.matrix_element(
                        normal,
                        index,
                        k / 4,
                        k % 4,
                    ),
            decreases 16 - i,
        {
            let col: usize = i / 4;
            let row: usize = i % 4;
            let value: u32 = if stored && row < 3 && col < width {
                if normal {
                    self.xf_regs[base + 3 * row + col]
                } else {
                    self.xf_regs[base + 4 * row + col]
                }
            } else if row == col {
                ONE_BITS
            } else {
                0
            };
            assert(value == self@.regs.matrix_element(normal, index, i as int / 4, i as int % 4));
            matrix[i] = value;
            i = i + 1;
        }
        matrix
    }
}

/// The size of a vertex is not negative.
proof fn lemma_vertex_size(format: VertexFormat)
    ensures
        format.vertex_size() >= 0,
{
    lemma_set_bits(format.vcd_low, 9);
    lemma_textures_size(format, 8);
}

proof fn lemma_set_bits(word: u32, n: nat)
    ensures
        set_bits(word, n) >= 0,
    decreases n,
{
    if n > 0 {
        lemma_set_bits(word, (n - 1) as nat);
    }
}

proof fn lemma_textures_size(format: VertexFormat, n: nat)
    ensures
        format.textures_size(n) >= 0,
    decreases n,
{
    if n > 0 {
        lemma_textures_size(format, (n - 1) as nat);
    }
}

/// The payload of a command covers its fixed part.
proof fn lemma_payload_covers(regs: FifoRegs, bytes: Seq<u8>)
    ensures
        be16_at(bytes, 1) & 0xF <= 15,
        bytes[0] >> 3 >= 0b1_0000 && bytes.len() >= 3 ==> payload_length(regs, bytes).unwrap() >= 2,
{
    let h = be16_at(bytes, 1);
    crate::bits::half_arithmetic(h);
    let size = regs.format((bytes[0] & 7) as int).vertex_size();
    lemma_vertex_size(regs.format((bytes[0] & 7) as int));
    assert(h * size >= 0) by (nonlinear_arith)
        requires
            h >= 0,
            size >= 0,
    ;
}

/// A vertex format number has three bits.
proof fn lemma_vat_index(opcode: u8)
    ensures
        opcode & 7 < 8,
{
    crate::bits::byte_arithmetic(opcode);
}

impl Default for GxFifo {
    /// An empty stream with all registers zero.
    fn default() -> (fifo: Self)
        ensures
            fifo@ == FifoView::reset(),
    {
        let fifo = GxFifo {
            buf: Vec::new(),
            vcd_low: 0,
            vcd_high: 0,
            vat_a: [0u32;8],
            vat_b: [0u32;8],
            vat_c: [0u32;8],
            cp_array_base: [0u32;16],
            cp_array_stride: [0u32;16],
            xf_regs: [0u32;4184],
            bp_regs: [0u32;256],
            flags: Flags {
                xf_viewport: false,
                xf_projection: false,
                xf_channels: false,
                bp_pixel: false,
                bp_scissor: false,
                bp_env: false,
                bp_clear: false,
            },
            pe_finish_pending: false,
            pe_token_pending: false,
            pe_token: 0,
        };
        assert(fifo@ =~= FifoView::reset());
        fifo
    }
}

/// What is left of a stream never begins with a complete command.
pub proof fn consumed_is_maximal(fifo: FifoView, mode: Mode)
    ensures
        ({
            let end = consumed(fifo, mode).fifo;
            !command_complete(end.regs, end.pending)
        }),
    decreases fifo.pending.len(),
{
    if command_complete(fifo.regs, fifo.pending) {
        let payload = payload_length(fifo.regs, fifo.pending).unwrap();
        let (regs, actions) = command_effect(fifo.regs, fifo.pending, mode);
        consumed_is_maximal(FifoView { regs, pending: fifo.pending.skip(1 + payload) }, mode);
    }
}

/// A command that is complete stays the same when more bytes follow it.
proof fn lemma_command_prefix(regs: FifoRegs, bytes: Seq<u8>, more: Seq<u8>, mode: Mode)
    requires
        command_complete(regs, bytes),
    ensures
        command_complete(regs, bytes + more),
        payload_length(regs, bytes + more) == payload_length(regs, bytes),
        command_effect(regs, bytes + more, mode) == command_effect(regs, bytes, mode),
{
    let all = bytes + more;
    let payload = payload_length(regs, bytes).unwrap();
    assert(forall|i: int| 0 <= i < bytes.len() ==> #[trigger] all[i] == bytes[i]);
    if bytes[0] >> 3 == 0b0_0010 {
        lemma_xf_prefix(regs, bytes, more, ((be16_at(bytes, 1) & 0xF) + 1) as nat);
    }
    lemma_payload_covers(regs, bytes);
    if bytes[0] >> 3 >= 0b1_0000 {
        assert(all.subrange(3, 1 + payload) =~= bytes.subrange(3, 1 + payload));
    }
}

/// Loading XF registers reads only the words of the command.
proof fn lemma_xf_prefix(regs: FifoRegs, bytes: Seq<u8>, more: Seq<u8>, n: nat)
    requires
        5 + 4 * n <= bytes.len(),
    ensures
        regs.xf_loaded(bytes + more, 5, be16_at(bytes, 3), n) == regs.xf_loaded(
            bytes,
            5,
            be16_at(bytes, 3),
            n,
        ),
    decreases n,
{
    if n > 0 {
        lemma_xf_prefix(regs, bytes, more, (n - 1) as nat);
        let all = bytes + more;
        assert(forall|i: int| 0 <= i < bytes.len() ==> #[trigger] all[i] == bytes[i]);
    }
}

/// How the stream is cut into pieces makes no difference: taking what is complete
/// and then what more bytes complete gives the same registers, the same rest and
/// the same actions in the same order as taking all of it at once.
pub proof fn consumed_in_pieces(fifo: FifoView, more: Seq<u8>, mode: Mode)
    ensures
        ({
            let first = consumed(fifo, mode);
            let second = consumed(
                FifoView { pending: first.fifo.pending + more, ..first.fifo },
                mode,
            );
            let whole = consumed(FifoView { pending: fifo.pending + more, ..fifo }, mode);
            &&& whole.fifo == second.fifo
            &&& whole.actions == first.actions + second.actions
        }),
    decreases fifo.pending.len(),
{
    let whole = consumed(FifoView { pending: fifo.pending + more, ..fifo }, mode);
    if command_complete(fifo.regs, fifo.pending) {
        lemma_command_prefix(fifo.regs, fifo.pending, more, mode);
        let payload = payload_length(fifo.regs, fifo.pending).unwrap();
        let (regs, actions) = command_effect(fifo.regs, fifo.pending, mode);
        let next = FifoView { regs, pending: fifo.pending.skip(1 + payload) };
        assert((fifo.pending + more).skip(1 + payload) =~= next.pending + more);
        consumed_in_pieces(next, more, mode);
        let rest = consumed(next, mode);
        let second = consumed(FifoView { pending: rest.fifo.pending + more, ..rest.fifo }, mode);
        assert(actions + (rest.actions + second.actions) =~= (actions + rest.actions)
            + second.actions);
    } else {
        assert(Seq::<ActionView>::empty() + whole.actions =~= whole.actions);
    }
}

} // verus!
