//! The graphics command stream.

use lazuli::web::gx_fifo::{ArrayDescriptor, GxFifo, RenderAction, Rgba8, Topology};

#[test]
fn draw_done_is_signalled() {
    let mut fifo = GxFifo::default();
    fifo.push_u32(0x6145_0000);
    assert!(!fifo.pe_finish_pending);
    fifo.push_u32(0x0200_0000);
    assert!(fifo.pe_finish_pending);
    assert!(fifo.buf.is_empty());
}

#[test]
fn token_is_signalled() {
    let mut fifo = GxFifo::default();
    fifo.push_u32(0x6148_00BE);
    fifo.push_u32(0xEF00_0000);
    assert!(fifo.pe_token_pending);
    assert_eq!(fifo.pe_token, 0xBEEF);
}

#[test]
fn vertex_sizes_follow_the_format() {
    let mut fifo = GxFifo::default();
    // Position directly in the vertex, three singles.
    fifo.vcd_low = 1 << 9;
    fifo.vat_a[0] = 1 | (4 << 1);
    assert_eq!(fifo.vertex_size(0), 12);
    // And a colour of four bytes.
    fifo.vcd_low |= 1 << 13;
    fifo.vat_a[0] |= 5 << 14;
    assert_eq!(fifo.vertex_size(0), 16);
    // And an index of two bytes for the first texture coordinate.
    fifo.vcd_high = 3;
    assert_eq!(fifo.vertex_size(0), 18);
}

#[test]
fn draw_reaches_the_renderer() {
    let mut fifo = GxFifo::default();
    fifo.vcd_low = 2 << 9;
    // Triangles, three vertices of one index byte each.
    assert!(fifo.push_u32_gfx(0x9000_0301, true).is_empty());
    let actions = fifo.push_u32_gfx(0x0203_0000, true);
    assert_eq!(actions.len(), 1);
    match &actions[0] {
        RenderAction::Draw(call) => {
            assert_eq!(call.topology, Topology::TriangleList);
            assert_eq!(call.count, 3);
            assert_eq!(call.data, vec![1, 2, 3]);
        }
        _ => panic!("not a draw"),
    }
}

#[test]
fn blend_mode_reaches_the_renderer() {
    let mut fifo = GxFifo::default();
    fifo.push_u32_gfx(0x6141_0000, true);
    let actions = fifo.push_u32_gfx(0x0700_0000, true);
    assert_eq!(actions.len(), 3);
    assert!(matches!(actions[1], RenderAction::SetBlendMode(7)));
}

#[test]
fn clear_colour_reaches_the_renderer() {
    let mut fifo = GxFifo::default();
    // Alpha 0xA1 and red 0xB2, then green 0xC3 and blue 0xD4.
    fifo.push_u32_gfx(0x614F_00A1, true);
    fifo.push_u32_gfx(0xB261_5000, true);
    let actions = fifo.push_u32_gfx(0xC3D4_0000, true);
    assert_eq!(actions.len(), 1);
    match &actions[0] {
        RenderAction::SetClearColor(color) => {
            assert_eq!(*color, Rgba8 { r: 0xB2, g: 0xC3, b: 0xD4, a: 0xA1 });
        }
        _ => panic!("not a clear colour"),
    }
}

#[test]
fn arrays_reach_the_renderer() {
    let mut fifo = GxFifo::default();
    fifo.vcd_low = 2 << 9;
    // Positions at 0x12345678 every 12 bytes, the first texture coordinates at
    // 0x00400000 and the last array for general use every 32 bytes.
    fifo.push_u32_gfx(0x08A0_1234, true);
    fifo.push_u32_gfx(0x5678_08B0, true);
    fifo.push_u32_gfx(0x0000_000C, true);
    fifo.push_u32_gfx(0x08A4_0040, true);
    fifo.push_u32_gfx(0x0000_08BF, true);
    fifo.push_u32_gfx(0x0000_0020, true);
    fifo.push_u32_gfx(0x9000_0301, true);
    let actions = fifo.push_u32_gfx(0x0203_0000, true);
    assert_eq!(actions.len(), 1);
    match &actions[0] {
        RenderAction::Draw(call) => {
            let unset = ArrayDescriptor { address: 0, stride: 0 };
            let arrays = &call.arrays;
            assert_eq!(arrays.position, ArrayDescriptor { address: 0x1234_5678, stride: 12 });
            assert_eq!(arrays.normal, unset);
            assert_eq!(arrays.chan0, unset);
            assert_eq!(arrays.chan1, unset);
            assert_eq!(arrays.tex_coords[0], ArrayDescriptor { address: 0x0040_0000, stride: 0 });
            assert_eq!(arrays.tex_coords[7], unset);
            assert_eq!(arrays.general_purpose[0], unset);
            assert_eq!(arrays.general_purpose[3], ArrayDescriptor { address: 0, stride: 32 });
        }
        _ => panic!("not a draw"),
    }
}

#[test]
fn transform_registers_are_loaded() {
    let mut fifo = GxFifo::default();
    // Two words from register 4 up.
    fifo.push_u32_gfx(0x1000_0100, false);
    fifo.push_u32_gfx(0x0411_1111, false);
    fifo.push_u32_gfx(0x1122_2222, false);
    fifo.push_u32_gfx(0x2200_0000, false);
    assert_eq!(fifo.xf_regs[4], 0x1111_1111);
    assert_eq!(fifo.xf_regs[5], 0x2222_2222);
}

#[test]
fn mask_applies_to_one_write() {
    let mut fifo = GxFifo::default();
    fifo.bp_regs[0x40] = 0x00FF_FFFF;
    fifo.push_u32_gfx(0x61FE_0000, false);
    fifo.push_u32_gfx(0x0F61_4000, false);
    fifo.push_u32_gfx(0x0000_0000, false);
    assert_eq!(fifo.bp_regs[0x40], 0x00FF_FFF0);
    assert_eq!(fifo.bp_regs[0xFE], 0);
}

#[test]
fn matrices_outside_the_registers_are_the_identity() {
    let mut fifo = GxFifo::default();
    fifo.xf_regs[1] = 0x4000_0000;
    let stored = fifo.read_xf_matrix(false, 0);
    assert_eq!(stored[4], 0x4000_0000);
    let outside = fifo.read_xf_matrix(false, 0xFFFF);
    assert_eq!(outside[0], 0x3F80_0000);
    assert_eq!(outside[1], 0);
}
