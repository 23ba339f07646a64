//! The external frame buffer.
//!
//! Each pair of pixels is four bytes: blue difference, first luma, red difference,
//! second luma.

use vstd::prelude::*;

verus! {

/// Pixels in a line.
pub const XFB_W: u32 = 640;

/// Lines.
pub const XFB_H: u32 = 480;

/// Bytes of a frame.
pub const XFB_RAW_BYTES: usize = 614_400;

/// Bytes of a frame in red, green, blue and alpha.
pub const XFB_RGBA_BYTES: usize = 1_228_800;

/// `value`, but at least 0 and at most 255.
pub open spec fn clamped(value: int) -> u8 {
    if value < 0 {
        0
    } else if value > 255 {
        255
    } else {
        value as u8
    }
}

/// Red from luma and red difference.
pub open spec fn red(y: u8, cr: u8) -> u8 {
    clamped(y + ((1402 * (cr - 128)) as i32 >> 10u32))
}

/// Green from luma and both differences.
pub open spec fn green(y: u8, cb: u8, cr: u8) -> u8 {
    clamped(y - ((344 * (cb - 128) + 714 * (cr - 128)) as i32 >> 10u32))
}

/// Blue from luma and blue difference.
pub open spec fn blue(y: u8, cb: u8) -> u8 {
    clamped(y + ((1772 * (cb - 128)) as i32 >> 10u32))
}

/// Component `c` of pixel `p` of frame `xfb`: red, green, blue or alpha.
pub open spec fn component(xfb: Seq<u8>, p: int, c: int) -> u8 {
    let base = p / 2 * 4;
    let cb = xfb[base];
    let cr = xfb[base + 2];
    let y = xfb[base + 1 + 2 * (p % 2)];
    if c == 0 {
        red(y, cr)
    } else if c == 1 {
        green(y, cb, cr)
    } else if c == 2 {
        blue(y, cb)
    } else {
        255
    }
}

/// Frame `xfb` in red, green, blue and alpha.
pub open spec fn rgba(xfb: Seq<u8>) -> Seq<u8> {
    Seq::new(XFB_RGBA_BYTES as nat, |i: int| component(xfb, i / 4, i % 4))
}

fn clamp(value: i32) -> (result: u8)
    ensures
        result == clamped(value as int),
{
    if value < 0 {
        0
    } else if value > 255 {
        255
    } else {
        value as u8
    }
}

/// Scaled differences stay small when they are scaled back.
proof fn lemma_scaled(v: i32)
    requires
        -300_000 <= v <= 300_000,
    ensures
        -300_000 <= v >> 10u32 <= 300_000,
{
    super::registers::lemma_scaled_down(v);
}

fn push_pixel(out: &mut Vec<u8>, y: u8, cb: u8, cr: u8)
    ensures
        final(out)@ == old(out)@.push(red(y, cr)).push(green(y, cb, cr)).push(blue(y, cb)).push(
            255,
        ),
{
    let luma: i32 = y as i32;
    let cb_off: i32 = cb as i32 - 128;
    let cr_off: i32 = cr as i32 - 128;
    let r: i32 = 1402 * cr_off;
    let g: i32 = 344 * cb_off + 714 * cr_off;
    let b: i32 = 1772 * cb_off;
    proof {
        lemma_scaled(r);
        lemma_scaled(g);
        lemma_scaled(b);
    }
    out.push(clamp(luma + (r >> 10u32)));
    out.push(clamp(luma - (g >> 10u32)));
    out.push(clamp(luma + (b >> 10u32)));
    out.push(255);
}

/// Converts a frame; there is no result if `xfb` is not a whole frame.
pub fn yuv422_to_rgba(xfb: &[u8]) -> (pixels: Option<Vec<u8>>)
    ensures
        match pixels {
            Some(out) => xfb@.len() == XFB_RAW_BYTES && out@ == rgba(xfb@),
            None => xfb@.len() != XFB_RAW_BYTES,
        },
{
    if xfb.len() != XFB_RAW_BYTES {
        return None;
    }
    let mut out: Vec<u8> = Vec::new();
    let mut i: usize = 0;
    while i < XFB_RAW_BYTES / 4
        invariant
            i <= XFB_RAW_BYTES / 4,
            xfb@.len() == XFB_RAW_BYTES,
            out@ == rgba(xfb@).take(8 * i as int),
        decreases XFB_RAW_BYTES / 4 - i,
    {
        let cb: u8 = xfb[4 * i];
        let y0: u8 = xfb[4 * i + 1];
        let cr: u8 = xfb[4 * i + 2];
        let y1: u8 = xfb[4 * i + 3];
        push_pixel(&mut out, y0, cb, cr);
        push_pixel(&mut out, y1, cb, cr);
        proof {
            let n = 8 * i as int;
            let all = rgba(xfb@);
            assert(all[n] == red(y0, cr));
            assert(all[n + 1] == green(y0, cb, cr));
            assert(all[n + 2] == blue(y0, cb));
            assert(all[n + 3] == 255);
            assert(all[n + 4] == red(y1, cr));
            assert(all[n + 5] == green(y1, cb, cr));
            assert(all[n + 6] == blue(y1, cb));
            assert(all[n + 7] == 255);
            assert(out@ =~= all.take(n + 8));
        }
        i = i + 1;
    }
    assert(rgba(xfb@).take(XFB_RGBA_BYTES as int) =~= rgba(xfb@));
    Some(out)
}

/// Without colour differences every pixel is grey, as bright as its luma.
pub proof fn grey_stays_grey(y: u8)
    ensures
        red(y, 128) == y,
        green(y, 128, 128) == y,
        blue(y, 128) == y,
{
    super::registers::lemma_scaled_down(0);
}

} // verus!
