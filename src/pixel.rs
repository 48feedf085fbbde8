//! Conversion of premultiplied RGBA8 pixels into the packed `0x00RRGGBB`
//! format that a presentation surface consumes.

use crate::error::RenderError;
use vstd::prelude::*;

verus! {

/// One premultiplied-alpha pixel, eight bits per channel.
#[derive(Clone, Copy, Debug, PartialEq, Eq, Structural)]
pub struct PremulPixel {
    pub r: u8,
    pub g: u8,
    pub b: u8,
    pub a: u8,
}

/// The value written for a pixel whose alpha is zero: every bit set.
pub const TRANSPARENT_SENTINEL: u32 = 0xFFFF_FFFF;

/// The packed value of a pixel: all bits set when it is fully transparent,
/// otherwise red, green and blue in bits 16..24, 8..16 and 0..8, with the
/// top byte zero. Alpha is dropped without blending.
pub open spec fn packed_pixel(p: PremulPixel) -> u32 {
    if p.a == 0 {
        TRANSPARENT_SENTINEL
    } else {
        (p.r as int * 0x1_0000 + p.g as int * 0x100 + p.b as int) as u32
    }
}

/// The packed values of a whole pixel sequence, element by element.
pub open spec fn packed_pixels(s: Seq<PremulPixel>) -> Seq<u32> {
    s.map_values(|p: PremulPixel| packed_pixel(p))
}

/// Packs one pixel for the surface.
pub fn convert_pixel(p: PremulPixel) -> (r: u32)
    ensures
        r == packed_pixel(p),
{
    if p.a == 0 {
        TRANSPARENT_SENTINEL
    } else {
        let r = p.r as u32;
        let g = p.g as u32;
        let b = p.b as u32;
        assert((r << 16u32 | g << 8u32 | b) == r * 0x1_0000 + g * 0x100 + b) by (bit_vector)
            requires
                r < 256,
                g < 256,
                b < 256,
        ;
        r << 16u32 | g << 8u32 | b
    }
}

/// Packs every pixel of `src` into `dest`. The two must hold the same number
/// of pixels; when they do not, nothing is written and the mismatch is
/// reported with both lengths.
pub fn convert_pixels(src: &[PremulPixel], dest: &mut [u32]) -> (r: Result<(), RenderError>)
    ensures
        r is Err <==> src@.len() != old(dest)@.len(),
        r is Err ==> r == Err::<(), RenderError>(
            RenderError::PixelCountMismatch {
                pixmap_len: src@.len() as usize,
                surface_len: old(dest)@.len() as usize,
            },
        ),
        r is Err ==> final(dest)@ == old(dest)@,
        r is Ok ==> final(dest)@ == packed_pixels(src@),
{
    if src.len() != dest.len() {
        return Err(RenderError::PixelCountMismatch { pixmap_len: src.len(), surface_len: dest.len() });
    }
    let n = src.len();
    let mut i: usize = 0;
    while i < n
        invariant
            n == src@.len(),
            n == dest@.len(),
            0 <= i <= n,
            forall|k: int| 0 <= k < i ==> dest@[k] == packed_pixel(#[trigger] src@[k]),
        decreases n - i,
    {
        let v = convert_pixel(src[i]);
        dest[i] = v;
        i = i + 1;
    }
    assert(dest@ =~= packed_pixels(src@));
    Ok(())
}

/// Packing a frame whose pixels all carry one colour with a nonzero alpha
/// yields that colour as `0x00RRGGBB` in every element.
pub proof fn lemma_solid_frame_packs_uniformly(src: Seq<PremulPixel>, c: PremulPixel)
    requires
        c.a != 0,
        forall|k: int| 0 <= k < src.len() ==> #[trigger] src[k] == c,
    ensures
        packed_pixels(src).len() == src.len(),
        forall|k: int|
            0 <= k < src.len() ==> #[trigger] packed_pixels(src)[k] == (c.r as int * 0x1_0000
                + c.g as int * 0x100 + c.b as int),
{
}

} // verus!
