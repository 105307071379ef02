//! Pixel buffers that become textures: the white fallback, the tinted glyph
//! and the loaded picture.

use vstd::prelude::*;

verus! {

/// A picture of four bytes per pixel (red, green, blue, alpha), row by row
/// from the top left corner.
#[derive(Clone, Debug)]
pub struct Bitmap {
    pub width: u16,
    pub height: u16,
    pub pixels: Vec<u8>,
}

/// The size of a texture side that is given as a wider number: its low
/// sixteen bits.
pub open spec fn side(length: int) -> int {
    length % 0x1_0000
}

/// The pixels of a glyph: each coverage byte becomes one opaque white pixel
/// whose alpha is that byte, so that the corner colours tint the glyph.
pub open spec fn tinted(coverage: Seq<u8>) -> Seq<u8> {
    Seq::new(
        4 * coverage.len(),
        |i: int|
            if i % 4 == 3 {
                coverage[i / 4]
            } else {
                255u8
            },
    )
}

impl Bitmap {
    /// Whether there are exactly four bytes for each pixel of the stated size.
    pub open spec fn fits(self) -> bool {
        self.pixels@.len() == 4 * (self.width as int) * (self.height as int)
    }

    /// Whether this is the bitmap made of a picture of the given sides and
    /// bytes.
    pub open spec fn is_picture(self, width: int, height: int, pixels: Seq<u8>) -> bool {
        &&& self.width as int == side(width)
        &&& self.height as int == side(height)
        &&& self.pixels@ == pixels
    }

    /// Whether this is the bitmap made of a glyph of the given sides and
    /// coverage.
    pub open spec fn is_glyph(self, width: int, height: int, coverage: Seq<u8>) -> bool {
        self.is_picture(width, height, tinted(coverage))
    }

    /// Whether there are exactly four bytes for each pixel of the stated size.
    /// A texture can be made of such a bitmap only.
    pub fn has_all_pixels(&self) -> (r: bool)
        ensures
            r == self.fits(),
    {
        let w: u64 = self.width as u64;
        let h: u64 = self.height as u64;
        assert(w * h <= 0xffff * 0xffff) by (nonlinear_arith)
            requires
                w <= 0xffff,
                h <= 0xffff,
        ;
        let need: u64 = 4 * (w * h);
        assert(need == 4 * (self.width as int) * (self.height as int)) by (nonlinear_arith)
            requires
                need == 4 * (w * h),
                w == self.width as int,
                h == self.height as int,
        ;
        self.pixels.len() as u64 == need
    }
}

/// The texture that stands in where no picture is shown: one opaque white
/// pixel.
pub fn white_fallback() -> (bitmap: Bitmap)
    ensures
        bitmap.width == 1,
        bitmap.height == 1,
        bitmap.pixels@ == seq![255u8, 255u8, 255u8, 255u8],
        bitmap.fits(),
{
    let mut pixels: Vec<u8> = Vec::new();
    pixels.push(255);
    pixels.push(255);
    pixels.push(255);
    pixels.push(255);
    assert(pixels@ =~= seq![255u8, 255u8, 255u8, 255u8]);
    Bitmap { width: 1, height: 1, pixels }
}

/// Turns the coverage bytes of a glyph into pixels: opaque white, with the
/// coverage as alpha.
pub fn tint_coverage(coverage: &Vec<u8>) -> (pixels: Vec<u8>)
    ensures
        pixels@ == tinted(coverage@),
{
    let mut pixels: Vec<u8> = Vec::new();
    let mut i: usize = 0;
    while i < coverage.len()
        invariant
            i <= coverage.len(),
            pixels@ == tinted(coverage@.take(i as int)),
        decreases coverage.len() - i,
    {
        let c: u8 = coverage[i];
        let ghost before = pixels@;
        pixels.push(255);
        pixels.push(255);
        pixels.push(255);
        pixels.push(c);
        proof {
            let done = coverage@.take(i as int);
            let next = coverage@.take(i as int + 1);
            assert(next.len() == i + 1);
            assert forall|k: int| 0 <= k < 4 * (i + 1) implies pixels@[k] == tinted(next)[k] by {
                if k < 4 * i {
                    assert(pixels@[k] == before[k]);
                    assert(before[k] == tinted(done)[k]);
                    assert(k / 4 < i);
                    assert(done[k / 4] == next[k / 4]);
                } else {
                    assert(k / 4 == i);
                    assert(next[i as int] == c);
                }
            }
            assert(pixels@ =~= tinted(next));
        }
        i = i + 1;
    }
    assert(coverage@.take(i as int) =~= coverage@);
    pixels
}

/// The bitmap of a picture whose sides are given as wider numbers. A side
/// keeps its low sixteen bits.
pub fn picture_bitmap(width: u32, height: u32, pixels: Vec<u8>) -> (bitmap: Bitmap)
    ensures
        bitmap.is_picture(width as int, height as int, pixels@),
{
    Bitmap { width: (width % 0x1_0000) as u16, height: (height % 0x1_0000) as u16, pixels }
}

/// The bitmap of a rasterized glyph, from its sides and its coverage bytes.
/// A side keeps its low sixteen bits.
pub fn glyph_bitmap(width: usize, height: usize, coverage: &Vec<u8>) -> (bitmap: Bitmap)
    ensures
        bitmap.is_glyph(width as int, height as int, coverage@),
        coverage@.len() == width * height && width <= 0xffff && height <= 0xffff
            ==> bitmap.fits(),
{
    let pixels = tint_coverage(coverage);
    let bitmap = Bitmap {
        width: (width % 0x1_0000) as u16,
        height: (height % 0x1_0000) as u16,
        pixels,
    };
    assert(coverage@.len() == width * height ==> 4 * coverage@.len() == 4 * (width as int)
        * (height as int)) by (nonlinear_arith);
    bitmap
}

/// Every pixel of a tinted glyph is white, and its alpha is the coverage of
/// that pixel.
pub proof fn law_tint_keeps_coverage(coverage: Seq<u8>, pixel: int)
    requires
        0 <= pixel < coverage.len(),
    ensures
        tinted(coverage).len() == 4 * coverage.len(),
        tinted(coverage)[4 * pixel] == 255,
        tinted(coverage)[4 * pixel + 1] == 255,
        tinted(coverage)[4 * pixel + 2] == 255,
        tinted(coverage)[4 * pixel + 3] == coverage[pixel],
{
}

} // verus!
