//! The two assets read at startup, a font and a picture, and the glyphs that
//! the font gives. Parsing, decoding and rasterizing are the work of the
//! `fontdue` and `image` crates; what is made of their results is checked here.

use vstd::prelude::*;
use crate::bitmap::{picture_bitmap, Bitmap};

verus! {

/// Why an asset could not be loaded.
#[derive(Clone, Copy, Debug, PartialEq, Eq, Structural)]
pub enum LoadError {
    /// The bytes are no font that can be parsed.
    Font,
    /// The bytes are no PNG picture that can be decoded.
    Picture,
}

/// A parsed font of `fontdue`. Nothing is known of what it holds; it is
/// carried from `load_font` to the rasterizer.
#[verifier::external_type_specification]
#[verifier::external_body]
pub struct ExFont(fontdue::Font);

/// The error of `image`. Nothing is known of what it holds; `load_picture`
/// turns it into `LoadError::Picture`.
#[verifier::external_type_specification]
#[verifier::external_body]
pub struct ExImageError(image::ImageError);

/// Whether `fontdue` parses these bytes as a font, with its default settings.
pub uninterp spec fn font_parses(bytes: Seq<u8>) -> bool;

/// What `image` decodes these bytes to when it reads them as a PNG: the
/// width, the height and the pixels as four bytes each (red, green, blue,
/// alpha), or `None` where it decodes nothing.
pub uninterp spec fn decoded_rgba(bytes: Seq<u8>) -> Option<(u32, u32, Seq<u8>)>;

/// What `fontdue` rasterizes a character to with this font at this size in
/// pixels per em: the width and the height of the glyph, and its coverage
/// bytes row by row from the top left corner.
pub uninterp spec fn rasterized(font: fontdue::Font, character: char, px: u16) -> (
    usize,
    usize,
    Seq<u8>,
);

/// Calls `fontdue::Font::from_bytes` with `fontdue::FontSettings::default()`.
/// Nothing is claimed of the font; the outcome is named `font_parses`, as it
/// depends on the bytes alone.
#[verifier::external_body]
fn parse_font(bytes: &[u8]) -> (r: Result<fontdue::Font, &'static str>)
    ensures
        r is Ok <==> font_parses(bytes@),
{
    fontdue::Font::from_bytes(bytes, fontdue::FontSettings::default())
}

/// Calls `fontdue::Font::rasterize` and hands back the width and the height
/// from its metrics, and the coverage bytes. The outcome is named
/// `rasterized`, as it depends on the font, the character and the size alone.
/// Claimed besides: there is one coverage byte for each pixel of that width
/// and height, which is how `fontdue` sizes the vector it returns.
#[verifier::external_body]
fn rasterize(font: &fontdue::Font, character: char, px: u16) -> (r: (usize, usize, Vec<u8>))
    ensures
        (r.0, r.1, r.2@) == rasterized(*font, character, px),
        r.2@.len() == r.0 * r.1,
{
    let (metrics, coverage) = font.rasterize(character, px.into());
    (metrics.width, metrics.height, coverage)
}

/// Calls `image::load_from_memory_with_format` with `image::ImageFormat::Png`,
/// then `to_rgba8` on the decoded picture, and hands back its `width`, its
/// `height` and the bytes of `into_raw`. Nothing is claimed of them; the
/// outcome is named `decoded_rgba`, as with the format given it depends on
/// the bytes alone.
#[verifier::external_body]
fn decode_rgba(bytes: &[u8]) -> (r: Result<(u32, u32, Vec<u8>), image::ImageError>)
    ensures
        match r {
            Ok(p) => decoded_rgba(bytes@) == Some((p.0, p.1, p.2@)),
            Err(_) => decoded_rgba(bytes@) is None,
        },
{
    let rgba = image::load_from_memory_with_format(bytes, image::ImageFormat::Png)?.to_rgba8();
    Ok((rgba.width(), rgba.height(), rgba.into_raw()))
}

/// The size at which every glyph is rasterized, in pixels per em.
pub const GLYPH_SIZE: u16 = 256;

/// Parses a font. Fails exactly where `fontdue` does.
pub fn load_font(bytes: &[u8]) -> (r: Result<fontdue::Font, LoadError>)
    ensures
        r is Ok <==> font_parses(bytes@),
        r matches Err(e) ==> e == LoadError::Font,
{
    match parse_font(bytes) {
        Ok(font) => Ok(font),
        Err(_) => Err(LoadError::Font),
    }
}

/// Rasterizes one character at `GLYPH_SIZE`: the width and height of the
/// glyph and one coverage byte for each of its pixels.
pub fn glyph_coverage(font: &fontdue::Font, character: char) -> (r: (usize, usize, Vec<u8>))
    ensures
        (r.0, r.1, r.2@) == rasterized(*font, character, GLYPH_SIZE),
        r.2@.len() == r.0 * r.1,
{
    rasterize(font, character, GLYPH_SIZE)
}

/// Decodes a PNG picture into a bitmap. Fails exactly where `image` decodes
/// nothing; otherwise the bitmap holds the decoded pixels, and each side its
/// low sixteen bits.
pub fn load_picture(bytes: &[u8]) -> (r: Result<Bitmap, LoadError>)
    ensures
        match decoded_rgba(bytes@) {
            Some(p) => r matches Ok(bitmap) && bitmap.is_picture(p.0 as int, p.1 as int, p.2),
            None => r matches Err(e) && e == LoadError::Picture,
        },
{
    match decode_rgba(bytes) {
        Ok(p) => Ok(picture_bitmap(p.0, p.1, p.2)),
        Err(_) => Err(LoadError::Picture),
    }
}

} // verus!
