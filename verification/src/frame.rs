//! What one frame draws: the clear colour, the quad in its palette, and the
//! texture on it.

use vstd::prelude::*;
use crate::assets::{glyph_coverage, rasterized, GLYPH_SIZE};
use crate::bitmap::{glyph_bitmap, tinted, Bitmap};
use crate::quad::{
    clear_color, corners, dark_blue, green, magenta, quad_indices, quad_vertices, triangles,
    white, yellow, Palette, Rgba, Vertex,
};
use crate::stage::Stage;

verus! {

/// The texture that a frame binds.
#[derive(Clone, Debug)]
pub enum Texture {
    /// The picture loaded at startup.
    StaticBitmap,
    /// The one white pixel.
    WhiteFallback,
    /// A glyph rasterized for this frame alone.
    Glyph(Bitmap),
}

/// One frame: clear to `clear`, then draw the two triangles over the four
/// corners with the texture, blended over the cleared frame by the alpha of
/// what is drawn.
#[derive(Clone, Debug)]
pub struct Frame {
    pub clear: Rgba,
    pub vertices: [Vertex; 4],
    pub indices: [u16; 6],
    pub texture: Texture,
}

impl Stage {
    /// The palette of the quad: the alternate one where a space is selected
    /// without the picture, the white one otherwise.
    pub open spec fn palette(self) -> Palette {
        if self.current_char == ' ' && !self.show_alternate_image {
            Palette::Alternate
        } else {
            Palette::White
        }
    }

    /// Whether `frame` is what this stage shows, given what the selected
    /// character rasterizes to. With a space selected the texture is the
    /// picture or the white pixel and the glyph is not looked at.
    pub open spec fn shows(self, frame: Frame, width: int, height: int, coverage: Seq<u8>) -> bool {
        &&& frame.clear == green()
        &&& frame.indices@ == triangles()
        &&& frame.vertices@ == corners(self.palette())
        &&& if self.current_char == ' ' {
            if self.show_alternate_image {
                frame.texture is StaticBitmap
            } else {
                frame.texture is WhiteFallback
            }
        } else {
            frame.texture matches Texture::Glyph(bitmap) && bitmap.is_glyph(width, height, coverage)
        }
    }

    /// The palette of the quad in the next frame.
    pub fn choose_palette(&self) -> (palette: Palette)
        ensures
            palette == self.palette(),
    {
        if self.current_char == ' ' && !self.show_alternate_image {
            Palette::Alternate
        } else {
            Palette::White
        }
    }

    /// The frame that this stage shows, given the glyph that the selected
    /// character was rasterized to: its width, its height and its coverage.
    pub fn frame_with_glyph(&self, width: usize, height: usize, coverage: &Vec<u8>) -> (frame: Frame)
        ensures
            self.shows(frame, width as int, height as int, coverage@),
            self.current_char != ' ' && coverage@.len() == width * height && width <= 0xffff
                && height <= 0xffff ==> (frame.texture matches Texture::Glyph(bitmap)
                && bitmap.fits()),
    {
        let texture = if self.current_char == ' ' {
            if self.show_alternate_image {
                Texture::StaticBitmap
            } else {
                Texture::WhiteFallback
            }
        } else {
            Texture::Glyph(glyph_bitmap(width, height, coverage))
        };
        Frame {
            clear: clear_color(),
            vertices: quad_vertices(self.choose_palette()),
            indices: quad_indices(),
            texture,
        }
    }

    /// The frame to draw now. The selected character is rasterized with the
    /// font at `GLYPH_SIZE`; the glyph has one coverage byte for each of its
    /// pixels, and the frame is the one that this stage shows with it.
    pub fn draw(&self, font: &fontdue::Font) -> (frame: Frame)
        ensures
            frame.clear == green(),
            frame.indices@ == triangles(),
            frame.vertices@ == corners(self.palette()),
            frame.texture is StaticBitmap <==> self.current_char == ' '
                && self.show_alternate_image,
            frame.texture is WhiteFallback <==> self.current_char == ' '
                && !self.show_alternate_image,
            frame.texture is Glyph <==> self.current_char != ' ',
            ({
                let glyph = rasterized(*font, self.current_char, GLYPH_SIZE);
                &&& glyph.2.len() == glyph.0 * glyph.1
                &&& self.shows(frame, glyph.0 as int, glyph.1 as int, glyph.2)
            }),
    {
        let (width, height, coverage) = glyph_coverage(font, self.current_char);
        self.frame_with_glyph(width, height, &coverage)
    }
}

/// With a space selected and the picture chosen, the frame binds the picture
/// and the quad is white.
pub proof fn law_space_shows_picture(stage: Stage, frame: Frame, width: int, height: int, coverage: Seq<u8>)
    requires
        stage.current_char == ' ',
        stage.show_alternate_image,
        stage.shows(frame, width, height, coverage),
    ensures
        frame.texture is StaticBitmap,
        stage.palette() == Palette::White,
        forall|i: int| 0 <= i < 4 ==> (#[trigger] frame.vertices@[i]).color == white(),
{
}

/// With a space selected and the picture not chosen, the frame binds the white
/// pixel and the corners are magenta, yellow, dark blue and yellow.
pub proof fn law_enter_shows_colors(stage: Stage, frame: Frame, width: int, height: int, coverage: Seq<u8>)
    requires
        stage.current_char == ' ',
        !stage.show_alternate_image,
        stage.shows(frame, width, height, coverage),
    ensures
        frame.texture is WhiteFallback,
        stage.palette() == Palette::Alternate,
        frame.vertices@[0].color == magenta(),
        frame.vertices@[1].color == yellow(),
        frame.vertices@[2].color == dark_blue(),
        frame.vertices@[3].color == yellow(),
{
}

/// With anything but a space selected, the frame binds a glyph bitmap of the
/// rasterized glyph's size, white with the coverage as alpha, and the quad is
/// white.
pub proof fn law_letter_shows_glyph(stage: Stage, frame: Frame, width: int, height: int, coverage: Seq<u8>)
    requires
        stage.current_char != ' ',
        stage.shows(frame, width, height, coverage),
        0 <= width <= 0xffff,
        0 <= height <= 0xffff,
        coverage.len() == width * height,
    ensures
        stage.palette() == Palette::White,
        forall|i: int| 0 <= i < 4 ==> (#[trigger] frame.vertices@[i]).color == white(),
        frame.texture matches Texture::Glyph(bitmap) && bitmap.width == width && bitmap.height
            == height && bitmap.fits() && bitmap.pixels@ == tinted(coverage),
{
    assert(4 * coverage.len() == 4 * width * height) by (nonlinear_arith)
        requires
            coverage.len() == width * height,
    ;
}

} // verus!
