//! The one quad that every frame draws: four corners, two triangles, and the
//! two palettes that colour the corners.

use vstd::prelude::*;

verus! {

/// A colour of four channels, each in 255ths: 255 is full, 204 is four fifths.
#[derive(Clone, Copy, Debug, PartialEq, Eq, Structural)]
pub struct Rgba {
    pub r: u8,
    pub g: u8,
    pub b: u8,
    pub a: u8,
}

/// The colours of the quad's four corners.
#[derive(Clone, Copy, Debug, PartialEq, Eq, Structural)]
pub enum Palette {
    /// Every corner opaque white, so that the texture shows untinted.
    White,
    /// Magenta, yellow, dark blue and yellow.
    Alternate,
}

/// One corner of the quad.
#[derive(Clone, Copy, Debug, PartialEq, Eq, Structural)]
pub struct Vertex {
    /// Horizontal position in halves of a unit of normalized device
    /// coordinates: -1 is the left edge of the quad, 1 the right.
    pub x_halves: i8,
    /// Vertical position in the same unit: 1 is the top edge, -1 the bottom.
    pub y_halves: i8,
    pub color: Rgba,
    /// Horizontal texture coordinate, 0 or 1.
    pub u: u8,
    /// Vertical texture coordinate, 0 at the top and 1 at the bottom.
    pub v: u8,
}

pub open spec fn white() -> Rgba {
    Rgba { r: 255, g: 255, b: 255, a: 255 }
}

pub open spec fn magenta() -> Rgba {
    Rgba { r: 255, g: 0, b: 255, a: 255 }
}

pub open spec fn yellow() -> Rgba {
    Rgba { r: 255, g: 255, b: 0, a: 255 }
}

pub open spec fn dark_blue() -> Rgba {
    Rgba { r: 0, g: 0, b: 204, a: 255 }
}

/// The colour that a frame is cleared to: pure green, fully opaque.
pub open spec fn green() -> Rgba {
    Rgba { r: 0, g: 255, b: 0, a: 255 }
}

impl Palette {
    /// The corner colours in the order top left, top right, bottom left,
    /// bottom right.
    pub open spec fn colors(self) -> Seq<Rgba> {
        match self {
            Palette::White => seq![white(), white(), white(), white()],
            Palette::Alternate => seq![magenta(), yellow(), dark_blue(), yellow()],
        }
    }

    /// The corner colours in the order top left, top right, bottom left,
    /// bottom right.
    pub fn corner_colors(self) -> (colors: [Rgba; 4])
        ensures
            colors@ == self.colors(),
    {
        let w = Rgba { r: 255, g: 255, b: 255, a: 255 };
        let colors = match self {
            Palette::White => [w, w, w, w],
            Palette::Alternate => {
                let y = Rgba { r: 255, g: 255, b: 0, a: 255 };
                [Rgba { r: 255, g: 0, b: 255, a: 255 }, y, Rgba { r: 0, g: 0, b: 204, a: 255 }, y]
            },
        };
        assert(colors@ =~= self.colors());
        colors
    }
}

/// The corner of the quad with the given number: 0 top left, 1 top right,
/// 2 bottom left, 3 bottom right. The quad is one unit wide and high around
/// the origin, and the texture covers it once.
pub open spec fn corner(palette: Palette, index: int) -> Vertex {
    Vertex {
        x_halves: if index % 2 == 0 { -1i8 } else { 1i8 },
        y_halves: if index < 2 { 1i8 } else { -1i8 },
        color: palette.colors()[index],
        u: if index % 2 == 0 { 0u8 } else { 1u8 },
        v: if index < 2 { 0u8 } else { 1u8 },
    }
}

/// The four corners of the quad in the given palette, in the order of their
/// numbers.
pub open spec fn corners(palette: Palette) -> Seq<Vertex> {
    Seq::new(4, |index: int| corner(palette, index))
}

/// The four corners of the quad in the given palette.
pub fn quad_vertices(palette: Palette) -> (vertices: [Vertex; 4])
    ensures
        vertices@ == corners(palette),
{
    let c = palette.corner_colors();
    let vertices = [
        Vertex { x_halves: -1, y_halves: 1, color: c[0], u: 0, v: 0 },
        Vertex { x_halves: 1, y_halves: 1, color: c[1], u: 1, v: 0 },
        Vertex { x_halves: -1, y_halves: -1, color: c[2], u: 0, v: 1 },
        Vertex { x_halves: 1, y_halves: -1, color: c[3], u: 1, v: 1 },
    ];
    assert(vertices@ =~= corners(palette));
    vertices
}

/// The two triangles of the quad, as numbers of corners: top left, top
/// right, bottom left; then top right, bottom left, bottom right.
pub open spec fn triangles() -> Seq<u16> {
    seq![0u16, 1u16, 2u16, 1u16, 2u16, 3u16]
}

/// The two triangles of the quad, as indices into its corners.
pub fn quad_indices() -> (indices: [u16; 6])
    ensures
        indices@ == triangles(),
{
    let indices: [u16; 6] = [0, 1, 2, 1, 2, 3];
    assert(indices@ =~= triangles());
    indices
}

/// The colour that a frame is cleared to before the quad is drawn.
pub fn clear_color() -> (color: Rgba)
    ensures
        color == green(),
{
    Rgba { r: 0, g: 255, b: 0, a: 255 }
}

/// The two triangles name every corner and nothing else, and share the
/// diagonal from the top right to the bottom left.
pub proof fn law_triangles_cover_quad()
    ensures
        triangles().len() == 6,
        forall|i: int| 0 <= i < 6 ==> (#[trigger] triangles()[i]) < 4,
        forall|c: u16| c < 4 ==> triangles().contains(c),
        triangles()[1] == triangles()[3],
        triangles()[2] == triangles()[4],
{
    let s = triangles();
    assert(s[0] == 0 && s[1] == 1 && s[2] == 2 && s[5] == 3);
}

} // verus!
