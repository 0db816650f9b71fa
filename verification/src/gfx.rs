//! Graphics resources and shapes.

pub mod shapes;

use vstd::prelude::*;

verus! {

/// A font laid out as a grid of glyphs in one image.
#[derive(Clone, Copy, Debug)]
pub struct BitmapFontData {
    /// The encoded image.
    pub img: &'static [u8],
    /// The width of a glyph, in pixels.
    pub gw: u8,
    /// The height of a glyph, in pixels.
    pub gh: u8,
    /// The characters of the grid, row by row.
    pub chars: &'static str,
}

/// An image on the graphics device.
#[derive(Clone, Copy, Debug)]
pub struct Texture {}

/// A surface on the graphics device that can be drawn to and drawn.
#[derive(Clone, Copy, Debug)]
pub struct Canvas {}

impl Canvas {
    /// A canvas. The size, in pixels, is accepted and not kept: a canvas
    /// holds nothing, so there is only one.
    #[allow(unused_variables)]
    pub fn new(width: u32, height: u32) -> (c: Canvas) {
        Canvas {  }
    }
}

} // verus!
