//! The ways in which building a cache or drawing can fail.

use vstd::prelude::*;

verus! {

/// Why the display surface did not take a fill or a glyph draw.
#[derive(Clone, Copy, Debug, PartialEq, Eq, Structural)]
pub enum SurfaceFault {
    /// No destination rectangle exists for the glyph: the cell height is
    /// zero or exceeds the glyph's height, so that the scale is zero, or the
    /// pen has left the range of `i32`.
    InvalidRectangle,
    /// The display host reported that the operation failed.
    Rejected,
}

/// An error of the glyph cache or of the compositor.
#[derive(Clone, Copy, Debug, PartialEq, Eq, Structural)]
pub enum RenderError {
    /// The font resource could not be opened.
    FontLoad,
    /// A repertoire character could not be rasterized while a cache was
    /// built.
    GlyphRaster { glyph: char },
    /// A character outside the repertoire was looked up.
    GlyphNotFound { glyph: char },
    /// A fill or a glyph draw did not reach the display surface.
    SurfaceDraw { cause: SurfaceFault },
}

/// The failure of a drawing: the glyph that stopped it, the glyph's
/// position in what was to be drawn, and the error.
#[derive(Clone, Copy, Debug, PartialEq, Eq, Structural)]
pub struct DrawError {
    pub position: usize,
    pub glyph: char,
    pub error: RenderError,
}

} // verus!
