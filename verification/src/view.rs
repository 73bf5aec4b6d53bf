//! The compositor: which fills and glyph draws a glyph or a string turns
//! into, and in which order a display host is to perform them.

use crate::error::{DrawError, RenderError, SurfaceFault};
use crate::font::{FontCache, Glyph};
use crate::geometry::{Color, Rect};
use crate::repertoire::in_repertoire;
use vstd::prelude::*;
use vstd::std_specs::iter::IteratorSpec;
use vstd::view::View as _;

verus! {

/// One glyph to put on the display surface: `target` is filled with
/// `background`, then the glyph's image, tinted with `tint`, is stretched
/// over `target`.
#[derive(Clone, Copy, Debug, PartialEq, Eq, Structural)]
pub struct GlyphDraw {
    pub glyph: char,
    pub image: usize,
    pub tint: Color,
    pub background: Color,
    pub target: Rect,
}

/// An operation that the display host performs on its surface.
#[derive(Clone, Copy, Debug, PartialEq, Eq, Structural)]
pub enum DrawOp {
    /// Paint the whole surface in `color`.
    Clear { color: Color },
    /// Paint `rect` in `color`.
    Fill { rect: Rect, color: Color },
    /// Stretch the cached image `image` over `rect`, each of its color
    /// channels multiplied by that of `tint`.
    Blit { image: usize, tint: Color, rect: Rect },
    /// Show what has been drawn since the surface was last shown.
    Present,
}

/// The fill that a glyph draw starts with.
pub open spec fn fill_of(cell: GlyphDraw) -> DrawOp {
    DrawOp::Fill { rect: cell.target, color: cell.background }
}

/// The blit that completes a glyph draw.
pub open spec fn blit_of(cell: GlyphDraw) -> DrawOp {
    DrawOp::Blit { image: cell.image, tint: cell.tint, rect: cell.target }
}

/// The operations that a sequence of glyph draws asks for: for each glyph
/// in turn its fill, then its blit.
pub open spec fn ops_of(cells: Seq<GlyphDraw>) -> Seq<DrawOp> {
    Seq::new(
        2 * cells.len(),
        |i: int|
            if i % 2 == 0 {
                fill_of(cells[i / 2])
            } else {
                blit_of(cells[i / 2])
            },
    )
}

/// The operations of a sequence of glyph draws come in pairs: the fill of
/// a glyph, then its blit.
pub proof fn lemma_ops_in_pairs(cells: Seq<GlyphDraw>, k: int)
    requires
        0 <= k < cells.len(),
    ensures
        ops_of(cells).len() == 2 * cells.len(),
        ops_of(cells)[2 * k] == fill_of(cells[k]),
        ops_of(cells)[2 * k + 1] == blit_of(cells[k]),
{
}

/// Whether a glyph can be shrunk to a cell of `cell_height`: the cell has a
/// height, and the glyph is at least as high, so that the scale is not zero.
pub open spec fn scalable(entry: Glyph, cell_height: u32) -> bool {
    1 <= cell_height <= entry.height
}

/// The whole number by which a glyph is divided to fit the cell: the
/// glyph's height over the cell's, rounded down.
pub open spec fn scale(entry: Glyph, cell_height: u32) -> int {
    entry.height as int / cell_height as int
}

/// Width of a glyph in a cell of `cell_height`: the glyph's width over the
/// scale, rounded down.
pub open spec fn scaled_width(entry: Glyph, cell_height: u32) -> int {
    entry.width as int / scale(entry, cell_height)
}

/// A scaled width never exceeds the width it was scaled from.
pub proof fn lemma_scaled_width_bounds(entry: Glyph, cell_height: u32)
    requires
        scalable(entry, cell_height),
    ensures
        1 <= scale(entry, cell_height) <= entry.height,
        0 <= scaled_width(entry, cell_height) <= entry.width,
{
    let h = entry.height as int;
    let c = cell_height as int;
    let w = entry.width as int;
    assert(1 <= h / c <= h) by (nonlinear_arith)
        requires
            1 <= c <= h,
    ;
    let s = h / c;
    assert(0 <= w / s <= w) by (nonlinear_arith)
        requires
            1 <= s,
            0 <= w,
    ;
}

/// The scale and the scaled width are quotients rounded down: the scale is
/// the largest whole number of cells that fit into the glyph's height, and
/// the scaled width the largest whole number of scales that fit into the
/// glyph's width.
pub proof fn lemma_scaled_width_is(entry: Glyph, cell_height: u32, factor: int, width: int)
    requires
        1 <= cell_height,
        1 <= factor,
        factor * cell_height <= entry.height < (factor + 1) * cell_height,
        width * factor <= entry.width < (width + 1) * factor,
    ensures
        scalable(entry, cell_height),
        scale(entry, cell_height) == factor,
        scaled_width(entry, cell_height) == width,
{
    let h = entry.height as int;
    let c = cell_height as int;
    let w = entry.width as int;
    assert(h / c == factor) by (nonlinear_arith)
        requires
            1 <= c,
            factor * c <= h < (factor + 1) * c,
    ;
    assert(w / factor == width) by (nonlinear_arith)
        requires
            1 <= factor,
            width * factor <= w < (width + 1) * factor,
    ;
    assert(c <= h) by (nonlinear_arith)
        requires
            1 <= factor,
            1 <= c,
            factor * c <= h,
    ;
}

/// Width of a glyph in a cell of `cell_height`, or `None` where the glyph
/// cannot be scaled to the cell.
pub fn fit_width(entry: Glyph, cell_height: u32) -> (width: Option<u32>)
    ensures
        scalable(entry, cell_height) ==> width == Some(scaled_width(entry, cell_height) as u32),
        scalable(entry, cell_height) ==> 0 <= scaled_width(entry, cell_height) <= entry.width,
        !scalable(entry, cell_height) ==> width is None,
{
    if cell_height == 0 || entry.height < cell_height {
        None
    } else {
        proof {
            lemma_scaled_width_bounds(entry, cell_height);
        }
        let scale = entry.height / cell_height;
        Some(entry.width / scale)
    }
}

/// Horizontal position of the glyph at `position` of `text`: the origin,
/// moved right by the scaled width of each glyph before it.
pub open spec fn pen_x(
    cache: Map<char, Glyph>,
    text: Seq<char>,
    x0: int,
    cell_height: u32,
    position: int,
) -> int
    decreases position,
{
    if position <= 0 {
        x0
    } else {
        pen_x(cache, text, x0, cell_height, position - 1) + scaled_width(
            cache[text[position - 1]],
            cell_height,
        )
    }
}

/// Why `glyph` cannot be drawn with the pen at `pen`, if it cannot: it is
/// outside the repertoire, or it has no destination rectangle.
pub open spec fn fault_of(
    cache: Map<char, Glyph>,
    glyph: char,
    cell_height: u32,
    pen: int,
) -> Option<RenderError> {
    if !in_repertoire(glyph) {
        Some(RenderError::GlyphNotFound { glyph })
    } else if !scalable(cache[glyph], cell_height) || pen > i32::MAX {
        Some(RenderError::SurfaceDraw { cause: SurfaceFault::InvalidRectangle })
    } else {
        None
    }
}

/// The glyph draw of `glyph` with the pen at `pen` on the line `y`: its
/// rectangle starts at the pen and has the scaled width and the cell's
/// height.
pub open spec fn cell_of(
    cache: Map<char, Glyph>,
    glyph: char,
    color: Color,
    background: Color,
    pen: int,
    y: i32,
    cell_height: u32,
) -> GlyphDraw {
    GlyphDraw {
        glyph,
        image: cache[glyph].image,
        tint: color,
        background,
        target: Rect {
            x: pen as i32,
            y,
            width: scaled_width(cache[glyph], cell_height) as u32,
            height: cell_height,
        },
    }
}

/// Why the glyph at `position` of `text` cannot be drawn, if it cannot.
pub open spec fn fault_at(
    cache: Map<char, Glyph>,
    text: Seq<char>,
    x0: int,
    cell_height: u32,
    position: int,
) -> Option<RenderError> {
    fault_of(cache, text[position], cell_height, pen_x(cache, text, x0, cell_height, position))
}

/// The glyph draw for the glyph at `position` of `text`, on the origin's
/// line.
pub open spec fn cell_at(
    cache: Map<char, Glyph>,
    text: Seq<char>,
    color: Color,
    background: Color,
    origin: (i32, i32),
    cell_height: u32,
    position: int,
) -> GlyphDraw {
    cell_of(
        cache,
        text[position],
        color,
        background,
        pen_x(cache, text, origin.0 as int, cell_height, position),
        origin.1,
        cell_height,
    )
}

/// Whether `cells` and `failure` are what drawing `text` comes to: `cells`
/// holds the glyph draws of the longest prefix of `text` in which every
/// glyph can be drawn, and `failure` names the glyph after that prefix, if
/// there is one, with the reason why it cannot be drawn.
pub open spec fn laid_out(
    cells: Seq<GlyphDraw>,
    failure: Option<DrawError>,
    cache: Map<char, Glyph>,
    text: Seq<char>,
    color: Color,
    background: Color,
    origin: (i32, i32),
    cell_height: u32,
) -> bool {
    &&& cells.len() <= text.len()
    &&& forall|k: int|
        0 <= k < cells.len() ==> #[trigger] fault_at(cache, text, origin.0 as int, cell_height, k)
            is None
    &&& forall|k: int|
        0 <= k < cells.len() ==> #[trigger] cells[k] == cell_at(
            cache,
            text,
            color,
            background,
            origin,
            cell_height,
            k,
        )
    &&& cells.len() == text.len() ==> failure is None
    &&& cells.len() < text.len() ==> {
        &&& fault_at(cache, text, origin.0 as int, cell_height, cells.len() as int) matches Some(
            error,
        )
        &&& failure == Some(
            DrawError { position: cells.len() as usize, glyph: text[cells.len() as int], error },
        )
    }
}

/// The pen never moves left while the glyphs it passes can be scaled.
pub proof fn lemma_pen_advances(
    cache: Map<char, Glyph>,
    text: Seq<char>,
    x0: int,
    cell_height: u32,
    position: int,
)
    requires
        0 <= position <= text.len(),
        forall|k: int|
            0 <= k < position ==> #[trigger] fault_at(cache, text, x0, cell_height, k) is None,
    ensures
        x0 <= pen_x(cache, text, x0, cell_height, position),
    decreases position,
{
    if position > 0 {
        lemma_pen_advances(cache, text, x0, cell_height, position - 1);
        assert(fault_at(cache, text, x0, cell_height, position - 1) is None);
        lemma_scaled_width_bounds(cache[text[position - 1]], cell_height);
    }
}

/// What a layout looks like: every glyph draw is for its character of the
/// text, in the colors asked for, on the origin's line and as high as the
/// cell; the first starts at the origin, and each of the others starts
/// where the one before it ends, with no gap and no overlap.
pub proof fn lemma_layout_adjoins(
    cells: Seq<GlyphDraw>,
    failure: Option<DrawError>,
    cache: Map<char, Glyph>,
    text: Seq<char>,
    color: Color,
    background: Color,
    origin: (i32, i32),
    cell_height: u32,
    k: int,
)
    requires
        laid_out(cells, failure, cache, text, color, background, origin, cell_height),
        0 <= k < cells.len(),
    ensures
        cells[k].glyph == text[k],
        in_repertoire(text[k]),
        cells[k].image == cache[text[k]].image,
        cells[k].tint == color,
        cells[k].background == background,
        cells[k].target.y == origin.1,
        cells[k].target.height == cell_height,
        cells[k].target.width == scaled_width(cache[text[k]], cell_height),
        k == 0 ==> cells[k].target.x == origin.0,
        k > 0 ==> cells[k].target.x == cells[k - 1].target.x + cells[k - 1].target.width,
{
    let x0 = origin.0 as int;
    assert(cells[k] == cell_at(cache, text, color, background, origin, cell_height, k));
    assert(fault_at(cache, text, x0, cell_height, k) is None);
    lemma_scaled_width_bounds(cache[text[k]], cell_height);
    assert forall|j: int| 0 <= j < k implies #[trigger] fault_at(
        cache,
        text,
        x0,
        cell_height,
        j,
    ) is None by {}
    lemma_pen_advances(cache, text, x0, cell_height, k);
    if k > 0 {
        assert(cells[k - 1] == cell_at(cache, text, color, background, origin, cell_height, k - 1));
        assert(fault_at(cache, text, x0, cell_height, k - 1) is None);
        lemma_scaled_width_bounds(cache[text[k - 1]], cell_height);
        lemma_pen_advances(cache, text, x0, cell_height, k - 1);
    }
}

/// A text has one layout: the glyph draws and the failure are determined
/// by the cache, the text, the colors, the origin and the cell height.
pub proof fn lemma_layout_unique(
    cells: Seq<GlyphDraw>,
    failure: Option<DrawError>,
    other_cells: Seq<GlyphDraw>,
    other_failure: Option<DrawError>,
    cache: Map<char, Glyph>,
    text: Seq<char>,
    color: Color,
    background: Color,
    origin: (i32, i32),
    cell_height: u32,
)
    requires
        laid_out(cells, failure, cache, text, color, background, origin, cell_height),
        laid_out(other_cells, other_failure, cache, text, color, background, origin, cell_height),
    ensures
        cells == other_cells,
        failure == other_failure,
{
    let x0 = origin.0 as int;
    if cells.len() < other_cells.len() {
        assert(fault_at(cache, text, x0, cell_height, cells.len() as int) is None);
    } else if other_cells.len() < cells.len() {
        assert(fault_at(cache, text, x0, cell_height, other_cells.len() as int) is None);
    }
    assert(cells =~= other_cells);
}

/// What a display host is to do next for a drawing.
#[derive(Clone, Copy, Debug, PartialEq, Eq, Structural)]
pub enum Step {
    /// Perform the operation, then ask again, saying how it went.
    Perform(DrawOp),
    /// Every glyph was drawn.
    Done,
    /// The drawing stopped at a glyph. What was drawn before stays drawn.
    Failed(DrawError),
}

/// A glyph or a string on its way to the display surface: the glyph draws
/// it was laid out into, the glyph that stopped the layout, if one did, and
/// how far the display host has come.
#[derive(Debug)]
pub struct Drawing {
    cells: Vec<GlyphDraw>,
    failure: Option<DrawError>,
    cursor: usize,
    filled: bool,
    verdict: Option<Step>,
}

impl Drawing {
    #[verifier::type_invariant]
    spec fn consistent(self) -> bool {
        &&& self.cursor <= self.cells@.len()
        &&& self.filled ==> self.cursor < self.cells@.len()
        &&& self.verdict matches Some(step) ==> !(step is Perform)
    }

    /// The glyph draws that were laid out, first glyph first.
    pub closed spec fn cells(&self) -> Seq<GlyphDraw> {
        self.cells@
    }

    /// The glyph at which the layout stopped, if it did.
    pub closed spec fn failure(&self) -> Option<DrawError> {
        self.failure
    }

    /// Number of operations handed to the display host so far.
    pub closed spec fn issued(&self) -> nat {
        if self.filled {
            2 * self.cursor as nat + 1
        } else {
            2 * self.cursor as nat
        }
    }

    /// The step at which the drawing ended, once it has.
    pub closed spec fn verdict(&self) -> Option<Step> {
        self.verdict
    }

    /// The operations that the drawing asks of the display host, in order.
    pub open spec fn ops(&self) -> Seq<DrawOp> {
        ops_of(self.cells())
    }

    /// The step that follows, given how the operation handed out last went.
    ///
    /// A drawing that has ended repeats its last step. A rejected operation
    /// ends the drawing at the glyph it belongs to. Otherwise the next
    /// operation is due, and after the last one the outcome of the layout.
    pub open spec fn step_after(&self, previous_ok: bool) -> Step {
        match self.verdict() {
            Some(step) => step,
            None => if self.issued() > 0 && !previous_ok {
                let position = (self.issued() - 1) / 2;
                Step::Failed(
                    DrawError {
                        position: position as usize,
                        glyph: self.cells()[position].glyph,
                        error: RenderError::SurfaceDraw { cause: SurfaceFault::Rejected },
                    },
                )
            } else if self.issued() < self.ops().len() {
                Step::Perform(self.ops()[self.issued() as int])
            } else {
                match self.failure() {
                    None => Step::Done,
                    Some(error) => Step::Failed(error),
                }
            },
        }
    }

    /// The glyph draws that were laid out, first glyph first.
    pub fn glyph_draws(&self) -> (cells: &Vec<GlyphDraw>)
        ensures
            cells@ == self.cells(),
    {
        &self.cells
    }

    /// The glyph at which the layout stopped, if it did.
    pub fn layout_failure(&self) -> (failure: Option<DrawError>)
        ensures
            failure == self.failure(),
    {
        self.failure
    }

    /// Tells the display host what to do next. `previous_ok` says whether
    /// the operation handed out by the call before succeeded; the first
    /// call ignores it.
    pub fn next(&mut self, previous_ok: bool) -> (step: Step)
        ensures
            step == old(self).step_after(previous_ok),
            final(self).cells() == old(self).cells(),
            final(self).failure() == old(self).failure(),
            step is Perform ==> final(self).issued() == old(self).issued() + 1,
            step is Perform ==> final(self).verdict() is None,
            !(step is Perform) ==> final(self).issued() == old(self).issued(),
            !(step is Perform) ==> final(self).verdict() == Some(step),
    {
        proof {
            use_type_invariant(&*self);
        }
        if let Some(step) = self.verdict {
            return step;
        }
        if !previous_ok && (self.filled || self.cursor > 0) {
            let position = if self.filled {
                self.cursor
            } else {
                self.cursor - 1
            };
            let step = Step::Failed(
                DrawError {
                    position,
                    glyph: self.cells[position].glyph,
                    error: RenderError::SurfaceDraw { cause: SurfaceFault::Rejected },
                },
            );
            self.verdict = Some(step);
            return step;
        }
        if self.cursor < self.cells.len() {
            let cell = self.cells[self.cursor];
            if self.filled {
                self.filled = false;
                self.cursor = self.cursor + 1;
                Step::Perform(
                    DrawOp::Blit { image: cell.image, tint: cell.tint, rect: cell.target },
                )
            } else {
                self.filled = true;
                Step::Perform(DrawOp::Fill { rect: cell.target, color: cell.background })
            }
        } else {
            let step = match self.failure {
                None => Step::Done,
                Some(error) => Step::Failed(error),
            };
            self.verdict = Some(step);
            step
        }
    }
}

/// Places one glyph of a text with the pen at `pen`.
fn place(
    font: &FontCache,
    glyph: char,
    color: Color,
    background: Color,
    pen: i64,
    y: i32,
    height: u32,
) -> (placed: Result<GlyphDraw, RenderError>)
    requires
        i32::MIN <= pen,
    ensures
        match placed {
            Ok(cell) => fault_of(font@, glyph, height, pen as int) is None && cell == cell_of(
                font@,
                glyph,
                color,
                background,
                pen as int,
                y,
                height,
            ),
            Err(error) => fault_of(font@, glyph, height, pen as int) == Some(error),
        },
        placed is Ok ==> 0 <= scaled_width(font@[glyph], height) <= u32::MAX,
{
    let entry = match font.entry(glyph) {
        Ok(entry) => entry,
        Err(error) => {
            return Err(error);
        },
    };
    match fit_width(entry, height) {
        Some(width) if pen <= i32::MAX as i64 => Ok(
            GlyphDraw {
                glyph,
                image: entry.image,
                tint: color,
                background,
                target: Rect::new(pen as i32, y, width, height),
            },
        ),
        _ => Err(RenderError::SurfaceDraw { cause: SurfaceFault::InvalidRectangle }),
    }
}

/// The display surface as the compositor knows it: its size in pixels.
#[derive(Clone, Copy, Debug)]
pub struct View {
    width: u32,
    height: u32,
}

impl View {
    /// Width of the surface in pixels.
    pub closed spec fn spec_width(&self) -> u32 {
        self.width
    }

    /// Height of the surface in pixels.
    pub closed spec fn spec_height(&self) -> u32 {
        self.height
    }

    /// The compositor of a surface of the given size.
    pub fn init(width: u32, height: u32) -> (view: View)
        ensures
            view.spec_width() == width,
            view.spec_height() == height,
    {
        View { width, height }
    }

    /// Width of the surface in pixels.
    #[verifier::when_used_as_spec(spec_width)]
    pub fn width(&self) -> (width: u32)
        ensures
            width == self.spec_width(),
    {
        self.width
    }

    /// Height of the surface in pixels.
    #[verifier::when_used_as_spec(spec_height)]
    pub fn height(&self) -> (height: u32)
        ensures
            height == self.spec_height(),
    {
        self.height
    }

    /// The operation that starts a frame: the whole surface goes black.
    pub fn clear(&self) -> (op: DrawOp)
        ensures
            op == (DrawOp::Clear { color: Color { r: 0, g: 0, b: 0, a: 255 } }),
    {
        DrawOp::Clear { color: Color::rgb(0, 0, 0) }
    }

    /// The operation that ends a frame: what was drawn is shown.
    pub fn present(&self) -> (op: DrawOp)
        ensures
            op == DrawOp::Present,
    {
        DrawOp::Present
    }

    /// Lays out the draw of one glyph into `target`.
    ///
    /// For a repertoire character the drawing holds one glyph draw: `target`
    /// filled with `background`, then the glyph's image tinted with `color`
    /// and stretched over `target`, whatever the image's own proportions.
    /// For any other character it holds none and names the character.
    pub fn draw_glyph(
        &self,
        font: &FontCache,
        glyph: char,
        color: Color,
        background: Color,
        target: Rect,
    ) -> (drawing: Drawing)
        ensures
            drawing.issued() == 0,
            drawing.verdict() is None,
            in_repertoire(glyph) ==> drawing.failure() is None && drawing.cells() == seq![
                GlyphDraw { glyph, image: font@[glyph].image, tint: color, background, target },
            ],
            !in_repertoire(glyph) ==> drawing.cells().len() == 0 && drawing.failure() == Some(
                DrawError { position: 0, glyph, error: RenderError::GlyphNotFound { glyph } },
            ),
    {
        let mut cells: Vec<GlyphDraw> = Vec::new();
        let failure = match font.glyph(glyph) {
            Ok(image) => {
                cells.push(GlyphDraw { glyph, image, tint: color, background, target });
                None
            },
            Err(error) => Some(DrawError { position: 0, glyph, error }),
        };
        Drawing { cells, failure, cursor: 0, filled: false, verdict: None }
    }

    /// Lays out the draw of `text`, left to right from `origin`, every glyph
    /// `height` pixels high.
    ///
    /// Each glyph is divided by a whole number: its scale is its own height
    /// over `height`, rounded down, and its width in the cell is its own
    /// width over that scale, rounded down. Its rectangle starts where the
    /// one before it ends. The layout stops at the first character that is
    /// outside the repertoire, or whose scale is zero (`height` is zero or
    /// exceeds the glyph's height), or whose rectangle would start beyond
    /// the range of `i32`; the glyphs before it are still drawn.
    pub fn draw_text(
        &self,
        font: &FontCache,
        text: &str,
        color: Color,
        background: Color,
        origin: (i32, i32),
        height: u32,
    ) -> (drawing: Drawing)
        ensures
            drawing.issued() == 0,
            drawing.verdict() is None,
            laid_out(
                drawing.cells(),
                drawing.failure(),
                font@,
                text@,
                color,
                background,
                origin,
                height,
            ),
            text@.len() == 0 ==> drawing.ops().len() == 0 && drawing.failure() is None,
    {
        let mut cells: Vec<GlyphDraw> = Vec::new();
        let mut failure: Option<DrawError> = None;
        let mut pen: i64 = origin.0 as i64;
        let mut chars = text.chars();
        loop
            invariant_except_break
                failure is None,
                chars.remaining() == text@.skip(cells@.len() as int),
                pen == pen_x(font@, text@, origin.0 as int, height, cells@.len() as int),
                i32::MIN <= pen <= i32::MAX + u32::MAX,
            invariant
                cells@.len() <= text@.len(),
                forall|k: int|
                    0 <= k < cells@.len() ==> #[trigger] fault_at(
                        font@,
                        text@,
                        origin.0 as int,
                        height,
                        k,
                    ) is None,
                forall|k: int|
                    0 <= k < cells@.len() ==> #[trigger] cells@[k] == cell_at(
                        font@,
                        text@,
                        color,
                        background,
                        origin,
                        height,
                        k,
                    ),
            ensures
                laid_out(cells@, failure, font@, text@, color, background, origin, height),
            decreases text@.len() - cells@.len(),
        {
            let position = cells.len();
            let glyph = match chars.next() {
                Some(glyph) => glyph,
                None => {
                    break;
                },
            };
            proof {
                let rest = text@.skip(position as int);
                assert(rest[0] == text@[position as int]);
                assert(rest.drop_first() =~= text@.skip(position + 1));
            }
            match place(font, glyph, color, background, pen, origin.1, height) {
                Ok(cell) => {
                    cells.push(cell);
                    pen = pen + cell.target.width as i64;
                },
                Err(error) => {
                    failure = Some(DrawError { position, glyph, error });
                    break;
                },
            }
        }
        Drawing { cells, failure, cursor: 0, filled: false, verdict: None }
    }
}

} // verus!
