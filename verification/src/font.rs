//! The glyph cache: one image and one size for each repertoire character.

use crate::error::RenderError;
use crate::geometry::Color;
use crate::repertoire::{
    character, code_in_repertoire, code_slot, in_repertoire, slot_of, REPERTOIRE_LEN,
};
use std::collections::HashMap;
use vstd::prelude::*;

verus! {

/// A cached glyph: the image that the display host keeps for it, and the
/// pixel size it was rasterized at.
#[derive(Clone, Copy, Debug, PartialEq, Eq, Structural)]
pub struct Glyph {
    pub image: usize,
    pub width: u32,
    pub height: u32,
}

/// What the rasterizer reports for one character.
#[derive(Clone, Copy, Debug, PartialEq, Eq, Structural)]
pub enum GlyphReport {
    /// The character was rasterized and the display host holds its image.
    Rendered(Glyph),
    /// No image could be made for the character.
    Failed,
}

/// What the rasterizer reports for a font file.
#[derive(Debug)]
pub enum FontReport {
    /// The font was opened. The reports are those of the repertoire's
    /// characters, by ascending code.
    Opened(Vec<GlyphReport>),
    /// The file is missing, unreadable, or not a font.
    Unreadable,
}

/// Whether `reports` holds an image for the character at position `slot`.
pub open spec fn rendered(reports: Seq<GlyphReport>, slot: int) -> bool {
    0 <= slot < reports.len() && reports[slot] is Rendered
}

/// Whether `reports` holds an image for every repertoire character.
pub open spec fn complete(reports: Seq<GlyphReport>) -> bool {
    forall|slot: int| 0 <= slot < REPERTOIRE_LEN ==> rendered(reports, slot)
}

/// Whether `slot` is the first position of the repertoire for which
/// `reports` holds no image.
pub open spec fn first_failure(reports: Seq<GlyphReport>, slot: int) -> bool {
    &&& 0 <= slot < REPERTOIRE_LEN
    &&& !rendered(reports, slot)
    &&& forall|earlier: int| 0 <= earlier < slot ==> rendered(reports, earlier)
}

/// The mapping from character to glyph that complete reports describe.
pub open spec fn glyph_table(reports: Seq<GlyphReport>) -> Map<char, Glyph> {
    Map::new(|c: char| in_repertoire(c), |c: char| reports[slot_of(c)]->Rendered_0)
}

/// At most one position is the first without an image, so the error of a
/// failed build is determined by the reports.
pub proof fn lemma_first_failure_unique(reports: Seq<GlyphReport>, a: int, b: int)
    requires
        first_failure(reports, a),
        first_failure(reports, b),
    ensures
        a == b,
{
    if a < b {
        assert(rendered(reports, a));
    } else if b < a {
        assert(rendered(reports, b));
    }
}

/// Reports are either complete or have a first position without an image.
pub proof fn lemma_complete_or_first_failure(reports: Seq<GlyphReport>)
    ensures
        complete(reports) <==> !exists|slot: int| first_failure(reports, slot),
{
    if !complete(reports) {
        let missing = choose|slot: int| 0 <= slot < REPERTOIRE_LEN && !rendered(reports, slot);
        lemma_failure_before(reports, missing);
    }
    if exists|slot: int| first_failure(reports, slot) {
        let slot = choose|slot: int| first_failure(reports, slot);
        assert(!rendered(reports, slot));
    }
}

/// Where a position has no image, some position up to it is the first
/// without one.
proof fn lemma_failure_before(reports: Seq<GlyphReport>, missing: int)
    requires
        0 <= missing < REPERTOIRE_LEN,
        !rendered(reports, missing),
    ensures
        exists|slot: int| first_failure(reports, slot),
    decreases missing,
{
    if forall|earlier: int| 0 <= earlier < missing ==> rendered(reports, earlier) {
        assert(first_failure(reports, missing));
    } else {
        let earlier = choose|earlier: int| 0 <= earlier < missing && !rendered(reports, earlier);
        lemma_failure_before(reports, earlier);
    }
}

/// Building twice from reports that agree on every glyph's size gives
/// caches that report the same size for every repertoire character,
/// whatever images the display host holds.
pub proof fn lemma_rebuild_keeps_sizes(first: Seq<GlyphReport>, second: Seq<GlyphReport>, c: char)
    requires
        complete(first),
        complete(second),
        forall|slot: int|
            0 <= slot < REPERTOIRE_LEN ==> {
                &&& (#[trigger] first[slot])->Rendered_0.width == second[slot]->Rendered_0.width
                &&& first[slot]->Rendered_0.height == second[slot]->Rendered_0.height
            },
        in_repertoire(c),
    ensures
        glyph_table(first)[c].width == glyph_table(second)[c].width,
        glyph_table(first)[c].height == glyph_table(second)[c].height,
{
    let slot = slot_of(c);
    assert(first[slot]->Rendered_0.width == second[slot]->Rendered_0.width);
}

/// The glyphs of one font at one size, keyed by character. It holds exactly
/// the repertoire and does not change once built.
pub struct FontCache {
    glyph_map: HashMap<u32, Glyph>,
}

impl View for FontCache {
    type V = Map<char, Glyph>;

    closed spec fn view(&self) -> Map<char, Glyph> {
        Map::new(|c: char| in_repertoire(c), |c: char| self.glyph_map@[c as u32])
    }
}

impl FontCache {
    #[verifier::type_invariant]
    spec fn holds_repertoire(self) -> bool {
        forall|code: u32| self.glyph_map@.contains_key(code) <==> code_in_repertoire(code)
    }

    /// A cache is keyed by the repertoire, whatever it holds.
    pub proof fn lemma_keys(&self)
        ensures
            forall|c: char| self@.contains_key(c) <==> in_repertoire(c),
    {
    }

    /// Looks up the image of `glyph`.
    pub fn glyph(&self, glyph: char) -> (image: Result<usize, RenderError>)
        ensures
            in_repertoire(glyph) ==> image == Ok::<usize, RenderError>(self@[glyph].image),
            !in_repertoire(glyph) ==> image == Err::<usize, RenderError>(
                RenderError::GlyphNotFound { glyph },
            ),
    {
        match self.entry(glyph) {
            Ok(entry) => Ok(entry.image),
            Err(e) => Err(e),
        }
    }

    /// The pixel width and height that `glyph` was rasterized at.
    pub fn size(&self, glyph: char) -> (size: Result<(u32, u32), RenderError>)
        ensures
            in_repertoire(glyph) ==> size == Ok::<(u32, u32), RenderError>(
                (self@[glyph].width, self@[glyph].height),
            ),
            !in_repertoire(glyph) ==> size == Err::<(u32, u32), RenderError>(
                RenderError::GlyphNotFound { glyph },
            ),
    {
        match self.entry(glyph) {
            Ok(entry) => Ok((entry.width, entry.height)),
            Err(e) => Err(e),
        }
    }

    /// The cached entry of `glyph`.
    pub fn entry(&self, glyph: char) -> (entry: Result<Glyph, RenderError>)
        ensures
            in_repertoire(glyph) ==> entry == Ok::<Glyph, RenderError>(self@[glyph]),
            !in_repertoire(glyph) ==> entry == Err::<Glyph, RenderError>(
                RenderError::GlyphNotFound { glyph },
            ),
    {
        broadcast use vstd::std_specs::hash::group_hash_axioms;

        proof {
            use_type_invariant(self);
        }
        let code: u32 = glyph as u32;
        match self.glyph_map.get(&code) {
            Some(entry) => Ok(*entry),
            None => Err(RenderError::GlyphNotFound { glyph }),
        }
    }
}

/// Point size at which glyphs are rasterized.
pub const POINT_SIZE: u16 = 128;

/// The settings with which caches are built: the point size and the tint
/// handed to the rasterizer.
#[derive(Clone, Copy, Debug)]
pub struct FontManager {
    point_size: u16,
    tint: Color,
}

impl FontManager {
    /// Point size at which the rasterizer is to render each character.
    pub closed spec fn spec_point_size(&self) -> u16 {
        self.point_size
    }

    /// Color in which the rasterizer is to render each character.
    pub closed spec fn spec_tint(&self) -> Color {
        self.tint
    }

    /// The manager that rasterizes at `POINT_SIZE` in opaque white, so that a
    /// tint applied when a glyph is drawn gives the glyph that color.
    pub fn init() -> (manager: FontManager)
        ensures
            manager.spec_point_size() == POINT_SIZE,
            manager.spec_tint() == (Color { r: 255, g: 255, b: 255, a: 255 }),
    {
        FontManager::with_settings(POINT_SIZE, Color::rgb(255, 255, 255))
    }

    /// The manager that rasterizes at `point_size` in the color of `tint`.
    /// Glyphs are rasterized at full opacity, whatever the opacity of `tint`.
    pub fn with_settings(point_size: u16, tint: Color) -> (manager: FontManager)
        ensures
            manager.spec_point_size() == point_size,
            manager.spec_tint() == (Color { r: tint.r, g: tint.g, b: tint.b, a: 255 }),
    {
        FontManager { point_size, tint: Color::rgb(tint.r, tint.g, tint.b) }
    }

    /// Point size at which the rasterizer is to render each character.
    #[verifier::when_used_as_spec(spec_point_size)]
    pub fn point_size(&self) -> (point_size: u16)
        ensures
            point_size == self.spec_point_size(),
    {
        self.point_size
    }

    /// Color in which the rasterizer is to render each character.
    #[verifier::when_used_as_spec(spec_tint)]
    pub fn tint(&self) -> (tint: Color)
        ensures
            tint == self.spec_tint(),
    {
        self.tint
    }

    /// Builds the cache of a font from what the rasterizer reported for it.
    ///
    /// The build is all or nothing: a cache comes out only if the font was
    /// opened and every repertoire character has an image. Otherwise the
    /// error names the first character, by ascending code, that has none.
    /// Reports beyond the repertoire's length are not looked at.
    pub fn load(&self, font: &FontReport) -> (cache: Result<FontCache, RenderError>)
        ensures
            font is Unreadable ==> cache == Err::<FontCache, RenderError>(RenderError::FontLoad),
            font matches FontReport::Opened(reports) ==> (cache is Ok <==> complete(reports@)),
            font matches FontReport::Opened(reports) ==> match cache {
                Ok(built) => built@ == glyph_table(reports@),
                Err(e) => e matches RenderError::GlyphRaster { glyph } && in_repertoire(glyph)
                    && first_failure(reports@, slot_of(glyph)),
            },
    {
        broadcast use vstd::std_specs::hash::group_hash_axioms;

        match font {
            FontReport::Unreadable => Err(RenderError::FontLoad),
            FontReport::Opened(reports) => {
                let mut glyph_map: HashMap<u32, Glyph> = HashMap::new();
                let mut slot: usize = 0;
                while slot < REPERTOIRE_LEN
                    invariant
                        font matches FontReport::Opened(opened) && opened == reports,
                        slot <= REPERTOIRE_LEN,
                        forall|earlier: int| 0 <= earlier < slot ==> rendered(reports@, earlier),
                        forall|code: u32|
                            glyph_map@.contains_key(code) <==> code_in_repertoire(code)
                                && code_slot(code) < slot,
                        forall|code: u32|
                            glyph_map@.contains_key(code) ==> glyph_map@[code]
                                == reports@[code_slot(code)]->Rendered_0,
                    decreases REPERTOIRE_LEN - slot,
                {
                    let glyph = character(slot).unwrap();
                    if slot >= reports.len() {
                        assert(!rendered(reports@, slot as int));
                        return Err(RenderError::GlyphRaster { glyph });
                    }
                    match reports[slot] {
                        GlyphReport::Rendered(entry) => {
                            glyph_map.insert(glyph as u32, entry);
                        },
                        GlyphReport::Failed => {
                            assert(!rendered(reports@, slot as int));
                            return Err(RenderError::GlyphRaster { glyph });
                        },
                    }
                    slot = slot + 1;
                }
                let built = FontCache { glyph_map };
                assert(built@ =~= glyph_table(reports@));
                Ok(built)
            },
        }
    }
}

} // verus!
