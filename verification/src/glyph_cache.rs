//! The glyph cache: one texture and its metrics for every character of a
//! font that was asked for, by pixel size.
//!
//! A character is rendered the first time it is asked for and never again:
//! an entry, once stored, is neither replaced nor evicted. The font engine
//! rasterizes; the cache turns the coverage it reports into an alpha image
//! with a one-pixel transparent margin and that image into a texture.
//! Metrics are carried as the bit patterns of double-precision numbers.

use vstd::prelude::*;
use vstd::std_specs::convert::FromSpecImpl;
use std::collections::HashMap;
use rusttype::Font;
use crate::glium_texture::{
    spec_empty, spec_from_memory_alpha, Texture, TextureSettings, TextureView,
};

verus! {

#[verifier::external_type_specification]
#[verifier::external_body]
pub struct ExIoError(std::io::Error);

#[verifier::external_type_specification]
#[verifier::external_body]
pub struct ExFont<'a>(rusttype::Font<'a>);

/// An enum to represent various possible run-time errors that may occur.
#[derive(Debug)]
pub enum Error {
    /// An io error happened when reading font files.
    IoError(std::io::Error),
    /// No font was found in the file.
    NoFont,
}

impl From<std::io::Error> for Error {
    fn from(io_error: std::io::Error) -> (res: Self) {
        Error::IoError(io_error)
    }
}

impl FromSpecImpl<std::io::Error> for Error {
    open spec fn obeys_from_spec() -> bool {
        true
    }

    open spec fn from_spec(io_error: std::io::Error) -> Self {
        Error::IoError(io_error)
    }
}

/// A pair of double-precision numbers, each held as its bit pattern.
#[derive(Clone, Copy, PartialEq, Eq, Debug, Structural)]
pub struct Vec2d {
    pub x: u64,
    pub y: u64,
}

/// One sample of the coverage of a glyph: the opacity of the pixel `(x, y)`
/// of the glyph's bounding box, counted from its top-left corner.
#[derive(Clone, Copy, PartialEq, Eq, Debug, Structural)]
pub struct Coverage {
    pub x: u32,
    pub y: u32,
    pub alpha: u8,
}

/// What the font engine reports of one glyph at one size.
#[derive(Clone, Debug)]
pub struct RasterizedGlyph {
    /// Offset of the top-left corner of the image from the pen position.
    pub offset: Vec2d,
    /// Advance of the pen.
    pub size: Vec2d,
    /// Width of the bounding box in pixels.
    pub width: u32,
    /// Height of the bounding box in pixels.
    pub height: u32,
    /// The coverage of the pixels of the bounding box.
    pub coverage: Vec<Coverage>,
}

/// A rasterized glyph as a value.
pub struct RasterizedGlyphView {
    pub offset: Vec2d,
    pub size: Vec2d,
    pub width: u32,
    pub height: u32,
    pub coverage: Seq<Coverage>,
}

/// A cached character.
#[derive(Clone, Debug)]
pub struct Character {
    /// Offset of the top-left corner of the image from the pen position.
    pub offset: Vec2d,
    /// Advance of the pen.
    pub size: Vec2d,
    /// The image of the character.
    pub texture: Texture,
}

/// A cached character as a value.
pub struct CharacterView {
    pub offset: Vec2d,
    pub size: Vec2d,
    pub texture: TextureView,
}

/// Caches characters for a font.
pub struct GlyphCache {
    font: Font<'static>,
    data: HashMap<u64, Character>,
}

/// The character that stands in for one that a font has no glyph for.
pub const REPLACEMENT_CHARACTER: char = '\u{FFFD}';

/// Whether `rusttype::Font::try_from_vec` finds a font in the given bytes.
pub uninterp spec fn spec_font_parses(data: Seq<u8>) -> bool;

/// Calls `rusttype::Font::try_from_vec`, which parses the bytes as a font
/// file and gives its first font, or nothing if the bytes are no font file.
/// Whether it gives one depends on the bytes alone.
#[verifier::external_body]
fn parse_font(data: Vec<u8>) -> (res: Option<Font<'static>>)
    ensures
        res is Some == spec_font_parses(data@),
{
    Font::try_from_vec(data)
}

/// The character whose glyph is drawn for `ch`: `ch` itself, unless the
/// font answers with its glyph zero and that glyph has no outline. Then the
/// font has nothing to show for a missing character, and the replacement
/// character is drawn.
pub open spec fn spec_substitute(ch: char, glyph_id: u16, has_outline: bool) -> char {
    if glyph_id == 0 && !has_outline {
        REPLACEMENT_CHARACTER
    } else {
        ch
    }
}

/// The key under which a character of a pixel size is stored.
pub open spec fn spec_key(size: u32, ch: char) -> u64 {
    (size as u64 * 0x1_0000_0000 + ch as u32) as u64
}

/// The alpha image of width `stride` after the samples were painted into
/// it, each one pixel to the right of and below its place in the bounding
/// box. Where two samples name one pixel, the later one stays.
pub open spec fn spec_paint(image: Seq<u8>, stride: int, coverage: Seq<Coverage>) -> Seq<u8>
    decreases coverage.len(),
{
    if coverage.len() == 0 {
        image
    } else {
        let sample = coverage.last();
        spec_paint(image, stride, coverage.drop_last()).update(
            (sample.x + 1) + (sample.y + 1) * stride,
            sample.alpha,
        )
    }
}

/// The alpha image of a glyph: its bounding box with a transparent margin
/// of one pixel on every side.
pub open spec fn spec_glyph_alpha(width: u32, height: u32, coverage: Seq<Coverage>) -> Seq<u8> {
    spec_paint(
        Seq::new(((width + 2) * (height + 2)) as nat, |i: int| 0u8),
        width + 2,
        coverage,
    )
}

/// The character that a rasterized glyph gives: its metrics as they are,
/// and the texture of its alpha image, or the transparent placeholder where
/// the bounding box has no area.
pub open spec fn spec_render(glyph: RasterizedGlyphView) -> CharacterView {
    CharacterView {
        offset: glyph.offset,
        size: glyph.size,
        texture: if glyph.width == 0 || glyph.height == 0 {
            spec_empty(false)
        } else {
            spec_from_memory_alpha(
                spec_glyph_alpha(glyph.width, glyph.height, glyph.coverage),
                (glyph.width + 2) as u32,
                (glyph.height + 2) as u32,
                TextureSettings::spec_new(),
            )
        },
    }
}

/// The cache after a character was asked for: as before if it holds the
/// character, else with the character rendered from the glyph.
pub open spec fn spec_character(
    cache: Map<(u32, char), CharacterView>,
    size: u32,
    ch: char,
    glyph: RasterizedGlyphView,
) -> Map<(u32, char), CharacterView> {
    if cache.contains_key((size, ch)) {
        cache
    } else {
        cache.insert((size, ch), spec_render(glyph))
    }
}

impl View for RasterizedGlyph {
    type V = RasterizedGlyphView;

    open spec fn view(&self) -> RasterizedGlyphView {
        RasterizedGlyphView {
            offset: self.offset,
            size: self.size,
            width: self.width,
            height: self.height,
            coverage: self.coverage@,
        }
    }
}

impl View for Character {
    type V = CharacterView;

    open spec fn view(&self) -> CharacterView {
        CharacterView { offset: self.offset, size: self.size, texture: self.texture@ }
    }
}

impl RasterizedGlyphView {
    /// Every sample lies in the bounding box, and the image with its margin
    /// has a size that a texture can have.
    pub open spec fn well_formed(self) -> bool {
        &&& self.width + 2 <= u32::MAX
        &&& self.height + 2 <= u32::MAX
        &&& 4 * (self.width + 2) * (self.height + 2) <= isize::MAX
        &&& forall|i: int|
            0 <= i < self.coverage.len() ==> (#[trigger] self.coverage[i]).x < self.width
                && self.coverage[i].y < self.height
    }
}

impl RasterizedGlyph {
    /// Whether every sample lies in the bounding box and the image with its
    /// margin has a size that a texture can have.
    pub fn is_well_formed(&self) -> (res: bool)
        ensures
            res == self@.well_formed(),
    {
        if self.width > u32::MAX - 2 || self.height > u32::MAX - 2 {
            return false;
        }
        let w: u64 = self.width as u64 + 2;
        let h: u64 = self.height as u64 + 2;
        assert(w * h <= 0x1_0000_0000 * 0x1_0000_0000) by (nonlinear_arith)
            requires
                w <= 0x1_0000_0000,
                h <= 0x1_0000_0000,
        ;
        let area: u128 = (w as u128) * (h as u128);
        assert(4 * (self.width + 2) * (self.height + 2) == 4 * area) by (nonlinear_arith)
            requires
                area == (self.width + 2) * (self.height + 2),
        ;
        if 4 * area > isize::MAX as u128 {
            return false;
        }
        let mut i: usize = 0;
        while i < self.coverage.len()
            invariant
                0 <= i <= self.coverage@.len(),
                forall|k: int|
                    0 <= k < i ==> (#[trigger] self.coverage@[k]).x < self.width
                        && self.coverage@[k].y < self.height,
            decreases self.coverage@.len() - i,
        {
            if self.coverage[i].x >= self.width || self.coverage[i].y >= self.height {
                assert(!(self@.coverage[i as int].x < self.width && self@.coverage[i as int].y
                    < self.height));
                return false;
            }
            i = i + 1;
        }
        true
    }

    /// The alpha image of the glyph, with its margin.
    pub fn alpha_image(&self) -> (res: Vec<u8>)
        requires
            self@.well_formed(),
        ensures
            res@ == spec_glyph_alpha(self.width, self.height, self.coverage@),
            res@.len() == (self.width + 2) * (self.height + 2),
    {
        let stride: usize = self.width as usize + 2;
        let rows: usize = self.height as usize + 2;
        assert(stride * rows <= usize::MAX) by (nonlinear_arith)
            requires
                4 * (self.width + 2) * (self.height + 2) <= isize::MAX,
                stride == self.width + 2,
                rows == self.height + 2,
        ;
        let len: usize = stride * rows;
        let mut image: Vec<u8> = Vec::new();
        image.resize(len, 0u8);
        let ghost blank = Seq::new(((self.width + 2) * (self.height + 2)) as nat, |i: int| 0u8);
        assert(image@ =~= blank);
        assert(self.coverage@.take(0) =~= Seq::<Coverage>::empty());
        let mut i: usize = 0;
        while i < self.coverage.len()
            invariant
                0 <= i <= self.coverage@.len(),
                self@.well_formed(),
                stride == self.width + 2,
                rows == self.height + 2,
                len == stride * rows,
                image@.len() == len,
                image@ == spec_paint(blank, stride as int, self.coverage@.take(i as int)),
            decreases self.coverage@.len() - i,
        {
            let sample = self.coverage[i];
            assert(self@.coverage[i as int].x < self.width && self@.coverage[i as int].y
                < self.height);
            assert(0 <= (sample.y + 1) * stride && (sample.y + 1) * stride + (sample.x + 1)
                < stride * rows) by (nonlinear_arith)
                requires
                    sample.y + 1 < rows,
                    sample.x + 1 < stride,
                    sample.y >= 0,
                    sample.x >= 0,
            ;
            let pos: usize = (sample.x as usize + 1) + (sample.y as usize + 1) * stride;
            image.set(pos, sample.alpha);
            proof {
                let done = self.coverage@.take(i + 1);
                assert(done.drop_last() =~= self.coverage@.take(i as int));
                assert(done.last() == sample);
            }
            i = i + 1;
        }
        assert(self.coverage@.take(self.coverage@.len() as int) =~= self.coverage@);
        image
    }

    /// Renders the glyph into a character: the texture of its alpha image,
    /// or the transparent placeholder where the bounding box has no area.
    pub fn render(&self) -> (res: Character)
        requires
            self@.well_formed(),
        ensures
            res@ == spec_render(self@),
            res@.texture.well_formed(),
    {
        let texture = if self.width == 0 || self.height == 0 {
            Texture::empty(false)
        } else {
            let image = self.alpha_image();
            assert((self.width + 2) * (self.height + 2) >= 0) by (nonlinear_arith);
            Texture::from_memory_alpha(
                image.as_slice(),
                self.width + 2,
                self.height + 2,
                &TextureSettings::new(),
            )
        };
        Character { offset: self.offset, size: self.size, texture }
    }
}

/// The character whose glyph is drawn for `ch`, given the glyph that the
/// font answers with.
pub fn substitute(ch: char, glyph_id: u16, has_outline: bool) -> (res: char)
    ensures
        res == spec_substitute(ch, glyph_id, has_outline),
{
    if glyph_id == 0 && !has_outline {
        REPLACEMENT_CHARACTER
    } else {
        ch
    }
}

/// Different characters or sizes have different keys.
pub proof fn lemma_key_injective(size_a: u32, ch_a: char, size_b: u32, ch_b: char)
    requires
        spec_key(size_a, ch_a) == spec_key(size_b, ch_b),
    ensures
        size_a == size_b,
        ch_a == ch_b,
{
    let a = ch_a as u32;
    let b = ch_b as u32;
    assert(size_a as u64 * 0x1_0000_0000 + a <= u64::MAX) by (nonlinear_arith)
        requires
            size_a <= 0xffff_ffff,
            a <= 0xffff_ffff,
    ;
    assert(size_b as u64 * 0x1_0000_0000 + b <= u64::MAX) by (nonlinear_arith)
        requires
            size_b <= 0xffff_ffff,
            b <= 0xffff_ffff,
    ;
    assert(size_a == size_b && a == b) by (nonlinear_arith)
        requires
            size_a * 0x1_0000_0000 + a == size_b * 0x1_0000_0000 + b,
            0 <= a < 0x1_0000_0000,
            0 <= b < 0x1_0000_0000,
    ;
}

/// The margin of a glyph image is transparent: painting touches no pixel
/// of the first or last row or column.
pub proof fn lemma_margin_is_transparent(glyph: RasterizedGlyphView, x: int, y: int)
    requires
        glyph.well_formed(),
        0 <= x < glyph.width + 2,
        0 <= y < glyph.height + 2,
        x == 0 || y == 0 || x == glyph.width + 1 || y == glyph.height + 1,
    ensures
        spec_glyph_alpha(glyph.width, glyph.height, glyph.coverage)[x + y * (glyph.width + 2)]
            == 0u8,
        spec_glyph_alpha(glyph.width, glyph.height, glyph.coverage).len() == (glyph.width + 2) * (
        glyph.height + 2),
{
    let stride = glyph.width + 2;
    let rows = glyph.height + 2;
    let blank = Seq::new((stride * rows) as nat, |i: int| 0u8);
    assert(0 <= x + y * stride < stride * rows) by (nonlinear_arith)
        requires
            0 <= x < stride,
            0 <= y < rows,
    ;
    assert(stride * rows >= 0) by (nonlinear_arith)
        requires
            stride >= 0,
            rows >= 0,
    ;
    lemma_paint_margin(blank, glyph, glyph.coverage.len() as int, x, y);
    assert(glyph.coverage.take(glyph.coverage.len() as int) =~= glyph.coverage);
}

proof fn lemma_paint_margin(blank: Seq<u8>, glyph: RasterizedGlyphView, n: int, x: int, y: int)
    requires
        glyph.well_formed(),
        0 <= n <= glyph.coverage.len(),
        blank.len() == (glyph.width + 2) * (glyph.height + 2),
        0 <= x < glyph.width + 2,
        0 <= y < glyph.height + 2,
        x == 0 || y == 0 || x == glyph.width + 1 || y == glyph.height + 1,
    ensures
        spec_paint(blank, glyph.width + 2, glyph.coverage.take(n)).len() == blank.len(),
        0 <= x + y * (glyph.width + 2) < blank.len(),
        spec_paint(blank, glyph.width + 2, glyph.coverage.take(n))[x + y * (glyph.width + 2)]
            == blank[x + y * (glyph.width + 2)],
    decreases n,
{
    let stride = glyph.width + 2;
    let rows = glyph.height + 2;
    assert(0 <= x + y * stride < stride * rows) by (nonlinear_arith)
        requires
            0 <= x < stride,
            0 <= y < rows,
    ;
    if n > 0 {
        lemma_paint_margin(blank, glyph, n - 1, x, y);
        let done = glyph.coverage.take(n);
        assert(done.drop_last() =~= glyph.coverage.take(n - 1));
        let sample = done.last();
        assert(sample == glyph.coverage[n - 1]);
        let pos = (sample.x + 1) + (sample.y + 1) * stride;
        let painted = spec_paint(blank, stride, done.drop_last());
        assert(spec_paint(blank, stride, done) == painted.update(pos, sample.alpha));
        assert(0 <= pos < stride * rows) by (nonlinear_arith)
            requires
                pos == (sample.x + 1) + (sample.y + 1) * stride,
                0 <= sample.x + 1 < stride,
                0 <= sample.y + 1 < rows,
        ;
        assert(pos != x + y * stride) by (nonlinear_arith)
            requires
                pos == (sample.x + 1) + (sample.y + 1) * stride,
                0 < sample.x + 1 < stride - 1,
                0 < sample.y + 1 < rows - 1,
                0 <= x < stride,
                0 <= y < rows,
                x == 0 || y == 0 || x == stride - 1 || y == rows - 1,
        ;
    }
}

impl View for GlyphCache {
    type V = Map<(u32, char), CharacterView>;

    closed spec fn view(&self) -> Map<(u32, char), CharacterView> {
        Map::new(
            |k: (u32, char)| self.data@.contains_key(spec_key(k.0, k.1)),
            |k: (u32, char)| self.data@[spec_key(k.0, k.1)]@,
        )
    }
}

impl GlyphCache {
    /// Constructor for a GlyphCache from the bytes of a font file.
    pub fn new(font_data: Vec<u8>) -> (res: Result<GlyphCache, Error>)
        ensures
            res is Ok == spec_font_parses(font_data@),
            res matches Ok(cache) ==> cache@ == Map::<(u32, char), CharacterView>::empty(),
            res matches Err(e) ==> e is NoFont,
    {
        GlyphCache::from_font(parse_font(font_data))
    }

    /// The font whose characters the cache holds: the one it was made for.
    pub closed spec fn spec_font(&self) -> Font<'static> {
        self.font
    }

    /// An empty cache for the font, or the error that there is none.
    pub fn from_font(font: Option<Font<'static>>) -> (res: Result<GlyphCache, Error>)
        ensures
            res is Ok == font is Some,
            res matches Ok(cache) ==> cache@ == Map::<(u32, char), CharacterView>::empty(),
            res matches Ok(cache) ==> Some(cache.spec_font()) == font,
            res matches Err(e) ==> e is NoFont,
    {
        match font {
            Some(font) => {
                let cache = GlyphCache { font, data: HashMap::new() };
                assert(cache@ =~= Map::<(u32, char), CharacterView>::empty());
                Ok(cache)
            },
            None => Err(Error::NoFont),
        }
    }

    /// The font whose characters are cached: the font that the cache was
    /// made for, whatever was cached since.
    pub fn font(&self) -> (res: &Font<'static>)
        ensures
            *res == self.spec_font(),
    {
        &self.font
    }

    fn key(size: u32, ch: char) -> (res: u64)
        ensures
            res == spec_key(size, ch),
    {
        assert(size as u64 * 0x1_0000_0000 + ch as u32 <= u64::MAX) by (nonlinear_arith)
            requires
                size <= 0xffff_ffff,
                ch as u32 <= 0xffff_ffff,
        ;
        (size as u64) * 0x1_0000_0000 + (ch as u32) as u64
    }

    /// Whether the character is cached at the pixel size.
    pub fn contains(&self, size: u32, ch: char) -> (res: bool)
        ensures
            res == self@.contains_key((size, ch)),
    {
        broadcast use vstd::std_specs::hash::group_hash_axioms;

        let key = GlyphCache::key(size, ch);
        self.data.contains_key(&key)
    }

    /// The cached character, if there is one. Looking never renders and
    /// never changes the cache.
    pub fn get(&self, size: u32, ch: char) -> (res: Option<&Character>)
        ensures
            res is Some == self@.contains_key((size, ch)),
            res matches Some(character) ==> character@ == self@[(size, ch)],
    {
        broadcast use vstd::std_specs::hash::group_hash_axioms;

        let key = GlyphCache::key(size, ch);
        self.data.get(&key)
    }

    /// Makes sure that the character is cached at the pixel size. A cached
    /// character stays as it is; a missing one is rendered from the glyph
    /// that the font engine reported for it.
    pub fn character(&mut self, size: u32, ch: char, glyph: &RasterizedGlyph)
        requires
            glyph@.well_formed(),
        ensures
            final(self)@ == spec_character(old(self)@, size, ch, glyph@),
            final(self)@.contains_key((size, ch)),
            final(self).spec_font() == old(self).spec_font(),
    {
        broadcast use vstd::std_specs::hash::group_hash_axioms;

        let key = GlyphCache::key(size, ch);
        if !self.data.contains_key(&key) {
            let character = glyph.render();
            self.data.insert(key, character);
            proof {
                let expected = old(self)@.insert((size, ch), spec_render(glyph@));
                assert forall|k: (u32, char)| #[trigger]
                    self@.contains_key(k) == expected.contains_key(k) && (self@.contains_key(k)
                        ==> self@[k] == expected[k]) by {
                    if spec_key(k.0, k.1) == key {
                        lemma_key_injective(k.0, k.1, size, ch);
                    }
                }
                assert(self@ =~= expected);
            }
        }
    }
}

/// Glyph cache determinism. Asking for a character a second time changes
/// nothing, whatever glyph comes with the second request: the entry of the
/// first request stays, with its offset, its advance and its texture.
pub proof fn lemma_character_is_rendered_once(
    cache: Map<(u32, char), CharacterView>,
    size: u32,
    ch: char,
    first: RasterizedGlyphView,
    second: RasterizedGlyphView,
)
    ensures
        spec_character(spec_character(cache, size, ch, first), size, ch, second) == spec_character(
            cache,
            size,
            ch,
            first,
        ),
        spec_character(cache, size, ch, first).contains_key((size, ch)),
        !cache.contains_key((size, ch)) ==> spec_character(cache, size, ch, first)[(size, ch)]
            == spec_render(first),
        cache.contains_key((size, ch)) ==> spec_character(cache, size, ch, first)[(size, ch)]
            == cache[(size, ch)],
{
}

/// The cache never evicts and never touches another entry: what was cached
/// before a request is cached after it, unchanged.
pub proof fn lemma_character_keeps_entries(
    cache: Map<(u32, char), CharacterView>,
    size: u32,
    ch: char,
    glyph: RasterizedGlyphView,
    other_size: u32,
    other_ch: char,
)
    requires
        cache.contains_key((other_size, other_ch)),
    ensures
        spec_character(cache, size, ch, glyph).contains_key((other_size, other_ch)),
        spec_character(cache, size, ch, glyph)[(other_size, other_ch)] == cache[(
            other_size,
            other_ch,
        )],
{
}

} // verus!
