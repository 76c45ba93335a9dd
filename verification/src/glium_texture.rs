//! The texture resource: a 2D RGBA8 image with one wrap function per axis.
//!
//! A texture keeps its pixels the way the GPU wants them: rows from the
//! bottom up. Images come in from the top down, so creation and update
//! reverse the rows on the way in.

use vstd::prelude::*;
use vstd::arithmetic::div_mod::{
    lemma_fundamental_div_mod, lemma_fundamental_div_mod_converse,
};
use crate::draw_parameters::{Rect, SamplerWrapFunction};

verus! {

/// Flip settings.
#[derive(Clone, Copy, PartialEq, Eq, Debug, Structural)]
pub enum Flip {
    /// Does not flip.
    Nothing,
    /// Flips image vertically.
    Vertical,
}

/// How a texture asks to be sampled outside of the unit square.
#[derive(Clone, Copy, PartialEq, Eq, Debug, Structural)]
pub enum Wrap {
    /// Repeats the texture.
    Repeat,
    /// Repeats the texture, mirrored on every odd repetition.
    MirroredRepeat,
    /// Clamps the coordinate to the edge of the texture.
    ClampToEdge,
    /// Gives coordinates outside of the texture the border color.
    ClampToBorder,
}

/// What a texture is created with.
#[derive(Clone, Copy, PartialEq, Eq, Debug, Structural)]
pub struct TextureSettings {
    pub wrap_u: Wrap,
    pub wrap_v: Wrap,
}

/// Why a texture could not be made of raw memory.
#[derive(Clone, Copy, PartialEq, Eq, Debug, Structural)]
pub enum TexError {
    /// The number of channels per pixel is neither one nor four.
    Channels(usize),
}

/// A decoded RGBA8 image, rows from the top down.
#[derive(Clone, Debug)]
pub struct RgbaImage {
    pub width: u32,
    pub height: u32,
    pub pixels: Vec<u8>,
}

/// Wrapper for 2D texture.
#[derive(Clone, Debug)]
pub struct Texture {
    width: u32,
    height: u32,
    pixels: Vec<u8>,
    wrap_u: SamplerWrapFunction,
    wrap_v: SamplerWrapFunction,
}

/// A texture as a value: its size, its pixels from the bottom row up, four
/// bytes per pixel, and its wrap functions.
pub struct TextureView {
    pub width: nat,
    pub height: nat,
    pub pixels: Seq<u8>,
    pub wrap_u: SamplerWrapFunction,
    pub wrap_v: SamplerWrapFunction,
}

/// The image with `rows` rows of `stride` bytes each, in reverse row order.
pub open spec fn spec_reverse_rows(data: Seq<u8>, stride: nat, rows: nat) -> Seq<u8> {
    Seq::new(
        stride * rows,
        |i: int| data[(rows - 1 - i / (stride as int)) * stride + i % (stride as int)],
    )
}

/// The RGBA8 image of a single-channel alpha image: every pixel is white
/// with the given alpha.
pub open spec fn spec_alpha_to_rgba8(alpha: Seq<u8>, pixels: nat) -> Seq<u8> {
    Seq::new(
        4 * pixels,
        |i: int|
            if i % 4 == 3 {
                alpha[i / 4]
            } else {
                255u8
            },
    )
}

/// The image `dst` of row length `dst_stride` after `rows` rows of `src`,
/// each `src_stride` bytes long, were written into it with their first byte
/// at column `x0` of row `y0`.
pub open spec fn spec_write_rows(
    dst: Seq<u8>,
    dst_stride: int,
    x0: int,
    y0: int,
    src: Seq<u8>,
    src_stride: int,
    rows: int,
) -> Seq<u8> {
    Seq::new(
        dst.len(),
        |i: int|
            {
                let row = i / dst_stride;
                let col = i % dst_stride;
                if y0 <= row < y0 + rows && x0 <= col < x0 + src_stride {
                    src[(row - y0) * src_stride + (col - x0)]
                } else {
                    dst[i]
                }
            },
    )
}

/// The sampler wrap function of a wrap mode.
pub open spec fn spec_convert_wrap(wrap: Wrap) -> SamplerWrapFunction {
    match wrap {
        Wrap::ClampToEdge => SamplerWrapFunction::Clamp,
        Wrap::Repeat => SamplerWrapFunction::Repeat,
        Wrap::MirroredRepeat => SamplerWrapFunction::Mirror,
        Wrap::ClampToBorder => SamplerWrapFunction::BorderClamp,
    }
}

/// The texture created from a top-down RGBA8 image of the given size.
pub open spec fn spec_create(memory: Seq<u8>, width: u32, height: u32, settings: TextureSettings)
    -> TextureView {
    TextureView {
        width: width as nat,
        height: height as nat,
        pixels: spec_reverse_rows(memory, 4 * width as nat, height as nat),
        wrap_u: spec_convert_wrap(settings.wrap_u),
        wrap_v: spec_convert_wrap(settings.wrap_v),
    }
}

/// The placeholder texture: one black pixel, opaque or transparent.
pub open spec fn spec_empty(opaque: bool) -> TextureView {
    TextureView {
        width: 1,
        height: 1,
        pixels: seq![0u8, 0u8, 0u8, if opaque { 255u8 } else { 0u8 }],
        wrap_u: SamplerWrapFunction::Clamp,
        wrap_v: SamplerWrapFunction::Clamp,
    }
}

/// The texture of a single-channel alpha image. An image without pixels
/// gives the transparent placeholder.
pub open spec fn spec_from_memory_alpha(
    buffer: Seq<u8>,
    width: u32,
    height: u32,
    settings: TextureSettings,
) -> TextureView {
    if width == 0 || height == 0 {
        spec_empty(false)
    } else {
        spec_create(spec_alpha_to_rgba8(buffer, (width * height) as nat), width, height, settings)
    }
}

/// The texture of raw memory with rows of `width` pixels and one channel
/// (alpha) or four channels (red, green, blue, alpha) per pixel. The height
/// is what the memory holds. No other number of channels gives a texture.
pub open spec fn spec_from_memory(memory: Seq<u8>, width: u32, channels: usize) -> Result<
    TextureView,
    TexError,
> {
    if channels == 1 {
        Ok(
            spec_create(
                spec_alpha_to_rgba8(memory, memory.len()),
                width,
                (memory.len() / width as nat) as u32,
                TextureSettings::spec_new(),
            ),
        )
    } else if channels == 4 {
        Ok(
            spec_create(
                memory,
                width,
                (memory.len() / (4 * width) as nat) as u32,
                TextureSettings::spec_new(),
            ),
        )
    } else {
        Err(TexError::Channels(channels))
    }
}

/// Raw memory holds whole rows of `width` pixels of `channels` channels
/// and no more rows than a texture can have, the bytes of one row of the
/// texture can be counted, and a single channel leaves room for its
/// expansion to four.
pub open spec fn spec_rectangular(memory: Seq<u8>, width: u32, channels: usize) -> bool {
    &&& width > 0
    &&& 4 * width <= usize::MAX
    &&& memory.len() % (channels * width) as nat == 0
    &&& memory.len() / (channels * width) as nat <= u32::MAX
    &&& channels == 1 ==> 4 * memory.len() <= isize::MAX
}

/// The rectangle of a texture of height `texture_height` that an update at
/// `offset` of size `size`, both given from the top-left corner, covers.
pub open spec fn spec_update_rect(texture_height: nat, offset: (u32, u32), size: (u32, u32))
    -> Rect {
    Rect {
        left: offset.0,
        bottom: (texture_height - offset.1 - size.1) as u32,
        width: size.0,
        height: size.1,
    }
}

/// The texture after the top-down image `memory` of size `size` was written
/// at `offset`. Size and wrap functions stay; the pixels of the rectangle are
/// those of the image, all others are untouched.
pub open spec fn spec_update(texture: TextureView, memory: Seq<u8>, offset: (u32, u32), size: (
    u32,
    u32,
)) -> TextureView {
    TextureView {
        pixels: spec_write_rows(
            texture.pixels,
            (4 * texture.width) as int,
            4 * offset.0 as int,
            texture.height - offset.1 - size.1,
            spec_reverse_rows(memory, 4 * size.0 as nat, size.1 as nat),
            4 * size.0 as int,
            size.1 as int,
        ),
        ..texture
    }
}

/// Calls `texture::ops::alpha_to_rgba8`, which walks the image row by row
/// and pushes `255, 255, 255, alpha` for each pixel. It indexes the buffer at
/// every pixel, so the buffer has to hold one byte for each, and it reserves
/// the whole result at once, which must not be more than a vector can hold.
#[verifier::external_body]
fn alpha_to_rgba8(memory: &[u8], width: u32, height: u32) -> (res: Vec<u8>)
    requires
        4 * width * height <= isize::MAX,
        width * height <= memory@.len(),
    ensures
        res@ == spec_alpha_to_rgba8(memory@, (width * height) as nat),
{
    texture::ops::alpha_to_rgba8(memory, [width, height])
}

/// Calls `glium::texture::RawImage2d::from_raw_rgba_reversed` and takes the
/// bytes of the image it builds: the rows of the input, each `4 * width`
/// bytes long, last row first. The outside function computes the row length
/// in `usize` and cuts the input into chunks of it, so the row length must
/// fit and must not be zero.
#[verifier::external_body]
fn raw_rgba_reversed(memory: &[u8], width: u32, height: u32) -> (res: Vec<u8>)
    requires
        width > 0,
        4 * width <= usize::MAX,
        memory@.len() == 4 * width * height,
    ensures
        res@ == spec_reverse_rows(memory@, 4 * width as nat, height as nat),
{
    glium::texture::RawImage2d::from_raw_rgba_reversed(memory, (width, height)).data.into_owned()
}

/// Calls `image::imageops::flip_vertical` on the image built by
/// `image::RgbaImage::from_raw`, and takes the bytes of the result: pixel
/// `(x, y)` of the input is pixel `(x, height - 1 - y)` of the output. Both
/// outside functions compute the length of a row and of the image in
/// `usize` and give up where one does not fit.
#[verifier::external_body]
fn flip_vertical(pixels: &Vec<u8>, width: u32, height: u32) -> (res: Vec<u8>)
    requires
        4 * width <= usize::MAX,
        pixels@.len() == 4 * width * height,
    ensures
        res@ == spec_reverse_rows(pixels@, 4 * width as nat, height as nat),
{
    let img = image::RgbaImage::from_raw(width, height, pixels.clone()).unwrap();
    image::imageops::flip_vertical(&img).into_raw()
}

/// Byte `c` of row `q` is at index `q * stride + c`, and nowhere else.
proof fn lemma_row_col(q: int, c: int, stride: int)
    requires
        stride > 0,
        0 <= c < stride,
    ensures
        (q * stride + c) / stride == q,
        (q * stride + c) % stride == c,
{
    lemma_fundamental_div_mod_converse(q * stride + c, stride, q, c);
}

/// Reversing the rows twice gives the image back.
pub proof fn lemma_reverse_rows_involutive(data: Seq<u8>, stride: nat, rows: nat)
    requires
        data.len() == stride * rows,
    ensures
        spec_reverse_rows(spec_reverse_rows(data, stride, rows), stride, rows) == data,
{
    let once = spec_reverse_rows(data, stride, rows);
    let twice = spec_reverse_rows(once, stride, rows);
    assert(twice.len() == data.len());
    assert forall|i: int| 0 <= i < data.len() implies twice[i] == data[i] by {
        let s = stride as int;
        assert(s > 0) by {
            if s == 0 {
                assert(stride * rows == 0) by (nonlinear_arith)
                    requires
                        stride == 0,
                ;
            }
        }
        let row = i / s;
        let col = i % s;
        lemma_fundamental_div_mod(i, s);
        assert(0 <= row < rows) by (nonlinear_arith)
            requires
                0 <= i < s * rows,
                s > 0,
                row == i / s,
        ;
        let j = (rows - 1 - row) * s + col;
        lemma_row_col(rows - 1 - row, col, s);
        assert(0 <= j < s * rows) by (nonlinear_arith)
            requires
                0 <= row < rows,
                0 <= col < s,
                j == (rows - 1 - row) * s + col,
        ;
        assert(once[j] == data[(rows - 1 - (rows - 1 - row)) * s + col]);
        assert(i == s * row + col);
        assert((rows - 1 - (rows - 1 - row)) * s + col == i) by (nonlinear_arith)
            requires
                i == s * row + col,
        ;
    }
    assert(twice =~= data);
}

impl TextureSettings {
    pub open spec fn spec_new() -> TextureSettings {
        TextureSettings { wrap_u: Wrap::ClampToEdge, wrap_v: Wrap::ClampToEdge }
    }

    /// Settings that clamp both axes to the edge.
    #[verifier::when_used_as_spec(spec_new)]
    pub fn new() -> (s: TextureSettings)
        ensures
            s == TextureSettings::spec_new(),
    {
        TextureSettings { wrap_u: Wrap::ClampToEdge, wrap_v: Wrap::ClampToEdge }
    }

    /// The same settings with the given wrap mode of the u axis.
    pub fn wrap_u(self, wrap: Wrap) -> (s: TextureSettings)
        ensures
            s == (TextureSettings { wrap_u: wrap, ..self }),
    {
        TextureSettings { wrap_u: wrap, wrap_v: self.wrap_v }
    }

    /// The same settings with the given wrap mode of the v axis.
    pub fn wrap_v(self, wrap: Wrap) -> (s: TextureSettings)
        ensures
            s == (TextureSettings { wrap_v: wrap, ..self }),
    {
        TextureSettings { wrap_u: self.wrap_u, wrap_v: wrap }
    }
}

impl RgbaImage {
    /// The image holds four bytes for each of its pixels.
    pub open spec fn well_formed(&self) -> bool {
        self.pixels@.len() == 4 * self.width * self.height
    }

    /// The image, flipped as asked.
    pub open spec fn spec_flip(&self, flip: Flip) -> Seq<u8> {
        match flip {
            Flip::Nothing => self.pixels@,
            Flip::Vertical => spec_reverse_rows(
                self.pixels@,
                4 * self.width as nat,
                self.height as nat,
            ),
        }
    }

    /// Flips the image vertically if asked to.
    pub fn flip(self, flip: Flip) -> (res: RgbaImage)
        requires
            self.well_formed(),
            flip == Flip::Vertical ==> 4 * self.width <= usize::MAX,
        ensures
            res.width == self.width,
            res.height == self.height,
            res.pixels@ == self.spec_flip(flip),
            res.well_formed(),
    {
        match flip {
            Flip::Nothing => self,
            Flip::Vertical => {
                let pixels = flip_vertical(&self.pixels, self.width, self.height);
                assert(4 * self.width as nat * self.height as nat == 4 * self.width * self.height)
                    by (nonlinear_arith);
                RgbaImage { width: self.width, height: self.height, pixels }
            },
        }
    }
}

impl View for Texture {
    type V = TextureView;

    closed spec fn view(&self) -> TextureView {
        TextureView {
            width: self.width as nat,
            height: self.height as nat,
            pixels: self.pixels@,
            wrap_u: self.wrap_u,
            wrap_v: self.wrap_v,
        }
    }
}

impl TextureView {
    /// The texture has at least one column and four bytes for each pixel.
    pub open spec fn well_formed(self) -> bool {
        &&& 0 < self.width <= u32::MAX
        &&& self.height <= u32::MAX
        &&& self.pixels.len() == 4 * self.width * self.height
    }
}

pub fn convert_wrap(wrap: Wrap) -> (res: SamplerWrapFunction)
    ensures
        res == spec_convert_wrap(wrap),
{
    match wrap {
        Wrap::ClampToEdge => SamplerWrapFunction::Clamp,
        Wrap::Repeat => SamplerWrapFunction::Repeat,
        Wrap::MirroredRepeat => SamplerWrapFunction::Mirror,
        Wrap::ClampToBorder => SamplerWrapFunction::BorderClamp,
    }
}

impl Texture {
    /// Creates a new `Texture` from pixels that are already in bottom-up
    /// order. Both axes clamp.
    pub fn new(pixels: Vec<u8>, width: u32, height: u32) -> (res: Texture)
        requires
            width > 0,
            pixels@.len() == 4 * width * height,
        ensures
            res@ == (TextureView {
                width: width as nat,
                height: height as nat,
                pixels: pixels@,
                wrap_u: SamplerWrapFunction::Clamp,
                wrap_v: SamplerWrapFunction::Clamp,
            }),
            res@.well_formed(),
    {
        Texture {
            width,
            height,
            pixels,
            wrap_u: SamplerWrapFunction::Clamp,
            wrap_v: SamplerWrapFunction::Clamp,
        }
    }

    /// Returns empty texture: one black pixel, opaque or transparent.
    pub fn empty(opaque: bool) -> (res: Texture)
        ensures
            res@ == spec_empty(opaque),
            res@.well_formed(),
    {
        let alpha: u8 = if opaque { 255 } else { 0 };
        let mut pixels: Vec<u8> = Vec::new();
        pixels.push(0);
        pixels.push(0);
        pixels.push(0);
        pixels.push(alpha);
        assert(pixels@ =~= spec_empty(opaque).pixels);
        Texture {
            width: 1,
            height: 1,
            pixels,
            wrap_u: SamplerWrapFunction::Clamp,
            wrap_v: SamplerWrapFunction::Clamp,
        }
    }

    /// Creates a texture from a decoded image, flipped first if asked to.
    pub fn from_decoded(img: RgbaImage, flip: Flip, settings: &TextureSettings) -> (res: Texture)
        requires
            img.well_formed(),
            img.width > 0,
            4 * img.width <= usize::MAX,
        ensures
            res@ == spec_create(img.spec_flip(flip), img.width, img.height, *settings),
            res@.well_formed(),
    {
        let img = img.flip(flip);
        Texture::from_image(&img, settings)
    }

    /// Creates a texture from image.
    pub fn from_image(img: &RgbaImage, settings: &TextureSettings) -> (res: Texture)
        requires
            img.well_formed(),
            img.width > 0,
            4 * img.width <= usize::MAX,
        ensures
            res@ == spec_create(img.pixels@, img.width, img.height, *settings),
            res@.well_formed(),
    {
        Texture::create(img.pixels.as_slice(), (img.width, img.height), settings)
    }

    /// Creates texture from memory alpha.
    pub fn from_memory_alpha(buffer: &[u8], width: u32, height: u32, settings: &TextureSettings)
        -> (res: Texture)
        requires
            width * height <= buffer@.len(),
            4 * width * height <= isize::MAX,
        ensures
            res@ == spec_from_memory_alpha(buffer@, width, height, *settings),
            res@.well_formed(),
    {
        if width == 0 || height == 0 {
            return Texture::empty(false);
        }
        let rgba = alpha_to_rgba8(buffer, width, height);
        assert(4 * ((width * height) as nat) == 4 * width * height) by (nonlinear_arith);
        assert(4 * width <= 4 * width * height) by (nonlinear_arith)
            requires
                height >= 1,
                width >= 0,
        ;
        Texture::create(rgba.as_slice(), (width, height), settings)
    }

    /// Creates a texture from raw memory of one or four channels per pixel.
    pub fn from_memory(memory: &[u8], width: u32, channels: usize) -> (res: Result<
        Texture,
        TexError,
    >)
        requires
            channels == 1 || channels == 4 ==> spec_rectangular(memory@, width, channels),
        ensures
            match res {
                Ok(texture) => spec_from_memory(memory@, width, channels) == Ok::<
                    TextureView,
                    TexError,
                >(texture@) && texture@.well_formed(),
                Err(e) => spec_from_memory(memory@, width, channels) == Err::<
                    TextureView,
                    TexError,
                >(e),
            },
    {
        if channels == 1 {
            let height = memory.len() / (width as usize);
            proof {
                let len = memory@.len() as int;
                assert(channels * width == width) by (nonlinear_arith)
                    requires
                        channels == 1,
                ;
                lemma_fundamental_div_mod(len, width as int);
                assert(width * height == len) by (nonlinear_arith)
                    requires
                        len == width * (len / width as int) + len % (width as int),
                        len % (width as int) == 0,
                        height == len / width as int,
                ;
                assert(4 * width * height == 4 * len) by (nonlinear_arith)
                    requires
                        width * height == len,
                ;
            }
            let rgba = alpha_to_rgba8(memory, width, height as u32);
            proof {
                assert(4 * ((width * height) as nat) == 4 * width * height) by (nonlinear_arith);
            }
            Ok(Texture::create(rgba.as_slice(), (width, height as u32), &TextureSettings::new()))
        } else if channels == 4 {
            let ghost len = memory@.len() as int;
            let ghost row = 4 * width as int;
            proof {
                assert(channels * width == row) by (nonlinear_arith)
                    requires
                        channels == 4,
                        row == 4 * width,
                ;
                lemma_fundamental_div_mod(len, row);
                assert(len > 0 ==> len >= row) by (nonlinear_arith)
                    requires
                        len == row * (len / row) + len % row,
                        len % row == 0,
                        row > 0,
                ;
            }
            let height = if memory.len() == 0 {
                0
            } else {
                memory.len() / (4 * (width as usize))
            };
            proof {
                assert(4 * width * height == len) by (nonlinear_arith)
                    requires
                        len == row * (len / row) + len % row,
                        len % row == 0,
                        row == 4 * width,
                        height == len / row,
                ;
            }
            Ok(Texture::create(memory, (width, height as u32), &TextureSettings::new()))
        } else {
            Err(TexError::Channels(channels))
        }
    }

    /// Creates a texture from a top-down RGBA8 image in memory.
    pub fn create(memory: &[u8], size: (u32, u32), settings: &TextureSettings) -> (res: Texture)
        requires
            size.0 > 0,
            4 * size.0 <= usize::MAX,
            memory@.len() == 4 * size.0 * size.1,
        ensures
            res@ == spec_create(memory@, size.0, size.1, *settings),
            res@.well_formed(),
    {
        let wrap_u = convert_wrap(settings.wrap_u);
        let wrap_v = convert_wrap(settings.wrap_v);
        let pixels = raw_rgba_reversed(memory, size.0, size.1);
        assert(4 * size.0 as nat * size.1 as nat == 4 * size.0 * size.1) by (nonlinear_arith);
        Texture { width: size.0, height: size.1, pixels, wrap_u, wrap_v }
    }

    /// Whether the texture has at least one column and four bytes for each
    /// pixel. Every texture that this library made has.
    pub fn is_well_formed(&self) -> (res: bool)
        ensures
            res == self@.well_formed(),
    {
        if self.width == 0 {
            return false;
        }
        assert(self.width * self.height <= 0xffff_ffff * 0xffff_ffff) by (nonlinear_arith)
            requires
                self.width <= 0xffff_ffff,
                self.height <= 0xffff_ffff,
        ;
        let area: u64 = (self.width as u64) * (self.height as u64);
        assert(4 * self.width * self.height == 4 * area) by (nonlinear_arith)
            requires
                area == self.width * self.height,
        ;
        (self.pixels.len() as u128) == 4 * (area as u128)
    }

    /// Gets the size of the texture.
    pub fn get_size(&self) -> (res: (u32, u32))
        ensures
            res.0 == self@.width,
            res.1 == self@.height,
    {
        (self.width, self.height)
    }

    /// The wrap functions of the u and of the v axis.
    pub fn get_wrap(&self) -> (res: (SamplerWrapFunction, SamplerWrapFunction))
        ensures
            res.0 == self@.wrap_u,
            res.1 == self@.wrap_v,
    {
        (self.wrap_u, self.wrap_v)
    }

    /// The pixels, rows from the bottom up.
    pub fn get_pixels(&self) -> (res: &Vec<u8>)
        ensures
            res@ == self@.pixels,
    {
        &self.pixels
    }

    /// Updates texture with an image, placed at the top-left corner. Returns
    /// the rectangle that changed.
    pub fn update(&mut self, img: &RgbaImage) -> (rect: Rect)
        requires
            old(self)@.well_formed(),
            img.well_formed(),
            0 < img.width <= old(self)@.width,
            4 * img.width <= usize::MAX,
            img.height <= old(self)@.height,
        ensures
            final(self)@ == spec_update(
                old(self)@,
                img.pixels@,
                (0u32, 0u32),
                (img.width, img.height),
            ),
            final(self)@.well_formed(),
            rect == spec_update_rect(old(self)@.height, (0u32, 0u32), (img.width, img.height)),
    {
        self.update_region(img.pixels.as_slice(), (0, 0), (img.width, img.height))
    }

    /// Writes a top-down image of size `size` into the texture, with its
    /// top-left corner at `offset` from the top-left corner of the texture.
    /// The region has to lie inside the texture. Returns the rectangle that
    /// changed.
    pub fn update_region(&mut self, memory: &[u8], offset: (u32, u32), size: (u32, u32)) -> (rect:
        Rect)
        requires
            old(self)@.well_formed(),
            size.0 > 0,
            4 * size.0 <= usize::MAX,
            memory@.len() == 4 * size.0 * size.1,
            offset.0 + size.0 <= old(self)@.width,
            offset.1 + size.1 <= old(self)@.height,
        ensures
            final(self)@ == spec_update(old(self)@, memory@, offset, size),
            final(self)@.well_formed(),
            rect == spec_update_rect(old(self)@.height, offset, size),
    {
        let src = raw_rgba_reversed(memory, size.0, size.1);
        let bottom: u32 = self.height - offset.1 - size.1;
        let ghost before = self.pixels@;
        let ghost dst_stride: int = 4 * self.width;
        let ghost src_stride: int = 4 * size.0;
        let ghost x0: int = 4 * offset.0;
        let ghost y0: int = bottom as int;
        let total: usize = self.pixels.len();
        let src_total: usize = src.len();
        proof {
            assert(src@.len() == src_stride * size.1) by (nonlinear_arith)
                requires
                    src@.len() == (4 * size.0 as nat) * (size.1 as nat),
                    src_stride == 4 * size.0,
            ;
            assert(before.len() == dst_stride * self.height) by (nonlinear_arith)
                requires
                    before.len() == 4 * self.width * self.height,
                    dst_stride == 4 * self.width,
            ;
            assert(before =~= spec_write_rows(before, dst_stride, x0, y0, src@, src_stride, 0));
        }
        let mut r: u32 = 0;
        while r < size.1
            invariant
                0 <= r <= size.1,
                dst_stride == 4 * self.width,
                src_stride == 4 * size.0,
                x0 == 4 * offset.0,
                y0 == bottom,
                y0 + size.1 <= self.height,
                x0 + src_stride <= dst_stride,
                src_stride > 0,
                self.width == old(self).width,
                self.height == old(self).height,
                self.wrap_u == old(self).wrap_u,
                self.wrap_v == old(self).wrap_v,
                before == old(self).pixels@,
                before.len() == dst_stride * self.height,
                before.len() == total,
                src@.len() == src_stride * size.1,
                src@.len() == src_total,
                self.pixels@ == spec_write_rows(
                    before,
                    dst_stride,
                    x0,
                    y0,
                    src@,
                    src_stride,
                    r as int,
                ),
            decreases size.1 - r,
        {
            let ghost row: int = y0 + r;
            proof {
                assert(0 <= row * dst_stride && row * dst_stride + dst_stride <= before.len())
                    by (nonlinear_arith)
                    requires
                        0 <= row < self.height,
                        dst_stride >= 0,
                        before.len() == dst_stride * self.height,
                ;
                assert(0 <= r * src_stride && r * src_stride + src_stride <= src@.len())
                    by (nonlinear_arith)
                    requires
                        0 <= r < size.1,
                        src_stride >= 0,
                        src@.len() == src_stride * size.1,
                ;
            }
            let row_len: usize = 4 * (size.0 as usize);
            let dst_start: usize = ((bottom + r) as usize) * (4 * (self.width as usize)) + 4 * (
            offset.0 as usize);
            let src_start: usize = (r as usize) * row_len;
            let ghost rows_before = self.pixels@;
            let mut c: usize = 0;
            while c < row_len
                invariant
                    0 <= c <= row_len,
                    dst_start + row_len <= before.len(),
                    src_start + row_len <= src@.len(),
                    before.len() == total,
                    src@.len() == src_total,
                    self.pixels@.len() == before.len(),
                    rows_before.len() == before.len(),
                    self.width == old(self).width,
                    self.height == old(self).height,
                    self.wrap_u == old(self).wrap_u,
                    self.wrap_v == old(self).wrap_v,
                    forall|i: int|
                        0 <= i < before.len() ==> self.pixels@[i] == if dst_start <= i < dst_start
                            + c {
                            src@[src_start + (i - dst_start)]
                        } else {
                            rows_before[i]
                        },
                decreases row_len - c,
            {
                let byte: u8 = src[src_start + c];
                self.pixels.set(dst_start + c, byte);
                c = c + 1;
            }
            proof {
                let next = spec_write_rows(before, dst_stride, x0, y0, src@, src_stride, r + 1);
                assert forall|i: int| 0 <= i < before.len() implies self.pixels@[i] == next[i] by {
                    let q = i / dst_stride;
                    let m = i % dst_stride;
                    lemma_fundamental_div_mod(i, dst_stride);
                    if dst_start <= i < dst_start + row_len {
                        lemma_row_col(row, x0 + (i - dst_start), dst_stride);
                        assert(i == row * dst_stride + (x0 + (i - dst_start)));
                        assert(q == row && m == x0 + (i - dst_start));
                        assert((row - y0) * src_stride + (m - x0) == src_start + (i - dst_start));
                    } else {
                        assert(self.pixels@[i] == rows_before[i]);
                        if q == row && x0 <= m < x0 + src_stride {
                            assert(i == dst_stride * q + m);
                            assert(dst_stride * q == q * dst_stride) by (nonlinear_arith);
                            assert(false);
                        }
                    }
                }
                assert(self.pixels@ =~= next);
            }
            r = r + 1;
        }
        Rect { left: offset.0, bottom, width: size.0, height: size.1 }
    }
}

} // verus!
