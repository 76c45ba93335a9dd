use glium_graphics::draw_parameters::SamplerWrapFunction;
use glium_graphics::glium_texture::{Texture, TextureSettings};
use glium_graphics::glyph_cache::{
    substitute, Character, Coverage, Error, GlyphCache, RasterizedGlyph, Vec2d,
    REPLACEMENT_CHARACTER,
};

// A small TrueType font with the two glyphs of "A" and "B".
fn font_bytes() -> Vec<u8> {
    vec![
        0, 1, 0, 0, 0, 7, 0, 64, 0, 2, 0, 48, 99, 109, 97, 112,
        0, 9, 0, 118, 0, 0, 1, 0, 0, 0, 0, 44, 103, 108, 121, 102,
        241, 203, 102, 152, 0, 0, 1, 52, 0, 0, 0, 92, 104, 101, 97, 100,
        242, 53, 221, 248, 0, 0, 0, 124, 0, 0, 0, 54, 104, 104, 101, 97,
        6, 97, 0, 202, 0, 0, 0, 180, 0, 0, 0, 36, 104, 109, 116, 120,
        4, 116, 0, 106, 0, 0, 0, 248, 0, 0, 0, 8, 108, 111, 99, 97,
        0, 46, 0, 20, 0, 0, 1, 44, 0, 0, 0, 6, 109, 97, 120, 112,
        0, 5, 0, 11, 0, 0, 0, 216, 0, 0, 0, 32, 0, 1, 0, 0,
        0, 1, 0, 0, 245, 156, 41, 68, 95, 15, 60, 245, 0, 2, 3, 232,
        0, 0, 0, 0, 180, 146, 244, 0, 0, 0, 0, 0, 220, 47, 166, 92,
        0, 6, 0, 0, 2, 88, 2, 188, 0, 0, 0, 3, 0, 2, 0, 0,
        0, 0, 0, 0, 0, 1, 0, 0, 4, 0, 254, 112, 0, 0, 2, 88,
        0, 6, 255, 255, 2, 88, 0, 1, 0, 0, 0, 0, 0, 0, 0, 0,
        0, 0, 0, 0, 0, 0, 0, 2, 0, 1, 0, 0, 0, 2, 0, 11,
        0, 2, 0, 0, 0, 0, 0, 0, 0, 0, 0, 0, 0, 0, 0, 0,
        0, 0, 0, 0, 0, 0, 0, 0, 2, 88, 0, 100, 2, 28, 0, 6,
        0, 0, 0, 1, 0, 0, 0, 3, 0, 0, 0, 12, 0, 4, 0, 32,
        0, 0, 0, 4, 0, 4, 0, 1, 0, 0, 0, 65, 255, 255, 0, 0,
        0, 65, 255, 255, 255, 192, 0, 1, 0, 0, 0, 0, 0, 0, 0, 20,
        0, 46, 0, 0, 0, 2, 0, 100, 0, 0, 2, 88, 2, 188, 0, 3,
        0, 7, 0, 0, 51, 17, 33, 17, 37, 33, 17, 33, 100, 1, 244, 254,
        52, 1, 164, 254, 92, 2, 188, 253, 68, 40, 2, 108, 0, 2, 0, 6,
        0, 0, 2, 29, 2, 144, 0, 2, 0, 10, 0, 0, 19, 51, 3, 1,
        19, 51, 19, 35, 39, 35, 7, 173, 196, 99, 254, 248, 218, 96, 221, 89,
        62, 239, 66, 1, 11, 1, 64, 253, 181, 2, 144, 253, 112, 200, 200, 0,
    ]
}

fn cache() -> GlyphCache {
    GlyphCache::new(font_bytes()).unwrap()
}

fn metric(x: f64, y: f64) -> Vec2d {
    Vec2d { x: x.to_bits(), y: y.to_bits() }
}

fn glyph(width: u32, height: u32, coverage: Vec<Coverage>) -> RasterizedGlyph {
    RasterizedGlyph {
        offset: metric(-1.0, 9.0),
        size: metric(7.5, 0.0),
        width,
        height,
        coverage,
    }
}

fn full_coverage(width: u32, height: u32) -> Vec<Coverage> {
    let mut coverage = Vec::new();
    for y in 0..height {
        for x in 0..width {
            coverage.push(Coverage { x, y, alpha: (10 * y + x + 1) as u8 });
        }
    }
    coverage
}

#[test]
fn io_error_becomes_an_error() {
    let error = Error::from(std::io::Error::new(std::io::ErrorKind::NotFound, "no such file"));
    match error {
        Error::IoError(inner) => assert_eq!(inner.kind(), std::io::ErrorKind::NotFound),
        Error::NoFont => panic!("unexpected error"),
    }
}

#[test]
fn bytes_that_are_no_font_give_no_cache() {
    assert!(matches!(GlyphCache::new(vec![1, 2, 3, 4]), Err(Error::NoFont)));
    assert!(matches!(GlyphCache::new(Vec::new()), Err(Error::NoFont)));
    assert!(matches!(GlyphCache::from_font(None), Err(Error::NoFont)));
}

#[test]
fn font_bytes_give_an_empty_cache() {
    let cache = cache();
    assert!(!cache.contains(12, 'A'));
    assert!(cache.get(12, 'A').is_none());
    assert!(cache.font().glyph_count() > 0);
}

#[test]
fn well_formed_glyphs() {
    assert!(glyph(2, 3, full_coverage(2, 3)).is_well_formed());
    assert!(glyph(0, 0, Vec::new()).is_well_formed());
    assert!(!glyph(2, 3, vec![Coverage { x: 2, y: 0, alpha: 1 }]).is_well_formed());
    assert!(!glyph(2, 3, vec![Coverage { x: 0, y: 3, alpha: 1 }]).is_well_formed());
    assert!(!glyph(0, 0, vec![Coverage { x: 0, y: 0, alpha: 1 }]).is_well_formed());
    assert!(!glyph(u32::MAX - 1, 1, Vec::new()).is_well_formed());
    assert!(!glyph(1, u32::MAX, Vec::new()).is_well_formed());
    assert!(glyph(u32::MAX - 2, 0, Vec::new()).is_well_formed());
}

#[test]
fn alpha_image_has_a_transparent_margin() {
    let image = glyph(2, 3, full_coverage(2, 3)).alpha_image();
    assert_eq!(
        image,
        vec![
            0, 0, 0, 0, //
            0, 1, 2, 0, //
            0, 11, 12, 0, //
            0, 21, 22, 0, //
            0, 0, 0, 0,
        ]
    );
}

#[test]
fn later_sample_of_a_pixel_stays() {
    let coverage = vec![
        Coverage { x: 0, y: 0, alpha: 5 },
        Coverage { x: 0, y: 0, alpha: 9 },
    ];
    let image = glyph(1, 1, coverage).alpha_image();
    assert_eq!(image, vec![0, 0, 0, 0, 9, 0, 0, 0, 0]);
}

#[test]
fn unsampled_pixels_are_transparent() {
    let image = glyph(2, 1, vec![Coverage { x: 1, y: 0, alpha: 200 }]).alpha_image();
    assert_eq!(image, vec![0, 0, 0, 0, 0, 0, 200, 0, 0, 0, 0, 0]);
}

#[test]
fn rendered_character_is_the_texture_of_the_alpha_image() {
    let glyph = glyph(2, 3, full_coverage(2, 3));
    let character: Character = glyph.render();
    assert_eq!(character.offset, metric(-1.0, 9.0));
    assert_eq!(character.size, metric(7.5, 0.0));
    assert_eq!(character.texture.get_size(), (4, 5));
    let expected =
        Texture::from_memory_alpha(&glyph.alpha_image(), 4, 5, &TextureSettings::new());
    assert_eq!(character.texture.get_pixels(), expected.get_pixels());
    assert_eq!(
        character.texture.get_wrap(),
        (SamplerWrapFunction::Clamp, SamplerWrapFunction::Clamp)
    );
    // The bottom row of the texture is the bottom margin, the row above it
    // the last row of the glyph.
    let pixels = character.texture.get_pixels();
    assert_eq!(&pixels[0..16], &[255, 255, 255, 0].repeat(4)[..]);
    assert_eq!(
        &pixels[16..32],
        &[255, 255, 255, 0, 255, 255, 255, 21, 255, 255, 255, 22, 255, 255, 255, 0][..]
    );
}

#[test]
fn glyph_without_area_gets_the_placeholder() {
    for (width, height) in [(0, 0), (0, 4), (4, 0)] {
        let character = glyph(width, height, Vec::new()).render();
        assert_eq!(character.texture.get_size(), (1, 1));
        assert_eq!(character.texture.get_pixels(), &vec![0, 0, 0, 0]);
        assert_eq!(character.offset, metric(-1.0, 9.0));
    }
}

#[test]
fn a_character_is_rendered_on_the_first_request() {
    let mut cache = cache();
    let glyph = glyph(2, 3, full_coverage(2, 3));
    cache.character(16, 'A', &glyph);
    assert!(cache.contains(16, 'A'));
    let character = cache.get(16, 'A').unwrap();
    let rendered = glyph.render();
    assert_eq!(character.offset, rendered.offset);
    assert_eq!(character.size, rendered.size);
    assert_eq!(character.texture.get_size(), rendered.texture.get_size());
    assert_eq!(character.texture.get_pixels(), rendered.texture.get_pixels());
}

#[test]
fn a_character_is_rendered_only_once() {
    let mut cache = cache();
    let first = glyph(2, 3, full_coverage(2, 3));
    let mut second = glyph(5, 5, full_coverage(5, 5));
    second.offset = metric(3.0, 3.0);
    cache.character(16, 'A', &first);
    let before = cache.get(16, 'A').unwrap().clone();
    cache.character(16, 'A', &second);
    let after = cache.get(16, 'A').unwrap();
    assert_eq!(after.offset, before.offset);
    assert_eq!(after.size, before.size);
    assert_eq!(after.texture.get_size(), (4, 5));
    assert_eq!(after.texture.get_pixels(), before.texture.get_pixels());
    let once = cache.get(16, 'A').unwrap();
    let twice = cache.get(16, 'A').unwrap();
    assert!(std::ptr::eq(once, twice));
}

#[test]
fn size_and_character_both_key_the_cache() {
    let mut cache = cache();
    let small = glyph(1, 1, full_coverage(1, 1));
    let large = glyph(2, 2, full_coverage(2, 2));
    cache.character(10, 'A', &small);
    assert!(!cache.contains(11, 'A'));
    assert!(!cache.contains(10, 'B'));
    cache.character(11, 'A', &large);
    cache.character(10, 'B', &large);
    assert_eq!(cache.get(10, 'A').unwrap().texture.get_size(), (3, 3));
    assert_eq!(cache.get(11, 'A').unwrap().texture.get_size(), (4, 4));
    assert_eq!(cache.get(10, 'B').unwrap().texture.get_size(), (4, 4));
    assert!(!cache.contains(0, 'A'));
}

#[test]
fn extreme_keys_do_not_collide() {
    let mut cache = cache();
    let one = glyph(1, 1, full_coverage(1, 1));
    let two = glyph(2, 2, full_coverage(2, 2));
    cache.character(u32::MAX, '\u{10FFFF}', &one);
    cache.character(0, '\u{0}', &two);
    cache.character(1, '\u{0}', &two);
    assert_eq!(cache.get(u32::MAX, '\u{10FFFF}').unwrap().texture.get_size(), (3, 3));
    assert_eq!(cache.get(0, '\u{0}').unwrap().texture.get_size(), (4, 4));
    assert!(!cache.contains(0, '\u{1}'));
    assert!(!cache.contains(u32::MAX, '\u{0}'));
}

#[test]
fn missing_glyph_is_replaced() {
    assert_eq!(REPLACEMENT_CHARACTER, '\u{FFFD}');
    assert_eq!(substitute('x', 0, false), '\u{FFFD}');
    assert_eq!(substitute('x', 0, true), 'x');
    assert_eq!(substitute('x', 7, false), 'x');
    assert_eq!(substitute('x', 7, true), 'x');
}
