use glium_graphics::draw_parameters::{Rect, SamplerWrapFunction};
use glium_graphics::glium_texture::{
    convert_wrap, Flip, RgbaImage, TexError, Texture, TextureSettings, Wrap,
};

// A top-down RGBA image whose pixel (x, y) is [x, y, tag, 255].
fn image(width: u32, height: u32, tag: u8) -> RgbaImage {
    let mut pixels = Vec::new();
    for y in 0..height {
        for x in 0..width {
            pixels.extend_from_slice(&[x as u8, y as u8, tag, 255]);
        }
    }
    RgbaImage { width, height, pixels }
}

// The pixel at column `x` of row `y`, rows counted from the bottom.
fn pixel(texture: &Texture, x: u32, y: u32) -> [u8; 4] {
    let (width, _) = texture.get_size();
    let at = 4 * (y * width + x) as usize;
    let pixels = texture.get_pixels();
    [pixels[at], pixels[at + 1], pixels[at + 2], pixels[at + 3]]
}

#[test]
fn empty_texture_is_one_pixel() {
    let transparent = Texture::empty(false);
    assert_eq!(transparent.get_size(), (1, 1));
    assert_eq!(transparent.get_pixels(), &vec![0, 0, 0, 0]);
    assert_eq!(
        transparent.get_wrap(),
        (SamplerWrapFunction::Clamp, SamplerWrapFunction::Clamp)
    );
    let opaque = Texture::empty(true);
    assert_eq!(opaque.get_size(), (1, 1));
    assert_eq!(opaque.get_pixels(), &vec![0, 0, 0, 255]);
}

#[test]
fn new_texture_keeps_its_pixels_and_clamps() {
    let texture = Texture::new(vec![1, 2, 3, 4, 5, 6, 7, 8], 2, 1);
    assert_eq!(texture.get_size(), (2, 1));
    assert_eq!(texture.get_pixels(), &vec![1, 2, 3, 4, 5, 6, 7, 8]);
    assert_eq!(texture.get_wrap(), (SamplerWrapFunction::Clamp, SamplerWrapFunction::Clamp));
}

#[test]
fn create_stores_the_rows_bottom_up() {
    let memory = vec![
        1, 1, 1, 1, 2, 2, 2, 2, // top row
        3, 3, 3, 3, 4, 4, 4, 4, // middle row
        5, 5, 5, 5, 6, 6, 6, 6, // bottom row
    ];
    let texture = Texture::create(&memory, (2, 3), &TextureSettings::new());
    assert_eq!(texture.get_size(), (2, 3));
    assert_eq!(
        texture.get_pixels(),
        &vec![
            5, 5, 5, 5, 6, 6, 6, 6, //
            3, 3, 3, 3, 4, 4, 4, 4, //
            1, 1, 1, 1, 2, 2, 2, 2,
        ]
    );
}

#[test]
fn create_of_an_image_without_rows() {
    let texture = Texture::create(&[], (3, 0), &TextureSettings::new());
    assert_eq!(texture.get_size(), (3, 0));
    assert!(texture.get_pixels().is_empty());
}

#[test]
fn from_image_is_create_of_its_pixels() {
    let img = image(3, 2, 7);
    let texture = Texture::from_image(&img, &TextureSettings::new());
    assert_eq!(texture.get_size(), (3, 2));
    for y in 0..2 {
        for x in 0..3 {
            assert_eq!(pixel(&texture, x, y), [x as u8, (1 - y) as u8, 7, 255]);
        }
    }
}

#[test]
fn wrap_modes_map_to_sampler_wrap_functions() {
    assert_eq!(convert_wrap(Wrap::ClampToEdge), SamplerWrapFunction::Clamp);
    assert_eq!(convert_wrap(Wrap::Repeat), SamplerWrapFunction::Repeat);
    assert_eq!(convert_wrap(Wrap::MirroredRepeat), SamplerWrapFunction::Mirror);
    assert_eq!(convert_wrap(Wrap::ClampToBorder), SamplerWrapFunction::BorderClamp);
    let settings = TextureSettings::new().wrap_u(Wrap::Repeat).wrap_v(Wrap::MirroredRepeat);
    assert_eq!(TextureSettings::new().wrap_u, Wrap::ClampToEdge);
    assert_eq!(TextureSettings::new().wrap_v, Wrap::ClampToEdge);
    let texture = Texture::from_image(&image(1, 1, 0), &settings);
    assert_eq!(texture.get_wrap(), (SamplerWrapFunction::Repeat, SamplerWrapFunction::Mirror));
}

#[test]
fn alpha_buffer_becomes_white_with_alpha() {
    let buffer = [10, 20, 30, 40, 50, 60];
    let texture = Texture::from_memory_alpha(&buffer, 3, 2, &TextureSettings::new());
    assert_eq!(texture.get_size(), (3, 2));
    assert_eq!(
        texture.get_pixels(),
        &vec![
            255, 255, 255, 40, 255, 255, 255, 50, 255, 255, 255, 60, //
            255, 255, 255, 10, 255, 255, 255, 20, 255, 255, 255, 30,
        ]
    );
}

#[test]
fn alpha_buffer_may_be_longer_than_the_image() {
    let buffer = [10, 20, 30, 40, 50, 60];
    let texture = Texture::from_memory_alpha(&buffer, 2, 1, &TextureSettings::new());
    assert_eq!(texture.get_pixels(), &vec![255, 255, 255, 10, 255, 255, 255, 20]);
}

#[test]
fn alpha_image_without_pixels_is_the_placeholder() {
    let settings = TextureSettings::new().wrap_u(Wrap::Repeat);
    for (width, height) in [(0, 0), (0, 5), (5, 0)] {
        let texture = Texture::from_memory_alpha(&[], width, height, &settings);
        assert_eq!(texture.get_size(), (1, 1));
        assert_eq!(texture.get_pixels(), &vec![0, 0, 0, 0]);
        assert_eq!(
            texture.get_wrap(),
            (SamplerWrapFunction::Clamp, SamplerWrapFunction::Clamp)
        );
    }
}

#[test]
fn flip_vertical_reverses_the_rows() {
    let img = image(2, 3, 9);
    let flipped = img.clone().flip(Flip::Vertical);
    assert_eq!((flipped.width, flipped.height), (2, 3));
    for y in 0..3u32 {
        for x in 0..2u32 {
            let at = 4 * (y * 2 + x) as usize;
            assert_eq!(&flipped.pixels[at..at + 4], &[x as u8, (2 - y) as u8, 9, 255][..]);
        }
    }
    assert_eq!(flipped.flip(Flip::Vertical).pixels, img.pixels);
}

#[test]
fn flip_nothing_keeps_the_image() {
    let img = image(2, 3, 9);
    assert_eq!(img.clone().flip(Flip::Nothing).pixels, img.pixels);
}

#[test]
fn from_decoded_flips_before_it_creates() {
    let img = image(2, 3, 1);
    let settings = TextureSettings::new();
    let plain = Texture::from_decoded(img.clone(), Flip::Nothing, &settings);
    assert_eq!(plain.get_pixels(), Texture::from_image(&img, &settings).get_pixels());
    let flipped = Texture::from_decoded(img.clone(), Flip::Vertical, &settings);
    // Flipping the image and reversing the rows on upload cancel out.
    assert_eq!(flipped.get_pixels(), &img.pixels);
    assert_ne!(flipped.get_pixels(), plain.get_pixels());
}

#[test]
fn update_replaces_the_top_left_corner() {
    let mut texture = Texture::from_image(&image(4, 4, 0), &TextureSettings::new());
    let rect = texture.update(&image(2, 3, 1));
    assert_eq!(rect, Rect { left: 0, bottom: 1, width: 2, height: 3 });
    assert_eq!(texture.get_size(), (4, 4));
    for y in 0..4u32 {
        for x in 0..4u32 {
            let from_top = 3 - y;
            let expected = if x < 2 && from_top < 3 {
                [x as u8, from_top as u8, 1, 255]
            } else {
                [x as u8, from_top as u8, 0, 255]
            };
            assert_eq!(pixel(&texture, x, y), expected);
        }
    }
}

#[test]
fn update_region_writes_inside_the_texture() {
    let mut texture = Texture::from_image(&image(5, 4, 0), &TextureSettings::new());
    let patch = image(2, 2, 1);
    let rect = texture.update_region(&patch.pixels, (2, 1), (2, 2));
    assert_eq!(rect, Rect { left: 2, bottom: 1, width: 2, height: 2 });
    for y in 0..4u32 {
        for x in 0..5u32 {
            let from_top = 3 - y;
            let inside = (2..4).contains(&x) && (1..3).contains(&from_top);
            let expected = if inside {
                [(x - 2) as u8, (from_top - 1) as u8, 1, 255]
            } else {
                [x as u8, from_top as u8, 0, 255]
            };
            assert_eq!(pixel(&texture, x, y), expected);
        }
    }
}

#[test]
fn update_of_the_whole_texture_replaces_it() {
    let mut texture = Texture::from_image(&image(3, 2, 0), &TextureSettings::new());
    let rect = texture.update(&image(3, 2, 5));
    assert_eq!(rect, Rect { left: 0, bottom: 0, width: 3, height: 2 });
    assert_eq!(
        texture.get_pixels(),
        Texture::from_image(&image(3, 2, 5), &TextureSettings::new()).get_pixels()
    );
}

#[test]
fn update_without_rows_changes_nothing() {
    let mut texture = Texture::from_image(&image(3, 2, 0), &TextureSettings::new());
    let before = texture.get_pixels().clone();
    let rect = texture.update_region(&[], (1, 2), (2, 0));
    assert_eq!(rect, Rect { left: 1, bottom: 0, width: 2, height: 0 });
    assert_eq!(texture.get_pixels(), &before);
}

#[test]
fn update_keeps_the_wrap_functions() {
    let settings = TextureSettings::new().wrap_u(Wrap::Repeat).wrap_v(Wrap::ClampToBorder);
    let mut texture = Texture::from_image(&image(2, 2, 0), &settings);
    texture.update(&image(1, 1, 3));
    assert_eq!(
        texture.get_wrap(),
        (SamplerWrapFunction::Repeat, SamplerWrapFunction::BorderClamp)
    );
}

#[test]
fn four_channels_of_memory_are_an_rgba_image() {
    let img = image(2, 3, 4);
    let texture = Texture::from_memory(&img.pixels, 2, 4).unwrap();
    assert_eq!(texture.get_size(), (2, 3));
    assert_eq!(
        texture.get_pixels(),
        Texture::from_image(&img, &TextureSettings::new()).get_pixels()
    );
    assert_eq!(texture.get_wrap(), (SamplerWrapFunction::Clamp, SamplerWrapFunction::Clamp));
}

#[test]
fn one_channel_of_memory_is_an_alpha_image() {
    let texture = Texture::from_memory(&[10, 20, 30, 40, 50, 60], 3, 1).unwrap();
    assert_eq!(texture.get_size(), (3, 2));
    assert_eq!(
        texture.get_pixels(),
        &vec![
            255, 255, 255, 40, 255, 255, 255, 50, 255, 255, 255, 60, //
            255, 255, 255, 10, 255, 255, 255, 20, 255, 255, 255, 30,
        ]
    );
}

#[test]
fn other_channel_counts_are_an_error() {
    for channels in [0, 2, 3, 5, usize::MAX] {
        match Texture::from_memory(&[1, 2, 3, 4, 5, 6], 1, channels) {
            Err(TexError::Channels(n)) => assert_eq!(n, channels),
            Ok(_) => panic!("a texture of {} channels", channels),
        }
    }
}

#[test]
fn empty_memory_of_four_channels_has_no_rows() {
    let texture = Texture::from_memory(&[], 7, 4).unwrap();
    assert_eq!(texture.get_size(), (7, 0));
}

#[test]
fn textures_of_the_library_are_well_formed() {
    assert!(Texture::empty(false).is_well_formed());
    assert!(Texture::new(vec![0; 24], 2, 3).is_well_formed());
    assert!(Texture::from_image(&image(3, 2, 0), &TextureSettings::new()).is_well_formed());
    let mut texture = Texture::from_image(&image(3, 2, 0), &TextureSettings::new());
    texture.update(&image(1, 1, 1));
    assert!(texture.is_well_formed());
}

#[test]
fn empty_memory_of_one_channel_has_no_rows() {
    let texture = Texture::from_memory(&[], 7, 1).unwrap();
    assert_eq!(texture.get_size(), (7, 0));
    assert!(texture.get_pixels().is_empty());
    assert_eq!(texture.get_wrap(), (SamplerWrapFunction::Clamp, SamplerWrapFunction::Clamp));
}
