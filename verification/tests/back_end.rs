use glium_graphics::back_end::{
    Command, DrawOp, Frame, Glium2d, GliumGraphics, PlainVertex, TexturedVertex, CHUNKS,
};
use glium_graphics::draw_parameters::{Color, SamplerWrapFunction};
use glium_graphics::draw_state::convert_draw_state;
use glium_graphics::glium_texture::Texture;
use glium_graphics::shader::{OpenGL, ShaderSources};
use glium_graphics::state::{Blend, DrawState};

fn sources() -> ShaderSources {
    ShaderSources {
        colored_vertex_120: b"cv120".to_vec(),
        colored_vertex_150: b"cv150".to_vec(),
        colored_fragment_120: b"cf120".to_vec(),
        colored_fragment_150: b"cf150".to_vec(),
        textured_vertex_120: b"tv120".to_vec(),
        textured_vertex_150: b"tv150".to_vec(),
        textured_fragment_120: b"tf120".to_vec(),
        textured_fragment_150: b"tf150".to_vec(),
    }
}

fn system(plain_capacity: usize, textured_capacity: usize) -> Glium2d {
    Glium2d::with_shaders(OpenGL::V3_2, &sources(), plain_capacity, textured_capacity).unwrap()
}

fn color(r: f32, g: f32, b: f32, a: f32) -> Color {
    Color { r: r.to_bits(), g: g.to_bits(), b: b.to_bits(), a: a.to_bits() }
}

fn bits(values: &[f32]) -> Vec<u32> {
    values.iter().map(|v| v.to_bits()).collect()
}

// The positions of `count` vertices, all different, starting at `first`.
fn positions(first: u32, count: u32) -> Vec<u32> {
    (0..2 * count).map(|i| ((first + i / 2) as f32 + (i % 2) as f32 * 0.5).to_bits()).collect()
}

fn plain(color: Color, positions: &[u32]) -> Vec<PlainVertex> {
    positions.chunks_exact(2).map(|p| PlainVertex { color, x: p[0], y: p[1] }).collect()
}

fn colored_batches(commands: &[Command<'_>]) -> Vec<Vec<PlainVertex>> {
    let mut batches = Vec::new();
    for command in commands {
        if let Command::DrawColored { vertices, .. } = command {
            batches.push(vertices.clone());
        }
    }
    batches
}

#[test]
fn new_renderer_has_the_buffers_of_the_drawing_api() {
    let system = Glium2d::new(OpenGL::V3_2).unwrap();
    assert_eq!(CHUNKS, 100);
    assert_eq!(system.capacity(), 102_300);
    assert_eq!(system.textured_capacity(), 1023);
    assert_eq!(system.colored_offset(), 0);
    assert_eq!(system.colored_draw_state(), DrawState::default());
}

#[test]
fn new_renderer_picks_the_shaders_of_its_version() {
    let modern = Glium2d::new(OpenGL::V3_2).unwrap();
    assert!(modern.shader_color().vertex.starts_with(b"#version 150"));
    assert!(modern.shader_color().fragment.starts_with(b"#version 150"));
    assert!(modern.shader_texture().vertex.starts_with(b"#version 150"));
    assert!(modern.shader_texture().fragment.starts_with(b"#version 150"));
    let legacy = Glium2d::new(OpenGL::V2_1).unwrap();
    assert!(legacy.shader_color().vertex.starts_with(b"#version 120"));
    assert!(legacy.shader_texture().fragment.starts_with(b"#version 120"));
    assert_ne!(legacy.shader_color().vertex, legacy.shader_texture().vertex);
}

#[test]
fn no_renderer_without_shaders() {
    assert!(Glium2d::new(OpenGL::V2_0).is_none());
    assert!(Glium2d::with_shaders(OpenGL::V2_0, &sources(), 10, 10).is_none());
}

#[test]
fn with_shaders_takes_the_given_sources() {
    let modern = Glium2d::with_shaders(OpenGL::V4_5, &sources(), 7, 3).unwrap();
    assert_eq!(modern.shader_color().vertex, b"cv150".to_vec());
    assert_eq!(modern.shader_color().fragment, b"cf150".to_vec());
    assert_eq!(modern.shader_texture().vertex, b"tv150".to_vec());
    assert_eq!(modern.shader_texture().fragment, b"tf150".to_vec());
    assert_eq!(modern.capacity(), 7);
    assert_eq!(modern.textured_capacity(), 3);
    let legacy = Glium2d::with_shaders(OpenGL::V3_1, &sources(), 7, 3).unwrap();
    assert_eq!(legacy.shader_color().vertex, b"cv120".to_vec());
    assert_eq!(legacy.shader_texture().fragment, b"tf120".to_vec());
}

#[test]
fn triangles_wait_in_the_buffer_until_the_flush() {
    let mut system = system(30, 10);
    let mut frame = Frame::new();
    let state = DrawState::new_alpha();
    let red = color(1.0, 0.0, 0.0, 1.0);
    let vertices = positions(0, 3);
    {
        let mut g = GliumGraphics::new(&mut system, &mut frame);
        g.tri_list(&state, &red, &vertices);
    }
    assert!(frame.commands().is_empty());
    assert_eq!(system.colored_offset(), 3);
    assert_eq!(system.colored_draw_state(), state);
    {
        let mut g = GliumGraphics::new(&mut system, &mut frame);
        g.flush_colored();
    }
    assert_eq!(system.colored_offset(), 0);
    assert_eq!(frame.commands().len(), 1);
    match &frame.commands()[0] {
        Command::DrawColored { vertices: drawn, params } => {
            assert_eq!(drawn, &plain(red, &vertices));
            assert_eq!(*params, convert_draw_state(&state));
        }
        other => panic!("unexpected command {:?}", other),
    }
}

#[test]
fn flushing_an_empty_buffer_draws_nothing() {
    let mut system = system(30, 10);
    let mut frame = Frame::new();
    {
        let mut g = GliumGraphics::new(&mut system, &mut frame);
        g.flush_colored();
        g.flush_colored();
    }
    assert!(frame.commands().is_empty());
}

#[test]
fn first_list_under_a_new_state_draws_no_empty_batch() {
    let mut system = system(30, 10);
    let mut frame = Frame::new();
    let state = DrawState::new_clip();
    assert_ne!(system.colored_draw_state(), state);
    {
        let mut g = GliumGraphics::new(&mut system, &mut frame);
        g.tri_list(&state, &color(0.0, 0.0, 0.0, 1.0), &positions(0, 3));
        g.flush_colored();
    }
    assert_eq!(frame.commands().len(), 1);
}

#[test]
fn same_state_lists_share_one_draw() {
    let mut system = system(30, 10);
    let mut frame = Frame::new();
    let state = DrawState::new_alpha();
    let red = color(1.0, 0.0, 0.0, 1.0);
    let blue = color(0.0, 0.0, 1.0, 0.5);
    let first = positions(0, 3);
    let second = positions(10, 6);
    {
        let mut g = GliumGraphics::new(&mut system, &mut frame);
        g.tri_list(&state, &red, &first);
        g.tri_list(&state, &blue, &second);
        g.flush_colored();
    }
    let batches = colored_batches(frame.commands());
    assert_eq!(batches.len(), 1);
    let mut expected = plain(red, &first);
    expected.extend(plain(blue, &second));
    assert_eq!(batches[0], expected);
}

#[test]
fn state_change_flushes_even_under_capacity() {
    let mut system = system(1000, 10);
    let mut frame = Frame::new();
    let first_state = DrawState::new_alpha();
    let second_state = DrawState::new_alpha().blend(Blend::add());
    let white = color(1.0, 1.0, 1.0, 1.0);
    let first = positions(0, 3);
    let second = positions(3, 3);
    {
        let mut g = GliumGraphics::new(&mut system, &mut frame);
        g.tri_list(&first_state, &white, &first);
        g.tri_list(&second_state, &white, &second);
        g.flush_colored();
    }
    assert_eq!(frame.commands().len(), 2);
    match (&frame.commands()[0], &frame.commands()[1]) {
        (
            Command::DrawColored { vertices: a, params: pa },
            Command::DrawColored { vertices: b, params: pb },
        ) => {
            assert_eq!(a, &plain(white, &first));
            assert_eq!(*pa, convert_draw_state(&first_state));
            assert_eq!(b, &plain(white, &second));
            assert_eq!(*pb, convert_draw_state(&second_state));
            assert_ne!(pa, pb);
        }
        other => panic!("unexpected commands {:?}", other),
    }
}

#[test]
fn overflowing_lists_are_drawn_in_full_batches() {
    // 5 lists of 3 vertices in a buffer of 6: ceil(15 / 6) = 3 draws.
    let mut system = system(6, 10);
    let mut frame = Frame::new();
    let state = DrawState::new_alpha();
    let green = color(0.0, 1.0, 0.0, 1.0);
    let mut submitted = Vec::new();
    {
        let mut g = GliumGraphics::new(&mut system, &mut frame);
        for i in 0..5 {
            let vertices = positions(3 * i, 3);
            submitted.extend(plain(green, &vertices));
            g.tri_list(&state, &green, &vertices);
        }
        g.flush_colored();
    }
    let batches = colored_batches(frame.commands());
    assert_eq!(frame.commands().len(), 3);
    assert_eq!(batches.len(), 3);
    assert_eq!(batches[0].len(), 6);
    assert_eq!(batches[1].len(), 6);
    assert_eq!(batches[2].len(), 3);
    assert_eq!(batches.concat(), submitted);
}

#[test]
fn a_list_is_never_split_over_two_batches() {
    // 10 lists of 3 vertices in a buffer of 10: 3 lists per batch, 4 draws.
    let mut system = system(10, 10);
    let mut frame = Frame::new();
    let state = DrawState::new_alpha();
    let green = color(0.0, 1.0, 0.0, 1.0);
    let mut submitted = Vec::new();
    {
        let mut g = GliumGraphics::new(&mut system, &mut frame);
        for i in 0..10 {
            let vertices = positions(3 * i, 3);
            submitted.extend(plain(green, &vertices));
            g.tri_list(&state, &green, &vertices);
        }
        g.flush_colored();
    }
    let batches = colored_batches(frame.commands());
    let sizes: Vec<usize> = batches.iter().map(|b| b.len()).collect();
    assert_eq!(sizes, vec![9, 9, 9, 3]);
    assert_eq!(batches.concat(), submitted);
}

#[test]
fn a_list_as_large_as_the_buffer_fits() {
    let mut system = system(3, 10);
    let mut frame = Frame::new();
    let state = DrawState::new_alpha();
    let c = color(0.5, 0.5, 0.5, 1.0);
    {
        let mut g = GliumGraphics::new(&mut system, &mut frame);
        g.tri_list(&state, &c, &positions(0, 3));
        g.tri_list(&state, &c, &positions(3, 3));
    }
    assert_eq!(frame.commands().len(), 1);
    assert_eq!(system.colored_offset(), 3);
}

#[test]
fn a_coordinate_without_partner_is_dropped() {
    let mut system = system(30, 10);
    let mut frame = Frame::new();
    let c = color(0.5, 0.5, 0.5, 1.0);
    let vertices = bits(&[1.0, 2.0, 3.0, 4.0, 5.0]);
    {
        let mut g = GliumGraphics::new(&mut system, &mut frame);
        g.tri_list(&DrawState::default(), &c, &vertices);
        g.tri_list(&DrawState::default(), &c, &[]);
        g.flush_colored();
    }
    let batches = colored_batches(frame.commands());
    assert_eq!(
        batches,
        vec![vec![
            PlainVertex { color: c, x: 1.0f32.to_bits(), y: 2.0f32.to_bits() },
            PlainVertex { color: c, x: 3.0f32.to_bits(), y: 4.0f32.to_bits() },
        ]]
    );
}

#[test]
fn textured_list_is_drawn_at_once_after_the_batch() {
    let mut system = system(30, 10);
    let mut frame = Frame::new();
    let texture = Texture::empty(true);
    let state = DrawState::new_alpha();
    let tint = color(1.0, 1.0, 1.0, 0.5);
    let red = color(1.0, 0.0, 0.0, 1.0);
    let before = positions(0, 3);
    let vertices = bits(&[0.0, 0.0, 1.0, 0.0, 1.0, 1.0]);
    let coords = bits(&[0.0, 0.25, 1.0, 0.25, 1.0, 0.75]);
    {
        let mut g = GliumGraphics::new(&mut system, &mut frame);
        g.tri_list(&state, &red, &before);
        g.tri_list_uv(&DrawState::new_inside(), &tint, &texture, &vertices, &coords);
    }
    assert_eq!(system.colored_offset(), 0);
    assert_eq!(system.colored_draw_state(), state);
    assert_eq!(frame.commands().len(), 2);
    match &frame.commands()[0] {
        Command::DrawColored { vertices: drawn, .. } => assert_eq!(drawn, &plain(red, &before)),
        other => panic!("unexpected command {:?}", other),
    }
    match &frame.commands()[1] {
        Command::DrawTextured { vertices: drawn, color, texture: sampled, wrap, params } => {
            assert_eq!(
                drawn,
                &vec![
                    TexturedVertex {
                        x: 0.0f32.to_bits(),
                        y: 0.0f32.to_bits(),
                        u: 0.0f32.to_bits(),
                        v: 0.25f32.to_bits(),
                    },
                    TexturedVertex {
                        x: 1.0f32.to_bits(),
                        y: 0.0f32.to_bits(),
                        u: 1.0f32.to_bits(),
                        v: 0.25f32.to_bits(),
                    },
                    TexturedVertex {
                        x: 1.0f32.to_bits(),
                        y: 1.0f32.to_bits(),
                        u: 1.0f32.to_bits(),
                        v: 0.75f32.to_bits(),
                    },
                ]
            );
            assert_eq!(*color, tint);
            assert!(std::ptr::eq(*sampled, &texture));
            assert_eq!(*wrap, SamplerWrapFunction::Clamp);
            assert_eq!(*params, convert_draw_state(&DrawState::new_inside()));
        }
        other => panic!("unexpected command {:?}", other),
    }
}

#[test]
fn textured_lists_are_not_batched() {
    let mut system = system(30, 10);
    let mut frame = Frame::new();
    let texture = Texture::empty(false);
    let state = DrawState::new_alpha();
    let tint = color(1.0, 1.0, 1.0, 1.0);
    let vertices = positions(0, 3);
    {
        let mut g = GliumGraphics::new(&mut system, &mut frame);
        g.tri_list_uv(&state, &tint, &texture, &vertices, &vertices);
        g.tri_list_uv(&state, &tint, &texture, &vertices, &vertices);
        g.flush_colored();
    }
    assert_eq!(frame.commands().len(), 2);
    assert!(colored_batches(frame.commands()).is_empty());
}

#[test]
fn mismatched_counts_are_cut_to_the_shorter_list() {
    let mut system = system(30, 10);
    let mut frame = Frame::new();
    let texture = Texture::empty(false);
    let tint = color(1.0, 1.0, 1.0, 1.0);
    let vertices = positions(0, 4);
    let coords = positions(20, 2);
    {
        let mut g = GliumGraphics::new(&mut system, &mut frame);
        g.tri_list_uv(&DrawState::default(), &tint, &texture, &vertices, &coords);
        g.tri_list_uv(&DrawState::default(), &tint, &texture, &coords[..3], &vertices);
    }
    match &frame.commands()[0] {
        Command::DrawTextured { vertices: drawn, .. } => {
            assert_eq!(drawn.len(), 2);
            assert_eq!(drawn[1].x, vertices[2]);
            assert_eq!(drawn[1].y, vertices[3]);
            assert_eq!(drawn[1].u, coords[2]);
            assert_eq!(drawn[1].v, coords[3]);
        }
        other => panic!("unexpected command {:?}", other),
    }
    match &frame.commands()[1] {
        Command::DrawTextured { vertices: drawn, .. } => assert_eq!(drawn.len(), 1),
        other => panic!("unexpected command {:?}", other),
    }
}

#[test]
fn clear_color_comes_after_what_was_buffered() {
    let mut system = system(30, 10);
    let mut frame = Frame::new();
    let c = color(0.2, 0.4, 0.6, 0.8);
    {
        let mut g = GliumGraphics::new(&mut system, &mut frame);
        g.tri_list(&DrawState::default(), &c, &positions(0, 3));
        g.clear_color(c);
    }
    assert_eq!(system.colored_offset(), 0);
    assert_eq!(frame.commands().len(), 2);
    assert!(matches!(frame.commands()[0], Command::DrawColored { .. }));
    match &frame.commands()[1] {
        Command::ClearColor { color } => assert_eq!(*color, c),
        other => panic!("unexpected command {:?}", other),
    }
}

#[test]
fn clearing_twice_carries_the_given_color_each_time() {
    let mut system = system(30, 10);
    let mut frame = Frame::new();
    let c = color(0.2, 0.4, 0.6, 0.8);
    {
        let mut g = GliumGraphics::new(&mut system, &mut frame);
        g.clear_color(c);
        g.clear_color(c);
    }
    assert_eq!(frame.commands().len(), 2);
    for command in frame.commands() {
        match command {
            Command::ClearColor { color } => assert_eq!(*color, c),
            other => panic!("unexpected command {:?}", other),
        }
    }
}

#[test]
fn clear_stencil_leaves_the_batch_alone() {
    let mut system = system(30, 10);
    let mut frame = Frame::new();
    let c = color(0.0, 0.0, 0.0, 1.0);
    {
        let mut g = GliumGraphics::new(&mut system, &mut frame);
        g.tri_list(&DrawState::default(), &c, &positions(0, 3));
        g.clear_stencil(255);
    }
    assert_eq!(system.colored_offset(), 3);
    assert_eq!(frame.commands().len(), 1);
    match &frame.commands()[0] {
        Command::ClearStencil { value } => assert_eq!(*value, 255),
        other => panic!("unexpected command {:?}", other),
    }
}

#[test]
fn draw_runs_a_frame_and_flushes_at_its_end() {
    let mut system = system(6, 10);
    let mut frame = Frame::new();
    let texture = Texture::empty(false);
    let state = DrawState::new_alpha();
    let c = color(1.0, 1.0, 0.0, 1.0);
    let ops = vec![
        DrawOp::ClearColor { color: c },
        DrawOp::ClearStencil { value: 0 },
        DrawOp::TriList { draw_state: state, color: c, vertices: positions(0, 3) },
        DrawOp::TriList { draw_state: state, color: c, vertices: positions(3, 3) },
        DrawOp::TriList { draw_state: state, color: c, vertices: positions(6, 3) },
        DrawOp::TriListUv {
            draw_state: state,
            color: c,
            texture: &texture,
            vertices: positions(0, 3),
            texture_coords: positions(0, 3),
        },
        DrawOp::TriList { draw_state: state, color: c, vertices: positions(9, 3) },
    ];
    system.draw(&mut frame, &ops);
    assert_eq!(system.colored_offset(), 0);
    let kinds: Vec<&str> = frame
        .commands()
        .iter()
        .map(|command| match command {
            Command::ClearColor { .. } => "clear",
            Command::ClearStencil { .. } => "stencil",
            Command::DrawColored { .. } => "colored",
            Command::DrawTextured { .. } => "textured",
        })
        .collect();
    assert_eq!(kinds, vec!["clear", "stencil", "colored", "colored", "textured", "colored"]);
    let batches = colored_batches(frame.commands());
    let mut submitted = plain(c, &positions(0, 3));
    submitted.extend(plain(c, &positions(3, 3)));
    submitted.extend(plain(c, &positions(6, 3)));
    submitted.extend(plain(c, &positions(9, 3)));
    assert_eq!(batches.concat(), submitted);
    assert_eq!(batches[0].len(), 6);
}

#[test]
fn draw_of_an_empty_frame_issues_nothing() {
    let mut system = system(6, 10);
    let mut frame = Frame::new();
    system.draw(&mut frame, &Vec::new());
    assert!(frame.commands().is_empty());
}

#[test]
fn the_batch_survives_from_one_frame_object_to_the_next() {
    let mut system = system(30, 10);
    let c = color(1.0, 1.0, 0.0, 1.0);
    let mut first = Frame::new();
    {
        let mut g = GliumGraphics::new(&mut system, &mut first);
        g.tri_list(&DrawState::default(), &c, &positions(0, 3));
    }
    assert!(first.commands().is_empty());
    let mut second = Frame::new();
    {
        let mut g = GliumGraphics::new(&mut system, &mut second);
        g.flush_colored();
    }
    assert_eq!(second.commands().len(), 1);
}

#[test]
fn take_commands_empties_the_frame() {
    let mut system = system(30, 10);
    let mut frame = Frame::new();
    {
        let mut g = GliumGraphics::new(&mut system, &mut frame);
        g.clear_stencil(1);
        g.clear_stencil(2);
    }
    let taken = frame.take_commands();
    assert_eq!(taken.len(), 2);
    assert!(matches!(taken[0], Command::ClearStencil { value: 1 }));
    assert!(matches!(taken[1], Command::ClearStencil { value: 2 }));
    assert!(frame.commands().is_empty());
}
