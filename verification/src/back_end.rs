//! The batching renderer.
//!
//! Colored triangles are collected in a vertex buffer of fixed capacity and
//! leave it as one draw command when the draw state changes, when the buffer
//! would overflow, when a textured draw or a clear has to come after them, or
//! when the frame ends. Textured triangles are drawn at once, one command per
//! call. The commands of a frame are recorded on a [`Frame`] in the order in
//! which the GPU has to see them.
//!
//! Coordinates and colors pass through as bit patterns of single-precision
//! numbers. A color is expected in linear space: whoever holds a
//! gamma-encoded color linearizes it once, before the call.

use vstd::prelude::*;
use crate::draw_parameters::{Color, DrawParameters, SamplerWrapFunction};
use crate::draw_state::{convert_draw_state, spec_convert_draw_state};
use crate::glium_texture::{Texture, TextureView};
use crate::shader::{
    bundled_sources, pick_program, spec_pick_shader, spec_supported, OpenGL, ProgramSource,
    ProgramSourceView, ShaderSources,
};
use crate::state::DrawState;

verus! {

/// The plain vertex buffer holds this many times the vertex count of one
/// triangle list.
pub const CHUNKS: usize = 100;

/// A vertex of a colored triangle.
#[derive(Clone, Copy, PartialEq, Eq, Debug, Structural)]
pub struct PlainVertex {
    pub color: Color,
    pub x: u32,
    pub y: u32,
}

/// A vertex of a textured triangle. The texture coordinate is the caller's:
/// `v` grows downwards from the top of the image.
#[derive(Clone, Copy, PartialEq, Eq, Debug, Structural)]
pub struct TexturedVertex {
    pub x: u32,
    pub y: u32,
    pub u: u32,
    pub v: u32,
}

/// A command for the GPU.
#[derive(Debug)]
#[allow(inconsistent_fields)]
pub enum Command<'t> {
    /// Clears the color of the whole surface.
    ClearColor { color: Color },
    /// Clears the stencil buffer.
    ClearStencil { value: i32 },
    /// Draws a list of colored triangles.
    DrawColored { vertices: Vec<PlainVertex>, params: DrawParameters },
    /// Draws a list of triangles that sample a texture, tinted by a color.
    DrawTextured {
        vertices: Vec<TexturedVertex>,
        color: Color,
        texture: &'t Texture,
        wrap: SamplerWrapFunction,
        params: DrawParameters,
    },
}

/// A command as a value.
#[allow(inconsistent_fields)]
pub enum CommandView {
    ClearColor { color: Color },
    ClearStencil { value: i32 },
    DrawColored { vertices: Seq<PlainVertex>, params: DrawParameters },
    DrawTextured {
        vertices: Seq<TexturedVertex>,
        color: Color,
        texture: TextureView,
        wrap: SamplerWrapFunction,
        params: DrawParameters,
    },
}

/// One drawing operation of a frame, as the drawing API issues it.
#[derive(Debug)]
pub enum DrawOp<'t> {
    ClearColor { color: Color },
    ClearStencil { value: u8 },
    TriList { draw_state: DrawState, color: Color, vertices: Vec<u32> },
    TriListUv {
        draw_state: DrawState,
        color: Color,
        texture: &'t Texture,
        vertices: Vec<u32>,
        texture_coords: Vec<u32>,
    },
}

/// A drawing operation as a value.
pub enum DrawOpView {
    ClearColor { color: Color },
    ClearStencil { value: u8 },
    TriList { draw_state: DrawState, color: Color, vertices: Seq<u32> },
    TriListUv {
        draw_state: DrawState,
        color: Color,
        texture: TextureView,
        vertices: Seq<u32>,
        texture_coords: Seq<u32>,
    },
}

/// The drawable surface of one frame: the commands issued to it so far.
#[derive(Debug)]
pub struct Frame<'t> {
    commands: Vec<Command<'t>>,
}

/// The resources needed for rendering 2D.
#[derive(Debug)]
pub struct Glium2d {
    // The current draw state for colored rendering.
    colored_draw_state: DrawState,
    // The colored vertices written since the last flush.
    plain_buffer: Vec<PlainVertex>,
    // The number of vertices that the plain buffer has room for.
    plain_capacity: usize,
    // The number of vertices that the textured buffer has room for.
    textured_capacity: usize,
    // The sources of the program for textured rendering.
    shader_texture: ProgramSource,
    // The sources of the program for colored rendering.
    shader_color: ProgramSource,
}

/// The renderer's resources as a value.
pub struct Glium2dView {
    pub capacity: nat,
    pub textured_capacity: nat,
    pub draw_state: DrawState,
    pub buffered: Seq<PlainVertex>,
    pub shader_texture: ProgramSourceView,
    pub shader_color: ProgramSourceView,
}

/// The renderer in the middle of a frame, as a value: its resources and the
/// commands issued so far.
pub struct Renderer {
    pub system: Glium2dView,
    pub issued: Seq<CommandView>,
}

/// Graphics back-end.
pub struct GliumGraphics<'d, 's, 't> {
    pub system: &'d mut Glium2d,
    pub surface: &'s mut Frame<'t>,
}

/// The colored vertices of a flat list of coordinates `x0, y0, x1, y1, ..`.
/// A coordinate without a partner at the end is left out.
pub open spec fn spec_plain_vertices(color: Color, vertices: Seq<u32>) -> Seq<PlainVertex> {
    Seq::new(
        (vertices.len() / 2) as nat,
        |i: int| PlainVertex { color, x: vertices[2 * i], y: vertices[2 * i + 1] },
    )
}

/// The number of vertices that a list of positions and a list of texture
/// coordinates give together: that of the shorter list.
pub open spec fn spec_textured_len(vertices: Seq<u32>, texture_coords: Seq<u32>) -> nat {
    if vertices.len() <= texture_coords.len() {
        (vertices.len() / 2) as nat
    } else {
        (texture_coords.len() / 2) as nat
    }
}

/// The textured vertices of a flat list of positions and a flat list of
/// texture coordinates, cut to the shorter of the two.
pub open spec fn spec_textured_vertices(vertices: Seq<u32>, texture_coords: Seq<u32>) -> Seq<
    TexturedVertex,
> {
    Seq::new(
        spec_textured_len(vertices, texture_coords),
        |i: int|
            TexturedVertex {
                x: vertices[2 * i],
                y: vertices[2 * i + 1],
                u: texture_coords[2 * i],
                v: texture_coords[2 * i + 1],
            },
    )
}

impl<'t> View for Command<'t> {
    type V = CommandView;

    open spec fn view(&self) -> CommandView {
        match *self {
            Command::ClearColor { color } => CommandView::ClearColor { color },
            Command::ClearStencil { value } => CommandView::ClearStencil { value },
            Command::DrawColored { vertices, params } => CommandView::DrawColored {
                vertices: vertices@,
                params,
            },
            Command::DrawTextured { vertices, color, texture, wrap, params } => {
                CommandView::DrawTextured { vertices: vertices@, color, texture: texture@, wrap, params }
            },
        }
    }
}

impl<'t> View for DrawOp<'t> {
    type V = DrawOpView;

    open spec fn view(&self) -> DrawOpView {
        match *self {
            DrawOp::ClearColor { color } => DrawOpView::ClearColor { color },
            DrawOp::ClearStencil { value } => DrawOpView::ClearStencil { value },
            DrawOp::TriList { draw_state, color, vertices } => DrawOpView::TriList {
                draw_state,
                color,
                vertices: vertices@,
            },
            DrawOp::TriListUv { draw_state, color, texture, vertices, texture_coords } => {
                DrawOpView::TriListUv {
                    draw_state,
                    color,
                    texture: texture@,
                    vertices: vertices@,
                    texture_coords: texture_coords@,
                }
            },
        }
    }
}

/// The operations of a frame as values.
pub open spec fn spec_ops<'t>(ops: Seq<DrawOp<'t>>) -> Seq<DrawOpView> {
    ops.map_values(|op: DrawOp<'t>| op@)
}

impl DrawOpView {
    /// The operation does not ask for more vertices at once than a buffer
    /// has room for.
    pub open spec fn fits(self, system: Glium2dView) -> bool {
        match self {
            DrawOpView::TriList { vertices, .. } => vertices.len() / 2 <= system.capacity,
            DrawOpView::TriListUv { vertices, texture_coords, .. } => spec_textured_len(
                vertices,
                texture_coords,
            ) <= system.textured_capacity,
            _ => true,
        }
    }
}

/// Reads `graphics::BACK_END_MAX_VERTEX_COUNT`, the largest number of
/// vertices that the drawing API hands over in one triangle list. The
/// constant is 1023.
#[verifier::external_body]
fn back_end_max_vertex_count() -> (res: usize)
    ensures
        res == 1023,
{
    graphics::BACK_END_MAX_VERTEX_COUNT
}

/// The program that an OpenGL version gets, of sources in two dialects.
pub open spec fn spec_program(
    opengl: OpenGL,
    vertex_120: Seq<u8>,
    vertex_150: Seq<u8>,
    fragment_120: Seq<u8>,
    fragment_150: Seq<u8>,
) -> ProgramSourceView {
    ProgramSourceView {
        vertex: spec_pick_shader(opengl, vertex_120, vertex_150).unwrap(),
        fragment: spec_pick_shader(opengl, fragment_120, fragment_150).unwrap(),
    }
}

/// The renderer right after its creation: nothing buffered, the default
/// draw state, and of each shader the source that the OpenGL version gets.
pub open spec fn spec_new(
    opengl: OpenGL,
    sources: ShaderSources,
    capacity: nat,
    textured_capacity: nat,
) -> Glium2dView {
    Glium2dView {
        capacity,
        textured_capacity,
        draw_state: DrawState::spec_default(),
        buffered: Seq::empty(),
        shader_texture: spec_program(
            opengl,
            sources.textured_vertex_120@,
            sources.textured_vertex_150@,
            sources.textured_fragment_120@,
            sources.textured_fragment_150@,
        ),
        shader_color: spec_program(
            opengl,
            sources.colored_vertex_120@,
            sources.colored_vertex_150@,
            sources.colored_fragment_120@,
            sources.colored_fragment_150@,
        ),
    }
}

impl Glium2dView {
    /// The buffered vertices fit the buffer.
    pub open spec fn well_formed(self) -> bool {
        self.buffered.len() <= self.capacity
    }
}

impl Renderer {
    /// Draws what is buffered, if anything, with the remembered draw state,
    /// and empties the buffer.
    pub open spec fn flush(self) -> Renderer {
        if self.system.buffered.len() == 0 {
            self
        } else {
            Renderer {
                system: Glium2dView { buffered: Seq::empty(), ..self.system },
                issued: self.issued.push(
                    CommandView::DrawColored {
                        vertices: self.system.buffered,
                        params: spec_convert_draw_state(self.system.draw_state),
                    },
                ),
            }
        }
    }

    /// Makes `draw_state` the remembered draw state. What is buffered under
    /// another state is drawn first.
    pub open spec fn adopt(self, draw_state: DrawState) -> Renderer {
        if self.system.draw_state == draw_state {
            self
        } else {
            Renderer {
                system: Glium2dView { draw_state, ..self.flush().system },
                ..self.flush()
            }
        }
    }

    /// Makes room for `n` more vertices: if they do not fit behind what is
    /// buffered, that is drawn first.
    pub open spec fn reserve(self, n: nat) -> Renderer {
        if self.system.buffered.len() + n > self.system.capacity {
            self.flush()
        } else {
            self
        }
    }

    /// Appends vertices to the buffer.
    pub open spec fn append(self, vertices: Seq<PlainVertex>) -> Renderer {
        Renderer {
            system: Glium2dView { buffered: self.system.buffered + vertices, ..self.system },
            ..self
        }
    }

    /// Issues a command.
    pub open spec fn issue(self, command: CommandView) -> Renderer {
        Renderer { issued: self.issued.push(command), ..self }
    }

    /// A list of colored triangles: adopt the draw state, make room, append.
    pub open spec fn tri_list(self, draw_state: DrawState, color: Color, vertices: Seq<u32>)
        -> Renderer {
        let vertices = spec_plain_vertices(color, vertices);
        self.adopt(draw_state).reserve(vertices.len()).append(vertices)
    }

    /// A list of textured triangles: what is buffered is drawn first, then
    /// the triangles are, in a command of their own.
    pub open spec fn tri_list_uv(
        self,
        draw_state: DrawState,
        color: Color,
        texture: TextureView,
        vertices: Seq<u32>,
        texture_coords: Seq<u32>,
    ) -> Renderer {
        self.flush().issue(
            CommandView::DrawTextured {
                vertices: spec_textured_vertices(vertices, texture_coords),
                color,
                texture,
                wrap: SamplerWrapFunction::Clamp,
                params: spec_convert_draw_state(draw_state),
            },
        )
    }

    /// A clear of the color: what is buffered is drawn first.
    pub open spec fn clear_color(self, color: Color) -> Renderer {
        self.flush().issue(CommandView::ClearColor { color })
    }

    /// A clear of the stencil buffer. It leaves the batch alone.
    pub open spec fn clear_stencil(self, value: u8) -> Renderer {
        self.issue(CommandView::ClearStencil { value: value as i32 })
    }

    /// One drawing operation.
    pub open spec fn apply(self, op: DrawOpView) -> Renderer {
        match op {
            DrawOpView::ClearColor { color } => self.clear_color(color),
            DrawOpView::ClearStencil { value } => self.clear_stencil(value),
            DrawOpView::TriList { draw_state, color, vertices } => self.tri_list(
                draw_state,
                color,
                vertices,
            ),
            DrawOpView::TriListUv { draw_state, color, texture, vertices, texture_coords } => {
                self.tri_list_uv(draw_state, color, texture, vertices, texture_coords)
            },
        }
    }

    /// The drawing operations of a frame, in order.
    pub open spec fn run(self, ops: Seq<DrawOpView>) -> Renderer
        decreases ops.len(),
    {
        if ops.len() == 0 {
            self
        } else {
            self.run(ops.drop_last()).apply(ops.last())
        }
    }

    /// A whole frame: its drawing operations, and the flush that ends it.
    pub open spec fn draw(self, ops: Seq<DrawOpView>) -> Renderer {
        self.run(ops).flush()
    }
}

impl<'t> View for Frame<'t> {
    type V = Seq<CommandView>;

    closed spec fn view(&self) -> Seq<CommandView> {
        self.commands@.map_values(|c: Command<'t>| c@)
    }
}

impl<'t> Frame<'t> {
    /// A surface that nothing was issued to.
    pub fn new() -> (res: Frame<'t>)
        ensures
            res@ == Seq::<CommandView>::empty(),
    {
        let res = Frame { commands: Vec::new() };
        assert(res@ =~= Seq::<CommandView>::empty());
        res
    }

    /// The commands issued so far, oldest first.
    pub fn commands(&self) -> (res: &Vec<Command<'t>>)
        ensures
            res@.map_values(|c: Command<'t>| c@) == self@,
    {
        &self.commands
    }

    /// Takes the commands issued so far off the surface, oldest first.
    pub fn take_commands(&mut self) -> (res: Vec<Command<'t>>)
        ensures
            res@.map_values(|c: Command<'t>| c@) == old(self)@,
            final(self)@ == Seq::<CommandView>::empty(),
    {
        let mut res: Vec<Command<'t>> = Vec::new();
        core::mem::swap(&mut res, &mut self.commands);
        assert(self@ =~= Seq::<CommandView>::empty());
        res
    }

    fn issue(&mut self, command: Command<'t>)
        ensures
            final(self)@ == old(self)@.push(command@),
    {
        self.commands.push(command);
        assert(self@ =~= old(self)@.push(command@));
    }
}

impl View for Glium2d {
    type V = Glium2dView;

    closed spec fn view(&self) -> Glium2dView {
        Glium2dView {
            capacity: self.plain_capacity as nat,
            textured_capacity: self.textured_capacity as nat,
            draw_state: self.colored_draw_state,
            buffered: self.plain_buffer@,
            shader_texture: self.shader_texture@,
            shader_color: self.shader_color@,
        }
    }
}

impl Glium2d {
    /// Creates a new `Glium2d` for an OpenGL version, with the shaders that
    /// come with the library and buffers of the size that the drawing API
    /// works with. There is none for a version that gets no shaders.
    pub fn new(opengl: OpenGL) -> (res: Option<Glium2d>)
        ensures
            res is Some == spec_supported(opengl),
            res matches Some(system) ==> exists|sources: ShaderSources|
                system@ == #[trigger] spec_new(opengl, sources, (CHUNKS * 1023) as nat, 1023),
            res matches Some(system) ==> system@.well_formed(),
    {
        let sources = bundled_sources();
        let count = back_end_max_vertex_count();
        let res = Glium2d::with_shaders(opengl, &sources, CHUNKS * count, count);
        proof {
            if res is Some {
                assert(res.unwrap()@ == spec_new(opengl, sources, (CHUNKS * 1023) as nat, 1023));
            }
        }
        res
    }

    /// Creates a new `Glium2d` for an OpenGL version from the given shader
    /// sources, with buffers that have room for the given numbers of
    /// vertices. Nothing is buffered, and the remembered draw state is the
    /// default one.
    pub fn with_shaders(
        opengl: OpenGL,
        sources: &ShaderSources,
        plain_capacity: usize,
        textured_capacity: usize,
    ) -> (res: Option<Glium2d>)
        ensures
            res is Some == spec_supported(opengl),
            res matches Some(system) ==> system@ == spec_new(
                opengl,
                *sources,
                plain_capacity as nat,
                textured_capacity as nat,
            ),
            res matches Some(system) ==> system@.well_formed(),
    {
        let shader_texture = match pick_program(
            opengl,
            sources.textured_vertex_120.as_slice(),
            sources.textured_vertex_150.as_slice(),
            sources.textured_fragment_120.as_slice(),
            sources.textured_fragment_150.as_slice(),
        ) {
            Some(program) => program,
            None => {
                return None;
            },
        };
        let shader_color = match pick_program(
            opengl,
            sources.colored_vertex_120.as_slice(),
            sources.colored_vertex_150.as_slice(),
            sources.colored_fragment_120.as_slice(),
            sources.colored_fragment_150.as_slice(),
        ) {
            Some(program) => program,
            None => {
                return None;
            },
        };
        Some(
            Glium2d {
                colored_draw_state: DrawState::default(),
                plain_buffer: Vec::new(),
                plain_capacity,
                textured_capacity,
                shader_texture,
                shader_color,
            },
        )
    }

    /// The sources of the program for colored rendering.
    pub fn shader_color(&self) -> (res: &ProgramSource)
        ensures
            res@ == self@.shader_color,
    {
        &self.shader_color
    }

    /// The sources of the program for textured rendering.
    pub fn shader_texture(&self) -> (res: &ProgramSource)
        ensures
            res@ == self@.shader_texture,
    {
        &self.shader_texture
    }

    /// The offset in vertices for colored rendering: the number of vertices
    /// that wait in the buffer.
    pub fn colored_offset(&self) -> (res: usize)
        ensures
            res == self@.buffered.len(),
    {
        self.plain_buffer.len()
    }

    /// The current draw state for colored rendering.
    pub fn colored_draw_state(&self) -> (res: DrawState)
        ensures
            res == self@.draw_state,
    {
        self.colored_draw_state
    }

    /// The number of vertices that the plain buffer has room for.
    pub fn capacity(&self) -> (res: usize)
        ensures
            res == self@.capacity,
    {
        self.plain_capacity
    }

    /// The number of vertices that one textured draw can take.
    pub fn textured_capacity(&self) -> (res: usize)
        ensures
            res == self@.textured_capacity,
    {
        self.textured_capacity
    }

    /// Renders 2D graphics: carries out the drawing operations of a frame in
    /// order, then draws what is still buffered.
    pub fn draw<'t>(&mut self, target: &mut Frame<'t>, ops: &Vec<DrawOp<'t>>)
        requires
            forall|i: int| 0 <= i < ops@.len() ==> (#[trigger] ops@[i])@.fits(old(self)@),
        ensures
            (Renderer { system: final(self)@, issued: final(target)@ }) == (Renderer {
                system: old(self)@,
                issued: old(target)@,
            }).draw(spec_ops(ops@)),
            final(self)@.well_formed(),
            final(self)@.buffered.len() == 0,
    {
        let ghost start = Renderer { system: self@, issued: target@ };
        let ghost end_system = *final(self);
        let ghost end_target = *final(target);
        let n = ops.len();
        let mut g = GliumGraphics::new(self, target);
        let mut i: usize = 0;
        proof {
            assert(spec_ops(ops@).take(0) =~= Seq::<DrawOpView>::empty());
        }
        while i < n
            invariant
                0 <= i <= n,
                n == ops@.len(),
                g@ == start.run(spec_ops(ops@).take(i as int)),
                g@.system.capacity == start.system.capacity,
                g@.system.textured_capacity == start.system.textured_capacity,
                forall|k: int| 0 <= k < ops@.len() ==> (#[trigger] ops@[k])@.fits(start.system),
                *final(g.system) == end_system,
                *final(g.surface) == end_target,
            decreases n - i,
        {
            proof {
                let all = spec_ops(ops@);
                assert(all.take(i + 1).drop_last() =~= all.take(i as int));
                assert(all.take(i + 1).last() == ops@[i as int]@);
                assert(ops@[i as int]@.fits(start.system));
            }
            g.apply(&ops[i]);
            i = i + 1;
        }
        proof {
            assert(spec_ops(ops@).take(n as int) =~= spec_ops(ops@));
        }
        g.flush_colored();
    }
}

impl<'d, 's, 't> View for GliumGraphics<'d, 's, 't> {
    type V = Renderer;

    open spec fn view(&self) -> Renderer {
        Renderer { system: (*self.system)@, issued: (*self.surface)@ }
    }
}

impl<'d, 's, 't> GliumGraphics<'d, 's, 't> {
    /// Creates a new graphics object.
    pub fn new(system: &'d mut Glium2d, surface: &'s mut Frame<'t>) -> (g: GliumGraphics<
        'd,
        's,
        't,
    >)
        ensures
            g@ == (Renderer { system: old(system)@, issued: old(surface)@ }),
            *final(g.system) == *final(system),
            *final(g.surface) == *final(surface),
    {
        GliumGraphics { system, surface }
    }

    /// Draws the buffered colored triangles, if there are any, with the
    /// remembered draw state, and empties the buffer. The owner of the
    /// renderer calls this after the last drawing operation of a frame: what
    /// is still buffered then is drawn by no one else.
    pub fn flush_colored(&mut self)
        ensures
            final(self)@ == old(self)@.flush(),
            final(self)@.system.buffered.len() == 0,
            final(self)@.system.well_formed(),
            *final(final(self).system) == *final(old(self).system),
            *final(final(self).surface) == *final(old(self).surface),
    {
        if self.system.plain_buffer.len() > 0 {
            let params = convert_draw_state(&self.system.colored_draw_state);
            let mut vertices: Vec<PlainVertex> = Vec::new();
            core::mem::swap(&mut vertices, &mut self.system.plain_buffer);
            self.surface.issue(Command::DrawColored { vertices, params });
            assert(self@.system =~= old(self)@.flush().system);
        }
    }

    /// Clears background with a color. What is buffered is drawn first, so
    /// that the clear comes after everything issued before it.
    pub fn clear_color(&mut self, color: Color)
        ensures
            final(self)@ == old(self)@.clear_color(color),
            final(self)@.system.well_formed(),
            *final(final(self).system) == *final(old(self).system),
            *final(final(self).surface) == *final(old(self).surface),
    {
        self.flush_colored();
        self.surface.issue(Command::ClearColor { color });
    }

    /// Clears the stencil buffer.
    pub fn clear_stencil(&mut self, value: u8)
        ensures
            final(self)@ == old(self)@.clear_stencil(value),
            *final(final(self).system) == *final(old(self).system),
            *final(final(self).surface) == *final(old(self).surface),
    {
        self.surface.issue(Command::ClearStencil { value: value as i32 });
    }

    /// Renders list of 2d triangles.
    pub fn tri_list(&mut self, draw_state: &DrawState, color: &Color, vertices: &[u32])
        requires
            vertices@.len() / 2 <= old(self)@.system.capacity,
        ensures
            final(self)@ == old(self)@.tri_list(*draw_state, *color, vertices@),
            final(self)@.system.well_formed(),
            *final(final(self).system) == *final(old(self).system),
            *final(final(self).surface) == *final(old(self).surface),
    {
        // Flush when draw state changes.
        if self.system.colored_draw_state != *draw_state {
            self.flush_colored();
            self.system.colored_draw_state = *draw_state;
        }
        let n = vertices.len() / 2;
        let offset = self.system.plain_buffer.len();
        if offset > self.system.plain_capacity || n > self.system.plain_capacity - offset {
            self.flush_colored();
        }
        let ghost ready = self@;
        let ghost new_vertices = spec_plain_vertices(*color, vertices@);
        assert(ready == old(self)@.adopt(*draw_state).reserve(new_vertices.len()));
        let mut i: usize = 0;
        while i < n
            invariant
                0 <= i <= n,
                n == vertices@.len() / 2,
                vertices@.len() <= usize::MAX,
                new_vertices == spec_plain_vertices(*color, vertices@),
                self@.issued == ready.issued,
                self@.system == (Glium2dView {
                    buffered: ready.system.buffered + new_vertices.take(i as int),
                    ..ready.system
                }),
                ready.system.buffered.len() + n <= ready.system.capacity,
                *final(self.system) == *final(old(self).system),
                *final(self.surface) == *final(old(self).surface),
            decreases n - i,
        {
            let vertex = PlainVertex { color: *color, x: vertices[2 * i], y: vertices[2 * i + 1] };
            self.system.plain_buffer.push(vertex);
            proof {
                assert(new_vertices.take(i + 1) =~= new_vertices.take(i as int).push(vertex));
                assert(self@.system.buffered =~= ready.system.buffered + new_vertices.take(i + 1));
            }
            i = i + 1;
        }
        proof {
            assert(new_vertices.take(n as int) =~= new_vertices);
        }
    }

    /// Renders list of 2d triangles.
    ///
    /// A texture coordinate is assigned per vertex.
    /// The texture coordinates refers to the current texture.
    pub fn tri_list_uv(
        &mut self,
        draw_state: &DrawState,
        color: &Color,
        texture: &'t Texture,
        vertices: &[u32],
        texture_coords: &[u32],
    )
        requires
            spec_textured_len(vertices@, texture_coords@) <= old(self)@.system.textured_capacity,
        ensures
            final(self)@ == old(self)@.tri_list_uv(
                *draw_state,
                *color,
                texture@,
                vertices@,
                texture_coords@,
            ),
            final(self)@.system.well_formed(),
            *final(final(self).system) == *final(old(self).system),
            *final(final(self).surface) == *final(old(self).surface),
    {
        self.flush_colored();
        let len = if vertices.len() <= texture_coords.len() {
            vertices.len() / 2
        } else {
            texture_coords.len() / 2
        };
        let ghost all = spec_textured_vertices(vertices@, texture_coords@);
        let mut textured: Vec<TexturedVertex> = Vec::new();
        let mut i: usize = 0;
        while i < len
            invariant
                0 <= i <= len,
                len == spec_textured_len(vertices@, texture_coords@),
                vertices@.len() <= usize::MAX,
                texture_coords@.len() <= usize::MAX,
                all == spec_textured_vertices(vertices@, texture_coords@),
                textured@ == all.take(i as int),
            decreases len - i,
        {
            let vertex = TexturedVertex {
                x: vertices[2 * i],
                y: vertices[2 * i + 1],
                u: texture_coords[2 * i],
                v: texture_coords[2 * i + 1],
            };
            textured.push(vertex);
            proof {
                assert(all.take(i + 1) =~= all.take(i as int).push(vertex));
            }
            i = i + 1;
        }
        proof {
            assert(all.take(len as int) =~= all);
        }
        let params = convert_draw_state(draw_state);
        self.surface.issue(
            Command::DrawTextured {
                vertices: textured,
                color: *color,
                texture,
                wrap: SamplerWrapFunction::Clamp,
                params,
            },
        );
    }

    /// Carries out one drawing operation.
    pub fn apply(&mut self, op: &DrawOp<'t>)
        requires
            op@.fits(old(self)@.system),
        ensures
            final(self)@ == old(self)@.apply(op@),
            old(self)@.system.well_formed() ==> final(self)@.system.well_formed(),
            final(self)@.system.capacity == old(self)@.system.capacity,
            final(self)@.system.textured_capacity == old(self)@.system.textured_capacity,
            *final(final(self).system) == *final(old(self).system),
            *final(final(self).surface) == *final(old(self).surface),
    {
        match op {
            DrawOp::ClearColor { color } => self.clear_color(*color),
            DrawOp::ClearStencil { value } => self.clear_stencil(*value),
            DrawOp::TriList { draw_state, color, vertices } => self.tri_list(
                draw_state,
                color,
                vertices.as_slice(),
            ),
            DrawOp::TriListUv { draw_state, color, texture, vertices, texture_coords } => {
                self.tri_list_uv(
                    draw_state,
                    color,
                    *texture,
                    vertices.as_slice(),
                    texture_coords.as_slice(),
                )
            },
        }
    }
}

} // verus!
