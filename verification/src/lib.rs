//! A 2D graphics back-end: a translator from a declarative draw state to the
//! parameters of GPU draw calls, a renderer that batches colored triangles,
//! textures, and a glyph cache.
//!
//! The library computes; it does not talk to a GPU. What has to reach one
//! leaves the library as plain values: the commands of a frame, the pixels
//! of a texture, the sources of a shader program.

pub use back_end::{Command, DrawOp, Frame, Glium2d, GliumGraphics, PlainVertex, TexturedVertex};
pub use draw_parameters::{Color, DrawParameters};
pub use glium_texture::{Flip, RgbaImage, Texture, TextureSettings, Wrap};
pub use glyph_cache::{Character, Error, GlyphCache, RasterizedGlyph};
pub use shader::OpenGL;
pub use state::DrawState;

pub mod back_end;
pub mod batching;
pub mod draw_parameters;
pub mod draw_state;
pub mod glium_texture;
pub mod glyph_cache;
pub mod shader;
pub mod state;
