//! Shader selection: which source of a shader an OpenGL version gets.
//!
//! Every shader comes in two dialects, GLSL 1.20 and GLSL 1.50 core. A
//! context gets the newest dialect that it understands; OpenGL 3.2 and later
//! no longer understand dialects older than 1.50.

use vstd::prelude::*;

verus! {

/// Versions of OpenGL.
#[allow(non_camel_case_types)]
#[derive(Clone, Copy, PartialEq, Eq, Debug, Structural)]
pub enum OpenGL {
    V2_0,
    V2_1,
    V3_0,
    V3_1,
    V3_2,
    V3_3,
    V4_0,
    V4_1,
    V4_2,
    V4_3,
    V4_4,
    V4_5,
}

/// The sources of the shaders of 2D rendering, in both dialects.
#[derive(Clone, Debug)]
pub struct ShaderSources {
    pub colored_vertex_120: Vec<u8>,
    pub colored_vertex_150: Vec<u8>,
    pub colored_fragment_120: Vec<u8>,
    pub colored_fragment_150: Vec<u8>,
    pub textured_vertex_120: Vec<u8>,
    pub textured_vertex_150: Vec<u8>,
    pub textured_fragment_120: Vec<u8>,
    pub textured_fragment_150: Vec<u8>,
}

/// The sources of one shader program: what the GPU is asked to compile.
#[derive(Clone, Debug)]
pub struct ProgramSource {
    pub vertex: Vec<u8>,
    pub fragment: Vec<u8>,
}

/// The sources of a shader program as a value.
pub struct ProgramSourceView {
    pub vertex: Seq<u8>,
    pub fragment: Seq<u8>,
}

impl View for ProgramSource {
    type V = ProgramSourceView;

    open spec fn view(&self) -> ProgramSourceView {
        ProgramSourceView { vertex: self.vertex@, fragment: self.fragment@ }
    }
}

/// Major and minor number of an OpenGL version.
pub open spec fn spec_major_minor(opengl: OpenGL) -> (isize, isize) {
    match opengl {
        OpenGL::V2_0 => (2, 0),
        OpenGL::V2_1 => (2, 1),
        OpenGL::V3_0 => (3, 0),
        OpenGL::V3_1 => (3, 1),
        OpenGL::V3_2 => (3, 2),
        OpenGL::V3_3 => (3, 3),
        OpenGL::V4_0 => (4, 0),
        OpenGL::V4_1 => (4, 1),
        OpenGL::V4_2 => (4, 2),
        OpenGL::V4_3 => (4, 3),
        OpenGL::V4_4 => (4, 4),
        OpenGL::V4_5 => (4, 5),
    }
}

/// Whether there is an OpenGL version with these numbers.
pub open spec fn spec_is_opengl(major: isize, minor: isize) -> bool {
    ||| major == 2 && 0 <= minor <= 1
    ||| major == 3 && 0 <= minor <= 3
    ||| major == 4 && 0 <= minor <= 5
}

/// The source that the OpenGL version with these numbers gets of a shader
/// that exists in the dialects 1.20 and 1.50: the 1.50 source from OpenGL
/// 3.2 on, the 1.20 source from OpenGL 2.1 on, none for OpenGL 2.0 or for
/// numbers that are no version.
pub open spec fn spec_pick(major: isize, minor: isize, glsl_120: Seq<u8>, glsl_150: Seq<u8>)
    -> Option<Seq<u8>> {
    if !spec_is_opengl(major, minor) {
        None
    } else if major == 4 || (major == 3 && minor >= 2) {
        Some(glsl_150)
    } else if major == 3 || minor == 1 {
        Some(glsl_120)
    } else {
        None
    }
}

/// The source that an OpenGL version gets of a shader.
pub open spec fn spec_pick_shader(opengl: OpenGL, glsl_120: Seq<u8>, glsl_150: Seq<u8>) -> Option<
    Seq<u8>,
> {
    spec_pick(spec_major_minor(opengl).0, spec_major_minor(opengl).1, glsl_120, glsl_150)
}

/// Whether an OpenGL version gets shaders at all: every one but 2.0 does.
pub open spec fn spec_supported(opengl: OpenGL) -> bool {
    opengl != OpenGL::V2_0
}

/// Picks a shader the way `shader_version` does. The version is parsed from
/// its numbers by the `FromStr` impl of `shader_version::OpenGL`, which
/// knows the twelve versions from 2.0 to 4.5; `OpenGL::to_glsl` gives its
/// dialect; `Shaders::get` then gives, of the sources set for 1.20 and 1.50,
/// the newest that is not newer than that dialect, and from dialect 1.50 on
/// none that is older than 1.50.
#[verifier::external_body]
fn pick(major: isize, minor: isize, glsl_120: &[u8], glsl_150: &[u8]) -> (res: Option<Vec<u8>>)
    ensures
        match res {
            Some(source) => spec_pick(major, minor, glsl_120@, glsl_150@) == Some(source@),
            None => spec_pick(major, minor, glsl_120@, glsl_150@) is None,
        },
{
    let opengl: shader_version::OpenGL = format!("{}.{}", major, minor).parse().ok()?;
    let mut shaders = shader_version::Shaders::new();
    shaders.set(shader_version::glsl::GLSL::V1_20, glsl_120);
    shaders.set(shader_version::glsl::GLSL::V1_50, glsl_150);
    shaders.get(opengl.to_glsl()).map(<[u8]>::to_vec)
}

/// Reads the shader sources that `shaders_graphics2d` ships for colored and
/// for textured rendering.
#[verifier::external_body]
pub(crate) fn bundled_sources() -> (res: ShaderSources) {
    ShaderSources {
        colored_vertex_120: shaders_graphics2d::colored::VERTEX_GLSL_120.to_vec(),
        colored_vertex_150: shaders_graphics2d::colored::VERTEX_GLSL_150_CORE.to_vec(),
        colored_fragment_120: shaders_graphics2d::colored::FRAGMENT_GLSL_120.to_vec(),
        colored_fragment_150: shaders_graphics2d::colored::FRAGMENT_GLSL_150_CORE.to_vec(),
        textured_vertex_120: shaders_graphics2d::textured::VERTEX_GLSL_120.to_vec(),
        textured_vertex_150: shaders_graphics2d::textured::VERTEX_GLSL_150_CORE.to_vec(),
        textured_fragment_120: shaders_graphics2d::textured::FRAGMENT_GLSL_120.to_vec(),
        textured_fragment_150: shaders_graphics2d::textured::FRAGMENT_GLSL_150_CORE.to_vec(),
    }
}

impl OpenGL {
    /// Major and minor number of the version.
    pub fn get_major_minor(&self) -> (res: (isize, isize))
        ensures
            res == spec_major_minor(*self),
            spec_is_opengl(res.0, res.1),
    {
        match *self {
            OpenGL::V2_0 => (2, 0),
            OpenGL::V2_1 => (2, 1),
            OpenGL::V3_0 => (3, 0),
            OpenGL::V3_1 => (3, 1),
            OpenGL::V3_2 => (3, 2),
            OpenGL::V3_3 => (3, 3),
            OpenGL::V4_0 => (4, 0),
            OpenGL::V4_1 => (4, 1),
            OpenGL::V4_2 => (4, 2),
            OpenGL::V4_3 => (4, 3),
            OpenGL::V4_4 => (4, 4),
            OpenGL::V4_5 => (4, 5),
        }
    }

    /// The version with the given numbers, if there is one.
    pub fn from_major_minor(major: isize, minor: isize) -> (res: Option<OpenGL>)
        ensures
            res is Some == spec_is_opengl(major, minor),
            res matches Some(opengl) ==> spec_major_minor(opengl) == (major, minor),
    {
        if major == 2 && minor == 0 {
            Some(OpenGL::V2_0)
        } else if major == 2 && minor == 1 {
            Some(OpenGL::V2_1)
        } else if major == 3 && minor == 0 {
            Some(OpenGL::V3_0)
        } else if major == 3 && minor == 1 {
            Some(OpenGL::V3_1)
        } else if major == 3 && minor == 2 {
            Some(OpenGL::V3_2)
        } else if major == 3 && minor == 3 {
            Some(OpenGL::V3_3)
        } else if major == 4 && minor == 0 {
            Some(OpenGL::V4_0)
        } else if major == 4 && minor == 1 {
            Some(OpenGL::V4_1)
        } else if major == 4 && minor == 2 {
            Some(OpenGL::V4_2)
        } else if major == 4 && minor == 3 {
            Some(OpenGL::V4_3)
        } else if major == 4 && minor == 4 {
            Some(OpenGL::V4_4)
        } else if major == 4 && minor == 5 {
            Some(OpenGL::V4_5)
        } else {
            None
        }
    }
}

/// The source that an OpenGL version gets of a shader that exists in the
/// dialects 1.20 and 1.50.
pub fn pick_shader(opengl: OpenGL, glsl_120: &[u8], glsl_150: &[u8]) -> (res: Option<Vec<u8>>)
    ensures
        res is Some == spec_supported(opengl),
        res matches Some(source) ==> Some(source@) == spec_pick_shader(
            opengl,
            glsl_120@,
            glsl_150@,
        ),
{
    let (major, minor) = opengl.get_major_minor();
    pick(major, minor, glsl_120, glsl_150)
}

/// The sources of a program for an OpenGL version, if it gets any.
pub fn pick_program(
    opengl: OpenGL,
    vertex_120: &[u8],
    vertex_150: &[u8],
    fragment_120: &[u8],
    fragment_150: &[u8],
) -> (res: Option<ProgramSource>)
    ensures
        res is Some == spec_supported(opengl),
        res matches Some(program) ==> {
            &&& Some(program@.vertex) == spec_pick_shader(opengl, vertex_120@, vertex_150@)
            &&& Some(program@.fragment) == spec_pick_shader(opengl, fragment_120@, fragment_150@)
        },
{
    match pick_shader(opengl, vertex_120, vertex_150) {
        Some(vertex) => match pick_shader(opengl, fragment_120, fragment_150) {
            Some(fragment) => Some(ProgramSource { vertex, fragment }),
            None => None,
        },
        None => None,
    }
}

/// A newer OpenGL version never gets an older dialect: from 3.2 on every
/// version gets the 1.50 source, and every supported version before it the
/// 1.20 source.
pub proof fn lemma_pick_by_version(opengl: OpenGL, glsl_120: Seq<u8>, glsl_150: Seq<u8>)
    ensures
        spec_pick_shader(opengl, glsl_120, glsl_150) is Some == spec_supported(opengl),
        (opengl == OpenGL::V2_1 || opengl == OpenGL::V3_0 || opengl == OpenGL::V3_1)
            ==> spec_pick_shader(opengl, glsl_120, glsl_150) == Some(glsl_120),
        (spec_major_minor(opengl).0 == 4 || opengl == OpenGL::V3_2 || opengl == OpenGL::V3_3)
            ==> spec_pick_shader(opengl, glsl_120, glsl_150) == Some(glsl_150),
{
}

} // verus!
