//! The rendering parameters of one GPU draw call, as plain values.
//!
//! The types mirror the parameter vocabulary of the GPU binding: blending
//! functions and factors, per-winding stencil slots, depth test, color mask,
//! polygon mode, culling and scissor. Real-valued quantities (the constant
//! blend color, line width, point size) are carried as the bit patterns of
//! IEEE-754 single-precision numbers, so that equality on states is exact and
//! no arithmetic is ever done on them here.

use vstd::prelude::*;

verus! {

/// The bit pattern of the single-precision number `0.0`.
pub const ZERO_BITS: u32 = 0;

/// The bit pattern of the single-precision number `1.0`.
pub const ONE_BITS: u32 = 0x3F80_0000;

/// A color of four single-precision channels, each held as its bit pattern.
#[derive(Clone, Copy, PartialEq, Eq, Debug, Structural)]
pub struct Color {
    pub r: u32,
    pub g: u32,
    pub b: u32,
    pub a: u32,
}

/// A rectangle in framebuffer pixels whose origin is the bottom-left corner.
#[derive(Clone, Copy, PartialEq, Eq, Debug, Structural)]
pub struct Rect {
    pub left: u32,
    pub bottom: u32,
    pub width: u32,
    pub height: u32,
}

/// A weight applied to the source or destination value when blending.
#[derive(Clone, Copy, PartialEq, Eq, Debug, Structural)]
pub enum LinearBlendingFactor {
    Zero,
    One,
    SourceColor,
    OneMinusSourceColor,
    DestinationColor,
    OneMinusDestinationColor,
    SourceAlpha,
    SourceAlphaSaturate,
    OneMinusSourceAlpha,
    DestinationAlpha,
    OneMinusDestinationAlpha,
    ConstantColor,
    OneMinusConstantColor,
    ConstantAlpha,
    OneMinusConstantAlpha,
}

/// How a source value is combined with the value already in the framebuffer.
#[derive(Clone, Copy, PartialEq, Eq, Debug, Structural)]
pub enum BlendingFunction {
    /// The source replaces the destination: blending is off.
    AlwaysReplace,
    /// Component-wise minimum.
    Min,
    /// Component-wise maximum.
    Max,
    /// `source * src + destination * dst`.
    Addition { source: LinearBlendingFactor, destination: LinearBlendingFactor },
    /// `source * src - destination * dst`.
    Subtraction { source: LinearBlendingFactor, destination: LinearBlendingFactor },
    /// `destination * dst - source * src`.
    ReverseSubtraction { source: LinearBlendingFactor, destination: LinearBlendingFactor },
}

/// Blending of the color and of the alpha channel, with the constant color
/// that the constant factors refer to.
#[derive(Clone, Copy, PartialEq, Eq, Debug, Structural)]
pub struct Blend {
    pub color: BlendingFunction,
    pub alpha: BlendingFunction,
    pub constant_value: Color,
}

/// The test a fragment's stencil value has to pass. The mask is applied to
/// both the reference and the stored value before they are compared.
#[derive(Clone, Copy, PartialEq, Eq, Debug, Structural)]
pub enum StencilTest {
    AlwaysPass,
    AlwaysFail,
    IfLess { mask: u32 },
    IfLessOrEqual { mask: u32 },
    IfMore { mask: u32 },
    IfMoreOrEqual { mask: u32 },
    IfEqual { mask: u32 },
    IfNotEqual { mask: u32 },
}

/// What happens to the stored stencil value.
#[derive(Clone, Copy, PartialEq, Eq, Debug, Structural)]
pub enum StencilOperation {
    Keep,
    Zero,
    Replace,
    Increment,
    IncrementWrap,
    Decrement,
    DecrementWrap,
    Invert,
}

/// The stencil configuration of one screen-space winding.
#[derive(Clone, Copy, PartialEq, Eq, Debug, Structural)]
pub struct StencilSlot {
    pub test: StencilTest,
    pub reference_value: i32,
    pub write_mask: u32,
    pub fail_operation: StencilOperation,
    pub pass_depth_fail_operation: StencilOperation,
    pub depth_pass_operation: StencilOperation,
}

/// Stencil parameters, addressed by the winding of the triangle on screen.
#[derive(Clone, Copy, PartialEq, Eq, Debug, Structural)]
pub struct Stencil {
    pub clockwise: StencilSlot,
    pub counter_clockwise: StencilSlot,
}

/// The comparison a fragment's depth has to pass.
#[derive(Clone, Copy, PartialEq, Eq, Debug, Structural)]
pub enum DepthTest {
    /// Never passes.
    Ignore,
    /// Always passes.
    Overwrite,
    IfEqual,
    IfNotEqual,
    IfMore,
    IfMoreOrEqual,
    IfLess,
    IfLessOrEqual,
}

/// Depth test and whether passing fragments write their depth.
#[derive(Clone, Copy, PartialEq, Eq, Debug, Structural)]
pub struct Depth {
    pub test: DepthTest,
    pub write: bool,
}

/// Which triangles are discarded by their winding on screen.
#[derive(Clone, Copy, PartialEq, Eq, Debug, Structural)]
pub enum BackfaceCullingMode {
    CullingDisabled,
    CullCounterClockwise,
    CullClockwise,
}

/// How polygons are rasterized.
#[derive(Clone, Copy, PartialEq, Eq, Debug, Structural)]
pub enum PolygonMode {
    Point,
    Line,
    Fill,
}

/// Which channels of the framebuffer a draw call may write.
#[derive(Clone, Copy, PartialEq, Eq, Debug, Structural)]
pub struct ChannelMask {
    pub red: bool,
    pub green: bool,
    pub blue: bool,
    pub alpha: bool,
}

/// How texture coordinates outside the unit square are brought back into it.
#[derive(Clone, Copy, PartialEq, Eq, Debug, Structural)]
pub enum SamplerWrapFunction {
    Repeat,
    Mirror,
    Clamp,
    BorderClamp,
}

/// Everything that parameterizes one draw call.
#[derive(Clone, Copy, PartialEq, Eq, Debug, Structural)]
pub struct DrawParameters {
    pub depth: Depth,
    pub stencil: Stencil,
    pub blend: Blend,
    pub color_mask: ChannelMask,
    pub line_width: Option<u32>,
    pub point_size: Option<u32>,
    pub backface_culling: BackfaceCullingMode,
    pub polygon_mode: PolygonMode,
    pub multisampling: bool,
    pub scissor: Option<Rect>,
}

impl Color {
    /// The color whose four channels are `0.0`.
    pub open spec fn spec_zero() -> Color {
        Color { r: ZERO_BITS, g: ZERO_BITS, b: ZERO_BITS, a: ZERO_BITS }
    }

    /// The color whose four channels are `1.0`.
    pub open spec fn spec_one() -> Color {
        Color { r: ONE_BITS, g: ONE_BITS, b: ONE_BITS, a: ONE_BITS }
    }

    #[verifier::when_used_as_spec(spec_zero)]
    pub fn zero() -> (c: Color)
        ensures
            c == Color::spec_zero(),
    {
        Color { r: ZERO_BITS, g: ZERO_BITS, b: ZERO_BITS, a: ZERO_BITS }
    }

    #[verifier::when_used_as_spec(spec_one)]
    pub fn one() -> (c: Color)
        ensures
            c == Color::spec_one(),
    {
        Color { r: ONE_BITS, g: ONE_BITS, b: ONE_BITS, a: ONE_BITS }
    }
}

impl StencilTest {
    /// The read mask attached to the test, if it compares at all.
    pub open spec fn mask(self) -> Option<u32> {
        match self {
            StencilTest::AlwaysPass => None,
            StencilTest::AlwaysFail => None,
            StencilTest::IfLess { mask } => Some(mask),
            StencilTest::IfLessOrEqual { mask } => Some(mask),
            StencilTest::IfMore { mask } => Some(mask),
            StencilTest::IfMoreOrEqual { mask } => Some(mask),
            StencilTest::IfEqual { mask } => Some(mask),
            StencilTest::IfNotEqual { mask } => Some(mask),
        }
    }
}

impl StencilSlot {
    /// The slot as the hardware has it when nothing was asked for: every
    /// fragment passes and the stored value is kept.
    pub open spec fn spec_default() -> StencilSlot {
        StencilSlot {
            test: StencilTest::AlwaysPass,
            reference_value: 0,
            write_mask: 0xffff_ffff,
            fail_operation: StencilOperation::Keep,
            pass_depth_fail_operation: StencilOperation::Keep,
            depth_pass_operation: StencilOperation::Keep,
        }
    }

    /// The slot fits an 8-bit stencil buffer: reference and masks are at most
    /// 255, or the slot is the untouched default.
    pub open spec fn well_formed(self) -> bool {
        ||| self == StencilSlot::spec_default()
        ||| {
            &&& 0 <= self.reference_value <= 255
            &&& self.write_mask <= 255
            &&& match self.test.mask() {
                Some(m) => m <= 255,
                None => true,
            }
        }
    }
}

impl Stencil {
    pub open spec fn spec_default() -> Stencil {
        Stencil {
            clockwise: StencilSlot::spec_default(),
            counter_clockwise: StencilSlot::spec_default(),
        }
    }

    pub open spec fn well_formed(self) -> bool {
        self.clockwise.well_formed() && self.counter_clockwise.well_formed()
    }
}

impl Default for Stencil {
    /// No stencil testing on either winding.
    fn default() -> (s: Stencil)
        ensures
            s == Stencil::spec_default(),
    {
        let slot = StencilSlot {
            test: StencilTest::AlwaysPass,
            reference_value: 0,
            write_mask: 0xffff_ffff,
            fail_operation: StencilOperation::Keep,
            pass_depth_fail_operation: StencilOperation::Keep,
            depth_pass_operation: StencilOperation::Keep,
        };
        Stencil { clockwise: slot, counter_clockwise: slot }
    }
}

impl Blend {
    pub open spec fn spec_default() -> Blend {
        Blend {
            color: BlendingFunction::AlwaysReplace,
            alpha: BlendingFunction::AlwaysReplace,
            constant_value: Color::spec_one(),
        }
    }
}

impl Default for Blend {
    /// Blending off: the source replaces the destination.
    fn default() -> (b: Blend)
        ensures
            b == Blend::spec_default(),
    {
        Blend {
            color: BlendingFunction::AlwaysReplace,
            alpha: BlendingFunction::AlwaysReplace,
            constant_value: Color::one(),
        }
    }
}

impl Depth {
    pub open spec fn spec_default() -> Depth {
        Depth { test: DepthTest::Overwrite, write: false }
    }
}

impl Default for Depth {
    /// No depth test and no depth write.
    fn default() -> (d: Depth)
        ensures
            d == Depth::spec_default(),
    {
        Depth { test: DepthTest::Overwrite, write: false }
    }
}

impl ChannelMask {
    pub open spec fn spec_all() -> ChannelMask {
        ChannelMask { red: true, green: true, blue: true, alpha: true }
    }
}

impl DrawParameters {
    pub open spec fn spec_default() -> DrawParameters {
        DrawParameters {
            depth: Depth::spec_default(),
            stencil: Stencil::spec_default(),
            blend: Blend::spec_default(),
            color_mask: ChannelMask::spec_all(),
            line_width: None,
            point_size: None,
            backface_culling: BackfaceCullingMode::CullingDisabled,
            polygon_mode: PolygonMode::Fill,
            multisampling: true,
            scissor: None,
        }
    }

    /// The parameters are structurally valid: a line width is given only for
    /// line rasterization, a point size only for point rasterization, and both
    /// stencil slots fit the stencil buffer.
    pub open spec fn well_formed(self) -> bool {
        &&& self.line_width is Some ==> self.polygon_mode == PolygonMode::Line
        &&& self.point_size is Some ==> self.polygon_mode == PolygonMode::Point
        &&& self.stencil.well_formed()
    }
}

impl Default for DrawParameters {
    /// The parameters of a draw call for which nothing was asked: filled
    /// polygons, no tests, no blending, every channel written.
    fn default() -> (p: DrawParameters)
        ensures
            p == DrawParameters::spec_default(),
            p.well_formed(),
    {
        DrawParameters {
            depth: Depth::default(),
            stencil: Stencil::default(),
            blend: Blend::default(),
            color_mask: ChannelMask { red: true, green: true, blue: true, alpha: true },
            line_width: None,
            point_size: None,
            backface_culling: BackfaceCullingMode::CullingDisabled,
            polygon_mode: PolygonMode::Fill,
            multisampling: true,
            scissor: None,
        }
    }
}

} // verus!
