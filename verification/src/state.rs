//! The declarative draw state: what a caller asks of one draw call.
//!
//! Every axis is independent and optional. An absent axis means "leave the
//! hardware default in place"; no combination of fields is an error.

use vstd::prelude::*;
use crate::draw_parameters::Color;

verus! {

/// Channel bit of the color mask: red.
pub const RED: u8 = 0x1;

/// Channel bit of the color mask: green.
pub const GREEN: u8 = 0x2;

/// Channel bit of the color mask: blue.
pub const BLUE: u8 = 0x4;

/// Channel bit of the color mask: alpha.
pub const ALPHA: u8 = 0x8;

/// Every channel bit of the color mask.
pub const MASK_ALL: u8 = 0xF;

/// The vertex order that makes a triangle face the viewer.
#[derive(Clone, Copy, PartialEq, Eq, Debug, Structural)]
pub enum FrontFace {
    Clockwise,
    CounterClockwise,
}

/// Which logical face is discarded.
#[derive(Clone, Copy, PartialEq, Eq, Debug, Structural)]
pub enum CullFace {
    Nothing,
    Front,
    Back,
}

/// How a primitive is rasterized. A line carries its width, held as the bit
/// pattern of a single-precision number.
#[derive(Clone, Copy, PartialEq, Eq, Debug, Structural)]
pub enum RasterMethod {
    Point,
    Line(u32),
    Fill,
}

/// Rasterization of a primitive.
#[derive(Clone, Copy, PartialEq, Eq, Debug, Structural)]
pub struct Primitive {
    pub front_face: FrontFace,
    pub method: RasterMethod,
    pub cull_face: CullFace,
}

/// A comparison between a reference and a stored value.
#[derive(Clone, Copy, PartialEq, Eq, Debug, Structural)]
pub enum Comparison {
    Never,
    Less,
    LessEqual,
    Equal,
    GreaterEqual,
    Greater,
    NotEqual,
    Always,
}

/// An update of the stored stencil value.
#[derive(Clone, Copy, PartialEq, Eq, Debug, Structural)]
pub enum StencilOp {
    Keep,
    Zero,
    Replace,
    IncrementClamp,
    IncrementWrap,
    DecrementClamp,
    DecrementWrap,
    Invert,
}

/// The stencil configuration of one logical face.
#[derive(Clone, Copy, PartialEq, Eq, Debug, Structural)]
pub struct StencilSide {
    /// The test that a fragment has to pass.
    pub fun: Comparison,
    /// The reference value of the test.
    pub value: u8,
    /// Applied to reference and stored value before the comparison.
    pub mask_read: u8,
    /// Selects the bits of the stored value that an operation may change.
    pub mask_write: u8,
    /// Applied when the stencil test fails.
    pub op_fail: StencilOp,
    /// Applied when the stencil test passes and the depth test fails.
    pub op_depth_fail: StencilOp,
    /// Applied when both tests pass.
    pub op_pass: StencilOp,
}

/// Stencil configuration by logical face.
#[derive(Clone, Copy, PartialEq, Eq, Debug, Structural)]
pub struct Stencil {
    pub front: StencilSide,
    pub back: StencilSide,
}

/// Depth comparison and write enable.
#[derive(Clone, Copy, PartialEq, Eq, Debug, Structural)]
pub struct Depth {
    pub fun: Comparison,
    pub write: bool,
}

/// How weighted source and destination are combined.
#[derive(Clone, Copy, PartialEq, Eq, Debug, Structural)]
pub enum Equation {
    Add,
    Sub,
    RevSub,
    Min,
    Max,
}

/// A value that a blend factor can be taken from.
#[derive(Clone, Copy, PartialEq, Eq, Debug, Structural)]
pub enum BlendValue {
    SourceColor,
    SourceAlpha,
    DestColor,
    DestAlpha,
    ConstColor,
    ConstAlpha,
}

/// A blend factor: a constant, or a blend value taken directly (`ZeroPlus`)
/// or as its complement (`OneMinus`).
#[derive(Clone, Copy, PartialEq, Eq, Debug, Structural)]
pub enum Factor {
    Zero,
    One,
    SourceAlphaSaturated,
    ZeroPlus(BlendValue),
    OneMinus(BlendValue),
}

/// Equation and factors of one channel group.
#[derive(Clone, Copy, PartialEq, Eq, Debug, Structural)]
pub struct BlendChannel {
    pub equation: Equation,
    pub source: Factor,
    pub destination: Factor,
}

/// Blending of color and alpha, with the optional constant color.
#[derive(Clone, Copy, PartialEq, Eq, Debug, Structural)]
pub struct Blend {
    pub color: BlendChannel,
    pub alpha: BlendChannel,
    pub value: Option<Color>,
}

/// The set of channels a draw call may write, as a bit mask over [`RED`],
/// [`GREEN`], [`BLUE`] and [`ALPHA`].
#[derive(Clone, Copy, PartialEq, Eq, Debug, Structural)]
pub struct ColorMask {
    pub bits: u8,
}

/// A scissor rectangle `(x, y, w, h)` in framebuffer pixels.
#[derive(Clone, Copy, PartialEq, Eq, Debug, Structural)]
pub struct Scissor {
    pub x: u32,
    pub y: u32,
    pub w: u32,
    pub h: u32,
}

/// The draw state of one draw call.
#[derive(Clone, Copy, PartialEq, Eq, Debug, Structural)]
pub struct DrawState {
    /// Rasterization method, winding and culling.
    pub primitive: Primitive,
    /// Whether multisampling is requested.
    pub multi_sample: bool,
    /// Pixels outside of this rectangle are left untouched. Its origin is the
    /// bottom-left corner of the framebuffer.
    pub scissor: Option<Scissor>,
    /// Stencil test; `None` disables it.
    pub stencil: Option<Stencil>,
    /// Depth test; `None` disables it.
    pub depth: Option<Depth>,
    /// Blending; `None` disables it.
    pub blend: Option<Blend>,
    /// Channels that are written.
    pub color_mask: ColorMask,
}

impl BlendChannel {
    pub open spec fn spec_new(equation: Equation, source: Factor, destination: Factor)
        -> BlendChannel {
        BlendChannel { equation, source, destination }
    }

    #[verifier::when_used_as_spec(spec_new)]
    pub fn new(equation: Equation, source: Factor, destination: Factor) -> (c: BlendChannel)
        ensures
            c == BlendChannel::spec_new(equation, source, destination),
    {
        BlendChannel { equation, source, destination }
    }
}

impl Blend {
    /// Alpha blending: `color = src * src_alpha + dst * (1 - src_alpha)`,
    /// `alpha = src_alpha + dst_alpha`.
    pub open spec fn spec_alpha() -> Blend {
        Blend {
            color: BlendChannel::spec_new(
                Equation::Add,
                Factor::ZeroPlus(BlendValue::SourceAlpha),
                Factor::OneMinus(BlendValue::SourceAlpha),
            ),
            alpha: BlendChannel::spec_new(Equation::Add, Factor::One, Factor::One),
            value: Some(Color::spec_zero()),
        }
    }

    /// Additive blending: `color = src + dst`, `alpha = src_alpha + dst_alpha`.
    pub open spec fn spec_add() -> Blend {
        Blend {
            color: BlendChannel::spec_new(Equation::Add, Factor::One, Factor::One),
            alpha: BlendChannel::spec_new(Equation::Add, Factor::One, Factor::One),
            value: Some(Color::spec_zero()),
        }
    }

    /// Additive blending weighted by the source alpha:
    /// `color = src * src_alpha + dst`, `alpha = dst_alpha`.
    pub open spec fn spec_lighter() -> Blend {
        Blend {
            color: BlendChannel::spec_new(
                Equation::Add,
                Factor::ZeroPlus(BlendValue::SourceAlpha),
                Factor::One,
            ),
            alpha: BlendChannel::spec_new(Equation::Add, Factor::Zero, Factor::One),
            value: Some(Color::spec_zero()),
        }
    }

    /// Multiplication: `color = src * dst`, `alpha = src_alpha * dst_alpha`.
    pub open spec fn spec_multiply() -> Blend {
        Blend {
            color: BlendChannel::spec_new(
                Equation::Add,
                Factor::ZeroPlus(BlendValue::DestColor),
                Factor::Zero,
            ),
            alpha: BlendChannel::spec_new(
                Equation::Add,
                Factor::ZeroPlus(BlendValue::DestAlpha),
                Factor::Zero,
            ),
            value: Some(Color::spec_zero()),
        }
    }

    /// Inversion against the constant color white:
    /// `color = const * src - src * dst`, `alpha = dst_alpha`.
    pub open spec fn spec_invert() -> Blend {
        Blend {
            color: BlendChannel::spec_new(
                Equation::Sub,
                Factor::ZeroPlus(BlendValue::ConstColor),
                Factor::ZeroPlus(BlendValue::SourceColor),
            ),
            alpha: BlendChannel::spec_new(Equation::Add, Factor::Zero, Factor::One),
            value: Some(Color::spec_one()),
        }
    }

    #[verifier::when_used_as_spec(spec_alpha)]
    pub fn alpha() -> (b: Blend)
        ensures
            b == Blend::spec_alpha(),
    {
        Blend {
            color: BlendChannel::new(
                Equation::Add,
                Factor::ZeroPlus(BlendValue::SourceAlpha),
                Factor::OneMinus(BlendValue::SourceAlpha),
            ),
            alpha: BlendChannel::new(Equation::Add, Factor::One, Factor::One),
            value: Some(Color::zero()),
        }
    }

    #[verifier::when_used_as_spec(spec_add)]
    pub fn add() -> (b: Blend)
        ensures
            b == Blend::spec_add(),
    {
        Blend {
            color: BlendChannel::new(Equation::Add, Factor::One, Factor::One),
            alpha: BlendChannel::new(Equation::Add, Factor::One, Factor::One),
            value: Some(Color::zero()),
        }
    }

    #[verifier::when_used_as_spec(spec_lighter)]
    pub fn lighter() -> (b: Blend)
        ensures
            b == Blend::spec_lighter(),
    {
        Blend {
            color: BlendChannel::new(
                Equation::Add,
                Factor::ZeroPlus(BlendValue::SourceAlpha),
                Factor::One,
            ),
            alpha: BlendChannel::new(Equation::Add, Factor::Zero, Factor::One),
            value: Some(Color::zero()),
        }
    }

    #[verifier::when_used_as_spec(spec_multiply)]
    pub fn multiply() -> (b: Blend)
        ensures
            b == Blend::spec_multiply(),
    {
        Blend {
            color: BlendChannel::new(
                Equation::Add,
                Factor::ZeroPlus(BlendValue::DestColor),
                Factor::Zero,
            ),
            alpha: BlendChannel::new(
                Equation::Add,
                Factor::ZeroPlus(BlendValue::DestAlpha),
                Factor::Zero,
            ),
            value: Some(Color::zero()),
        }
    }

    #[verifier::when_used_as_spec(spec_invert)]
    pub fn invert() -> (b: Blend)
        ensures
            b == Blend::spec_invert(),
    {
        Blend {
            color: BlendChannel::new(
                Equation::Sub,
                Factor::ZeroPlus(BlendValue::ConstColor),
                Factor::ZeroPlus(BlendValue::SourceColor),
            ),
            alpha: BlendChannel::new(Equation::Add, Factor::Zero, Factor::One),
            value: Some(Color::one()),
        }
    }
}

impl StencilSide {
    /// A side that tests with `fun` against `value` under full masks, applies
    /// `op_fail` when the test fails and keeps the stored value otherwise.
    pub open spec fn spec_testing(fun: Comparison, value: u8, op_fail: StencilOp) -> StencilSide {
        StencilSide {
            fun,
            value,
            mask_read: 255,
            mask_write: 255,
            op_fail,
            op_depth_fail: StencilOp::Keep,
            op_pass: StencilOp::Keep,
        }
    }

    #[verifier::when_used_as_spec(spec_testing)]
    pub fn testing(fun: Comparison, value: u8, op_fail: StencilOp) -> (s: StencilSide)
        ensures
            s == StencilSide::spec_testing(fun, value, op_fail),
    {
        StencilSide {
            fun,
            value,
            mask_read: 255,
            mask_write: 255,
            op_fail,
            op_depth_fail: StencilOp::Keep,
            op_pass: StencilOp::Keep,
        }
    }
}

impl Stencil {
    /// The same configuration on both faces.
    pub open spec fn spec_both(side: StencilSide) -> Stencil {
        Stencil { front: side, back: side }
    }

    /// Writes `value` into the stencil buffer wherever a shape is drawn: the
    /// test always fails and the failing fragment replaces the stored value.
    pub open spec fn spec_clip(value: u8) -> Stencil {
        Stencil::spec_both(StencilSide::spec_testing(Comparison::Never, value, StencilOp::Replace))
    }

    /// Draws only where the stencil buffer holds `value`.
    pub open spec fn spec_inside(value: u8) -> Stencil {
        Stencil::spec_both(StencilSide::spec_testing(Comparison::Equal, value, StencilOp::Keep))
    }

    /// Draws only where the stencil buffer does not hold `value`.
    pub open spec fn spec_outside(value: u8) -> Stencil {
        Stencil::spec_both(StencilSide::spec_testing(Comparison::NotEqual, value, StencilOp::Keep))
    }

    /// Increments the stencil buffer wherever a shape is drawn.
    pub open spec fn spec_increment() -> Stencil {
        Stencil::spec_both(
            StencilSide::spec_testing(Comparison::Never, 0, StencilOp::IncrementClamp),
        )
    }

    #[verifier::when_used_as_spec(spec_both)]
    pub fn both(side: StencilSide) -> (s: Stencil)
        ensures
            s == Stencil::spec_both(side),
    {
        Stencil { front: side, back: side }
    }

    #[verifier::when_used_as_spec(spec_clip)]
    pub fn clip(value: u8) -> (s: Stencil)
        ensures
            s == Stencil::spec_clip(value),
    {
        Stencil::both(StencilSide::testing(Comparison::Never, value, StencilOp::Replace))
    }

    #[verifier::when_used_as_spec(spec_inside)]
    pub fn inside(value: u8) -> (s: Stencil)
        ensures
            s == Stencil::spec_inside(value),
    {
        Stencil::both(StencilSide::testing(Comparison::Equal, value, StencilOp::Keep))
    }

    #[verifier::when_used_as_spec(spec_outside)]
    pub fn outside(value: u8) -> (s: Stencil)
        ensures
            s == Stencil::spec_outside(value),
    {
        Stencil::both(StencilSide::testing(Comparison::NotEqual, value, StencilOp::Keep))
    }

    #[verifier::when_used_as_spec(spec_increment)]
    pub fn increment() -> (s: Stencil)
        ensures
            s == Stencil::spec_increment(),
    {
        Stencil::both(StencilSide::testing(Comparison::Never, 0, StencilOp::IncrementClamp))
    }
}

impl ColorMask {
    /// Whether the channel bit `channel` is set.
    pub open spec fn spec_contains(self, channel: u8) -> bool {
        self.bits & channel != 0
    }

    pub open spec fn spec_all() -> ColorMask {
        ColorMask { bits: MASK_ALL }
    }

    #[verifier::when_used_as_spec(spec_contains)]
    pub fn contains(self, channel: u8) -> (b: bool)
        ensures
            b == self.spec_contains(channel),
    {
        self.bits & channel != 0
    }

    /// The mask that lets every channel through.
    #[verifier::when_used_as_spec(spec_all)]
    pub fn all() -> (m: ColorMask)
        ensures
            m == ColorMask::spec_all(),
    {
        ColorMask { bits: MASK_ALL }
    }
}

impl Primitive {
    /// Filled polygons, counter-clockwise front faces, nothing culled.
    pub open spec fn spec_default() -> Primitive {
        Primitive {
            front_face: FrontFace::CounterClockwise,
            method: RasterMethod::Fill,
            cull_face: CullFace::Nothing,
        }
    }
}

impl DrawState {
    /// The state in which every axis is left at the hardware default.
    pub open spec fn spec_default() -> DrawState {
        DrawState {
            primitive: Primitive::spec_default(),
            multi_sample: true,
            scissor: None,
            stencil: None,
            depth: None,
            blend: None,
            color_mask: ColorMask::spec_all(),
        }
    }

    /// The default state with the given blending and stencil.
    pub open spec fn spec_with(blend: Option<Blend>, stencil: Option<Stencil>) -> DrawState {
        DrawState { blend, stencil, ..DrawState::spec_default() }
    }

    /// Alpha blending, no stencil.
    pub open spec fn spec_new_alpha() -> DrawState {
        DrawState::spec_with(Some(Blend::spec_alpha()), None)
    }

    /// Alpha blending, drawing into the stencil buffer with value 255.
    pub open spec fn spec_new_clip() -> DrawState {
        DrawState::spec_with(Some(Blend::spec_alpha()), Some(Stencil::spec_clip(255)))
    }

    /// Alpha blending, incrementing the stencil buffer.
    pub open spec fn spec_new_increment() -> DrawState {
        DrawState::spec_with(Some(Blend::spec_alpha()), Some(Stencil::spec_increment()))
    }

    /// Alpha blending, drawing inside the shape held by the stencil buffer.
    pub open spec fn spec_new_inside() -> DrawState {
        DrawState::spec_with(Some(Blend::spec_alpha()), Some(Stencil::spec_inside(255)))
    }

    /// Alpha blending, drawing outside the shape held by the stencil buffer.
    pub open spec fn spec_new_outside() -> DrawState {
        DrawState::spec_with(Some(Blend::spec_alpha()), Some(Stencil::spec_outside(255)))
    }

    fn with(blend: Option<Blend>, stencil: Option<Stencil>) -> (s: DrawState)
        ensures
            s == DrawState::spec_with(blend, stencil),
    {
        DrawState {
            primitive: Primitive {
                front_face: FrontFace::CounterClockwise,
                method: RasterMethod::Fill,
                cull_face: CullFace::Nothing,
            },
            multi_sample: true,
            scissor: None,
            stencil,
            depth: None,
            blend,
            color_mask: ColorMask::all(),
        }
    }

    #[verifier::when_used_as_spec(spec_new_alpha)]
    pub fn new_alpha() -> (s: DrawState)
        ensures
            s == DrawState::spec_new_alpha(),
    {
        DrawState::with(Some(Blend::alpha()), None)
    }

    #[verifier::when_used_as_spec(spec_new_clip)]
    pub fn new_clip() -> (s: DrawState)
        ensures
            s == DrawState::spec_new_clip(),
    {
        DrawState::with(Some(Blend::alpha()), Some(Stencil::clip(255)))
    }

    #[verifier::when_used_as_spec(spec_new_increment)]
    pub fn new_increment() -> (s: DrawState)
        ensures
            s == DrawState::spec_new_increment(),
    {
        DrawState::with(Some(Blend::alpha()), Some(Stencil::increment()))
    }

    #[verifier::when_used_as_spec(spec_new_inside)]
    pub fn new_inside() -> (s: DrawState)
        ensures
            s == DrawState::spec_new_inside(),
    {
        DrawState::with(Some(Blend::alpha()), Some(Stencil::inside(255)))
    }

    #[verifier::when_used_as_spec(spec_new_outside)]
    pub fn new_outside() -> (s: DrawState)
        ensures
            s == DrawState::spec_new_outside(),
    {
        DrawState::with(Some(Blend::alpha()), Some(Stencil::outside(255)))
    }

    /// The same state with the given blending.
    pub fn blend(self, blend: Blend) -> (s: DrawState)
        ensures
            s == (DrawState { blend: Some(blend), ..self }),
    {
        DrawState { blend: Some(blend), ..self }
    }

    /// The same state with the given scissor rectangle.
    pub fn scissor(self, scissor: Scissor) -> (s: DrawState)
        ensures
            s == (DrawState { scissor: Some(scissor), ..self }),
    {
        DrawState { scissor: Some(scissor), ..self }
    }
}

impl Default for DrawState {
    /// Every axis at the hardware default.
    fn default() -> (s: DrawState)
        ensures
            s == DrawState::spec_default(),
    {
        DrawState::with(None, None)
    }
}

} // verus!
