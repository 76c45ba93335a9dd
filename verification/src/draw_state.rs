//! The state translator: from the declarative draw state to the parameters
//! of a GPU draw call.
//!
//! Every function here is total and pure. The hardware addresses stencil
//! slots and culling by the winding of a triangle on screen, while the draw
//! state speaks of logical front and back faces; the active front-face
//! winding decides which is which.

use vstd::prelude::*;
use crate::draw_parameters;
use crate::draw_parameters::{
    BackfaceCullingMode, BlendingFunction, ChannelMask, Color, DepthTest, DrawParameters,
    LinearBlendingFactor, PolygonMode, Rect, StencilOperation, StencilSlot, StencilTest,
};
use crate::state::{
    Blend, BlendChannel, BlendValue, ColorMask, Comparison, CullFace, Depth, DrawState, Equation,
    Factor, FrontFace, Primitive, RasterMethod, Scissor, Stencil, StencilOp, StencilSide, ALPHA,
    BLUE, GREEN, RED,
};

verus! {

/// The hardware factor of each of the fifteen blend factors.
pub open spec fn spec_convert_factor(factor: Factor) -> LinearBlendingFactor {
    match factor {
        Factor::Zero => LinearBlendingFactor::Zero,
        Factor::One => LinearBlendingFactor::One,
        Factor::SourceAlphaSaturated => LinearBlendingFactor::SourceAlphaSaturate,
        Factor::ZeroPlus(BlendValue::SourceColor) => LinearBlendingFactor::SourceColor,
        Factor::ZeroPlus(BlendValue::SourceAlpha) => LinearBlendingFactor::SourceAlpha,
        Factor::ZeroPlus(BlendValue::DestColor) => LinearBlendingFactor::DestinationColor,
        Factor::ZeroPlus(BlendValue::DestAlpha) => LinearBlendingFactor::DestinationAlpha,
        Factor::ZeroPlus(BlendValue::ConstColor) => LinearBlendingFactor::ConstantColor,
        Factor::ZeroPlus(BlendValue::ConstAlpha) => LinearBlendingFactor::ConstantAlpha,
        Factor::OneMinus(BlendValue::SourceColor) => LinearBlendingFactor::OneMinusSourceColor,
        Factor::OneMinus(BlendValue::SourceAlpha) => LinearBlendingFactor::OneMinusSourceAlpha,
        Factor::OneMinus(BlendValue::DestColor) => LinearBlendingFactor::OneMinusDestinationColor,
        Factor::OneMinus(BlendValue::DestAlpha) => LinearBlendingFactor::OneMinusDestinationAlpha,
        Factor::OneMinus(BlendValue::ConstColor) => LinearBlendingFactor::OneMinusConstantColor,
        Factor::OneMinus(BlendValue::ConstAlpha) => LinearBlendingFactor::OneMinusConstantAlpha,
    }
}

/// The blending function of one channel group. Minimum and maximum take no
/// factors; the other equations carry both translated factors.
pub open spec fn spec_convert_blend_channel(channel: BlendChannel) -> BlendingFunction {
    let source = spec_convert_factor(channel.source);
    let destination = spec_convert_factor(channel.destination);
    match channel.equation {
        Equation::Add => BlendingFunction::Addition { source, destination },
        Equation::Sub => BlendingFunction::Subtraction { source, destination },
        Equation::RevSub => BlendingFunction::ReverseSubtraction { source, destination },
        Equation::Min => BlendingFunction::Min,
        Equation::Max => BlendingFunction::Max,
    }
}

/// Blending parameters. Without a blend mode the source replaces the
/// destination; without a constant color the constant is transparent black.
pub open spec fn spec_convert_blend(blend: Option<Blend>) -> draw_parameters::Blend {
    match blend {
        None => draw_parameters::Blend::spec_default(),
        Some(blend) => draw_parameters::Blend {
            color: spec_convert_blend_channel(blend.color),
            alpha: spec_convert_blend_channel(blend.alpha),
            constant_value: match blend.value {
                Some(value) => value,
                None => Color::spec_zero(),
            },
        },
    }
}

/// The stencil test of a comparison. `Never` and `Always` need no mask; the
/// six proper comparisons carry the read mask.
pub open spec fn spec_convert_stencil_test(fun: Comparison, mask_read: u8) -> StencilTest {
    let mask = mask_read as u32;
    match fun {
        Comparison::Never => StencilTest::AlwaysFail,
        Comparison::Less => StencilTest::IfLess { mask },
        Comparison::LessEqual => StencilTest::IfLessOrEqual { mask },
        Comparison::Equal => StencilTest::IfEqual { mask },
        Comparison::GreaterEqual => StencilTest::IfMoreOrEqual { mask },
        Comparison::Greater => StencilTest::IfMore { mask },
        Comparison::NotEqual => StencilTest::IfNotEqual { mask },
        Comparison::Always => StencilTest::AlwaysPass,
    }
}

/// The hardware operation of each of the eight stencil operations.
pub open spec fn spec_convert_stencil_op(op: StencilOp) -> StencilOperation {
    match op {
        StencilOp::Keep => StencilOperation::Keep,
        StencilOp::Zero => StencilOperation::Zero,
        StencilOp::Replace => StencilOperation::Replace,
        StencilOp::IncrementClamp => StencilOperation::Increment,
        StencilOp::IncrementWrap => StencilOperation::IncrementWrap,
        StencilOp::DecrementClamp => StencilOperation::Decrement,
        StencilOp::DecrementWrap => StencilOperation::DecrementWrap,
        StencilOp::Invert => StencilOperation::Invert,
    }
}

/// The stencil slot that carries out the configuration of one logical face.
pub open spec fn spec_convert_stencil_side(side: StencilSide) -> StencilSlot {
    StencilSlot {
        test: spec_convert_stencil_test(side.fun, side.mask_read),
        reference_value: side.value as i32,
        write_mask: side.mask_write as u32,
        fail_operation: spec_convert_stencil_op(side.op_fail),
        pass_depth_fail_operation: spec_convert_stencil_op(side.op_depth_fail),
        depth_pass_operation: spec_convert_stencil_op(side.op_pass),
    }
}

/// The logical face whose triangles appear clockwise on screen.
pub open spec fn spec_clockwise_side(stencil: Stencil, front_face: FrontFace) -> StencilSide {
    match front_face {
        FrontFace::Clockwise => stencil.front,
        FrontFace::CounterClockwise => stencil.back,
    }
}

/// The logical face whose triangles appear counter-clockwise on screen.
pub open spec fn spec_counter_clockwise_side(stencil: Stencil, front_face: FrontFace)
    -> StencilSide {
    match front_face {
        FrontFace::Clockwise => stencil.back,
        FrontFace::CounterClockwise => stencil.front,
    }
}

/// Stencil parameters: each winding slot gets the configuration of the
/// logical face that has that winding.
pub open spec fn spec_convert_stencil(stencil: Option<Stencil>, front_face: FrontFace)
    -> draw_parameters::Stencil {
    match stencil {
        None => draw_parameters::Stencil::spec_default(),
        Some(stencil) => draw_parameters::Stencil {
            clockwise: spec_convert_stencil_side(spec_clockwise_side(stencil, front_face)),
            counter_clockwise: spec_convert_stencil_side(
                spec_counter_clockwise_side(stencil, front_face),
            ),
        },
    }
}

/// The depth test of a comparison.
pub open spec fn spec_convert_depth_test(fun: Comparison) -> DepthTest {
    match fun {
        Comparison::Never => DepthTest::Ignore,
        Comparison::Less => DepthTest::IfLess,
        Comparison::LessEqual => DepthTest::IfLessOrEqual,
        Comparison::Equal => DepthTest::IfEqual,
        Comparison::GreaterEqual => DepthTest::IfMoreOrEqual,
        Comparison::Greater => DepthTest::IfMore,
        Comparison::NotEqual => DepthTest::IfNotEqual,
        Comparison::Always => DepthTest::Overwrite,
    }
}

/// Depth parameters.
pub open spec fn spec_convert_depth(depth: Option<Depth>) -> draw_parameters::Depth {
    match depth {
        None => draw_parameters::Depth::spec_default(),
        Some(depth) => draw_parameters::Depth {
            test: spec_convert_depth_test(depth.fun),
            write: depth.write,
        },
    }
}

/// A channel is written exactly if its bit is set in the mask.
pub open spec fn spec_convert_color_mask(mask: ColorMask) -> ChannelMask {
    ChannelMask {
        red: mask.spec_contains(RED),
        green: mask.spec_contains(GREEN),
        blue: mask.spec_contains(BLUE),
        alpha: mask.spec_contains(ALPHA),
    }
}

/// The scissor rectangle, field by field.
pub open spec fn spec_convert_scissor(rect: Option<Scissor>) -> Option<Rect> {
    match rect {
        None => None,
        Some(rect) => Some(Rect { left: rect.x, bottom: rect.y, width: rect.w, height: rect.h }),
    }
}

/// The polygon mode of a rasterization method.
pub open spec fn spec_convert_polygon_mode(method: RasterMethod) -> PolygonMode {
    match method {
        RasterMethod::Point => PolygonMode::Point,
        RasterMethod::Line(_) => PolygonMode::Line,
        RasterMethod::Fill => PolygonMode::Fill,
    }
}

/// The line width that a rasterization method asks for, if any.
pub open spec fn spec_convert_line_width(method: RasterMethod) -> Option<u32> {
    match method {
        RasterMethod::Line(width) => Some(width),
        _ => None,
    }
}

/// The winding that is culled: the winding of the culled logical face.
pub open spec fn spec_convert_culling(cull_face: CullFace, front_face: FrontFace)
    -> BackfaceCullingMode {
    match (cull_face, front_face) {
        (CullFace::Nothing, _) => BackfaceCullingMode::CullingDisabled,
        (CullFace::Front, FrontFace::Clockwise) => BackfaceCullingMode::CullClockwise,
        (CullFace::Front, FrontFace::CounterClockwise) => BackfaceCullingMode::CullCounterClockwise,
        (CullFace::Back, FrontFace::Clockwise) => BackfaceCullingMode::CullCounterClockwise,
        (CullFace::Back, FrontFace::CounterClockwise) => BackfaceCullingMode::CullClockwise,
    }
}

/// The draw parameters of a draw state.
pub open spec fn spec_convert_draw_state(draw_state: DrawState) -> DrawParameters {
    DrawParameters {
        depth: spec_convert_depth(draw_state.depth),
        stencil: spec_convert_stencil(draw_state.stencil, draw_state.primitive.front_face),
        blend: spec_convert_blend(draw_state.blend),
        color_mask: spec_convert_color_mask(draw_state.color_mask),
        line_width: spec_convert_line_width(draw_state.primitive.method),
        point_size: None,
        backface_culling: spec_convert_culling(
            draw_state.primitive.cull_face,
            draw_state.primitive.front_face,
        ),
        polygon_mode: spec_convert_polygon_mode(draw_state.primitive.method),
        multisampling: draw_state.multi_sample,
        scissor: spec_convert_scissor(draw_state.scissor),
    }
}

/// A rectangle given from the top-left corner of a framebuffer of the given
/// height, expressed from the bottom-left corner. There is no such rectangle
/// when the input reaches below the framebuffer.
pub open spec fn spec_scissor_from_top_left(rect: Scissor, framebuffer_height: u32)
    -> Option<Scissor> {
    if rect.y + rect.h <= framebuffer_height {
        Some(Scissor { y: (framebuffer_height - rect.y - rect.h) as u32, ..rect })
    } else {
        None
    }
}

pub fn convert_factor(factor: Factor) -> (res: LinearBlendingFactor)
    ensures
        res == spec_convert_factor(factor),
{
    match factor {
        Factor::Zero => LinearBlendingFactor::Zero,
        Factor::One => LinearBlendingFactor::One,
        Factor::SourceAlphaSaturated => LinearBlendingFactor::SourceAlphaSaturate,
        Factor::ZeroPlus(value) => match value {
            BlendValue::SourceColor => LinearBlendingFactor::SourceColor,
            BlendValue::SourceAlpha => LinearBlendingFactor::SourceAlpha,
            BlendValue::DestColor => LinearBlendingFactor::DestinationColor,
            BlendValue::DestAlpha => LinearBlendingFactor::DestinationAlpha,
            BlendValue::ConstColor => LinearBlendingFactor::ConstantColor,
            BlendValue::ConstAlpha => LinearBlendingFactor::ConstantAlpha,
        },
        Factor::OneMinus(value) => match value {
            BlendValue::SourceColor => LinearBlendingFactor::OneMinusSourceColor,
            BlendValue::SourceAlpha => LinearBlendingFactor::OneMinusSourceAlpha,
            BlendValue::DestColor => LinearBlendingFactor::OneMinusDestinationColor,
            BlendValue::DestAlpha => LinearBlendingFactor::OneMinusDestinationAlpha,
            BlendValue::ConstColor => LinearBlendingFactor::OneMinusConstantColor,
            BlendValue::ConstAlpha => LinearBlendingFactor::OneMinusConstantAlpha,
        },
    }
}

pub fn convert_blend_channel(channel: BlendChannel) -> (res: BlendingFunction)
    ensures
        res == spec_convert_blend_channel(channel),
{
    let source = convert_factor(channel.source);
    let destination = convert_factor(channel.destination);
    match channel.equation {
        Equation::Add => BlendingFunction::Addition { source, destination },
        Equation::Sub => BlendingFunction::Subtraction { source, destination },
        Equation::RevSub => BlendingFunction::ReverseSubtraction { source, destination },
        Equation::Min => BlendingFunction::Min,
        Equation::Max => BlendingFunction::Max,
    }
}

pub fn convert_blend(blend: Option<Blend>) -> (res: draw_parameters::Blend)
    ensures
        res == spec_convert_blend(blend),
{
    match blend {
        None => draw_parameters::Blend::default(),
        Some(blend) => {
            let constant_value = match blend.value {
                Some(value) => value,
                None => Color::zero(),
            };
            draw_parameters::Blend {
                color: convert_blend_channel(blend.color),
                alpha: convert_blend_channel(blend.alpha),
                constant_value,
            }
        },
    }
}

pub fn convert_stencil_test(fun: Comparison, mask_read: u8) -> (res: StencilTest)
    ensures
        res == spec_convert_stencil_test(fun, mask_read),
{
    let mask: u32 = mask_read as u32;
    match fun {
        Comparison::Never => StencilTest::AlwaysFail,
        Comparison::Less => StencilTest::IfLess { mask },
        Comparison::LessEqual => StencilTest::IfLessOrEqual { mask },
        Comparison::Equal => StencilTest::IfEqual { mask },
        Comparison::GreaterEqual => StencilTest::IfMoreOrEqual { mask },
        Comparison::Greater => StencilTest::IfMore { mask },
        Comparison::NotEqual => StencilTest::IfNotEqual { mask },
        Comparison::Always => StencilTest::AlwaysPass,
    }
}

pub fn convert_stencil_op(op: StencilOp) -> (res: StencilOperation)
    ensures
        res == spec_convert_stencil_op(op),
{
    match op {
        StencilOp::Keep => StencilOperation::Keep,
        StencilOp::Zero => StencilOperation::Zero,
        StencilOp::Replace => StencilOperation::Replace,
        StencilOp::IncrementClamp => StencilOperation::Increment,
        StencilOp::IncrementWrap => StencilOperation::IncrementWrap,
        StencilOp::DecrementClamp => StencilOperation::Decrement,
        StencilOp::DecrementWrap => StencilOperation::DecrementWrap,
        StencilOp::Invert => StencilOperation::Invert,
    }
}

pub fn convert_stencil_side(side: StencilSide) -> (res: StencilSlot)
    ensures
        res == spec_convert_stencil_side(side),
        res.well_formed(),
{
    StencilSlot {
        test: convert_stencil_test(side.fun, side.mask_read),
        reference_value: side.value as i32,
        write_mask: side.mask_write as u32,
        fail_operation: convert_stencil_op(side.op_fail),
        pass_depth_fail_operation: convert_stencil_op(side.op_depth_fail),
        depth_pass_operation: convert_stencil_op(side.op_pass),
    }
}

pub fn convert_stencil(stencil: Option<Stencil>, front_face: FrontFace) -> (res:
    draw_parameters::Stencil)
    ensures
        res == spec_convert_stencil(stencil, front_face),
        res.well_formed(),
{
    match stencil {
        None => draw_parameters::Stencil::default(),
        Some(stencil) => {
            let (clockwise, counter_clockwise) = match front_face {
                FrontFace::Clockwise => (stencil.front, stencil.back),
                FrontFace::CounterClockwise => (stencil.back, stencil.front),
            };
            draw_parameters::Stencil {
                clockwise: convert_stencil_side(clockwise),
                counter_clockwise: convert_stencil_side(counter_clockwise),
            }
        },
    }
}

pub fn convert_depth_test(fun: Comparison) -> (res: DepthTest)
    ensures
        res == spec_convert_depth_test(fun),
{
    match fun {
        Comparison::Never => DepthTest::Ignore,
        Comparison::Less => DepthTest::IfLess,
        Comparison::LessEqual => DepthTest::IfLessOrEqual,
        Comparison::Equal => DepthTest::IfEqual,
        Comparison::GreaterEqual => DepthTest::IfMoreOrEqual,
        Comparison::Greater => DepthTest::IfMore,
        Comparison::NotEqual => DepthTest::IfNotEqual,
        Comparison::Always => DepthTest::Overwrite,
    }
}

pub fn convert_depth(depth: Option<Depth>) -> (res: draw_parameters::Depth)
    ensures
        res == spec_convert_depth(depth),
{
    match depth {
        None => draw_parameters::Depth::default(),
        Some(depth) => draw_parameters::Depth {
            test: convert_depth_test(depth.fun),
            write: depth.write,
        },
    }
}

pub fn convert_color_mask(mask: ColorMask) -> (res: ChannelMask)
    ensures
        res == spec_convert_color_mask(mask),
{
    ChannelMask {
        red: mask.contains(RED),
        green: mask.contains(GREEN),
        blue: mask.contains(BLUE),
        alpha: mask.contains(ALPHA),
    }
}

pub fn convert_scissor(rect: Option<Scissor>) -> (res: Option<Rect>)
    ensures
        res == spec_convert_scissor(rect),
{
    match rect {
        None => None,
        Some(rect) => Some(Rect { left: rect.x, bottom: rect.y, width: rect.w, height: rect.h }),
    }
}

pub fn convert_culling(cull_face: CullFace, front_face: FrontFace) -> (res: BackfaceCullingMode)
    ensures
        res == spec_convert_culling(cull_face, front_face),
{
    match cull_face {
        CullFace::Nothing => BackfaceCullingMode::CullingDisabled,
        CullFace::Front => match front_face {
            FrontFace::Clockwise => BackfaceCullingMode::CullClockwise,
            FrontFace::CounterClockwise => BackfaceCullingMode::CullCounterClockwise,
        },
        CullFace::Back => match front_face {
            FrontFace::Clockwise => BackfaceCullingMode::CullCounterClockwise,
            FrontFace::CounterClockwise => BackfaceCullingMode::CullClockwise,
        },
    }
}

/// Translates a draw state. Every draw state has parameters, and they are
/// structurally valid.
pub fn convert_draw_state(draw_state: &DrawState) -> (res: DrawParameters)
    ensures
        res == spec_convert_draw_state(*draw_state),
        res.well_formed(),
{
    let primitive: Primitive = draw_state.primitive;
    let (polygon_mode, line_width) = match primitive.method {
        RasterMethod::Point => (PolygonMode::Point, None),
        RasterMethod::Line(width) => (PolygonMode::Line, Some(width)),
        RasterMethod::Fill => (PolygonMode::Fill, None),
    };
    DrawParameters {
        depth: convert_depth(draw_state.depth),
        stencil: convert_stencil(draw_state.stencil, primitive.front_face),
        blend: convert_blend(draw_state.blend),
        color_mask: convert_color_mask(draw_state.color_mask),
        line_width,
        point_size: None,
        backface_culling: convert_culling(primitive.cull_face, primitive.front_face),
        polygon_mode,
        multisampling: draw_state.multi_sample,
        scissor: convert_scissor(draw_state.scissor),
    }
}

/// Expresses a rectangle given from the top-left corner of the framebuffer
/// from its bottom-left corner: `bottom = framebuffer_height - y - h`. The
/// translator does not know the framebuffer, so a caller that holds
/// top-left rectangles applies this before it builds a draw state.
pub fn scissor_from_top_left(rect: Scissor, framebuffer_height: u32) -> (res: Option<Scissor>)
    ensures
        res == spec_scissor_from_top_left(rect, framebuffer_height),
{
    if rect.y <= framebuffer_height && rect.h <= framebuffer_height - rect.y {
        Some(Scissor { x: rect.x, y: framebuffer_height - rect.y - rect.h, w: rect.w, h: rect.h })
    } else {
        None
    }
}

/// Distinct blend factors have distinct hardware factors.
pub proof fn lemma_convert_factor_injective(a: Factor, b: Factor)
    requires
        spec_convert_factor(a) == spec_convert_factor(b),
    ensures
        a == b,
{
}

/// Distinct stencil operations have distinct hardware operations.
pub proof fn lemma_convert_stencil_op_injective(a: StencilOp, b: StencilOp)
    requires
        spec_convert_stencil_op(a) == spec_convert_stencil_op(b),
    ensures
        a == b,
{
}

/// Every draw state translates to structurally valid parameters.
pub proof fn lemma_translation_total(draw_state: DrawState)
    ensures
        spec_convert_draw_state(draw_state).well_formed(),
{
    if let Some(stencil) = draw_state.stencil {
        let cw = spec_clockwise_side(stencil, draw_state.primitive.front_face);
        let ccw = spec_counter_clockwise_side(stencil, draw_state.primitive.front_face);
        lemma_stencil_side_well_formed(cw);
        lemma_stencil_side_well_formed(ccw);
    }
}

/// The draw state that leaves every axis at the hardware default translates
/// to the default parameters of a draw call.
pub proof fn lemma_default_state_gives_default_parameters()
    ensures
        spec_convert_draw_state(DrawState::spec_default()) == DrawParameters::spec_default(),
{
    assert(15u8 & 1u8 != 0 && 15u8 & 2u8 != 0 && 15u8 & 4u8 != 0 && 15u8 & 8u8 != 0)
        by (bit_vector);
}

/// The slot of any stencil side fits an 8-bit stencil buffer.
pub proof fn lemma_stencil_side_well_formed(side: StencilSide)
    ensures
        spec_convert_stencil_side(side).well_formed(),
{
}

/// Winding indirection of the stencil: with clockwise front faces the
/// clockwise slot carries the front configuration and the counter-clockwise
/// slot the back configuration; with counter-clockwise front faces the two
/// are swapped.
pub proof fn lemma_stencil_winding(stencil: Stencil)
    ensures
        spec_convert_stencil(Some(stencil), FrontFace::Clockwise).clockwise
            == spec_convert_stencil_side(stencil.front),
        spec_convert_stencil(Some(stencil), FrontFace::Clockwise).counter_clockwise
            == spec_convert_stencil_side(stencil.back),
        spec_convert_stencil(Some(stencil), FrontFace::CounterClockwise).clockwise
            == spec_convert_stencil_side(stencil.back),
        spec_convert_stencil(Some(stencil), FrontFace::CounterClockwise).counter_clockwise
            == spec_convert_stencil_side(stencil.front),
{
}

/// Reversing the winding swaps the two stencil slots.
pub proof fn lemma_stencil_winding_swap(stencil: Option<Stencil>)
    ensures
        spec_convert_stencil(stencil, FrontFace::Clockwise).clockwise == spec_convert_stencil(
            stencil,
            FrontFace::CounterClockwise,
        ).counter_clockwise,
        spec_convert_stencil(stencil, FrontFace::Clockwise).counter_clockwise
            == spec_convert_stencil(stencil, FrontFace::CounterClockwise).clockwise,
{
}

/// Culling follows the winding too: culling the front face under one winding
/// culls the same triangles as culling the back face under the other.
pub proof fn lemma_culling_winding(front_face: FrontFace)
    ensures
        spec_convert_culling(CullFace::Front, FrontFace::Clockwise)
            == BackfaceCullingMode::CullClockwise,
        spec_convert_culling(CullFace::Front, FrontFace::CounterClockwise)
            == BackfaceCullingMode::CullCounterClockwise,
        spec_convert_culling(CullFace::Front, front_face) != spec_convert_culling(
            CullFace::Back,
            front_face,
        ),
        spec_convert_culling(CullFace::Nothing, front_face)
            == BackfaceCullingMode::CullingDisabled,
{
}

/// Converting a rectangle from the top-left to the bottom-left origin and
/// back gives the rectangle itself.
pub proof fn lemma_scissor_flip_involutive(rect: Scissor, framebuffer_height: u32)
    requires
        rect.y + rect.h <= framebuffer_height,
    ensures
        spec_scissor_from_top_left(rect, framebuffer_height) is Some,
        spec_scissor_from_top_left(
            spec_scissor_from_top_left(rect, framebuffer_height).unwrap(),
            framebuffer_height,
        ) == Some(rect),
{
}

} // verus!
