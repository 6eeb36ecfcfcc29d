//! Descriptions of the render pass and of the fixed-function state of the
//! graphics pipeline.
//!
//! Numbers that the graphics API takes as single-precision floats are
//! carried as their bit patterns.

use vstd::prelude::*;
use crate::gpu::{Extent, PipelineStage};
use crate::model::{COLOR_OFFSET, COORDS_OFFSET, ONE, POSITION_OFFSET, VERTEX_STRIDE_BYTES};

verus! {

/// What happens to an attachment when the render pass begins.
#[derive(Clone, Copy, Debug, PartialEq, Eq)]
pub enum LoadOp {
    Clear,
    DontCare,
}

/// What happens to an attachment when the render pass ends.
#[derive(Clone, Copy, Debug, PartialEq, Eq)]
pub enum StoreOp {
    Store,
    DontCare,
}

/// The layouts an image passes through.
#[derive(Clone, Copy, Debug, PartialEq, Eq)]
pub enum ImageLayout {
    Undefined,
    ColorAttachmentOptimal,
    /// Ready to be presented.
    PresentSource,
}

/// The attachment of a render pass.
#[derive(Clone, Copy, Debug, PartialEq, Eq)]
pub struct Attachment {
    /// Raw format of the attachment.
    pub format: i32,
    pub samples: u32,
    pub load: LoadOp,
    pub store: StoreOp,
    pub stencil_load: LoadOp,
    pub stencil_store: StoreOp,
    pub initial_layout: ImageLayout,
    pub final_layout: ImageLayout,
}

/// The use a subpass makes of an attachment.
#[derive(Clone, Copy, Debug, PartialEq, Eq)]
pub struct AttachmentReference {
    pub attachment: u32,
    pub layout: ImageLayout,
}

/// What a pipeline is bound for.
#[derive(Clone, Copy, Debug, PartialEq, Eq)]
pub enum BindPoint {
    Graphics,
}

/// One side of a dependency between subpasses.
#[derive(Clone, Copy, Debug, PartialEq, Eq)]
pub enum Subpass {
    /// Whatever was submitted before the render pass.
    External,
    Index(u32),
}

/// The kinds of access to a color attachment.
#[derive(Clone, Copy, Debug, PartialEq, Eq)]
pub struct ColorAccess {
    pub read: bool,
    pub write: bool,
}

/// An ordering between two subpasses.
#[derive(Clone, Copy, Debug, PartialEq, Eq)]
pub struct SubpassDependency {
    pub source: Subpass,
    pub source_stage: PipelineStage,
    pub destination: Subpass,
    pub destination_stage: PipelineStage,
    pub destination_access: ColorAccess,
}

/// Everything that fixes the render pass: one attachment, used as the
/// color attachment of one subpass, and one dependency.
#[derive(Clone, Copy, Debug, PartialEq, Eq)]
pub struct RenderPassInfo {
    pub attachment: Attachment,
    pub color: AttachmentReference,
    pub bind_point: BindPoint,
    pub dependency: SubpassDependency,
}

/// The render pass of the renderer: its one color attachment, of `format`
/// and one sample, is cleared at the start, stored at the end and left
/// ready to be presented; the subpass writes it only after earlier work
/// has passed the color-attachment output.
pub open spec fn render_pass_info(format: i32) -> RenderPassInfo {
    RenderPassInfo {
        attachment: Attachment {
            format,
            samples: 1,
            load: LoadOp::Clear,
            store: StoreOp::Store,
            stencil_load: LoadOp::DontCare,
            stencil_store: StoreOp::DontCare,
            initial_layout: ImageLayout::Undefined,
            final_layout: ImageLayout::PresentSource,
        },
        color: AttachmentReference { attachment: 0, layout: ImageLayout::ColorAttachmentOptimal },
        bind_point: BindPoint::Graphics,
        dependency: SubpassDependency {
            source: Subpass::External,
            source_stage: PipelineStage::ColorAttachmentOutput,
            destination: Subpass::Index(0),
            destination_stage: PipelineStage::ColorAttachmentOutput,
            destination_access: ColorAccess { read: true, write: true },
        },
    }
}

/// The description of the render pass for attachments of `format`.
pub fn describe_render_pass(format: i32) -> (info: RenderPassInfo)
    ensures
        info == render_pass_info(format),
{
    RenderPassInfo {
        attachment: Attachment {
            format,
            samples: 1,
            load: LoadOp::Clear,
            store: StoreOp::Store,
            stencil_load: LoadOp::DontCare,
            stencil_store: StoreOp::DontCare,
            initial_layout: ImageLayout::Undefined,
            final_layout: ImageLayout::PresentSource,
        },
        color: AttachmentReference { attachment: 0, layout: ImageLayout::ColorAttachmentOptimal },
        bind_point: BindPoint::Graphics,
        dependency: SubpassDependency {
            source: Subpass::External,
            source_stage: PipelineStage::ColorAttachmentOutput,
            destination: Subpass::Index(0),
            destination_stage: PipelineStage::ColorAttachmentOutput,
            destination_access: ColorAccess { read: true, write: true },
        },
    }
}

/// How often vertex data advances.
#[derive(Clone, Copy, Debug, PartialEq, Eq)]
pub enum InputRate {
    Vertex,
}

/// Where the vertices of a binding lie in their buffer.
#[derive(Clone, Copy, Debug, PartialEq, Eq)]
pub struct VertexBinding {
    pub binding: u32,
    pub stride: u32,
    pub input_rate: InputRate,
}

/// The formats of vertex attributes.
#[derive(Clone, Copy, Debug, PartialEq, Eq)]
pub enum VertexFormat {
    /// Three single-precision floats.
    Float3,
    /// Two single-precision floats.
    Float2,
}

/// Where an attribute lies in its vertex.
#[derive(Clone, Copy, Debug, PartialEq, Eq)]
pub struct VertexAttribute {
    pub binding: u32,
    pub location: u32,
    pub format: VertexFormat,
    pub offset: u32,
}

/// How vertices are assembled into primitives.
#[derive(Clone, Copy, Debug, PartialEq, Eq)]
pub enum Topology {
    TriangleList,
}

/// Which winding is the front of a triangle.
#[derive(Clone, Copy, Debug, PartialEq, Eq)]
pub enum FrontFace {
    CounterClockwise,
}

/// Which faces are dropped.
#[derive(Clone, Copy, Debug, PartialEq, Eq)]
pub enum CullMode {
    Nothing,
}

/// How polygons are filled.
#[derive(Clone, Copy, Debug, PartialEq, Eq)]
pub enum PolygonMode {
    Fill,
}

/// The factors of blending.
#[derive(Clone, Copy, Debug, PartialEq, Eq)]
pub enum BlendFactor {
    SourceAlpha,
    OneMinusSourceAlpha,
}

/// The operations of blending.
#[derive(Clone, Copy, Debug, PartialEq, Eq)]
pub enum BlendOp {
    Add,
}

/// The viewport: from the origin over `extent`, with depths as
/// single-precision bit patterns.
#[derive(Clone, Copy, Debug, PartialEq, Eq)]
pub struct Viewport {
    pub extent: Extent,
    pub min_depth: u32,
    pub max_depth: u32,
}

/// The state of the rasterizer; the line width is a single-precision bit
/// pattern.
#[derive(Clone, Copy, Debug, PartialEq, Eq)]
pub struct Rasterizer {
    pub line_width: u32,
    pub front_face: FrontFace,
    pub cull_mode: CullMode,
    pub polygon_mode: PolygonMode,
}

/// The color channels that are written.
#[derive(Clone, Copy, Debug, PartialEq, Eq)]
pub struct ColorMask {
    pub red: bool,
    pub green: bool,
    pub blue: bool,
    pub alpha: bool,
}

/// How a fragment is combined with the color already in the attachment.
#[derive(Clone, Copy, Debug, PartialEq, Eq)]
pub struct Blend {
    pub enable: bool,
    pub source_color: BlendFactor,
    pub destination_color: BlendFactor,
    pub color_op: BlendOp,
    pub source_alpha: BlendFactor,
    pub destination_alpha: BlendFactor,
    pub alpha_op: BlendOp,
    pub write_mask: ColorMask,
}

/// Everything that fixes the graphics pipeline.
#[derive(Clone, Copy, Debug, PartialEq, Eq)]
pub struct GraphicsPipelineInfo {
    pub vertex_shader: u64,
    pub fragment_shader: u64,
    pub binding: VertexBinding,
    pub position: VertexAttribute,
    pub color: VertexAttribute,
    pub coords: VertexAttribute,
    pub topology: Topology,
    pub viewport: Viewport,
    /// The scissor, from the origin.
    pub scissor: Extent,
    pub rasterizer: Rasterizer,
    pub samples: u32,
    pub blend: Blend,
    pub layout: u64,
    pub render_pass: u64,
    pub subpass: u32,
}

/// The one vertex binding: whole vertices, one after the other.
pub open spec fn vertex_binding() -> VertexBinding {
    VertexBinding { binding: 0, stride: VERTEX_STRIDE_BYTES, input_rate: InputRate::Vertex }
}

/// The attribute at `location`: position, color and texture coordinate in
/// this order.
pub open spec fn vertex_attribute(location: u32) -> VertexAttribute {
    if location == 0 {
        VertexAttribute { binding: 0, location, format: VertexFormat::Float3, offset: POSITION_OFFSET }
    } else if location == 1 {
        VertexAttribute { binding: 0, location, format: VertexFormat::Float3, offset: COLOR_OFFSET }
    } else {
        VertexAttribute { binding: 0, location, format: VertexFormat::Float2, offset: COORDS_OFFSET }
    }
}

/// The graphics pipeline of the renderer: triangle lists of the model's
/// vertices, filled and never culled, over a viewport and a scissor of
/// `extent`, blended by source alpha into all four channels, in subpass 0
/// of `render_pass`.
pub open spec fn pipeline_info(
    vertex_shader: u64,
    fragment_shader: u64,
    layout: u64,
    render_pass: u64,
    extent: Extent,
) -> GraphicsPipelineInfo {
    GraphicsPipelineInfo {
        vertex_shader,
        fragment_shader,
        binding: vertex_binding(),
        position: vertex_attribute(0),
        color: vertex_attribute(1),
        coords: vertex_attribute(2),
        topology: Topology::TriangleList,
        viewport: Viewport { extent, min_depth: 0, max_depth: 0 },
        scissor: extent,
        rasterizer: Rasterizer {
            line_width: ONE,
            front_face: FrontFace::CounterClockwise,
            cull_mode: CullMode::Nothing,
            polygon_mode: PolygonMode::Fill,
        },
        samples: 1,
        blend: Blend {
            enable: true,
            source_color: BlendFactor::SourceAlpha,
            destination_color: BlendFactor::OneMinusSourceAlpha,
            color_op: BlendOp::Add,
            source_alpha: BlendFactor::SourceAlpha,
            destination_alpha: BlendFactor::OneMinusSourceAlpha,
            alpha_op: BlendOp::Add,
            write_mask: ColorMask { red: true, green: true, blue: true, alpha: true },
        },
        layout,
        render_pass,
        subpass: 0,
    }
}

/// The description of the one vertex binding.
pub fn get_binding_description() -> (binding: VertexBinding)
    ensures
        binding == vertex_binding(),
{
    VertexBinding { binding: 0, stride: VERTEX_STRIDE_BYTES, input_rate: InputRate::Vertex }
}

/// The descriptions of the three vertex attributes, by location.
pub fn get_attribute_descriptions() -> (attributes: [VertexAttribute; 3])
    ensures
        forall|location: int|
            0 <= location < 3 ==> attributes[location] == vertex_attribute(location as u32),
{
    [
        VertexAttribute { binding: 0, location: 0, format: VertexFormat::Float3, offset: POSITION_OFFSET },
        VertexAttribute { binding: 0, location: 1, format: VertexFormat::Float3, offset: COLOR_OFFSET },
        VertexAttribute { binding: 0, location: 2, format: VertexFormat::Float2, offset: COORDS_OFFSET },
    ]
}

} // verus!
