//! The graphics pipeline as the renderer holds it.

use vstd::prelude::*;
use crate::gpu::{rejection, reject, Call, Extent, ObjectKind, Reply, ShaderStage, Step};
use crate::model::ONE;
use crate::state::{
    get_attribute_descriptions, get_binding_description, pipeline_info, Blend, BlendFactor,
    BlendOp, ColorMask, CullMode, FrontFace, GraphicsPipelineInfo, PolygonMode, Rasterizer,
    Topology, Viewport,
};

verus! {

/// A graphics pipeline with its layout, by their handles.
#[derive(Clone, Copy, Debug, PartialEq, Eq)]
pub struct RendererPipeline {
    pub pipeline: u64,
    pub pipeline_layout: u64,
}

impl RendererPipeline {
    /// The calls that destroy the pipeline: the pipeline, then its layout.
    pub open spec fn teardown(self) -> Seq<Call> {
        seq![
            Call::Destroy { kind: ObjectKind::Pipeline, handle: self.pipeline },
            Call::Destroy { kind: ObjectKind::PipelineLayout, handle: self.pipeline_layout },
        ]
    }

    /// Destroys the pipeline, then its layout.
    pub fn cleanup(&self) -> (calls: Vec<Call>)
        ensures
            calls@ == self.teardown(),
    {
        let mut calls: Vec<Call> = Vec::new();
        calls.push(Call::Destroy { kind: ObjectKind::Pipeline, handle: self.pipeline });
        calls.push(Call::Destroy { kind: ObjectKind::PipelineLayout, handle: self.pipeline_layout });
        calls
    }
}

/// How far the creation of the pipeline has come.
#[derive(Clone, Copy, Debug, PartialEq, Eq)]
pub enum PipelineStage {
    /// The vertex shader module is being created.
    VertexShader,
    /// The fragment shader module is being created.
    FragmentShader { vertex: u64 },
    /// The pipeline layout is being created.
    Layout { vertex: u64, fragment: u64 },
    /// The pipeline is being created.
    Pipeline { vertex: u64, fragment: u64, layout: u64 },
    /// The vertex shader module is being destroyed.
    ReleasingVertex { vertex: u64, fragment: u64, built: RendererPipeline },
    /// The fragment shader module is being destroyed.
    ReleasingFragment { fragment: u64, built: RendererPipeline },
}

/// Creates the graphics pipeline: both shader modules, the layout, the
/// pipeline; the shader modules are destroyed once the pipeline exists.
#[derive(Clone, Copy, Debug, PartialEq, Eq)]
pub struct PipelineCreation {
    pub extent: Extent,
    pub render_pass: u64,
    pub stage: PipelineStage,
}

impl PipelineCreation {
    /// A creation that has not received any reply yet.
    pub open spec fn begin(extent: Extent, render_pass: u64) -> PipelineCreation {
        PipelineCreation { extent, render_pass, stage: PipelineStage::VertexShader }
    }

    /// The call whose reply this machine waits for.
    pub open spec fn pending(self) -> Call {
        match self.stage {
            PipelineStage::VertexShader => Call::CreateShaderModule { stage: ShaderStage::Vertex },
            PipelineStage::FragmentShader { vertex } => Call::CreateShaderModule {
                stage: ShaderStage::Fragment,
            },
            PipelineStage::Layout { vertex, fragment } => Call::CreatePipelineLayout,
            PipelineStage::Pipeline { vertex, fragment, layout } => Call::CreateGraphicsPipeline {
                info: pipeline_info(vertex, fragment, layout, self.render_pass, self.extent),
            },
            PipelineStage::ReleasingVertex { vertex, fragment, built } => Call::Destroy {
                kind: ObjectKind::ShaderModule,
                handle: vertex,
            },
            PipelineStage::ReleasingFragment { fragment, built } => Call::Destroy {
                kind: ObjectKind::ShaderModule,
                handle: fragment,
            },
        }
    }

    /// This machine at another stage.
    pub open spec fn at(self, stage: PipelineStage) -> PipelineCreation {
        PipelineCreation { stage, ..self }
    }

    /// The machine at `stage`, waiting for the reply to the call of that stage.
    pub open spec fn proceed(self, stage: PipelineStage) -> Step<PipelineCreation, RendererPipeline> {
        Step::Next(self.at(stage), self.at(stage).pending())
    }

    /// What follows when the pending call is answered with `reply`.
    pub open spec fn resumed(self, reply: Reply) -> Step<PipelineCreation, RendererPipeline> {
        match (self.stage, reply) {
            (PipelineStage::VertexShader, Reply::Handle(vertex)) => self.proceed(
                PipelineStage::FragmentShader { vertex },
            ),
            (PipelineStage::FragmentShader { vertex }, Reply::Handle(fragment)) => self.proceed(
                PipelineStage::Layout { vertex, fragment },
            ),
            (PipelineStage::Layout { vertex, fragment }, Reply::Handle(layout)) => self.proceed(
                PipelineStage::Pipeline { vertex, fragment, layout },
            ),
            (PipelineStage::Pipeline { vertex, fragment, layout }, Reply::Handle(pipeline)) => self.proceed(
                PipelineStage::ReleasingVertex {
                    vertex,
                    fragment,
                    built: RendererPipeline { pipeline, pipeline_layout: layout },
                },
            ),
            (PipelineStage::ReleasingVertex { vertex, fragment, built }, Reply::Done) => self.proceed(
                PipelineStage::ReleasingFragment { fragment, built },
            ),
            (PipelineStage::ReleasingFragment { fragment, built }, Reply::Done) => Step::Done(built),
            _ => Step::Failed(rejection(self.pending(), reply)),
        }
    }

    /// The call whose reply this machine waits for.
    pub fn call(&self) -> (c: Call)
        ensures
            c == self.pending(),
    {
        match self.stage {
            PipelineStage::VertexShader => Call::CreateShaderModule { stage: ShaderStage::Vertex },
            PipelineStage::FragmentShader { vertex } => Call::CreateShaderModule {
                stage: ShaderStage::Fragment,
            },
            PipelineStage::Layout { vertex, fragment } => Call::CreatePipelineLayout,
            PipelineStage::Pipeline { vertex, fragment, layout } => Call::CreateGraphicsPipeline {
                info: RendererPipeline::create_graphics_pipeline(
                    self.render_pass,
                    self.extent,
                    layout,
                    vertex,
                    fragment,
                ),
            },
            PipelineStage::ReleasingVertex { vertex, fragment, built } => Call::Destroy {
                kind: ObjectKind::ShaderModule,
                handle: vertex,
            },
            PipelineStage::ReleasingFragment { fragment, built } => Call::Destroy {
                kind: ObjectKind::ShaderModule,
                handle: fragment,
            },
        }
    }

    fn advance(self, stage: PipelineStage) -> (r: Step<PipelineCreation, RendererPipeline>)
        ensures
            r == self.proceed(stage),
    {
        let next = PipelineCreation { stage, ..self };
        let call = next.call();
        Step::Next(next, call)
    }

    /// Takes the reply to the pending call and says what to do next.
    pub fn resume(self, reply: Reply) -> (r: Step<PipelineCreation, RendererPipeline>)
        ensures
            r == self.resumed(reply),
    {
        match (self.stage, &reply) {
            (PipelineStage::VertexShader, Reply::Handle(vertex)) => self.advance(
                PipelineStage::FragmentShader { vertex: *vertex },
            ),
            (PipelineStage::FragmentShader { vertex }, Reply::Handle(fragment)) => self.advance(
                PipelineStage::Layout { vertex, fragment: *fragment },
            ),
            (PipelineStage::Layout { vertex, fragment }, Reply::Handle(layout)) => self.advance(
                PipelineStage::Pipeline { vertex, fragment, layout: *layout },
            ),
            (PipelineStage::Pipeline { vertex, fragment, layout }, Reply::Handle(pipeline)) => self.advance(
                PipelineStage::ReleasingVertex {
                    vertex,
                    fragment,
                    built: RendererPipeline { pipeline: *pipeline, pipeline_layout: layout },
                },
            ),
            (PipelineStage::ReleasingVertex { vertex, fragment, built }, Reply::Done) => self.advance(
                PipelineStage::ReleasingFragment { fragment, built },
            ),
            (PipelineStage::ReleasingFragment { fragment, built }, Reply::Done) => Step::Done(built),
            _ => Step::Failed(reject(self.call(), &reply)),
        }
    }
}

impl RendererPipeline {
    /// The description of the graphics pipeline for images of `extent`, to
    /// be used in `render_pass`, with the given layout and shader modules.
    pub fn create_graphics_pipeline(
        render_pass: u64,
        extent: Extent,
        layout: u64,
        vertex_shader: u64,
        fragment_shader: u64,
    ) -> (info: GraphicsPipelineInfo)
        ensures
            info == pipeline_info(vertex_shader, fragment_shader, layout, render_pass, extent),
    {
        let attributes = get_attribute_descriptions();
        GraphicsPipelineInfo {
            vertex_shader,
            fragment_shader,
            binding: get_binding_description(),
            position: attributes[0],
            color: attributes[1],
            coords: attributes[2],
            topology: Topology::TriangleList,
            viewport: Viewport { extent, min_depth: 0, max_depth: 0 },
            scissor: extent,
            rasterizer: Rasterizer {
                line_width: ONE,
                front_face: FrontFace::CounterClockwise,
                cull_mode: CullMode::Nothing,
                polygon_mode: PolygonMode::Fill,
            },
            samples: 1,
            blend: Blend {
                enable: true,
                source_color: BlendFactor::SourceAlpha,
                destination_color: BlendFactor::OneMinusSourceAlpha,
                color_op: BlendOp::Add,
                source_alpha: BlendFactor::SourceAlpha,
                destination_alpha: BlendFactor::OneMinusSourceAlpha,
                alpha_op: BlendOp::Add,
                write_mask: ColorMask { red: true, green: true, blue: true, alpha: true },
            },
            layout,
            render_pass,
            subpass: 0,
        }
    }

    /// Starts the creation of the graphics pipeline for images of `extent`,
    /// to be used in `render_pass`.
    pub fn new(extent: Extent, render_pass: u64) -> (r: (PipelineCreation, Call))
        ensures
            r.0 == PipelineCreation::begin(extent, render_pass),
            r.1 == r.0.pending(),
    {
        let creation = PipelineCreation { extent, render_pass, stage: PipelineStage::VertexShader };
        let call = creation.call();
        (creation, call)
    }
}

} // verus!
