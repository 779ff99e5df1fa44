//! The graphics pipeline as data: the fixed state it is compiled with, and
//! the chain generation it was compiled for.

use crate::renderer::{Renderer, Viewport};
use vstd::prelude::*;

verus! {

/// A programmable stage of the pipeline.
#[derive(Clone, Copy, Debug, PartialEq, Eq, Structural)]
pub enum ShaderStage {
    Vertex,
    Fragment,
}

/// One per-vertex input of the vertex shader: `words` consecutive 32-bit
/// floats, `offset` bytes into the vertex.
#[derive(Clone, Copy, Debug, PartialEq, Eq, Structural)]
pub struct VertexAttribute {
    pub location: u32,
    pub offset: u32,
    pub words: u32,
}

/// The fixed state of the one pipeline.
#[derive(Debug)]
pub struct PipelineDescription {
    /// The stages, in pipeline order; each enters at `main`.
    pub stages: Vec<ShaderStage>,
    /// Position, colour, normal and texture coordinate, tightly packed.
    pub attributes: Vec<VertexAttribute>,
    /// Bytes from one vertex to the next.
    pub stride: u32,
    pub viewport: Viewport,
    /// Depth test and depth write are on.
    pub depth_test: bool,
    /// Blend states, one per colour attachment of the pass.
    pub color_blend_attachments: u32,
    /// The subpass the pipeline draws in.
    pub subpass: u32,
}

/// What the pipeline and the geometry were built for.
#[derive(Debug)]
pub struct PreRenderer {
    /// Number of vertices in the vertex buffer.
    pub vertex_count: usize,
    pub pipeline: PipelineDescription,
    /// Generation of the chain the pipeline was built for.
    pub generation: u64,
}

/// The stages of the pipeline.
pub open spec fn stages_for() -> Seq<ShaderStage> {
    seq![ShaderStage::Vertex, ShaderStage::Fragment]
}

/// The vertex inputs: three words each of position, colour and normal, two
/// of texture coordinate, each starting where the one before ends.
pub open spec fn attributes_for() -> Seq<VertexAttribute> {
    seq![
        VertexAttribute { location: 0, offset: 0, words: 3 },
        VertexAttribute { location: 1, offset: 12, words: 3 },
        VertexAttribute { location: 2, offset: 24, words: 3 },
        VertexAttribute { location: 3, offset: 36, words: 2 },
    ]
}

/// The fixed state is the right one for `viewport`.
pub open spec fn describes(pipeline: PipelineDescription, viewport: Viewport) -> bool {
    &&& pipeline.stages@ == stages_for()
    &&& pipeline.attributes@ == attributes_for()
    &&& pipeline.stride == 44
    &&& pipeline.viewport == viewport
    &&& pipeline.depth_test
    &&& pipeline.color_blend_attachments == 1
    &&& pipeline.subpass == 0
}

impl PreRenderer {
    /// Describes the pipeline that renders into `viewport`.
    pub fn get_pipeline(viewport: Viewport) -> (pipeline: PipelineDescription)
        ensures
            describes(pipeline, viewport),
    {
        let mut stages: Vec<ShaderStage> = Vec::new();
        stages.push(ShaderStage::Vertex);
        stages.push(ShaderStage::Fragment);
        let mut attributes: Vec<VertexAttribute> = Vec::new();
        attributes.push(VertexAttribute { location: 0, offset: 0, words: 3 });
        attributes.push(VertexAttribute { location: 1, offset: 12, words: 3 });
        attributes.push(VertexAttribute { location: 2, offset: 24, words: 3 });
        attributes.push(VertexAttribute { location: 3, offset: 36, words: 2 });
        assert(stages@ =~= stages_for());
        assert(attributes@ =~= attributes_for());
        PipelineDescription {
            stages,
            attributes,
            stride: 44,
            viewport,
            depth_test: true,
            color_blend_attachments: 1,
            subpass: 0,
        }
    }

    /// Prepares to draw `vertex_count` vertices on the chain as it is now.
    pub fn new<P: Copy, A: Copy>(renderer: &Renderer<P, A>, vertex_count: usize) -> (prepared: Self)
        ensures
            prepared.vertex_count == vertex_count,
            describes(prepared.pipeline, renderer.viewport),
            prepared.generation == renderer.generation,
    {
        PreRenderer {
            vertex_count,
            pipeline: Self::get_pipeline(renderer.viewport),
            generation: renderer.generation,
        }
    }

    /// Whether the chain was rebuilt since the pipeline was: a stale
    /// pipeline must be rebuilt before the next frame.
    pub fn is_stale<P: Copy, A: Copy>(&self, renderer: &Renderer<P, A>) -> (stale: bool)
        ensures
            stale == (self.generation != renderer.generation),
    {
        self.generation != renderer.generation
    }
}

} // verus!
