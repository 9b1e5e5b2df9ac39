//! The edge-detection pipeline and its cache entry.
//!
//! Built once: the bind-group layout describing the six resources the shader
//! consumes, the filtering sampler, and a render pipeline queued with the
//! pipeline-cache collaborator.  Compilation is asynchronous: until the
//! cache reports the pipeline ready, every per-frame lookup fails and the
//! render node skips its draw for that frame.

use vstd::prelude::*;

use crate::binding::RenderDevice;
use crate::binding::RenderDeviceExt;
use crate::binding::SamplerHandle;
use crate::layout;
use crate::layout::BindGroupLayout;
use crate::layout::BindingType;
use crate::layout::SamplerBindingType;
use crate::layout::ShaderStages;
use crate::layout::TextureSampleType;
use crate::layout::edge_detection_layout_entries;

verus! {

/// Asset identifier of the edge-detection shader module.
pub const SHADER_HANDLE: u64 = 410592619790336;

/// Colour formats a view's output texture may have.
#[derive(Clone, Copy, Debug, PartialEq, Eq, Structural)]
pub enum TextureFormat {
    Rgba8UnormSrgb,
    Bgra8UnormSrgb,
}

/// The vertex stage of a render pipeline.
#[derive(Clone, Copy, Debug, PartialEq, Eq, Structural)]
pub struct VertexState {
    pub vertex_count: u32,
    pub uses_vertex_buffers: bool,
    pub uses_index_buffer: bool,
}

/// The vertex stage drawing one triangle that covers the whole clip-space
/// viewport: three hard-coded vertices, no vertex buffers, no index buffer.
pub fn fullscreen_vertex_state() -> (v: VertexState)
    ensures
        v == (VertexState { vertex_count: 3, uses_vertex_buffers: false, uses_index_buffer: false
        }),
{
    VertexState { vertex_count: 3, uses_vertex_buffers: false, uses_index_buffer: false }
}

/// A compiled-pipeline description: one bind-group layout, a full-screen
/// vertex stage, a fragment stage, a single colour target written without
/// blending, no depth/stencil state, no multisampling.
#[derive(Clone, Debug, PartialEq, Eq)]
pub struct RenderPipelineDescriptor {
    pub label: &'static str,
    pub layout: BindGroupLayout,
    pub vertex: VertexState,
    pub fragment_shader: u64,
    pub fragment_entry_point: &'static str,
    pub target_format: TextureFormat,
    pub target_has_blend: bool,
    /// Bit mask of the colour channels written; 0xf writes all four.
    pub target_write_mask: u32,
    pub has_depth_stencil: bool,
    pub multisample_count: u32,
}

/// The pipeline-cache collaborator: pipelines queued for compilation, and
/// which of them have finished compiling.  Compilation completes at some
/// frame boundary chosen by the host, not by this crate.
pub struct PipelineCache {
    pub descriptors: Vec<RenderPipelineDescriptor>,
    pub compiled: Vec<bool>,
}

impl PipelineCache {
    /// Every queued pipeline has a compilation flag.
    pub open spec fn wf(self) -> bool {
        self.compiled@.len() == self.descriptors@.len()
    }

    /// Whether the pipeline queued under `id` has finished compiling.
    pub open spec fn pipeline_ready(self, id: int) -> bool {
        0 <= id < self.compiled@.len() && self.compiled@[id]
    }

    /// An empty cache, before anything is queued.
    pub fn new() -> (c: PipelineCache)
        ensures
            c.wf(),
            c.descriptors@.len() == 0,
    {
        PipelineCache { descriptors: Vec::new(), compiled: Vec::new() }
    }

    /// Queues a pipeline for asynchronous compilation and returns its
    /// identifier.  The pipeline is not ready yet.
    pub fn queue_render_pipeline(&mut self, descriptor: RenderPipelineDescriptor) -> (id: usize)
        requires
            old(self).wf(),
        ensures
            final(self).wf(),
            id == old(self).descriptors@.len(),
            final(self).descriptors@ == old(self).descriptors@.push(descriptor),
            final(self).compiled@ == old(self).compiled@.push(false),
            !final(self).pipeline_ready(id as int),
    {
        let id = self.descriptors.len();
        self.descriptors.push(descriptor);
        self.compiled.push(false);
        id
    }

    /// The host signals that the pipeline queued under `id` has finished
    /// compiling.
    pub fn finish_compiling(&mut self, id: usize)
        requires
            old(self).wf(),
            id < old(self).descriptors@.len(),
        ensures
            final(self).wf(),
            final(self).descriptors@ == old(self).descriptors@,
            final(self).compiled@ == old(self).compiled@.update(id as int, true),
            final(self).pipeline_ready(id as int),
    {
        self.compiled[id] = true;
    }

    /// The per-frame lookup: the descriptor of the pipeline queued under
    /// `id`, or `None` exactly while it has not finished compiling.
    pub fn get_render_pipeline(&self, id: usize) -> (r: Option<&RenderPipelineDescriptor>)
        requires
            self.wf(),
        ensures
            r is Some <==> self.pipeline_ready(id as int),
            r matches Some(d) ==> *d == self.descriptors@[id as int],
    {
        if id < self.compiled.len() && self.compiled[id] {
            Some(&self.descriptors[id])
        } else {
            None
        }
    }
}

/// The cached resources of the edge-detection pass: the six-slot bind-group
/// layout, the filtering sampler, and the identifier of the queued pipeline.
/// Created once; immutable thereafter.
pub struct EdgeDetectionPipeline {
    pub layout: BindGroupLayout,
    pub sampler: SamplerHandle,
    pub pipeline_id: usize,
}

impl EdgeDetectionPipeline {
    /// Builds the bind-group layout of the six resources the shader
    /// consumes — source colour texture, filtering sampler, depth prepass
    /// texture, normal prepass texture, view uniform, configuration
    /// uniform, numbered 0 to 5 in that order — and queues the full-screen
    /// edge-detection pipeline over it: three-vertex full-screen vertex
    /// stage, fragment stage entered at `fragment`, one colour target of the
    /// view's format written without blending, no depth/stencil, no
    /// multisampling.
    pub fn new(
        device: &RenderDevice,
        pipeline_cache: &mut PipelineCache,
        sampler: SamplerHandle,
        format: TextureFormat,
    ) -> (r: EdgeDetectionPipeline)
        requires
            old(pipeline_cache).wf(),
        ensures
            final(pipeline_cache).wf(),
            r.layout.entries@ == edge_detection_layout_entries(),
            r.sampler == sampler,
            r.pipeline_id == old(pipeline_cache).descriptors@.len(),
            !final(pipeline_cache).pipeline_ready(r.pipeline_id as int),
            final(pipeline_cache).compiled@ == old(pipeline_cache).compiled@.push(false),
            final(pipeline_cache).descriptors@.len() == old(pipeline_cache).descriptors@.len() + 1,
            forall|i: int|
                0 <= i < old(pipeline_cache).descriptors@.len()
                    ==> #[trigger] final(pipeline_cache).descriptors@[i] == old(
                    pipeline_cache,
                ).descriptors@[i],
            ({
                let d = final(pipeline_cache).descriptors@.last();
                &&& d.label@ == "edge_detection_pipeline"@
                &&& d.layout.entries@ == edge_detection_layout_entries()
                &&& d.vertex == (VertexState {
                    vertex_count: 3,
                    uses_vertex_buffers: false,
                    uses_index_buffer: false,
                })
                &&& d.fragment_shader == SHADER_HANDLE
                &&& d.fragment_entry_point@ == "fragment"@
                &&& d.target_format == format
                &&& !d.target_has_blend
                &&& d.target_write_mask == 0xf
                &&& !d.has_depth_stencil
                &&& d.multisample_count == 1
            }),
    {
        let types: Vec<BindingType> = vec![
            layout::texture_2d(TextureSampleType::Float { filterable: true }),
            layout::sampler(SamplerBindingType::Filtering),
            layout::texture_depth_2d(),
            layout::texture_2d(TextureSampleType::Float { filterable: true }),
            layout::uniform_buffer(false, None),
            layout::uniform_buffer(false, None),
        ];
        let group_layout = device.create_bind_group_layout_ext(
            "edge_detection_bind_group_layout",
            ShaderStages::Fragment,
            types,
        );
        proof {
            assert(group_layout.entries@ =~= edge_detection_layout_entries());
        }
        let descriptor = RenderPipelineDescriptor {
            label: "edge_detection_pipeline",
            layout: group_layout.duplicate(),
            vertex: fullscreen_vertex_state(),
            fragment_shader: SHADER_HANDLE,
            fragment_entry_point: "fragment",
            target_format: format,
            target_has_blend: false,
            target_write_mask: 0xf,
            has_depth_stencil: false,
            multisample_count: 1,
        };
        let pipeline_id = pipeline_cache.queue_render_pipeline(descriptor);
        EdgeDetectionPipeline { layout: group_layout, sampler, pipeline_id }
    }
}

} // verus!
