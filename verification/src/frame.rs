//! Per-frame phase ordering.
//!
//! Each frame, the update side's configuration is snapshot into the render
//! side (extract), the snapshot is flushed into the GPU uniform buffer
//! (prepare), and only then does the per-view node run (render).  Because
//! the flush strictly precedes the draw, the draw of a frame always reads
//! the configuration extracted that same frame: one frame of latency,
//! never a torn or stale-beyond-one-frame value.

use vstd::prelude::*;

use crate::binding::RenderDevice;
use crate::config::ConfigBuffer;
use crate::config::EdgeDetectionConfig;
use crate::config::config_bytes;
use crate::config::prepare_config_buffer;
use crate::node::EdgeDetectionNode;
use crate::node::NodeOutcome;
use crate::node::ViewPrepassTextures;
use crate::node::ViewTarget;
use crate::node::ViewUniformOffset;
use crate::node::ViewUniforms;
use crate::node::executed_bind_entries;
use crate::node::executed_view_target;
use crate::node::node_skips;
use crate::pipeline::EdgeDetectionPipeline;
use crate::pipeline::PipelineCache;

verus! {

/// The render side's state: the injected device, the cached pipeline
/// resources, the pipeline-cache collaborator, the shared view uniforms,
/// the configuration buffer, and the configuration snapshot taken from the
/// update side at the start of the current frame.
pub struct RenderWorld {
    pub device: RenderDevice,
    pub pipeline: EdgeDetectionPipeline,
    pub pipeline_cache: PipelineCache,
    pub view_uniforms: ViewUniforms,
    pub config_buffer: ConfigBuffer,
    pub extracted_config: EdgeDetectionConfig,
}

impl RenderWorld {
    pub open spec fn wf(self) -> bool {
        &&& self.pipeline_cache.wf()
        &&& self.config_buffer.wf()
    }
}

/// The extract phase: snapshots the update side's configuration into the
/// render side.  Nothing else of the render side changes; the GPU buffer in
/// particular still holds the previously prepared value.
pub fn extract_config(config: &EdgeDetectionConfig, render_world: &mut RenderWorld)
    ensures
        final(render_world).extracted_config == *config,
        final(render_world).pipeline == old(render_world).pipeline,
        final(render_world).pipeline_cache == old(render_world).pipeline_cache,
        final(render_world).view_uniforms == old(render_world).view_uniforms,
        final(render_world).config_buffer == old(render_world).config_buffer,
{
    render_world.extracted_config = *config;
}

/// The prepare phase: flushes the extracted snapshot into the GPU uniform
/// buffer, unconditionally.  Runs strictly before any draw of the frame.
pub fn prepare_phase(render_world: &mut RenderWorld)
    ensures
        final(render_world).extracted_config == old(render_world).extracted_config,
        final(render_world).pipeline == old(render_world).pipeline,
        final(render_world).pipeline_cache == old(render_world).pipeline_cache,
        final(render_world).view_uniforms == old(render_world).view_uniforms,
        final(render_world).config_buffer.config == old(render_world).extracted_config,
        final(render_world).config_buffer.gpu_bytes@ == config_bytes(
            old(render_world).extracted_config,
        ),
        final(render_world).config_buffer.buffer_id == old(render_world).config_buffer.buffer_id,
        final(render_world).config_buffer.wf(),
{
    let config = render_world.extracted_config;
    prepare_config_buffer(&config, &mut render_world.config_buffer);
}

/// One whole frame for one view, phases in order: extract the update side's
/// configuration, flush it to the GPU, then run the per-view node.
///
/// The draw — when it happens — therefore consumes exactly the
/// configuration passed in this frame: advancing one frame after a change
/// makes the GPU buffer reflect it before the draw reads it.
pub fn advance_frame(
    main_world_config: &EdgeDetectionConfig,
    render_world: &mut RenderWorld,
    view_target: &mut ViewTarget,
    prepass_textures: &ViewPrepassTextures,
    view_uniform: &ViewUniformOffset,
) -> (r: NodeOutcome)
    requires
        old(render_world).wf(),
    ensures
        final(render_world).wf(),
        final(render_world).extracted_config == *main_world_config,
        final(render_world).config_buffer.config == *main_world_config,
        final(render_world).config_buffer.gpu_bytes@ == config_bytes(*main_world_config),
        final(render_world).config_buffer.buffer_id == old(render_world).config_buffer.buffer_id,
        final(render_world).pipeline == old(render_world).pipeline,
        final(render_world).pipeline_cache == old(render_world).pipeline_cache,
        final(render_world).view_uniforms == old(render_world).view_uniforms,
        r is Skipped <==> node_skips(
            old(render_world).pipeline_cache,
            old(render_world).pipeline,
            old(render_world).view_uniforms,
            *prepass_textures,
        ),
        r is Skipped ==> *final(view_target) == *old(view_target),
        r is Executed ==> *final(view_target) == executed_view_target(
            *old(view_target),
            *prepass_textures,
            view_uniform.offset,
            *main_world_config,
        ),
        r matches NodeOutcome::Executed { draw } ==> {
            &&& draw.pipeline_id == old(render_world).pipeline.pipeline_id
            &&& draw.bind_group.entries@ == executed_bind_entries(
                old(view_target).main_texture().view_id,
                old(render_world).pipeline.sampler.sampler_id,
                prepass_textures.depth.unwrap().view_id,
                prepass_textures.normal.unwrap().view_id,
                old(render_world).view_uniforms.uniforms.unwrap(),
                old(render_world).config_buffer.buffer_id,
            )
            &&& draw.dynamic_offsets@ == seq![view_uniform.offset]
            &&& draw.target_view_id == old(view_target).other_texture().view_id
            &&& draw.vertex_count == 3
            &&& draw.instance_count == 1
        },
{
    extract_config(main_world_config, render_world);
    prepare_phase(render_world);
    let node = EdgeDetectionNode;
    node.run(
        &render_world.device,
        &render_world.pipeline,
        &render_world.pipeline_cache,
        &render_world.view_uniforms,
        &render_world.config_buffer,
        view_target,
        prepass_textures,
        view_uniform,
    )
}

} // verus!
