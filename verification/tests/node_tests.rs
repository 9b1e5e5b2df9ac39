use edge_detection::binding::BindingResourceRef;
use edge_detection::binding::RenderDevice;
use edge_detection::binding::SamplerHandle;
use edge_detection::config::prepare_config_buffer;
use edge_detection::config::ConfigBuffer;
use edge_detection::node::NodeOutcome;
use edge_detection::node::Texture;
use edge_detection::node::TextureContent;
use edge_detection::node::ViewPrepassTextures;
use edge_detection::node::ViewTarget;
use edge_detection::node::ViewUniformOffset;
use edge_detection::node::ViewUniforms;
use edge_detection::pipeline::EdgeDetectionPipeline;
use edge_detection::pipeline::PipelineCache;
use edge_detection::pipeline::TextureFormat;
use edge_detection::EdgeDetectionConfig;
use edge_detection::EdgeDetectionNode;

use edge_detection::binding::BindGroupEntry;
use edge_detection::binding::BindingResouceExt;
use edge_detection::binding::AUTO_BINDING;

const VIEW_OFFSET: u32 = 64;

fn view_uniform_binding() -> BindingResourceRef {
    BindingResourceRef::Buffer {
        buffer_id: 500,
        offset: 0,
        size: Some(144),
    }
}

fn ready_world(
    config: EdgeDetectionConfig,
) -> (EdgeDetectionPipeline, PipelineCache, ViewUniforms, ConfigBuffer) {
    let mut cache = PipelineCache::new();
    let pipeline = EdgeDetectionPipeline::new(
        &RenderDevice,
        &mut cache,
        SamplerHandle { sampler_id: 7 },
        TextureFormat::Rgba8UnormSrgb,
    );
    cache.finish_compiling(pipeline.pipeline_id);
    let uniforms = ViewUniforms {
        uniforms: Some(view_uniform_binding()),
    };
    let mut buffer = ConfigBuffer::new(900);
    prepare_config_buffer(&config, &mut buffer);
    (pipeline, cache, uniforms, buffer)
}

fn fresh_target() -> ViewTarget {
    ViewTarget {
        texture_a: Texture {
            view_id: 1,
            content: TextureContent::Image { image_id: 100 },
        },
        texture_b: Texture {
            view_id: 2,
            content: TextureContent::Uninitialized,
        },
        main_is_a: true,
    }
}

fn fresh_prepass() -> ViewPrepassTextures {
    ViewPrepassTextures {
        depth: Some(Texture {
            view_id: 3,
            content: TextureContent::Image { image_id: 200 },
        }),
        normal: Some(Texture {
            view_id: 4,
            content: TextureContent::Image { image_id: 300 },
        }),
    }
}

fn run_node(
    pipeline: &EdgeDetectionPipeline,
    cache: &PipelineCache,
    uniforms: &ViewUniforms,
    buffer: &ConfigBuffer,
    target: &mut ViewTarget,
    prepass: &ViewPrepassTextures,
) -> NodeOutcome {
    EdgeDetectionNode.run(
        &RenderDevice,
        pipeline,
        cache,
        uniforms,
        buffer,
        target,
        prepass,
        &ViewUniformOffset {
            offset: VIEW_OFFSET,
        },
    )
}

#[test]
fn skips_while_pipeline_is_compiling() {
    let config = EdgeDetectionConfig::default();
    let (pipeline, _, uniforms, buffer) = ready_world(config);
    // A cache in which the pipeline was queued but never finished.
    let mut cold_cache = PipelineCache::new();
    let cold_pipeline = EdgeDetectionPipeline::new(
        &RenderDevice,
        &mut cold_cache,
        pipeline.sampler,
        TextureFormat::Rgba8UnormSrgb,
    );
    let mut target = fresh_target();
    let outcome = run_node(
        &cold_pipeline,
        &cold_cache,
        &uniforms,
        &buffer,
        &mut target,
        &fresh_prepass(),
    );
    assert_eq!(outcome, NodeOutcome::Skipped);
    assert_eq!(target, fresh_target());
}

#[test]
fn skips_without_view_uniform_binding() {
    let (pipeline, cache, _, buffer) = ready_world(EdgeDetectionConfig::default());
    let unbound = ViewUniforms { uniforms: None };
    let mut target = fresh_target();
    let outcome = run_node(
        &pipeline,
        &cache,
        &unbound,
        &buffer,
        &mut target,
        &fresh_prepass(),
    );
    assert_eq!(outcome, NodeOutcome::Skipped);
    assert_eq!(target, fresh_target());
}

#[test]
fn skips_without_depth_prepass() {
    let (pipeline, cache, uniforms, buffer) = ready_world(EdgeDetectionConfig::default());
    let mut prepass = fresh_prepass();
    prepass.depth = None;
    let mut target = fresh_target();
    let outcome = run_node(&pipeline, &cache, &uniforms, &buffer, &mut target, &prepass);
    assert_eq!(outcome, NodeOutcome::Skipped);
    assert_eq!(target, fresh_target());
}

#[test]
fn skips_without_normal_prepass() {
    let (pipeline, cache, uniforms, buffer) = ready_world(EdgeDetectionConfig::default());
    let mut prepass = fresh_prepass();
    prepass.normal = None;
    let mut target = fresh_target();
    let outcome = run_node(&pipeline, &cache, &uniforms, &buffer, &mut target, &prepass);
    assert_eq!(outcome, NodeOutcome::Skipped);
    // Zero draws: the destination (and everything else) is untouched.
    assert_eq!(target, fresh_target());
}

#[test]
fn executed_draw_binds_the_six_resources_in_order() {
    let config = EdgeDetectionConfig::default();
    let (pipeline, cache, uniforms, buffer) = ready_world(config);
    let mut target = fresh_target();
    let outcome = run_node(
        &pipeline,
        &cache,
        &uniforms,
        &buffer,
        &mut target,
        &fresh_prepass(),
    );
    let draw = match outcome {
        NodeOutcome::Executed { draw } => draw,
        NodeOutcome::Skipped => panic!("expected a draw"),
    };
    assert_eq!(draw.pipeline_id, pipeline.pipeline_id);
    assert_eq!(draw.vertex_count, 3);
    assert_eq!(draw.instance_count, 1);
    assert_eq!(draw.dynamic_offsets, vec![VIEW_OFFSET]);
    // Writes the other texture of the pair, never the one it reads.
    assert_eq!(draw.target_view_id, 2);
    let entries = &draw.bind_group.entries;
    assert_eq!(entries.len(), 6);
    for (i, entry) in entries.iter().enumerate() {
        assert_eq!(entry.binding, i as u32);
    }
    assert_eq!(
        entries[0].resource,
        BindingResourceRef::TextureView { view_id: 1 }
    );
    assert_eq!(
        entries[1].resource,
        BindingResourceRef::Sampler { sampler_id: 7 }
    );
    assert_eq!(
        entries[2].resource,
        BindingResourceRef::TextureView { view_id: 3 }
    );
    assert_eq!(
        entries[3].resource,
        BindingResourceRef::TextureView { view_id: 4 }
    );
    assert_eq!(entries[4].resource, view_uniform_binding());
    assert_eq!(
        entries[5].resource,
        BindingResourceRef::Buffer {
            buffer_id: 900,
            offset: 0,
            size: None
        }
    );
}

fn expected_shaded(config: EdgeDetectionConfig) -> TextureContent {
    TextureContent::EdgeShaded {
        source: Box::new(TextureContent::Image { image_id: 100 }),
        depth: Box::new(TextureContent::Image { image_id: 200 }),
        normal: Box::new(TextureContent::Image { image_id: 300 }),
        view_offset: VIEW_OFFSET,
        config,
    }
}

#[test]
fn executed_draw_overwrites_destination_and_flips_the_pair() {
    let config = EdgeDetectionConfig::default();
    let (pipeline, cache, uniforms, buffer) = ready_world(config);
    let mut target = fresh_target();
    let outcome = run_node(
        &pipeline,
        &cache,
        &uniforms,
        &buffer,
        &mut target,
        &fresh_prepass(),
    );
    assert!(matches!(outcome, NodeOutcome::Executed { .. }));
    assert!(!target.main_is_a);
    // The written texture holds exactly the shaded function of the inputs.
    assert_eq!(target.texture_b.view_id, 2);
    assert_eq!(target.texture_b.content, expected_shaded(config));
    // The source texture of the pair is untouched.
    assert_eq!(
        target.texture_a,
        Texture {
            view_id: 1,
            content: TextureContent::Image { image_id: 100 }
        }
    );
}

#[test]
fn node_draws_identically_for_enabled_zero_and_one() {
    let mut disabled = EdgeDetectionConfig::default();
    disabled.enabled = 0;
    let mut enabled = EdgeDetectionConfig::default();
    enabled.enabled = 1;

    let (pipeline0, cache0, uniforms0, buffer0) = ready_world(disabled);
    let (pipeline1, cache1, uniforms1, buffer1) = ready_world(enabled);

    let mut target0 = fresh_target();
    let mut target1 = fresh_target();
    let outcome0 = run_node(
        &pipeline0,
        &cache0,
        &uniforms0,
        &buffer0,
        &mut target0,
        &fresh_prepass(),
    );
    let outcome1 = run_node(
        &pipeline1,
        &cache1,
        &uniforms1,
        &buffer1,
        &mut target1,
        &fresh_prepass(),
    );

    // The node itself never branches on `enabled`: both runs draw, and they
    // record exactly the same commands (the configuration travels in the
    // buffer, not in the commands).
    let draw0 = match outcome0 {
        NodeOutcome::Executed { draw } => draw,
        NodeOutcome::Skipped => panic!("expected a draw at enabled = 0"),
    };
    let draw1 = match outcome1 {
        NodeOutcome::Executed { draw } => draw,
        NodeOutcome::Skipped => panic!("expected a draw at enabled = 1"),
    };
    assert_eq!(draw0, draw1);

    // The destinations agree in everything but the configuration value the
    // shader will read.
    assert_eq!(target0.main_is_a, target1.main_is_a);
    assert_eq!(target0.texture_a, target1.texture_a);
    assert_eq!(target0.texture_b.view_id, target1.texture_b.view_id);
    assert_eq!(target0.texture_b.content, expected_shaded(disabled));
    assert_eq!(target1.texture_b.content, expected_shaded(enabled));
}

#[test]
fn destination_content_is_independent_of_leftover_content() {
    let config = EdgeDetectionConfig::default();
    let (pipeline, cache, uniforms, buffer) = ready_world(config);

    // Two frames identical except for what a previous frame left in the
    // destination texture.
    let mut target_clean = fresh_target();
    let mut target_dirty = fresh_target();
    target_dirty.texture_b.content = TextureContent::Image { image_id: 999 };

    let outcome_clean = run_node(
        &pipeline,
        &cache,
        &uniforms,
        &buffer,
        &mut target_clean,
        &fresh_prepass(),
    );
    let outcome_dirty = run_node(
        &pipeline,
        &cache,
        &uniforms,
        &buffer,
        &mut target_dirty,
        &fresh_prepass(),
    );
    assert_eq!(outcome_clean, outcome_dirty);
    assert_eq!(target_clean, target_dirty);
    assert_eq!(target_clean.texture_b.content, expected_shaded(config));
}

#[test]
fn two_pass_frame_feeds_only_pass_a_outputs_into_pass_b() {
    let config = EdgeDetectionConfig::default();
    let (pipeline, cache, uniforms, buffer) = ready_world(config);

    // Pass A of the synthetic frame: the main pass writes colour, depth and
    // normals for this frame.
    let mut target = fresh_target();
    target.texture_a.content = TextureContent::Image { image_id: 41 };
    // Leftovers from an earlier frame sit in the destination.
    target.texture_b.content = TextureContent::Image { image_id: 77 };
    let prepass = ViewPrepassTextures {
        depth: Some(Texture {
            view_id: 3,
            content: TextureContent::Image { image_id: 42 },
        }),
        normal: Some(Texture {
            view_id: 4,
            content: TextureContent::Image { image_id: 43 },
        }),
    };

    // Pass B: this node.
    let outcome = run_node(&pipeline, &cache, &uniforms, &buffer, &mut target, &prepass);
    assert!(matches!(outcome, NodeOutcome::Executed { .. }));

    // The result is a function of pass A's outputs and the configuration
    // alone; image 77 appears nowhere in it.
    assert_eq!(
        target.texture_b.content,
        TextureContent::EdgeShaded {
            source: Box::new(TextureContent::Image { image_id: 41 }),
            depth: Box::new(TextureContent::Image { image_id: 42 }),
            normal: Box::new(TextureContent::Image { image_id: 43 }),
            view_offset: VIEW_OFFSET,
            config,
        }
    );
}

#[test]
fn textures_bind_their_views() {
    let texture = Texture {
        view_id: 12,
        content: TextureContent::Uninitialized,
    };
    assert_eq!(
        texture.bind_index(2),
        BindGroupEntry {
            binding: 2,
            resource: BindingResourceRef::TextureView { view_id: 12 },
        }
    );
    assert_eq!(texture.bind().binding, AUTO_BINDING);

    let cached = Some(Texture {
        view_id: 13,
        content: TextureContent::Image { image_id: 1 },
    });
    assert_eq!(
        cached.bind().resource,
        BindingResourceRef::TextureView { view_id: 13 }
    );
}

#[test]
fn view_target_exposes_the_current_pair() {
    let mut target = fresh_target();
    assert_eq!(target.main_ref().view_id, 1);
    assert_eq!(target.other_ref().view_id, 2);
    target.main_is_a = false;
    assert_eq!(target.main_ref().view_id, 2);
    assert_eq!(target.other_ref().view_id, 1);
}

#[test]
fn contents_duplicate_by_value() {
    let content = TextureContent::EdgeShaded {
        source: Box::new(TextureContent::Image { image_id: 1 }),
        depth: Box::new(TextureContent::Uninitialized),
        normal: Box::new(TextureContent::Image { image_id: 2 }),
        view_offset: 8,
        config: EdgeDetectionConfig::default(),
    };
    assert_eq!(content.duplicate(), content);
    let texture = Texture {
        view_id: 9,
        content,
    };
    assert_eq!(texture.duplicate(), texture);
}
