//! The per-view render node.
//!
//! Executed once per camera view per frame.  Either every required resource
//! is available — the compiled pipeline, the view uniform binding, the depth
//! and normal prepass textures — and the node records exactly one
//! full-screen draw into the view's destination texture, or the node skips
//! silently, leaving the view untouched; the missing resource reliably
//! appears on a later frame.
//!
//! Texture contents are modelled by value: a draw overwrites the whole
//! destination with a content determined by the bound source, depth and
//! normal contents, the view offset and the configuration — and by nothing
//! else, which is what makes the ping-pong write free of stale reads.

use vstd::prelude::*;

use crate::binding::AUTO_BINDING;
use crate::binding::BindGroup;
use crate::binding::BindGroupEntry;
use crate::binding::BindingResouceExt;
use crate::binding::BindingResourceRef;
use crate::binding::RenderDevice;
use crate::binding::RenderDeviceExt;
use crate::binding::TextureViewHandle;
use crate::config::ConfigBuffer;
use crate::config::EdgeDetectionConfig;
use crate::pipeline::EdgeDetectionPipeline;
use crate::pipeline::PipelineCache;

verus! {

/// What a texture holds.  A draw of this pass replaces the destination's
/// content with an `EdgeShaded` value recording exactly the inputs the
/// shader read; any other content is whatever an earlier pass put there.
#[derive(Debug, PartialEq, Eq)]
pub enum TextureContent {
    /// Nothing written yet this frame.
    Uninitialized,
    /// An image produced by an earlier pass, identified by value.
    Image { image_id: u64 },
    /// The output of the edge-detection pass over the recorded inputs.
    EdgeShaded {
        source: Box<TextureContent>,
        depth: Box<TextureContent>,
        normal: Box<TextureContent>,
        view_offset: u32,
        config: EdgeDetectionConfig,
    },
}

impl TextureContent {
    /// A content value equal to this one.
    pub fn duplicate(&self) -> (r: TextureContent)
        ensures
            r == *self,
        decreases *self,
    {
        match self {
            TextureContent::Uninitialized => TextureContent::Uninitialized,
            TextureContent::Image { image_id } => TextureContent::Image { image_id: *image_id },
            TextureContent::EdgeShaded { source, depth, normal, view_offset, config } => {
                TextureContent::EdgeShaded {
                    source: Box::new((&**source).duplicate()),
                    depth: Box::new((&**depth).duplicate()),
                    normal: Box::new((&**normal).duplicate()),
                    view_offset: *view_offset,
                    config: *config,
                }
            },
        }
    }
}

/// A texture of the view: the identifier of its (default) view, and what it
/// currently holds.
#[derive(Debug, PartialEq, Eq)]
pub struct Texture {
    pub view_id: u64,
    pub content: TextureContent,
}

impl Texture {
    /// A texture value equal to this one.
    pub fn duplicate(&self) -> (r: Texture)
        ensures
            r == *self,
    {
        Texture { view_id: self.view_id, content: self.content.duplicate() }
    }
}

impl BindingResouceExt for Texture {
    open spec fn bindable(&self) -> bool {
        true
    }

    open spec fn binding_resource(&self) -> BindingResourceRef {
        BindingResourceRef::TextureView { view_id: self.view_id }
    }

    fn bind_index(&self, binding_index: u32) -> (r: BindGroupEntry) {
        BindGroupEntry {
            binding: binding_index,
            resource: BindingResourceRef::TextureView { view_id: self.view_id },
        }
    }

    fn bind(&self) -> (r: BindGroupEntry) {
        self.bind_index(AUTO_BINDING)
    }
}

impl BindingResouceExt for Option<Texture> {
    open spec fn bindable(&self) -> bool {
        *self is Some
    }

    open spec fn binding_resource(&self) -> BindingResourceRef {
        BindingResourceRef::TextureView { view_id: self.unwrap().view_id }
    }

    fn bind_index(&self, binding_index: u32) -> (r: BindGroupEntry) {
        match self {
            Some(texture) => BindGroupEntry {
                binding: binding_index,
                resource: BindingResourceRef::TextureView { view_id: texture.view_id },
            },
            None => unreached(),
        }
    }

    fn bind(&self) -> (r: BindGroupEntry) {
        self.bind_index(AUTO_BINDING)
    }
}

/// The ping-pong pair of colour textures of one view.  The `main` texture
/// holds the most recently completed colour image; a post-process step reads
/// it and writes the other texture, which then becomes `main`, so reads
/// never alias writes.
#[derive(Debug, PartialEq, Eq)]
pub struct ViewTarget {
    pub texture_a: Texture,
    pub texture_b: Texture,
    pub main_is_a: bool,
}

impl ViewTarget {
    /// The two textures of the pair are distinct.
    pub open spec fn wf(self) -> bool {
        self.texture_a.view_id != self.texture_b.view_id
    }

    /// The texture holding the most recently completed colour image.
    pub open spec fn main_texture(self) -> Texture {
        if self.main_is_a {
            self.texture_a
        } else {
            self.texture_b
        }
    }

    /// The texture a post-process step writes next.
    pub open spec fn other_texture(self) -> Texture {
        if self.main_is_a {
            self.texture_b
        } else {
            self.texture_a
        }
    }

    /// Borrow of the texture holding the most recently completed image.
    pub fn main_ref(&self) -> (t: &Texture)
        ensures
            *t == self.main_texture(),
    {
        if self.main_is_a {
            &self.texture_a
        } else {
            &self.texture_b
        }
    }

    /// Borrow of the texture a post-process step writes next.
    pub fn other_ref(&self) -> (t: &Texture)
        ensures
            *t == self.other_texture(),
    {
        if self.main_is_a {
            &self.texture_b
        } else {
            &self.texture_a
        }
    }
}

/// The depth and normal textures produced by the view's prepasses, if the
/// camera requested them.
#[derive(Debug, PartialEq, Eq)]
pub struct ViewPrepassTextures {
    pub depth: Option<Texture>,
    pub normal: Option<Texture>,
}

/// The dynamic offset of this view's record inside the shared view uniform
/// buffer.  It must accompany the bind group when the draw is recorded;
/// omitting it would make the shader read another view's transform.
#[derive(Clone, Copy, Debug, PartialEq, Eq, Structural)]
pub struct ViewUniformOffset {
    pub offset: u32,
}

/// The shared view uniform buffer; `uniforms` is `None` until the host has
/// written and bound it for this frame.
#[derive(Clone, Copy, Debug, PartialEq, Eq, Structural)]
pub struct ViewUniforms {
    pub uniforms: Option<BindingResourceRef>,
}

impl ViewUniforms {
    /// The buffer's binding, if it has been written this frame.
    pub fn binding(&self) -> (r: Option<BindingResourceRef>)
        ensures
            r == self.uniforms,
    {
        self.uniforms
    }
}

/// The one draw recorded by an executed node: pipeline, resolved bind group,
/// the view's dynamic offset, the destination, and the full-screen triangle.
#[derive(Debug, PartialEq, Eq)]
pub struct DrawRecord {
    pub pipeline_id: usize,
    pub bind_group: BindGroup,
    pub dynamic_offsets: Vec<u32>,
    pub target_view_id: u64,
    pub vertex_count: u32,
    pub instance_count: u32,
}

/// How a node run ended: skipped without touching the view, or executed
/// with exactly the recorded draw.
#[derive(Debug, PartialEq, Eq)]
pub enum NodeOutcome {
    Skipped,
    Executed { draw: DrawRecord },
}

/// The node skips exactly when a required resource is unavailable this
/// frame: the pipeline is still compiling, the view uniform buffer is not
/// bound yet, or the view lacks a depth or normal prepass texture.  The
/// configuration is not consulted: the node draws regardless of the
/// `enabled` and `debug` flags, which only the shader reads.
pub open spec fn node_skips(
    pipeline_cache: PipelineCache,
    pipeline: EdgeDetectionPipeline,
    view_uniforms: ViewUniforms,
    prepass_textures: ViewPrepassTextures,
) -> bool {
    ||| !pipeline_cache.pipeline_ready(pipeline.pipeline_id as int)
    ||| view_uniforms.uniforms is None
    ||| prepass_textures.depth is None
    ||| prepass_textures.normal is None
}

/// The content a draw of this pass writes: a function of the bound source,
/// depth and normal contents, the view offset and the configuration, and of
/// nothing else.
pub open spec fn edge_shaded_content(
    source: TextureContent,
    depth: TextureContent,
    normal: TextureContent,
    view_offset: u32,
    config: EdgeDetectionConfig,
) -> TextureContent {
    TextureContent::EdgeShaded {
        source: Box::new(source),
        depth: Box::new(depth),
        normal: Box::new(normal),
        view_offset,
        config,
    }
}

/// The view target after an executed draw: the former `other` texture holds
/// the shaded content and has become `main`; the former `main` texture is
/// untouched and has become `other`.
pub open spec fn executed_view_target(
    vt: ViewTarget,
    prepass_textures: ViewPrepassTextures,
    view_offset: u32,
    config: EdgeDetectionConfig,
) -> ViewTarget
    recommends
        prepass_textures.depth is Some,
        prepass_textures.normal is Some,
{
    let shaded = Texture {
        view_id: vt.other_texture().view_id,
        content: edge_shaded_content(
            vt.main_texture().content,
            prepass_textures.depth.unwrap().content,
            prepass_textures.normal.unwrap().content,
            view_offset,
            config,
        ),
    };
    if vt.main_is_a {
        ViewTarget { texture_a: vt.texture_a, texture_b: shaded, main_is_a: false }
    } else {
        ViewTarget { texture_a: shaded, texture_b: vt.texture_b, main_is_a: true }
    }
}

/// The six bind-group entries of an executed draw, numbered 0 to 5: source
/// colour view, sampler, depth prepass view, normal prepass view, view
/// uniform binding, configuration buffer.
pub open spec fn executed_bind_entries(
    source_view: u64,
    sampler_id: u64,
    depth_view: u64,
    normal_view: u64,
    view_binding: BindingResourceRef,
    config_buffer_id: u64,
) -> Seq<BindGroupEntry> {
    seq![
        BindGroupEntry {
            binding: 0,
            resource: BindingResourceRef::TextureView { view_id: source_view },
        },
        BindGroupEntry { binding: 1, resource: BindingResourceRef::Sampler { sampler_id } },
        BindGroupEntry {
            binding: 2,
            resource: BindingResourceRef::TextureView { view_id: depth_view },
        },
        BindGroupEntry {
            binding: 3,
            resource: BindingResourceRef::TextureView { view_id: normal_view },
        },
        BindGroupEntry { binding: 4, resource: view_binding },
        BindGroupEntry {
            binding: 5,
            resource: BindingResourceRef::Buffer {
                buffer_id: config_buffer_id,
                offset: 0,
                size: None,
            },
        },
    ]
}

/// Whether a resource reference is of the kind a layout slot demands: a
/// texture view for a texture slot, a sampler for a sampler slot, a buffer
/// range for a buffer slot.
pub open spec fn resource_matches_slot(
    resource: BindingResourceRef,
    slot: crate::layout::BindingType,
) -> bool {
    match resource {
        BindingResourceRef::TextureView { .. } => slot is Texture,
        BindingResourceRef::Sampler { .. } => slot is Sampler,
        BindingResourceRef::Buffer { .. } => slot is Buffer,
    }
}

/// The positional contract between the node and the pipeline: the six
/// entries an executed draw binds carry, slot by slot and under the same
/// binding numbers, resources of exactly the kinds the edge-detection
/// bind-group layout declares.
pub proof fn lemma_draw_matches_layout(
    source_view: u64,
    sampler_id: u64,
    depth_view: u64,
    normal_view: u64,
    view_binding: BindingResourceRef,
    config_buffer_id: u64,
)
    requires
        view_binding is Buffer,
    ensures
        ({
            let entries = executed_bind_entries(
                source_view,
                sampler_id,
                depth_view,
                normal_view,
                view_binding,
                config_buffer_id,
            );
            let slots = crate::layout::edge_detection_layout_entries();
            &&& entries.len() == slots.len()
            &&& forall|i: int|
                0 <= i < slots.len() ==> (#[trigger] entries[i]).binding == slots[i].binding
            &&& forall|i: int|
                0 <= i < slots.len() ==> resource_matches_slot(
                    (#[trigger] entries[i]).resource,
                    slots[i].ty,
                )
        }),
{
    let entries = executed_bind_entries(
        source_view,
        sampler_id,
        depth_view,
        normal_view,
        view_binding,
        config_buffer_id,
    );
    let slots = crate::layout::edge_detection_layout_entries();
    assert forall|i: int| 0 <= i < slots.len() implies (#[trigger] entries[i]).binding
        == slots[i].binding && resource_matches_slot(entries[i].resource, slots[i].ty) by {
        assert(slots[i].ty == crate::layout::edge_detection_binding_types()[i]);
        assert(slots[i].binding == i as u32);
    }
}

/// The unit of work inserted into the render graph, run once per view.
#[derive(Clone, Copy, Debug, Default)]
pub struct EdgeDetectionNode;

impl EdgeDetectionNode {
    /// Runs the node for one view.
    ///
    /// Skips — leaving the view exactly as it was — if and only if a
    /// required resource is unavailable ([`node_skips`]).  Otherwise records
    /// one draw: the six bindings numbered 0 to 5 in order, the view's
    /// dynamic offset, a three-vertex single-instance full-screen triangle
    /// targeting the destination texture; the destination's content becomes
    /// a function of the source, depth and normal contents, the view offset
    /// and the flushed configuration alone, and the target pair flips.
    pub fn run(
        &self,
        device: &RenderDevice,
        pipeline: &EdgeDetectionPipeline,
        pipeline_cache: &PipelineCache,
        view_uniforms: &ViewUniforms,
        config_buffer: &ConfigBuffer,
        view_target: &mut ViewTarget,
        prepass_textures: &ViewPrepassTextures,
        view_uniform: &ViewUniformOffset,
    ) -> (r: NodeOutcome)
        requires
            pipeline_cache.wf(),
        ensures
            r is Skipped <==> node_skips(
                *pipeline_cache,
                *pipeline,
                *view_uniforms,
                *prepass_textures,
            ),
            r is Skipped ==> *final(view_target) == *old(view_target),
            r matches NodeOutcome::Executed { draw } ==> {
                &&& *final(view_target) == executed_view_target(
                    *old(view_target),
                    *prepass_textures,
                    view_uniform.offset,
                    config_buffer.config,
                )
                &&& draw.pipeline_id == pipeline.pipeline_id
                &&& draw.bind_group.entries@ == executed_bind_entries(
                    old(view_target).main_texture().view_id,
                    pipeline.sampler.sampler_id,
                    prepass_textures.depth.unwrap().view_id,
                    prepass_textures.normal.unwrap().view_id,
                    view_uniforms.uniforms.unwrap(),
                    config_buffer.buffer_id,
                )
                &&& draw.dynamic_offsets@ == seq![view_uniform.offset]
                &&& draw.target_view_id == old(view_target).other_texture().view_id
                &&& draw.vertex_count == 3
                &&& draw.instance_count == 1
                &&& old(view_target).wf() ==> draw.target_view_id != old(
                    view_target,
                ).main_texture().view_id
            },
    {
        let looked_up = pipeline_cache.get_render_pipeline(pipeline.pipeline_id);
        if looked_up.is_none() {
            return NodeOutcome::Skipped;
        }
        let view_binding = match view_uniforms.binding() {
            Some(b) => b,
            None => {
                return NodeOutcome::Skipped;
            },
        };
        let depth_texture = match &prepass_textures.depth {
            Some(t) => t,
            None => {
                return NodeOutcome::Skipped;
            },
        };
        let normal_texture = match &prepass_textures.normal {
            Some(t) => t,
            None => {
                return NodeOutcome::Skipped;
            },
        };
        // Resolve the ping-pong pair: read the current main texture, write
        // the other one.
        let (source_view_id, source_content, destination_view_id) = if view_target.main_is_a {
            (
                view_target.texture_a.view_id,
                view_target.texture_a.content.duplicate(),
                view_target.texture_b.view_id,
            )
        } else {
            (
                view_target.texture_b.view_id,
                view_target.texture_b.content.duplicate(),
                view_target.texture_a.view_id,
            )
        };
        // The six bindings, in shader order, numbered automatically.
        let source_view = TextureViewHandle { view_id: source_view_id };
        let mut entries: Vec<BindGroupEntry> = Vec::new();
        entries.push(source_view.bind());
        entries.push(pipeline.sampler.bind());
        entries.push(depth_texture.bind());
        entries.push(normal_texture.bind());
        entries.push(BindGroupEntry { binding: AUTO_BINDING, resource: view_binding });
        entries.push(config_buffer.bind());
        proof {
            assert(forall|j: int|
                0 <= j < entries@.len() ==> (#[trigger] entries@[j]).binding == AUTO_BINDING);
        }
        let bind_group = match device.create_bind_group_ext(
            "edge_detection_bind_group",
            &pipeline.layout,
            entries,
        ) {
            Ok(bg) => bg,
            Err(_) => unreached(),
        };
        proof {
            assert(bind_group.entries@ =~= executed_bind_entries(
                source_view_id,
                pipeline.sampler.sampler_id,
                depth_texture.view_id,
                normal_texture.view_id,
                view_binding,
                config_buffer.buffer_id,
            ));
        }
        let mut dynamic_offsets: Vec<u32> = Vec::new();
        dynamic_offsets.push(view_uniform.offset);
        let draw = DrawRecord {
            pipeline_id: pipeline.pipeline_id,
            bind_group,
            dynamic_offsets,
            target_view_id: destination_view_id,
            vertex_count: 3,
            instance_count: 1,
        };
        // The full-screen triangle overwrites every texel of the
        // destination; nothing of its previous content survives.
        let shaded = TextureContent::EdgeShaded {
            source: Box::new(source_content),
            depth: Box::new(depth_texture.content.duplicate()),
            normal: Box::new(normal_texture.content.duplicate()),
            view_offset: view_uniform.offset,
            config: config_buffer.config,
        };
        if view_target.main_is_a {
            view_target.texture_b.content = shaded;
            view_target.main_is_a = false;
        } else {
            view_target.texture_a.content = shaded;
            view_target.main_is_a = true;
        }
        NodeOutcome::Executed { draw }
    }
}

/// The node records the same commands whichever configuration sits in the
/// buffer it binds: its skip decision never reads the configuration (see
/// [`node_skips`], which has no configuration input), its bind-group entries
/// depend only on the buffer's identity, and the destinations written under
/// two configurations agree in everything except the configuration value
/// recorded for the shader.  With the shader treating the two values alike —
/// as it does a pass-through branch — the resulting images are identical.
pub proof fn lemma_node_ignores_config(
    vt: ViewTarget,
    prepass_textures: ViewPrepassTextures,
    view_offset: u32,
    source_view: u64,
    sampler_id: u64,
    depth_view: u64,
    normal_view: u64,
    view_binding: BindingResourceRef,
    cb1: ConfigBuffer,
    cb2: ConfigBuffer,
)
    requires
        cb1.buffer_id == cb2.buffer_id,
        prepass_textures.depth is Some,
        prepass_textures.normal is Some,
    ensures
        executed_bind_entries(
            source_view,
            sampler_id,
            depth_view,
            normal_view,
            view_binding,
            cb1.buffer_id,
        ) == executed_bind_entries(
            source_view,
            sampler_id,
            depth_view,
            normal_view,
            view_binding,
            cb2.buffer_id,
        ),
        ({
            let t1 = executed_view_target(vt, prepass_textures, view_offset, cb1.config);
            let t2 = executed_view_target(vt, prepass_textures, view_offset, cb2.config);
            &&& t1.main_is_a == t2.main_is_a
            &&& t1.main_texture().view_id == t2.main_texture().view_id
            &&& t1.other_texture() == t2.other_texture()
            &&& t1.main_texture().content == edge_shaded_content(
                vt.main_texture().content,
                prepass_textures.depth.unwrap().content,
                prepass_textures.normal.unwrap().content,
                view_offset,
                cb1.config,
            )
            &&& t2.main_texture().content == edge_shaded_content(
                vt.main_texture().content,
                prepass_textures.depth.unwrap().content,
                prepass_textures.normal.unwrap().content,
                view_offset,
                cb2.config,
            )
        }),
{
}

/// What an executed draw writes is independent of the destination's previous
/// content: two view targets agreeing on the source texture and on the
/// destination's identity — but holding anything at all in the destination —
/// end with the same main texture.  Together with the source/destination
/// alternation this rules out stale reads from a previous frame.
pub proof fn lemma_destination_independent_of_previous_content(
    vt1: ViewTarget,
    vt2: ViewTarget,
    prepass_textures: ViewPrepassTextures,
    view_offset: u32,
    config: EdgeDetectionConfig,
)
    requires
        vt1.main_is_a == vt2.main_is_a,
        vt1.main_texture() == vt2.main_texture(),
        vt1.other_texture().view_id == vt2.other_texture().view_id,
        prepass_textures.depth is Some,
        prepass_textures.normal is Some,
    ensures
        executed_view_target(vt1, prepass_textures, view_offset, config).main_texture()
            == executed_view_target(vt2, prepass_textures, view_offset, config).main_texture(),
{
}

} // verus!
