//! Bind-group layout descriptions.
//!
//! A bind-group layout is the fixed, numbered list of resource slots the
//! shader declares; every draw must supply resources matching it slot by
//! slot.  This module models the slot types, the helpers that build
//! positionally numbered layout entries from an ordered list of slot types,
//! and the exact six-slot layout of the edge-detection shader.

use vstd::prelude::*;

verus! {

/// The shader stages from which a binding is visible.
#[derive(Clone, Copy, Debug, PartialEq, Eq, Structural)]
pub enum ShaderStages {
    Vertex,
    Fragment,
    Compute,
    VertexFragment,
}

/// How a sampler binding may be used by the shader.
#[derive(Clone, Copy, Debug, PartialEq, Eq, Structural)]
pub enum SamplerBindingType {
    Filtering,
    NonFiltering,
    Comparison,
}

/// How a texture binding is sampled.
#[derive(Clone, Copy, Debug, PartialEq, Eq, Structural)]
pub enum TextureSampleType {
    Float { filterable: bool },
    Depth,
}

/// How a buffer binding is used by the shader.
#[derive(Clone, Copy, Debug, PartialEq, Eq, Structural)]
pub enum BufferBindingType {
    Uniform,
    Storage { read_only: bool },
}

/// The type of one resource slot of a bind-group layout.  All textures here
/// are two-dimensional; `min_binding_size`, when given, is a non-zero byte
/// count.
#[derive(Clone, Copy, Debug, PartialEq, Eq, Structural)]
pub enum BindingType {
    Buffer { ty: BufferBindingType, has_dynamic_offset: bool, min_binding_size: Option<u64> },
    Texture { sample_type: TextureSampleType, multisampled: bool },
    Sampler(SamplerBindingType),
}

/// A read-write storage buffer slot.
pub fn storage_buffer(has_dynamic_offset: bool, min_binding_size: Option<u64>) -> (t: BindingType)
    ensures
        t == (BindingType::Buffer {
            ty: BufferBindingType::Storage { read_only: false },
            has_dynamic_offset,
            min_binding_size,
        }),
{
    BindingType::Buffer {
        ty: BufferBindingType::Storage { read_only: false },
        has_dynamic_offset,
        min_binding_size,
    }
}

/// A read-only storage buffer slot.
pub fn storage_buffer_read_only(has_dynamic_offset: bool, min_binding_size: Option<u64>) -> (t:
    BindingType)
    ensures
        t == (BindingType::Buffer {
            ty: BufferBindingType::Storage { read_only: true },
            has_dynamic_offset,
            min_binding_size,
        }),
{
    BindingType::Buffer {
        ty: BufferBindingType::Storage { read_only: true },
        has_dynamic_offset,
        min_binding_size,
    }
}

/// A uniform buffer slot.
pub fn uniform_buffer(has_dynamic_offset: bool, min_binding_size: Option<u64>) -> (t: BindingType)
    ensures
        t == (BindingType::Buffer {
            ty: BufferBindingType::Uniform,
            has_dynamic_offset,
            min_binding_size,
        }),
{
    BindingType::Buffer { ty: BufferBindingType::Uniform, has_dynamic_offset, min_binding_size }
}

/// A single-sampled two-dimensional texture slot.
pub fn texture_2d(sample_type: TextureSampleType) -> (t: BindingType)
    ensures
        t == (BindingType::Texture { sample_type, multisampled: false }),
{
    BindingType::Texture { sample_type, multisampled: false }
}

/// A multisampled two-dimensional texture slot.
pub fn texture_2d_multisampled(sample_type: TextureSampleType) -> (t: BindingType)
    ensures
        t == (BindingType::Texture { sample_type, multisampled: true }),
{
    BindingType::Texture { sample_type, multisampled: true }
}

/// A single-sampled two-dimensional depth texture slot.
pub fn texture_depth_2d() -> (t: BindingType)
    ensures
        t == (BindingType::Texture { sample_type: TextureSampleType::Depth, multisampled: false }),
{
    BindingType::Texture { sample_type: TextureSampleType::Depth, multisampled: false }
}

/// A multisampled two-dimensional depth texture slot.
pub fn texture_depth_2d_multisampled() -> (t: BindingType)
    ensures
        t == (BindingType::Texture { sample_type: TextureSampleType::Depth, multisampled: true }),
{
    BindingType::Texture { sample_type: TextureSampleType::Depth, multisampled: true }
}

/// A sampler slot.
pub fn sampler(sampler_binding_type: SamplerBindingType) -> (t: BindingType)
    ensures
        t == BindingType::Sampler(sampler_binding_type),
{
    BindingType::Sampler(sampler_binding_type)
}

/// One numbered slot of a bind-group layout.
#[derive(Clone, Copy, Debug, PartialEq, Eq, Structural)]
pub struct BindGroupLayoutEntry {
    pub binding: u32,
    pub visibility: ShaderStages,
    pub ty: BindingType,
}

/// A bind-group layout: the ordered, numbered slots a bind group must fill.
#[derive(Clone, Debug, PartialEq, Eq)]
pub struct BindGroupLayout {
    pub entries: Vec<BindGroupLayoutEntry>,
}

impl BindGroupLayout {
    /// A layout value with the same slots.  At runtime a layout handle is
    /// freely shared; duplicating keeps this model by-value.
    pub fn duplicate(&self) -> (r: BindGroupLayout)
        ensures
            r.entries@ == self.entries@,
    {
        let n: usize = self.entries.len();
        let mut entries: Vec<BindGroupLayoutEntry> = Vec::new();
        let mut i: usize = 0;
        while i < n
            invariant
                n == self.entries@.len(),
                i <= n,
                entries@ == self.entries@.subrange(0, i as int),
            decreases n - i,
        {
            entries.push(self.entries[i]);
            i = i + 1;
        }
        proof {
            assert(entries@ =~= self.entries@);
        }
        BindGroupLayout { entries }
    }
}

/// A slot type together with an optional per-slot visibility override, for
/// layouts whose slots are not all visible from the same stages.
#[derive(Clone, Copy, Debug, PartialEq, Eq, Structural)]
pub struct BindGroupLayoutEntryWrapper {
    pub override_vis: Option<ShaderStages>,
    pub ty: BindingType,
}

impl BindGroupLayoutEntryWrapper {
    /// A slot of type `ty` that uses the layout's default visibility.
    pub fn from_ty(ty: BindingType) -> (w: BindGroupLayoutEntryWrapper)
        ensures
            w == (BindGroupLayoutEntryWrapper { override_vis: None, ty }),
    {
        BindGroupLayoutEntryWrapper { override_vis: None, ty }
    }

    /// Overrides the visibility of this slot.
    pub fn visibility(self, override_vis: ShaderStages) -> (w: BindGroupLayoutEntryWrapper)
        ensures
            w == (BindGroupLayoutEntryWrapper { override_vis: Some(override_vis), ty: self.ty }),
    {
        BindGroupLayoutEntryWrapper { override_vis: Some(override_vis), ty: self.ty }
    }

    /// The visibility this slot ends up with under `default_visibility`.
    pub open spec fn effective_visibility(self, default_visibility: ShaderStages) -> ShaderStages {
        match self.override_vis {
            Some(v) => v,
            None => default_visibility,
        }
    }
}

/// The six slot types of the edge-detection shader, in binding order:
/// the source colour texture, the filtering sampler, the depth prepass
/// texture, the normal prepass texture, the view uniform and the
/// configuration uniform.
pub open spec fn edge_detection_binding_types() -> Seq<BindingType> {
    seq![
        BindingType::Texture {
            sample_type: TextureSampleType::Float { filterable: true },
            multisampled: false,
        },
        BindingType::Sampler(SamplerBindingType::Filtering),
        BindingType::Texture { sample_type: TextureSampleType::Depth, multisampled: false },
        BindingType::Texture {
            sample_type: TextureSampleType::Float { filterable: true },
            multisampled: false,
        },
        BindingType::Buffer {
            ty: BufferBindingType::Uniform,
            has_dynamic_offset: false,
            min_binding_size: None,
        },
        BindingType::Buffer {
            ty: BufferBindingType::Uniform,
            has_dynamic_offset: false,
            min_binding_size: None,
        },
    ]
}

/// The slots of the edge-detection bind-group layout: the six slot types
/// above, numbered 0 to 5 in order, all visible from the fragment stage.
pub open spec fn edge_detection_layout_entries() -> Seq<BindGroupLayoutEntry> {
    edge_detection_binding_types().map(
        |i: int, t: BindingType|
            BindGroupLayoutEntry { binding: i as u32, visibility: ShaderStages::Fragment, ty: t },
    )
}

} // verus!
