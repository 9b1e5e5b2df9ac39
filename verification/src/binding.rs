//! The binding helper layer.
//!
//! Turns heterogeneous GPU resource handles (texture views, samplers,
//! buffers) into positionally numbered bind-group entry descriptors.  An
//! entry is either given its binding index explicitly or marked for
//! automatic numbering; a bind group built in automatic mode numbers its
//! entries 0, 1, 2, … in list order.  Mixing the two modes in one call is a
//! programming-contract violation and fails construction.

use vstd::prelude::*;

use crate::config::ConfigBuffer;
use crate::layout::BindGroupLayout;

verus! {

/// Sentinel binding index (the largest `u32`) marking an entry for automatic
/// numbering.  No resolved entry ever carries this index.
pub const AUTO_BINDING: u32 = 0xFFFF_FFFF;

/// A reference to one GPU resource, as carried by a bind-group entry.
#[derive(Clone, Copy, Debug, PartialEq, Eq, Structural)]
pub enum BindingResourceRef {
    TextureView { view_id: u64 },
    Sampler { sampler_id: u64 },
    /// A buffer range: from `offset`, of `size` bytes, or to the end of the
    /// buffer when `size` is `None`.
    Buffer { buffer_id: u64, offset: u64, size: Option<u64> },
}

/// One slot of a bind group: a binding index (possibly the automatic
/// sentinel, until resolved) and the resource bound there.
#[derive(Clone, Copy, Debug, PartialEq, Eq, Structural)]
pub struct BindGroupEntry {
    pub binding: u32,
    pub resource: BindingResourceRef,
}

/// A bind group: resolved, numbered entries ready for a draw.
#[derive(Clone, Debug, PartialEq, Eq)]
pub struct BindGroup {
    pub entries: Vec<BindGroupEntry>,
}

/// Rejection of a bind-group construction that mixed explicitly indexed
/// entries with automatically numbered ones.
#[derive(Clone, Copy, Debug, PartialEq, Eq, Structural)]
pub enum BindingIndexError {
    Mixed,
}

/// Every entry is marked for automatic numbering.
pub open spec fn all_automatic(entries: Seq<BindGroupEntry>) -> bool {
    forall|j: int| 0 <= j < entries.len() ==> (#[trigger] entries[j]).binding == AUTO_BINDING
}

/// Every entry carries an explicit binding index.
pub open spec fn all_explicit(entries: Seq<BindGroupEntry>) -> bool {
    forall|j: int| 0 <= j < entries.len() ==> (#[trigger] entries[j]).binding != AUTO_BINDING
}

/// Resolves the binding indices of `entries`: in automatic mode the entries
/// are numbered 0, 1, 2, … in list order; in explicit mode they are kept as
/// given; a mix of the two modes fails.  Resources are never reordered.
pub fn resolve_binding_indices(entries: &Vec<BindGroupEntry>) -> (r: Result<
    Vec<BindGroupEntry>,
    BindingIndexError,
>)
    requires
        entries@.len() <= 0xFFFF_FFFF,
    ensures
        match r {
            Ok(out) => {
                &&& all_automatic(entries@) || all_explicit(entries@)
                &&& out@.len() == entries@.len()
                &&& forall|i: int|
                    0 <= i < entries@.len() ==> (#[trigger] out@[i]).resource
                        == entries@[i].resource
                &&& all_automatic(entries@) ==> forall|i: int|
                    0 <= i < entries@.len() ==> (#[trigger] out@[i]).binding == i as u32
                &&& all_explicit(entries@) ==> out@ == entries@
            },
            Err(e) => {
                &&& e == BindingIndexError::Mixed
                &&& !all_automatic(entries@)
                &&& !all_explicit(entries@)
            },
        },
{
    let n: usize = entries.len();
    let mut has_auto = false;
    let mut has_explicit = false;
    let mut i: usize = 0;
    while i < n
        invariant
            n == entries@.len(),
            i <= n,
            has_auto <==> exists|j: int|
                0 <= j < i && (#[trigger] entries@[j]).binding == AUTO_BINDING,
            has_explicit <==> exists|j: int|
                0 <= j < i && (#[trigger] entries@[j]).binding != AUTO_BINDING,
        decreases n - i,
    {
        if entries[i].binding == AUTO_BINDING {
            has_auto = true;
        } else {
            has_explicit = true;
        }
        i = i + 1;
    }
    if has_auto && has_explicit {
        return Err(BindingIndexError::Mixed);
    }
    let mut out: Vec<BindGroupEntry> = Vec::new();
    if has_explicit {
        let mut i: usize = 0;
        while i < n
            invariant
                n == entries@.len(),
                i <= n,
                out@ == entries@.subrange(0, i as int),
            decreases n - i,
        {
            out.push(entries[i]);
            i = i + 1;
        }
        proof {
            assert(out@ =~= entries@);
        }
    } else {
        let mut i: usize = 0;
        while i < n
            invariant
                n == entries@.len(),
                n <= 0xFFFF_FFFF,
                i <= n,
                out@.len() == i,
                forall|j: int|
                    0 <= j < i ==> #[trigger] out@[j] == (BindGroupEntry {
                        binding: j as u32,
                        resource: entries@[j].resource,
                    }),
            decreases n - i,
        {
            out.push(BindGroupEntry { binding: i as u32, resource: entries[i].resource });
            i = i + 1;
        }
    }
    Ok(out)
}

/// Anything that can stand in a bind group: produces an entry descriptor
/// carrying its resource reference, either at an explicit binding index or
/// marked for automatic numbering.
pub trait BindingResouceExt {
    /// Whether an entry can be produced at all (the buffer has been
    /// allocated, an optional texture is present).
    spec fn bindable(&self) -> bool;

    /// The resource reference a produced entry carries.
    spec fn binding_resource(&self) -> BindingResourceRef;

    /// An entry at the explicit index `binding_index`.
    fn bind_index(&self, binding_index: u32) -> (r: BindGroupEntry)
        requires
            self.bindable(),
        ensures
            r == (BindGroupEntry { binding: binding_index, resource: self.binding_resource() }),
    ;

    /// An entry marked for automatic numbering.
    fn bind(&self) -> (r: BindGroupEntry)
        requires
            self.bindable(),
        ensures
            r == (BindGroupEntry { binding: AUTO_BINDING, resource: self.binding_resource() }),
    ;
}

/// A view onto a texture, as handed to a bind group.
#[derive(Clone, Copy, Debug, PartialEq, Eq, Structural)]
pub struct TextureViewHandle {
    pub view_id: u64,
}

impl BindingResouceExt for TextureViewHandle {
    open spec fn bindable(&self) -> bool {
        true
    }

    open spec fn binding_resource(&self) -> BindingResourceRef {
        BindingResourceRef::TextureView { view_id: self.view_id }
    }

    fn bind_index(&self, binding_index: u32) -> (r: BindGroupEntry) {
        BindGroupEntry {
            binding: binding_index,
            resource: BindingResourceRef::TextureView { view_id: self.view_id },
        }
    }

    fn bind(&self) -> (r: BindGroupEntry) {
        self.bind_index(AUTO_BINDING)
    }
}

/// A sampler object.
#[derive(Clone, Copy, Debug, PartialEq, Eq, Structural)]
pub struct SamplerHandle {
    pub sampler_id: u64,
}

impl BindingResouceExt for SamplerHandle {
    open spec fn bindable(&self) -> bool {
        true
    }

    open spec fn binding_resource(&self) -> BindingResourceRef {
        BindingResourceRef::Sampler { sampler_id: self.sampler_id }
    }

    fn bind_index(&self, binding_index: u32) -> (r: BindGroupEntry) {
        BindGroupEntry {
            binding: binding_index,
            resource: BindingResourceRef::Sampler { sampler_id: self.sampler_id },
        }
    }

    fn bind(&self) -> (r: BindGroupEntry) {
        self.bind_index(AUTO_BINDING)
    }
}

/// A uniform buffer; `buffer` is `None` until the first flush allocates the
/// underlying GPU buffer.  Binds its entire contents.
#[derive(Clone, Copy, Debug, PartialEq, Eq, Structural)]
pub struct UniformBufferHandle {
    pub buffer: Option<u64>,
}

impl BindingResouceExt for UniformBufferHandle {
    open spec fn bindable(&self) -> bool {
        self.buffer is Some
    }

    open spec fn binding_resource(&self) -> BindingResourceRef {
        BindingResourceRef::Buffer { buffer_id: self.buffer.unwrap(), offset: 0, size: None }
    }

    fn bind_index(&self, binding_index: u32) -> (r: BindGroupEntry) {
        let buffer_id = match self.buffer {
            Some(id) => id,
            None => unreached(),
        };
        BindGroupEntry {
            binding: binding_index,
            resource: BindingResourceRef::Buffer { buffer_id, offset: 0, size: None },
        }
    }

    fn bind(&self) -> (r: BindGroupEntry) {
        self.bind_index(AUTO_BINDING)
    }
}

/// A storage buffer; `buffer` is `None` until the first flush allocates the
/// underlying GPU buffer.  Binds its entire contents.
#[derive(Clone, Copy, Debug, PartialEq, Eq, Structural)]
pub struct StorageBufferHandle {
    pub buffer: Option<u64>,
}

impl BindingResouceExt for StorageBufferHandle {
    open spec fn bindable(&self) -> bool {
        self.buffer is Some
    }

    open spec fn binding_resource(&self) -> BindingResourceRef {
        BindingResourceRef::Buffer { buffer_id: self.buffer.unwrap(), offset: 0, size: None }
    }

    fn bind_index(&self, binding_index: u32) -> (r: BindGroupEntry) {
        let buffer_id = match self.buffer {
            Some(id) => id,
            None => unreached(),
        };
        BindGroupEntry {
            binding: binding_index,
            resource: BindingResourceRef::Buffer { buffer_id, offset: 0, size: None },
        }
    }

    fn bind(&self) -> (r: BindGroupEntry) {
        self.bind_index(AUTO_BINDING)
    }
}

/// A dynamically offset uniform buffer holding many records of `min_size`
/// bytes; a binding covers one record, selected by the dynamic offset given
/// when the bind group is set.
#[derive(Clone, Copy, Debug, PartialEq, Eq, Structural)]
pub struct DynamicUniformBufferHandle {
    pub buffer: Option<u64>,
    pub min_size: u64,
}

impl BindingResouceExt for DynamicUniformBufferHandle {
    open spec fn bindable(&self) -> bool {
        self.buffer is Some
    }

    open spec fn binding_resource(&self) -> BindingResourceRef {
        BindingResourceRef::Buffer {
            buffer_id: self.buffer.unwrap(),
            offset: 0,
            size: Some(self.min_size),
        }
    }

    fn bind_index(&self, binding_index: u32) -> (r: BindGroupEntry) {
        let buffer_id = match self.buffer {
            Some(id) => id,
            None => unreached(),
        };
        BindGroupEntry {
            binding: binding_index,
            resource: BindingResourceRef::Buffer {
                buffer_id,
                offset: 0,
                size: Some(self.min_size),
            },
        }
    }

    fn bind(&self) -> (r: BindGroupEntry) {
        self.bind_index(AUTO_BINDING)
    }
}

impl BindingResouceExt for ConfigBuffer {
    open spec fn bindable(&self) -> bool {
        true
    }

    open spec fn binding_resource(&self) -> BindingResourceRef {
        BindingResourceRef::Buffer { buffer_id: self.buffer_id, offset: 0, size: None }
    }

    fn bind_index(&self, binding_index: u32) -> (r: BindGroupEntry) {
        BindGroupEntry {
            binding: binding_index,
            resource: BindingResourceRef::Buffer {
                buffer_id: self.buffer_id,
                offset: 0,
                size: None,
            },
        }
    }

    fn bind(&self) -> (r: BindGroupEntry) {
        self.bind_index(AUTO_BINDING)
    }
}

/// The host GPU device, an explicit injected dependency.  Resource
/// construction goes through it, so the helpers below sit where the real
/// allocation happens.
#[derive(Clone, Copy, Debug)]
pub struct RenderDevice;

/// Device-side construction helpers: bind groups and bind-group layouts from
/// ordered entry lists, numbered automatically.
pub trait RenderDeviceExt {
    /// Builds a bind group from `entries` after resolving their binding
    /// indices; fails exactly when explicit and automatic indices are mixed.
    fn create_bind_group_ext(
        &self,
        label: &'static str,
        layout: &BindGroupLayout,
        entries: Vec<BindGroupEntry>,
    ) -> (r: Result<BindGroup, BindingIndexError>)
        requires
            entries@.len() <= 0xFFFF_FFFF,
        ensures
            match r {
                Ok(bg) => {
                    &&& all_automatic(entries@) || all_explicit(entries@)
                    &&& bg.entries@.len() == entries@.len()
                    &&& forall|i: int|
                        0 <= i < entries@.len() ==> (#[trigger] bg.entries@[i]).resource
                            == entries@[i].resource
                    &&& all_automatic(entries@) ==> forall|i: int|
                        0 <= i < entries@.len() ==> (#[trigger] bg.entries@[i]).binding == i as u32
                    &&& all_explicit(entries@) ==> bg.entries@ == entries@
                },
                Err(e) => {
                    &&& e == BindingIndexError::Mixed
                    &&& !all_automatic(entries@)
                    &&& !all_explicit(entries@)
                },
            },
    ;

    /// Builds a layout whose slots are `entries` numbered 0, 1, 2, … in list
    /// order, all with the same `visibility`.
    fn create_bind_group_layout_ext(
        &self,
        label: &'static str,
        visibility: crate::layout::ShaderStages,
        entries: Vec<crate::layout::BindingType>,
    ) -> (r: BindGroupLayout)
        requires
            entries@.len() <= 0xFFFF_FFFF,
        ensures
            r.entries@.len() == entries@.len(),
            forall|i: int|
                0 <= i < entries@.len() ==> #[trigger] r.entries@[i]
                    == (crate::layout::BindGroupLayoutEntry {
                    binding: i as u32,
                    visibility,
                    ty: entries@[i],
                }),
    ;

    /// Builds a layout whose slots are `entries` numbered 0, 1, 2, … in list
    /// order, each using `default_visibility` unless it overrides it.
    fn create_bind_group_layout_ext2(
        &self,
        label: &'static str,
        default_visibility: crate::layout::ShaderStages,
        entries: Vec<crate::layout::BindGroupLayoutEntryWrapper>,
    ) -> (r: BindGroupLayout)
        requires
            entries@.len() <= 0xFFFF_FFFF,
        ensures
            r.entries@.len() == entries@.len(),
            forall|i: int|
                0 <= i < entries@.len() ==> #[trigger] r.entries@[i]
                    == (crate::layout::BindGroupLayoutEntry {
                    binding: i as u32,
                    visibility: entries@[i].effective_visibility(default_visibility),
                    ty: entries@[i].ty,
                }),
    ;
}

impl RenderDeviceExt for RenderDevice {
    fn create_bind_group_ext(
        &self,
        label: &'static str,
        layout: &BindGroupLayout,
        entries: Vec<BindGroupEntry>,
    ) -> (r: Result<BindGroup, BindingIndexError>) {
        match resolve_binding_indices(&entries) {
            Ok(resolved) => Ok(BindGroup { entries: resolved }),
            Err(e) => Err(e),
        }
    }

    fn create_bind_group_layout_ext(
        &self,
        label: &'static str,
        visibility: crate::layout::ShaderStages,
        entries: Vec<crate::layout::BindingType>,
    ) -> (r: BindGroupLayout) {
        let n: usize = entries.len();
        let mut out: Vec<crate::layout::BindGroupLayoutEntry> = Vec::new();
        let mut i: usize = 0;
        while i < n
            invariant
                n == entries@.len(),
                n <= 0xFFFF_FFFF,
                i <= n,
                out@.len() == i,
                forall|j: int|
                    0 <= j < i ==> #[trigger] out@[j] == (crate::layout::BindGroupLayoutEntry {
                        binding: j as u32,
                        visibility,
                        ty: entries@[j],
                    }),
            decreases n - i,
        {
            out.push(
                crate::layout::BindGroupLayoutEntry {
                    binding: i as u32,
                    visibility,
                    ty: entries[i],
                },
            );
            i = i + 1;
        }
        BindGroupLayout { entries: out }
    }

    fn create_bind_group_layout_ext2(
        &self,
        label: &'static str,
        default_visibility: crate::layout::ShaderStages,
        entries: Vec<crate::layout::BindGroupLayoutEntryWrapper>,
    ) -> (r: BindGroupLayout) {
        let n: usize = entries.len();
        let mut out: Vec<crate::layout::BindGroupLayoutEntry> = Vec::new();
        let mut i: usize = 0;
        while i < n
            invariant
                n == entries@.len(),
                n <= 0xFFFF_FFFF,
                i <= n,
                out@.len() == i,
                forall|j: int|
                    0 <= j < i ==> #[trigger] out@[j] == (crate::layout::BindGroupLayoutEntry {
                        binding: j as u32,
                        visibility: entries@[j].effective_visibility(default_visibility),
                        ty: entries@[j].ty,
                    }),
            decreases n - i,
        {
            let vis = match entries[i].override_vis {
                Some(v) => v,
                None => default_visibility,
            };
            out.push(
                crate::layout::BindGroupLayoutEntry {
                    binding: i as u32,
                    visibility: vis,
                    ty: entries[i].ty,
                },
            );
            i = i + 1;
        }
        BindGroupLayout { entries: out }
    }
}

} // verus!
