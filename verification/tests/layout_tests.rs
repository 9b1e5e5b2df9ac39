use edge_detection::binding::RenderDevice;
use edge_detection::binding::RenderDeviceExt;
use edge_detection::layout::sampler;
use edge_detection::layout::storage_buffer;
use edge_detection::layout::storage_buffer_read_only;
use edge_detection::layout::texture_2d;
use edge_detection::layout::texture_2d_multisampled;
use edge_detection::layout::texture_depth_2d;
use edge_detection::layout::texture_depth_2d_multisampled;
use edge_detection::layout::uniform_buffer;
use edge_detection::layout::BindGroupLayoutEntry;
use edge_detection::layout::BindGroupLayoutEntryWrapper;
use edge_detection::layout::BindingType;
use edge_detection::layout::BufferBindingType;
use edge_detection::layout::SamplerBindingType;
use edge_detection::layout::ShaderStages;
use edge_detection::layout::TextureSampleType;

#[test]
fn slot_type_constructors() {
    assert_eq!(
        storage_buffer(true, Some(64)),
        BindingType::Buffer {
            ty: BufferBindingType::Storage { read_only: false },
            has_dynamic_offset: true,
            min_binding_size: Some(64),
        }
    );
    assert_eq!(
        storage_buffer_read_only(false, None),
        BindingType::Buffer {
            ty: BufferBindingType::Storage { read_only: true },
            has_dynamic_offset: false,
            min_binding_size: None,
        }
    );
    assert_eq!(
        uniform_buffer(false, None),
        BindingType::Buffer {
            ty: BufferBindingType::Uniform,
            has_dynamic_offset: false,
            min_binding_size: None,
        }
    );
    assert_eq!(
        texture_2d(TextureSampleType::Float { filterable: true }),
        BindingType::Texture {
            sample_type: TextureSampleType::Float { filterable: true },
            multisampled: false,
        }
    );
    assert_eq!(
        texture_2d_multisampled(TextureSampleType::Float { filterable: false }),
        BindingType::Texture {
            sample_type: TextureSampleType::Float { filterable: false },
            multisampled: true,
        }
    );
    assert_eq!(
        texture_depth_2d(),
        BindingType::Texture {
            sample_type: TextureSampleType::Depth,
            multisampled: false,
        }
    );
    assert_eq!(
        texture_depth_2d_multisampled(),
        BindingType::Texture {
            sample_type: TextureSampleType::Depth,
            multisampled: true,
        }
    );
    assert_eq!(
        sampler(SamplerBindingType::Filtering),
        BindingType::Sampler(SamplerBindingType::Filtering)
    );
}

#[test]
fn layout_builder_numbers_slots_in_order() {
    let device = RenderDevice;
    let layout = device.create_bind_group_layout_ext(
        "example_layout",
        ShaderStages::Fragment,
        vec![
            texture_2d(TextureSampleType::Float { filterable: true }),
            sampler(SamplerBindingType::Filtering),
            uniform_buffer(false, None),
        ],
    );
    assert_eq!(layout.entries.len(), 3);
    for (i, entry) in layout.entries.iter().enumerate() {
        assert_eq!(entry.binding, i as u32);
        assert_eq!(entry.visibility, ShaderStages::Fragment);
    }
    assert_eq!(
        layout.entries[2].ty,
        BindingType::Buffer {
            ty: BufferBindingType::Uniform,
            has_dynamic_offset: false,
            min_binding_size: None,
        }
    );
}

#[test]
fn wrapper_layout_builder_honours_visibility_overrides() {
    let device = RenderDevice;
    let layout = device.create_bind_group_layout_ext2(
        "example_layout",
        ShaderStages::Fragment,
        vec![
            BindGroupLayoutEntryWrapper::from_ty(storage_buffer(false, None)),
            BindGroupLayoutEntryWrapper::from_ty(texture_2d(TextureSampleType::Float {
                filterable: true,
            }))
            .visibility(ShaderStages::VertexFragment),
            BindGroupLayoutEntryWrapper::from_ty(texture_2d_multisampled(
                TextureSampleType::Float { filterable: true },
            )),
        ],
    );
    assert_eq!(layout.entries.len(), 3);
    assert_eq!(
        layout.entries[0],
        BindGroupLayoutEntry {
            binding: 0,
            visibility: ShaderStages::Fragment,
            ty: storage_buffer(false, None),
        }
    );
    assert_eq!(layout.entries[1].visibility, ShaderStages::VertexFragment);
    assert_eq!(layout.entries[2].visibility, ShaderStages::Fragment);
    assert_eq!(layout.entries[2].binding, 2);
}

#[test]
fn layout_duplicate_preserves_slots() {
    let device = RenderDevice;
    let layout = device.create_bind_group_layout_ext(
        "example_layout",
        ShaderStages::Compute,
        vec![storage_buffer(false, None), texture_depth_2d()],
    );
    let copy = layout.duplicate();
    assert_eq!(copy, layout);
}
