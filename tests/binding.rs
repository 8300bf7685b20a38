use shader_interface::binding::{
    AddressSpace, BindGroupLayoutEntry, BindingError, BindingType, BindingTypeName,
    BufferBindingType, ImageClass, ImageDimension, Resource, ResourceBinding, ResourceType,
    SamplerBindingType, ShaderStages, StorageAccess, StorageTextureAccess, TextureSampleType,
    TextureViewDimension,
};
use shader_interface::format::{
    StorageFormat, TextureFormat, VertexFormat, map_storage_format_from_naga,
    map_storage_format_to_naga,
};
use shader_interface::numeric::{
    NumericDimension, NumericType, Scalar, ScalarKind, VectorSize, check_texture_format,
};
use shader_interface::stage::InterfaceVar;

fn f32_scalar() -> Scalar {
    Scalar { kind: ScalarKind::Float, width: 4 }
}

fn nt(dim: NumericDimension, scalar: Scalar) -> NumericType {
    NumericType { dim, scalar }
}

fn resource(ty: ResourceType, class: AddressSpace) -> Resource {
    Resource { name: None, bind: ResourceBinding { group: 0, binding: 0 }, ty, class }
}

fn entry(ty: BindingType) -> BindGroupLayoutEntry {
    BindGroupLayoutEntry {
        binding: 0,
        visibility: ShaderStages { vertex: true, fragment: true, compute: true },
        ty,
        count: None,
    }
}

const LOAD: StorageAccess = StorageAccess { load: true, store: false, atomic: false };
const LOAD_STORE: StorageAccess = StorageAccess { load: true, store: true, atomic: false };
const STORE: StorageAccess = StorageAccess { load: false, store: true, atomic: false };
const ATOMIC: StorageAccess = StorageAccess { load: true, store: true, atomic: true };

#[test]
fn subtype_examples() {
    let scalar = nt(NumericDimension::Scalar, f32_scalar());
    let vec4 = nt(NumericDimension::Vector(VectorSize::Quad), f32_scalar());
    let vec2 = nt(NumericDimension::Vector(VectorSize::Bi), f32_scalar());
    let mat2 = nt(NumericDimension::Matrix(VectorSize::Bi, VectorSize::Bi), f32_scalar());
    let mat3 = nt(NumericDimension::Matrix(VectorSize::Tri, VectorSize::Tri), f32_scalar());
    assert!(scalar.is_subtype_of(&vec4));
    assert!(!vec4.is_subtype_of(&scalar));
    assert!(!mat2.is_subtype_of(&mat3));
    assert!(mat2.is_subtype_of(&mat2));
    assert!(vec2.is_subtype_of(&vec4));
    assert!(!vec4.is_subtype_of(&vec2));
    let f64_scalar = nt(NumericDimension::Scalar, Scalar { kind: ScalarKind::Float, width: 8 });
    assert!(scalar.is_subtype_of(&f64_scalar));
    assert!(!f64_scalar.is_subtype_of(&scalar));
    let uint = nt(NumericDimension::Scalar, Scalar { kind: ScalarKind::Uint, width: 4 });
    assert!(!uint.is_subtype_of(&scalar));
}

#[test]
fn subtype_is_transitive_on_a_chain() {
    let scalar = nt(NumericDimension::Scalar, f32_scalar());
    let vec3 = nt(NumericDimension::Vector(VectorSize::Tri), f32_scalar());
    let vec4 = nt(NumericDimension::Vector(VectorSize::Quad), Scalar { kind: ScalarKind::Float, width: 8 });
    assert!(scalar.is_subtype_of(&vec3));
    assert!(vec3.is_subtype_of(&vec4));
    assert!(scalar.is_subtype_of(&vec4));
}

#[test]
fn num_components_of_shapes() {
    assert_eq!(NumericDimension::Scalar.num_components(), 1);
    assert_eq!(NumericDimension::Vector(VectorSize::Tri).num_components(), 3);
    assert_eq!(NumericDimension::Matrix(VectorSize::Quad, VectorSize::Tri).num_components(), 12);
}

#[test]
fn texture_format_shapes() {
    let rgba8 = NumericType::from_texture_format(TextureFormat::Rgba8Unorm);
    assert_eq!(rgba8, nt(NumericDimension::Vector(VectorSize::Quad), f32_scalar()));
    let r32u = NumericType::from_texture_format(TextureFormat::R32Uint);
    assert_eq!(r32u, nt(NumericDimension::Scalar, Scalar { kind: ScalarKind::Uint, width: 4 }));
    let r64 = NumericType::from_texture_format(TextureFormat::R64Uint);
    assert_eq!(r64, nt(NumericDimension::Scalar, Scalar { kind: ScalarKind::Uint, width: 8 }));
}

#[test]
fn texture_format_covers_output() {
    let vec4 = nt(NumericDimension::Vector(VectorSize::Quad), f32_scalar());
    assert_eq!(check_texture_format(TextureFormat::R8Unorm, &vec4), Ok(()));
    let vec2 = nt(NumericDimension::Vector(VectorSize::Bi), f32_scalar());
    assert_eq!(
        check_texture_format(TextureFormat::Rgba16Float, &vec2),
        Err(nt(NumericDimension::Vector(VectorSize::Quad), f32_scalar()))
    );
}

#[test]
fn vertex_attribute_types() {
    let v = InterfaceVar::vertex_attribute(VertexFormat::Unorm8x2);
    assert_eq!(v.ty, nt(NumericDimension::Vector(VectorSize::Bi), f32_scalar()));
    assert_eq!(v.interpolation, None);
    assert_eq!(v.sampling, None);
    let s = InterfaceVar::vertex_attribute(VertexFormat::Sint16x4);
    assert_eq!(s.ty, nt(NumericDimension::Vector(VectorSize::Quad), Scalar { kind: ScalarKind::Sint, width: 4 }));
    let d = InterfaceVar::vertex_attribute(VertexFormat::Float64x3);
    assert_eq!(d.ty, nt(NumericDimension::Vector(VectorSize::Tri), Scalar { kind: ScalarKind::Float, width: 8 }));
}

#[test]
fn storage_format_round_trip() {
    for f in [
        TextureFormat::R8Unorm,
        TextureFormat::Rgba8Uint,
        TextureFormat::Bgra8Unorm,
        TextureFormat::Rg11b10Ufloat,
        TextureFormat::R64Uint,
        TextureFormat::Rgba16Snorm,
        TextureFormat::Rgba32Float,
    ] {
        let s = map_storage_format_to_naga(f).unwrap();
        assert_eq!(map_storage_format_from_naga(s), f);
    }
    assert_eq!(map_storage_format_to_naga(TextureFormat::Rgba8UnormSrgb), None);
    assert_eq!(map_storage_format_to_naga(TextureFormat::Depth32Float), None);
    assert_eq!(map_storage_format_to_naga(TextureFormat::R32Float), Some(StorageFormat::R32Float));
}

#[test]
fn derived_binding_passes_its_own_check() {
    let texture = |class| ResourceType::Texture { dim: ImageDimension::Cube, arrayed: true, class };
    let cases = vec![
        resource(ResourceType::Buffer { size: 64 }, AddressSpace::Uniform),
        resource(ResourceType::Buffer { size: 8 }, AddressSpace::Storage { access: LOAD }),
        resource(ResourceType::Buffer { size: 8 }, AddressSpace::Storage { access: LOAD_STORE }),
        resource(ResourceType::Sampler { comparison: true }, AddressSpace::Handle),
        resource(ResourceType::Sampler { comparison: false }, AddressSpace::Handle),
        resource(texture(ImageClass::Sampled { kind: ScalarKind::Float, multi: false }), AddressSpace::Handle),
        resource(texture(ImageClass::Sampled { kind: ScalarKind::Sint, multi: true }), AddressSpace::Handle),
        resource(texture(ImageClass::Depth { multi: false }), AddressSpace::Handle),
        resource(
            ResourceType::Texture {
                dim: ImageDimension::D3,
                arrayed: false,
                class: ImageClass::Storage { format: StorageFormat::Rgba8Unorm, access: STORE },
            },
            AddressSpace::Handle,
        ),
        resource(
            ResourceType::Texture {
                dim: ImageDimension::D2,
                arrayed: false,
                class: ImageClass::Storage { format: StorageFormat::R32Uint, access: ATOMIC },
            },
            AddressSpace::Handle,
        ),
        resource(ResourceType::AccelerationStructure { vertex_return: true }, AddressSpace::Handle),
    ];
    for r in &cases {
        for filtering in [false, true] {
            let ty = r.derive_binding_type(filtering).unwrap();
            assert_eq!(r.check_binding_use(&entry(ty)), Ok(()));
        }
    }
}

#[test]
fn derive_binding_values() {
    let storage = resource(ResourceType::Buffer { size: 8 }, AddressSpace::Storage { access: LOAD });
    assert_eq!(
        storage.derive_binding_type(false),
        Ok(BindingType::Buffer {
            ty: BufferBindingType::Storage { read_only: true },
            has_dynamic_offset: false,
            min_binding_size: Some(8),
        })
    );
    let tex = resource(
        ResourceType::Texture {
            dim: ImageDimension::D2,
            arrayed: true,
            class: ImageClass::Storage { format: StorageFormat::Rg32Float, access: LOAD_STORE },
        },
        AddressSpace::Handle,
    );
    assert_eq!(
        tex.derive_binding_type(false),
        Ok(BindingType::StorageTexture {
            access: StorageTextureAccess::ReadWrite,
            format: TextureFormat::Rg32Float,
            view_dimension: TextureViewDimension::D2Array,
        })
    );
    let private = resource(ResourceType::Buffer { size: 4 }, AddressSpace::Private);
    assert_eq!(
        private.derive_binding_type(false),
        Err(BindingError::WrongBufferAddressSpace { space: AddressSpace::Private })
    );
}

#[test]
fn check_binding_use_errors() {
    let uniform = resource(ResourceType::Buffer { size: 16 }, AddressSpace::Uniform);
    assert_eq!(
        uniform.check_binding_use(&entry(BindingType::Sampler(SamplerBindingType::Filtering))),
        Err(BindingError::WrongType { binding: BindingTypeName::Sampler, shader: BindingTypeName::Buffer })
    );
    assert_eq!(
        uniform.check_binding_use(&entry(BindingType::Buffer {
            ty: BufferBindingType::Storage { read_only: true },
            has_dynamic_offset: false,
            min_binding_size: None,
        })),
        Err(BindingError::WrongAddressSpace {
            binding: AddressSpace::Storage { access: LOAD },
            shader: AddressSpace::Uniform,
        })
    );

    let sampler = resource(ResourceType::Sampler { comparison: true }, AddressSpace::Handle);
    assert_eq!(
        sampler.check_binding_use(&entry(BindingType::Sampler(SamplerBindingType::NonFiltering))),
        Err(BindingError::WrongSamplerComparison)
    );

    let tex2d = resource(
        ResourceType::Texture {
            dim: ImageDimension::D2,
            arrayed: false,
            class: ImageClass::Sampled { kind: ScalarKind::Float, multi: false },
        },
        AddressSpace::Handle,
    );
    let cube_binding = BindingType::Texture {
        sample_type: TextureSampleType::Float { filterable: true },
        view_dimension: TextureViewDimension::Cube,
        multisampled: false,
    };
    assert_eq!(
        tex2d.check_binding_use(&entry(cube_binding)),
        Err(BindingError::WrongTextureViewDimension {
            dim: ImageDimension::D2,
            is_array: false,
            binding: cube_binding,
        })
    );
    assert!(matches!(
        tex2d.check_binding_use(&entry(BindingType::Buffer {
            ty: BufferBindingType::Uniform,
            has_dynamic_offset: false,
            min_binding_size: None,
        })),
        Err(BindingError::WrongTextureViewDimension { is_array: false, .. })
    ));
    assert_eq!(
        tex2d.check_binding_use(&entry(BindingType::Texture {
            sample_type: TextureSampleType::Uint,
            view_dimension: TextureViewDimension::D2,
            multisampled: false,
        })),
        Err(BindingError::WrongTextureClass {
            binding: ImageClass::Sampled { kind: ScalarKind::Uint, multi: false },
            shader: ImageClass::Sampled { kind: ScalarKind::Float, multi: false },
        })
    );
    assert_eq!(
        tex2d.check_binding_use(&entry(BindingType::StorageTexture {
            access: StorageTextureAccess::ReadOnly,
            format: TextureFormat::Depth32Float,
            view_dimension: TextureViewDimension::D2,
        })),
        Err(BindingError::BadStorageFormat(TextureFormat::Depth32Float))
    );
    assert_eq!(
        tex2d.check_binding_use(&entry(BindingType::ExternalTexture)),
        Err(BindingError::WrongType {
            binding: BindingTypeName::ExternalTexture,
            shader: BindingTypeName::Texture,
        })
    );

    let accel = resource(ResourceType::AccelerationStructure { vertex_return: false }, AddressSpace::Handle);
    assert_eq!(
        accel.check_binding_use(&entry(BindingType::AccelerationStructure { vertex_return: true })),
        Err(BindingError::WrongType {
            binding: BindingTypeName::AccelerationStructure,
            shader: BindingTypeName::AccelerationStructure,
        })
    );
}
